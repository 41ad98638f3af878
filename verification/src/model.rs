//! Wire-level records of the gateway protocol and of the message API.

use vstd::prelude::*;

verus! {

/// A JSON value that the library carries through without looking inside.
#[verifier::external_type_specification]
#[verifier::external_body]
pub struct ExJsonValue(serde_json::Value);

/// `clone` of `serde_json::Value`, which the crate derives: the copy is the
/// same value, member for member.
pub assume_specification[ <serde_json::Value as Clone>::clone ](value: &serde_json::Value) -> (copy:
    serde_json::Value)
    ensures
        copy == *value,
;

/// The value a missing `disabled` flag of a component decodes to.
pub fn default_as_false() -> (flag: bool)
    ensures
        !flag,
{
    false
}

/// The value a missing list of options decodes to.
pub fn default_empty_array<T>() -> (items: Vec<T>)
    ensures
        items@.len() == 0,
{
    Vec::new()
}

/// A control signal for the command scheduler, as the operator's command
/// handler produces it.
#[derive(Debug, Clone)]
pub struct MasterCommand {
    pub command: MasterCommandType,
    pub tag: Option<String>,
}

/// What a control signal asks of the scheduler.
#[derive(Debug, Clone, Copy, PartialEq, Eq, Structural)]
pub enum MasterCommandType {
    Start,
    Stop,
}

/// The payload of the server's hello.
#[derive(Debug)]
pub struct HelloData {
    pub heartbeat_interval: u64,
}

/// The payload of a resume frame.
#[derive(Debug)]
pub struct ResumeData {
    pub token: String,
    pub session_id: String,
    pub seq: u64,
}

/// The body of a request that posts or edits a message.
#[derive(Debug)]
pub struct DiscordMessagePayload {
    pub content: String,
    pub message_reference: Option<DiscordMessagePayloadReference>,
}

/// The message a posted message refers back to.
#[derive(Debug)]
pub struct DiscordMessagePayloadReference {
    pub channel_id: String,
    pub guild_id: String,
    pub message_id: String,
}

/// The body of a request that uses a component of a message.
#[derive(Debug)]
pub struct DiscordMessageInteraction {
    pub discord_message_interaction_type: i64,
    pub guild_id: String,
    pub channel_id: String,
    pub message_id: String,
    pub application_id: String,
    pub session_id: String,
    pub data: DiscordMessageInteractionComponent,
}

/// The component an interaction uses, and what was picked in it.
#[derive(Debug)]
pub struct DiscordMessageInteractionComponent {
    pub component_type: ComponentType,
    pub custom_id: String,
    pub type_type: Option<u8>,
    pub values: Option<Vec<String>>,
}

/// The payload of an identify frame.
#[derive(Debug)]
pub struct IdentifyData {
    pub token: String,
    pub properties: Properties,
    pub compress: bool,
    pub presence: Presence,
}

/// The payload of the ready event.
#[derive(Debug)]
pub struct ReadyData {
    pub user: ReadyDataUser,
    pub session_id: String,
}

/// The identity of the account, as the ready event gives it.
#[derive(Debug)]
pub struct ReadyDataUser {
    pub accent_color: Option<serde_json::Value>,
    pub avatar: Option<String>,
    pub banner: Option<serde_json::Value>,
    pub banner_color: Option<serde_json::Value>,
    pub bio: String,
    pub desktop: bool,
    pub discriminator: String,
    pub email: String,
    pub flags: i64,
    pub id: String,
    pub mfa_enabled: bool,
    pub mobile: bool,
    pub nsfw_allowed: Option<serde_json::Value>,
    pub phone: Option<serde_json::Value>,
    pub premium: bool,
    pub purchased_flags: i64,
    pub username: String,
    pub verified: bool,
}

impl Clone for ReadyDataUser {
    fn clone(&self) -> (copy: Self)
        ensures
            copy == *self,
    {
        ReadyDataUser {
            accent_color: self.accent_color.clone(),
            avatar: self.avatar.clone(),
            banner: self.banner.clone(),
            banner_color: self.banner_color.clone(),
            bio: self.bio.clone(),
            desktop: self.desktop,
            discriminator: self.discriminator.clone(),
            email: self.email.clone(),
            flags: self.flags,
            id: self.id.clone(),
            mfa_enabled: self.mfa_enabled,
            mobile: self.mobile,
            nsfw_allowed: self.nsfw_allowed.clone(),
            phone: self.phone.clone(),
            premium: self.premium,
            purchased_flags: self.purchased_flags,
            username: self.username.clone(),
            verified: self.verified,
        }
    }
}

/// The presence an identify frame announces.
#[derive(Debug)]
pub struct Presence {
    pub activities: Vec<Activity>,
    pub status: String,
    pub since: i64,
    pub afk: bool,
}

/// One activity of a presence.
#[derive(Debug)]
pub struct Activity {
    pub name: String,
    pub activity_type: i64,
}

/// What an identify frame says of the client's software.
#[derive(Debug)]
pub struct Properties {
    pub os: String,
    pub browser: String,
    pub device: String,
}

/// The body of a message-like event, for a new message and for an edit alike.
#[derive(Debug)]
pub struct MessageCreateData {
    pub message_create_data_type: i64,
    pub tts: bool,
    pub timestamp: String,
    pub referenced_message: Option<Box<MessageCreateData>>,
    pub pinned: bool,
    pub mentions: Vec<MessageCreateDataAuthor>,
    pub mention_roles: Vec<Option<String>>,
    pub mention_everyone: bool,
    pub id: String,
    pub flags: i64,
    pub embeds: Vec<Embed>,
    pub edited_timestamp: Option<String>,
    pub content: String,
    pub components: Vec<MessageCreateDataComponent>,
    pub channel_id: String,
    pub author: MessageCreateDataAuthor,
    pub attachments: Vec<Attachment>,
    pub member: Option<Member>,
    pub guild_id: Option<String>,
    pub reactions: Option<Vec<serde_json::Value>>,
}

/// A file attached to a message.
#[derive(Debug)]
pub struct Attachment {
    pub content_type: Option<String>,
    pub filename: String,
    pub description: Option<String>,
    pub id: String,
    pub proxy_url: String,
    pub size: i64,
    pub url: String,
    pub height: Option<u32>,
    pub width: Option<u32>,
    pub ephemeral: Option<bool>,
}

/// The author of a message, and a user it mentions.
#[derive(Debug)]
pub struct MessageCreateDataAuthor {
    pub username: String,
    pub public_flags: i64,
    pub id: String,
    pub discriminator: String,
    pub bot: Option<bool>,
    pub avatar: Option<String>,
}

/// One row of interactive components.
#[derive(Debug)]
pub struct MessageCreateDataComponent {
    pub component_type: ComponentType,
    pub components: Vec<MessageComponent>,
}

/// A button, a select menu or a text input.
#[derive(Debug, Clone)]
pub struct MessageComponent {
    pub component_type: ComponentType,
    pub placeholder: Option<String>,
    pub options: Vec<ComponentOption>,
    pub min_values: Option<i64>,
    pub max_values: Option<i64>,
    pub label: Option<String>,
    pub custom_id: Option<String>,
    pub style: Option<i64>,
    pub emoji: Option<Emoji>,
    pub disabled: bool,
}

/// The emoji a component shows.
#[derive(Debug, Clone)]
pub struct Emoji {
    pub name: String,
    pub id: String,
}

/// One option of a select menu.
#[derive(Debug, Clone)]
pub struct ComponentOption {
    pub value: String,
    pub label: String,
}

/// An embed of a message.
#[derive(Debug)]
pub struct Embed {
    pub embed_type: Option<String>,
    pub author: Option<EmbedAuthor>,
    pub title: Option<String>,
    pub url: Option<String>,
    pub description: Option<String>,
    pub timestamp: Option<String>,
    pub footer: Option<EmbedFooter>,
    pub color: Option<i32>,
    pub image: Option<EmbedImage>,
    pub thumbnail: Option<EmbedThumbnail>,
    pub video: Option<EmbedVideo>,
    pub provider: Option<EmbedProvider>,
    pub fields: Option<Vec<EmbedField>>,
}

/// The author line of an embed.
#[derive(Debug)]
pub struct EmbedAuthor {
    pub name: String,
    pub url: Option<String>,
    pub icon_url: Option<String>,
    pub proxy_icon_url: Option<String>,
}

/// An image of an embed.
#[derive(Debug)]
pub struct EmbedImage {
    pub url: String,
    pub proxy_url: Option<String>,
    pub height: Option<i32>,
    pub width: Option<i32>,
}

/// The thumbnail of an embed.
pub type EmbedThumbnail = EmbedImage;

/// A video of an embed.
#[derive(Debug)]
pub struct EmbedVideo {
    pub url: Option<String>,
    pub proxy_url: Option<String>,
    pub height: Option<i32>,
    pub width: Option<i32>,
}

/// The footer of an embed.
#[derive(Debug)]
pub struct EmbedFooter {
    pub text: String,
    pub icon_url: Option<String>,
    pub proxy_icon_url: Option<String>,
}

/// The provider of an embed.
#[derive(Debug)]
pub struct EmbedProvider {
    pub text: Option<String>,
    pub url: Option<String>,
}

/// One field of an embed.
#[derive(Debug)]
pub struct EmbedField {
    pub name: String,
    pub value: String,
    pub inline: Option<bool>,
}

/// What the guild knows of the author of a message.
#[derive(Debug)]
pub struct Member {
    pub nick: Option<String>,
    pub avatar: Option<String>,
    pub roles: Vec<String>,
    pub mute: bool,
    pub deaf: bool,
    pub joined_at: String,
    pub hoisted_role: Option<serde_json::Value>,
}

/// An outbound frame: opcode, typed payload, sequence and event tag.
#[derive(Debug)]
pub struct PackageWithData<T> {
    pub op: OpCode,
    pub d: T,
    pub s: Option<u64>,
    pub t: Option<String>,
}

/// An inbound frame as it comes off the wire, its payload still undecoded.
#[derive(Debug)]
pub struct Package {
    pub op: OpCode,
    pub sequence: Option<u64>,
    pub tag: Option<String>,
    pub data: Option<serde_json::Value>,
}

/// The purpose of a frame.
#[derive(Debug, Clone, Copy, PartialEq, Eq, Structural)]
pub enum OpCode {
    Dispatch,
    Heartbeat,
    Identify,
    PresenceUpdate,
    VoiceStateUpdate,
    Resume,
    Reconnect,
    RequestGuildMembers,
    InvalidSession,
    Hello,
    HeartbeatAck,
}

impl OpCode {
    /// The number that stands for this opcode on the wire.
    pub open spec fn wire_code(self) -> u8 {
        match self {
            OpCode::Dispatch => 0,
            OpCode::Heartbeat => 1,
            OpCode::Identify => 2,
            OpCode::PresenceUpdate => 3,
            OpCode::VoiceStateUpdate => 4,
            OpCode::Resume => 6,
            OpCode::Reconnect => 7,
            OpCode::RequestGuildMembers => 8,
            OpCode::InvalidSession => 9,
            OpCode::Hello => 10,
            OpCode::HeartbeatAck => 11,
        }
    }

    /// Whether a number is the wire code of some opcode.
    pub open spec fn is_wire_code(code: u8) -> bool {
        code <= 11 && code != 5
    }

    /// The number that stands for this value on the wire.
    pub fn code(self) -> (code: u8)
        ensures
            code == self.wire_code(),
            Self::is_wire_code(code),
    {
        match self {
            OpCode::Dispatch => 0,
            OpCode::Heartbeat => 1,
            OpCode::Identify => 2,
            OpCode::PresenceUpdate => 3,
            OpCode::VoiceStateUpdate => 4,
            OpCode::Resume => 6,
            OpCode::Reconnect => 7,
            OpCode::RequestGuildMembers => 8,
            OpCode::InvalidSession => 9,
            OpCode::Hello => 10,
            OpCode::HeartbeatAck => 11,
        }
    }

    /// Decodes a wire code; every number but the eleven assigned ones is
    /// refused.
    pub fn from_code(code: u8) -> (op: Option<OpCode>)
        ensures
            op is Some <==> Self::is_wire_code(code),
            forall|o: OpCode| op == Some(o) <==> o.wire_code() == code,
    {
        match code {
            0 => Some(OpCode::Dispatch),
            1 => Some(OpCode::Heartbeat),
            2 => Some(OpCode::Identify),
            3 => Some(OpCode::PresenceUpdate),
            4 => Some(OpCode::VoiceStateUpdate),
            6 => Some(OpCode::Resume),
            7 => Some(OpCode::Reconnect),
            8 => Some(OpCode::RequestGuildMembers),
            9 => Some(OpCode::InvalidSession),
            10 => Some(OpCode::Hello),
            11 => Some(OpCode::HeartbeatAck),
            _ => None,
        }
    }
}

/// The kinds of components.
#[derive(Debug, Clone, Copy, PartialEq, Eq, Structural)]
pub enum ComponentType {
    ActionRow,
    Button,
    SelectMenu,
    TextInput,
}

impl ComponentType {
    /// The number that stands for this component type on the wire.
    pub open spec fn wire_code(self) -> u8 {
        match self {
            ComponentType::ActionRow => 1,
            ComponentType::Button => 2,
            ComponentType::SelectMenu => 3,
            ComponentType::TextInput => 4,
        }
    }

    /// The number that stands for this value on the wire.
    pub fn code(self) -> (code: u8)
        ensures
            code == self.wire_code(),
            1 <= code <= 4,
    {
        match self {
            ComponentType::ActionRow => 1,
            ComponentType::Button => 2,
            ComponentType::SelectMenu => 3,
            ComponentType::TextInput => 4,
        }
    }

    /// Decodes a wire code; every number but 1 to 4 is refused.
    pub fn from_code(code: u8) -> (kind: Option<ComponentType>)
        ensures
            kind is Some <==> 1 <= code <= 4,
            forall|k: ComponentType| kind == Some(k) <==> k.wire_code() == code,
    {
        match code {
            1 => Some(ComponentType::ActionRow),
            2 => Some(ComponentType::Button),
            3 => Some(ComponentType::SelectMenu),
            4 => Some(ComponentType::TextInput),
            _ => None,
        }
    }
}

} // verus!
