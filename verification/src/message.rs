//! The session record, the context a handler sees of one message, and the
//! requests a handler may ask the action API to make.

use vstd::prelude::*;
use vstd::string::*;
use crate::commands::Command;
use crate::correlator::{is_registration, UpdateCorrelator, DEFAULT_TIMEOUT_MS};
use crate::model::{
    DiscordMessageInteraction, DiscordMessageInteractionComponent, DiscordMessagePayload,
    DiscordMessagePayloadReference, MessageComponent, MessageCreateData, ReadyDataUser,
    ComponentType,
};
use crate::text::{contains_ignoring_case, contains_text, lowercase, str_eq, views};

verus! {

/// The account whose messages start the games.
pub const PEPE_ID: &'static str = "270904126974590976";

/// Where interactions with components are posted.
pub const INTERACTIONS_URL: &'static str = "https://discord.com/api/v9/interactions";

/// The address under which the messages of a channel live.
pub open spec fn messages_url(channel_id: Seq<char>) -> Seq<char> {
    "https://discord.com/api/v9/channels/"@ + channel_id + "/messages"@
}

/// The address of one message of a channel.
pub open spec fn message_url(channel_id: Seq<char>, message_id: Seq<char>) -> Seq<char> {
    messages_url(channel_id) + "/"@ + message_id
}

/// What is known of the session: the credential, the identity the server
/// gave, the last sequence number seen, and the command registry.
#[derive(Debug)]
pub struct DiscordClient {
    pub token: String,
    pub user: Option<ReadyDataUser>,
    pub sequence: u64,
    pub session_id: String,
    pub master_id: Option<String>,
    pub commands: Vec<Command>,
}

/// One message-like event together with a snapshot of the identity under
/// which it was received.
#[derive(Debug)]
pub struct DiscordMessage {
    pub master_id: Option<String>,
    pub user: ReadyDataUser,
    pub data: MessageCreateData,
}

/// How a request is sent.
#[derive(Debug, Clone, Copy, PartialEq, Eq, Structural)]
pub enum HttpMethod {
    Post,
    Patch,
}

/// What a request carries.
#[derive(Debug)]
pub enum RequestBody {
    Message(DiscordMessagePayload),
    Interaction(DiscordMessageInteraction),
}

/// A call of the action API, ready to be sent with the session token as its
/// authorization.
#[derive(Debug)]
pub struct ApiRequest {
    pub method: HttpMethod,
    pub url: String,
    pub body: RequestBody,
}

/// Why a request could not be made from a message.
#[derive(Debug, Clone, Copy, PartialEq, Eq, Structural)]
pub enum MessageError {
    RowOutOfBounds,
    ButtonOutOfBounds,
    NoSelectMenuInRow,
    OptionOutOfBounds,
    MissingGuild,
    MissingCustomId,
    NotAuthor,
}

impl MessageError {
    /// The error in words, as the contracts see them.
    pub open spec fn words(&self) -> Seq<char> {
        match self {
            MessageError::RowOutOfBounds => "Component Row out of bounds"@,
            MessageError::ButtonOutOfBounds => "Component Button out of bounds"@,
            MessageError::NoSelectMenuInRow => "No Select Menu in Row"@,
            MessageError::OptionOutOfBounds => "Option out of bounds"@,
            MessageError::MissingGuild => "Message has no guild"@,
            MessageError::MissingCustomId => "Component has no custom id"@,
            MessageError::NotAuthor => "Tried to edit a message that is not yours"@,
        }
    }

    /// The error in words.
    pub fn describe(&self) -> (words: &'static str)
        ensures
            words@ == self.words(),
    {
        match self {
            MessageError::RowOutOfBounds => "Component Row out of bounds",
            MessageError::ButtonOutOfBounds => "Component Button out of bounds",
            MessageError::NoSelectMenuInRow => "No Select Menu in Row",
            MessageError::OptionOutOfBounds => "Option out of bounds",
            MessageError::MissingGuild => "Message has no guild",
            MessageError::MissingCustomId => "Component has no custom id",
            MessageError::NotAuthor => "Tried to edit a message that is not yours",
        }
    }
}

/// The three headers every call of the action API carries; the
/// authorization is the session token itself.
pub fn default_headers(token: &str) -> (headers: Vec<(String, String)>)
    ensures
        headers@.len() == 3,
        headers@[0].0@ == "Accept"@ && headers@[0].1@ == "application/json"@,
        headers@[1].0@ == "Content-Type"@ && headers@[1].1@ == "application/json"@,
        headers@[2].0@ == "Authorization"@ && headers@[2].1@ == token@,
{
    let mut headers: Vec<(String, String)> = Vec::new();
    headers.push(("Accept".to_owned(), "application/json".to_owned()));
    headers.push(("Content-Type".to_owned(), "application/json".to_owned()));
    headers.push(("Authorization".to_owned(), token.to_owned()));
    headers
}

pub(crate) fn messages_address(channel_id: &str) -> (url: String)
    ensures
        url@ == messages_url(channel_id@),
{
    let mut url = "https://discord.com/api/v9/channels/".to_owned();
    url.append(channel_id);
    url.append("/messages");
    url
}

fn copy_opt_string(value: &Option<String>) -> (copy: Option<String>)
    ensures
        copy == *value,
{
    match value {
        Some(s) => Some(s.clone()),
        None => None,
    }
}

impl DiscordMessage {
    /// The component at `row`, `column`, as the model sees it.
    pub open spec fn component_at(&self, row: int, column: int) -> Option<MessageComponent> {
        if 0 <= row < self.data.components@.len() && 0 <= column
            < self.data.components@[row].components@.len() {
            Some(self.data.components@[row].components@[column])
        } else {
            None
        }
    }

    /// The message is an answer to a message of this account with exactly
    /// this content.
    pub open spec fn is_reply_to_me(&self, content: Seq<char>) -> bool {
        match self.data.referenced_message {
            Some(refd) => refd.author.id@ == self.user.id@ && refd.content@ == content,
            None => false,
        }
    }

    /// The title of the first embed contains `content`, case set aside.
    pub open spec fn title_contains(&self, content: Seq<char>) -> bool {
        &&& self.data.embeds@.len() > 0
        &&& self.data.embeds@[0].title matches Some(title)
        &&& contains_text(lowercase(title@), lowercase(content))
    }

    /// The author's name of the first embed contains `content`, case set
    /// aside.
    pub open spec fn author_contains(&self, content: Seq<char>) -> bool {
        &&& self.data.embeds@.len() > 0
        &&& self.data.embeds@[0].author matches Some(author)
        &&& contains_text(lowercase(author.name@), lowercase(content))
    }

    /// The description of the first embed contains `content`, case set
    /// aside.
    pub open spec fn description_contains(&self, content: Seq<char>) -> bool {
        &&& self.data.embeds@.len() > 0
        &&& self.data.embeds@[0].description matches Some(description)
        &&& contains_text(lowercase(description@), lowercase(content))
    }

    /// `interaction` is what this message sends when `component` is used in
    /// the session `session_id`: it names the message, its channel, guild
    /// and author, and the component by its type and custom id.
    pub open spec fn is_interaction_with(
        &self,
        interaction: DiscordMessageInteraction,
        session_id: Seq<char>,
        component: MessageComponent,
        type_type: Option<u8>,
        values: Option<Seq<Seq<char>>>,
    ) -> bool {
        &&& interaction.discord_message_interaction_type == 3
        &&& interaction.session_id@ == session_id
        &&& interaction.application_id@ == self.data.author.id@
        &&& interaction.channel_id@ == self.data.channel_id@
        &&& self.data.guild_id matches Some(guild) && interaction.guild_id@ == guild@
        &&& interaction.message_id@ == self.data.id@
        &&& interaction.data.component_type == component.component_type
        &&& component.custom_id matches Some(custom) && interaction.data.custom_id@ == custom@
        &&& interaction.data.type_type == type_type
        &&& match (interaction.data.values, values) {
            (None, None) => true,
            (Some(given), Some(wanted)) => views(given@) == wanted,
            _ => false,
        }
    }

    /// `request` posts a message with `content` to the channel of this
    /// message; `as_reply` says whether it refers back to this message.
    pub open spec fn is_post_to_channel(
        &self,
        request: ApiRequest,
        content: Seq<char>,
        as_reply: bool,
    ) -> bool {
        &&& request.method == HttpMethod::Post
        &&& request.url@ == messages_url(self.data.channel_id@)
        &&& request.body matches RequestBody::Message(payload)
        &&& payload.content@ == content
        &&& if as_reply {
            &&& payload.message_reference matches Some(reference)
            &&& reference.channel_id@ == self.data.channel_id@
            &&& reference.message_id@ == self.data.id@
            &&& self.data.guild_id matches Some(guild) && reference.guild_id@ == guild@
        } else {
            payload.message_reference is None
        }
    }

    /// The context of a message received under `client`'s identity. There is
    /// none before the server has told the client who it is.
    pub fn new(data: MessageCreateData, client: &DiscordClient) -> (message: Option<DiscordMessage>)
        ensures
            message is Some <==> client.user is Some,
            message matches Some(m) ==> {
                &&& m.data == data
                &&& m.user == client.user->0
                &&& m.master_id == client.master_id
            },
    {
        match &client.user {
            Some(user) => Some(
                DiscordMessage {
                    master_id: copy_opt_string(&client.master_id),
                    user: user.clone(),
                    data,
                },
            ),
            None => None,
        }
    }

    /// The context of another message, an answer of the server for one,
    /// under the same identity.
    pub fn new_from(&self, data: MessageCreateData) -> (message: DiscordMessage)
        ensures
            message.data == data,
            message.user == self.user,
            message.master_id == self.master_id,
    {
        DiscordMessage {
            data,
            master_id: copy_opt_string(&self.master_id),
            user: self.user.clone(),
        }
    }

    /// Whether the message answers a message of this account that reads
    /// exactly `content`.
    pub fn replied_to_me(&self, content: &str) -> (yes: bool)
        ensures
            yes == self.is_reply_to_me(content@),
    {
        match &self.data.referenced_message {
            Some(ref_msg) => ref_msg.author.id == self.user.id && str_eq(
                ref_msg.content.as_str(),
                content,
            ),
            None => false,
        }
    }

    /// Whether the user `user_id` wrote the message.
    pub fn is_from(&self, user_id: &str) -> (yes: bool)
        ensures
            yes == (self.data.author.id@ == user_id@),
    {
        str_eq(self.data.author.id.as_str(), user_id)
    }

    /// Whether the operator wrote the message. Without an operator nobody
    /// did.
    pub fn is_from_master(&self) -> (yes: bool)
        ensures
            yes == (self.master_id matches Some(master) && self.data.author.id@ == master@),
    {
        match &self.master_id {
            Some(master) => self.data.author.id == *master,
            None => false,
        }
    }

    /// Whether this account wrote the message.
    pub fn is_from_me(&self) -> (yes: bool)
        ensures
            yes == (self.data.author.id@ == self.user.id@),
    {
        self.data.author.id == self.user.id
    }

    /// Whether the account that runs the games wrote the message.
    pub fn is_from_pepe(&self) -> (yes: bool)
        ensures
            yes == (self.data.author.id@ == PEPE_ID@),
    {
        self.is_from(PEPE_ID)
    }

    /// The component at `row`, `column`, where there is one.
    pub fn get_component(&self, row: usize, column: usize) -> (component: Option<&MessageComponent>)
        ensures
            component is Some <==> self.component_at(row as int, column as int) is Some,
            component matches Some(c) ==> Some(*c) == self.component_at(row as int, column as int),
    {
        if row >= self.data.components.len() {
            return None;
        }
        let row = &self.data.components[row];
        if column >= row.components.len() {
            return None;
        }
        Some(&row.components[column])
    }

    /// Whether the title of the first embed contains `content`, case set
    /// aside. Without a first embed, or a title in it, it does not.
    pub fn embed_title_contains(&self, content: &str) -> (yes: bool)
        ensures
            yes == self.title_contains(content@),
    {
        if self.data.embeds.len() == 0 {
            return false;
        }
        match &self.data.embeds[0].title {
            Some(title) => contains_ignoring_case(title.as_str(), content),
            None => false,
        }
    }

    /// Whether the author's name of the first embed contains `content`,
    /// case set aside. Without a first embed, or an author in it, it does
    /// not.
    pub fn embed_author_contains(&self, content: &str) -> (yes: bool)
        ensures
            yes == self.author_contains(content@),
    {
        if self.data.embeds.len() == 0 {
            return false;
        }
        match &self.data.embeds[0].author {
            Some(author) => contains_ignoring_case(author.name.as_str(), content),
            None => false,
        }
    }

    /// Whether the description of the first embed contains `content`, case
    /// set aside. Without a first embed, or a description in it, it does
    /// not.
    pub fn embed_description_contains(&self, content: &str) -> (yes: bool)
        ensures
            yes == self.description_contains(content@),
    {
        if self.data.embeds.len() == 0 {
            return false;
        }
        match &self.data.embeds[0].description {
            Some(description) => contains_ignoring_case(description.as_str(), content),
            None => false,
        }
    }

    fn interaction(
        &self,
        client: &DiscordClient,
        component: &MessageComponent,
        type_type: Option<u8>,
        values: Option<Vec<String>>,
    ) -> (result: Result<ApiRequest, MessageError>)
        ensures
            self.data.guild_id is None ==> result == Err::<ApiRequest, MessageError>(
                MessageError::MissingGuild,
            ),
            self.data.guild_id is Some && component.custom_id is None ==> result == Err::<
                ApiRequest,
                MessageError,
            >(MessageError::MissingCustomId),
            self.data.guild_id is Some && component.custom_id is Some ==> {
                &&& result matches Ok(request)
                &&& request.method == HttpMethod::Post
                &&& request.url@ == INTERACTIONS_URL@
                &&& request.body matches RequestBody::Interaction(interaction)
                &&& self.is_interaction_with(
                    interaction,
                    client.session_id@,
                    *component,
                    type_type,
                    match values {
                        Some(v) => Some(views(v@)),
                        None => None,
                    },
                )
            },
    {
        let guild_id = match &self.data.guild_id {
            Some(guild) => guild.clone(),
            None => {
                return Err(MessageError::MissingGuild);
            },
        };
        let custom_id = match &component.custom_id {
            Some(custom) => custom.clone(),
            None => {
                return Err(MessageError::MissingCustomId);
            },
        };
        let body = DiscordMessageInteraction {
            session_id: client.session_id.clone(),
            application_id: self.data.author.id.clone(),
            channel_id: self.data.channel_id.clone(),
            discord_message_interaction_type: 3,
            guild_id,
            message_id: self.data.id.clone(),
            data: DiscordMessageInteractionComponent {
                component_type: component.component_type,
                custom_id,
                type_type,
                values,
            },
        };
        Ok(
            ApiRequest {
                method: HttpMethod::Post,
                url: INTERACTIONS_URL.to_owned(),
                body: RequestBody::Interaction(body),
            },
        )
    }

    /// The request that clicks the button at `row`, `column`. A component
    /// that is no button, or a disabled one, is left alone: no request and
    /// no error.
    pub fn click_button(&self, client: &DiscordClient, row: usize, column: usize) -> (result: Result<
        Option<ApiRequest>,
        MessageError,
    >)
        ensures
            row >= self.data.components@.len() ==> result matches Err(
                MessageError::RowOutOfBounds,
            ),
            row < self.data.components@.len() && column
                >= self.data.components@[row as int].components@.len() ==> result matches Err(
                MessageError::ButtonOutOfBounds,
            ),
            self.component_at(row as int, column as int) matches Some(button) ==> {
                if button.component_type != ComponentType::Button || button.disabled {
                    result matches Ok(None)
                } else if self.data.guild_id is None {
                    result matches Err(MessageError::MissingGuild)
                } else if button.custom_id is None {
                    result matches Err(MessageError::MissingCustomId)
                } else {
                    &&& result matches Ok(Some(request))
                    &&& request.method == HttpMethod::Post
                    &&& request.url@ == INTERACTIONS_URL@
                    &&& request.body matches RequestBody::Interaction(interaction)
                    &&& self.is_interaction_with(
                        interaction,
                        client.session_id@,
                        button,
                        None,
                        None,
                    )
                }
            },
    {
        if row >= self.data.components.len() {
            return Err(MessageError::RowOutOfBounds);
        }
        let row = &self.data.components[row];
        if column >= row.components.len() {
            return Err(MessageError::ButtonOutOfBounds);
        }
        let button = &row.components[column];
        if button.component_type == ComponentType::Button && !button.disabled {
            match self.interaction(client, button, None, None) {
                Ok(request) => Ok(Some(request)),
                Err(e) => Err(e),
            }
        } else {
            Ok(None)
        }
    }

    /// The request that picks option `option` of the select menu that leads
    /// row `row`. A first component that is no select menu, or a disabled
    /// one, is left alone.
    pub fn select_option(&self, client: &DiscordClient, row: usize, option: usize) -> (result:
        Result<Option<ApiRequest>, MessageError>)
        ensures
            row >= self.data.components@.len() ==> result matches Err(
                MessageError::RowOutOfBounds,
            ),
            row < self.data.components@.len() && self.data.components@[row as int].components@.len()
                == 0 ==> result matches Err(MessageError::NoSelectMenuInRow),
            self.component_at(row as int, 0) matches Some(menu) ==> {
                if option >= menu.options@.len() {
                    result matches Err(MessageError::OptionOutOfBounds)
                } else if menu.component_type != ComponentType::SelectMenu || menu.disabled {
                    result matches Ok(None)
                } else if self.data.guild_id is None {
                    result matches Err(MessageError::MissingGuild)
                } else if menu.custom_id is None {
                    result matches Err(MessageError::MissingCustomId)
                } else {
                    &&& result matches Ok(Some(request))
                    &&& request.method == HttpMethod::Post
                    &&& request.url@ == INTERACTIONS_URL@
                    &&& request.body matches RequestBody::Interaction(interaction)
                    &&& self.is_interaction_with(
                        interaction,
                        client.session_id@,
                        menu,
                        Some(3u8),
                        Some(seq![menu.options@[option as int].value@]),
                    )
                }
            },
    {
        if row >= self.data.components.len() {
            return Err(MessageError::RowOutOfBounds);
        }
        let row = &self.data.components[row];
        if row.components.len() == 0 {
            return Err(MessageError::NoSelectMenuInRow);
        }
        let select_menu = &row.components[0];
        if option >= select_menu.options.len() {
            return Err(MessageError::OptionOutOfBounds);
        }
        let chosen = &select_menu.options[option];
        if select_menu.component_type == ComponentType::SelectMenu && !select_menu.disabled {
            let mut values: Vec<String> = Vec::new();
            values.push(chosen.value.clone());
            proof {
                assert(views(values@) =~= seq![chosen.value@]);
            }
            match self.interaction(client, select_menu, Some(3), Some(values)) {
                Ok(request) => Ok(Some(request)),
                Err(e) => Err(e),
            }
        } else {
            Ok(None)
        }
    }

    /// The request that answers this message with `content`, referring back
    /// to it. A message outside a guild cannot be referred to.
    pub fn reply(&self, content: &str) -> (result: Result<ApiRequest, MessageError>)
        ensures
            self.data.guild_id is None ==> result matches Err(MessageError::MissingGuild),
            self.data.guild_id is Some ==> {
                &&& result matches Ok(request)
                &&& self.is_post_to_channel(request, content@, true)
            },
    {
        let guild_id = match &self.data.guild_id {
            Some(guild) => guild.clone(),
            None => {
                return Err(MessageError::MissingGuild);
            },
        };
        Ok(
            ApiRequest {
                method: HttpMethod::Post,
                url: messages_address(self.data.channel_id.as_str()),
                body: RequestBody::Message(
                    DiscordMessagePayload {
                        content: content.to_owned(),
                        message_reference: Some(
                            DiscordMessagePayloadReference {
                                channel_id: self.data.channel_id.clone(),
                                guild_id,
                                message_id: self.data.id.clone(),
                            },
                        ),
                    },
                ),
            },
        )
    }

    /// The request that posts `content` to the channel of this message.
    pub fn send(&self, content: &str) -> (request: ApiRequest)
        ensures
            self.is_post_to_channel(request, content@, false),
    {
        ApiRequest {
            method: HttpMethod::Post,
            url: messages_address(self.data.channel_id.as_str()),
            body: RequestBody::Message(
                DiscordMessagePayload { content: content.to_owned(), message_reference: None },
            ),
        }
    }

    /// The request that replaces the content of this message. Only a
    /// message of this account can be edited.
    pub fn edit(&self, content: &str) -> (result: Result<ApiRequest, MessageError>)
        ensures
            self.data.author.id@ != self.user.id@ ==> result matches Err(MessageError::NotAuthor),
            self.data.author.id@ == self.user.id@ ==> {
                &&& result matches Ok(request)
                &&& request.method == HttpMethod::Patch
                &&& request.url@ == message_url(self.data.channel_id@, self.data.id@)
                &&& request.body matches RequestBody::Message(payload)
                &&& payload.content@ == content@
                &&& payload.message_reference is None
            },
    {
        if !self.is_from_me() {
            return Err(MessageError::NotAuthor);
        }
        let mut url = messages_address(self.data.channel_id.as_str());
        url.append("/");
        url.append(self.data.id.as_str());
        Ok(
            ApiRequest {
                method: HttpMethod::Patch,
                url,
                body: RequestBody::Message(
                    DiscordMessagePayload { content: content.to_owned(), message_reference: None },
                ),
            },
        )
    }

    /// Registers a waiter for the next update of this message, to time out
    /// ten seconds after `now`, and hands out its slot. The update, or the
    /// timeout, reaches the waiter through the table.
    pub fn await_update(&self, table: &mut UpdateCorrelator, now: u64) -> (slot: Option<u64>)
        ensures
            old(table).well_formed() ==> final(table).well_formed(),
            is_registration(
                *old(table),
                *final(table),
                slot,
                self.data.id@,
                now,
                DEFAULT_TIMEOUT_MS,
            ),
    {
        table.await_update(self.data.id.as_str(), now, DEFAULT_TIMEOUT_MS)
    }
}

} // verus!
