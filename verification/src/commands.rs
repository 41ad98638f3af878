//! The command registry: what each descriptor sends on its own, how long it
//! rests, and which messages it answers.

use vstd::prelude::*;
use vstd::string::*;
use crate::message::{DiscordMessage, PEPE_ID};
use crate::model::MessageComponent;
use crate::text::{contains, contains_text, starts_with, str_eq};

verus! {

/// Which rule a descriptor stands for.
#[derive(Debug, Clone, Copy, PartialEq, Eq, Structural)]
pub enum CommandKind {
    MasterControl,
    HighLow,
    Hunt,
    Fish,
    Dig,
    Beg,
    DepositAll,
    Trivia,
    PostMemes,
    Stream,
    Pet,
    Daily,
    WordOrder,
    EmojiMatch,
    Soccer,
    ColorMatch,
    Dunk,
    AttackBoss,
    TriviaNight,
}

/// One entry of the registry. Times are milliseconds on a clock that never
/// runs backwards.
#[derive(Debug)]
pub struct Command {
    /// The text sent to trigger the command; a descriptor without one only
    /// answers.
    pub command: Option<String>,
    pub cooldown: u64,
    pub last_called: Option<u64>,
    pub kind: CommandKind,
}

impl Clone for Command {
    fn clone(&self) -> (copy: Self)
        ensures
            copy == *self,
    {
        Command {
            command: match &self.command {
                Some(text) => Some(text.clone()),
                None => None,
            },
            cooldown: self.cooldown,
            last_called: self.last_called,
            kind: self.kind,
        }
    }
}

/// The kinds of the registry, in its order.
pub open spec fn registry_kinds() -> Seq<CommandKind> {
    seq![
        CommandKind::MasterControl,
        CommandKind::HighLow,
        CommandKind::Hunt,
        CommandKind::Fish,
        CommandKind::Dig,
        CommandKind::Beg,
        CommandKind::DepositAll,
        CommandKind::Trivia,
        CommandKind::PostMemes,
        CommandKind::Stream,
        CommandKind::Pet,
        CommandKind::Daily,
        CommandKind::WordOrder,
        CommandKind::EmojiMatch,
        CommandKind::Soccer,
        CommandKind::ColorMatch,
        CommandKind::Dunk,
        CommandKind::AttackBoss,
        CommandKind::TriviaNight,
    ]
}

/// The text that triggers a command of this kind, where it has one.
pub open spec fn trigger_text(kind: CommandKind) -> Option<Seq<char>> {
    match kind {
        CommandKind::HighLow => Some("pls hl"@),
        CommandKind::Hunt => Some("pls hunt"@),
        CommandKind::Fish => Some("pls fish"@),
        CommandKind::Dig => Some("pls dig"@),
        CommandKind::Beg => Some("pls beg"@),
        CommandKind::DepositAll => Some("pls dep all"@),
        CommandKind::Trivia => Some("pls trivia"@),
        CommandKind::PostMemes => Some("pls pm"@),
        CommandKind::Stream => Some("pls stream"@),
        CommandKind::Pet => Some("pls pet"@),
        CommandKind::Daily => Some("pls daily"@),
        _ => None,
    }
}

/// How long a command of this kind rests after it was sent, in
/// milliseconds.
pub open spec fn cooldown_ms(kind: CommandKind) -> u64 {
    match kind {
        CommandKind::HighLow => 30_000,
        CommandKind::Hunt => 40_000,
        CommandKind::Fish => 40_000,
        CommandKind::Dig => 40_000,
        CommandKind::Beg => 45_000,
        CommandKind::DepositAll => 60_000,
        CommandKind::Trivia => 5_000,
        CommandKind::PostMemes => 30_000,
        CommandKind::Stream => 600_000,
        CommandKind::Pet => 1_200_000,
        CommandKind::Daily => 86_400_000,
        _ => 0,
    }
}

/// A descriptor as the registry first holds it: never called.
pub open spec fn is_fresh_descriptor(command: Command, kind: CommandKind) -> bool {
    &&& command.kind == kind
    &&& command.cooldown == cooldown_ms(kind)
    &&& command.last_called is None
    &&& match (command.command, trigger_text(kind)) {
        (Some(text), Some(wanted)) => text@ == wanted,
        (None, None) => true,
        _ => false,
    }
}

/// The descriptor as it stands after it was called at `now`.
pub open spec fn called_at(command: Command, now: u64) -> Command {
    Command { last_called: Some(now), ..command }
}

/// The registry once every descriptor that answers `message` was invoked
/// at `now`: on each of them the time of the last call is `now`, and
/// nothing else has changed.
pub open spec fn invoked_at(commands: Seq<Command>, message: DiscordMessage, now: u64) -> Seq<
    Command,
> {
    Seq::new(
        commands.len(),
        |n: int|
            if kind_matches(commands[n].kind, message) {
                called_at(commands[n], now)
            } else {
                commands[n]
            },
    )
}

/// The mention with which a message to this account begins.
pub open spec fn mention_of(user_id: Seq<char>) -> Seq<char> {
    "<@!"@ + user_id + "> "@
}

/// The title of the stream manager of a user.
pub open spec fn stream_manager_of(username: Seq<char>) -> Seq<char> {
    username + "'s Stream Manager"@
}

/// The label of a component, where it has one.
pub open spec fn label_is(component: Option<MessageComponent>, label: Seq<char>) -> bool {
    component matches Some(c) && c.label matches Some(l) && l@ == label
}

/// Whether a descriptor of this kind answers the message.
pub open spec fn kind_matches(kind: CommandKind, message: DiscordMessage) -> bool {
    let from_pepe = message.data.author.id@ == PEPE_ID@;
    let from_master = message.master_id matches Some(master) && message.data.author.id@
        == master@;
    let from_me = message.data.author.id@ == message.user.id@;
    let content = message.data.content@;
    match kind {
        CommandKind::MasterControl => (from_master || from_me) && mention_of(
            message.user.id@,
        ).is_prefix_of(content),
        CommandKind::HighLow => from_pepe && message.is_reply_to_me("pls hl"@)
            && message.author_contains("high-low"@),
        CommandKind::Hunt => from_pepe && message.is_reply_to_me("pls hunt"@)
            && "Dodge the Fireball"@.is_prefix_of(content),
        CommandKind::Fish => from_pepe && message.is_reply_to_me("pls fish"@)
            && "Catch the fish!"@.is_prefix_of(content),
        CommandKind::Dig => false,
        CommandKind::Beg => false,
        CommandKind::DepositAll => false,
        CommandKind::Trivia => from_pepe && message.is_reply_to_me("pls trivia"@)
            && message.author_contains("trivia question"@),
        CommandKind::PostMemes => from_pepe && message.is_reply_to_me("pls pm"@)
            && message.author_contains("meme posting"@),
        CommandKind::Stream => from_pepe && message.author_contains(
            stream_manager_of(message.user.username@),
        ),
        CommandKind::Pet => from_pepe && message.title_contains(message.user.username@)
            && label_is(message.component_at(0, 0), "Feed"@),
        CommandKind::Daily => false,
        CommandKind::WordOrder => from_pepe && contains_text(content, "Remember words order!"@),
        CommandKind::EmojiMatch => from_pepe && contains_text(content, "Emoji Match"@),
        CommandKind::Soccer => from_pepe && contains_text(content, "Soccer"@),
        CommandKind::ColorMatch => from_pepe && contains_text(content, "Color Match"@),
        CommandKind::Dunk => from_pepe && contains_text(content, "Dunk the ball!"@),
        CommandKind::AttackBoss => from_pepe && "Attack the boss"@.is_prefix_of(content)
            && message.component_at(0, 0) is Some,
        CommandKind::TriviaNight => from_pepe && message.description_contains(
            "You have 15 seconds to answer"@,
        ) && message.component_at(0, 4) is Some,
    }
}

/// The indices in `found` are exactly the descriptors that answer
/// `message`, each once, in registry order.
pub open spec fn is_routing(found: Seq<usize>, commands: Seq<Command>, message: DiscordMessage) -> bool {
    &&& forall|k: int| 0 <= k < found.len() ==> (#[trigger] found[k]) < commands.len()
            && kind_matches(commands[found[k] as int].kind, message)
    &&& forall|j: int, k: int| 0 <= j < k < found.len() ==> found[j] < found[k]
    &&& forall|i: int|
        0 <= i < commands.len() && kind_matches((#[trigger] commands[i]).kind, message)
            ==> found.contains(i as usize)
}

fn trigger_of(kind: CommandKind) -> (text: Option<String>)
    ensures
        match (text, trigger_text(kind)) {
            (Some(given), Some(wanted)) => given@ == wanted,
            (None, None) => true,
            _ => false,
        },
{
    match kind {
        CommandKind::HighLow => Some("pls hl".to_owned()),
        CommandKind::Hunt => Some("pls hunt".to_owned()),
        CommandKind::Fish => Some("pls fish".to_owned()),
        CommandKind::Dig => Some("pls dig".to_owned()),
        CommandKind::Beg => Some("pls beg".to_owned()),
        CommandKind::DepositAll => Some("pls dep all".to_owned()),
        CommandKind::Trivia => Some("pls trivia".to_owned()),
        CommandKind::PostMemes => Some("pls pm".to_owned()),
        CommandKind::Stream => Some("pls stream".to_owned()),
        CommandKind::Pet => Some("pls pet".to_owned()),
        CommandKind::Daily => Some("pls daily".to_owned()),
        _ => None,
    }
}

fn cooldown_of(kind: CommandKind) -> (ms: u64)
    ensures
        ms == cooldown_ms(kind),
{
    match kind {
        CommandKind::HighLow => 30_000,
        CommandKind::Hunt => 40_000,
        CommandKind::Fish => 40_000,
        CommandKind::Dig => 40_000,
        CommandKind::Beg => 45_000,
        CommandKind::DepositAll => 60_000,
        CommandKind::Trivia => 5_000,
        CommandKind::PostMemes => 30_000,
        CommandKind::Stream => 600_000,
        CommandKind::Pet => 1_200_000,
        CommandKind::Daily => 86_400_000,
        _ => 0,
    }
}

impl Command {
    /// A descriptor of the given kind that was never called.
    pub fn of_kind(kind: CommandKind) -> (command: Command)
        ensures
            is_fresh_descriptor(command, kind),
    {
        Command {
            last_called: None,
            command: trigger_of(kind),
            cooldown: cooldown_of(kind),
            kind,
        }
    }

    /// Whether the descriptor is sent on its own by the scheduler: it is
    /// where it has a trigger text.
    pub fn is_autonomous(&self) -> (yes: bool)
        ensures
            yes == self.command is Some,
    {
        self.command.is_some()
    }

    /// Whether the descriptor answers `message`. Matching reads the message
    /// and nothing else.
    pub fn matches(&self, message: &DiscordMessage) -> (yes: bool)
        ensures
            yes == kind_matches(self.kind, *message),
    {
        let content = message.data.content.as_str();
        match self.kind {
            CommandKind::MasterControl => {
                if !(message.is_from_master() || message.is_from_me()) {
                    return false;
                }
                let mut mention = "<@!".to_owned();
                mention.append(message.user.id.as_str());
                mention.append("> ");
                starts_with(content, mention.as_str())
            },
            CommandKind::HighLow => message.is_from_pepe() && message.replied_to_me("pls hl")
                && message.embed_author_contains("high-low"),
            CommandKind::Hunt => message.is_from_pepe() && message.replied_to_me("pls hunt")
                && starts_with(content, "Dodge the Fireball"),
            CommandKind::Fish => message.is_from_pepe() && message.replied_to_me("pls fish")
                && starts_with(content, "Catch the fish!"),
            CommandKind::Dig => false,
            CommandKind::Beg => false,
            CommandKind::DepositAll => false,
            CommandKind::Trivia => message.is_from_pepe() && message.replied_to_me("pls trivia")
                && message.embed_author_contains("trivia question"),
            CommandKind::PostMemes => message.is_from_pepe() && message.replied_to_me("pls pm")
                && message.embed_author_contains("meme posting"),
            CommandKind::Stream => {
                if !message.is_from_pepe() {
                    return false;
                }
                let mut title = message.user.username.clone();
                title.append("'s Stream Manager");
                message.embed_author_contains(title.as_str())
            },
            CommandKind::Pet => {
                if !(message.is_from_pepe() && message.embed_title_contains(
                    message.user.username.as_str(),
                )) {
                    return false;
                }
                match message.get_component(0, 0) {
                    Some(button) => match &button.label {
                        Some(label) => str_eq(label.as_str(), "Feed"),
                        None => false,
                    },
                    None => false,
                }
            },
            CommandKind::Daily => false,
            CommandKind::WordOrder => message.is_from_pepe() && contains(
                content,
                "Remember words order!",
            ),
            CommandKind::EmojiMatch => message.is_from_pepe() && contains(content, "Emoji Match"),
            CommandKind::Soccer => message.is_from_pepe() && contains(content, "Soccer"),
            CommandKind::ColorMatch => message.is_from_pepe() && contains(content, "Color Match"),
            CommandKind::Dunk => message.is_from_pepe() && contains(content, "Dunk the ball!"),
            CommandKind::AttackBoss => message.is_from_pepe() && starts_with(
                content,
                "Attack the boss",
            ) && message.get_component(0, 0).is_some(),
            CommandKind::TriviaNight => message.is_from_pepe()
                && message.embed_description_contains("You have 15 seconds to answer")
                && message.get_component(0, 4).is_some(),
        }
    }
}

/// The registry: one descriptor of each kind, none of them called yet.
pub fn get_commands() -> (commands: Vec<Command>)
    ensures
        commands@.len() == registry_kinds().len(),
        forall|i: int|
            0 <= i < commands@.len() ==> is_fresh_descriptor(
                #[trigger] commands@[i],
                registry_kinds()[i],
            ),
{
    let mut commands: Vec<Command> = Vec::new();
    commands.push(Command::of_kind(CommandKind::MasterControl));
    commands.push(Command::of_kind(CommandKind::HighLow));
    commands.push(Command::of_kind(CommandKind::Hunt));
    commands.push(Command::of_kind(CommandKind::Fish));
    commands.push(Command::of_kind(CommandKind::Dig));
    commands.push(Command::of_kind(CommandKind::Beg));
    commands.push(Command::of_kind(CommandKind::DepositAll));
    commands.push(Command::of_kind(CommandKind::Trivia));
    commands.push(Command::of_kind(CommandKind::PostMemes));
    commands.push(Command::of_kind(CommandKind::Stream));
    commands.push(Command::of_kind(CommandKind::Pet));
    commands.push(Command::of_kind(CommandKind::Daily));
    commands.push(Command::of_kind(CommandKind::WordOrder));
    commands.push(Command::of_kind(CommandKind::EmojiMatch));
    commands.push(Command::of_kind(CommandKind::Soccer));
    commands.push(Command::of_kind(CommandKind::ColorMatch));
    commands.push(Command::of_kind(CommandKind::Dunk));
    commands.push(Command::of_kind(CommandKind::AttackBoss));
    commands.push(Command::of_kind(CommandKind::TriviaNight));
    commands
}

/// Finds every descriptor that answers `message`. All of them are to run,
/// not only the first.
pub fn route(commands: &Vec<Command>, message: &DiscordMessage) -> (found: Vec<usize>)
    ensures
        is_routing(found@, commands@, *message),
{
    let mut found: Vec<usize> = Vec::new();
    let mut i: usize = 0;
    while i < commands.len()
        invariant
            i <= commands.len(),
            forall|k: int|
                0 <= k < found@.len() ==> (#[trigger] found@[k]) < i && kind_matches(
                    commands@[found@[k] as int].kind,
                    *message,
                ),
            forall|j: int, k: int| 0 <= j < k < found@.len() ==> found@[j] < found@[k],
            forall|n: int|
                0 <= n < i && kind_matches((#[trigger] commands@[n]).kind, *message)
                    ==> found@.contains(n as usize),
        decreases commands.len() - i,
    {
        if commands[i].matches(message) {
            let ghost before = found@;
            found.push(i);
            proof {
                assert(found@[before.len() as int] == i);
                assert forall|n: int|
                    0 <= n < i + 1 && kind_matches((#[trigger] commands@[n]).kind, *message)
                    implies found@.contains(n as usize) by {
                    if n < i {
                        let k = choose|k: int| 0 <= k < before.len() && before[k] == n as usize;
                        assert(found@[k] == n as usize);
                    }
                }
            }
        }
        i += 1;
    }
    found
}

/// Finds every descriptor that answers `message`, as `route` does, and
/// notes on each of them that it was invoked at `now`.
pub fn route_and_record(commands: &mut Vec<Command>, message: &DiscordMessage, now: u64) -> (found:
    Vec<usize>)
    ensures
        is_routing(found@, old(commands)@, *message),
        final(commands)@ == invoked_at(old(commands)@, *message, now),
{
    let ghost before = commands@;
    let mut found: Vec<usize> = Vec::new();
    let mut i: usize = 0;
    while i < commands.len()
        invariant
            i <= commands.len(),
            commands@.len() == before.len(),
            forall|n: int| 0 <= n < i ==> commands@[n] == invoked_at(before, *message, now)[n],
            forall|n: int| i <= n < before.len() ==> commands@[n] == before[n],
            forall|k: int|
                0 <= k < found@.len() ==> (#[trigger] found@[k]) < i && kind_matches(
                    before[found@[k] as int].kind,
                    *message,
                ),
            forall|j: int, k: int| 0 <= j < k < found@.len() ==> found@[j] < found@[k],
            forall|n: int|
                0 <= n < i && kind_matches((#[trigger] before[n]).kind, *message)
                    ==> found@.contains(n as usize),
        decreases commands.len() - i,
    {
        if commands[i].matches(message) {
            let entry = &commands[i];
            let called = Command {
                command: match &entry.command {
                    Some(text) => Some(text.clone()),
                    None => None,
                },
                cooldown: entry.cooldown,
                last_called: Some(now),
                kind: entry.kind,
            };
            commands.set(i, called);
            let ghost listed = found@;
            found.push(i);
            proof {
                assert(found@[listed.len() as int] == i);
                assert forall|n: int|
                    0 <= n < i + 1 && kind_matches((#[trigger] before[n]).kind, *message)
                    implies found@.contains(n as usize) by {
                    if n < i {
                        let k = choose|k: int| 0 <= k < listed.len() && listed[k] == n as usize;
                        assert(found@[k] == n as usize);
                    }
                }
            }
        }
        i += 1;
    }
    assert(commands@ =~= invoked_at(before, *message, now));
    found
}

} // verus!
