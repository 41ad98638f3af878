//! What each descriptor does with a message it answers, one step at a
//! time: which button to click, what to send, when to wait for an update.

use vstd::prelude::*;
use vstd::string::*;
use crate::commands::CommandKind;
use crate::message::{DiscordMessage, MessageError};
use crate::model::{MasterCommand, MasterCommandType, MessageComponent};
use crate::text::{
    decimal_value, join, join_from, lowercase, parse_u8, remove_char, split, split_on,
    split_once, split_once_on, starts_with, str_eq, to_chars, to_lowercase, views, without,
};

verus! {

/// The message a step acts on.
#[derive(Debug, Clone, Copy, PartialEq, Eq, Structural)]
pub enum Target {
    /// The message the descriptor answered.
    Trigger,
    /// The update with this number among those the run has waited for,
    /// counted from zero.
    Update(usize),
}

/// One thing a handler asks for. What a step gives back reaches the
/// handler with its next step: the update it waited for, or the failure
/// that ends the run.
#[derive(Debug)]
pub enum Step {
    /// Click a button. A tolerant click may fail without ending the run.
    Click { on: Target, row: usize, column: usize, tolerant: bool },
    /// Pick an option of the select menu that leads a row.
    Select { on: Target, row: usize, option: usize },
    /// Post a text to the channel of a message.
    Send { on: Target, content: String },
    /// Answer the message the descriptor answered.
    Reply { content: String },
    /// Wait for the next update of the message.
    Await,
    /// Give the scheduler a control signal.
    Signal(MasterCommand),
    /// The run is over.
    Finish,
}

/// A step as the contracts see it.
pub enum StepView {
    Click { on: Target, row: usize, column: usize, tolerant: bool },
    Select { on: Target, row: usize, option: usize },
    Send { on: Target, content: Seq<char> },
    Reply { content: Seq<char> },
    Await,
    Signal { command: MasterCommandType, tag: Option<Seq<char>> },
    Finish,
}

impl View for Step {
    type V = StepView;

    open spec fn view(&self) -> StepView {
        match *self {
            Step::Click { on, row, column, tolerant } => StepView::Click {
                on,
                row,
                column,
                tolerant,
            },
            Step::Select { on, row, option } => StepView::Select { on, row, option },
            Step::Send { on, content } => StepView::Send { on, content: content@ },
            Step::Reply { content } => StepView::Reply { content: content@ },
            Step::Await => StepView::Await,
            Step::Signal(signal) => StepView::Signal {
                command: signal.command,
                tag: match signal.tag {
                    Some(tag) => Some(tag@),
                    None => None,
                },
            },
            Step::Finish => StepView::Finish,
        }
    }
}

/// Why a handler gave up. The failure is the handler's own: no other
/// handler and no later message is touched by it.
#[derive(Debug, Clone, Copy, PartialEq, Eq, Structural)]
pub enum HandlerError {
    /// The message has no embed with a description.
    NoDescription,
    /// The description holds no number in bold, or none up to 255.
    NoNumber,
    /// The content has fewer lines than the rule reads.
    MissingLine,
    /// The message has fewer rows of components than the rule reads.
    MissingRow,
    /// No component stands where the rule reads one.
    MissingComponent,
    /// A button that the rule reads has no label.
    MissingLabel,
    /// A button that the rule reads has no emoji.
    MissingEmoji,
    /// No button bears what the rule looks for.
    NoSuchButton,
    /// A line of colors is not made of a color, a blank and a quoted word.
    MalformedColorLine,
    /// The update names no word.
    NoWord,
    /// No color stands beside the word.
    ColorNotFound,
    /// No button begins with the color.
    ButtonNotFound,
    /// The step reads an update that the run has not received.
    MissingUpdate,
    /// The update that the run waited for did not come in time.
    TimedOut,
    /// The message does not allow the request the step asks for.
    Request(MessageError),
    /// The action API failed to take a request.
    ApiFailed,
}

/// What came of performing a step.
#[derive(Debug, Clone, Copy, PartialEq, Eq, Structural)]
pub enum StepOutcome {
    /// The step was performed.
    Done,
    /// The message did not allow the request.
    Refused(MessageError),
    /// The request was sent and failed.
    Failed,
    /// The wait ended without an update.
    TimedOut,
}

impl HandlerError {
    /// The failure in words, as the contracts see them.
    pub open spec fn words(&self) -> Seq<char> {
        match *self {
            HandlerError::NoDescription => "No description"@,
            HandlerError::NoNumber => "not a number"@,
            HandlerError::MissingLine => "content has too few lines"@,
            HandlerError::MissingRow => "message has too few component rows"@,
            HandlerError::MissingComponent => "component is missing"@,
            HandlerError::MissingLabel => "button has no label"@,
            HandlerError::MissingEmoji => "button has no emoji"@,
            HandlerError::NoSuchButton => "no button matches"@,
            HandlerError::MalformedColorLine => "color line is malformed"@,
            HandlerError::NoWord => "update names no word"@,
            HandlerError::ColorNotFound => "could not find color [1]"@,
            HandlerError::ButtonNotFound => "could not find color [2]"@,
            HandlerError::MissingUpdate => "update was not received"@,
            HandlerError::TimedOut => "timed out waiting for an update"@,
            HandlerError::Request(e) => e.words(),
            HandlerError::ApiFailed => "request failed"@,
        }
    }

    /// The failure in words.
    pub fn describe(&self) -> (words: &'static str)
        ensures
            words@ == self.words(),
    {
        match self {
            HandlerError::NoDescription => "No description",
            HandlerError::NoNumber => "not a number",
            HandlerError::MissingLine => "content has too few lines",
            HandlerError::MissingRow => "message has too few component rows",
            HandlerError::MissingComponent => "component is missing",
            HandlerError::MissingLabel => "button has no label",
            HandlerError::MissingEmoji => "button has no emoji",
            HandlerError::NoSuchButton => "no button matches",
            HandlerError::MalformedColorLine => "color line is malformed",
            HandlerError::NoWord => "update names no word",
            HandlerError::ColorNotFound => "could not find color [1]",
            HandlerError::ButtonNotFound => "could not find color [2]",
            HandlerError::MissingUpdate => "update was not received",
            HandlerError::TimedOut => "timed out waiting for an update",
            HandlerError::Request(e) => e.describe(),
            HandlerError::ApiFailed => "request failed",
        }
    }
}

/// What the outcome of a step means for the run. A step that was
/// performed lets the run go on. A wait that timed out ends it, and so
/// does a request that was refused or failed, unless the step is a
/// tolerant click.
pub open spec fn settled(step: StepView, outcome: StepOutcome) -> Result<(), HandlerError> {
    let tolerant = step matches StepView::Click { tolerant, .. } && tolerant;
    match outcome {
        StepOutcome::Done => Ok(()),
        StepOutcome::TimedOut => Err(HandlerError::TimedOut),
        StepOutcome::Refused(e) => if tolerant {
            Ok(())
        } else {
            Err(HandlerError::Request(e))
        },
        StepOutcome::Failed => if tolerant {
            Ok(())
        } else {
            Err(HandlerError::ApiFailed)
        },
    }
}

/// Says whether a run goes on after a step came out as `outcome`, and
/// with which failure it ends where it does not.
pub fn settle(step: &Step, outcome: StepOutcome) -> (verdict: Result<(), HandlerError>)
    ensures
        verdict == settled(step@, outcome),
{
    let tolerant = match step {
        Step::Click { tolerant, .. } => *tolerant,
        _ => false,
    };
    match outcome {
        StepOutcome::Done => Ok(()),
        StepOutcome::TimedOut => Err(HandlerError::TimedOut),
        StepOutcome::Refused(e) => if tolerant {
            Ok(())
        } else {
            Err(HandlerError::Request(e))
        },
        StepOutcome::Failed => if tolerant {
            Ok(())
        } else {
            Err(HandlerError::ApiFailed)
        },
    }
}

/// The run of one handler on one message: the rule it follows and how far
/// it has come.
#[derive(Debug, Clone, Copy, PartialEq, Eq, Structural)]
pub struct HandlerRun {
    pub kind: CommandKind,
    pub phase: usize,
}

/// What `Regex::captures` of the regex crate finds for a pattern in a
/// text: the part of the leftmost match that capture group `group` took.
/// None where the pattern is no regular expression, where nothing
/// matches, and where the group took no part in the match.
pub uninterp spec fn captured_group(pattern: Seq<char>, haystack: Seq<char>, group: nat) -> Option<
    Seq<char>,
>;

/// Searches `haystack` for `pattern` with the regex crate and hands back
/// what capture group `group` of the leftmost match took: `Regex::new`
/// compiles the pattern, `Regex::captures` searches, `Captures::get` picks
/// the group. The result is a function of the three arguments; nothing
/// more is claimed of it.
#[verifier::external_body]
fn capture_group(pattern: &str, haystack: &str, group: usize) -> (found: Option<String>)
    ensures
        match found {
            Some(text) => captured_group(pattern@, haystack@, group as nat) == Some(text@),
            None => captured_group(pattern@, haystack@, group as nat) is None,
        },
{
    match regex::Regex::new(pattern) {
        Ok(re) => match re.captures(haystack) {
            Some(caps) => match caps.get(group) {
                Some(found) => Some(found.as_str().to_owned()),
                None => None,
            },
            None => None,
        },
        Err(_) => None,
    }
}

/// The pattern of a number in bold.
pub open spec fn bold_number_pattern() -> Seq<char> {
    "\\*\\*(\\d+)\\*\\*"@
}

/// The pattern of a word between backticks.
pub open spec fn quoted_word_pattern() -> Seq<char> {
    "`(\\w+)`"@
}

/// The lines of a content.
pub open spec fn lines_of(content: Seq<char>) -> Seq<Seq<char>> {
    split_on(content, '\n')
}

/// An update that begins with a mention of this account is meant for it.
pub open spec fn is_for_me(update: DiscordMessage) -> bool {
    ("<@!"@ + update.user.id@ + ">"@).is_prefix_of(update.data.content@)
}

/// The button for an object that stands left, in the middle or right:
/// fourteen blanks before it put it right, seven in the middle.
pub open spec fn column_by_indent(line: Seq<char>) -> usize {
    if "              "@.is_prefix_of(line) {
        2
    } else if "       "@.is_prefix_of(line) {
        1
    } else {
        0
    }
}

/// The button to click for a number between 1 and 100: the lower half
/// asks for "higher", the third button, the upper half for the first.
pub open spec fn column_by_number(number: nat) -> usize {
    if number <= 50 {
        2
    } else {
        0
    }
}

/// The click that answers a high-low game, from what the pattern of a
/// bold number captured in the description.
pub open spec fn high_low_answer(captured: Option<Seq<char>>) -> Result<usize, HandlerError> {
    match captured {
        None => Err(HandlerError::NoNumber),
        Some(text) => match decimal_value(text) {
            Some(number) => if number <= 255 {
                Ok(column_by_number(number))
            } else {
                Err(HandlerError::NoNumber)
            },
            None => Err(HandlerError::NoNumber),
        },
    }
}

/// The first button from `from` on whose label is `word`. The search
/// fails at a button without a label.
pub open spec fn find_label(buttons: Seq<MessageComponent>, word: Seq<char>, from: int) -> Result<
    int,
    HandlerError,
>
    decreases buttons.len() - from,
{
    if from < 0 || from >= buttons.len() {
        Err(HandlerError::NoSuchButton)
    } else {
        match buttons[from].label {
            None => Err(HandlerError::MissingLabel),
            Some(label) => if label@ == word {
                Ok(from)
            } else {
                find_label(buttons, word, from + 1)
            },
        }
    }
}

/// The first button from `from` on whose emoji is named `name`. The
/// search fails at a button without an emoji.
pub open spec fn find_emoji(buttons: Seq<MessageComponent>, name: Seq<char>, from: int) -> Result<
    int,
    HandlerError,
>
    decreases buttons.len() - from,
{
    if from < 0 || from >= buttons.len() {
        Err(HandlerError::NoSuchButton)
    } else {
        match buttons[from].emoji {
            None => Err(HandlerError::MissingEmoji),
            Some(emoji) => if emoji.name@ == name {
                Ok(from)
            } else {
                find_emoji(buttons, name, from + 1)
            },
        }
    }
}

/// The first button from `from` on whose label, in lowercase, begins with
/// `color`. The search fails at a button without a label.
pub open spec fn find_color_button(buttons: Seq<MessageComponent>, color: char, from: int) -> Result<
    int,
    HandlerError,
>
    decreases buttons.len() - from,
{
    if from < 0 || from >= buttons.len() {
        Err(HandlerError::ButtonNotFound)
    } else {
        match buttons[from].label {
            None => Err(HandlerError::MissingLabel),
            Some(label) => if begins_with_color(lowercase(label@), color) {
                Ok(from)
            } else {
                find_color_button(buttons, color, from + 1)
            },
        }
    }
}

/// A character that takes one byte in a text.
pub open spec fn is_one_byte(c: char) -> bool {
    (c as u32) < 128
}

/// What the two parts of a line of colors say: the third character of
/// the color's name, given in lowercase, and the word without the marks
/// around it. The word needs a one-byte mark at either end.
pub open spec fn color_parts(lowered_name: Seq<char>, word: Seq<char>) -> Result<
    (char, Seq<char>),
    HandlerError,
> {
    if lowered_name.len() >= 3 && word.len() >= 2 && is_one_byte(word[0]) && is_one_byte(
        word.last(),
    ) {
        Ok((lowered_name[2], word.subrange(1, word.len() - 1)))
    } else {
        Err(HandlerError::MalformedColorLine)
    }
}

/// What a line of colors says. The name of the color ends at the first
/// blank and is read in lowercase; the word is what follows the blank.
pub open spec fn color_line(line: Seq<char>) -> Result<(char, Seq<char>), HandlerError> {
    match split_once_on(line, ' ') {
        None => Err(HandlerError::MalformedColorLine),
        Some((name, word)) => color_parts(lowercase(name), word),
    }
}

/// A label, given in lowercase, begins with the color.
pub open spec fn begins_with_color(lowered_label: Seq<char>, color: char) -> bool {
    lowered_label.len() > 0 && lowered_label[0] == color
}

/// The color that stands beside `word` in the lines `from` to 3. The
/// search fails at a line that is malformed.
pub open spec fn find_color(lines: Seq<Seq<char>>, word: Seq<char>, from: int) -> Result<
    char,
    HandlerError,
>
    decreases 4 - from,
{
    if from < 1 || from >= 4 || from >= lines.len() {
        Err(HandlerError::ColorNotFound)
    } else {
        match color_line(lines[from]) {
            Err(e) => Err(e),
            Ok((color, quoted)) => if quoted == word {
                Ok(color)
            } else {
                find_color(lines, word, from + 1)
            },
        }
    }
}

/// The button that answers a color match: `word` is what the update
/// asks for, `lines` are the lines of the first message, `buttons` its
/// first row.
pub open spec fn color_answer(
    lines: Seq<Seq<char>>,
    buttons: Seq<MessageComponent>,
    word: Seq<char>,
) -> Result<int, HandlerError> {
    match find_color(lines, word, 1) {
        Err(e) => Err(e),
        Ok(color) => find_color_button(buttons, color, 0),
    }
}

/// The words to click in order: every line after the first, without its
/// backticks.
pub open spec fn ordered_words(content: Seq<char>) -> Seq<Seq<char>> {
    lines_of(content).skip(1).map_values(|line: Seq<char>| without(line, '`'))
}

/// A step and the phase the run is in after it.
pub type Turn = Result<(StepView, usize), HandlerError>;

/// The turn that ends a run where it stands.
pub open spec fn finish(phase: usize) -> Turn {
    Ok((StepView::Finish, phase))
}

/// The turn that clicks a button and moves on to phase `next`.
pub open spec fn click(on: Target, row: usize, column: usize, next: usize) -> Turn {
    Ok((StepView::Click { on, row, column, tolerant: false }, next))
}

/// The turn that waits for an update and moves on to phase `next`.
pub open spec fn wait(next: usize) -> Turn {
    Ok((StepView::Await, next))
}

/// The operator's commands: `start` and `stop` signal the scheduler,
/// `say` posts the rest of the message, anything else gets a pleading
/// answer. A message of one word asks for nothing.
pub open spec fn master_turn(phase: usize, trigger: DiscordMessage) -> Turn {
    let parts = split_on(trigger.data.content@, ' ');
    if phase != 0 || parts.len() <= 1 {
        finish(phase)
    } else if parts[1] == "start"@ {
        Ok(
            (
                StepView::Signal {
                    command: MasterCommandType::Start,
                    tag: Some(trigger.data.channel_id@),
                },
                1,
            ),
        )
    } else if parts[1] == "stop"@ {
        Ok((StepView::Signal { command: MasterCommandType::Stop, tag: None }, 1))
    } else if parts[1] == "say"@ {
        Ok((StepView::Send { on: Target::Trigger, content: join_from(parts, 2, " "@) }, 1))
    } else {
        Ok((StepView::Reply { content: ":pleading_face:"@ }, 1))
    }
}

/// High-low: the number in bold in the description decides.
pub open spec fn high_low_turn(phase: usize, trigger: DiscordMessage) -> Turn {
    if phase != 0 {
        finish(phase)
    } else if trigger.data.embeds@.len() == 0 {
        Err(HandlerError::NoDescription)
    } else {
        match trigger.data.embeds@[0].description {
            None => Err(HandlerError::NoDescription),
            Some(description) => match high_low_answer(
                captured_group(bold_number_pattern(), description@, 1),
            ) {
                Ok(column) => click(Target::Trigger, 0, column, 1),
                Err(e) => Err(e),
            },
        }
    }
}

/// Hunting: dodge the fireball of the third line. Seven blanks before it
/// put it in the middle, so the first button is safe; else the second.
pub open spec fn hunt_turn(phase: usize, trigger: DiscordMessage) -> Turn {
    let lines = lines_of(trigger.data.content@);
    if phase != 0 {
        finish(phase)
    } else if lines.len() < 3 {
        Err(HandlerError::MissingLine)
    } else if "       "@.is_prefix_of(lines[2]) {
        click(Target::Trigger, 0, 0, 1)
    } else {
        click(Target::Trigger, 0, 1, 1)
    }
}

/// Fishing, and dunking the ball: click below the object of line
/// `line`, counted from zero.
pub open spec fn indent_turn(phase: usize, trigger: DiscordMessage, line: int) -> Turn {
    let lines = lines_of(trigger.data.content@);
    if phase != 0 {
        finish(phase)
    } else if lines.len() <= line {
        Err(HandlerError::MissingLine)
    } else {
        click(Target::Trigger, 0, column_by_indent(lines[line]), 1)
    }
}

/// Soccer: where the keeper of the third line stands left, shoot to the
/// middle; else shoot left.
pub open spec fn soccer_turn(phase: usize, trigger: DiscordMessage) -> Turn {
    let lines = lines_of(trigger.data.content@);
    if phase != 0 {
        finish(phase)
    } else if lines.len() < 3 {
        Err(HandlerError::MissingLine)
    } else if ":levitate:"@.is_prefix_of(lines[2]) {
        click(Target::Trigger, 0, 1, 1)
    } else {
        click(Target::Trigger, 0, 0, 1)
    }
}

/// One click on a button of the first row, then the run is over.
pub open spec fn single_click_turn(phase: usize, column: usize) -> Turn {
    if phase != 0 {
        finish(phase)
    } else {
        click(Target::Trigger, 0, column, 1)
    }
}

/// The pet: the three buttons of the first row in order, then the fifth
/// of the second row.
pub open spec fn pet_turn(phase: usize) -> Turn {
    if phase < 3 {
        click(Target::Trigger, 0, phase, (phase + 1) as usize)
    } else if phase == 3 {
        click(Target::Trigger, 1, 4, 4)
    } else {
        finish(phase)
    }
}

/// Posting memes: click one of the five kinds, wait for the update, and
/// buy a new laptop where the update says the old one broke.
pub open spec fn post_memes_turn(phase: usize, updates: Seq<DiscordMessage>, pick: usize) -> Turn {
    if phase == 0 {
        click(Target::Trigger, 0, pick, 1)
    } else if phase == 1 {
        wait(2)
    } else if phase == 2 {
        if updates.len() < 1 {
            Err(HandlerError::MissingUpdate)
        } else if updates[0].description_contains("**Laptop** is broken"@) {
            Ok((StepView::Send { on: Target::Update(0), content: "pls buy laptop"@ }, 3))
        } else {
            finish(phase)
        }
    } else {
        finish(phase)
    }
}

/// The boss: click the first button, wait for the update, and go on
/// for as long as the update still shows that button enabled.
pub open spec fn attack_turn(phase: usize, updates: Seq<DiscordMessage>) -> Turn {
    let round = phase as int / 2;
    if phase == usize::MAX {
        finish(phase)
    } else if phase % 2 == 1 {
        wait((phase + 1) as usize)
    } else if round == 0 {
        click(Target::Trigger, 0, 0, (phase + 1) as usize)
    } else if updates.len() < round {
        Err(HandlerError::MissingUpdate)
    } else {
        match updates[round - 1].component_at(0, 0) {
            Some(button) => if !button.disabled {
                click(Target::Trigger, 0, 0, (phase + 1) as usize)
            } else {
                finish(phase)
            },
            None => finish(phase),
        }
    }
}

/// The phase in which a stream run only has its last click behind it.
pub open spec fn stream_done() -> usize {
    20
}

/// The stream manager. "Go Live" starts a stream: click it, pick a game
/// from the menu of the first update, start from the second update,
/// click one of the three stream buttons of the third, and end the
/// interaction as the fourth allows. A disabled "Go Live" is left by the
/// third button. "Run AD" means a stream runs: click one of the three
/// stream buttons unless they are disabled, then end the interaction.
pub open spec fn stream_turn(
    phase: usize,
    trigger: DiscordMessage,
    updates: Seq<DiscordMessage>,
    pick: usize,
) -> Turn {
    if phase == 0 {
        match trigger.component_at(0, 0) {
            None => finish(phase),
            Some(button) => match button.label {
                None => Err(HandlerError::MissingLabel),
                Some(label) => if label@ == "Go Live"@ {
                    if !button.disabled {
                        click(Target::Trigger, 0, 0, 1)
                    } else {
                        click(Target::Trigger, 0, 2, stream_done())
                    }
                } else if label@ == "Run AD"@ {
                    if !button.disabled {
                        click(Target::Trigger, 0, pick, 10)
                    } else {
                        click(Target::Trigger, 1, 1, stream_done())
                    }
                } else {
                    finish(phase)
                },
            },
        }
    } else if phase == 1 || phase == 3 || phase == 5 || phase == 7 {
        wait((phase + 1) as usize)
    } else if phase == 2 {
        if updates.len() < 1 {
            Err(HandlerError::MissingUpdate)
        } else if updates[0].component_at(0, 0) is None {
            Err(HandlerError::MissingComponent)
        } else {
            Ok((StepView::Select { on: Target::Update(0), row: 0, option: pick }, 3))
        }
    } else if phase == 4 {
        if updates.len() < 2 {
            Err(HandlerError::MissingUpdate)
        } else {
            click(Target::Update(1), 1, 0, 5)
        }
    } else if phase == 6 {
        if updates.len() < 3 {
            Err(HandlerError::MissingUpdate)
        } else {
            Ok(
                (
                    StepView::Click { on: Target::Update(2), row: 0, column: pick, tolerant: true },
                    7,
                ),
            )
        }
    } else if phase == 8 {
        if updates.len() < 4 {
            Err(HandlerError::MissingUpdate)
        } else if updates[3].component_at(1, 1) is Some {
            click(Target::Update(2), 1, 1, stream_done())
        } else {
            click(Target::Update(2), 0, 2, stream_done())
        }
    } else if phase == 10 {
        click(Target::Trigger, 1, 1, stream_done())
    } else {
        finish(phase)
    }
}

/// Words in order: wait for the update; where it is meant for this
/// account, click the button of each word in turn.
pub open spec fn word_order_turn(phase: usize, trigger: DiscordMessage, updates: Seq<DiscordMessage>) -> Turn {
    let words = ordered_words(trigger.data.content@);
    if phase == 0 {
        wait(1)
    } else if updates.len() < 1 {
        Err(HandlerError::MissingUpdate)
    } else if !is_for_me(updates[0]) {
        finish(phase)
    } else if updates[0].data.components@.len() == 0 {
        Err(HandlerError::MissingRow)
    } else if phase - 1 >= words.len() {
        finish(phase)
    } else {
        match find_label(updates[0].data.components@[0].components@, words[phase - 1], 0) {
            Ok(at) => click(Target::Update(0), 0, at as usize, (phase + 1) as usize),
            Err(e) => Err(e),
        }
    }
}

/// Emoji match: remember the emoji below the first line, wait for the
/// update, and where it is meant for this account click the button that
/// shows the emoji among the two rows of five.
pub open spec fn emoji_turn(phase: usize, trigger: DiscordMessage, updates: Seq<DiscordMessage>) -> Turn {
    match split_once_on(trigger.data.content@, '\n') {
        None => if phase == 0 {
            Err(HandlerError::MissingLine)
        } else {
            finish(phase)
        },
        Some((first, emoji)) => if phase == 0 {
            wait(1)
        } else if phase != 1 {
            finish(phase)
        } else if updates.len() < 1 {
            Err(HandlerError::MissingUpdate)
        } else if !is_for_me(updates[0]) {
            finish(phase)
        } else if updates[0].data.components@.len() < 2 {
            Err(HandlerError::MissingRow)
        } else {
            match find_emoji(
                updates[0].data.components@[0].components@
                    + updates[0].data.components@[1].components@,
                emoji,
                0,
            ) {
                Ok(at) => click(
                    Target::Update(0),
                    if at > 4 {
                        1
                    } else {
                        0
                    },
                    (at % 5) as usize,
                    2,
                ),
                Err(e) => Err(e),
            }
        },
    }
}

/// Color match: the first message pairs three colors with words; the
/// update, where it is meant for this account, names one word; click the
/// button of the first message that begins with the color of that word.
pub open spec fn color_turn(phase: usize, trigger: DiscordMessage, updates: Seq<DiscordMessage>) -> Turn {
    let lines = lines_of(trigger.data.content@);
    if phase == 0 {
        if lines.len() < 4 {
            Err(HandlerError::MissingLine)
        } else {
            wait(1)
        }
    } else if phase != 1 {
        finish(phase)
    } else if updates.len() < 1 {
        Err(HandlerError::MissingUpdate)
    } else if !is_for_me(updates[0]) {
        finish(phase)
    } else {
        match captured_group(quoted_word_pattern(), updates[0].data.content@, 1) {
            None => Err(HandlerError::NoWord),
            Some(word) => if trigger.data.components@.len() == 0 {
                Err(HandlerError::MissingRow)
            } else {
                match color_answer(lines, trigger.data.components@[0].components@, word) {
                    Ok(at) => click(Target::Trigger, 0, at as usize, 2),
                    Err(e) => Err(e),
                }
            },
        }
    }
}

/// The step a run of `kind` takes in `phase`, and the phase it is in
/// after it. `trigger` is the message the descriptor answered, `updates`
/// are the updates the run has waited for so far, `pick` is what chance
/// drew for this step.
pub open spec fn script(
    kind: CommandKind,
    phase: usize,
    trigger: DiscordMessage,
    updates: Seq<DiscordMessage>,
    pick: usize,
) -> Turn {
    match kind {
        CommandKind::MasterControl => master_turn(phase, trigger),
        CommandKind::HighLow => high_low_turn(phase, trigger),
        CommandKind::Hunt => hunt_turn(phase, trigger),
        CommandKind::Fish => indent_turn(phase, trigger, 1),
        CommandKind::Dig => finish(phase),
        CommandKind::Beg => finish(phase),
        CommandKind::DepositAll => finish(phase),
        CommandKind::Trivia => single_click_turn(phase, pick),
        CommandKind::PostMemes => post_memes_turn(phase, updates, pick),
        CommandKind::Stream => stream_turn(phase, trigger, updates, pick),
        CommandKind::Pet => pet_turn(phase),
        CommandKind::Daily => finish(phase),
        CommandKind::WordOrder => word_order_turn(phase, trigger, updates),
        CommandKind::EmojiMatch => emoji_turn(phase, trigger, updates),
        CommandKind::Soccer => soccer_turn(phase, trigger),
        CommandKind::ColorMatch => color_turn(phase, trigger, updates),
        CommandKind::Dunk => indent_turn(phase, trigger, 2),
        CommandKind::AttackBoss => attack_turn(phase, updates),
        CommandKind::TriviaNight => single_click_turn(phase, 0),
    }
}

/// Among how many buttons or options chance picks for the step of `phase`:
/// the draw is to be below this number. Zero where the step leaves nothing
/// to chance.
pub open spec fn choices(
    kind: CommandKind,
    phase: usize,
    trigger: DiscordMessage,
    updates: Seq<DiscordMessage>,
) -> usize {
    match kind {
        CommandKind::Trivia => if phase == 0 {
            4
        } else {
            0
        },
        CommandKind::PostMemes => if phase == 0 {
            5
        } else {
            0
        },
        CommandKind::Stream => if phase == 0 {
            match trigger.component_at(0, 0) {
                Some(button) => if !button.disabled && crate::commands::label_is(
                    Some(button),
                    "Run AD"@,
                ) {
                    3
                } else {
                    0
                },
                None => 0,
            }
        } else if phase == 6 {
            3
        } else if phase == 2 && updates.len() >= 1 {
            match updates[0].component_at(0, 0) {
                Some(menu) => menu.options@.len() as usize,
                None => 0,
            }
        } else {
            0
        },
        _ => 0,
    }
}

/// `found` is the place `wanted`, or the same failure.
pub open spec fn same_place(found: Result<usize, HandlerError>, wanted: Result<int, HandlerError>) -> bool {
    match (found, wanted) {
        (Ok(at), Ok(place)) => at == place,
        (Err(e), Err(f)) => e == f,
        _ => false,
    }
}

/// `taken` is the turn `wanted`: the same step and next phase, or the same
/// failure.
pub open spec fn same_turn(taken: Result<(Step, usize), HandlerError>, wanted: Turn) -> bool {
    match (taken, wanted) {
        (Ok((step, next)), Ok((wanted_step, wanted_next))) => step@ == wanted_step && next
            == wanted_next,
        (Err(e), Err(f)) => e == f,
        _ => false,
    }
}

/// What a turn makes of a run: the step is handed out and the run moves
/// to the next phase; a failure leaves the run where it was.
pub open spec fn is_turn(
    result: Result<Step, HandlerError>,
    before: HandlerRun,
    after: HandlerRun,
    wanted: Turn,
) -> bool {
    match wanted {
        Ok((step, next)) => {
            &&& result matches Ok(given)
            &&& given@ == step
            &&& after.kind == before.kind
            &&& after.phase == next
        },
        Err(e) => result == Err::<Step, HandlerError>(e) && after == before,
    }
}

/// The characters of a text that may be missing.
pub open spec fn text_of(text: Option<&str>) -> Option<Seq<char>> {
    match text {
        Some(t) => Some(t@),
        None => None,
    }
}

fn click_step(on: Target, row: usize, column: usize, next: usize) -> (taken: Result<
    (Step, usize),
    HandlerError,
>)
    ensures
        same_turn(taken, click(on, row, column, next)),
{
    Ok((Step::Click { on, row, column, tolerant: false }, next))
}

fn is_meant_for_me(update: &DiscordMessage) -> (yes: bool)
    ensures
        yes == is_for_me(*update),
{
    let mut mention = "<@!".to_owned();
    mention.append(update.user.id.as_str());
    mention.append(">");
    starts_with(update.data.content.as_str(), mention.as_str())
}

fn indent_column(line: &str) -> (column: usize)
    ensures
        column == column_by_indent(line@),
{
    if starts_with(line, "              ") {
        2
    } else if starts_with(line, "       ") {
        1
    } else {
        0
    }
}

/// The button that answers a high-low game, from what the pattern of a
/// bold number captured in the description: the third button for a number
/// up to 50, the first for a higher one. Without a captured number, and
/// with one that is no number up to 255, there is no answer.
pub fn high_low_choice(captured: Option<&str>) -> (column: Result<usize, HandlerError>)
    ensures
        column == high_low_answer(text_of(captured)),
{
    match captured {
        None => Err(HandlerError::NoNumber),
        Some(text) => match parse_u8(text) {
            Some(number) => if number <= 50 {
                Ok(2)
            } else {
                Ok(0)
            },
            None => Err(HandlerError::NoNumber),
        },
    }
}

fn label_position(buttons: &Vec<MessageComponent>, word: &str) -> (found: Result<
    usize,
    HandlerError,
>)
    ensures
        same_place(found, find_label(buttons@, word@, 0)),
{
    let mut i: usize = 0;
    while i < buttons.len()
        invariant
            i <= buttons.len(),
            find_label(buttons@, word@, 0) == find_label(buttons@, word@, i as int),
        decreases buttons.len() - i,
    {
        match &buttons[i].label {
            None => {
                return Err(HandlerError::MissingLabel);
            },
            Some(label) => {
                if str_eq(label.as_str(), word) {
                    return Ok(i);
                }
            },
        }
        i += 1;
    }
    Err(HandlerError::NoSuchButton)
}

/// The place of the button that shows the emoji `name`, as row and column
/// of two rows of five, where `first` and `second` are the buttons of the
/// two rows.
fn emoji_position(first: &Vec<MessageComponent>, second: &Vec<MessageComponent>, name: &str) -> (found:
    Result<(usize, usize), HandlerError>)
    ensures
        match find_emoji(first@ + second@, name@, 0) {
            Ok(at) => found == Ok::<(usize, usize), HandlerError>(
                (
                    if at > 4 {
                        1usize
                    } else {
                        0usize
                    },
                    (at % 5) as usize,
                ),
            ),
            Err(e) => found == Err::<(usize, usize), HandlerError>(e),
        },
{
    let ghost all = first@ + second@;
    let mut i: usize = 0;
    while i < first.len()
        invariant
            all == first@ + second@,
            i <= first.len(),
            find_emoji(all, name@, 0) == find_emoji(all, name@, i as int),
        decreases first.len() - i,
    {
        match &first[i].emoji {
            None => {
                return Err(HandlerError::MissingEmoji);
            },
            Some(emoji) => {
                if str_eq(emoji.name.as_str(), name) {
                    return Ok((if i > 4 {
                        1
                    } else {
                        0
                    }, i % 5));
                }
            },
        }
        i += 1;
    }
    let mut j: usize = 0;
    while j < second.len()
        invariant
            all == first@ + second@,
            j <= second.len(),
            find_emoji(all, name@, 0) == find_emoji(all, name@, first.len() + j),
        decreases second.len() - j,
    {
        match &second[j].emoji {
            None => {
                return Err(HandlerError::MissingEmoji);
            },
            Some(emoji) => {
                if str_eq(emoji.name.as_str(), name) {
                    let row: usize = if first.len() > 4 || j > 4 - first.len() {
                        1
                    } else {
                        0
                    };
                    let column: usize = (first.len() % 5 + j % 5) % 5;
                    return Ok((row, column));
                }
            },
        }
        j += 1;
    }
    Err(HandlerError::NoSuchButton)
}

/// `read` is what `wanted` says, or the same failure.
pub open spec fn same_color(
    read: Result<(char, String), HandlerError>,
    wanted: Result<(char, Seq<char>), HandlerError>,
) -> bool {
    match (read, wanted) {
        (Ok(got), Ok(want)) => got.0 == want.0 && got.1@ == want.1,
        (Err(e), Err(f)) => e == f,
        _ => false,
    }
}

/// Reads the two parts of a line of colors: the name of the color, given
/// in lowercase, and the word with its marks. The color is known by the
/// third character of its name; the word loses the mark at either end,
/// each of which is to be a character of one byte.
pub fn read_color_parts(lowered_name: &str, word: &str) -> (read: Result<
    (char, String),
    HandlerError,
>)
    ensures
        same_color(read, color_parts(lowered_name@, word@)),
{
    let name_chars = to_chars(lowered_name);
    let word_chars = to_chars(word);
    if name_chars.len() < 3 || word_chars.len() < 2 {
        return Err(HandlerError::MalformedColorLine);
    }
    let first = word_chars[0];
    let last = word_chars[word_chars.len() - 1];
    if first as u32 >= 128 || last as u32 >= 128 {
        return Err(HandlerError::MalformedColorLine);
    }
    let quoted = word.substring_char(1, word_chars.len() - 1).to_owned();
    Ok((name_chars[2], quoted))
}

/// Whether a label, given in lowercase, begins with the color.
pub fn label_begins_with(lowered_label: &str, color: char) -> (yes: bool)
    ensures
        yes == begins_with_color(lowered_label@, color),
{
    let chars = to_chars(lowered_label);
    chars.len() > 0 && chars[0] == color
}

fn read_color_line(line: &str) -> (read: Result<(char, String), HandlerError>)
    ensures
        same_color(read, color_line(line@)),
{
    match split_once(line, ' ') {
        None => Err(HandlerError::MalformedColorLine),
        Some((name, word)) => {
            let lower = to_lowercase(name.as_str());
            read_color_parts(lower.as_str(), word.as_str())
        },
    }
}

fn color_of_word(lines: &Vec<String>, word: &str) -> (found: Result<char, HandlerError>)
    ensures
        found == find_color(views(lines@), word@, 1),
{
    let mut i: usize = 1;
    while i < 4 && i < lines.len()
        invariant
            1 <= i <= 4,
            find_color(views(lines@), word@, 1) == find_color(views(lines@), word@, i as int),
        decreases 4 - i,
    {
        match read_color_line(lines[i].as_str()) {
            Err(e) => {
                return Err(e);
            },
            Ok((color, quoted)) => {
                if str_eq(quoted.as_str(), word) {
                    return Ok(color);
                }
            },
        }
        i += 1;
    }
    Err(HandlerError::ColorNotFound)
}

fn color_button(buttons: &Vec<MessageComponent>, color: char) -> (found: Result<usize, HandlerError>)
    ensures
        same_place(found, find_color_button(buttons@, color, 0)),
{
    let mut i: usize = 0;
    while i < buttons.len()
        invariant
            i <= buttons.len(),
            find_color_button(buttons@, color, 0) == find_color_button(buttons@, color, i as int),
        decreases buttons.len() - i,
    {
        match &buttons[i].label {
            None => {
                return Err(HandlerError::MissingLabel);
            },
            Some(label) => {
                let lower = to_lowercase(label.as_str());
                if label_begins_with(lower.as_str(), color) {
                    return Ok(i);
                }
            },
        }
        i += 1;
    }
    Err(HandlerError::ButtonNotFound)
}

/// The button that answers a color match. `lines` are the lines of the
/// first message, of which the second to the fourth pair a color with a
/// word; `buttons` are the buttons of its first row; `word` is the word
/// the update asks for.
pub fn color_match_choice(lines: &Vec<String>, buttons: &Vec<MessageComponent>, word: &str) -> (found:
    Result<usize, HandlerError>)
    ensures
        same_place(found, color_answer(views(lines@), buttons@, word@)),
{
    match color_of_word(lines, word) {
        Err(e) => Err(e),
        Ok(color) => color_button(buttons, color),
    }
}


fn master_step(phase: usize, trigger: &DiscordMessage) -> (taken: Result<(Step, usize), HandlerError>)
    ensures
        same_turn(taken, master_turn(phase, *trigger)),
{
    if phase != 0 {
        return Ok((Step::Finish, phase));
    }
    let parts = split(trigger.data.content.as_str(), ' ');
    if parts.len() <= 1 {
        return Ok((Step::Finish, phase));
    }
    let command = parts[1].as_str();
    if str_eq(command, "start") {
        let signal = MasterCommand {
            command: MasterCommandType::Start,
            tag: Some(trigger.data.channel_id.clone()),
        };
        Ok((Step::Signal(signal), 1))
    } else if str_eq(command, "stop") {
        Ok((Step::Signal(MasterCommand { command: MasterCommandType::Stop, tag: None }), 1))
    } else if str_eq(command, "say") {
        Ok((Step::Send { on: Target::Trigger, content: join(&parts, 2, " ") }, 1))
    } else {
        Ok((Step::Reply { content: ":pleading_face:".to_owned() }, 1))
    }
}

fn high_low_step(phase: usize, trigger: &DiscordMessage) -> (taken: Result<
    (Step, usize),
    HandlerError,
>)
    ensures
        same_turn(taken, high_low_turn(phase, *trigger)),
{
    if phase != 0 {
        return Ok((Step::Finish, phase));
    }
    if trigger.data.embeds.len() == 0 {
        return Err(HandlerError::NoDescription);
    }
    match &trigger.data.embeds[0].description {
        None => Err(HandlerError::NoDescription),
        Some(description) => {
            let captured = capture_group("\\*\\*(\\d+)\\*\\*", description.as_str(), 1);
            let choice = match &captured {
                Some(text) => high_low_choice(Some(text.as_str())),
                None => high_low_choice(None),
            };
            match choice {
                Ok(column) => click_step(Target::Trigger, 0, column, 1),
                Err(e) => Err(e),
            }
        },
    }
}

fn hunt_step(phase: usize, trigger: &DiscordMessage) -> (taken: Result<(Step, usize), HandlerError>)
    ensures
        same_turn(taken, hunt_turn(phase, *trigger)),
{
    if phase != 0 {
        return Ok((Step::Finish, phase));
    }
    let lines = split(trigger.data.content.as_str(), '\n');
    if lines.len() < 3 {
        return Err(HandlerError::MissingLine);
    }
    if starts_with(lines[2].as_str(), "       ") {
        click_step(Target::Trigger, 0, 0, 1)
    } else {
        click_step(Target::Trigger, 0, 1, 1)
    }
}

fn indent_step(phase: usize, trigger: &DiscordMessage, line: usize) -> (taken: Result<
    (Step, usize),
    HandlerError,
>)
    ensures
        same_turn(taken, indent_turn(phase, *trigger, line as int)),
{
    if phase != 0 {
        return Ok((Step::Finish, phase));
    }
    let lines = split(trigger.data.content.as_str(), '\n');
    if lines.len() <= line {
        return Err(HandlerError::MissingLine);
    }
    click_step(Target::Trigger, 0, indent_column(lines[line].as_str()), 1)
}

fn soccer_step(phase: usize, trigger: &DiscordMessage) -> (taken: Result<(Step, usize), HandlerError>)
    ensures
        same_turn(taken, soccer_turn(phase, *trigger)),
{
    if phase != 0 {
        return Ok((Step::Finish, phase));
    }
    let lines = split(trigger.data.content.as_str(), '\n');
    if lines.len() < 3 {
        return Err(HandlerError::MissingLine);
    }
    if starts_with(lines[2].as_str(), ":levitate:") {
        click_step(Target::Trigger, 0, 1, 1)
    } else {
        click_step(Target::Trigger, 0, 0, 1)
    }
}

fn single_click_step(phase: usize, column: usize) -> (taken: Result<(Step, usize), HandlerError>)
    ensures
        same_turn(taken, single_click_turn(phase, column)),
{
    if phase != 0 {
        Ok((Step::Finish, phase))
    } else {
        click_step(Target::Trigger, 0, column, 1)
    }
}

fn pet_step(phase: usize) -> (taken: Result<(Step, usize), HandlerError>)
    ensures
        same_turn(taken, pet_turn(phase)),
{
    if phase < 3 {
        click_step(Target::Trigger, 0, phase, phase + 1)
    } else if phase == 3 {
        click_step(Target::Trigger, 1, 4, 4)
    } else {
        Ok((Step::Finish, phase))
    }
}

fn post_memes_step(phase: usize, updates: &Vec<DiscordMessage>, pick: usize) -> (taken: Result<
    (Step, usize),
    HandlerError,
>)
    ensures
        same_turn(taken, post_memes_turn(phase, updates@, pick)),
{
    if phase == 0 {
        click_step(Target::Trigger, 0, pick, 1)
    } else if phase == 1 {
        Ok((Step::Await, 2))
    } else if phase == 2 {
        if updates.len() < 1 {
            Err(HandlerError::MissingUpdate)
        } else if updates[0].embed_description_contains("**Laptop** is broken") {
            Ok((Step::Send { on: Target::Update(0), content: "pls buy laptop".to_owned() }, 3))
        } else {
            Ok((Step::Finish, phase))
        }
    } else {
        Ok((Step::Finish, phase))
    }
}

fn attack_step(phase: usize, updates: &Vec<DiscordMessage>) -> (taken: Result<
    (Step, usize),
    HandlerError,
>)
    ensures
        same_turn(taken, attack_turn(phase, updates@)),
{
    if phase == usize::MAX {
        return Ok((Step::Finish, phase));
    }
    if phase % 2 == 1 {
        return Ok((Step::Await, phase + 1));
    }
    let round: usize = phase / 2;
    if round == 0 {
        return click_step(Target::Trigger, 0, 0, phase + 1);
    }
    if updates.len() < round {
        return Err(HandlerError::MissingUpdate);
    }
    match updates[round - 1].get_component(0, 0) {
        Some(button) => {
            if !button.disabled {
                click_step(Target::Trigger, 0, 0, phase + 1)
            } else {
                Ok((Step::Finish, phase))
            }
        },
        None => Ok((Step::Finish, phase)),
    }
}

fn stream_step(
    phase: usize,
    trigger: &DiscordMessage,
    updates: &Vec<DiscordMessage>,
    pick: usize,
) -> (taken: Result<(Step, usize), HandlerError>)
    ensures
        same_turn(taken, stream_turn(phase, *trigger, updates@, pick)),
{
    if phase == 0 {
        match trigger.get_component(0, 0) {
            None => Ok((Step::Finish, phase)),
            Some(button) => match &button.label {
                None => Err(HandlerError::MissingLabel),
                Some(label) => {
                    if str_eq(label.as_str(), "Go Live") {
                        if !button.disabled {
                            click_step(Target::Trigger, 0, 0, 1)
                        } else {
                            click_step(Target::Trigger, 0, 2, 20)
                        }
                    } else if str_eq(label.as_str(), "Run AD") {
                        if !button.disabled {
                            click_step(Target::Trigger, 0, pick, 10)
                        } else {
                            click_step(Target::Trigger, 1, 1, 20)
                        }
                    } else {
                        Ok((Step::Finish, phase))
                    }
                },
            },
        }
    } else if phase == 1 || phase == 3 || phase == 5 || phase == 7 {
        Ok((Step::Await, phase + 1))
    } else if phase == 2 {
        if updates.len() < 1 {
            Err(HandlerError::MissingUpdate)
        } else if updates[0].get_component(0, 0).is_none() {
            Err(HandlerError::MissingComponent)
        } else {
            Ok((Step::Select { on: Target::Update(0), row: 0, option: pick }, 3))
        }
    } else if phase == 4 {
        if updates.len() < 2 {
            Err(HandlerError::MissingUpdate)
        } else {
            click_step(Target::Update(1), 1, 0, 5)
        }
    } else if phase == 6 {
        if updates.len() < 3 {
            Err(HandlerError::MissingUpdate)
        } else {
            Ok((Step::Click { on: Target::Update(2), row: 0, column: pick, tolerant: true }, 7))
        }
    } else if phase == 8 {
        if updates.len() < 4 {
            Err(HandlerError::MissingUpdate)
        } else if updates[3].get_component(1, 1).is_some() {
            click_step(Target::Update(2), 1, 1, 20)
        } else {
            click_step(Target::Update(2), 0, 2, 20)
        }
    } else if phase == 10 {
        click_step(Target::Trigger, 1, 1, 20)
    } else {
        Ok((Step::Finish, phase))
    }
}

fn word_order_step(phase: usize, trigger: &DiscordMessage, updates: &Vec<DiscordMessage>) -> (taken:
    Result<(Step, usize), HandlerError>)
    ensures
        same_turn(taken, word_order_turn(phase, *trigger, updates@)),
{
    if phase == 0 {
        return Ok((Step::Await, 1));
    }
    if updates.len() < 1 {
        return Err(HandlerError::MissingUpdate);
    }
    let update = &updates[0];
    if !is_meant_for_me(update) {
        return Ok((Step::Finish, phase));
    }
    if update.data.components.len() == 0 {
        return Err(HandlerError::MissingRow);
    }
    let lines = split(trigger.data.content.as_str(), '\n');
    if phase >= lines.len() {
        return Ok((Step::Finish, phase));
    }
    let word = remove_char(lines[phase].as_str(), '`');
    proof {
        let all = lines_of(trigger.data.content@);
    }
    match label_position(&update.data.components[0].components, word.as_str()) {
        Ok(at) => click_step(Target::Update(0), 0, at, phase + 1),
        Err(e) => Err(e),
    }
}

fn emoji_step(phase: usize, trigger: &DiscordMessage, updates: &Vec<DiscordMessage>) -> (taken:
    Result<(Step, usize), HandlerError>)
    ensures
        same_turn(taken, emoji_turn(phase, *trigger, updates@)),
{
    let emoji = match split_once(trigger.data.content.as_str(), '\n') {
        None => {
            if phase == 0 {
                return Err(HandlerError::MissingLine);
            } else {
                return Ok((Step::Finish, phase));
            }
        },
        Some((_first, emoji)) => emoji,
    };
    if phase == 0 {
        return Ok((Step::Await, 1));
    }
    if phase != 1 {
        return Ok((Step::Finish, phase));
    }
    if updates.len() < 1 {
        return Err(HandlerError::MissingUpdate);
    }
    let update = &updates[0];
    if !is_meant_for_me(update) {
        return Ok((Step::Finish, phase));
    }
    if update.data.components.len() < 2 {
        return Err(HandlerError::MissingRow);
    }
    match emoji_position(
        &update.data.components[0].components,
        &update.data.components[1].components,
        emoji.as_str(),
    ) {
        Ok((row, column)) => click_step(Target::Update(0), row, column, 2),
        Err(e) => Err(e),
    }
}

fn color_step(phase: usize, trigger: &DiscordMessage, updates: &Vec<DiscordMessage>) -> (taken:
    Result<(Step, usize), HandlerError>)
    ensures
        same_turn(taken, color_turn(phase, *trigger, updates@)),
{
    let lines = split(trigger.data.content.as_str(), '\n');
    if phase == 0 {
        if lines.len() < 4 {
            return Err(HandlerError::MissingLine);
        } else {
            return Ok((Step::Await, 1));
        }
    }
    if phase != 1 {
        return Ok((Step::Finish, phase));
    }
    if updates.len() < 1 {
        return Err(HandlerError::MissingUpdate);
    }
    let update = &updates[0];
    if !is_meant_for_me(update) {
        return Ok((Step::Finish, phase));
    }
    match capture_group("`(\\w+)`", update.data.content.as_str(), 1) {
        None => Err(HandlerError::NoWord),
        Some(word) => {
            if trigger.data.components.len() == 0 {
                return Err(HandlerError::MissingRow);
            }
            match color_match_choice(
                &lines,
                &trigger.data.components[0].components,
                word.as_str(),
            ) {
                Ok(at) => click_step(Target::Trigger, 0, at, 2),
                Err(e) => Err(e),
            }
        },
    }
}

impl HandlerRun {
    /// A run of `kind` that has not taken a step yet.
    pub fn new(kind: CommandKind) -> (run: HandlerRun)
        ensures
            run.kind == kind,
            run.phase == 0,
    {
        HandlerRun { kind, phase: 0 }
    }

    /// Among how many buttons or options chance is to pick for the next
    /// step.
    pub fn pick_bound(&self, trigger: &DiscordMessage, updates: &Vec<DiscordMessage>) -> (bound:
        usize)
        ensures
            bound == choices(self.kind, self.phase, *trigger, updates@),
    {
        match self.kind {
            CommandKind::Trivia => if self.phase == 0 {
                4
            } else {
                0
            },
            CommandKind::PostMemes => if self.phase == 0 {
                5
            } else {
                0
            },
            CommandKind::Stream => {
                if self.phase == 0 {
                    match trigger.get_component(0, 0) {
                        Some(button) => match &button.label {
                            Some(label) => if !button.disabled && str_eq(
                                label.as_str(),
                                "Run AD",
                            ) {
                                3
                            } else {
                                0
                            },
                            None => 0,
                        },
                        None => 0,
                    }
                } else if self.phase == 6 {
                    3
                } else if self.phase == 2 && updates.len() >= 1 {
                    match updates[0].get_component(0, 0) {
                        Some(menu) => menu.options.len(),
                        None => 0,
                    }
                } else {
                    0
                }
            },
            _ => 0,
        }
    }

    /// Takes the next step of the run. `trigger` is the message the
    /// descriptor answered, `updates` are the updates the run has waited
    /// for so far, in order, and `pick` is what chance drew for this step.
    /// A failure ends the run where it stands.
    pub fn advance(&mut self, trigger: &DiscordMessage, updates: &Vec<DiscordMessage>, pick: usize) -> (result:
        Result<Step, HandlerError>)
        ensures
            is_turn(
                result,
                *old(self),
                *final(self),
                script(old(self).kind, old(self).phase, *trigger, updates@, pick),
            ),
    {
        let phase = self.phase;
        let taken = match self.kind {
            CommandKind::MasterControl => master_step(phase, trigger),
            CommandKind::HighLow => high_low_step(phase, trigger),
            CommandKind::Hunt => hunt_step(phase, trigger),
            CommandKind::Fish => indent_step(phase, trigger, 1),
            CommandKind::Dig => Ok((Step::Finish, phase)),
            CommandKind::Beg => Ok((Step::Finish, phase)),
            CommandKind::DepositAll => Ok((Step::Finish, phase)),
            CommandKind::Trivia => single_click_step(phase, pick),
            CommandKind::PostMemes => post_memes_step(phase, updates, pick),
            CommandKind::Stream => stream_step(phase, trigger, updates, pick),
            CommandKind::Pet => pet_step(phase),
            CommandKind::Daily => Ok((Step::Finish, phase)),
            CommandKind::WordOrder => word_order_step(phase, trigger, updates),
            CommandKind::EmojiMatch => emoji_step(phase, trigger, updates),
            CommandKind::Soccer => soccer_step(phase, trigger),
            CommandKind::ColorMatch => color_step(phase, trigger, updates),
            CommandKind::Dunk => indent_step(phase, trigger, 2),
            CommandKind::AttackBoss => attack_step(phase, updates),
            CommandKind::TriviaNight => single_click_step(phase, 0),
        };
        match taken {
            Ok((step, next)) => {
                self.phase = next;
                Ok(step)
            },
            Err(e) => Err(e),
        }
    }
}

} // verus!
