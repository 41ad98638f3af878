//! The command scheduler: started and stopped by control signals, it sends
//! at most one command per tick, and none that still rests.

use rand::Rng;
use vstd::prelude::*;
use vstd::string::*;
use crate::commands::{called_at, Command};
use crate::message::{messages_address, messages_url, ApiRequest, HttpMethod, RequestBody};
use crate::model::{DiscordMessagePayload, MasterCommand, MasterCommandType};

verus! {

/// The time between two ticks of a running scheduler, in milliseconds.
pub const TICK_INTERVAL_MS: u64 = 1_000;

/// What the periodic task is to do after a control signal.
#[derive(Debug, Clone, Copy, PartialEq, Eq, Structural)]
pub enum SchedulerEffect {
    /// The scheduler went from idle to running: begin to tick.
    Begin,
    /// The scheduler went from running to idle: cancel the ticking at once.
    Cancel,
    /// The signal changed nothing.
    Nothing,
}

/// Idle, or running against one channel with its own copy of the
/// descriptors that may be sent.
#[derive(Debug)]
pub struct CommandScheduler {
    pub channel_id: Option<String>,
    pub commands: Vec<Command>,
}

/// The time that has passed at `now` since `last`; none where the clock
/// reads earlier than `last`.
pub open spec fn elapsed_since(last: u64, now: u64) -> int {
    if now >= last {
        now - last
    } else {
        0
    }
}

/// The descriptor may be sent at `now`: it was never sent, or its cooldown
/// has passed since.
pub open spec fn is_due(command: Command, now: u64) -> bool {
    command.last_called matches Some(last) ==> elapsed_since(last, now) >= command.cooldown
}

/// The test that picks the descriptors with a trigger text.
pub open spec fn autonomous() -> spec_fn(Command) -> bool {
    |c: Command| c.command is Some
}

/// `request` posts `content` to the channel, referring to no message.
pub open spec fn is_command_post(request: ApiRequest, channel_id: Seq<char>, content: Seq<char>) -> bool {
    &&& request.method == HttpMethod::Post
    &&& request.url@ == messages_url(channel_id)
    &&& request.body matches RequestBody::Message(payload)
    &&& payload.content@ == content
    &&& payload.message_reference is None
}

/// A number below `bound`, as `Rng::gen_range` of the rand crate draws it
/// from the generator of the thread. Which one comes is left to chance;
/// the range is all that is claimed. The call takes for granted that the
/// system's source of randomness can be read.
#[verifier::external_body]
fn random_index(bound: usize) -> (pick: usize)
    requires
        bound > 0,
    ensures
        pick < bound,
{
    rand::thread_rng().gen_range(0..bound)
}

fn due(command: &Command, now: u64) -> (yes: bool)
    ensures
        yes == is_due(*command, now),
{
    match command.last_called {
        Some(last) => {
            let elapsed: u64 = if now >= last {
                now - last
            } else {
                0
            };
            elapsed >= command.cooldown
        },
        None => true,
    }
}

/// A copy of the descriptors of the registry that have a trigger text,
/// in its order.
fn autonomous_copy(registry: &Vec<Command>) -> (runnable: Vec<Command>)
    ensures
        runnable@ == registry@.filter(autonomous()),
        forall|k: int| 0 <= k < runnable@.len() ==> (#[trigger] runnable@[k]).command is Some,
{
    let mut runnable: Vec<Command> = Vec::new();
    let mut i: usize = 0;
    proof {
        reveal(Seq::filter);
    }
    while i < registry.len()
        invariant
            i <= registry@.len(),
            runnable@ == registry@.take(i as int).filter(autonomous()),
            forall|k: int| 0 <= k < runnable@.len() ==> (#[trigger] runnable@[k]).command is Some,
        decreases registry.len() - i,
    {
        proof {
            assert(registry@.take(i + 1) =~= registry@.take(i as int).push(registry@[i as int]));
            registry@.take(i as int).lemma_filter_push(registry@[i as int], autonomous());
        }
        if registry[i].is_autonomous() {
            runnable.push(registry[i].clone());
        }
        i += 1;
    }
    proof {
        assert(registry@.take(i as int) =~= registry@);
    }
    runnable
}

impl CommandScheduler {
    /// The scheduler runs while it has a channel to send to.
    pub open spec fn is_running(&self) -> bool {
        self.channel_id is Some
    }

    /// A running scheduler holds only descriptors with a trigger text; an
    /// idle one holds none. Every scheduler that was made and changed by
    /// the functions of this module alone is so.
    pub open spec fn well_formed(&self) -> bool {
        &&& forall|i: int| 0 <= i < self.commands@.len() ==> (#[trigger] self.commands@[i]).command is Some
        &&& !self.is_running() ==> self.commands@.len() == 0
    }

    /// The outcome of a tick on which chance picked the descriptor `pick`:
    /// a due descriptor is sent to the channel and its time of call set to
    /// `now`; one that still rests makes the tick a no-op, whatever the
    /// state of the others, and so does one without a trigger text.
    pub open spec fn is_tick_outcome(
        before: CommandScheduler,
        after: CommandScheduler,
        request: Option<ApiRequest>,
        now: u64,
        pick: int,
    ) -> bool {
        &&& after.channel_id == before.channel_id
        &&& if before.is_running() && 0 <= pick < before.commands@.len()
            && before.commands@[pick].command is Some && is_due(before.commands@[pick], now) {
            &&& after.commands@ == before.commands@.update(
                pick,
                called_at(before.commands@[pick], now),
            )
            &&& request matches Some(r)
            &&& before.commands@[pick].command matches Some(text)
            &&& is_command_post(r, before.channel_id->0@, text@)
        } else {
            &&& after.commands@ == before.commands@
            &&& request is None
        }
    }

    /// The outcome of a control signal. A start while idle sets the
    /// scheduler running against the channel of the signal, with a copy of
    /// the descriptors of the registry that have a trigger text. A start
    /// while running, and a start that names no channel, change nothing. A
    /// stop while running makes the scheduler idle; a stop while idle
    /// changes nothing.
    pub open spec fn is_signal_outcome(
        before: CommandScheduler,
        after: CommandScheduler,
        effect: SchedulerEffect,
        signal: MasterCommand,
        registry: Seq<Command>,
    ) -> bool {
        match signal.command {
            MasterCommandType::Start => if !before.is_running() && signal.tag is Some {
                &&& effect == SchedulerEffect::Begin
                &&& after.channel_id matches Some(channel) && channel@ == signal.tag->0@
                &&& after.commands@ == registry.filter(autonomous())
            } else {
                &&& effect == SchedulerEffect::Nothing
                &&& after == before
            },
            MasterCommandType::Stop => if before.is_running() {
                &&& effect == SchedulerEffect::Cancel
                &&& !after.is_running()
                &&& after.commands@.len() == 0
            } else {
                &&& effect == SchedulerEffect::Nothing
                &&& after == before
            },
        }
    }

    /// An idle scheduler.
    pub fn new() -> (scheduler: CommandScheduler)
        ensures
            !scheduler.is_running(),
            scheduler.commands@.len() == 0,
            scheduler.well_formed(),
    {
        CommandScheduler { channel_id: None, commands: Vec::new() }
    }

    /// Whether the scheduler runs.
    pub fn running(&self) -> (yes: bool)
        ensures
            yes == self.is_running(),
    {
        self.channel_id.is_some()
    }

    /// Takes a control signal from the operator.
    pub fn on_signal(&mut self, signal: &MasterCommand, registry: &Vec<Command>) -> (effect:
        SchedulerEffect)
        ensures
            old(self).well_formed() ==> final(self).well_formed(),
            Self::is_signal_outcome(*old(self), *final(self), effect, *signal, registry@),
    {
        match signal.command {
            MasterCommandType::Start => {
                if self.channel_id.is_some() {
                    return SchedulerEffect::Nothing;
                }
                match &signal.tag {
                    None => SchedulerEffect::Nothing,
                    Some(channel) => {
                        self.channel_id = Some(channel.clone());
                        self.commands = autonomous_copy(registry);
                        SchedulerEffect::Begin
                    },
                }
            },
            MasterCommandType::Stop => {
                if self.channel_id.is_none() {
                    return SchedulerEffect::Nothing;
                }
                self.channel_id = None;
                self.commands = Vec::new();
                SchedulerEffect::Cancel
            },
        }
    }

    /// One tick on which chance has picked the descriptor `pick`. A pick
    /// outside the copy, and a tick of an idle scheduler, do nothing.
    pub fn tick_with_pick(&mut self, now: u64, pick: usize) -> (request: Option<ApiRequest>)
        ensures
            old(self).well_formed() ==> final(self).well_formed(),
            Self::is_tick_outcome(*old(self), *final(self), request, now, pick as int),
    {
        let channel = match &self.channel_id {
            Some(channel) => channel,
            None => {
                return None;
            },
        };
        if pick >= self.commands.len() {
            return None;
        }
        let picked = &self.commands[pick];
        let text = match &picked.command {
            Some(text) => text.clone(),
            None => {
                return None;
            },
        };
        if !due(picked, now) {
            return None;
        }
        let request = ApiRequest {
            method: HttpMethod::Post,
            url: messages_address(channel.as_str()),
            body: RequestBody::Message(
                DiscordMessagePayload { content: text, message_reference: None },
            ),
        };
        let called = Command {
            command: picked.command.clone(),
            cooldown: picked.cooldown,
            last_called: Some(now),
            kind: picked.kind,
        };
        self.commands.set(pick, called);
        Some(request)
    }

    /// One tick: chance picks one descriptor of the whole copy, due or
    /// not, and the tick goes on as `tick_with_pick` says for that pick. An
    /// idle scheduler, and one with nothing to send, do nothing.
    pub fn tick(&mut self, now: u64) -> (request: Option<ApiRequest>)
        ensures
            old(self).well_formed() ==> final(self).well_formed(),
            !old(self).is_running() || old(self).commands@.len() == 0 ==> request is None
                && *final(self) == *old(self),
            old(self).is_running() && old(self).commands@.len() > 0 ==> exists|pick: int|
                0 <= pick < old(self).commands@.len() && #[trigger] Self::is_tick_outcome(
                    *old(self),
                    *final(self),
                    request,
                    now,
                    pick,
                ),
    {
        if self.channel_id.is_none() || self.commands.len() == 0 {
            return None;
        }
        let pick = random_index(self.commands.len());
        self.tick_with_pick(now, pick)
    }
}

/// While the scheduler runs, a further start signal begins no second
/// ticking: it has no effect and leaves the scheduler as it was, so each
/// tick still sends at most one command.
pub proof fn lemma_second_start_is_ignored(
    before: CommandScheduler,
    after: CommandScheduler,
    effect: SchedulerEffect,
    signal: MasterCommand,
    registry: Seq<Command>,
)
    requires
        before.is_running(),
        signal.command == MasterCommandType::Start,
        CommandScheduler::is_signal_outcome(before, after, effect, signal, registry),
    ensures
        effect == SchedulerEffect::Nothing,
        after == before,
{
}

/// Only a start while idle begins the ticking, and it leaves the scheduler
/// running; only a stop while running cancels it, and it leaves the
/// scheduler idle. So between two cancels lies at most one begin.
pub proof fn lemma_effects_follow_state(
    before: CommandScheduler,
    after: CommandScheduler,
    effect: SchedulerEffect,
    signal: MasterCommand,
    registry: Seq<Command>,
)
    requires
        CommandScheduler::is_signal_outcome(before, after, effect, signal, registry),
    ensures
        effect == SchedulerEffect::Begin ==> !before.is_running() && after.is_running(),
        effect == SchedulerEffect::Cancel ==> before.is_running() && !after.is_running(),
        effect == SchedulerEffect::Nothing ==> after == before,
{
}

/// A descriptor whose cooldown has not passed is never sent: a tick that
/// picks it sends nothing and changes nothing, also while others are due.
pub proof fn lemma_resting_descriptor_is_not_sent(
    before: CommandScheduler,
    after: CommandScheduler,
    request: Option<ApiRequest>,
    now: u64,
    pick: int,
)
    requires
        CommandScheduler::is_tick_outcome(before, after, request, now, pick),
        0 <= pick < before.commands@.len(),
        before.commands@[pick].last_called matches Some(last) && elapsed_since(last, now)
            < before.commands@[pick].cooldown,
    ensures
        request is None,
        after.commands@ == before.commands@,
        after.channel_id == before.channel_id,
{
}

/// A tick sends at most the one descriptor that was picked, and after it
/// that descriptor rests for its whole cooldown.
pub proof fn lemma_sent_descriptor_rests(
    before: CommandScheduler,
    after: CommandScheduler,
    request: Option<ApiRequest>,
    now: u64,
    pick: int,
    later: u64,
)
    requires
        CommandScheduler::is_tick_outcome(before, after, request, now, pick),
        request is Some,
        now <= later,
        later - now < before.commands@[pick].cooldown,
    ensures
        0 <= pick < after.commands@.len(),
        !is_due(after.commands@[pick], later),
        forall|i: int|
            0 <= i < after.commands@.len() && i != pick ==> after.commands@[i]
                == before.commands@[i],
{
}

} // verus!
