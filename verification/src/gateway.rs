//! The gateway client: what a received frame does to the session, which
//! frames go out, when heartbeats are due, and how a lost connection is
//! taken up again.

use vstd::prelude::*;
use vstd::string::*;
use crate::commands::{
    called_at, get_commands, invoked_at, is_fresh_descriptor, is_routing, registry_kinds,
    route_and_record, Command,
};
use crate::correlator::{delivered_to, passed_over, waiters_of, PendingView, UpdateCorrelator};
use crate::message::{DiscordClient, DiscordMessage};
use crate::model::{
    Activity, HelloData, IdentifyData, MasterCommand, MasterCommandType, MessageCreateData,
    OpCode, Package, PackageWithData, Presence, Properties, ReadyData, ResumeData,
};
use crate::text::str_eq;

verus! {

/// How long the server may take to say hello on a new socket, in
/// milliseconds.
pub const HANDSHAKE_WINDOW_MS: u64 = 30_000;

/// Where the connection of the current generation stands.
#[derive(Debug, Clone, Copy, PartialEq, Eq, Structural)]
pub enum Phase {
    /// No socket is open.
    Closed,
    /// A socket is open and the server's hello has not come yet.
    AwaitingHello,
    /// The hello has come: frames are taken and heartbeats run.
    Open,
}

/// The payload of a received frame, decoded as its opcode and tag ask.
#[derive(Debug)]
pub enum Payload {
    Absent,
    Hello(HelloData),
    Ready(ReadyData),
    Message(MessageCreateData),
    /// A payload is there and could not be decoded.
    Unreadable,
}

/// A received frame.
#[derive(Debug)]
pub struct Frame {
    pub op: OpCode,
    pub sequence: Option<u64>,
    pub tag: Option<String>,
    pub payload: Payload,
}

/// What a frame asks of the client, by opcode and tag alone.
#[derive(Debug, Clone, Copy, PartialEq, Eq, Structural)]
pub enum FrameClass {
    Hello,
    HeartbeatRequest,
    HeartbeatAck,
    ReconnectRequest,
    Ready,
    MessageCreate,
    MessageUpdate,
    /// Any other opcode or tag: the frame is dropped.
    Ignored,
}

/// Which payload a frame of a class carries.
#[derive(Debug, Clone, Copy, PartialEq, Eq, Structural)]
pub enum PayloadKind {
    Nothing,
    Hello,
    Ready,
    Message,
}

/// A frame to send.
#[derive(Debug)]
pub enum Outbound {
    Identify(PackageWithData<IdentifyData>),
    Heartbeat(PackageWithData<u64>),
    Resume(PackageWithData<ResumeData>),
}

/// What is to be done after a frame was taken, in this order.
#[derive(Debug)]
pub enum GatewayAction {
    /// Run the heartbeat timer of this generation at this interval.
    StartHeartbeat { generation: u64, interval_ms: u64 },
    Send(Outbound),
    /// The server asked for it: close the socket and connect again.
    Reconnect,
    /// Run the action of each of these descriptors on the message, each on
    /// its own and none waiting for another.
    RunHandlers { message: DiscordMessage, commands: Vec<usize> },
    /// Hand the update to each of these waiters.
    DeliverUpdate { message: DiscordMessage, waiters: Vec<u64> },
}

/// The heartbeat timer of one generation. Times are milliseconds.
#[derive(Debug, Clone, Copy, PartialEq, Eq, Structural)]
pub struct HeartbeatScheduler {
    pub generation: u64,
    pub interval_ms: u64,
    pub started_at: u64,
    pub next_due: u64,
    /// How many heartbeats the timer has sent.
    pub beats: u64,
    /// A heartbeat was sent and the server has not acknowledged it yet.
    pub awaiting_ack: bool,
}

/// What a tick of the heartbeat timer comes to.
#[derive(Debug)]
pub enum HeartbeatDecision {
    /// The tick belongs to no running timer of this generation: nothing is
    /// sent, and the task that ticked is to end.
    Stale,
    /// No heartbeat is due yet.
    Wait,
    /// Send this one heartbeat.
    Beat(PackageWithData<u64>),
    /// The last heartbeat was never acknowledged, or the clock has run
    /// out: the connection counts as lost.
    Lost,
}

/// Why a connection ended.
#[derive(Debug, Clone, Copy, PartialEq, Eq, Structural)]
pub enum ConnectionError {
    /// No socket, or no hello within the time allowed for it.
    HandshakeFailed,
    /// The stream ended or a read failed.
    StreamEnded,
    /// The server broke the protocol beyond a single bad frame.
    ProtocolViolation,
    /// A heartbeat went unacknowledged.
    HeartbeatLost,
    /// The server asked the client to reconnect.
    ServerRequested,
}

/// What the supervisor does after a connection ended.
#[derive(Debug, Clone, Copy, PartialEq, Eq, Structural)]
pub enum Recovery {
    /// Give up and tell the operator.
    Fatal,
    /// Cancel the tasks of the generation `cancel`, then connect again;
    /// `resume` says whether a session is known to resume.
    Reconnect { cancel: u64, resume: bool },
}

/// What a new connection attempt goes by.
#[derive(Debug, Clone, Copy, PartialEq, Eq, Structural)]
pub struct ConnectPlan {
    pub generation: u64,
    pub resume: bool,
}

/// The client of one gateway: the session, and the state of the current
/// connection generation.
#[derive(Debug)]
pub struct GatewayClient {
    pub session: DiscordClient,
    /// The name of the operating system, as the client reports it.
    pub os: String,
    pub generation: u64,
    pub phase: Phase,
    pub heartbeat: Option<HeartbeatScheduler>,
}

/// What a frame asks for, by its opcode and tag.
pub open spec fn class_of(op: OpCode, tag: Option<Seq<char>>) -> FrameClass {
    match op {
        OpCode::Hello => FrameClass::Hello,
        OpCode::Heartbeat => FrameClass::HeartbeatRequest,
        OpCode::HeartbeatAck => FrameClass::HeartbeatAck,
        OpCode::Reconnect => FrameClass::ReconnectRequest,
        OpCode::Dispatch => match tag {
            Some(t) => if t == "READY"@ {
                FrameClass::Ready
            } else if t == "MESSAGE_CREATE"@ {
                FrameClass::MessageCreate
            } else if t == "MESSAGE_UPDATE"@ {
                FrameClass::MessageUpdate
            } else {
                FrameClass::Ignored
            },
            None => FrameClass::Ignored,
        },
        _ => FrameClass::Ignored,
    }
}

/// The characters of an event tag, where the frame has one.
pub open spec fn tag_view(tag: Option<String>) -> Option<Seq<char>> {
    match tag {
        Some(t) => Some(t@),
        None => None,
    }
}

/// Which payload a frame of a class carries.
pub open spec fn payload_of(class: FrameClass) -> PayloadKind {
    match class {
        FrameClass::Hello => PayloadKind::Hello,
        FrameClass::Ready => PayloadKind::Ready,
        FrameClass::MessageCreate => PayloadKind::Message,
        FrameClass::MessageUpdate => PayloadKind::Message,
        _ => PayloadKind::Nothing,
    }
}

/// The sequence number the session holds once a frame with this sequence
/// field was seen: the field's value where it has one.
pub open spec fn sequence_after(held: u64, seen: Option<u64>) -> u64 {
    match seen {
        Some(s) => s,
        None => held,
    }
}

/// A session is known, so a new connection resumes it.
pub open spec fn can_resume(session: DiscordClient) -> bool {
    session.session_id@.len() > 0
}

/// How to go on after the connection of `generation` ended. Only a
/// handshake that fails while no session is known is fatal.
pub open spec fn recovery_from(cause: ConnectionError, generation: u64, resume: bool) -> Recovery {
    if cause == ConnectionError::HandshakeFailed && !resume {
        Recovery::Fatal
    } else {
        Recovery::Reconnect { cancel: generation, resume }
    }
}

/// The time at which the heartbeat number `k` of a timer is due.
pub open spec fn beat_time(started_at: u64, interval_ms: u64, k: int) -> int {
    started_at + k * interval_ms
}

/// How many heartbeats of a timer have come due by `now`: one for every
/// whole interval that has passed since it started.
pub open spec fn beats_due(started_at: u64, interval_ms: u64, now: u64) -> int {
    if now >= started_at && interval_ms > 0 {
        (now - started_at) / (interval_ms as int)
    } else {
        0
    }
}

/// The frame is a heartbeat that carries this sequence.
pub open spec fn is_heartbeat_frame(frame: PackageWithData<u64>, sequence: u64) -> bool {
    &&& frame.op == OpCode::Heartbeat
    &&& frame.d == sequence
    &&& frame.s == Some(sequence)
    &&& frame.t is None
}

/// The frame resumes exactly this session: its token, its session id, and
/// the sequence it holds now.
pub open spec fn is_resume_frame(frame: PackageWithData<ResumeData>, session: DiscordClient) -> bool {
    &&& frame.op == OpCode::Resume
    &&& frame.s == Some(session.sequence)
    &&& frame.t is None
    &&& frame.d.token@ == session.token@
    &&& frame.d.session_id@ == session.session_id@
    &&& frame.d.seq == session.sequence
}

/// The frame logs this client in afresh.
pub open spec fn is_identify_frame(frame: PackageWithData<IdentifyData>, client: GatewayClient) -> bool {
    &&& frame.op == OpCode::Identify
    &&& frame.s == Some(client.session.sequence)
    &&& frame.t is None
    &&& frame.d.token@ == client.session.token@
    &&& frame.d.properties.os@ == client.os@
    &&& frame.d.properties.browser@ == "rust"@
    &&& frame.d.properties.device@ == "rust"@
    &&& !frame.d.compress
    &&& frame.d.presence.activities@.len() == 1
    &&& frame.d.presence.activities@[0].name@ == "Dank Memer"@
    &&& frame.d.presence.activities@[0].activity_type == 0
    &&& frame.d.presence.status@ == "online"@
    &&& frame.d.presence.since == 0
    &&& !frame.d.presence.afk
}

/// A hello the client can go by: its interval is not zero, and the first
/// heartbeat falls within the range of the clock.
pub open spec fn is_usable_hello(hello: HelloData, now: u64) -> bool {
    hello.heartbeat_interval > 0 && now + hello.heartbeat_interval <= u64::MAX
}

/// The timer a usable hello starts.
pub open spec fn timer_started(generation: u64, interval_ms: u64, now: u64) -> HeartbeatScheduler {
    HeartbeatScheduler {
        generation,
        interval_ms,
        started_at: now,
        next_due: (now + interval_ms) as u64,
        beats: 0,
        awaiting_ack: false,
    }
}

impl HeartbeatScheduler {
    /// The next heartbeat is due one interval after the last, the first
    /// one interval after the start.
    pub open spec fn well_formed(&self) -> bool {
        &&& self.interval_ms > 0
        &&& self.next_due == beat_time(self.started_at, self.interval_ms, self.beats + 1)
    }

    /// The timer can send one more heartbeat and schedule the next.
    pub open spec fn can_go_on(&self) -> bool {
        self.next_due + self.interval_ms <= u64::MAX && self.beats < u64::MAX
    }

    /// The timer once its last heartbeat was acknowledged.
    pub open spec fn acknowledged(&self) -> HeartbeatScheduler {
        HeartbeatScheduler { awaiting_ack: false, ..*self }
    }

    /// The timer after it has sent a heartbeat.
    pub open spec fn after_beat(&self) -> HeartbeatScheduler {
        HeartbeatScheduler {
            next_due: (self.next_due + self.interval_ms) as u64,
            beats: (self.beats + 1) as u64,
            awaiting_ack: true,
            ..*self
        }
    }
}

impl GatewayClient {
    /// A timer runs only while the connection is open, and it is the timer
    /// of the current generation. A new client is so, and every function
    /// of this module keeps it so.
    pub open spec fn well_formed(&self) -> bool {
        &&& self.heartbeat matches Some(timer) ==> {
            &&& timer.generation == self.generation
            &&& timer.well_formed()
            &&& self.phase == Phase::Open
        }
        &&& self.phase == Phase::Open ==> self.heartbeat is Some
    }

    /// The client once its connection is closed and its timer gone.
    pub open spec fn closed(&self) -> GatewayClient {
        GatewayClient { phase: Phase::Closed, heartbeat: None, ..*self }
    }

    /// The client with its connection open and this timer started.
    pub open spec fn running(&self, timer: HeartbeatScheduler) -> GatewayClient {
        GatewayClient { phase: Phase::Open, heartbeat: Some(timer), ..*self }
    }

    /// The client with this timer running.
    pub open spec fn with_timer(&self, timer: HeartbeatScheduler) -> GatewayClient {
        GatewayClient { heartbeat: Some(timer), ..*self }
    }

    /// The client as the generation `generation` opens: no timer, a hello
    /// awaited, and the sequence at zero again unless a session is resumed.
    pub open spec fn opened(&self, generation: u64, resume: bool) -> GatewayClient {
        GatewayClient {
            generation,
            phase: Phase::AwaitingHello,
            heartbeat: None,
            session: DiscordClient {
                sequence: if resume {
                    self.session.sequence
                } else {
                    0
                },
                ..self.session
            },
            ..*self
        }
    }

    /// The client with this registry in place of its own.
    pub open spec fn with_commands(&self, commands: Vec<Command>) -> GatewayClient {
        GatewayClient { session: DiscordClient { commands, ..self.session }, ..*self }
    }

    /// The client once the sequence field of a frame was taken in.
    pub open spec fn having_seen(&self, sequence: Option<u64>) -> GatewayClient {
        GatewayClient {
            session: DiscordClient {
                sequence: sequence_after(self.session.sequence, sequence),
                ..self.session
            },
            ..*self
        }
    }
}

/// What a tick of the heartbeat timer of `generation` at `now` comes to.
///
/// A tick of another generation, and a tick while no timer runs, is
/// stale: nothing is sent and nothing changes. A tick before the next
/// heartbeat is due waits. A due tick sends one heartbeat with the
/// sequence held now and schedules the next one interval later, unless
/// the heartbeat before was never acknowledged or the clock has run out:
/// the connection is lost, the timer is gone and the connection closed.
pub open spec fn is_heartbeat_outcome(
    before: GatewayClient,
    after: GatewayClient,
    decision: HeartbeatDecision,
    generation: u64,
    now: u64,
) -> bool {
    match before.heartbeat {
        Some(timer) => if generation != before.generation {
            decision is Stale && after == before
        } else if now < timer.next_due {
            decision is Wait && after == before
        } else if timer.awaiting_ack || !timer.can_go_on() {
            decision is Lost && after == before.closed()
        } else {
            &&& decision matches HeartbeatDecision::Beat(beat)
            &&& is_heartbeat_frame(beat, before.session.sequence)
            &&& after == before.with_timer(timer.after_beat())
        },
        None => decision is Stale && after == before,
    }
}

/// The context under which a message-like event is handled: the event
/// itself and the identity of the session at that moment.
pub open spec fn is_context_of(message: DiscordMessage, data: MessageCreateData, session: DiscordClient) -> bool {
    &&& message.data == data
    &&& session.user matches Some(user) && message.user == user
    &&& message.master_id == session.master_id
}

/// What taking a frame at `now` comes to: the client and the table of
/// waiters after it, and the actions to perform.
///
/// The sequence field of every frame is taken in first. A hello is taken
/// only while one is awaited, every other frame only once the connection
/// is open. Whatever is not taken is dropped: it changes nothing more and
/// asks for nothing.
pub open spec fn is_handled(
    before: GatewayClient,
    table_before: Seq<PendingView>,
    frame: Frame,
    now: u64,
    after: GatewayClient,
    table_after: Seq<PendingView>,
    actions: Seq<GatewayAction>,
) -> bool {
    let seen = before.having_seen(frame.sequence);
    let dropped = after == seen && table_after == table_before && actions.len() == 0;
    match class_of(frame.op, tag_view(frame.tag)) {
        FrameClass::Hello => if before.phase == Phase::AwaitingHello {
            match frame.payload {
                Payload::Hello(hello) => if is_usable_hello(hello, now) {
                    &&& after == seen.running(
                        timer_started(before.generation, hello.heartbeat_interval, now),
                    )
                    &&& table_after == table_before
                    &&& actions.len() == 2
                    &&& actions[0] matches GatewayAction::StartHeartbeat { generation, interval_ms }
                    &&& generation == before.generation
                    &&& interval_ms == hello.heartbeat_interval
                    &&& actions[1] matches GatewayAction::Send(out)
                    &&& if can_resume(seen.session) {
                        out matches Outbound::Resume(resume) && is_resume_frame(
                            resume,
                            seen.session,
                        )
                    } else {
                        out matches Outbound::Identify(identify) && is_identify_frame(
                            identify,
                            seen,
                        )
                    }
                } else {
                    dropped
                },
                _ => dropped,
            }
        } else {
            dropped
        },
        FrameClass::HeartbeatRequest => if before.phase == Phase::Open {
            &&& after == seen
            &&& table_after == table_before
            &&& actions.len() == 1
            &&& actions[0] matches GatewayAction::Send(Outbound::Heartbeat(beat))
            &&& is_heartbeat_frame(beat, seen.session.sequence)
        } else {
            dropped
        },
        FrameClass::HeartbeatAck => if before.phase == Phase::Open {
            &&& after == match before.heartbeat {
                Some(timer) => seen.with_timer(timer.acknowledged()),
                None => seen,
            }
            &&& table_after == table_before
            &&& actions.len() == 0
        } else {
            dropped
        },
        FrameClass::ReconnectRequest => if before.phase == Phase::Open {
            &&& after == GatewayClient { phase: Phase::Closed, heartbeat: None, ..seen }
            &&& table_after == table_before
            &&& actions.len() == 1
            &&& actions[0] is Reconnect
        } else {
            dropped
        },
        FrameClass::Ready => if before.phase == Phase::Open {
            match frame.payload {
                Payload::Ready(ready) => {
                    &&& after == GatewayClient {
                        session: DiscordClient {
                            session_id: ready.session_id,
                            user: Some(ready.user),
                            ..seen.session
                        },
                        ..seen
                    }
                    &&& table_after == table_before
                    &&& actions.len() == 0
                },
                _ => dropped,
            }
        } else {
            dropped
        },
        FrameClass::MessageCreate => if before.phase == Phase::Open && before.session.user is Some {
            match frame.payload {
                Payload::Message(data) => {
                    let context = DiscordMessage {
                        master_id: seen.session.master_id,
                        user: seen.session.user->0,
                        data,
                    };
                    &&& after == seen.with_commands(after.session.commands)
                    &&& after.session.commands@ == invoked_at(seen.session.commands@, context, now)
                    &&& table_after == table_before
                    &&& actions.len() <= 1
                    &&& actions.len() == 0 ==> is_routing(
                        Seq::<usize>::empty(),
                        seen.session.commands@,
                        context,
                    )
                    &&& actions.len() == 1 ==> {
                        &&& actions[0] matches GatewayAction::RunHandlers { message, commands }
                        &&& is_context_of(message, data, seen.session)
                        &&& commands@.len() > 0
                        &&& is_routing(commands@, seen.session.commands@, message)
                    }
                },
                _ => dropped,
            }
        } else {
            dropped
        },
        FrameClass::MessageUpdate => if before.phase == Phase::Open && before.session.user is Some {
            match frame.payload {
                Payload::Message(data) => {
                    let resolved = waiters_of(table_before.filter(delivered_to(data.id@, now)));
                    &&& after == seen
                    &&& table_after == table_before.filter(passed_over(data.id@, now))
                    &&& if resolved.len() == 0 {
                        actions.len() == 0
                    } else {
                        &&& actions.len() == 1
                        &&& actions[0] matches GatewayAction::DeliverUpdate { message, waiters }
                        &&& is_context_of(message, data, seen.session)
                        &&& waiters@ == resolved
                    }
                },
                _ => dropped,
            }
        } else {
            dropped
        },
        FrameClass::Ignored => dropped,
    }
}

/// Tells what a frame asks for, from its opcode and tag.
pub fn classify(op: OpCode, tag: &Option<String>) -> (class: FrameClass)
    ensures
        class == class_of(op, tag_view(*tag)),
{
    match op {
        OpCode::Hello => FrameClass::Hello,
        OpCode::Heartbeat => FrameClass::HeartbeatRequest,
        OpCode::HeartbeatAck => FrameClass::HeartbeatAck,
        OpCode::Reconnect => FrameClass::ReconnectRequest,
        OpCode::Dispatch => match tag {
            Some(t) => {
                if str_eq(t.as_str(), "READY") {
                    FrameClass::Ready
                } else if str_eq(t.as_str(), "MESSAGE_CREATE") {
                    FrameClass::MessageCreate
                } else if str_eq(t.as_str(), "MESSAGE_UPDATE") {
                    FrameClass::MessageUpdate
                } else {
                    FrameClass::Ignored
                }
            },
            None => FrameClass::Ignored,
        },
        _ => FrameClass::Ignored,
    }
}

/// Tells as what the payload of a frame is to be decoded.
pub fn payload_kind(op: OpCode, tag: &Option<String>) -> (kind: PayloadKind)
    ensures
        kind == payload_of(class_of(op, tag_view(*tag))),
{
    match classify(op, tag) {
        FrameClass::Hello => PayloadKind::Hello,
        FrameClass::Ready => PayloadKind::Ready,
        FrameClass::MessageCreate => PayloadKind::Message,
        FrameClass::MessageUpdate => PayloadKind::Message,
        _ => PayloadKind::Nothing,
    }
}

/// Puts a package off the wire and its decoded payload together as a
/// frame. The undecoded payload is let go.
pub fn frame_of(package: Package, payload: Payload) -> (frame: Frame)
    ensures
        frame.op == package.op,
        frame.sequence == package.sequence,
        frame.tag == package.tag,
        frame.payload == payload,
{
    Frame { op: package.op, sequence: package.sequence, tag: package.tag, payload }
}

/// Builds the frame that carries `data` under `op_code`: it bears the
/// sequence the session holds now.
pub fn dispatch<T>(client: &DiscordClient, op_code: OpCode, data: T, event: Option<&str>) -> (frame:
    PackageWithData<T>)
    ensures
        frame.op == op_code,
        frame.d == data,
        frame.s == Some(client.sequence),
        match (frame.t, event) {
            (Some(t), Some(e)) => t@ == e@,
            (None, None) => true,
            _ => false,
        },
{
    PackageWithData {
        op: op_code,
        d: data,
        t: match event {
            Some(evt) => Some(evt.to_owned()),
            None => None,
        },
        s: Some(client.sequence),
    }
}

/// The last sequence the session has seen.
pub fn get_sequence(client: &DiscordClient) -> (sequence: u64)
    ensures
        sequence == client.sequence,
{
    client.sequence
}

/// The credential of the session.
pub fn get_token(client: &DiscordClient) -> (token: String)
    ensures
        token@ == client.token@,
{
    client.token.clone()
}

/// The session id the server gave; empty while none is known.
pub fn get_session_id(client: &DiscordClient) -> (session_id: String)
    ensures
        session_id@ == client.session_id@,
{
    client.session_id.clone()
}

/// The heartbeat that carries the sequence the session holds now.
pub fn heartbeat_frame(client: &DiscordClient) -> (frame: PackageWithData<u64>)
    ensures
        is_heartbeat_frame(frame, client.sequence),
{
    dispatch(client, OpCode::Heartbeat, get_sequence(client), None)
}

/// The frame that resumes the session as it stands now.
pub fn resume_frame(client: &DiscordClient) -> (frame: PackageWithData<ResumeData>)
    ensures
        is_resume_frame(frame, *client),
{
    let data = ResumeData {
        token: client.token.clone(),
        session_id: client.session_id.clone(),
        seq: client.sequence,
    };
    dispatch(client, OpCode::Resume, data, None)
}

impl GatewayClient {
    /// Whether a session is known that a new connection can resume.
    pub fn resumable(&self) -> (yes: bool)
        ensures
            yes == can_resume(self.session),
    {
        let id = self.session.session_id.as_str();
        id.unicode_len() > 0
    }

    /// The frame that logs this client in afresh.
    pub fn identify_frame(&self) -> (frame: PackageWithData<IdentifyData>)
        ensures
            is_identify_frame(frame, *self),
    {
        let mut activities: Vec<Activity> = Vec::new();
        activities.push(Activity { name: "Dank Memer".to_owned(), activity_type: 0 });
        let data = IdentifyData {
            token: get_token(&self.session),
            properties: Properties {
                browser: "rust".to_owned(),
                device: "rust".to_owned(),
                os: self.os.clone(),
            },
            compress: false,
            presence: Presence { activities, status: "online".to_owned(), since: 0, afk: false },
        };
        dispatch(&self.session, OpCode::Identify, data, None)
    }

    /// One tick of the heartbeat timer of `generation` at `now`.
    pub fn heartbeat_tick(&mut self, generation: u64, now: u64) -> (decision: HeartbeatDecision)
        ensures
            old(self).well_formed() ==> final(self).well_formed(),
            is_heartbeat_outcome(*old(self), *final(self), decision, generation, now),
    {
        let timer = match self.heartbeat {
            Some(timer) => timer,
            None => {
                return HeartbeatDecision::Stale;
            },
        };
        if generation != self.generation {
            return HeartbeatDecision::Stale;
        }
        if now < timer.next_due {
            return HeartbeatDecision::Wait;
        }
        if timer.awaiting_ack || timer.interval_ms > u64::MAX - timer.next_due || timer.beats
            == u64::MAX {
            self.phase = Phase::Closed;
            self.heartbeat = None;
            return HeartbeatDecision::Lost;
        }
        let beat = heartbeat_frame(&self.session);
        proof {
            assert((timer.beats + 2) * timer.interval_ms == (timer.beats + 1) * timer.interval_ms
                + timer.interval_ms) by (nonlinear_arith);
        }
        self.heartbeat = Some(
            HeartbeatScheduler {
                generation: timer.generation,
                interval_ms: timer.interval_ms,
                started_at: timer.started_at,
                next_due: timer.next_due + timer.interval_ms,
                beats: timer.beats + 1,
                awaiting_ack: true,
            },
        );
        HeartbeatDecision::Beat(beat)
    }

    /// Lets go of the session, so that the next connection logs in afresh
    /// and does not resume: the session id and the identity are cleared and
    /// the sequence starts at zero again. Token, operator and registry
    /// stay.
    pub fn forget_session(&mut self)
        ensures
            old(self).well_formed() ==> final(self).well_formed(),
            !can_resume(final(self).session),
            final(self).session.session_id@.len() == 0,
            final(self).session.user is None,
            final(self).session.sequence == 0,
            final(self).session.token == old(self).session.token,
            final(self).session.master_id == old(self).session.master_id,
            final(self).session.commands == old(self).session.commands,
            final(self).os == old(self).os,
            final(self).generation == old(self).generation,
            final(self).phase == old(self).phase,
            final(self).heartbeat == old(self).heartbeat,
    {
        self.session.session_id = String::new();
        self.session.user = None;
        self.session.sequence = 0;
    }

    /// Whether the handshake has failed at `now` on a socket that was
    /// opened at `opened_at`: it has where the hello is still awaited
    /// after the whole window.
    pub fn handshake_overdue(&self, opened_at: u64, now: u64) -> (yes: bool)
        ensures
            yes == (self.phase == Phase::AwaitingHello && now >= opened_at && now - opened_at
                >= HANDSHAKE_WINDOW_MS),
    {
        self.phase == Phase::AwaitingHello && now >= opened_at && now - opened_at
            >= HANDSHAKE_WINDOW_MS
    }

    /// Opens the next generation before a connection attempt: whatever
    /// timer ran is gone, the generation counts one up, and a hello is
    /// awaited. Where no session is known the login will be a fresh one,
    /// so the sequence starts at zero again. There is no next generation
    /// once the counter is at its end.
    pub fn begin_generation(&mut self) -> (plan: Option<ConnectPlan>)
        ensures
            old(self).well_formed() ==> final(self).well_formed(),
            plan is Some <==> old(self).generation < u64::MAX,
            plan is None ==> *final(self) == *old(self),
            plan matches Some(p) ==> {
                &&& p.generation == old(self).generation + 1
                &&& p.resume == can_resume(old(self).session)
                &&& *final(self) == old(self).opened(p.generation, p.resume)
            },
    {
        if self.generation == u64::MAX {
            return None;
        }
        let resume = self.resumable();
        self.generation = self.generation + 1;
        self.phase = Phase::AwaitingHello;
        self.heartbeat = None;
        if !resume {
            self.session.sequence = 0;
        }
        Some(ConnectPlan { generation: self.generation, resume })
    }

    /// Takes note that the connection ended, and says how to go on. The
    /// timer of the ended generation is cancelled before anything else
    /// happens. Only a handshake that fails while no session is known is
    /// fatal; every other end is followed by a new connection, which
    /// resumes the session where one is known.
    pub fn on_connection_end(&mut self, cause: ConnectionError) -> (recovery: Recovery)
        ensures
            old(self).well_formed() ==> final(self).well_formed(),
            *final(self) == old(self).closed(),
            recovery == recovery_from(cause, old(self).generation, can_resume(old(self).session)),
    {
        self.phase = Phase::Closed;
        self.heartbeat = None;
        let resume = self.resumable();
        match cause {
            ConnectionError::HandshakeFailed => {
                if resume {
                    Recovery::Reconnect { cancel: self.generation, resume }
                } else {
                    Recovery::Fatal
                }
            },
            _ => Recovery::Reconnect { cancel: self.generation, resume },
        }
    }
}

/// Starts the heartbeat timer of the current generation at `now`, to beat
/// every `heartbeat_interval` milliseconds, and with it opens the
/// connection. An interval of zero, and one whose first beat falls past
/// the end of the clock, start nothing.
pub fn interval_heartbeat(client: &mut GatewayClient, heartbeat_interval: u64, now: u64) -> (started:
    bool)
    ensures
        old(client).well_formed() ==> final(client).well_formed(),
        started == (heartbeat_interval > 0 && now + heartbeat_interval <= u64::MAX),
        started ==> *final(client) == old(client).running(
            timer_started(old(client).generation, heartbeat_interval, now),
        ),
        !started ==> *final(client) == *old(client),
{
    if heartbeat_interval == 0 || heartbeat_interval > u64::MAX - now {
        return false;
    }
    proof {
        assert((0 + 1) * heartbeat_interval == heartbeat_interval) by (nonlinear_arith);
    }
    client.phase = Phase::Open;
    client.heartbeat = Some(
        HeartbeatScheduler {
            generation: client.generation,
            interval_ms: heartbeat_interval,
            started_at: now,
            next_due: now + heartbeat_interval,
            beats: 0,
            awaiting_ack: false,
        },
    );
    true
}

/// Takes one received frame at `now`: brings the session up to date,
/// resolves waiters where the frame is an update, and says what is to be
/// done. The sequence field of the frame is taken in before anything else,
/// so every frame sent in answer bears it.
pub fn handle_ws_package(
    client: &mut GatewayClient,
    table: &mut UpdateCorrelator,
    frame: Frame,
    now: u64,
) -> (actions: Vec<GatewayAction>)
    ensures
        old(client).well_formed() ==> final(client).well_formed(),
        old(table).well_formed() ==> final(table).well_formed(),
        final(table).issued() == old(table).issued(),
        frame.sequence matches Some(s) ==> final(client).session.sequence == s,
        frame.sequence is None ==> final(client).session.sequence == old(client).session.sequence,
        is_handled(
            *old(client),
            old(table)@,
            frame,
            now,
            *final(client),
            final(table)@,
            actions@,
        ),
{
    let mut actions: Vec<GatewayAction> = Vec::new();
    match frame.sequence {
        Some(sequence) => {
            client.session.sequence = sequence;
        },
        None => {},
    }
    let class = classify(frame.op, &frame.tag);
    let open = client.phase == Phase::Open;
    match class {
        FrameClass::Hello => {
            if client.phase == Phase::AwaitingHello {
                match frame.payload {
                    Payload::Hello(hello) => {
                        let interval = hello.heartbeat_interval;
                        if interval_heartbeat(client, interval, now) {
                            actions.push(
                                GatewayAction::StartHeartbeat {
                                    generation: client.generation,
                                    interval_ms: interval,
                                },
                            );
                            let out = if client.resumable() {
                                Outbound::Resume(resume_frame(&client.session))
                            } else {
                                Outbound::Identify(client.identify_frame())
                            };
                            actions.push(GatewayAction::Send(out));
                        }
                    },
                    _ => {},
                }
            }
        },
        FrameClass::HeartbeatRequest => {
            if open {
                actions.push(
                    GatewayAction::Send(Outbound::Heartbeat(heartbeat_frame(&client.session))),
                );
            }
        },
        FrameClass::HeartbeatAck => {
            if open {
                match client.heartbeat {
                    Some(timer) => {
                        client.heartbeat = Some(
                            HeartbeatScheduler {
                                generation: timer.generation,
                                interval_ms: timer.interval_ms,
                                started_at: timer.started_at,
                                next_due: timer.next_due,
                                beats: timer.beats,
                                awaiting_ack: false,
                            },
                        );
                    },
                    None => {},
                }
            }
        },
        FrameClass::ReconnectRequest => {
            if open {
                client.phase = Phase::Closed;
                client.heartbeat = None;
                actions.push(GatewayAction::Reconnect);
            }
        },
        FrameClass::Ready => {
            if open {
                match frame.payload {
                    Payload::Ready(ready) => {
                        client.session.session_id = ready.session_id;
                        client.session.user = Some(ready.user);
                    },
                    _ => {},
                }
            }
        },
        FrameClass::MessageCreate => {
            if open {
                match frame.payload {
                    Payload::Message(data) => {
                        match DiscordMessage::new(data, &client.session) {
                            Some(message) => {
                                let commands = route_and_record(
                                    &mut client.session.commands,
                                    &message,
                                    now,
                                );
                                if commands.len() > 0 {
                                    actions.push(GatewayAction::RunHandlers { message, commands });
                                }
                            },
                            None => {},
                        }
                    },
                    _ => {},
                }
            }
        },
        FrameClass::MessageUpdate => {
            if open {
                match frame.payload {
                    Payload::Message(data) => {
                        match DiscordMessage::new(data, &client.session) {
                            Some(message) => {
                                let waiters = table.publish(message.data.id.as_str(), now);
                                if waiters.len() > 0 {
                                    actions.push(GatewayAction::DeliverUpdate { message, waiters });
                                }
                            },
                            None => {},
                        }
                    },
                    _ => {},
                }
            }
        },
        FrameClass::Ignored => {},
    }
    actions
}

/// The client as it stands before its first connection, and the control
/// signal to give the scheduler at once: a start where a channel is known.
pub fn connect(
    token: String,
    master_id: Option<String>,
    channel_id: Option<String>,
    os: String,
) -> (start: (GatewayClient, Option<MasterCommand>))
    ensures
        start.0.well_formed(),
        start.0.session.token == token,
        start.0.session.master_id == master_id,
        start.0.session.user is None,
        start.0.session.sequence == 0,
        start.0.session.session_id@.len() == 0,
        start.0.session.commands@.len() == registry_kinds().len(),
        forall|i: int|
            0 <= i < start.0.session.commands@.len() ==> is_fresh_descriptor(
                #[trigger] start.0.session.commands@[i],
                registry_kinds()[i],
            ),
        start.0.os == os,
        start.0.generation == 0,
        start.0.phase == Phase::Closed,
        start.0.heartbeat is None,
        match channel_id {
            Some(channel) => start.1 matches Some(signal) && signal.command
                == MasterCommandType::Start && signal.tag == Some(channel),
            None => start.1 is None,
        },
{
    let client = GatewayClient {
        session: DiscordClient {
            master_id,
            session_id: String::new(),
            token,
            user: None,
            sequence: 0,
            commands: get_commands(),
        },
        os,
        generation: 0,
        phase: Phase::Closed,
        heartbeat: None,
    };
    let signal = match channel_id {
        Some(channel) => Some(MasterCommand { command: MasterCommandType::Start, tag: Some(channel) }),
        None => None,
    };
    (client, signal)
}

} // verus!

verus! {

/// After a frame was taken, the session holds the sequence of that frame
/// where it bore one, and the sequence it held before where it bore none:
/// the sequence is never made up by the client.
pub proof fn lemma_sequence_follows_frame(
    before: GatewayClient,
    table_before: Seq<PendingView>,
    frame: Frame,
    now: u64,
    after: GatewayClient,
    table_after: Seq<PendingView>,
    actions: Seq<GatewayAction>,
)
    requires
        is_handled(before, table_before, frame, now, after, table_after, actions),
    ensures
        after.session.sequence == sequence_after(before.session.sequence, frame.sequence),
        frame.sequence matches Some(s) ==> after.session.sequence == s,
{
}

/// A frame never changes the token, the operator or the generation. It
/// changes the identity and the session id only where it is the ready
/// event of an open connection, and of a descriptor nothing but the time
/// of its last call.
pub proof fn lemma_identity_changes_on_ready_only(
    before: GatewayClient,
    table_before: Seq<PendingView>,
    frame: Frame,
    now: u64,
    after: GatewayClient,
    table_after: Seq<PendingView>,
    actions: Seq<GatewayAction>,
)
    requires
        is_handled(before, table_before, frame, now, after, table_after, actions),
    ensures
        after.session.token == before.session.token,
        after.session.master_id == before.session.master_id,
        after.os == before.os,
        after.generation == before.generation,
        after.session.commands@.len() == before.session.commands@.len(),
        forall|i: int|
            0 <= i < before.session.commands@.len() ==> {
                ||| (#[trigger] after.session.commands@[i]) == before.session.commands@[i]
                ||| after.session.commands@[i] == called_at(before.session.commands@[i], now)
            },
        !(class_of(frame.op, tag_view(frame.tag)) == FrameClass::Ready && before.phase
            == Phase::Open && frame.payload is Ready) ==> after.session.session_id
            == before.session.session_id && after.session.user == before.session.user,
        class_of(frame.op, tag_view(frame.tag)) == FrameClass::Ready && before.phase
            == Phase::Open ==> (frame.payload matches Payload::Ready(ready)
            ==> after.session.session_id == ready.session_id && after.session.user == Some(
            ready.user,
        )),
{
}

/// Every resume frame that answers a hello carries the token and the
/// session id of the session as it stood when the hello came, and the last
/// sequence seen up to and with the hello: no stale value, no default.
pub proof fn lemma_resume_carries_session(
    before: GatewayClient,
    table_before: Seq<PendingView>,
    frame: Frame,
    now: u64,
    after: GatewayClient,
    table_after: Seq<PendingView>,
    actions: Seq<GatewayAction>,
    k: int,
)
    requires
        is_handled(before, table_before, frame, now, after, table_after, actions),
        0 <= k < actions.len(),
        actions[k] matches GatewayAction::Send(Outbound::Resume(_)),
    ensures
        actions[k] matches GatewayAction::Send(Outbound::Resume(resume)) ==> {
            &&& resume.d.token@ == before.session.token@
            &&& resume.d.session_id@ == before.session.session_id@
            &&& resume.d.seq == sequence_after(before.session.sequence, frame.sequence)
            &&& resume.d.seq == after.session.sequence
            &&& resume.d.session_id@.len() > 0
        },
{
}

/// A usable hello is answered at once, by a resume where a session is
/// known and by an identify where none is, and starts the heartbeat timer
/// of its generation at the interval it names.
pub proof fn lemma_hello_is_answered(
    before: GatewayClient,
    table_before: Seq<PendingView>,
    frame: Frame,
    now: u64,
    after: GatewayClient,
    table_after: Seq<PendingView>,
    actions: Seq<GatewayAction>,
)
    requires
        is_handled(before, table_before, frame, now, after, table_after, actions),
        frame.op == OpCode::Hello,
        before.phase == Phase::AwaitingHello,
        frame.payload matches Payload::Hello(hello) && is_usable_hello(hello, now),
    ensures
        actions.len() == 2,
        actions[0] is StartHeartbeat,
        can_resume(before.session) ==> actions[1] matches GatewayAction::Send(Outbound::Resume(_)),
        !can_resume(before.session) ==> actions[1] matches GatewayAction::Send(
            Outbound::Identify(_),
        ),
        after.phase == Phase::Open,
        after.heartbeat matches Some(timer) && timer.well_formed() && timer.beats == 0
            && timer.next_due == now + frame.payload->Hello_0.heartbeat_interval,
{
    let interval = frame.payload->Hello_0.heartbeat_interval as int;
    assert((0 + 1) * interval == interval) by (nonlinear_arith);
}

/// A heartbeat is due exactly while fewer heartbeats were sent than whole
/// intervals have passed since the timer started, the first one interval
/// after the hello.
pub proof fn lemma_beat_is_due_once_per_interval(timer: HeartbeatScheduler, now: u64)
    requires
        timer.well_formed(),
    ensures
        now >= timer.next_due <==> timer.beats < beats_due(
            timer.started_at,
            timer.interval_ms,
            now,
        ),
        timer.next_due == beat_time(timer.started_at, timer.interval_ms, timer.beats + 1),
{
    let h = timer.interval_ms as int;
    let b = timer.beats as int;
    let s = timer.started_at as int;
    assert((b + 1) * h >= h) by (nonlinear_arith)
        requires
            b >= 0,
            h > 0,
    ;
    if now >= s {
        let d = now - s;
        assert(d >= (b + 1) * h <==> d / h >= b + 1) by (nonlinear_arith)
            requires
                h > 0,
                d >= 0,
                b >= 0,
        ;
    }
}

/// While every heartbeat is acknowledged and the clock lasts, the timer
/// of the current generation sends one heartbeat for each interval that
/// has passed: a tick sends exactly one where fewer were sent than are
/// due, and none otherwise. Each heartbeat carries the sequence the
/// session holds at that moment, and is counted.
pub proof fn lemma_one_beat_per_interval(
    before: GatewayClient,
    after: GatewayClient,
    decision: HeartbeatDecision,
    now: u64,
)
    requires
        before.well_formed(),
        is_heartbeat_outcome(before, after, decision, before.generation, now),
        before.heartbeat matches Some(timer) && !timer.awaiting_ack && timer.can_go_on(),
    ensures
        decision is Beat <==> before.heartbeat->0.beats < beats_due(
            before.heartbeat->0.started_at,
            before.heartbeat->0.interval_ms,
            now,
        ),
        !(decision is Beat) ==> decision is Wait && after == before,
        decision matches HeartbeatDecision::Beat(beat) ==> {
            &&& beat.d == before.session.sequence
            &&& beat.s == Some(before.session.sequence)
            &&& after.heartbeat matches Some(timer)
            &&& timer.beats == before.heartbeat->0.beats + 1
            &&& timer.next_due == before.heartbeat->0.next_due + timer.interval_ms
            &&& timer.well_formed()
            &&& after.session == before.session
        },
{
    let timer = before.heartbeat->0;
    lemma_beat_is_due_once_per_interval(timer, now);
    let h = timer.interval_ms as int;
    let b = timer.beats as int;
    assert((b + 2) * h == (b + 1) * h + h) by (nonlinear_arith);
}

/// A heartbeat that was never acknowledged is followed by no further
/// heartbeat: the next due tick finds the connection lost and closes it.
pub proof fn lemma_missing_ack_loses_the_connection(
    before: GatewayClient,
    after: GatewayClient,
    decision: HeartbeatDecision,
    now: u64,
)
    requires
        is_heartbeat_outcome(before, after, decision, before.generation, now),
        before.heartbeat matches Some(timer) && timer.awaiting_ack && now >= timer.next_due,
    ensures
        decision is Lost,
        after.phase == Phase::Closed,
        after.heartbeat is None,
{
}

/// A tick of a generation that is not the current one sends nothing and
/// changes nothing, and so does every tick once the connection has ended:
/// no heartbeat of a stale generation reaches a new socket.
pub proof fn lemma_stale_generation_is_silent(
    before: GatewayClient,
    after: GatewayClient,
    decision: HeartbeatDecision,
    generation: u64,
    now: u64,
)
    requires
        is_heartbeat_outcome(before, after, decision, generation, now),
        generation != before.generation || before.heartbeat is None,
    ensures
        decision is Stale,
        after == before,
        before.closed().heartbeat is None,
        forall|next: u64, resume: bool| (#[trigger] before.opened(next, resume)).heartbeat is None,
{
}

} // verus!
