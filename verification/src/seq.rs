//! The decisions of the handshake and of the post-shot cycle.
//!
//! A sequence is a list of steps: a command to send, and what to wait for.
//! The machine here keeps the place in the list and the deadline of the
//! step, and says after every event what the caller, who owns the socket
//! and the clock, does next: send the command, receive with a time limit,
//! stop. Time is a count of nanoseconds on any clock that does not run
//! backwards.

use crate::addr::BusAddr;
use crate::conn::{ConnError, Envelope};
use crate::protocol::camera::{CamConfig, CamConfigReq, CamState};
use crate::protocol::config::{
    AvrConfigCmd, AvrConfigResp, ConfigResp, ModeSet, ParamData, ParamReadReq, ParamValue,
    RadarCal,
};
use crate::protocol::handshake::{
    CalDataReq, CalDataResp, CalParamReq, CalParamResp, DevInfoResp, DspQueryResp, NetConfigReq,
    ProdInfoReq, ProdInfoResp, TimeSync,
};
use crate::protocol::status::{AvrStatus, DspStatus, PiStatus, StatusPoll};
use crate::protocol::{Command, Message, MessageKind};
use crate::text::{
    has_substring, hex_byte, hex_bytes, push_char, push_hex_byte, push_hex_bytes, text_contains,
};
use vstd::prelude::*;
use vstd::string::{StrSliceExecFns, StringExecFns};

verus! {

/// Time allowed for each exchange: two seconds, in nanoseconds.
pub const TIMEOUT: u64 = 2_000_000_000;

// ---------------------------------------------------------------------------
// Deadlines
// ---------------------------------------------------------------------------

/// The deadline of an exchange that begins at `now` and may take `timeout`.
pub open spec fn deadline_after(now: u64, timeout: u64) -> u64 {
    if now + timeout > u64::MAX {
        u64::MAX
    } else {
        (now + timeout) as u64
    }
}

/// The time left at `now` until `deadline`: none once the deadline is
/// reached.
pub open spec fn time_left(deadline: u64, now: u64) -> Option<u64> {
    if now >= deadline {
        None
    } else {
        Some((deadline - now) as u64)
    }
}

/// Sets the deadline of an exchange that begins now.
pub fn deadline_from(now: u64, timeout: u64) -> (deadline: u64)
    ensures
        deadline == deadline_after(now, timeout),
{
    if timeout > u64::MAX - now {
        u64::MAX
    } else {
        now + timeout
    }
}

/// The time left until the deadline. It is worked out anew before every
/// receive, so that messages that are skipped do not move the deadline.
pub fn remaining(deadline: u64, now: u64) -> (left: Option<u64>)
    ensures
        left == time_left(deadline, now),
{
    if now >= deadline {
        None
    } else {
        Some(deadline - now)
    }
}

// ---------------------------------------------------------------------------
// What to wait for
// ---------------------------------------------------------------------------

/// What a step waits for once its command is sent.
#[derive(Debug, Clone, Copy, PartialEq, Eq, Structural)]
pub enum Wait {
    /// Nothing: the command is sent and the sequence goes on.
    Nothing,
    /// The answer of the peer addressed, of the given kind. Debug text,
    /// traffic of other peers, and camera states, mode and negative
    /// acknowledgements and unknown messages that nobody asked for are
    /// skipped. Any other message is a protocol error, and so is silence
    /// until the deadline.
    Reply(MessageKind),
    /// An answer of the given kind that may stay away. Acknowledgements of
    /// either sign are skipped as well; silence until the deadline is
    /// accepted.
    Optional(MessageKind),
    /// Debug text that says `ARMED` and does not say `CANCELLED`.
    /// Everything else is consumed.
    Armed,
    /// Shot text that says `IDLE`. Everything else is consumed, and every
    /// message is given the full time.
    Idle,
    /// A mode acknowledgement and a radar configuration, in either order,
    /// as far as they come before the deadline.
    ModeAckAndConfig,
    /// A message of the given kind, as far as it comes before the
    /// deadline. Everything else is consumed, and no failure counts.
    Drain(MessageKind),
}

/// What an envelope means to the step that waits.
#[derive(Debug, Clone, Copy, PartialEq, Eq, Structural)]
pub enum Verdict {
    /// Not what the step waits for, and of no concern: go on waiting.
    Skip,
    /// What the step waits for.
    Accept,
    /// A mode acknowledgement, one of the two that the step waits for.
    ModeAck,
    /// A radar configuration, one of the two that the step waits for.
    ConfigResp,
    /// A message of another kind than the one expected.
    Mismatch,
    /// A message where the optional answer was expected.
    Unexpected,
}

/// Whether debug text says that the radar is armed.
pub open spec fn says_armed(text: Seq<char>) -> bool {
    has_substring(text, "ARMED"@) && !has_substring(text, "CANCELLED"@)
}

/// Whether a message is debug output, which may come at any time.
pub open spec fn is_debug(kind: MessageKind) -> bool {
    kind == MessageKind::Text || kind == MessageKind::DspDebug
}

/// Whether the message is debug text that says that the radar is armed.
pub open spec fn is_armed_text(m: Message) -> bool {
    m matches Message::Text(t) && says_armed(t.text@)
}

/// Whether the message is shot text that says that the device is idle.
pub open spec fn is_idle_text(m: Message) -> bool {
    m matches Message::ShotText(t) && has_substring(t.text@, "IDLE"@)
}

/// What a message of kind `kind` from `src` means to a step that waits for
/// `wait` from `dest`. `armed` and `idle` tell whether the message is the
/// text that says so.
pub open spec fn verdict_of(
    wait: Wait,
    dest: BusAddr,
    src: BusAddr,
    kind: MessageKind,
    armed: bool,
    idle: bool,
) -> Verdict {
    match wait {
        Wait::Nothing => Verdict::Skip,
        Wait::Reply(expected) => {
            if src != dest || is_debug(kind) || kind == MessageKind::CamState || kind
                == MessageKind::ModeAck || kind == MessageKind::ConfigNack || kind
                == MessageKind::Unknown {
                Verdict::Skip
            } else if kind == expected {
                Verdict::Accept
            } else {
                Verdict::Mismatch
            }
        },
        Wait::Optional(expected) => {
            if src != dest || is_debug(kind) || kind == MessageKind::ConfigAck || kind
                == MessageKind::ConfigNack || kind == MessageKind::Unknown {
                Verdict::Skip
            } else if kind == expected {
                Verdict::Accept
            } else {
                Verdict::Unexpected
            }
        },
        Wait::Armed => if armed {
            Verdict::Accept
        } else {
            Verdict::Skip
        },
        Wait::Idle => if idle {
            Verdict::Accept
        } else {
            Verdict::Skip
        },
        Wait::ModeAckAndConfig => {
            if kind == MessageKind::ModeAck {
                Verdict::ModeAck
            } else if kind == MessageKind::ConfigResp {
                Verdict::ConfigResp
            } else {
                Verdict::Skip
            }
        },
        Wait::Drain(expected) => if kind == expected {
            Verdict::Accept
        } else {
            Verdict::Skip
        },
    }
}

/// What the envelope `env` means to a step that waits for `wait` from
/// `dest`.
pub open spec fn judged(wait: Wait, dest: BusAddr, env: Envelope) -> Verdict {
    verdict_of(
        wait,
        dest,
        env.src,
        env.message.kind(),
        is_armed_text(env.message),
        is_idle_text(env.message),
    )
}

/// Says what an envelope means to the step that waits.
pub fn judge(wait: Wait, dest: BusAddr, env: &Envelope) -> (v: Verdict)
    ensures
        v == judged(wait, dest, *env),
{
    let kind = env.message.kind_of();
    let debug = kind == MessageKind::Text || kind == MessageKind::DspDebug;
    match wait {
        Wait::Nothing => Verdict::Skip,
        Wait::Reply(expected) => {
            if env.src != dest || debug || kind == MessageKind::CamState || kind
                == MessageKind::ModeAck || kind == MessageKind::ConfigNack || kind
                == MessageKind::Unknown {
                Verdict::Skip
            } else if kind == expected {
                Verdict::Accept
            } else {
                Verdict::Mismatch
            }
        },
        Wait::Optional(expected) => {
            if env.src != dest || debug || kind == MessageKind::ConfigAck || kind
                == MessageKind::ConfigNack || kind == MessageKind::Unknown {
                Verdict::Skip
            } else if kind == expected {
                Verdict::Accept
            } else {
                Verdict::Unexpected
            }
        },
        Wait::Armed => {
            let armed = match &env.message {
                Message::Text(t) => text_contains(t.text.as_str(), "ARMED") && !text_contains(
                    t.text.as_str(),
                    "CANCELLED",
                ),
                _ => false,
            };
            if armed {
                Verdict::Accept
            } else {
                Verdict::Skip
            }
        },
        Wait::Idle => {
            let idle = match &env.message {
                Message::ShotText(t) => t.is_idle(),
                _ => false,
            };
            if idle {
                Verdict::Accept
            } else {
                Verdict::Skip
            }
        },
        Wait::ModeAckAndConfig => {
            if kind == MessageKind::ModeAck {
                Verdict::ModeAck
            } else if kind == MessageKind::ConfigResp {
                Verdict::ConfigResp
            } else {
                Verdict::Skip
            }
        },
        Wait::Drain(expected) => if kind == expected {
            Verdict::Accept
        } else {
            Verdict::Skip
        },
    }
}

/// Whether a received message is only debug output, which the plain
/// receive of a sequence passes over.
pub fn is_debug_output(env: &Envelope) -> (b: bool)
    ensures
        b == is_debug(env.message.kind()),
{
    let kind = env.message.kind_of();
    kind == MessageKind::Text || kind == MessageKind::DspDebug
}

// ---------------------------------------------------------------------------
// Protocol errors
// ---------------------------------------------------------------------------

/// The text of the protocol error for a message of type `type_id` with
/// payload `raw` where a message of kind `expected` was awaited.
pub open spec fn mismatch_text(expected: MessageKind, type_id: u8, raw: Seq<u8>) -> Seq<char> {
    "expected "@ + expected.name_text() + ", got UnknownMessage(\"0x"@ + hex_byte(type_id)
        + "\", ["@ + hex_bytes(raw, " "@) + "])"@
}

/// The protocol error for an envelope of another kind than the one
/// expected: it names the kind expected and shows the type and the payload
/// of what came, in hexadecimal.
pub fn mismatch(expected: MessageKind, env: &Envelope) -> (e: ConnError)
    ensures
        e matches ConnError::Protocol(text) && text@ == mismatch_text(
            expected,
            env.type_id,
            env.raw@,
        ),
{
    let mut s = String::from_str("expected ");
    s.append(expected.name());
    s.append(", got UnknownMessage(\"0x");
    push_hex_byte(&mut s, env.type_id);
    s.append("\", [");
    push_hex_bytes(&mut s, env.raw.as_slice(), env.raw.len(), " ");
    s.append("])");
    proof {
        assert(env.raw@.take(env.raw@.len() as int) =~= env.raw@);
        assert(s@ =~= mismatch_text(expected, env.type_id, env.raw@));
    }
    ConnError::Protocol(s)
}

// ---------------------------------------------------------------------------
// Steps and progress
// ---------------------------------------------------------------------------

/// One step of a sequence: a command for a peer, if the step sends one, and
/// what to wait for from that peer.
#[derive(Debug, Clone)]
pub struct Step {
    pub cmd: Option<Command>,
    pub dest: BusAddr,
    pub wait: Wait,
}

/// A step without the contents of its command.
pub struct Plan {
    pub sends: bool,
    pub dest: BusAddr,
    pub wait: Wait,
}

impl Step {
    /// The step without the contents of its command.
    pub open spec fn plan(self) -> Plan {
        Plan { sends: self.cmd is Some, dest: self.dest, wait: self.wait }
    }
}

/// The plans of the steps in `steps`.
pub open spec fn plans_of(steps: Seq<Step>) -> Seq<Plan> {
    Seq::new(steps.len(), |i: int| steps[i].plan())
}

/// Where a sequence stands.
pub struct Progress {
    /// The step that is under way; the number of steps once all are done.
    pub pos: nat,
    /// Whether the step has begun to wait: its command, if it has one, is
    /// sent, and its deadline is set.
    pub waiting: bool,
    /// When the step under way gives up.
    pub deadline: u64,
    /// Whether the mode acknowledgement of the step has come.
    pub got_mode_ack: bool,
    /// Whether the radar configuration of the step has come.
    pub got_config_resp: bool,
}

/// What the caller does next.
pub enum Next {
    /// Send the command of the step under way, then report that it is sent.
    Send,
    /// Receive with this time limit, then report what came.
    Receive { timeout: u64 },
    /// Nothing: every step is done.
    Done,
    /// Give up: nothing came within this time.
    TimedOut { timeout: u64 },
    /// Give up: a message of another kind than this one came.
    Mismatch(MessageKind),
    /// Give up: a message came that the step has no use for.
    Unexpected,
    /// Give up: the connection failed.
    Failed,
}

/// What happened since the caller was last told what to do.
pub enum Occurrence {
    /// Nothing yet: the sequence begins.
    Start,
    /// The command was sent.
    Sent,
    /// A message came, with this meaning to the step under way.
    Received(Verdict),
    /// The receive ran out of the time it was given, which was this long.
    TimedOut { timeout: u64 },
    /// The connection failed.
    Failed,
}

/// The progress at the beginning of the step after the one under way.
pub open spec fn at_next_step(p: Progress) -> Progress {
    Progress {
        pos: p.pos + 1,
        waiting: false,
        deadline: 0,
        got_mode_ack: false,
        got_config_resp: false,
    }
}

/// The progress once the step under way has begun to wait at `now`.
pub open spec fn now_waiting(p: Progress, now: u64, timeout: u64) -> Progress {
    Progress { waiting: true, deadline: deadline_after(now, timeout), ..p }
}

/// Whether a step that waits for `wait` may go without what it waits for.
pub open spec fn may_go_without(wait: Wait) -> bool {
    wait is Optional || wait is ModeAckAndConfig || wait is Drain || wait is Nothing
}

/// Goes on from `p` as far as the sequence can without the caller: past
/// the steps that wait for nothing, and past those whose time is up and
/// that may go without. It stops where a command is to be sent or a
/// message to be received, at a deadline that must not pass, or at the
/// end.
///
/// The time limit of a receive is what is left until the deadline of the
/// step; only where the step waits for the idle text is it the full time
/// for every message.
pub open spec fn settle(plans: Seq<Plan>, timeout: u64, p: Progress, now: u64) -> (Progress, Next)
    decreases plans.len() - p.pos, if p.waiting { 0int } else { 1int },
{
    if p.pos >= plans.len() {
        (p, Next::Done)
    } else {
        let plan = plans[p.pos as int];
        if !p.waiting {
            if plan.sends {
                (p, Next::Send)
            } else {
                settle(plans, timeout, now_waiting(p, now, timeout), now)
            }
        } else if plan.wait is Nothing {
            settle(plans, timeout, at_next_step(p), now)
        } else if plan.wait is Idle {
            (p, Next::Receive { timeout })
        } else {
            match time_left(p.deadline, now) {
                Some(left) => (p, Next::Receive { timeout: left }),
                None => if may_go_without(plan.wait) {
                    settle(plans, timeout, at_next_step(p), now)
                } else {
                    (p, Next::TimedOut { timeout })
                },
            }
        }
    }
}

/// What follows from `what` at `now`, for a sequence that stands at `p`.
pub open spec fn follow(
    plans: Seq<Plan>,
    timeout: u64,
    p: Progress,
    now: u64,
    what: Occurrence,
) -> (Progress, Next) {
    if p.pos >= plans.len() {
        (p, Next::Done)
    } else {
        let plan = plans[p.pos as int];
        match what {
            Occurrence::Start => settle(plans, timeout, p, now),
            Occurrence::Sent => settle(plans, timeout, now_waiting(p, now, timeout), now),
            Occurrence::Received(verdict) => match verdict {
                Verdict::Skip => settle(plans, timeout, p, now),
                Verdict::Accept => settle(plans, timeout, at_next_step(p), now),
                Verdict::ModeAck => if p.got_config_resp {
                    settle(plans, timeout, at_next_step(p), now)
                } else {
                    settle(plans, timeout, Progress { got_mode_ack: true, ..p }, now)
                },
                Verdict::ConfigResp => if p.got_mode_ack {
                    settle(plans, timeout, at_next_step(p), now)
                } else {
                    settle(plans, timeout, Progress { got_config_resp: true, ..p }, now)
                },
                Verdict::Mismatch => (
                    p,
                    match plan.wait {
                        Wait::Reply(expected) => Next::Mismatch(expected),
                        _ => Next::Unexpected,
                    },
                ),
                Verdict::Unexpected => (p, Next::Unexpected),
            },
            Occurrence::TimedOut { timeout: spent } => if may_go_without(plan.wait) {
                settle(plans, timeout, at_next_step(p), now)
            } else {
                (p, Next::TimedOut { timeout: spent })
            },
            Occurrence::Failed => if plan.wait is Drain {
                settle(plans, timeout, at_next_step(p), now)
            } else {
                (p, Next::Failed)
            },
        }
    }
}

// ---------------------------------------------------------------------------
// The machine
// ---------------------------------------------------------------------------

/// What the caller reports to the machine.
#[derive(Debug)]
pub enum Event {
    /// Nothing yet: the sequence begins.
    Start,
    /// The command of the step under way was sent.
    Sent,
    /// A message came.
    Received(Envelope),
    /// The receive ran out of the time it was given, which was this long.
    TimedOut { timeout: u64 },
    /// The connection failed.
    Failed(ConnError),
}

/// What the machine tells the caller to do.
#[derive(Debug)]
pub enum Action {
    /// Send the command of the step under way, then report [`Event::Sent`].
    Send,
    /// Receive with this time limit, then report what came.
    Receive { timeout: u64 },
    /// Nothing: every step is done.
    Done,
    /// Give up with this error.
    Fail(ConnError),
}

/// What to keep of a step that is done: `nones` entries, the first of
/// which is `first`.
pub open spec fn kept_entries(first: Option<Message>, count: int) -> Seq<Option<Message>> {
    Seq::new(
        count as nat,
        |i: int|
            if i == 0 {
                first
            } else {
                None
            },
    )
}

/// Whether `action` tells the caller what `next` says. A failure of the
/// connection is handed back as it came in `event`, and a mismatch shows
/// the message that came.
pub open spec fn action_is(action: Action, next: Next, event: Event) -> bool {
    match next {
        Next::Send => action is Send,
        Next::Receive { timeout } => action matches Action::Receive { timeout: t } && t == timeout,
        Next::Done => action is Done,
        Next::TimedOut { timeout } => action matches Action::Fail(ConnError::Timeout { timeout: t })
            && t == timeout,
        Next::Mismatch(expected) => event matches Event::Received(env) && action matches Action::Fail(
            ConnError::Protocol(text),
        ) && text@ == mismatch_text(expected, env.type_id, env.raw@),
        Next::Unexpected => action matches Action::Fail(ConnError::Protocol(text)) && text@
            == "unexpected message"@,
        Next::Failed => event matches Event::Failed(e) && action matches Action::Fail(e2) && e2
            == e,
    }
}

/// Whether `kept` is what a step that waits for `wait` may keep: the
/// answer it waits for, which a step that must have its answer always
/// keeps, and nothing where the step keeps no answer.
pub open spec fn entry_fits(wait: Wait, kept: Option<Message>) -> bool {
    match wait {
        Wait::Reply(kind) => kept matches Some(m) && m.kind() == kind,
        Wait::Optional(kind) => kept matches Some(m) ==> m.kind() == kind,
        _ => kept is None,
    }
}

/// Whether `replies` holds, for each of the first steps of `steps`, what
/// that step may keep.
pub open spec fn replies_fit(steps: Seq<Step>, replies: Seq<Option<Message>>) -> bool {
    &&& replies.len() <= steps.len()
    &&& forall|i: int| 0 <= i < replies.len() ==> entry_fits(steps[i].wait, #[trigger] replies[i])
}

/// What an action says that is not prompted by a message or a failure.
pub open spec fn said_by(action: Action) -> Next {
    match action {
        Action::Send => Next::Send,
        Action::Receive { timeout } => Next::Receive { timeout },
        Action::Done => Next::Done,
        Action::Fail(ConnError::Timeout { timeout }) => Next::TimedOut { timeout },
        Action::Fail(_) => Next::Failed,
    }
}

/// A sequence under way: its steps, its place among them, and the answers
/// it has kept.
pub struct Phase {
    steps: Vec<Step>,
    timeout: u64,
    pos: usize,
    waiting: bool,
    deadline: u64,
    got_mode_ack: bool,
    got_config_resp: bool,
    replies: Vec<Option<Message>>,
}

impl Phase {
    /// The steps of the sequence.
    pub closed spec fn steps(&self) -> Seq<Step> {
        self.steps@
    }

    /// The time allowed for each exchange.
    pub closed spec fn timeout(&self) -> u64 {
        self.timeout
    }

    /// Where the sequence stands.
    pub closed spec fn progress(&self) -> Progress {
        Progress {
            pos: self.pos as nat,
            waiting: self.waiting,
            deadline: self.deadline,
            got_mode_ack: self.got_mode_ack,
            got_config_resp: self.got_config_resp,
        }
    }

    /// What the steps done so far have kept: for each the answer it waited
    /// for, where it is a step that keeps its answer and the answer came.
    pub closed spec fn replies(&self) -> Seq<Option<Message>> {
        self.replies@
    }

    /// The sequence never stands past its end, and has kept one entry for
    /// each step that is done.
    pub closed spec fn wf(&self) -> bool {
        &&& self.pos <= self.steps@.len()
        &&& self.replies@.len() == self.pos
        &&& replies_fit(self.steps@, self.replies@)
    }

    /// What `event` is to the step under way.
    pub open spec fn occurrence(&self, event: Event) -> Occurrence {
        match event {
            Event::Start => Occurrence::Start,
            Event::Sent => Occurrence::Sent,
            Event::Received(env) => Occurrence::Received(
                judged(
                    self.steps()[self.progress().pos as int].wait,
                    self.steps()[self.progress().pos as int].dest,
                    env,
                ),
            ),
            Event::TimedOut { timeout } => Occurrence::TimedOut { timeout },
            Event::Failed(_) => Occurrence::Failed,
        }
    }

    /// What the step under way keeps of `event`: the message, where the
    /// step waits for an answer and the message is that answer.
    pub open spec fn keeps(&self, event: Event) -> Option<Message> {
        let step = self.steps()[self.progress().pos as int];
        match event {
            Event::Received(env) => if (step.wait is Reply || step.wait is Optional) && judged(
                step.wait,
                step.dest,
                env,
            ) == Verdict::Accept {
                Some(env.message)
            } else {
                None
            },
            _ => None,
        }
    }

    /// A sequence of the given steps, at its beginning.
    pub fn new(steps: Vec<Step>, timeout: u64) -> (phase: Self)
        ensures
            phase.wf(),
            phase.steps() == steps@,
            phase.timeout() == timeout,
            phase.progress() == (Progress {
                pos: 0,
                waiting: false,
                deadline: 0,
                got_mode_ack: false,
                got_config_resp: false,
            }),
            phase.replies() == Seq::<Option<Message>>::empty(),
    {
        Phase {
            steps,
            timeout,
            pos: 0,
            waiting: false,
            deadline: 0,
            got_mode_ack: false,
            got_config_resp: false,
            replies: Vec::new(),
        }
    }

    /// The number of steps that are done.
    pub fn position(&self) -> (pos: usize)
        ensures
            pos == self.progress().pos,
    {
        self.pos
    }

    /// Whether every step is done.
    pub fn is_done(&self) -> (done: bool)
        requires
            self.wf(),
        ensures
            done == (self.progress().pos >= self.steps().len()),
    {
        self.pos >= self.steps.len()
    }

    /// The step under way, if the sequence is not done: the caller sends
    /// its command to its peer when told to send.
    pub fn current(&self) -> (step: Option<&Step>)
        requires
            self.wf(),
        ensures
            match step {
                Some(st) => self.progress().pos < self.steps().len() && *st
                    == self.steps()[self.progress().pos as int],
                None => self.progress().pos >= self.steps().len(),
            },
    {
        if self.pos < self.steps.len() {
            Some(&self.steps[self.pos])
        } else {
            None
        }
    }

    /// Hands out what the steps have kept, one entry for each step done,
    /// each fit for its step.
    pub fn into_replies(self) -> (replies: Vec<Option<Message>>)
        requires
            self.wf(),
        ensures
            replies@ == self.replies(),
            replies@.len() == self.progress().pos,
            replies_fit(self.steps(), replies@),
    {
        self.replies
    }

    /// Begins to wait: sets the deadline of the step under way.
    fn begin_wait(&mut self, now: u64)
        ensures
            final(self).steps@ == old(self).steps@,
            final(self).timeout == old(self).timeout,
            final(self).replies@ == old(self).replies@,
            final(self).progress() == now_waiting(old(self).progress(), now, old(self).timeout),
    {
        self.waiting = true;
        self.deadline = deadline_from(now, self.timeout);
    }

    /// Closes the step under way, keeping `kept` of it.
    fn advance(&mut self, kept: Option<Message>)
        requires
            old(self).wf(),
            old(self).pos < old(self).steps@.len(),
            entry_fits(old(self).steps@[old(self).pos as int].wait, kept),
        ensures
            final(self).wf(),
            final(self).steps@ == old(self).steps@,
            final(self).timeout == old(self).timeout,
            final(self).replies@ == old(self).replies@.push(kept),
            final(self).progress() == at_next_step(old(self).progress()),
    {
        let len: usize = self.steps.len();
        self.replies.push(kept);
        self.pos = self.pos + 1;
        self.waiting = false;
        self.deadline = 0;
        self.got_mode_ack = false;
        self.got_config_resp = false;
    }

    /// Goes on as far as the sequence can without the caller.
    fn settle(&mut self, now: u64) -> (action: Action)
        requires
            old(self).wf(),
        ensures
            final(self).wf(),
            final(self).steps@ == old(self).steps@,
            final(self).timeout == old(self).timeout,
            final(self).pos >= old(self).pos,
            final(self).replies@ == old(self).replies@ + kept_entries(
                None,
                final(self).pos - old(self).pos,
            ),
            (final(self).progress(), said_by(action)) == settle(
                plans_of(old(self).steps@),
                old(self).timeout,
                old(self).progress(),
                now,
            ),
            !(action is Fail) || action matches Action::Fail(ConnError::Timeout { .. }),
    {
        let ghost plans = plans_of(self.steps@);
        let ghost begin = self.progress();
        assert(self.replies@ =~= old(self).replies@ + kept_entries(None, 0));
        loop
            invariant
                self.wf(),
                self.steps@ == old(self).steps@,
                self.timeout == old(self).timeout,
                plans == plans_of(self.steps@),
                begin == old(self).progress(),
                self.pos >= old(self).pos,
                self.replies@ == old(self).replies@ + kept_entries(None, self.pos - old(self).pos),
                settle(plans, self.timeout, begin, now) == settle(
                    plans,
                    self.timeout,
                    self.progress(),
                    now,
                ),
            decreases self.steps@.len() - self.pos, if self.waiting { 0int } else { 1int },
        {
            if self.pos >= self.steps.len() {
                return Action::Done;
            }
            let wait = self.steps[self.pos].wait;
            let sends = self.steps[self.pos].cmd.is_some();
            assert(plans[self.pos as int] == self.steps@[self.pos as int].plan());
            if !self.waiting {
                if sends {
                    return Action::Send;
                }
                self.begin_wait(now);
            } else {
                let ghost before = self.replies@;
                let ghost was = self.pos;
                match wait {
                    Wait::Nothing => {
                        self.advance(None);
                    },
                    Wait::Idle => {
                        return Action::Receive { timeout: self.timeout };
                    },
                    Wait::Reply(_) | Wait::Armed => {
                        match remaining(self.deadline, now) {
                            Some(left) => {
                                return Action::Receive { timeout: left };
                            },
                            None => {
                                return Action::Fail(ConnError::Timeout { timeout: self.timeout });
                            },
                        }
                    },
                    Wait::Optional(_) | Wait::ModeAckAndConfig | Wait::Drain(_) => {
                        match remaining(self.deadline, now) {
                            Some(left) => {
                                return Action::Receive { timeout: left };
                            },
                            None => {
                                self.advance(None);
                            },
                        }
                    },
                }
                proof {
                    assert(before.push(None) =~= old(self).replies@ + kept_entries(
                        None,
                        was + 1 - old(self).pos,
                    ));
                }
            }
        }
    }

    /// Takes in what happened and says what the caller does next.
    ///
    /// A message that is skipped leaves the deadline of the step where it
    /// is: the next receive gets what is left of the time, and where
    /// nothing is left the step ends as if the receive had run out.
    pub fn step(&mut self, now: u64, event: Event) -> (action: Action)
        requires
            old(self).wf(),
        ensures
            final(self).wf(),
            final(self).steps() == old(self).steps(),
            final(self).timeout() == old(self).timeout(),
            final(self).progress().pos >= old(self).progress().pos,
            final(self).progress() == follow(
                plans_of(old(self).steps()),
                old(self).timeout(),
                old(self).progress(),
                now,
                old(self).occurrence(event),
            ).0,
            action_is(
                action,
                follow(
                    plans_of(old(self).steps()),
                    old(self).timeout(),
                    old(self).progress(),
                    now,
                    old(self).occurrence(event),
                ).1,
                event,
            ),
            final(self).replies() == old(self).replies() + kept_entries(
                old(self).keeps(event),
                final(self).progress().pos - old(self).progress().pos,
            ),
    {
        let ghost plans = plans_of(self.steps@);
        if self.pos >= self.steps.len() {
            assert(self.replies@ =~= old(self).replies@ + kept_entries(old(self).keeps(event), 0));
            return Action::Done;
        }
        let wait = self.steps[self.pos].wait;
        let dest = self.steps[self.pos].dest;
        assert(plans[self.pos as int] == self.steps@[self.pos as int].plan());
        match event {
            Event::Start => {
                let action = self.settle(now);
                action
            },
            Event::Sent => {
                self.begin_wait(now);
                let action = self.settle(now);
                action
            },
            Event::Received(env) => {
                let verdict = judge(wait, dest, &env);
                match verdict {
                    Verdict::Skip => {
                        let action = self.settle(now);
                        action
                    },
                    Verdict::Accept => {
                        let kept = match wait {
                            Wait::Reply(_) | Wait::Optional(_) => Some(env.message),
                            _ => None,
                        };
                        self.advance(kept);
                        let ghost mid = self.pos;
                        let action = self.settle(now);
                        proof {
                            assert(old(self).replies@.push(kept) + kept_entries(None, self.pos - mid)
                                =~= old(self).replies@ + kept_entries(
                                kept,
                                self.pos - old(self).pos,
                            ));
                        }
                        action
                    },
                    Verdict::ModeAck => {
                        if self.got_config_resp {
                            self.advance(None);
                            let ghost mid = self.pos;
                            let action = self.settle(now);
                            proof {
                                assert(old(self).replies@.push(None) + kept_entries(
                                    None,
                                    self.pos - mid,
                                ) =~= old(self).replies@ + kept_entries(
                                    None,
                                    self.pos - old(self).pos,
                                ));
                            }
                            action
                        } else {
                            self.got_mode_ack = true;
                            let action = self.settle(now);
                            action
                        }
                    },
                    Verdict::ConfigResp => {
                        if self.got_mode_ack {
                            self.advance(None);
                            let ghost mid = self.pos;
                            let action = self.settle(now);
                            proof {
                                assert(old(self).replies@.push(None) + kept_entries(
                                    None,
                                    self.pos - mid,
                                ) =~= old(self).replies@ + kept_entries(
                                    None,
                                    self.pos - old(self).pos,
                                ));
                            }
                            action
                        } else {
                            self.got_config_resp = true;
                            let action = self.settle(now);
                            action
                        }
                    },
                    Verdict::Mismatch => {
                        assert(self.replies@ =~= old(self).replies@ + kept_entries(None, 0));
                        match wait {
                            Wait::Reply(expected) => Action::Fail(mismatch(expected, &env)),
                            _ => Action::Fail(
                                ConnError::Protocol(String::from_str("unexpected message")),
                            ),
                        }
                    },
                    Verdict::Unexpected => {
                        assert(self.replies@ =~= old(self).replies@ + kept_entries(None, 0));
                        Action::Fail(ConnError::Protocol(String::from_str("unexpected message")))
                    },
                }
            },
            Event::TimedOut { timeout } => {
                match wait {
                    Wait::Reply(_) | Wait::Armed | Wait::Idle => {
                        assert(self.replies@ =~= old(self).replies@ + kept_entries(None, 0));
                        Action::Fail(ConnError::Timeout { timeout })
                    },
                    _ => {
                        self.advance(None);
                        let ghost mid = self.pos;
                        let action = self.settle(now);
                        proof {
                            assert(old(self).replies@.push(None) + kept_entries(None, self.pos - mid)
                                =~= old(self).replies@ + kept_entries(
                                None,
                                self.pos - old(self).pos,
                            ));
                        }
                        action
                    },
                }
            },
            Event::Failed(e) => {
                match wait {
                    Wait::Drain(_) => {
                        self.advance(None);
                        let ghost mid = self.pos;
                        let action = self.settle(now);
                        proof {
                            assert(old(self).replies@.push(None) + kept_entries(None, self.pos - mid)
                                =~= old(self).replies@ + kept_entries(
                                None,
                                self.pos - old(self).pos,
                            ));
                        }
                        action
                    },
                    _ => {
                        assert(self.replies@ =~= old(self).replies@ + kept_entries(None, 0));
                        Action::Fail(e)
                    },
                }
            },
        }
    }
}

// ---------------------------------------------------------------------------
// Laws of the machine
// ---------------------------------------------------------------------------

/// Where settling leaves a sequence: never further back; at the same step
/// only with the same deadline, once that step waits; and at a receive only
/// with a time limit that ends at the deadline of the step, or, where the
/// step waits for the idle text, with the full time.
pub proof fn lemma_settle_respects_deadline(plans: Seq<Plan>, timeout: u64, p: Progress, now: u64)
    ensures
        ({
            let (q, next) = settle(plans, timeout, p, now);
            &&& q.pos >= p.pos
            &&& (q.pos == p.pos && p.waiting) ==> q == p
            &&& next matches Next::Receive { timeout: limit } ==> {
                &&& q.pos < plans.len()
                &&& q.waiting
                &&& if plans[q.pos as int].wait is Idle {
                    limit == timeout
                } else {
                    now < q.deadline && now + limit == q.deadline
                }
            }
            &&& next is Done <==> q.pos >= plans.len()
            &&& !(next is Mismatch) && !(next is Unexpected) && !(next is Failed)
        }),
    decreases plans.len() - p.pos, if p.waiting { 0int } else { 1int },
{
    if p.pos < plans.len() {
        let plan = plans[p.pos as int];
        if !p.waiting {
            if !plan.sends {
                lemma_settle_respects_deadline(plans, timeout, now_waiting(p, now, timeout), now);
            }
        } else if plan.wait is Nothing {
            lemma_settle_respects_deadline(plans, timeout, at_next_step(p), now);
        } else if !(plan.wait is Idle) {
            if time_left(p.deadline, now) is None && may_go_without(plan.wait) {
                lemma_settle_respects_deadline(plans, timeout, at_next_step(p), now);
            }
        }
    }
}

/// Deadline discipline: a message that is skipped does not extend the time
/// of the step. After it the sequence stands where it stood, with the same
/// deadline, and receives again for exactly what is left; once nothing is
/// left the step is over, by a timeout or, where it may go without its
/// answer, by going on.
pub proof fn lemma_skipping_does_not_extend(plans: Seq<Plan>, timeout: u64, p: Progress, now: u64)
    requires
        p.pos < plans.len(),
        p.waiting,
        !(plans[p.pos as int].wait is Nothing),
        !(plans[p.pos as int].wait is Idle),
    ensures
        ({
            let (q, next) = follow(plans, timeout, p, now, Occurrence::Received(Verdict::Skip));
            if now < p.deadline {
                q == p && next == (Next::Receive { timeout: (p.deadline - now) as u64 })
            } else if may_go_without(plans[p.pos as int].wait) {
                q.pos > p.pos
            } else {
                q == p && next == (Next::TimedOut { timeout })
            }
        }),
{
    if now >= p.deadline && may_go_without(plans[p.pos as int].wait) {
        lemma_settle_respects_deadline(plans, timeout, at_next_step(p), now);
    }
}

/// On a clock that does not run backwards, what is left of an exchange is
/// never more than the time allowed for it: no receive outlasts the
/// exchange.
pub proof fn lemma_time_left_is_within_timeout(began: u64, timeout: u64, now: u64)
    requires
        began <= now,
    ensures
        time_left(deadline_after(began, timeout), now) matches Some(left) ==> left <= timeout,
        now - began >= timeout ==> time_left(deadline_after(began, timeout), now) is None,
{
}

/// Whatever happens, a receive that the machine asks for ends at the
/// deadline of the step that waits, and the deadline of a step that waits
/// already is not moved by anything that happens; only the wait for the
/// idle text gives every message the full time.
pub proof fn lemma_receive_ends_at_deadline(
    plans: Seq<Plan>,
    timeout: u64,
    p: Progress,
    now: u64,
    what: Occurrence,
)
    ensures
        ({
            let (q, next) = follow(plans, timeout, p, now, what);
            &&& q.pos >= p.pos
            &&& next matches Next::Receive { timeout: limit } ==> {
                &&& q.pos < plans.len()
                &&& if plans[q.pos as int].wait is Idle {
                    limit == timeout
                } else {
                    now + limit == q.deadline
                }
                &&& (q.pos == p.pos && p.waiting && !(what is Sent)) ==> q.deadline == p.deadline
            }
        }),
{
    lemma_settle_respects_deadline(plans, timeout, p, now);
    lemma_settle_respects_deadline(plans, timeout, now_waiting(p, now, timeout), now);
    lemma_settle_respects_deadline(plans, timeout, at_next_step(p), now);
    lemma_settle_respects_deadline(
        plans,
        timeout,
        Progress { got_mode_ack: true, ..p },
        now,
    );
    lemma_settle_respects_deadline(
        plans,
        timeout,
        Progress { got_config_resp: true, ..p },
        now,
    );
}

// ---------------------------------------------------------------------------
// The sequences
// ---------------------------------------------------------------------------

/// Whether `step` sends `cmd` to `dest` and then waits for `wait`.
pub open spec fn asks(step: Step, cmd: Command, dest: BusAddr, wait: Wait) -> bool {
    step.cmd == Some(cmd) && step.dest == dest && step.wait == wait
}

/// Whether `step` sends nothing and waits for `wait`.
pub open spec fn only_waits(step: Step, wait: Wait) -> bool {
    step.cmd is None && step.wait == wait
}

/// A step that sends `cmd` to `dest` and waits for `wait`.
fn ask(cmd: Command, dest: BusAddr, wait: Wait) -> (step: Step)
    ensures
        asks(step, cmd, dest, wait),
{
    Step { cmd: Some(cmd), dest, wait }
}

/// A step that asks `dest` for the value of a parameter.
fn read_param(param_id: u8, dest: BusAddr) -> (step: Step)
    ensures
        asks(
            step,
            Command::ParamReadReq(ParamReadReq { param_id }),
            dest,
            Wait::Reply(MessageKind::ParamValue),
        ),
{
    ask(
        Command::ParamReadReq(ParamReadReq { param_id }),
        dest,
        Wait::Reply(MessageKind::ParamValue),
    )
}

/// A step that tells the microcontroller to commit what was written.
fn commit() -> (step: Step)
    ensures
        asks(
            step,
            Command::AvrConfigCmd(AvrConfigCmd { arm: false }),
            BusAddr::Avr,
            Wait::Reply(MessageKind::ConfigAck),
        ),
{
    ask(
        Command::AvrConfigCmd(AvrConfigCmd { arm: false }),
        BusAddr::Avr,
        Wait::Reply(MessageKind::ConfigAck),
    )
}

/// A status poll of `dest`, answered by a status of kind `kind`.
pub open spec fn polls(step: Step, dest: BusAddr, kind: MessageKind) -> bool {
    asks(
        step,
        Command::StatusPoll(StatusPoll { pi_mode: dest == BusAddr::Pi }),
        dest,
        Wait::Reply(kind),
    )
}

/// A step that polls the status of `dest`.
fn poll(dest: BusAddr, kind: MessageKind) -> (step: Step)
    ensures
        polls(step, dest, kind),
{
    ask(
        Command::StatusPoll(StatusPoll { pi_mode: dest == BusAddr::Pi }),
        dest,
        Wait::Reply(kind),
    )
}

/// Whether `steps` is the synchronisation with the signal processor.
pub open spec fn is_sync_dsp(steps: Seq<Step>) -> bool {
    let dsp = BusAddr::Dsp;
    &&& steps.len() == 7
    &&& polls(steps[0], dsp, MessageKind::DspStatus)
    &&& asks(steps[1], Command::DspQuery, dsp, Wait::Reply(MessageKind::DspQueryResp))
    &&& asks(steps[2], Command::DevInfoReq, dsp, Wait::Reply(MessageKind::DevInfoResp))
    &&& asks(
        steps[3],
        Command::ProdInfoReq(ProdInfoReq { sub_query: 0x00 }),
        dsp,
        Wait::Reply(MessageKind::ProdInfoResp),
    )
    &&& asks(
        steps[4],
        Command::ProdInfoReq(ProdInfoReq { sub_query: 0x08 }),
        dsp,
        Wait::Reply(MessageKind::ProdInfoResp),
    )
    &&& asks(
        steps[5],
        Command::ProdInfoReq(ProdInfoReq { sub_query: 0x09 }),
        dsp,
        Wait::Reply(MessageKind::ProdInfoResp),
    )
    &&& asks(steps[6], Command::ConfigQuery, dsp, Wait::Reply(MessageKind::ConfigResp))
}

/// First phase: status, hardware, device information, three items of
/// product information and the radar configuration of the signal
/// processor.
pub fn sync_dsp_steps() -> (steps: Vec<Step>)
    ensures
        is_sync_dsp(steps@),
{
    let dsp = BusAddr::Dsp;
    let mut steps: Vec<Step> = Vec::new();
    steps.push(poll(dsp, MessageKind::DspStatus));
    steps.push(ask(Command::DspQuery, dsp, Wait::Reply(MessageKind::DspQueryResp)));
    steps.push(ask(Command::DevInfoReq, dsp, Wait::Reply(MessageKind::DevInfoResp)));
    steps.push(
        ask(
            Command::ProdInfoReq(ProdInfoReq { sub_query: 0x00 }),
            dsp,
            Wait::Reply(MessageKind::ProdInfoResp),
        ),
    );
    steps.push(
        ask(
            Command::ProdInfoReq(ProdInfoReq { sub_query: 0x08 }),
            dsp,
            Wait::Reply(MessageKind::ProdInfoResp),
        ),
    );
    steps.push(
        ask(
            Command::ProdInfoReq(ProdInfoReq { sub_query: 0x09 }),
            dsp,
            Wait::Reply(MessageKind::ProdInfoResp),
        ),
    );
    steps.push(ask(Command::ConfigQuery, dsp, Wait::Reply(MessageKind::ConfigResp)));
    steps
}

/// Whether `step` asks the microcontroller for the factory calibration,
/// which may stay away.
pub open spec fn asks_factory_calibration(step: Step) -> bool {
    &&& step.cmd matches Some(Command::CalDataReq(req))
    &&& req.sub_cmd == 0x03
    &&& req.payload@ == CalDataReq::factory_bytes()
    &&& step.dest == BusAddr::Avr
    &&& step.wait == Wait::Optional(MessageKind::CalDataResp)
}

/// Whether `steps` is the synchronisation with the microcontroller, with
/// the clock set to `epoch`.
pub open spec fn is_sync_avr(steps: Seq<Step>, epoch: u32) -> bool {
    let avr = BusAddr::Avr;
    let value = Wait::Reply(MessageKind::ParamValue);
    &&& steps.len() == 12
    &&& polls(steps[0], avr, MessageKind::AvrStatus)
    &&& polls(steps[1], avr, MessageKind::AvrStatus)
    &&& asks(steps[2], Command::DevInfoReq, avr, Wait::Reply(MessageKind::DevInfoResp))
    &&& asks(steps[3], Command::DevInfoReq, avr, Wait::Reply(MessageKind::DevInfoResp))
    &&& asks(steps[4], Command::ParamReadReq(ParamReadReq { param_id: 0x0C }), avr, value)
    &&& asks(steps[5], Command::ParamReadReq(ParamReadReq { param_id: 0x0D }), avr, value)
    &&& asks(steps[6], Command::ConfigQuery, avr, Wait::Reply(MessageKind::ConfigResp))
    &&& asks_factory_calibration(steps[7])
    &&& asks(
        steps[8],
        Command::CalParamReq(CalParamReq),
        avr,
        Wait::Optional(MessageKind::CalParamResp),
    )
    &&& asks(steps[9], Command::AvrConfigQuery, avr, Wait::Reply(MessageKind::AvrConfigResp))
    &&& asks(steps[10], Command::ParamReadReq(ParamReadReq { param_id: 0x64 }), avr, value)
    &&& steps[11].cmd matches Some(Command::TimeSync(t))
    &&& t.epoch == epoch && t.session == 0x00 && t.tail[0] == 0x00 && t.tail[1] == 0x01
    &&& steps[11].dest == avr
    &&& steps[11].wait == Wait::Reply(MessageKind::TimeSync)
}

/// Second phase: status and device information twice each, two parameters,
/// the radar configuration, the factory and the IF calibration, which may
/// both stay away, the configuration of the microcontroller, one more
/// parameter, and the time, `epoch` seconds since the Unix epoch.
pub fn sync_avr_steps(epoch: u32) -> (steps: Vec<Step>)
    ensures
        is_sync_avr(steps@, epoch),
{
    let avr = BusAddr::Avr;
    let mut steps: Vec<Step> = Vec::new();
    steps.push(poll(avr, MessageKind::AvrStatus));
    steps.push(poll(avr, MessageKind::AvrStatus));
    steps.push(ask(Command::DevInfoReq, avr, Wait::Reply(MessageKind::DevInfoResp)));
    steps.push(ask(Command::DevInfoReq, avr, Wait::Reply(MessageKind::DevInfoResp)));
    steps.push(read_param(0x0C, avr));
    steps.push(read_param(0x0D, avr));
    steps.push(ask(Command::ConfigQuery, avr, Wait::Reply(MessageKind::ConfigResp)));
    steps.push(
        ask(
            Command::CalDataReq(CalDataReq { sub_cmd: 0x03, payload: CalDataReq::encode_factory() }),
            avr,
            Wait::Optional(MessageKind::CalDataResp),
        ),
    );
    steps.push(
        ask(Command::CalParamReq(CalParamReq), avr, Wait::Optional(MessageKind::CalParamResp)),
    );
    steps.push(ask(Command::AvrConfigQuery, avr, Wait::Reply(MessageKind::AvrConfigResp)));
    steps.push(read_param(0x64, avr));
    steps.push(
        ask(
            Command::TimeSync(TimeSync { epoch, session: 0x00, tail: [0x00, 0x01] }),
            avr,
            Wait::Reply(MessageKind::TimeSync),
        ),
    );
    steps
}

/// The parameters of the camera processor that the third phase reads after
/// the network configuration, in the order in which it reads them.
pub open spec fn pi_capability_params() -> Seq<u8> {
    seq![0x01u8, 0x07u8, 0x08u8, 0x09u8, 0x06u8, 0x0Bu8, 0x03u8, 0x04u8, 0x05u8]
}

/// Whether `steps` is the synchronisation with the camera processor.
pub open spec fn is_sync_pi(steps: Seq<Step>) -> bool {
    let pi = BusAddr::Pi;
    let value = Wait::Reply(MessageKind::ParamValue);
    &&& steps.len() == 16
    &&& polls(steps[0], pi, MessageKind::PiStatus)
    &&& asks(steps[1], Command::DevInfoReq, pi, Wait::Reply(MessageKind::DevInfoResp))
    &&& asks(steps[2], Command::ParamReadReq(ParamReadReq { param_id: 0x0A }), pi, value)
    &&& asks(
        steps[3],
        Command::CamConfigReq(CamConfigReq),
        pi,
        Wait::Reply(MessageKind::CamConfig),
    )
    &&& asks(
        steps[4],
        Command::CamConfigReq(CamConfigReq),
        pi,
        Wait::Reply(MessageKind::CamConfig),
    )
    &&& asks(
        steps[5],
        Command::NetConfigReq(NetConfigReq { query_password: false }),
        pi,
        Wait::Reply(MessageKind::NetConfigResp),
    )
    &&& asks(
        steps[6],
        Command::NetConfigReq(NetConfigReq { query_password: true }),
        pi,
        Wait::Reply(MessageKind::NetConfigResp),
    )
    &&& forall|i: int|
        0 <= i < 9 ==> asks(
            #[trigger] steps[7 + i],
            Command::ParamReadReq(ParamReadReq { param_id: pi_capability_params()[i] }),
            pi,
            value,
        )
}

/// Third phase: status, device information, one parameter, the camera
/// configuration twice, the network name and the password, and nine more
/// parameters.
pub fn sync_pi_steps() -> (steps: Vec<Step>)
    ensures
        is_sync_pi(steps@),
{
    let pi = BusAddr::Pi;
    let mut steps: Vec<Step> = Vec::new();
    steps.push(poll(pi, MessageKind::PiStatus));
    steps.push(ask(Command::DevInfoReq, pi, Wait::Reply(MessageKind::DevInfoResp)));
    steps.push(read_param(0x0A, pi));
    steps.push(
        ask(Command::CamConfigReq(CamConfigReq), pi, Wait::Reply(MessageKind::CamConfig)),
    );
    steps.push(
        ask(Command::CamConfigReq(CamConfigReq), pi, Wait::Reply(MessageKind::CamConfig)),
    );
    steps.push(
        ask(
            Command::NetConfigReq(NetConfigReq { query_password: false }),
            pi,
            Wait::Reply(MessageKind::NetConfigResp),
        ),
    );
    steps.push(
        ask(
            Command::NetConfigReq(NetConfigReq { query_password: true }),
            pi,
            Wait::Reply(MessageKind::NetConfigResp),
        ),
    );
    steps.push(read_param(0x01, pi));
    steps.push(read_param(0x07, pi));
    steps.push(read_param(0x08, pi));
    steps.push(read_param(0x09, pi));
    steps.push(read_param(0x06, pi));
    steps.push(read_param(0x0B, pi));
    steps.push(read_param(0x03, pi));
    steps.push(read_param(0x04, pi));
    steps.push(read_param(0x05, pi));
    steps
}

/// What the fourth phase writes to the microcontroller.
#[derive(Debug, Clone)]
pub struct AvrSettings {
    /// Detection mode, one of the `MODE_` constants.
    pub mode: u8,
    /// Parameters to write, in this order.
    pub params: Vec<ParamValue>,
    /// Radar calibration.
    pub radar_cal: RadarCal,
}

/// Whether `step` is the commit that follows every write.
pub open spec fn commits(step: Step) -> bool {
    asks(
        step,
        Command::AvrConfigCmd(AvrConfigCmd { arm: false }),
        BusAddr::Avr,
        Wait::Reply(MessageKind::ConfigAck),
    )
}

/// Whether `steps` is the configuration of the microcontroller with the
/// given parameters, mode and calibration.
pub open spec fn is_configure_avr(
    steps: Seq<Step>,
    params: Seq<ParamValue>,
    mode: u8,
    radar_cal: RadarCal,
) -> bool {
    let avr = BusAddr::Avr;
    let n = params.len() as int;
    &&& steps.len() == 2 * n + 4
    &&& forall|i: int|
        0 <= i < n ==> asks(
            #[trigger] steps[2 * i],
            Command::ParamValue(params[i]),
            avr,
            Wait::Reply(MessageKind::ConfigAck),
        )
    &&& forall|i: int| 0 <= i < n ==> commits(#[trigger] steps[2 * i + 1])
    &&& asks(
        steps[2 * n],
        Command::ModeSet(ModeSet { mode }),
        avr,
        Wait::Reply(MessageKind::ModeSet),
    )
    &&& commits(steps[2 * n + 1])
    &&& asks(steps[2 * n + 2], Command::RadarCal(radar_cal), avr, Wait::Reply(MessageKind::RadarCal))
    &&& commits(steps[2 * n + 3])
}

/// Fourth phase: every parameter is written and acknowledged, then the
/// mode is set and echoed, then the radar calibration; a commit follows
/// each of them.
pub fn configure_avr_steps(settings: &AvrSettings) -> (steps: Vec<Step>)
    ensures
        is_configure_avr(steps@, settings.params@, settings.mode, settings.radar_cal),
{
    let avr = BusAddr::Avr;
    let n: usize = settings.params.len();
    let mut steps: Vec<Step> = Vec::new();
    let mut i: usize = 0;
    while i < n
        invariant
            i <= n,
            n == settings.params@.len(),
            avr == BusAddr::Avr,
            steps@.len() == 2 * i,
            forall|k: int|
                0 <= k < i ==> asks(
                    #[trigger] steps@[2 * k],
                    Command::ParamValue(settings.params@[k]),
                    BusAddr::Avr,
                    Wait::Reply(MessageKind::ConfigAck),
                ),
            forall|k: int| 0 <= k < i ==> commits(#[trigger] steps@[2 * k + 1]),
        decreases n - i,
    {
        let ghost before = steps@;
        let param = settings.params[i];
        let write = ask(Command::ParamValue(param), avr, Wait::Reply(MessageKind::ConfigAck));
        let ghost written = write;
        steps.push(write);
        let seal = commit();
        let ghost sealed = seal;
        steps.push(seal);
        proof {
            assert(steps@[2 * i] == written);
            assert(steps@[2 * i + 1] == sealed);
            assert forall|k: int| 0 <= k < i + 1 implies asks(
                #[trigger] steps@[2 * k],
                Command::ParamValue(settings.params@[k]),
                BusAddr::Avr,
                Wait::Reply(MessageKind::ConfigAck),
            ) by {
                if k < i {
                    assert(steps@[2 * k] == before[2 * k]);
                }
            }
            assert forall|k: int| 0 <= k < i + 1 implies commits(#[trigger] steps@[2 * k + 1]) by {
                if k < i {
                    assert(steps@[2 * k + 1] == before[2 * k + 1]);
                }
            }
        }
        i += 1;
    }
    let ghost filled = steps@;
    steps.push(
        ask(
            Command::ModeSet(ModeSet { mode: settings.mode }),
            avr,
            Wait::Reply(MessageKind::ModeSet),
        ),
    );
    steps.push(commit());
    steps.push(ask(Command::RadarCal(settings.radar_cal), avr, Wait::Reply(MessageKind::RadarCal)));
    steps.push(commit());
    proof {
        assert forall|k: int| 0 <= k < n implies asks(
            #[trigger] steps@[2 * k],
            Command::ParamValue(settings.params@[k]),
            BusAddr::Avr,
            Wait::Reply(MessageKind::ConfigAck),
        ) by {
            assert(steps@[2 * k] == filled[2 * k]);
        }
        assert forall|k: int| 0 <= k < n implies commits(#[trigger] steps@[2 * k + 1]) by {
            assert(steps@[2 * k + 1] == filled[2 * k + 1]);
        }
    }
    steps
}

/// Whether `steps` is the configuration of the camera with `config`.
pub open spec fn is_configure_camera(steps: Seq<Step>, config: CamConfig) -> bool {
    let pi = BusAddr::Pi;
    let ack = Wait::Reply(MessageKind::ConfigAck);
    &&& steps.len() == 4
    &&& asks(steps[0], Command::CamConfig(config), pi, ack)
    &&& asks(
        steps[1],
        Command::CamConfigReq(CamConfigReq),
        pi,
        Wait::Reply(MessageKind::CamConfig),
    )
    &&& asks(steps[2], Command::CamState(CamState { state: 0x01 }), pi, ack)
    &&& asks(
        steps[3],
        Command::ParamValue(ParamValue { param_id: 0x02, value: ParamData::Int24(10) }),
        pi,
        ack,
    )
}

/// Fifth phase: the camera configuration is written and read back, the
/// camera is started, and the keepalive interval of the camera processor
/// is set to ten.
pub fn configure_camera_steps(config: &CamConfig) -> (steps: Vec<Step>)
    ensures
        is_configure_camera(steps@, *config),
{
    let pi = BusAddr::Pi;
    let mut steps: Vec<Step> = Vec::new();
    steps.push(ask(Command::CamConfig(*config), pi, Wait::Reply(MessageKind::ConfigAck)));
    steps.push(
        ask(Command::CamConfigReq(CamConfigReq), pi, Wait::Reply(MessageKind::CamConfig)),
    );
    steps.push(
        ask(
            Command::CamState(CamState { state: 0x01 }),
            pi,
            Wait::Reply(MessageKind::ConfigAck),
        ),
    );
    steps.push(
        ask(
            Command::ParamValue(ParamValue { param_id: 0x02, value: ParamData::Int24(10) }),
            pi,
            Wait::Reply(MessageKind::ConfigAck),
        ),
    );
    steps
}

/// Whether `step` arms the radar.
pub open spec fn arms(step: Step) -> bool {
    asks(
        step,
        Command::AvrConfigCmd(AvrConfigCmd { arm: true }),
        BusAddr::Avr,
        Wait::Reply(MessageKind::ConfigAck),
    )
}

/// Whether `steps` is the arming of the radar.
pub open spec fn is_arm(steps: Seq<Step>) -> bool {
    &&& steps.len() == 4
    &&& polls(steps[0], BusAddr::Dsp, MessageKind::DspStatus)
    &&& arms(steps[1])
    &&& polls(steps[2], BusAddr::Pi, MessageKind::PiStatus)
    &&& only_waits(steps[3], Wait::Armed)
}

/// Sixth phase: the status of the signal processor, the arm command, the
/// status of the camera processor, and then the wait for the text that
/// says `ARMED`.
pub fn arm_steps() -> (steps: Vec<Step>)
    ensures
        is_arm(steps@),
{
    let mut steps: Vec<Step> = Vec::new();
    steps.push(poll(BusAddr::Dsp, MessageKind::DspStatus));
    steps.push(
        ask(
            Command::AvrConfigCmd(AvrConfigCmd { arm: true }),
            BusAddr::Avr,
            Wait::Reply(MessageKind::ConfigAck),
        ),
    );
    steps.push(poll(BusAddr::Pi, MessageKind::PiStatus));
    steps.push(Step { cmd: None, dest: BusAddr::Avr, wait: Wait::Armed });
    steps
}

/// Whether `steps` is the keepalive.
pub open spec fn is_keepalive(steps: Seq<Step>) -> bool {
    &&& steps.len() == 3
    &&& polls(steps[0], BusAddr::Dsp, MessageKind::DspStatus)
    &&& polls(steps[1], BusAddr::Avr, MessageKind::AvrStatus)
    &&& polls(steps[2], BusAddr::Pi, MessageKind::PiStatus)
}

/// Keepalive: the status of the signal processor, of the microcontroller
/// and of the camera processor, one after the other.
pub fn keepalive_steps() -> (steps: Vec<Step>)
    ensures
        is_keepalive(steps@),
{
    let mut steps: Vec<Step> = Vec::new();
    steps.push(poll(BusAddr::Dsp, MessageKind::DspStatus));
    steps.push(poll(BusAddr::Avr, MessageKind::AvrStatus));
    steps.push(poll(BusAddr::Pi, MessageKind::PiStatus));
    steps
}

/// Whether `steps` is the cycle that follows a shot.
pub open spec fn is_complete_shot(steps: Seq<Step>) -> bool {
    let avr = BusAddr::Avr;
    &&& steps.len() == 7
    &&& asks(steps[0], Command::ShotDataAck, avr, Wait::Nothing)
    &&& asks(steps[1], Command::ShotDataAck, avr, Wait::Nothing)
    &&& only_waits(steps[2], Wait::Idle)
    &&& asks(steps[3], Command::ConfigQuery, avr, Wait::ModeAckAndConfig)
    &&& asks(steps[4], Command::ShotResultReq, avr, Wait::Drain(MessageKind::ClubResult))
    &&& arms(steps[5])
    &&& only_waits(steps[6], Wait::Armed)
}

/// The cycle that follows a shot, from the text `PROCESSED` back to
/// `ARMED`: two acknowledgements of the shot data, sent without waiting;
/// the wait for the text `IDLE`, with everything else consumed; the query
/// for the configuration, answered by a mode acknowledgement and the
/// configuration as far as they come; the request for the shot result,
/// answered by a second club result if it comes; the arm command; and the
/// wait for the text `ARMED`.
pub fn complete_shot_steps() -> (steps: Vec<Step>)
    ensures
        is_complete_shot(steps@),
{
    let avr = BusAddr::Avr;
    let mut steps: Vec<Step> = Vec::new();
    steps.push(ask(Command::ShotDataAck, avr, Wait::Nothing));
    steps.push(ask(Command::ShotDataAck, avr, Wait::Nothing));
    steps.push(Step { cmd: None, dest: avr, wait: Wait::Idle });
    steps.push(ask(Command::ConfigQuery, avr, Wait::ModeAckAndConfig));
    steps.push(ask(Command::ShotResultReq, avr, Wait::Drain(MessageKind::ClubResult)));
    steps.push(
        ask(
            Command::AvrConfigCmd(AvrConfigCmd { arm: true }),
            avr,
            Wait::Reply(MessageKind::ConfigAck),
        ),
    );
    steps.push(Step { cmd: None, dest: avr, wait: Wait::Armed });
    steps
}

// ---------------------------------------------------------------------------
// What the sequences bring back
// ---------------------------------------------------------------------------

/// Whether entry `i` of `replies` is a message of kind `kind`.
pub open spec fn has_kind(replies: Seq<Option<Message>>, i: int, kind: MessageKind) -> bool {
    replies[i] matches Some(m) && m.kind() == kind
}

/// Whether entry `i` of `replies` is a message of kind `kind` or nothing.
pub open spec fn has_kind_or_none(replies: Seq<Option<Message>>, i: int, kind: MessageKind) -> bool {
    replies[i] matches Some(m) ==> m.kind() == kind
}

/// What the first phase brings back.
#[derive(Debug, Clone)]
pub struct DspSync {
    pub status: DspStatus,
    pub hw_info: DspQueryResp,
    pub dev_info: DevInfoResp,
    pub prod_info: [ProdInfoResp; 3],
    pub config: ConfigResp,
}

impl DspSync {
    /// Whether `replies` has the shape of what the first phase keeps.
    pub open spec fn fits(replies: Seq<Option<Message>>) -> bool {
        &&& replies.len() == 7
        &&& has_kind(replies, 0, MessageKind::DspStatus)
        &&& has_kind(replies, 1, MessageKind::DspQueryResp)
        &&& has_kind(replies, 2, MessageKind::DevInfoResp)
        &&& has_kind(replies, 3, MessageKind::ProdInfoResp)
        &&& has_kind(replies, 4, MessageKind::ProdInfoResp)
        &&& has_kind(replies, 5, MessageKind::ProdInfoResp)
        &&& has_kind(replies, 6, MessageKind::ConfigResp)
    }

    /// Whether the fields are the answers in `replies`, each in its place.
    pub open spec fn made_of(self, replies: Seq<Option<Message>>) -> bool {
        &&& replies.len() == 7
        &&& replies[0] == Some(Message::DspStatus(self.status))
        &&& replies[1] == Some(Message::DspQueryResp(self.hw_info))
        &&& replies[2] == Some(Message::DevInfoResp(self.dev_info))
        &&& replies[3] == Some(Message::ProdInfoResp(self.prod_info[0]))
        &&& replies[4] == Some(Message::ProdInfoResp(self.prod_info[1]))
        &&& replies[5] == Some(Message::ProdInfoResp(self.prod_info[2]))
        &&& replies[6] == Some(Message::ConfigResp(self.config))
    }

    /// Gathers the answers that the first phase kept.
    pub fn from_replies(replies: Vec<Option<Message>>) -> (r: Option<Self>)
        ensures
            match r {
                Some(d) => d.made_of(replies@),
                None => !Self::fits(replies@),
            },
    {
        let mut replies = replies;
        let ghost all = replies@;
        if replies.len() != 7 {
            return None;
        }
        let config = match replies.pop() {
            Some(Some(Message::ConfigResp(m))) => m,
            _ => {
                return None;
            },
        };
        let info2 = match replies.pop() {
            Some(Some(Message::ProdInfoResp(m))) => m,
            _ => {
                return None;
            },
        };
        let info1 = match replies.pop() {
            Some(Some(Message::ProdInfoResp(m))) => m,
            _ => {
                return None;
            },
        };
        let info0 = match replies.pop() {
            Some(Some(Message::ProdInfoResp(m))) => m,
            _ => {
                return None;
            },
        };
        let dev_info = match replies.pop() {
            Some(Some(Message::DevInfoResp(m))) => m,
            _ => {
                return None;
            },
        };
        let hw_info = match replies.pop() {
            Some(Some(Message::DspQueryResp(m))) => m,
            _ => {
                return None;
            },
        };
        let status = match replies.pop() {
            Some(Some(Message::DspStatus(m))) => m,
            _ => {
                return None;
            },
        };
        Some(DspSync { status, hw_info, dev_info, prod_info: [info0, info1, info2], config })
    }
}

/// What the second phase brings back.
#[derive(Debug, Clone)]
pub struct AvrSync {
    pub status: AvrStatus,
    pub dev_info: DevInfoResp,
    pub config: ConfigResp,
    /// The factory calibration, if it came.
    pub factory_cal: Option<CalDataResp>,
    /// The IF calibration, if it came.
    pub if_cal: Option<CalParamResp>,
    pub avr_config: AvrConfigResp,
}

impl AvrSync {
    /// Whether `replies` has the shape of what the second phase keeps.
    pub open spec fn fits(replies: Seq<Option<Message>>) -> bool {
        &&& replies.len() == 12
        &&& has_kind(replies, 1, MessageKind::AvrStatus)
        &&& has_kind(replies, 3, MessageKind::DevInfoResp)
        &&& has_kind(replies, 6, MessageKind::ConfigResp)
        &&& has_kind_or_none(replies, 7, MessageKind::CalDataResp)
        &&& has_kind_or_none(replies, 8, MessageKind::CalParamResp)
        &&& has_kind(replies, 9, MessageKind::AvrConfigResp)
    }

    /// Whether the fields are the answers in `replies`: of the two status
    /// and the two device information answers the later one, and the
    /// calibrations as far as they came.
    pub open spec fn made_of(self, replies: Seq<Option<Message>>) -> bool {
        &&& replies.len() == 12
        &&& replies[1] == Some(Message::AvrStatus(self.status))
        &&& replies[3] == Some(Message::DevInfoResp(self.dev_info))
        &&& replies[6] == Some(Message::ConfigResp(self.config))
        &&& match self.factory_cal {
            Some(c) => replies[7] == Some(Message::CalDataResp(c)),
            None => replies[7] is None,
        }
        &&& match self.if_cal {
            Some(c) => replies[8] == Some(Message::CalParamResp(c)),
            None => replies[8] is None,
        }
        &&& replies[9] == Some(Message::AvrConfigResp(self.avr_config))
    }

    /// Gathers the answers that the second phase kept.
    pub fn from_replies(replies: Vec<Option<Message>>) -> (r: Option<Self>)
        ensures
            match r {
                Some(d) => d.made_of(replies@),
                None => !Self::fits(replies@),
            },
    {
        let mut replies = replies;
        if replies.len() != 12 {
            return None;
        }
        replies.pop();
        replies.pop();
        let avr_config = match replies.pop() {
            Some(Some(Message::AvrConfigResp(m))) => m,
            _ => {
                return None;
            },
        };
        let if_cal = match replies.pop() {
            Some(Some(Message::CalParamResp(m))) => Some(m),
            Some(None) => None,
            _ => {
                return None;
            },
        };
        let factory_cal = match replies.pop() {
            Some(Some(Message::CalDataResp(m))) => Some(m),
            Some(None) => None,
            _ => {
                return None;
            },
        };
        let config = match replies.pop() {
            Some(Some(Message::ConfigResp(m))) => m,
            _ => {
                return None;
            },
        };
        replies.pop();
        replies.pop();
        let dev_info = match replies.pop() {
            Some(Some(Message::DevInfoResp(m))) => m,
            _ => {
                return None;
            },
        };
        replies.pop();
        let status = match replies.pop() {
            Some(Some(Message::AvrStatus(m))) => m,
            _ => {
                return None;
            },
        };
        Some(AvrSync { status, dev_info, config, factory_cal, if_cal, avr_config })
    }
}

/// The first NUL of `s` at or after `from`; `s.len()` where there is none.
pub open spec fn find_nul(s: Seq<char>, from: int) -> int
    decreases s.len() - from,
{
    if from >= s.len() {
        s.len() as int
    } else if from >= 0 && s[from] == '\0' {
        from
    } else {
        find_nul(s, from + 1)
    }
}

/// What comes before the first NUL of `s`: all of it where there is none.
pub open spec fn before_nul(s: Seq<char>) -> Seq<char> {
    s.take(find_nul(s, 0))
}

/// What comes after the first NUL of `s`: nothing where there is none.
pub open spec fn after_nul(s: Seq<char>) -> Seq<char> {
    if find_nul(s, 0) < s.len() {
        s.skip(find_nul(s, 0) + 1)
    } else {
        Seq::empty()
    }
}

/// Splits the text of the network configuration at its first NUL into the
/// network name and the password.
pub fn split_credentials(text: &str) -> (pair: (String, String))
    ensures
        pair.0@ == before_nul(text@),
        pair.1@ == after_nul(text@),
{
    let n: usize = text.unicode_len();
    let mut ssid = String::new();
    let mut i: usize = 0;
    assert(ssid@ =~= text@.take(0));
    while i < n && text.get_char(i) != '\0'
        invariant
            i <= n,
            n == text@.len(),
            ssid@ == text@.take(i as int),
            find_nul(text@, 0) == find_nul(text@, i as int),
        decreases n - i,
    {
        push_char(&mut ssid, text.get_char(i));
        i += 1;
        assert(ssid@ =~= text@.take(i as int));
    }
    let mut password = String::new();
    if i < n {
        let mut j: usize = i + 1;
        assert(password@ =~= text@.subrange(i + 1, j as int));
        while j < n
            invariant
                i < j <= n,
                n == text@.len(),
                password@ == text@.subrange(i + 1, j as int),
            decreases n - j,
        {
            push_char(&mut password, text.get_char(j));
            j += 1;
            assert(password@ =~= text@.subrange(i + 1, j as int));
        }
        assert(password@ =~= text@.skip(i + 1));
    }
    (ssid, password)
}

/// What the third phase brings back.
#[derive(Debug, Clone)]
pub struct PiSync {
    pub dev_info: DevInfoResp,
    pub cam_config: CamConfig,
    /// Name of the network.
    pub ssid: String,
    /// Password of the network.
    pub password: String,
}

impl PiSync {
    /// Whether `replies` has the shape of what the third phase keeps.
    pub open spec fn fits(replies: Seq<Option<Message>>) -> bool {
        &&& replies.len() == 16
        &&& has_kind(replies, 1, MessageKind::DevInfoResp)
        &&& has_kind(replies, 4, MessageKind::CamConfig)
        &&& has_kind(replies, 6, MessageKind::NetConfigResp)
    }

    /// Whether the fields are the answers in `replies`: the device
    /// information, the later of the two camera configurations, and the
    /// answer to the query for the password, split at its NUL into the name
    /// of the network and the password.
    pub open spec fn made_of(self, replies: Seq<Option<Message>>) -> bool {
        &&& replies.len() == 16
        &&& replies[1] == Some(Message::DevInfoResp(self.dev_info))
        &&& replies[4] == Some(Message::CamConfig(self.cam_config))
        &&& replies[6] matches Some(Message::NetConfigResp(net))
        &&& self.ssid@ == before_nul(net.text@)
        &&& self.password@ == after_nul(net.text@)
    }

    /// Gathers the answers that the third phase kept.
    pub fn from_replies(replies: Vec<Option<Message>>) -> (r: Option<Self>)
        ensures
            match r {
                Some(d) => d.made_of(replies@),
                None => !Self::fits(replies@),
            },
    {
        let mut replies = replies;
        if replies.len() != 16 {
            return None;
        }
        replies.truncate(7);
        let net = match replies.pop() {
            Some(Some(Message::NetConfigResp(m))) => m,
            _ => {
                return None;
            },
        };
        replies.pop();
        let cam_config = match replies.pop() {
            Some(Some(Message::CamConfig(m))) => m,
            _ => {
                return None;
            },
        };
        replies.pop();
        replies.pop();
        let dev_info = match replies.pop() {
            Some(Some(Message::DevInfoResp(m))) => m,
            _ => {
                return None;
            },
        };
        let (ssid, password) = split_credentials(net.text.as_str());
        Some(PiSync { dev_info, cam_config, ssid, password })
    }
}

/// The status of all three peers, as a keepalive brings it back.
#[derive(Debug, Clone)]
pub struct KeepaliveStatus {
    pub dsp: DspStatus,
    pub avr: AvrStatus,
    pub pi: PiStatus,
}

impl KeepaliveStatus {
    /// Whether `replies` has the shape of what a keepalive keeps.
    pub open spec fn fits(replies: Seq<Option<Message>>) -> bool {
        &&& replies.len() == 3
        &&& has_kind(replies, 0, MessageKind::DspStatus)
        &&& has_kind(replies, 1, MessageKind::AvrStatus)
        &&& has_kind(replies, 2, MessageKind::PiStatus)
    }

    /// Whether the fields are the answers in `replies`.
    pub open spec fn made_of(self, replies: Seq<Option<Message>>) -> bool {
        &&& replies.len() == 3
        &&& replies[0] == Some(Message::DspStatus(self.dsp))
        &&& replies[1] == Some(Message::AvrStatus(self.avr))
        &&& replies[2] == Some(Message::PiStatus(self.pi))
    }

    /// Gathers the answers that a keepalive kept.
    pub fn from_replies(replies: Vec<Option<Message>>) -> (r: Option<Self>)
        ensures
            match r {
                Some(d) => d.made_of(replies@),
                None => !Self::fits(replies@),
            },
    {
        let mut replies = replies;
        if replies.len() != 3 {
            return None;
        }
        let pi = match replies.pop() {
            Some(Some(Message::PiStatus(m))) => m,
            _ => {
                return None;
            },
        };
        let avr = match replies.pop() {
            Some(Some(Message::AvrStatus(m))) => m,
            _ => {
                return None;
            },
        };
        let dsp = match replies.pop() {
            Some(Some(Message::DspStatus(m))) => m,
            _ => {
                return None;
            },
        };
        Some(KeepaliveStatus { dsp, avr, pi })
    }
}

/// A sequence that ran to its end has kept what its steps wait for: the
/// answers of a finished phase always have the shape that gathering them
/// asks for.
pub proof fn lemma_finished_phases_fit(steps: Seq<Step>, replies: Seq<Option<Message>>, epoch: u32)
    requires
        replies_fit(steps, replies),
        replies.len() == steps.len(),
    ensures
        is_sync_dsp(steps) ==> DspSync::fits(replies),
        is_sync_avr(steps, epoch) ==> AvrSync::fits(replies),
        is_sync_pi(steps) ==> PiSync::fits(replies),
        is_keepalive(steps) ==> KeepaliveStatus::fits(replies),
{
    if is_sync_dsp(steps) {
        assert(entry_fits(steps[0].wait, replies[0]));
        assert(entry_fits(steps[1].wait, replies[1]));
        assert(entry_fits(steps[2].wait, replies[2]));
        assert(entry_fits(steps[3].wait, replies[3]));
        assert(entry_fits(steps[4].wait, replies[4]));
        assert(entry_fits(steps[5].wait, replies[5]));
        assert(entry_fits(steps[6].wait, replies[6]));
    }
    if is_sync_avr(steps, epoch) {
        assert(entry_fits(steps[1].wait, replies[1]));
        assert(entry_fits(steps[3].wait, replies[3]));
        assert(entry_fits(steps[6].wait, replies[6]));
        assert(entry_fits(steps[7].wait, replies[7]));
        assert(entry_fits(steps[8].wait, replies[8]));
        assert(entry_fits(steps[9].wait, replies[9]));
    }
    if is_sync_pi(steps) {
        assert(entry_fits(steps[1].wait, replies[1]));
        assert(entry_fits(steps[4].wait, replies[4]));
        assert(entry_fits(steps[6].wait, replies[6]));
    }
    if is_keepalive(steps) {
        assert(entry_fits(steps[0].wait, replies[0]));
        assert(entry_fits(steps[1].wait, replies[1]));
        assert(entry_fits(steps[2].wait, replies[2]));
    }
}

} // verus!
