//! The command client: a state machine that sequences one command execution
//! end to end — wait out the cooldown, subscribe before transmitting, write,
//! race the reply against a timeout deadline, re-arm the cooldown — and owns
//! the cooldown state across executions.
//!
//! The machine decides; the surrounding program performs. Each call to
//! [`FWClient::step`] consumes the [`Event`] that ended the last suspension
//! and hands back the [`Action`] to perform next, until the action is
//! [`Action::Finish`]. Exactly one command executes at a time: the allowed
//! events ([`event_allowed`]) follow the phases of a single execution, and
//! serializing calls on one client is the caller's duty.
//!
//! Cooldown policy, the same on both paths: the cooldown is armed exactly
//! once per successful transmission — by the step that learns the write
//! succeeded when no reply is expected, and by the step that settles the
//! race (or by [`FWClient::cancel`] when the race is abandoned) when one is.
//! Either way the armed instant covers the transmission end plus the full
//! interval ([`client_inv`]); a failed write arms nothing.

use crate::timer::{sat_deadline, Timer};
use vstd::pervasive::unreached;
use vstd::prelude::*;

verus! {

/// The failures an execution can report. Each is surfaced to the caller as is,
/// never retried or masked. A rejected reply is reported as `Decode` by the
/// command capability that owns the byte-level protocol; the client core
/// itself reports the other three.
#[derive(Clone, Copy, Debug, PartialEq, Eq, Structural)]
pub enum Error {
    /// The transport failed while writing or flushing the encoded command.
    Write,
    /// No reply arrived within the command's declared maximum wait.
    Timeout,
    /// The reply, or the empty buffer of a no-reply command, was rejected by
    /// the command's decoder.
    Decode,
    /// The response source refused a new subscription: a fatal misuse, not
    /// expected in normal operation.
    Subscription,
}

/// What one finished execution hands back.
#[derive(Debug)]
pub enum Outcome {
    /// A reply arrived in time; its bytes are for the command to decode.
    Replied(Vec<u8>),
    /// The command expected no reply and was transmitted; the command decodes
    /// an empty buffer.
    NoReply,
    /// The execution failed.
    Failed(Error),
}

/// Where an execution stands between two suspension points.
#[derive(Clone, Copy, Debug)]
pub enum Phase {
    /// No execution in flight; ready for the next command.
    Idle,
    /// Waiting out the cooldown armed by an earlier execution.
    AwaitCooldown { expects_response: bool, max_wait_ms: u64 },
    /// Opening a subscription on the response source, strictly before
    /// transmitting.
    Subscribing { max_wait_ms: u64, cooldown_over: u64 },
    /// The encoded bytes are being written to the transport. `cooldown_over`
    /// is the clock reading taken when the cooldown wait returned.
    Sending { expects_response: bool, max_wait_ms: u64, cooldown_over: u64 },
    /// Racing the subscription's next message against the timeout deadline
    /// armed at `send_end`, the clock reading taken right after transmission.
    Racing { deadline: u64, send_end: u64 },
}

/// What the environment reports to the client at each suspension point.
/// Clock readings come from the same monotonic clock the timer is armed from.
#[derive(Debug)]
pub enum Event {
    /// A new command: whether it expects a reply, and its declared maximum
    /// wait in milliseconds.
    Begin { expects_response: bool, max_wait_ms: u64 },
    /// The cooldown wait returned; `now` is the clock reading after it.
    CooldownDone { now: u64 },
    /// The response source accepted (`ok`) or refused the subscription.
    SubscribeResult { ok: bool },
    /// Write and flush succeeded (`ok`) or failed; `now` is read right after.
    WriteResult { ok: bool, now: u64 },
    /// The race was won by an incoming reply, delivered at `now`.
    RaceReply { data: Vec<u8>, now: u64 },
    /// The race was won by the timeout deadline, reached at `now`.
    RaceTimeout { now: u64 },
}

/// What the environment must do on the client's behalf before the next step.
#[derive(Debug)]
#[allow(inconsistent_fields)]
pub enum Action {
    /// Suspend until the instant, if any; then report [`Event::CooldownDone`].
    AwaitCooldown { deadline: Option<u64> },
    /// Open a subscription on the response source; then report
    /// [`Event::SubscribeResult`].
    Subscribe,
    /// Write the encoded command bytes and flush; then report
    /// [`Event::WriteResult`].
    Transmit,
    /// Race the subscription's next message against a wait until `deadline`;
    /// report whichever wins and abandon the other.
    Race { deadline: u64 },
    /// The execution is over with this outcome.
    Finish(Outcome),
}

/// The command client. It owns one deadline timer — used for the cooldown
/// between executions and for the reply timeout within one — and the
/// configured cooldown interval.
pub struct FWClient {
    /// The one deadline timer.
    pub timer: Timer,
    /// The minimum idle interval between transmissions, in milliseconds.
    pub cooldown_ms: u64,
    /// Where the in-flight execution stands.
    pub phase: Phase,
    /// The clock reading right after the last successful transmission.
    pub last_send_end: Ghost<Option<u64>>,
}

/// Everything one step determines: the next phase, the timer's armed instant,
/// the last-transmission mark, and the action handed to the environment.
/// Values of this type exist only in specifications.
pub struct StepOut {
    pub phase: Phase,
    pub delay: Option<u64>,
    pub last: Option<u64>,
    pub action: Action,
}

/// Which event may be reported in which phase: each suspension's own
/// completion, with the clock readings a monotonic driver produces — a wait
/// returns no earlier than the armed instant, and the clock never runs
/// backwards between two readings of one execution.
pub open spec fn event_allowed(phase: Phase, delay: Option<u64>, ev: Event) -> bool {
    match (phase, ev) {
        (Phase::Idle, Event::Begin { .. }) => true,
        (Phase::AwaitCooldown { .. }, Event::CooldownDone { now }) => (delay matches Some(d)
            ==> now >= d),
        (Phase::Subscribing { .. }, Event::SubscribeResult { .. }) => true,
        (Phase::Sending { cooldown_over, .. }, Event::WriteResult { ok, now }) => (ok
            ==> now >= cooldown_over),
        (Phase::Racing { send_end, .. }, Event::RaceReply { now, .. }) => now >= send_end,
        (Phase::Racing { deadline, .. }, Event::RaceTimeout { now }) => now >= deadline,
        _ => false,
    }
}

/// The transition function over the client's parts: what one step leaves
/// behind and hands out, for every allowed phase and event.
pub open spec fn step_parts(
    phase: Phase,
    delay: Option<u64>,
    last: Option<u64>,
    cooldown_ms: u64,
    ev: Event,
) -> StepOut {
    match (phase, ev) {
        (Phase::Idle, Event::Begin { expects_response, max_wait_ms }) => StepOut {
            phase: Phase::AwaitCooldown { expects_response, max_wait_ms },
            delay: delay,
            last: last,
            action: Action::AwaitCooldown { deadline: delay },
        },
        (Phase::AwaitCooldown { expects_response, max_wait_ms }, Event::CooldownDone { now }) => if expects_response {
            StepOut {
                phase: Phase::Subscribing { max_wait_ms, cooldown_over: now },
                delay: delay,
                last: last,
                action: Action::Subscribe,
            }
        } else {
            StepOut {
                phase: Phase::Sending { expects_response: false, max_wait_ms, cooldown_over: now },
                delay: delay,
                last: last,
                action: Action::Transmit,
            }
        },
        (Phase::Subscribing { max_wait_ms, cooldown_over }, Event::SubscribeResult { ok }) => if ok {
            StepOut {
                phase: Phase::Sending { expects_response: true, max_wait_ms, cooldown_over },
                delay: delay,
                last: last,
                action: Action::Transmit,
            }
        } else {
            StepOut {
                phase: Phase::Idle,
                delay: delay,
                last: last,
                action: Action::Finish(Outcome::Failed(Error::Subscription)),
            }
        },
        (Phase::Sending { expects_response, max_wait_ms, .. }, Event::WriteResult { ok, now }) => if !ok {
            StepOut {
                phase: Phase::Idle,
                delay: delay,
                last: last,
                action: Action::Finish(Outcome::Failed(Error::Write)),
            }
        } else if expects_response {
            StepOut {
                phase: Phase::Racing { deadline: sat_deadline(now, max_wait_ms), send_end: now },
                delay: Some(sat_deadline(now, max_wait_ms)),
                last: Some(now),
                action: Action::Race { deadline: sat_deadline(now, max_wait_ms) },
            }
        } else {
            StepOut {
                phase: Phase::Idle,
                delay: Some(sat_deadline(now, cooldown_ms)),
                last: Some(now),
                action: Action::Finish(Outcome::NoReply),
            }
        },
        (Phase::Racing { .. }, Event::RaceReply { data, now }) => StepOut {
            phase: Phase::Idle,
            delay: Some(sat_deadline(now, cooldown_ms)),
            last: last,
            action: Action::Finish(Outcome::Replied(data)),
        },
        (Phase::Racing { .. }, Event::RaceTimeout { now }) => StepOut {
            phase: Phase::Idle,
            delay: Some(sat_deadline(now, cooldown_ms)),
            last: last,
            action: Action::Finish(Outcome::Failed(Error::Timeout)),
        },
        _ => arbitrary(),
    }
}

/// The transition function of a whole client value.
pub open spec fn step_spec(s: FWClient, ev: Event) -> StepOut {
    step_parts(s.phase, s.timer.delay, s.last_send_end@, s.cooldown_ms, ev)
}

/// The cooldown owed to the last successful transmission is covered by the
/// armed instant: whoever waits the timer out cannot transmit again sooner.
pub open spec fn cooldown_covered(delay: Option<u64>, last: Option<u64>, cooldown_ms: u64) -> bool {
    last matches Some(t) ==> (delay matches Some(d) && d >= sat_deadline(t, cooldown_ms))
}

/// What holds of a client between steps, phase by phase: the cooldown owed to
/// the last transmission is covered, clock readings recorded after the
/// cooldown wait lie at or after the armed instant they waited out, and while
/// racing, the timer holds the race's deadline, armed at the transmission end.
pub open spec fn inv_parts(
    phase: Phase,
    delay: Option<u64>,
    last: Option<u64>,
    cooldown_ms: u64,
) -> bool {
    match phase {
        Phase::Idle => cooldown_covered(delay, last, cooldown_ms),
        Phase::AwaitCooldown { .. } => cooldown_covered(delay, last, cooldown_ms),
        Phase::Subscribing { cooldown_over, .. } => cooldown_covered(delay, last, cooldown_ms)
            && (delay matches Some(d) ==> cooldown_over >= d),
        Phase::Sending { cooldown_over, .. } => cooldown_covered(delay, last, cooldown_ms) && (
        delay matches Some(d) ==> cooldown_over >= d),
        Phase::Racing { deadline, send_end } => last == Some(send_end) && delay == Some(deadline)
            && deadline >= send_end,
    }
}

/// The client invariant: [`inv_parts`] of its phase, armed instant,
/// last-transmission mark and cooldown interval.
pub open spec fn client_inv(s: FWClient) -> bool {
    inv_parts(s.phase, s.timer.delay, s.last_send_end@, s.cooldown_ms)
}

/// Every allowed step keeps the client invariant.
pub proof fn lemma_step_preserves_inv(
    phase: Phase,
    delay: Option<u64>,
    last: Option<u64>,
    cooldown_ms: u64,
    ev: Event,
)
    requires
        inv_parts(phase, delay, last, cooldown_ms),
        event_allowed(phase, delay, ev),
    ensures
        inv_parts(
            step_parts(phase, delay, last, cooldown_ms, ev).phase,
            step_parts(phase, delay, last, cooldown_ms, ev).delay,
            step_parts(phase, delay, last, cooldown_ms, ev).last,
            cooldown_ms,
        ),
{
}

/// The machine's state proper: what a run of events carries forward from
/// step to step.
pub struct CoreState {
    pub phase: Phase,
    pub delay: Option<u64>,
    pub last: Option<u64>,
}

/// The state of a fresh client: idle, nothing armed, nothing yet transmitted.
pub open spec fn fresh_state() -> CoreState {
    CoreState { phase: Phase::Idle, delay: None, last: None }
}

/// The state one step later.
pub open spec fn next_state(st: CoreState, cooldown_ms: u64, ev: Event) -> CoreState {
    let o = step_parts(st.phase, st.delay, st.last, cooldown_ms, ev);
    CoreState { phase: o.phase, delay: o.delay, last: o.last }
}

/// The state after a whole run of events, first event first.
pub open spec fn run(st: CoreState, cooldown_ms: u64, evs: Seq<Event>) -> CoreState
    decreases evs.len(),
{
    if evs.len() == 0 {
        st
    } else {
        run(next_state(st, cooldown_ms, evs[0]), cooldown_ms, evs.drop_first())
    }
}

/// Whether every event of a run is allowed in the state it meets.
pub open spec fn run_allowed(st: CoreState, cooldown_ms: u64, evs: Seq<Event>) -> bool
    decreases evs.len(),
{
    evs.len() == 0 || (event_allowed(st.phase, st.delay, evs[0]) && run_allowed(
        next_state(st, cooldown_ms, evs[0]),
        cooldown_ms,
        evs.drop_first(),
    ))
}

impl FWClient {
    /// A client over the given timer, with the given minimum idle interval
    /// between transmissions, ready for its first command.
    pub fn new(timer: Timer, cooldown_ms: u64) -> (c: FWClient)
        ensures
            c.timer == timer,
            c.cooldown_ms == cooldown_ms,
            c.phase is Idle,
            c.last_send_end@ is None,
            client_inv(c),
    {
        FWClient { timer, cooldown_ms, phase: Phase::Idle, last_send_end: Ghost(None) }
    }

    /// One step of the machine: consumes the event that ended the last
    /// suspension and hands back the action to perform next, exactly as
    /// [`step_spec`] says.
    pub fn step(&mut self, ev: Event) -> (a: Action)
        requires
            event_allowed(old(self).phase, old(self).timer.delay, ev),
        ensures
            final(self).cooldown_ms == old(self).cooldown_ms,
            final(self).phase == step_spec(*old(self), ev).phase,
            final(self).timer.delay == step_spec(*old(self), ev).delay,
            final(self).last_send_end@ == step_spec(*old(self), ev).last,
            a == step_spec(*old(self), ev).action,
            client_inv(*old(self)) ==> client_inv(*final(self)),
    {
        let ghost s0 = *self;
        let ghost ev0 = ev;
        let ph = self.phase;
        let a = match (ph, ev) {
            (Phase::Idle, Event::Begin { expects_response, max_wait_ms }) => {
                self.phase = Phase::AwaitCooldown { expects_response, max_wait_ms };
                Action::AwaitCooldown { deadline: self.timer.pending_deadline() }
            },
            (Phase::AwaitCooldown { expects_response, max_wait_ms }, Event::CooldownDone { now }) => {
                if expects_response {
                    self.phase = Phase::Subscribing { max_wait_ms, cooldown_over: now };
                    Action::Subscribe
                } else {
                    self.phase = Phase::Sending {
                        expects_response: false,
                        max_wait_ms,
                        cooldown_over: now,
                    };
                    Action::Transmit
                }
            },
            (Phase::Subscribing { max_wait_ms, cooldown_over }, Event::SubscribeResult { ok }) => {
                if ok {
                    self.phase = Phase::Sending {
                        expects_response: true,
                        max_wait_ms,
                        cooldown_over,
                    };
                    Action::Transmit
                } else {
                    self.phase = Phase::Idle;
                    Action::Finish(Outcome::Failed(Error::Subscription))
                }
            },
            (Phase::Sending { expects_response, max_wait_ms, .. }, Event::WriteResult { ok, now }) => {
                if !ok {
                    self.phase = Phase::Idle;
                    Action::Finish(Outcome::Failed(Error::Write))
                } else if expects_response {
                    self.timer.start_delay(now, max_wait_ms);
                    let d = self.timer.pending_deadline().unwrap();
                    self.phase = Phase::Racing { deadline: d, send_end: now };
                    self.last_send_end = Ghost(Some(now));
                    Action::Race { deadline: d }
                } else {
                    self.timer.start_delay(now, self.cooldown_ms);
                    self.phase = Phase::Idle;
                    self.last_send_end = Ghost(Some(now));
                    Action::Finish(Outcome::NoReply)
                }
            },
            (Phase::Racing { .. }, Event::RaceReply { data, now }) => {
                self.timer.start_delay(now, self.cooldown_ms);
                self.phase = Phase::Idle;
                Action::Finish(Outcome::Replied(data))
            },
            (Phase::Racing { .. }, Event::RaceTimeout { now }) => {
                self.timer.start_delay(now, self.cooldown_ms);
                self.phase = Phase::Idle;
                Action::Finish(Outcome::Failed(Error::Timeout))
            },
            _ => unreached(),
        };
        proof {
            if client_inv(s0) {
                lemma_step_preserves_inv(
                    s0.phase,
                    s0.timer.delay,
                    s0.last_send_end@,
                    s0.cooldown_ms,
                    ev0,
                );
            }
        }
        a
    }

    /// Abandons whatever execution is in flight; the client is ready for the
    /// next call. The cooldown owed to a transmission that already happened is
    /// kept: when abandoned mid-race, the timer is re-armed for the cooldown
    /// from the transmission end, in place of the race's deadline.
    pub fn cancel(&mut self)
        ensures
            final(self).phase is Idle,
            final(self).cooldown_ms == old(self).cooldown_ms,
            final(self).last_send_end == old(self).last_send_end,
            (old(self).phase matches Phase::Racing { send_end, .. } ==> final(self).timer.delay
                == Some(sat_deadline(send_end, old(self).cooldown_ms))),
            (!(old(self).phase is Racing) ==> final(self).timer == old(self).timer),
            client_inv(*old(self)) ==> client_inv(*final(self)),
    {
        if let Phase::Racing { send_end, .. } = self.phase {
            self.timer.start_delay(send_end, self.cooldown_ms);
        }
        self.phase = Phase::Idle;
    }
}

} // verus!
