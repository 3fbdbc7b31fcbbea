//! What the client machine guarantees, stated over [`step_spec`] and
//! [`event_allowed`] and proved once and for all: the no-reply path never
//! touches the response source, a reply beats the deadline and a timeout
//! never fires early, transmissions are separated by the cooldown, a write
//! failure short-circuits, and a subscription is always opened before the
//! transmission it listens for.

use crate::client::{
    client_inv, event_allowed, fresh_state, inv_parts, lemma_step_preserves_inv, next_state, run,
    run_allowed, step_spec, Action, CoreState, Error, Event, FWClient, Outcome, Phase,
};
use crate::timer::{sat_deadline, ticks_of_ms};
use vstd::prelude::*;

verus! {

/// The in-flight execution, if any, is one of a command that expects no
/// reply.
pub open spec fn no_reply_execution(phase: Phase) -> bool {
    match phase {
        Phase::Idle => true,
        Phase::AwaitCooldown { expects_response, .. } => !expects_response,
        Phase::Sending { expects_response, .. } => !expects_response,
        Phase::Subscribing { .. } => false,
        Phase::Racing { .. } => false,
    }
}

/// A command that expects no reply performs no response-source interaction:
/// as long as only such commands are begun, no allowed step ever subscribes,
/// races, or enters a phase that would.
pub proof fn lemma_no_reply_avoids_response_source(s: FWClient, ev: Event)
    requires
        event_allowed(s.phase, s.timer.delay, ev),
        no_reply_execution(s.phase),
        (ev matches Event::Begin { expects_response, .. } ==> !expects_response),
    ensures
        no_reply_execution(step_spec(s, ev).phase),
        !(step_spec(s, ev).action is Subscribe),
        !(step_spec(s, ev).action is Race),
{
}

/// A command that expects no reply succeeds immediately after a successful
/// transmission: the step returns the no-reply outcome for the decoder's
/// empty buffer, the client is idle again, and the cooldown is armed from the
/// transmission end.
pub proof fn lemma_no_reply_success_is_immediate(s: FWClient, now: u64)
    requires
        (s.phase matches Phase::Sending { expects_response, .. } && !expects_response),
        event_allowed(s.phase, s.timer.delay, (Event::WriteResult { ok: true, now })),
    ensures
        step_spec(s, (Event::WriteResult { ok: true, now })).action == Action::Finish(
            Outcome::NoReply,
        ),
        step_spec(s, (Event::WriteResult { ok: true, now })).phase is Idle,
        step_spec(s, (Event::WriteResult { ok: true, now })).delay == Some(
            sat_deadline(now, s.cooldown_ms),
        ),
{
}

/// A reply that wins the race yields exactly the delivered bytes for
/// decoding — never a timeout — and the cooldown is re-armed.
pub proof fn lemma_reply_wins_race(s: FWClient, data: Vec<u8>, now: u64)
    requires
        s.phase is Racing,
        event_allowed(s.phase, s.timer.delay, (Event::RaceReply { data, now })),
    ensures
        step_spec(s, (Event::RaceReply { data, now })).action == Action::Finish(
            Outcome::Replied(data),
        ),
        step_spec(s, (Event::RaceReply { data, now })).phase is Idle,
        step_spec(s, (Event::RaceReply { data, now })).delay == Some(
            sat_deadline(now, s.cooldown_ms),
        ),
{
}

/// The timeout cannot win strictly before the armed deadline: an earlier
/// timeout event is not an allowed step, so a reply delivered strictly before
/// the deadline is never answered with a timeout.
pub proof fn lemma_no_early_timeout(s: FWClient, now: u64)
    requires
        s.phase is Racing,
        now < s.phase->Racing_deadline,
    ensures
        !event_allowed(s.phase, s.timer.delay, (Event::RaceTimeout { now })),
{
}

/// A timeout is reported at — never before — the armed deadline, as the
/// timeout error, and the cooldown is re-armed afterward regardless.
pub proof fn lemma_timeout_at_deadline(s: FWClient, now: u64)
    requires
        s.phase is Racing,
        event_allowed(s.phase, s.timer.delay, (Event::RaceTimeout { now })),
    ensures
        now >= s.phase->Racing_deadline,
        step_spec(s, (Event::RaceTimeout { now })).action == Action::Finish(
            Outcome::Failed(Error::Timeout),
        ),
        step_spec(s, (Event::RaceTimeout { now })).phase is Idle,
        step_spec(s, (Event::RaceTimeout { now })).delay == Some(
            sat_deadline(now, s.cooldown_ms),
        ),
{
}

/// Two successive executions are separated by at least the cooldown interval,
/// measured from the end of the first one's transmission: once a client that
/// satisfies its invariant is past the cooldown wait and about to transmit,
/// the clock reading taken at the end of that wait lies at or after the
/// instant the cooldown was armed for — and so, where the clock's range
/// allows, at least the full interval after the previous transmission end.
pub proof fn lemma_cooldown_separates_transmissions(s: FWClient, t: u64)
    requires
        client_inv(s),
        s.last_send_end@ == Some(t),
        (s.phase is Sending || s.phase is Subscribing),
    ensures
        (s.phase matches Phase::Sending { cooldown_over, .. } ==> cooldown_over >= sat_deadline(
            t,
            s.cooldown_ms,
        )),
        (s.phase matches Phase::Subscribing { cooldown_over, .. } ==> cooldown_over
            >= sat_deadline(t, s.cooldown_ms)),
        (s.phase matches Phase::Sending { cooldown_over, .. } ==> (t + ticks_of_ms(s.cooldown_ms)
            <= u64::MAX ==> cooldown_over >= t + ticks_of_ms(s.cooldown_ms))),
{
}

/// A transmission failure short-circuits: the write error is returned at
/// once, no race or decode follows, neither the cooldown nor the record of
/// the last transmission changes, and the client is ready for the next call.
pub proof fn lemma_write_failure_short_circuits(s: FWClient, now: u64)
    requires
        s.phase is Sending,
    ensures
        event_allowed(s.phase, s.timer.delay, (Event::WriteResult { ok: false, now })),
        step_spec(s, (Event::WriteResult { ok: false, now })).action == Action::Finish(
            Outcome::Failed(Error::Write),
        ),
        step_spec(s, (Event::WriteResult { ok: false, now })).phase is Idle,
        step_spec(s, (Event::WriteResult { ok: false, now })).delay == s.timer.delay,
        step_spec(s, (Event::WriteResult { ok: false, now })).last == s.last_send_end@,
{
}

/// Subscribe before send: the machine hands out a transmit action only for a
/// command that expects no reply, or from the subscribing phase — that is,
/// only once the subscription that will catch the reply has been opened.
pub proof fn lemma_subscribe_before_transmit(s: FWClient, ev: Event)
    requires
        event_allowed(s.phase, s.timer.delay, ev),
        step_spec(s, ev).action is Transmit,
    ensures
        s.phase is Subscribing || (s.phase matches Phase::AwaitCooldown {
            expects_response,
            ..
        } && !expects_response),
{
}

/// The client invariant holds in every state a run of allowed events reaches.
pub proof fn lemma_inv_along_run(st: CoreState, cooldown_ms: u64, evs: Seq<Event>)
    requires
        inv_parts(st.phase, st.delay, st.last, cooldown_ms),
        run_allowed(st, cooldown_ms, evs),
    ensures
        inv_parts(
            run(st, cooldown_ms, evs).phase,
            run(st, cooldown_ms, evs).delay,
            run(st, cooldown_ms, evs).last,
            cooldown_ms,
        ),
    decreases evs.len(),
{
    if evs.len() > 0 {
        lemma_step_preserves_inv(st.phase, st.delay, st.last, cooldown_ms, evs[0]);
        lemma_inv_along_run(next_state(st, cooldown_ms, evs[0]), cooldown_ms, evs.drop_first());
    }
}

/// Cooldown separation along whole histories: whenever a run of allowed
/// events from a fresh client ends about to transmit, the clock reading taken
/// at the end of the cooldown wait lies at least the armed cooldown after the
/// end of the previous successful transmission.
pub proof fn lemma_cooldown_separation_along_run(cooldown_ms: u64, evs: Seq<Event>, t: u64)
    requires
        run_allowed(fresh_state(), cooldown_ms, evs),
        run(fresh_state(), cooldown_ms, evs).last == Some(t),
    ensures
        (run(fresh_state(), cooldown_ms, evs).phase matches Phase::Sending { cooldown_over, .. }
            ==> cooldown_over >= sat_deadline(t, cooldown_ms)),
        (run(fresh_state(), cooldown_ms, evs).phase matches Phase::Subscribing {
            cooldown_over,
            ..
        } ==> cooldown_over >= sat_deadline(t, cooldown_ms)),
{
    lemma_inv_along_run(fresh_state(), cooldown_ms, evs);
}

/// Exactly one winner: once either race event has been consumed the client is
/// idle, and no further race event is an allowed step — a late loser can have
/// no observable effect.
pub proof fn lemma_race_single_winner(s: FWClient, ev: Event, late: Event)
    requires
        s.phase is Racing,
        event_allowed(s.phase, s.timer.delay, ev),
        (ev is RaceReply || ev is RaceTimeout),
        (late is RaceReply || late is RaceTimeout),
    ensures
        step_spec(s, ev).phase is Idle,
        !event_allowed(step_spec(s, ev).phase, step_spec(s, ev).delay, late),
{
}

} // verus!
