use atat::client::{Action, Error, Event, FWClient, Outcome, Phase};
use atat::timer::Timer;

// A no-reply command's decoder accepts an empty buffer; a reply-expecting
// one here accepts exactly "OK" and rejects everything else.
fn decode(data: &[u8]) -> Result<(), Error> {
    if data == b"OK" || data.is_empty() {
        Ok(())
    } else {
        Err(Error::Decode)
    }
}

fn client(cooldown_ms: u64) -> FWClient {
    FWClient::new(Timer::new(), cooldown_ms)
}

#[test]
fn no_reply_command_succeeds_without_touching_the_source() {
    let mut c = client(10);
    let a = c.step(Event::Begin { expects_response: false, max_wait_ms: 0 });
    assert!(matches!(a, Action::AwaitCooldown { deadline: None }));
    let a = c.step(Event::CooldownDone { now: 0 });
    assert!(matches!(a, Action::Transmit));
    let a = c.step(Event::WriteResult { ok: true, now: 0 });
    match a {
        Action::Finish(Outcome::NoReply) => assert_eq!(decode(&[]), Ok(())),
        other => panic!("expected the no-reply outcome, got {:?}", other),
    }
}

#[test]
fn second_command_waits_out_the_cooldown() {
    // Write takes no time; the cooldown interval is 10 ms = 10_000 ticks.
    let mut c = client(10);
    c.step(Event::Begin { expects_response: false, max_wait_ms: 0 });
    c.step(Event::CooldownDone { now: 0 });
    let a = c.step(Event::WriteResult { ok: true, now: 0 });
    assert!(matches!(a, Action::Finish(Outcome::NoReply)));

    // A second command issued one tick later finds the cooldown armed at
    // 10_000 and so suspends 9_999 more ticks before it may transmit.
    let a = c.step(Event::Begin { expects_response: false, max_wait_ms: 0 });
    match a {
        Action::AwaitCooldown { deadline: Some(d) } => {
            assert_eq!(d, 10_000);
            assert_eq!(d - 1, 9_999);
        },
        other => panic!("expected an armed cooldown, got {:?}", other),
    }
    let a = c.step(Event::CooldownDone { now: 10_000 });
    assert!(matches!(a, Action::Transmit));
}

#[test]
fn reply_before_the_deadline_is_decoded() {
    // maxWait is 100 ms; the reply arrives at t = 50 ms.
    let mut c = client(10);
    let a = c.step(Event::Begin { expects_response: true, max_wait_ms: 100 });
    assert!(matches!(a, Action::AwaitCooldown { deadline: None }));
    let a = c.step(Event::CooldownDone { now: 0 });
    assert!(matches!(a, Action::Subscribe));
    let a = c.step(Event::SubscribeResult { ok: true });
    assert!(matches!(a, Action::Transmit));
    let a = c.step(Event::WriteResult { ok: true, now: 0 });
    assert!(matches!(a, Action::Race { deadline: 100_000 }));
    let a = c.step(Event::RaceReply { data: b"OK".to_vec(), now: 50_000 });
    match a {
        Action::Finish(Outcome::Replied(data)) => {
            assert_eq!(data, b"OK".to_vec());
            assert_eq!(decode(&data), Ok(()));
        },
        other => panic!("expected the reply, got {:?}", other),
    }
}

#[test]
fn timeout_fires_at_the_deadline_and_cooldown_is_still_armed() {
    // maxWait is 100 ms and no reply ever arrives: the timeout is reported
    // at t = 100 ms, and the cooldown is re-armed afterward regardless.
    let mut c = client(10);
    c.step(Event::Begin { expects_response: true, max_wait_ms: 100 });
    c.step(Event::CooldownDone { now: 0 });
    c.step(Event::SubscribeResult { ok: true });
    let a = c.step(Event::WriteResult { ok: true, now: 0 });
    assert!(matches!(a, Action::Race { deadline: 100_000 }));
    let a = c.step(Event::RaceTimeout { now: 100_000 });
    assert!(matches!(a, Action::Finish(Outcome::Failed(Error::Timeout))));

    let a = c.step(Event::Begin { expects_response: false, max_wait_ms: 0 });
    assert!(matches!(a, Action::AwaitCooldown { deadline: Some(110_000) }));
}

#[test]
fn write_failure_short_circuits() {
    let mut c = client(10);
    c.step(Event::Begin { expects_response: true, max_wait_ms: 100 });
    c.step(Event::CooldownDone { now: 0 });
    c.step(Event::SubscribeResult { ok: true });
    let a = c.step(Event::WriteResult { ok: false, now: 3 });
    assert!(matches!(a, Action::Finish(Outcome::Failed(Error::Write))));

    // No transmission happened, so no cooldown was armed.
    let a = c.step(Event::Begin { expects_response: false, max_wait_ms: 0 });
    assert!(matches!(a, Action::AwaitCooldown { deadline: None }));
}

#[test]
fn refused_subscription_is_a_distinct_failure() {
    let mut c = client(10);
    c.step(Event::Begin { expects_response: true, max_wait_ms: 100 });
    c.step(Event::CooldownDone { now: 0 });
    let a = c.step(Event::SubscribeResult { ok: false });
    assert!(matches!(a, Action::Finish(Outcome::Failed(Error::Subscription))));
}

#[test]
fn subscription_is_opened_before_the_transmission() {
    let mut c = client(10);
    let mut subscribed_at: Option<usize> = None;
    let mut transmitted_at: Option<usize> = None;
    let script = [
        Event::Begin { expects_response: true, max_wait_ms: 100 },
        Event::CooldownDone { now: 0 },
        Event::SubscribeResult { ok: true },
        Event::WriteResult { ok: true, now: 0 },
    ];
    for (i, ev) in script.into_iter().enumerate() {
        match c.step(ev) {
            Action::Subscribe => subscribed_at = Some(i),
            Action::Transmit => transmitted_at = Some(i),
            _ => {},
        }
    }
    assert!(subscribed_at.unwrap() < transmitted_at.unwrap());
}

#[test]
fn no_reply_command_never_subscribes() {
    let mut c = client(10);
    let script = [
        Event::Begin { expects_response: false, max_wait_ms: 0 },
        Event::CooldownDone { now: 0 },
        Event::WriteResult { ok: true, now: 0 },
    ];
    for ev in script {
        let a = c.step(ev);
        assert!(!matches!(a, Action::Subscribe));
        assert!(!matches!(a, Action::Race { .. }));
    }
}

#[test]
fn garbled_reply_is_a_decode_failure_not_a_timeout() {
    let mut c = client(10);
    c.step(Event::Begin { expects_response: true, max_wait_ms: 100 });
    c.step(Event::CooldownDone { now: 0 });
    c.step(Event::SubscribeResult { ok: true });
    c.step(Event::WriteResult { ok: true, now: 0 });
    let a = c.step(Event::RaceReply { data: b"garbage".to_vec(), now: 10 });
    match a {
        Action::Finish(Outcome::Replied(data)) => {
            let e = decode(&data).unwrap_err();
            assert_eq!(e, Error::Decode);
            assert_ne!(e, Error::Timeout);
        },
        other => panic!("expected a reply to decode, got {:?}", other),
    }
}

#[test]
fn cancelling_mid_race_keeps_the_cooldown() {
    let mut c = client(10);
    c.step(Event::Begin { expects_response: true, max_wait_ms: 100 });
    c.step(Event::CooldownDone { now: 0 });
    c.step(Event::SubscribeResult { ok: true });
    let a = c.step(Event::WriteResult { ok: true, now: 2_000 });
    assert!(matches!(a, Action::Race { deadline: 102_000 }));

    // The caller abandons the call mid-race: the client is ready again, and
    // the cooldown owed to the transmission that did happen is re-armed in
    // place of the race's deadline.
    c.cancel();
    assert!(matches!(c.phase, Phase::Idle));
    let a = c.step(Event::Begin { expects_response: false, max_wait_ms: 0 });
    assert!(matches!(a, Action::AwaitCooldown { deadline: Some(12_000) }));
}

#[test]
fn reply_path_rearms_the_cooldown_from_the_race_end() {
    let mut c = client(10);
    c.step(Event::Begin { expects_response: true, max_wait_ms: 100 });
    c.step(Event::CooldownDone { now: 0 });
    c.step(Event::SubscribeResult { ok: true });
    c.step(Event::WriteResult { ok: true, now: 0 });
    let a = c.step(Event::RaceReply { data: b"OK".to_vec(), now: 50_000 });
    assert!(matches!(a, Action::Finish(Outcome::Replied(_))));
    let a = c.step(Event::Begin { expects_response: false, max_wait_ms: 0 });
    assert!(matches!(a, Action::AwaitCooldown { deadline: Some(60_000) }));
}
