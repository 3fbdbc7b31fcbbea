use atat::timer::{deadline_after, Timer};

#[test]
fn new_timer_is_unarmed() {
    let t = Timer::new();
    assert_eq!(t.pending_deadline(), None);
}

#[test]
fn arming_computes_now_plus_delay_in_ticks() {
    let mut t = Timer::new();
    t.start_delay(5, 10);
    assert_eq!(t.pending_deadline(), Some(10_005));
}

#[test]
fn arming_overwrites_the_previous_instant() {
    let mut t = Timer::new();
    t.start_delay(0, 50);
    t.start_delay(100, 10);
    assert_eq!(t.pending_deadline(), Some(10_100));
}

#[test]
fn reading_the_deadline_does_not_clear_it() {
    let mut t = Timer::new();
    t.start_delay(0, 1);
    assert_eq!(t.pending_deadline(), Some(1_000));
    assert_eq!(t.pending_deadline(), Some(1_000));
}

#[test]
fn arming_saturates_instead_of_wrapping() {
    let mut t = Timer::new();
    t.start_delay(u64::MAX - 5, 1);
    assert_eq!(t.pending_deadline(), Some(u64::MAX));
}

#[test]
fn huge_delays_saturate_the_tick_conversion() {
    let mut t = Timer::new();
    t.start_delay(0, u64::MAX);
    assert_eq!(t.pending_deadline(), Some(u64::MAX));
}

#[test]
fn deadline_after_exact_values() {
    assert_eq!(deadline_after(0, 0), 0);
    assert_eq!(deadline_after(7, 3), 3_007);
    assert_eq!(deadline_after(u64::MAX, 0), u64::MAX);
    assert_eq!(deadline_after(u64::MAX, 1), u64::MAX);
    assert_eq!(deadline_after(1_000, u64::MAX / 1_000), u64::MAX);
}
