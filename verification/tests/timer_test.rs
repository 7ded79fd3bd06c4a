use buddytype::engine::timer::{create_timer, remaining_ms, start_timer, tick_timer};

// All instants and durations are in integral milliseconds; a missing limit
// means a count-up timer.

#[test]
fn creates_timer_with_time_limit() {
    let timer = create_timer(Some(30));
    assert!(timer.start_ms.is_none());
    assert_eq!(timer.elapsed_ms, 0);
    assert_eq!(timer.limit_ms, Some(30_000));
    assert!(!timer.running);
    assert!(!timer.expired);
}

#[test]
fn creates_count_up_timer_when_limit_is_none() {
    let timer = create_timer(None);
    assert!(timer.limit_ms.is_none());
    assert!(!timer.running);
    assert!(!timer.expired);
}

#[test]
fn handles_zero_limit() {
    let timer = create_timer(Some(0));
    // 0 is treated like no limit at all
    assert!(timer.limit_ms.is_none());
}

#[test]
fn start_sets_running_and_records_start_time() {
    let timer = create_timer(Some(30));
    let now: u64 = 1_000_000;
    let started = start_timer(timer, now);
    assert!(started.running);
    assert!(started.start_ms.is_some());
}

#[test]
fn start_preserves_other_state() {
    let timer = create_timer(Some(60));
    let now: u64 = 1_000_000;
    let started = start_timer(timer, now);
    assert_eq!(started.limit_ms, Some(60_000));
    assert_eq!(started.elapsed_ms, 0);
    assert!(!started.expired);
}

#[test]
fn tick_returns_unchanged_if_not_running() {
    let timer = create_timer(Some(30));
    let before = timer.elapsed_ms;
    let ticked = tick_timer(timer, 1_000_000);
    assert_eq!(ticked.elapsed_ms, before);
}

#[test]
fn tick_returns_unchanged_if_start_time_is_none() {
    let mut timer = create_timer(Some(30));
    timer.running = true;
    let before = timer.elapsed_ms;
    let ticked = tick_timer(timer, 1_000_000);
    assert_eq!(ticked.elapsed_ms, before);
}

#[test]
fn tick_updates_elapsed_time() {
    let timer = create_timer(Some(30));
    let start: u64 = 1_000_000;
    let started = start_timer(timer, start);

    // 5 seconds later
    let ticked = tick_timer(started, start + 5_000);

    assert_eq!(ticked.elapsed_ms, 5_000);
    assert!(ticked.running);
    assert!(!ticked.expired);
}

#[test]
fn tick_expires_when_elapsed_exceeds_limit() {
    let timer = create_timer(Some(1)); // 1 second limit
    let start: u64 = 1_000_000;
    let started = start_timer(timer, start);

    let ticked = tick_timer(started, start + 1_500);

    assert!(ticked.expired);
    assert!(!ticked.running);
}

#[test]
fn tick_does_not_expire_before_limit() {
    let timer = create_timer(Some(1));
    let start: u64 = 1_000_000;
    let started = start_timer(timer, start);

    let ticked = tick_timer(started, start + 500);

    assert!(!ticked.expired);
    assert!(ticked.running);
}

#[test]
fn tick_never_expires_for_count_up_timer() {
    let timer = create_timer(None);
    let start: u64 = 1_000_000;
    let started = start_timer(timer, start);

    let ticked = tick_timer(started, start + 999_000);

    assert!(!ticked.expired);
    assert!(ticked.running);
}

#[test]
fn get_elapsed_returns_zero_for_fresh_timer() {
    let timer = create_timer(Some(30));
    assert_eq!(timer.elapsed_ms, 0);
}

#[test]
fn get_remaining_returns_infinity_for_count_up() {
    let timer = create_timer(None);
    assert!(remaining_ms(&timer).is_none());
}

#[test]
fn get_remaining_returns_full_time_for_fresh_timer() {
    let timer = create_timer(Some(30));
    assert_eq!(remaining_ms(&timer), Some(30_000));
}

#[test]
fn get_remaining_calculates_correctly() {
    let mut timer = create_timer(Some(30));
    timer.elapsed_ms = 10_000;
    assert_eq!(remaining_ms(&timer), Some(20_000));
}

#[test]
fn get_remaining_clamps_to_zero() {
    let mut timer = create_timer(Some(30));
    timer.elapsed_ms = 35_000;
    assert_eq!(remaining_ms(&timer), Some(0));
}

#[test]
fn tick_before_start_instant_reads_zero() {
    let timer = create_timer(Some(30));
    let started = start_timer(timer, 10_000);
    let ticked = tick_timer(started, 9_000);
    assert_eq!(ticked.elapsed_ms, 0);
    assert!(ticked.running);
}
