//! The waits of the run loop, polled with times chosen by hand.

use servo_scraper::navigation::{timeout_unless, LoadPhase, LoadWait};
use servo_scraper::run_loop::{
    Deadline, FrameWait, IdleWait, NetworkIdleWait, SpinFor, SpinUntil, Step,
};
use servo_scraper::{PageError, ScraperEventLoop};
use std::time::{Duration, Instant};

const SECOND: u64 = 1_000_000_000;
const MILLI: u64 = 1_000_000;

#[test]
fn deadlines_are_exact() {
    assert_eq!(Deadline::after_nanos(5, 7).at, 12);
    assert_eq!(Deadline::after_millis(5, 200).at, 200_000_005);
    assert_eq!(Deadline::after_secs(5, 30).at, 30_000_000_005);
    assert_eq!(
        Deadline::after_secs(u64::MAX, u64::MAX).at,
        u64::MAX as u128 + u64::MAX as u128 * 1_000_000_000
    );
    let deadline = Deadline::after_secs(0, 1);
    assert!(!deadline.reached(SECOND - 1));
    assert!(deadline.reached(SECOND));
    assert!(deadline.reached(u64::MAX));
    assert!(Deadline::after_nanos(9, 0).reached(9));
}

#[test]
fn a_timeout_too_long_to_pass_never_passes() {
    let wait = SpinUntil::start(1, u64::MAX);
    assert_eq!(wait.poll(false, u64::MAX), Step::Pump);
    assert_eq!(wait.poll(true, u64::MAX), Step::Finished(true));
}

#[test]
fn spin_until_looks_at_the_condition_first() {
    let wait = SpinUntil::start(100, 2);
    assert_eq!(wait.poll(false, 100), Step::Pump);
    assert_eq!(wait.poll(false, 100 + 2 * SECOND - 1), Step::Pump);
    assert_eq!(wait.poll(false, 100 + 2 * SECOND), Step::Finished(false));
    assert_eq!(wait.poll(true, 100), Step::Finished(true));
    assert_eq!(wait.poll(true, 100 + 5 * SECOND), Step::Finished(true));
    let none = SpinUntil::start(100, 0);
    assert_eq!(none.poll(false, 100), Step::Finished(false));
    assert_eq!(none.poll(true, 100), Step::Finished(true));
}

#[test]
fn spin_for_ends_on_its_deadline() {
    let zero = SpinFor::start(42, 0);
    assert_eq!(zero.poll(42), Step::Finished(true));
    let wait = SpinFor::start(42, 10);
    assert_eq!(wait.poll(42), Step::Pump);
    assert_eq!(wait.poll(51), Step::Pump);
    assert_eq!(wait.poll(52), Step::Finished(true));
}

#[test]
fn frame_wait_ends_on_any_change_of_the_counter() {
    let wait = FrameWait::start(0, 10, 2 * SECOND);
    assert_eq!(wait.poll(10, 0), Step::Pump);
    assert_eq!(wait.poll(11, 1), Step::Finished(true));
    assert_eq!(wait.poll(9, 1), Step::Finished(true));
    assert_eq!(wait.poll(11, 3 * SECOND), Step::Finished(true));
    assert_eq!(wait.poll(10, 2 * SECOND - 1), Step::Pump);
    assert_eq!(wait.poll(10, 2 * SECOND), Step::Finished(false));
}

#[test]
fn idle_wait_rolls_its_deadline_on_each_frame() {
    let mut wait = IdleWait::start(0, 0, 500 * MILLI, 30);
    assert!(!wait.observe(0, 100 * MILLI));
    assert!(!wait.observe(1, 400 * MILLI));
    assert_eq!(wait.idle_deadline.at, (900 * MILLI) as u128);
    assert!(!wait.observe(1, 899 * MILLI));
    assert!(!wait.observe(2, 899 * MILLI));
    assert_eq!(wait.idle_deadline.at, (1399 * MILLI) as u128);
    assert!(wait.observe(2, 1399 * MILLI));
}

#[test]
fn idle_wait_without_frames_ends_after_the_quiet_time() {
    let mut wait = IdleWait::start(10, 7, 500 * MILLI, 30);
    assert!(!wait.observe(7, 10 + 500 * MILLI - 1));
    assert!(wait.observe(7, 10 + 500 * MILLI));
}

#[test]
fn idle_wait_ends_at_the_overall_deadline_whatever_the_page_paints() {
    let mut wait = IdleWait::start(0, 0, 500 * MILLI, 1);
    let mut now = 0;
    let mut frames = 0;
    let mut pumps = 0;
    loop {
        now += 100 * MILLI;
        frames += 1;
        pumps += 1;
        if wait.observe(frames, now) {
            break;
        }
    }
    assert_eq!(pumps, 10);
    assert_eq!(now, SECOND);
}

#[test]
fn idle_wait_with_no_quiet_time_ends_at_the_first_look() {
    let mut wait = IdleWait::start(0, 0, 0, 30);
    assert!(wait.observe(0, 1));
    let mut other = IdleWait::start(0, 0, 0, 30);
    assert!(other.observe(5, 1));
}

#[test]
fn network_idle_settles_or_times_out() {
    let mut wait = NetworkIdleWait::start(0, Some(5), 500, 2);
    assert_eq!(wait.observe(Some(5), 100 * MILLI), Step::Pump);
    assert_eq!(wait.observe(Some(150 * MILLI), 200 * MILLI), Step::Pump);
    assert_eq!(wait.idle_deadline.at, (700 * MILLI) as u128);
    assert_eq!(wait.observe(Some(150 * MILLI), 700 * MILLI), Step::Finished(true));

    let mut busy = NetworkIdleWait::start(0, Some(0), 500, 1);
    let mut now = 0;
    let step = loop {
        now += 100 * MILLI;
        match busy.observe(Some(now), now) {
            Step::Pump => {}
            done => break done,
        }
    };
    assert_eq!(step, Step::Finished(false));
    assert_eq!(now, SECOND);
}

#[test]
fn network_idle_prefers_settled_when_both_deadlines_are_reached() {
    let mut wait = NetworkIdleWait::start(0, None, 1000, 1);
    assert_eq!(wait.observe(None, SECOND), Step::Finished(true));
    let mut first = NetworkIdleWait::start(0, None, 1000, 1);
    assert_eq!(first.observe(Some(3), SECOND), Step::Finished(false));
}

#[test]
fn load_wait_without_settle_time_ends_with_the_load() {
    let mut wait = LoadWait::start(0, 30, 0);
    assert_eq!(wait.poll(false, 0, 0), Step::Pump);
    assert_eq!(wait.poll(false, 3, 29 * SECOND), Step::Pump);
    assert_eq!(wait.poll(true, 3, 29 * SECOND), Step::Finished(true));
    assert!(matches!(wait.phase, LoadPhase::Over(true)));
    assert_eq!(wait.poll(false, 9, 99 * SECOND), Step::Finished(true));
}

#[test]
fn load_wait_times_out_and_says_so() {
    let mut wait = LoadWait::start(0, 30, 2 * SECOND);
    assert_eq!(wait.poll(false, 0, 30 * SECOND - 1), Step::Pump);
    assert_eq!(wait.poll(false, 0, 30 * SECOND), Step::Finished(false));
    assert!(matches!(timeout_unless(false), Err(PageError::Timeout)));
    assert!(timeout_unless(true).is_ok());
}

#[test]
fn load_wait_settles_after_the_load() {
    let mut wait = LoadWait::start(0, 30, 500 * MILLI);
    assert_eq!(wait.poll(false, 0, 0), Step::Pump);
    assert_eq!(wait.poll(true, 4, SECOND), Step::Pump);
    assert!(matches!(wait.phase, LoadPhase::Settling(_)));
    assert_eq!(wait.poll(true, 5, SECOND + 100 * MILLI), Step::Pump);
    assert_eq!(wait.poll(true, 5, SECOND + 599 * MILLI), Step::Pump);
    assert_eq!(wait.poll(true, 5, SECOND + 600 * MILLI), Step::Finished(true));
}

#[test]
fn load_wait_stops_settling_at_the_timeout() {
    let mut wait = LoadWait::start(0, 1, 500 * MILLI);
    assert_eq!(wait.poll(true, 0, 100), Step::Pump);
    let mut now = 100;
    let mut frames = 0;
    loop {
        now += 200 * MILLI;
        frames += 1;
        if wait.poll(true, frames, now) != Step::Pump {
            break;
        }
    }
    assert_eq!(now, 100 + SECOND);
}

#[test]
fn sleep_returns_at_once_when_woken_and_after_the_slice_when_not() {
    let event_loop = ScraperEventLoop::new();
    let waker = event_loop.create_waker();

    waker.wake();
    let woken = Instant::now();
    for _ in 0..100 {
        event_loop.sleep();
    }
    assert!(woken.elapsed() < Duration::from_millis(250));

    event_loop.clear();
    let cleared = Instant::now();
    for _ in 0..4 {
        event_loop.sleep();
    }
    assert!(cleared.elapsed() >= Duration::from_millis(15));
}

#[test]
fn a_second_waker_wakes_the_same_loop() {
    let event_loop = ScraperEventLoop::new();
    let waker = event_loop.create_waker().duplicate();
    waker.wake();
    let start = Instant::now();
    for _ in 0..200 {
        event_loop.sleep();
    }
    assert!(start.elapsed() < Duration::from_millis(500));
}
