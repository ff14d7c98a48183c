use chat_worker::ticker::Ticker;
use std::time::{Duration, Instant};

#[test]
fn poll_decision_at_given_readings() {
    let mut t = Ticker::new(50);
    assert!(!t.poll_at(49));
    assert_eq!(t.ticked, 0);
    assert!(t.poll_at(50));
    assert_eq!(t.ticked, 1);
    assert_eq!(t.last_tick, 50);
    // Declined polls have no side effect.
    assert!(!t.poll_at(99));
    assert_eq!(t.last_tick, 50);
    assert!(t.poll_at(100));
    assert_eq!(t.ticked, 2);
}

#[test]
fn tick_completions_are_a_period_apart() {
    let mut t = Ticker::new(50);
    // Early: completes at the period boundary.
    assert_eq!(t.tick_at(10), 50);
    // Exactly due: completes immediately.
    assert_eq!(t.tick_at(50), 100);
    // Overrun: completes immediately, with no catch-up burst.
    assert_eq!(t.tick_at(237), 237);
    assert_eq!(t.tick_at(240), 287);
    assert_eq!(t.ticked, 4);
}

#[test]
fn poll_respects_wall_clock_period() {
    // Over a run of wall-clock duration D with period P, the ticker
    // grants no more than floor(D/P) + 1 ticks.
    let period_ms = 40u64;
    let mut t = Ticker::new(period_ms);
    let start = Instant::now();
    let mut granted = 0u64;
    while start.elapsed() < Duration::from_millis(150) {
        if t.poll() {
            granted += 1;
        }
    }
    let elapsed_ms = start.elapsed().as_millis() as u64;
    assert!(granted <= elapsed_ms / period_ms + 1);
}

#[test]
fn first_poll_waits_a_full_period() {
    let mut t = Ticker::new(5_000);
    assert!(!t.poll());
}
