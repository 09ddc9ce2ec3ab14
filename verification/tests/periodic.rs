use smart_compass::clock::MonotonicClock;
use smart_compass::periodic::PeriodicTrigger;

#[test]
fn new_trigger_starts_at_clock_zero() {
    let trigger = PeriodicTrigger::new(500);
    assert_eq!(trigger.interval_ms(), 500);
    assert_eq!(trigger.last_fired_ms(), 0);
}

#[test]
fn fires_first_after_exactly_one_interval_of_ticks() {
    let mut clock = MonotonicClock::new();
    let mut trigger = PeriodicTrigger::new(500);
    for _ in 0..499 {
        clock.tick();
        assert!(!trigger.ready(clock.now()));
    }
    clock.tick();
    assert_eq!(clock.now(), 500);
    assert!(trigger.ready(clock.now()));
    assert!(!trigger.ready(clock.now()));
    for _ in 0..499 {
        clock.tick();
        assert!(!trigger.ready(clock.now()));
    }
    clock.tick();
    assert_eq!(clock.now(), 1000);
    assert!(trigger.ready(clock.now()));
    assert_eq!(trigger.last_fired_ms(), 1000);
}

#[test]
fn fires_after_five_hundred_ticks_without_polling_in_between() {
    let mut clock = MonotonicClock::new();
    let mut trigger = PeriodicTrigger::new(500);
    for _ in 0..500 {
        clock.tick();
    }
    assert!(trigger.ready(clock.now()));
    assert!(!trigger.ready(clock.now()));
    for _ in 0..500 {
        clock.tick();
    }
    assert!(trigger.ready(clock.now()));
}

#[test]
fn stays_quiet_for_an_interval_across_the_wraparound() {
    let mut clock = MonotonicClock::starting_at(u32::MAX - 200);
    let mut trigger = PeriodicTrigger::new(500);
    assert!(trigger.ready(clock.now()));
    assert_eq!(trigger.last_fired_ms(), u32::MAX - 200);
    for _ in 0..499 {
        clock.tick();
        assert!(!trigger.ready(clock.now()));
    }
    assert_eq!(clock.now(), 298);
    clock.tick();
    assert_eq!(clock.now(), 299);
    assert!(trigger.ready(clock.now()));
    assert_eq!(trigger.last_fired_ms(), 299);
    assert!(!trigger.ready(clock.now()));
}

#[test]
fn fires_once_in_each_window_of_polls() {
    let mut clock = MonotonicClock::starting_at(u32::MAX - 1234);
    let mut trigger = PeriodicTrigger::new(500);
    assert!(trigger.ready(clock.now()));
    let mut fired: u32 = 0;
    for _ in 0..5000 {
        clock.tick();
        if trigger.ready(clock.now()) {
            fired += 1;
        }
    }
    assert_eq!(fired, 10);
}

#[test]
fn missed_intervals_are_not_queued() {
    let mut trigger = PeriodicTrigger::new(500);
    assert!(trigger.ready(1700));
    assert_eq!(trigger.last_fired_ms(), 1700);
    assert!(!trigger.ready(1700));
    assert!(!trigger.ready(2199));
    assert!(trigger.ready(2200));
}

#[test]
fn a_poll_that_does_not_fire_changes_nothing() {
    let mut trigger = PeriodicTrigger::new(500);
    assert!(!trigger.ready(499));
    assert_eq!(trigger.last_fired_ms(), 0);
    assert_eq!(trigger.interval_ms(), 500);
}

#[test]
fn zero_interval_is_always_ready() {
    let mut trigger = PeriodicTrigger::new(0);
    assert!(trigger.ready(0));
    assert!(trigger.ready(0));
    assert!(trigger.ready(7));
    assert!(trigger.ready(7));
    assert!(trigger.ready(u32::MAX));
    assert!(trigger.ready(0));
    assert_eq!(trigger.last_fired_ms(), 0);
}

#[test]
fn elapsed_time_is_taken_modulo_the_counter_range() {
    let mut trigger = PeriodicTrigger::new(10);
    assert!(trigger.ready(u32::MAX - 4));
    assert!(!trigger.ready(4));
    assert!(trigger.ready(5));
}

#[test]
fn largest_interval_fires_only_one_tick_before_a_full_round() {
    let mut trigger = PeriodicTrigger::new(u32::MAX);
    assert!(!trigger.ready(u32::MAX - 1));
    assert!(trigger.ready(u32::MAX));
    assert!(!trigger.ready(u32::MAX));
    assert!(!trigger.ready(0));
    assert!(trigger.ready(u32::MAX - 1));
}
