use infection_sim::clock::{Clock, NANOS_PER_DAY, UNIT_SPEED};

#[test]
fn new_clock_starts_at_day_zero() {
    let c = Clock::new();
    assert_eq!(c, Clock { day: 0, timer_nanos: 0 });
}

#[test]
fn advance_below_threshold_leaves_day() {
    let mut c = Clock::new();
    let crossed = c.advance(999_999, UNIT_SPEED);
    assert_eq!(crossed, 0);
    assert_eq!(c.day, 0);
    assert_eq!(c.timer_nanos, 999_999_000);
}

#[test]
fn advance_reaching_threshold_crosses_one_day() {
    let mut c = Clock { day: 3, timer_nanos: 999_999_000 };
    let crossed = c.advance(1, UNIT_SPEED);
    assert_eq!(crossed, 1);
    assert_eq!(c, Clock { day: 4, timer_nanos: 0 });
}

#[test]
fn advance_counts_every_boundary_of_a_large_step() {
    let mut c = Clock { day: 10, timer_nanos: 250_000_000 };
    // 2.5 wall seconds at speed 5.0 are 12.5 days.
    let crossed = c.advance(2_500_000, 5_000);
    assert_eq!(crossed, 12);
    assert_eq!(c, Clock { day: 22, timer_nanos: 750_000_000 });
}

#[test]
fn advance_scales_by_speed() {
    let mut slow = Clock::new();
    assert_eq!(slow.advance(1_000_000, 500), 0);
    assert_eq!(slow.timer_nanos, NANOS_PER_DAY / 2);
    let mut fast = Clock::new();
    assert_eq!(fast.advance(1_000_000, 2_000), 2);
    assert_eq!(fast, Clock { day: 2, timer_nanos: 0 });
}

#[test]
fn advance_by_zero_changes_nothing() {
    let mut c = Clock { day: 8, timer_nanos: 123 };
    assert_eq!(c.advance(0, 3_000), 0);
    assert_eq!(c, Clock { day: 8, timer_nanos: 123 });
}

#[test]
fn advance_is_additive() {
    let splits: [(u64, u64); 4] = [(1, 1), (400_000, 700_000), (3_333_333, 1), (999_999, 9_000_001)];
    for (a, b) in splits {
        for speed in [1u32, 500, 1_000, 4_999] {
            let mut twice = Clock { day: 2, timer_nanos: 600_000_000 };
            let first = twice.advance(a, speed);
            let second = twice.advance(b, speed);
            let mut once = Clock { day: 2, timer_nanos: 600_000_000 };
            let whole = once.advance(a + b, speed);
            assert_eq!(twice, once);
            assert_eq!(first + second, whole);
        }
    }
}

#[test]
fn fits_tells_when_the_day_counter_would_overflow() {
    let c = Clock { day: u32::MAX - 1, timer_nanos: 0 };
    assert!(c.fits(1_000_000, UNIT_SPEED, u32::MAX));
    assert!(!c.fits(2_000_000, UNIT_SPEED, u32::MAX));
    assert!(!c.fits(1_000_000, UNIT_SPEED, u32::MAX - 1));
    assert!(c.fits(u64::MAX, 0, u32::MAX - 1));
    let fresh = Clock::new();
    assert!(!fresh.fits(u64::MAX, u32::MAX, u32::MAX));
}

#[test]
fn default_clock_is_a_new_clock() {
    assert_eq!(Clock::default(), Clock { day: 0, timer_nanos: 0 });
}
