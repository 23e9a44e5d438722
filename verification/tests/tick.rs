use ascii_art::tick::{poll_timeout, tick_due, TICK_NANOS};

#[test]
fn a_tick_lasts_33_milliseconds() {
    assert_eq!(TICK_NANOS, 33_000_000);
}

#[test]
fn timeout_is_the_time_left_in_the_tick() {
    assert_eq!(poll_timeout(0), 33_000_000);
    assert_eq!(poll_timeout(1), 32_999_999);
    assert_eq!(poll_timeout(10_000_000), 23_000_000);
    assert_eq!(poll_timeout(32_999_999), 1);
}

#[test]
fn timeout_is_zero_once_the_tick_is_due() {
    assert_eq!(poll_timeout(33_000_000), 0);
    assert_eq!(poll_timeout(33_000_001), 0);
    assert_eq!(poll_timeout(u128::MAX), 0);
}

#[test]
fn tick_is_due_after_33_milliseconds() {
    assert!(!tick_due(0));
    assert!(!tick_due(32_999_999));
    assert!(tick_due(33_000_000));
    assert!(tick_due(u128::MAX));
}

#[test]
fn waiting_never_passes_the_deadline() {
    for elapsed in [0u128, 5, 1_000_000, 16_500_000, 32_999_999, 33_000_000, 40_000_000] {
        let timeout = poll_timeout(elapsed) as u128;
        assert!(elapsed + timeout <= 33_000_000u128.max(elapsed));
        assert!(tick_due(elapsed + timeout));
    }
}
