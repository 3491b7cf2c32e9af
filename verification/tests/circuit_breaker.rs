use ghtui::action::Action;
use ghtui::circuit_breaker::CircuitBreaker;

#[test]
fn fifty_dispatches_in_window_pass() {
    let mut breaker = CircuitBreaker::new();
    for i in 0..50u64 {
        let r = breaker.check_action(&Action::Refresh, i * 10);
        assert!(r.is_ok());
    }
}

#[test]
fn fifty_first_dispatch_in_window_trips() {
    let mut breaker = CircuitBreaker::new();
    for i in 0..50u64 {
        assert!(breaker.check_action(&Action::Refresh, i * 10).is_ok());
    }
    let r = breaker.check_action(&Action::Refresh, 500);
    let trip = r.unwrap_err();
    assert_eq!(trip.kind_name, "Refresh");
    assert_eq!(trip.count, 51);
}

#[test]
fn exempt_kinds_never_trip() {
    let mut breaker = CircuitBreaker::new();
    let exempt = [
        Action::Render,
        Action::Tick,
        Action::Up,
        Action::Down,
        Action::Left,
        Action::Right,
    ];
    for action in exempt.iter() {
        for i in 0..1000u64 {
            assert!(breaker.check_action(action, i).is_ok());
        }
    }
}

#[test]
fn stamps_age_out_of_the_window() {
    let mut breaker = CircuitBreaker::new();
    for _ in 0..50 {
        assert!(breaker.check_action(&Action::Refresh, 0).is_ok());
    }
    // three seconds later the window is empty again
    assert!(breaker.check_action(&Action::Refresh, 3000).is_ok());
}

#[test]
fn boundary_stamp_still_counts() {
    let mut breaker = CircuitBreaker::new();
    for _ in 0..50 {
        assert!(breaker.check_action(&Action::Refresh, 0).is_ok());
    }
    // exactly two seconds later the old stamps still count
    assert!(breaker.check_action(&Action::Refresh, 2000).is_err());
}

#[test]
fn excluded_action_is_skipped_and_can_return() {
    let mut breaker = CircuitBreaker::new();
    breaker.exclude_action(&Action::Refresh);
    for i in 0..1000u64 {
        assert!(breaker.check_action(&Action::Refresh, i).is_ok());
    }
    let mut breaker = CircuitBreaker::new();
    breaker.exclude_action(&Action::Refresh);
    breaker.include_action(&Action::Refresh);
    for _ in 0..50 {
        assert!(breaker.check_action(&Action::Refresh, 0).is_ok());
    }
    assert!(breaker.check_action(&Action::Refresh, 0).is_err());
}

#[test]
fn kinds_are_tracked_separately() {
    let mut breaker = CircuitBreaker::new();
    for _ in 0..50 {
        assert!(breaker.check_action(&Action::Refresh, 0).is_ok());
        assert!(breaker.check_action(&Action::Quit, 0).is_ok());
    }
    assert!(breaker.check_action(&Action::Refresh, 0).is_err());
}
