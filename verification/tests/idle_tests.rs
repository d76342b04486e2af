use sshhub::idle::{compute_lobby_kick, countdown_overflows, kick_warning_secs, secs_to_nanos, NANOS_PER_SEC};

const S: u128 = NANOS_PER_SEC;

#[test]
fn countdown_inside_the_window() {
    assert_eq!(kick_warning_secs(0, 55 * S, 60 * S, 10 * S), Some(5));
}

#[test]
fn countdown_rounds_up_a_started_second() {
    assert_eq!(kick_warning_secs(0, 55 * S + S / 2, 60 * S, 10 * S), Some(5));
    assert_eq!(kick_warning_secs(0, 60 * S - 1, 60 * S, 10 * S), Some(1));
}

#[test]
fn no_countdown_before_the_window() {
    assert_eq!(kick_warning_secs(0, 50 * S, 60 * S, 10 * S), None);
    assert_eq!(kick_warning_secs(0, 10 * S, 60 * S, 10 * S), None);
}

#[test]
fn no_countdown_at_or_after_the_deadline() {
    assert_eq!(kick_warning_secs(0, 60 * S, 60 * S, 10 * S), None);
    assert_eq!(kick_warning_secs(5 * S, 100 * S, 60 * S, 10 * S), None);
}

#[test]
fn time_before_last_input_counts_as_no_time() {
    assert_eq!(kick_warning_secs(10 * S, 5 * S, 60 * S, 10 * S), None);
    assert_eq!(kick_warning_secs(10 * S, 5 * S, 60 * S, 100 * S), Some(60));
}

#[test]
fn countdown_measured_from_last_input() {
    assert_eq!(kick_warning_secs(100 * S, 153 * S, 60 * S, 10 * S), Some(7));
}

#[test]
fn countdown_ticks_down_on_concrete_ticks() {
    let mut prev = u32::MAX;
    let mut t = 50 * S;
    while t < 60 * S {
        if let Some(s) = kick_warning_secs(0, t, 60 * S, 10 * S) {
            assert!(s >= 1);
            assert!(s <= prev);
            prev = s;
        }
        t += S / 3;
    }
    assert_eq!(prev, 1);
}

#[test]
fn lobby_kick_defaults_to_sixty_seconds() {
    assert_eq!(compute_lobby_kick(&[]), 60);
}

#[test]
fn lobby_kick_takes_the_strictest_game() {
    assert_eq!(compute_lobby_kick(&[120, 45, 300]), 45);
}

#[test]
fn lobby_kick_is_at_least_thirty_seconds() {
    assert_eq!(compute_lobby_kick(&[10, 500]), 30);
    assert_eq!(compute_lobby_kick(&[30]), 30);
}

#[test]
fn seconds_to_nanoseconds() {
    assert_eq!(secs_to_nanos(2), 2_000_000_000);
    assert_eq!(secs_to_nanos(u64::MAX), (u64::MAX as u128) * 1_000_000_000);
}

#[test]
fn countdown_seconds_are_truncated_to_32_bits() {
    let kick = (1u128 << 32) * S + S / 2;
    assert_eq!(kick_warning_secs(0, 0, kick, kick + 1), Some(1));
}

#[test]
fn countdown_overflow_is_detected() {
    let kick = (u32::MAX as u128) * S + 1;
    assert!(countdown_overflows(0, 0, kick, kick + 1));
    assert!(!countdown_overflows(0, 0, kick - 1, kick + 1));
    assert!(!countdown_overflows(0, 0, kick, kick));
    assert!(!countdown_overflows(0, 55 * S, 60 * S, 10 * S));
}
