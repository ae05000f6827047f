use connected_garage_controller::ranging::{
    classify_distances, distance_um, echo_wait_expired, is_plausible, DoorState,
    RangingSession, ECHO_TIMEOUT_NS, SAMPLE_COUNT,
};

#[test]
fn echo_width_converts_at_half_speed_of_sound() {
    // 1 ms of echo: 0.001 s * 17150 cm/s = 17.15 cm
    assert_eq!(distance_um(1_000_000), 171_500);
    assert_eq!(distance_um(0), 0);
    // 583 us: 9.99845 cm, truncated to whole micrometres
    assert_eq!(distance_um(583_000), 99_984);
    assert_eq!(distance_um(u64::MAX), ((u64::MAX as u128) * 17150 / 100_000) as u64);
}

#[test]
fn plausible_band_is_open_at_both_ends() {
    assert!(!is_plausible(20_000));
    assert!(is_plausible(20_001));
    assert!(is_plausible(749_999));
    assert!(!is_plausible(750_000));
    assert!(!is_plausible(0));
}

#[test]
fn echo_wait_times_out_after_five_seconds() {
    assert!(!echo_wait_expired(ECHO_TIMEOUT_NS));
    assert!(echo_wait_expired(ECHO_TIMEOUT_NS + 1));
    assert!(!echo_wait_expired(0));
}

#[test]
fn left_door_scenario_is_closed() {
    // 9, 10, 9.5, 80 and 9 cm; 80 cm lies outside the band and is discarded,
    // the mean of the rest is 9.375 cm, under the 12 cm threshold
    let d = vec![90_000, 100_000, 95_000, 800_000, 90_000];
    assert_eq!(classify_distances(&d, 120_000), DoorState::Closed);
    // The mean is 93 750 um: strictly above 93 749, not above 93 750
    assert_eq!(classify_distances(&d, 93_749), DoorState::Open);
    assert_eq!(classify_distances(&d, 93_750), DoorState::Closed);
}

#[test]
fn sixty_centimetres_lies_inside_the_band() {
    // 60 cm is below the 75 cm limit, so it counts: the mean is 19.5 cm
    assert!(is_plausible(600_000));
    let d = vec![90_000, 100_000, 95_000, 600_000, 90_000];
    assert_eq!(classify_distances(&d, 120_000), DoorState::Open);
    assert_eq!(classify_distances(&d, 195_000), DoorState::Closed);
    assert_eq!(classify_distances(&d, 194_999), DoorState::Open);
}

#[test]
fn out_of_band_samples_do_not_move_the_mean() {
    let with_noise = vec![700_000, 10_000, 130_000, 900_000, 20_000, 750_000];
    let clean = vec![700_000, 130_000];
    for t in [100_000, 414_999, 415_000, 800_000] {
        assert_eq!(classify_distances(&with_noise, t), classify_distances(&clean, t));
    }
    assert_eq!(classify_distances(&with_noise, 414_999), DoorState::Open);
    assert_eq!(classify_distances(&with_noise, 415_000), DoorState::Closed);
}

#[test]
fn no_valid_sample_is_unknown() {
    assert_eq!(classify_distances(&vec![], 120_000), DoorState::Unknown);
    assert_eq!(classify_distances(&vec![0, 20_000, 750_000, 5_000_000], 120_000), DoorState::Unknown);
}

#[test]
fn session_classifies_recorded_echoes() {
    let mut s = RangingSession::new(120_000);
    assert!(!s.is_complete());
    // 700 us echoes: 12.005 cm each, just above a 12 cm threshold
    for _ in 0..SAMPLE_COUNT - 1 {
        s.record_echo(Some(700_000));
    }
    assert!(!s.is_complete());
    s.record_echo(None);
    assert!(s.is_complete());
    assert_eq!(s.outcome(), DoorState::Open);
}

#[test]
fn session_with_only_timeouts_is_unknown() {
    let mut s = RangingSession::new(120_000);
    for _ in 0..SAMPLE_COUNT {
        s.record_echo(None);
    }
    assert!(s.is_complete());
    assert_eq!(s.outcome(), DoorState::Unknown);
}

#[test]
fn session_discards_implausible_echoes() {
    let mut s = RangingSession::new(120_000);
    // 100 us: 1.715 cm, too near; 5 ms: 85.75 cm, too far; 500 us: 8.575 cm
    s.record_echo(Some(100_000));
    s.record_echo(Some(5_000_000));
    s.record_echo(Some(500_000));
    assert_eq!(s.outcome(), DoorState::Closed);
}

#[test]
fn session_ignores_attempts_past_the_count() {
    let mut s = RangingSession::new(120_000);
    for _ in 0..SAMPLE_COUNT {
        s.record_echo(Some(500_000));
    }
    assert_eq!(s.outcome(), DoorState::Closed);
    // a far echo after the last attempt changes nothing
    s.record_echo(Some(4_000_000));
    s.record_echo(Some(4_000_000));
    assert!(s.is_complete());
    assert_eq!(s.outcome(), DoorState::Closed);
}
