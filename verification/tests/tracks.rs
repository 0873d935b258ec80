use lamp_control::tracks::{failed_track_duration_steps, next_rng};

#[test]
fn random_states() {
    assert_eq!(next_rng(0), 1_013_904_223);
    assert_eq!(next_rng(1), 1_015_568_748);
    assert_eq!(next_rng(u32::MAX), 1_012_239_698);
    assert_eq!(next_rng(0x1234_abcd), 0xec94_5ac8);
    assert_eq!(next_rng(0xec94_5ac8), 0x39ab_3f87);
}

#[test]
fn durations() {
    assert_eq!(failed_track_duration_steps(0), 360);
    assert_eq!(failed_track_duration_steps(1), 520);
    assert_eq!(failed_track_duration_steps(2), 360);
    assert_eq!(failed_track_duration_steps(3), 590);
    assert_eq!(failed_track_duration_steps(4), 500);
    assert_eq!(failed_track_duration_steps(5), 730);
    assert_eq!(failed_track_duration_steps(255), 18_230);
}
