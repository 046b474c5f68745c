use simtime::duration::WallDuration;
use simtime::simulation_time::{
    SimulationTime, SIMTIME_INVALID, SIMTIME_MAX, SIMTIME_ONE_MICROSECOND,
    SIMTIME_ONE_MILLISECOND, SIMTIME_ONE_MINUTE, SIMTIME_ONE_NANOSECOND, SIMTIME_ONE_SECOND,
};

#[test]
fn test_from_csimtime() {
    let sim_time = 5 * SIMTIME_ONE_MINUTE + 7 * SIMTIME_ONE_MILLISECOND;
    let rust_time = SimulationTime::from_c_simtime(sim_time).unwrap();

    assert_eq!(rust_time.to_duration().as_secs(), 5 * 60);
    assert_eq!(rust_time.to_duration().as_millis(), 5 * 60 * 1_000 + 7);

    assert_eq!(
        SimulationTime::from_c_simtime(SIMTIME_MAX).unwrap(),
        SimulationTime::try_from_duration(WallDuration::from_nanos(
            SIMTIME_MAX / SIMTIME_ONE_NANOSECOND
        ))
        .unwrap()
    );
    assert_eq!(SimulationTime::from_c_simtime(SIMTIME_MAX + 1), None);
}

#[test]
fn test_to_csimtime() {
    let rust_time = SimulationTime::from_secs(5 * 60) + SimulationTime::from_millis(7);
    let sim_time = 5 * SIMTIME_ONE_MINUTE + 7 * SIMTIME_ONE_MILLISECOND;

    assert_eq!(SimulationTime::to_c_simtime(Some(rust_time)), sim_time);
    assert_eq!(SimulationTime::to_c_simtime(None), SIMTIME_INVALID);
    assert_eq!(
        SimulationTime::to_c_simtime(Some(SimulationTime::max_value())),
        SIMTIME_MAX
    );
}

#[test]
fn max_is_derived_from_emulated_clock() {
    assert_eq!(SIMTIME_MAX, 17_500_059_273_709_551_614);
    assert!(SIMTIME_MAX < SIMTIME_INVALID);
}

#[test]
fn raw_round_trip() {
    for v in [0u64, 1, 999, SIMTIME_ONE_SECOND, 12_345_678_901_234, SIMTIME_MAX] {
        let t = SimulationTime::from_c_simtime(v);
        assert!(t.is_some());
        assert_eq!(SimulationTime::to_c_simtime(t), v);
        assert_eq!(SimulationTime::from_c_simtime(SimulationTime::to_c_simtime(t)), t);
    }
}

#[test]
fn sentinel_is_absent() {
    assert_eq!(SimulationTime::to_c_simtime(None), SIMTIME_INVALID);
    assert_eq!(SimulationTime::from_c_simtime(SIMTIME_INVALID), None);
}

#[test]
fn max_boundary() {
    assert_eq!(SimulationTime::from_c_simtime(SIMTIME_MAX + 1), None);
    assert_eq!(
        SimulationTime::from_c_simtime(SIMTIME_MAX),
        Some(SimulationTime::max_value())
    );
}

#[test]
fn accessors() {
    let t = SimulationTime::from_c_simtime(3 * SIMTIME_ONE_SECOND + 456_789_123).unwrap();
    assert_eq!(t.as_secs(), 3);
    assert_eq!(t.as_millis(), 3_456);
    assert_eq!(t.as_micros(), 3_456_789);
    assert_eq!(t.as_nanos(), 3_456_789_123);
    assert_eq!(t.subsec_millis(), 456);
    assert_eq!(t.subsec_micros(), 456_789);
    assert_eq!(t.subsec_nanos(), 456_789_123);
}

#[test]
fn unit_values() {
    assert_eq!(SimulationTime::zero().as_nanos(), 0);
    assert_eq!(SimulationTime::second().as_nanos(), 1_000_000_000);
    assert_eq!(SimulationTime::millisecond().as_nanos(), 1_000_000);
    assert_eq!(SimulationTime::microsecond().as_nanos(), 1_000);
    assert_eq!(SimulationTime::nanosecond().as_nanos(), 1);
    assert_eq!(SimulationTime::max_value().as_nanos(), SIMTIME_MAX as u128);
}

#[test]
fn checked_add_overflow() {
    let max = SimulationTime::max_value();
    assert_eq!(max.checked_add(SimulationTime::nanosecond()), None);
    assert_eq!(max.checked_add(max), None);
    assert_eq!(max.checked_add(SimulationTime::zero()), Some(max));
    let a = SimulationTime::from_secs(2);
    let b = SimulationTime::from_micros(5);
    assert_eq!(a.checked_add(b).unwrap().as_nanos(), 2_000_005_000);
}

#[test]
fn checked_mul_overflow() {
    let huge_n = SIMTIME_MAX / SIMTIME_ONE_SECOND + 1;
    assert_eq!(SimulationTime::second().checked_mul(huge_n), None);
    assert_eq!(SimulationTime::try_from_secs(huge_n), None);
    assert_eq!(SimulationTime::try_from_secs(u64::MAX), None);
    let n = SIMTIME_MAX / SIMTIME_ONE_SECOND;
    assert_eq!(
        SimulationTime::try_from_secs(n).unwrap().as_nanos(),
        (n * SIMTIME_ONE_SECOND) as u128
    );
    assert_eq!(SimulationTime::second().checked_mul(0), Some(SimulationTime::zero()));
}

#[test]
fn operators() {
    let t = SimulationTime::from_secs(2) + SimulationTime::from_micros(5);
    assert_eq!(t.as_nanos(), 2_000_005_000);
    assert_eq!((SimulationTime::millisecond() * 3).as_nanos(), 3_000_000);
}

#[test]
fn unit_constructors() {
    assert_eq!(SimulationTime::from_secs(7).as_nanos(), 7_000_000_000);
    assert_eq!(SimulationTime::from_millis(7).as_nanos(), 7_000_000);
    assert_eq!(SimulationTime::from_micros(7).as_nanos(), 7_000);
    assert_eq!(SimulationTime::from_nanos(7).as_nanos(), 7);
    assert_eq!(SimulationTime::try_from_millis(u64::MAX), None);
    assert_eq!(SimulationTime::try_from_micros(u64::MAX), None);
    assert_eq!(SimulationTime::try_from_nanos(u64::MAX), None);
    assert_eq!(
        SimulationTime::try_from_nanos(SIMTIME_MAX),
        Some(SimulationTime::max_value())
    );
    assert_eq!(SimulationTime::try_from_micros(3), Some(SimulationTime::from_nanos(3 * SIMTIME_ONE_MICROSECOND)));
}

#[test]
fn five_minutes_seven_millis_duration_round_trip() {
    let t = SimulationTime::from_secs(300)
        .checked_add(SimulationTime::from_millis(7))
        .unwrap();
    let d = t.to_duration();
    assert_eq!(d.as_secs(), 300);
    assert_eq!(d.as_millis(), 300_007);
    assert_eq!(SimulationTime::try_from_duration(d), Ok(t));
}

#[test]
fn duration_round_trip_and_overflow() {
    let d = WallDuration::new(12, 345_678_901).unwrap();
    let t = SimulationTime::try_from_duration(d).unwrap();
    assert_eq!(t.to_duration(), d);

    let at_max = WallDuration::from_nanos(SIMTIME_MAX);
    assert_eq!(
        SimulationTime::try_from_duration(at_max).unwrap().to_duration(),
        at_max
    );
    let above = WallDuration::from_nanos(SIMTIME_MAX + 1);
    assert_eq!(SimulationTime::try_from_duration(above), Err(()));
    let far = WallDuration::from_secs(u64::MAX);
    assert_eq!(SimulationTime::try_from_duration(far), Err(()));
}
