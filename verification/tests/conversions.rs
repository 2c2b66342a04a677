use crkcam::cmn::REV_TICKS;
use crkcam::convert::{sat_u16, speed_angle_to_ticks, speed_time_to_angle, time_angle_to_speed};

#[test]
fn speed_angle_to_ticks_exact_values() {
    // 300 ticks at 1000 RPM: 300 * 1_000_000 / 6000 == 50_000
    assert_eq!(speed_angle_to_ticks(1000, 300), 50_000);
    // one full revolution at 1 RPM: 36000 * 1_000_000 / 6
    assert_eq!(speed_angle_to_ticks(1, REV_TICKS), 6_000_000_000);
    // truncation toward zero
    assert_eq!(speed_angle_to_ticks(7000, 1), 1_000_000 / 42_000);
}

#[test]
fn speed_time_to_angle_inverts_the_relation() {
    assert_eq!(speed_time_to_angle(1000, 50_000), 300);
    assert_eq!(speed_time_to_angle(3000, 0), 0);
    // saturates instead of wrapping
    assert_eq!(speed_time_to_angle(u32::MAX, u64::MAX), u64::MAX);
}

#[test]
fn time_angle_to_speed_exact_values() {
    assert_eq!(time_angle_to_speed(300, 50_000), 1000);
    // saturates instead of wrapping
    assert_eq!(time_angle_to_speed(u32::MAX, 1), u32::MAX);
}

#[test]
fn round_trip_recovers_speed_within_one_rpm() {
    for &spd in &[100u32, 577, 1000, 2500, 3000, 6000, 8000] {
        for &ag in &[300u32, 1445, 9000, REV_TICKS] {
            let t = speed_angle_to_ticks(spd, ag);
            let r = time_angle_to_speed(ag, t);
            assert!(
                r >= spd && r <= spd + 1,
                "round trip drifted: spd={} ag={} -> t={} -> r={}",
                spd,
                ag,
                t,
                r
            );
        }
    }
    // a concrete pair, exactly
    let t = speed_angle_to_ticks(3000, REV_TICKS);
    assert_eq!(t, 2_000_000);
    assert_eq!(time_angle_to_speed(REV_TICKS, t), 3000);
}

#[test]
fn narrowing_to_register_width_saturates() {
    assert_eq!(sat_u16(123), 123);
    assert_eq!(sat_u16(65535), 65535);
    assert_eq!(sat_u16(65536), 65535);
    assert_eq!(sat_u16(u64::MAX), 65535);
}
