use crkcam::spdmngr::{SpdCmd, SpdMngr};

#[test]
fn fixed_speed_after_force_applies_on_next_poll() {
    // priority override: the very next poll returns the forced speed
    let mut m = SpdMngr::new();
    m.rst_and_force_cmd(SpdCmd::FixedSpd(2000));
    assert_eq!(m.get_next_speed(), 2000);
    // and it stays there
    assert_eq!(m.get_next_speed(), 2000);
}

#[test]
fn ramp_converges_in_exactly_the_configured_polls() {
    // Ramp(6000, 100) from 1000 at 10 ms resolution: ten polls, each +500,
    // non-decreasing, never above 6000, equal to 6000 at the tenth
    let mut m = SpdMngr::new();
    m.rst_and_force_cmd(SpdCmd::FixedSpd(1000));
    assert_eq!(m.get_next_speed(), 1000);
    m.add_cmd(SpdCmd::Ramp(6000, 100)).unwrap();
    let mut prev = 1000;
    let mut last = 0;
    for i in 0..10 {
        let s = m.get_next_speed();
        assert!(s >= prev, "poll {} decreased: {} -> {}", i, prev, s);
        assert!(s <= 6000, "poll {} overshot: {}", i, s);
        prev = s;
        last = s;
    }
    assert_eq!(last, 6000);
}

#[test]
fn ramp_down_converges_without_overshoot() {
    let mut m = SpdMngr::new();
    m.rst_and_force_cmd(SpdCmd::FixedSpd(5000));
    assert_eq!(m.get_next_speed(), 5000);
    m.add_cmd(SpdCmd::Ramp(2000, 50)).unwrap();
    let mut prev = 5000;
    for _ in 0..5 {
        let s = m.get_next_speed();
        assert!(s <= prev);
        assert!(s >= 2000);
        prev = s;
    }
    assert_eq!(prev, 2000);
}

#[test]
fn increment_and_decrement_apply_in_one_step() {
    let mut m = SpdMngr::new();
    m.rst_and_force_cmd(SpdCmd::FixedSpd(1500));
    assert_eq!(m.get_next_speed(), 1500);
    m.add_cmd(SpdCmd::Inc(300)).unwrap();
    assert_eq!(m.get_next_speed(), 1800);
    m.add_cmd(SpdCmd::Dec(700)).unwrap();
    assert_eq!(m.get_next_speed(), 1100);
}

#[test]
fn decrement_clamps_at_zero() {
    let mut m = SpdMngr::new();
    m.rst_and_force_cmd(SpdCmd::FixedSpd(100));
    assert_eq!(m.get_next_speed(), 100);
    m.add_cmd(SpdCmd::Dec(500)).unwrap();
    assert_eq!(m.get_next_speed(), 0);
}

#[test]
fn backlog_is_served_oldest_first() {
    let mut m = SpdMngr::new();
    m.add_cmd(SpdCmd::FixedSpd(1000)).unwrap();
    m.add_cmd(SpdCmd::FixedSpd(2000)).unwrap();
    assert_eq!(m.get_next_speed(), 1000);
    assert_eq!(m.get_next_speed(), 2000);
}

#[test]
fn backlog_full_hands_the_command_back() {
    let mut m = SpdMngr::new();
    for i in 0..10 {
        assert!(m.add_cmd(SpdCmd::FixedSpd(100 + i)).is_ok());
    }
    match m.add_cmd(SpdCmd::FixedSpd(9999)) {
        Err(SpdCmd::FixedSpd(v)) => assert_eq!(v, 9999),
        _ => panic!("an eleventh command must be refused"),
    }
    // a forced command still goes through: the backlog is cleared first
    m.rst_and_force_cmd(SpdCmd::FixedSpd(4321));
    assert_eq!(m.get_next_speed(), 4321);
}

#[test]
fn idle_poll_keeps_current_speed() {
    let mut m = SpdMngr::new();
    assert_eq!(m.get_next_speed(), 0);
    assert_eq!(m.get_next_speed(), 0);
}

#[test]
fn short_ramp_jumps_to_target_on_final_fraction() {
    // a ramp shorter than one resolution period settles at the target at once
    let mut m = SpdMngr::new();
    m.rst_and_force_cmd(SpdCmd::FixedSpd(1000));
    assert_eq!(m.get_next_speed(), 1000);
    m.add_cmd(SpdCmd::Ramp(3000, 5)).unwrap();
    assert_eq!(m.get_next_speed(), 3000);
}
