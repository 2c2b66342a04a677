use crkcam::cam_cfg::cam_config;
use crkcam::cam::CamSigGen;
use crkcam::cmn::Edge;
use crkcam::crk::{CrkCfg, CrkSigGen};
use crkcam::sched::{wrapping_add, ChannelProgram, CmpAction, Timer};

fn ready_timer() -> Timer {
    let mut t = Timer::new(36_000_000);
    let cam = CamSigGen::new(&cam_config(0)).unwrap();
    let crk = CrkSigGen::new(CrkCfg::new(60, 2, Edge::Falling));
    t.initialize(cam, crk);
    t
}

#[test]
fn wrapping_add_wraps_at_the_counter_period() {
    assert_eq!(wrapping_add(65000, 1000, 0x10000), 464);
    assert_eq!(wrapping_add(0, 300, 0x10000), 300);
    assert_eq!(wrapping_add(65535, 1, 0x10000), 0);
}

#[test]
fn speed_zero_is_clamped_to_one_rpm() {
    let mut t = ready_timer();
    let psc = t.set_speed_rpm(0);
    assert_eq!(t.speed, 1);
    // 60 * 2 * (36 MHz / 36000 ticks) / 1 saturates at the register maximum
    assert_eq!(t.prescaler, 0xFFFF);
    assert_eq!(psc, 0xFFFE);
}

#[test]
fn prescaler_follows_the_speed() {
    let mut t = ready_timer();
    let psc = t.set_speed_rpm(1000);
    // 60 * 2 * (36_000_000 / 36_000) / 1000 == 120
    assert_eq!(t.prescaler, 120);
    assert_eq!(psc, 119);
    assert_eq!(t.speed, 1000);
    let psc = t.set_speed_rpm(3000);
    assert_eq!(t.prescaler, 40);
    assert_eq!(psc, 39);
}

#[test]
fn spurious_interrupt_is_a_no_op() {
    let mut t = ready_timer();
    let before_cmp = t.crk_nxt_ev;
    assert!(t.set_next_crk_ev(false).is_none());
    assert!(t.set_next_cam_ev(false).is_none());
    assert_eq!(t.crk_nxt_ev, before_cmp);
    assert_eq!(t.crk_ev.ag, 0);
}

#[test]
fn crank_advance_programs_one_delta_ahead() {
    let mut t = ready_timer();
    // event 0: generating, falling main edge, 300 ticks
    let p: ChannelProgram = t.set_next_crk_ev(true).unwrap();
    assert_eq!(p.cmp, 300);
    assert_eq!(p.action, CmpAction::InactiveOnMatch);
    // events 1..=4 are the missing-tooth gap: output frozen
    for i in 1..=4u16 {
        let p = t.set_next_crk_ev(true).unwrap();
        assert_eq!(p.cmp, 300 * (i + 1));
        assert_eq!(p.action, CmpAction::Frozen);
    }
    // event 5: generating again, odd index inverts the main edge
    let p = t.set_next_crk_ev(true).unwrap();
    assert_eq!(p.cmp, 1800);
    assert_eq!(p.action, CmpAction::ActiveOnMatch);
}

#[test]
fn cam_advance_follows_the_profile() {
    let mut t = ready_timer();
    let p = t.set_next_cam_ev(true).unwrap();
    assert_eq!(p.cmp, 1445);
    assert_eq!(p.action, CmpAction::InactiveOnMatch);
    let p = t.set_next_cam_ev(true).unwrap();
    assert_eq!(p.cmp, 1445 + 500);
    assert_eq!(p.action, CmpAction::ActiveOnMatch);
}

#[test]
fn cam_index0_resynchronizes_the_crank() {
    let mut t = ready_timer();
    // drift the crank some way into its wheel
    for _ in 0..7 {
        t.set_next_crk_ev(true).unwrap();
    }
    assert_eq!(t.crk_ev.id, 6);
    assert_ne!(t.crk_nxt_ev, 0);
    // the first cam advance pulls the index-0 event: mandated resync
    let p = t.set_next_cam_ev(true).unwrap();
    assert_eq!(t.cam_ev.id, 0);
    assert_eq!(p.cmp, 1445);
    assert_eq!(t.crk_nxt_ev, 0);
    // the next crank event after the resync is the index-0 event,
    // regardless of the prior crank cursor
    let p = t.set_next_crk_ev(true).unwrap();
    assert_eq!(t.crk_ev.id, 0);
    assert_eq!(p.cmp, 300);
}

#[test]
fn cam_mid_wheel_event_leaves_the_crank_alone() {
    let mut t = ready_timer();
    t.set_next_cam_ev(true).unwrap(); // id 0 (resync, crank already at 0)
    for _ in 0..3 {
        t.set_next_crk_ev(true).unwrap();
    }
    let crk_cmp = t.crk_nxt_ev;
    t.set_next_cam_ev(true).unwrap(); // id 1: no resync
    assert_eq!(t.cam_ev.id, 1);
    assert_eq!(t.crk_nxt_ev, crk_cmp);
    let p = t.set_next_crk_ev(true).unwrap();
    assert_eq!(t.crk_ev.id, 3);
    assert_eq!(p.cmp, crk_cmp + 300);
}

#[test]
fn start_preloads_both_channels() {
    let mut t = ready_timer();
    let (crk_p, cam_p) = t.start();
    assert_eq!(crk_p.cmp, 300);
    assert_eq!(crk_p.action, CmpAction::InactiveOnMatch);
    assert_eq!(cam_p.cmp, 1445);
    assert_eq!(cam_p.action, CmpAction::InactiveOnMatch);
    // both cursors moved past their first event; no resync happened
    assert_eq!(t.crk_ev.id, 0);
    assert_eq!(t.cam_ev.id, 0);
    assert_eq!(t.crk_nxt_ev, 300);
    assert_eq!(t.cam_nxt_ev, 1445);
}

#[test]
fn compare_point_wraps_across_the_counter_period() {
    let mut t = ready_timer();
    // 120 crank events of 300 ticks pass 0xFFFF within one revolution:
    // 219 * 300 == 65700 == 0x10000 + 164
    let mut last = 0u16;
    for _ in 0..219 {
        last = t.set_next_crk_ev(true).unwrap().cmp;
    }
    assert_eq!(last, 164);
}

#[test]
fn fresh_scheduler_is_at_rest() {
    let t = Timer::new(36_000_000);
    assert!(t.cam.is_none());
    assert!(t.crk.is_none());
    assert_eq!(t.prescaler, 1);
    assert_eq!(t.speed, 0);
    assert_eq!(t.freq, 36_000_000);
    assert_eq!(t.crk_nxt_ev, 0);
    assert_eq!(t.cam_nxt_ev, 0);
}
