use crkcam::cam::{CamCfg, CamWheel};
use crkcam::cam_cfg::cam_config;
use crkcam::cmn::{Edge, Event, REV_TICKS};
use crkcam::crk::{CrkCfg, CrkWheel};
use crkcam::crk_cfg::{crk_config, CRK_CFG_NR};

#[test]
fn crank_wheel_concrete_60_2_falling() {
    // 60 teeth, 2 missing, falling main edge at 36000 ticks/rev:
    // 120 events of 300 ticks each, indices 1..=4 non-generating.
    let cfg = CrkCfg::new(60, 2, Edge::Falling);
    let w = CrkWheel::new(cfg);
    assert_eq!(w.ev.len(), 120);
    for i in 0..120 {
        let ev: Event = w.ev[i];
        assert_eq!(ev.id as usize, i);
        assert_eq!(ev.ag, 300);
        if i >= 1 && i <= 4 {
            assert!(!ev.is_gen);
        } else {
            assert!(ev.is_gen);
        }
        if i % 2 == 0 {
            assert_eq!(ev.edge, Edge::Falling);
        } else {
            assert_eq!(ev.edge, Edge::Rising);
        }
    }
}

#[test]
fn crank_wheel_deltas_sum_to_revolution() {
    let w = CrkWheel::new(CrkCfg::new(60, 2, Edge::Falling));
    let sum: u64 = w.ev.iter().map(|e| e.ag as u64).sum();
    assert_eq!(sum, REV_TICKS as u64);
}

#[test]
fn crank_wheel_gap_count_follows_config() {
    // 30 teeth, 1 missing: 60 events, exactly indices 1 and 2 non-generating.
    let w = CrkWheel::new(CrkCfg::new(30, 1, Edge::Falling));
    assert_eq!(w.ev.len(), 60);
    let gaps: Vec<usize> = (0..60).filter(|&i| !w.ev[i].is_gen).collect();
    assert_eq!(gaps, vec![1, 2]);
    assert_eq!(w.ev[0].ag, REV_TICKS / 30 / 2);
}

#[test]
fn crank_wheel_main_edge_rising_alternates() {
    let w = CrkWheel::new(CrkCfg::new(60, 1, Edge::Rising));
    assert_eq!(w.ev[0].edge, Edge::Rising);
    assert_eq!(w.ev[1].edge, Edge::Falling);
    assert_eq!(w.ev[118].edge, Edge::Rising);
    assert_eq!(w.ev[119].edge, Edge::Falling);
}

#[test]
fn crank_config_table_entries() {
    assert_eq!(CRK_CFG_NR, 6);
    let c0 = crk_config(0);
    assert_eq!((c0.tooth_nr, c0.miss_tooth_nr, c0.mai_edge), (120, 2, Edge::Falling));
    let c3 = crk_config(3);
    assert_eq!((c3.tooth_nr, c3.miss_tooth_nr, c3.mai_edge), (60, 1, Edge::Falling));
    let c5 = crk_config(5);
    assert_eq!((c5.tooth_nr, c5.miss_tooth_nr, c5.mai_edge), (30, 1, Edge::Falling));
}

#[test]
fn cam_wheel_deltas_sum_to_revolution() {
    let cfg = cam_config(0);
    assert_eq!(cfg.ev_nr, 21);
    let cfg_sum: u64 = cfg.ev_ary.iter().map(|e| e.0 as u64).sum();
    assert_eq!(cfg_sum, REV_TICKS as u64);
    let w = CamWheel::new(&cfg);
    assert_eq!(w.ev.len(), 21);
    let sum: u64 = w.ev.iter().map(|e| e.ag as u64).sum();
    assert_eq!(sum, REV_TICKS as u64);
}

#[test]
fn cam_wheel_follows_configured_edges_and_deltas() {
    let cfg = cam_config(0);
    let w = CamWheel::new(&cfg);
    for i in 0..cfg.ev_nr {
        assert_eq!(w.ev[i].id as usize, i);
        assert_eq!(w.ev[i].ag, cfg.ev_ary[i].0);
        assert_eq!(w.ev[i].edge, cfg.ev_ary[i].1);
        assert!(w.ev[i].is_gen);
    }
    // the canonical profile alternates falling/rising over its pairs
    assert_eq!(w.ev[0].edge, Edge::Falling);
    assert_eq!(w.ev[1].edge, Edge::Rising);
    assert_eq!(w.ev[0].ag, 1445);
    assert_eq!(w.ev[20].ag, 2555);
}

#[test]
fn cam_wheel_uses_configured_event_count() {
    // a shorter profile: only the configured events are built
    let mut ev_ary = [(0u32, Edge::Falling); 21];
    ev_ary[0] = (30000, Edge::Falling);
    ev_ary[1] = (5000, Edge::Rising);
    ev_ary[2] = (1000, Edge::Falling);
    let cfg = CamCfg { ev_nr: 3, ev_ary };
    let w = CamWheel::new(&cfg);
    assert_eq!(w.ev.len(), 3);
    assert_eq!(w.ev[2].ag, 1000);
}

#[test]
fn edge_inversion_is_total() {
    assert_eq!(Edge::Rising.not(), Edge::Falling);
    assert_eq!(Edge::Falling.not(), Edge::Rising);
}

#[test]
fn event_new_is_neutral() {
    let e = Event::new();
    assert_eq!(e.id, 0);
    assert_eq!(e.ag, 0);
    assert_eq!(e.edge, Edge::Falling);
    assert!(e.is_gen);
}

#[test]
fn teeth_nr_reports_the_configured_count() {
    let w = CrkWheel::new(CrkCfg::new(60, 2, Edge::Falling));
    assert_eq!(w.teeth_nr(), 60);
}
