use crkcam::cam_cfg::cam_config;
use crkcam::cam::CamSigGen;
use crkcam::cmn::{Dir, Edge, Event};
use crkcam::crk::{CrkCfg, CrkSigGen};

fn crank_gen() -> CrkSigGen {
    CrkSigGen::new(CrkCfg::new(60, 2, Edge::Falling))
}

#[test]
fn crank_generator_is_cyclic() {
    // one full revolution of next() calls returns the generator to the state
    // a fresh reset gives: the two enumerations coincide
    let mut g = crank_gen();
    let first: Vec<Event> = (0..120).map(|_| g.next()).collect();
    let second: Vec<Event> = (0..120).map(|_| g.next()).collect();
    assert_eq!(first, second);
    assert_eq!(first[0].id, 0);
    assert_eq!(first[119].id, 119);
}

#[test]
fn crank_reset_then_next_yields_index0() {
    let mut g = crank_gen();
    for _ in 0..7 {
        g.next();
    }
    g.reset();
    assert_eq!(g.next().id, 0);
    // reset works from any position, repeatedly
    g.next();
    g.reset();
    assert_eq!(g.next().id, 0);
}

#[test]
fn crank_reverse_is_exact_reverse_of_forward() {
    let mut g = crank_gen();
    let fwd: Vec<Event> = (0..120).map(|_| g.next()).collect();
    g.reset();
    g.set_dir(Dir::Rev);
    let rev: Vec<Event> = (0..120).map(|_| g.next()).collect();
    let mut expect = fwd.clone();
    expect.reverse();
    assert_eq!(rev, expect);
    // wraparound at both ends: the first reverse item is the last forward one
    assert_eq!(rev[0].id, 119);
    assert_eq!(rev[119].id, 0);
    // and one more call wraps again from the top
    assert_eq!(g.next().id, 119);
}

#[test]
fn cam_generator_is_cyclic() {
    let cfg = cam_config(0);
    let mut g = CamSigGen::new(&cfg).unwrap();
    let first: Vec<Event> = (0..21).map(|_| g.next()).collect();
    let second: Vec<Event> = (0..21).map(|_| g.next()).collect();
    assert_eq!(first, second);
    assert_eq!(first[0].ag, 1445);
    assert_eq!(first[20].ag, 2555);
}

#[test]
fn cam_reset_then_next_yields_index0() {
    let cfg = cam_config(0);
    let mut g = CamSigGen::new(&cfg).unwrap();
    for _ in 0..5 {
        g.next();
    }
    g.reset();
    assert_eq!(g.next().id, 0);
}

#[test]
fn cam_reverse_is_exact_reverse_of_forward() {
    let cfg = cam_config(0);
    let mut g = CamSigGen::new(&cfg).unwrap();
    let fwd: Vec<Event> = (0..21).map(|_| g.next()).collect();
    g.reset();
    g.set_dir(Dir::Rev);
    let rev: Vec<Event> = (0..21).map(|_| g.next()).collect();
    let mut expect = fwd.clone();
    expect.reverse();
    assert_eq!(rev, expect);
}
