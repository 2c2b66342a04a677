//! Built-in cam wheel calibration profile.
//!
//! The profile is laid out as alternating falling/rising pairs:
//! the first delta is measured from the crank reference gap, the last one
//! closes the revolution back to it.

use vstd::prelude::*;
use crate::cam::{sum_ary_ag, CamCfg};
use crate::cmn::Edge;

verus! {

/// Number of built-in cam configurations.
pub const CAM_CFG_NR: usize = 1;

/// The canonical cam calibration profile, entry by entry.
pub open spec fn cam_profile_at(i: int) -> (u32, Edge) {
    if i == 0 {
        (1445u32, Edge::Falling)
    } else if i == 1 {
        (500u32, Edge::Rising)
    } else if i == 2 {
        (4000u32, Edge::Falling)
    } else if i == 3 {
        (500u32, Edge::Rising)
    } else if i == 4 {
        (1000u32, Edge::Falling)
    } else if i == 5 {
        (500u32, Edge::Rising)
    } else if i == 6 {
        (2500u32, Edge::Falling)
    } else if i == 7 {
        (500u32, Edge::Rising)
    } else if i == 8 {
        (2500u32, Edge::Falling)
    } else if i == 9 {
        (500u32, Edge::Rising)
    } else if i == 10 {
        (5500u32, Edge::Falling)
    } else if i == 11 {
        (500u32, Edge::Rising)
    } else if i == 12 {
        (5500u32, Edge::Falling)
    } else if i == 13 {
        (500u32, Edge::Rising)
    } else if i == 14 {
        (2500u32, Edge::Falling)
    } else if i == 15 {
        (500u32, Edge::Rising)
    } else if i == 16 {
        (2500u32, Edge::Falling)
    } else if i == 17 {
        (500u32, Edge::Rising)
    } else if i == 18 {
        (1000u32, Edge::Falling)
    } else if i == 19 {
        (500u32, Edge::Rising)
    } else {
        (2555u32, Edge::Rising)
    }
}

/// Look one of the built-in cam configurations up: the canonical profile,
/// whose 21 deltas sum to exactly one revolution.
pub fn cam_config(id: usize) -> (r: CamCfg)
    requires
        id < CAM_CFG_NR,
    ensures
        r.valid(),
        r.ev_nr == 21,
        forall|i: int| 0 <= i < 21 ==> r.ev_ary@[i] == cam_profile_at(i),
{
    let ev_ary: [(u32, Edge); 21] = [
        (1445, Edge::Falling),
        (500, Edge::Rising),
        (4000, Edge::Falling),
        (500, Edge::Rising),
        (1000, Edge::Falling),
        (500, Edge::Rising),
        (2500, Edge::Falling),
        (500, Edge::Rising),
        (2500, Edge::Falling),
        (500, Edge::Rising),
        (5500, Edge::Falling),
        (500, Edge::Rising),
        (5500, Edge::Falling),
        (500, Edge::Rising),
        (2500, Edge::Falling),
        (500, Edge::Rising),
        (2500, Edge::Falling),
        (500, Edge::Rising),
        (1000, Edge::Falling),
        (500, Edge::Rising),
        (2555, Edge::Rising),
    ];
    let r = CamCfg { ev_nr: 21, ev_ary };
    proof {
        reveal_with_fuel(sum_ary_ag, 22);
        assert(sum_ary_ag(r.ev_ary@, 21) == crate::cmn::REV_TICKS);
    }
    r
}

} // verus!
