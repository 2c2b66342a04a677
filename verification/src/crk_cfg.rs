//! Built-in crank wheel configurations, selectable by index.

use vstd::prelude::*;
use crate::cmn::Edge;
use crate::crk::CrkCfg;

verus! {

/// Number of built-in crank configurations.
pub const CRK_CFG_NR: usize = 6;

/// The built-in crank configuration table.
pub open spec fn crk_config_spec(id: int) -> CrkCfg {
    if id == 0 {
        CrkCfg { tooth_nr: 120, miss_tooth_nr: 2, mai_edge: Edge::Falling }
    } else if id == 1 {
        CrkCfg { tooth_nr: 120, miss_tooth_nr: 1, mai_edge: Edge::Falling }
    } else if id == 2 {
        CrkCfg { tooth_nr: 60, miss_tooth_nr: 2, mai_edge: Edge::Falling }
    } else if id == 3 {
        CrkCfg { tooth_nr: 60, miss_tooth_nr: 1, mai_edge: Edge::Falling }
    } else if id == 4 {
        CrkCfg { tooth_nr: 30, miss_tooth_nr: 2, mai_edge: Edge::Falling }
    } else {
        CrkCfg { tooth_nr: 30, miss_tooth_nr: 1, mai_edge: Edge::Falling }
    }
}

/// Look one of the built-in crank configurations up. Every entry is valid.
pub fn crk_config(id: usize) -> (r: CrkCfg)
    requires
        id < CRK_CFG_NR,
    ensures
        r == crk_config_spec(id as int),
        r.valid(),
{
    if id == 0 {
        CrkCfg::new(120, 2, Edge::Falling)
    } else if id == 1 {
        CrkCfg::new(120, 1, Edge::Falling)
    } else if id == 2 {
        CrkCfg::new(60, 2, Edge::Falling)
    } else if id == 3 {
        CrkCfg::new(60, 1, Edge::Falling)
    } else if id == 4 {
        CrkCfg::new(30, 2, Edge::Falling)
    } else {
        CrkCfg::new(30, 1, Edge::Falling)
    }
}

} // verus!
