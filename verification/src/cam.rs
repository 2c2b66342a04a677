//! Cam wheel: an explicit per-event calibration table and the cyclic
//! generator that walks it.

use vstd::prelude::*;
use crate::cmn::{sum_ag, Dir, Edge, Event, REV_TICKS};
use crate::hvec::{cam_vec_get, cam_vec_len, cam_vec_new, cam_vec_push, cam_vec_seq, CAM_EV_CAP};

verus! {

/// Cam wheel configuration: an explicit table of `(angular delta, edge)`
/// pairs, of which the first `ev_nr` are in use. The deltas are calibration
/// data: each is the tick distance from the previous event, the first is
/// measured from the crank reference gap, and a valid profile sums to one
/// revolution.
pub struct CamCfg {
    pub ev_nr: usize,
    pub ev_ary: [(u32, Edge); 21],
}

/// Sum of the first `n` configured angular deltas.
pub open spec fn sum_ary_ag(ary: Seq<(u32, Edge)>, n: int) -> int
    decreases n,
{
    if n <= 0 {
        0
    } else {
        sum_ary_ag(ary, n - 1) + ary[n - 1].0
    }
}

impl CamCfg {
    /// A usable configuration: a nonempty table that fits the capacity and
    /// whose configured deltas cover exactly one revolution.
    pub open spec fn valid(self) -> bool {
        &&& 0 < self.ev_nr <= CAM_EV_CAP
        &&& sum_ary_ag(self.ev_ary@, self.ev_nr as int) == REV_TICKS
    }

    /// The event the configuration puts at index `i`: the configured delta
    /// and edge; every cam event generates an output transition.
    pub open spec fn event_at(self, i: int) -> Event {
        Event { id: i as u8, ag: self.ev_ary@[i].0, edge: self.ev_ary@[i].1, is_gen: true }
    }
}

/// Cam wheel: the event table taken from a configuration.
pub struct CamWheel {
    pub ev: heapless::Vec<Event, CAM_EV_CAP>,
}

impl View for CamWheel {
    type V = Seq<Event>;

    open spec fn view(&self) -> Seq<Event> {
        cam_vec_seq(self.ev)
    }
}

impl CamWheel {
    /// The wheel holds exactly the first `ev_nr` configured events.
    pub open spec fn matches_cfg(self, cfg: CamCfg) -> bool {
        &&& self@.len() == cfg.ev_nr
        &&& forall|i: int| 0 <= i < self@.len() ==> self@[i] == cfg.event_at(i)
    }

    /// Create a camshaft wheel from a configuration of angles, edges and
    /// number of events. The values are calibration data, not derived logic:
    /// no check is made here beyond the capacity bound of the table.
    pub fn new(cfg: &CamCfg) -> (r: CamWheel)
        requires
            cfg.ev_nr <= CAM_EV_CAP,
        ensures
            r.matches_cfg(*cfg),
    {
        let mut ev = cam_vec_new();
        let mut idx: usize = 0;
        while idx < cfg.ev_nr
            invariant
                cfg.ev_nr <= CAM_EV_CAP,
                idx <= cfg.ev_nr,
                cam_vec_seq(ev).len() == idx,
                forall|j: int| 0 <= j < idx ==> cam_vec_seq(ev)[j] == cfg.event_at(j),
            decreases cfg.ev_nr - idx,
        {
            let ag = cfg.ev_ary[idx];
            cam_vec_push(
                &mut ev,
                Event { id: idx as u8, ag: ag.0, edge: ag.1, is_gen: true },
            );
            idx += 1;
        }
        CamWheel { ev }
    }
}

/// Cyclic generator over a cam wheel: an infinite, restartable, directional
/// cursor. `next` wraps modulo the configured event count.
pub struct CamSigGen {
    pub gen_pos: usize,
    pub cam: CamWheel,
    pub dir: Dir,
}

impl CamSigGen {
    /// The wheel's event table.
    pub open spec fn events(self) -> Seq<Event> {
        self.cam@
    }

    /// The cursor: index of the event the next forward call yields.
    pub open spec fn pos(self) -> int {
        self.gen_pos as int
    }

    /// Current traversal direction.
    pub open spec fn direction(self) -> Dir {
        self.dir
    }

    pub open spec fn wf(self) -> bool {
        &&& 0 < self.events().len() <= CAM_EV_CAP
        &&& 0 <= self.pos() < self.events().len()
        &&& forall|i: int| 0 <= i < self.events().len() ==> self.events()[i].ag <= REV_TICKS
    }

    /// The event the next call yields, per the current direction.
    pub open spec fn peek(self) -> Event {
        if self.dir == Dir::Fwd {
            self.events()[self.pos()]
        } else {
            self.events()[(self.pos() - 1) % self.events().len() as int]
        }
    }

    /// The cursor position the next call leaves behind.
    pub open spec fn next_pos(self) -> int {
        if self.dir == Dir::Fwd {
            (self.pos() + 1) % self.events().len() as int
        } else {
            (self.pos() - 1) % self.events().len() as int
        }
    }

    pub fn new(cfg: &CamCfg) -> (r: Result<CamSigGen, ()>)
        requires
            cfg.valid(),
        ensures
            r is Ok,
            r matches Ok(g) ==> {
                &&& g.wf()
                &&& g.cam.matches_cfg(*cfg)
                &&& g.pos() == 0
                &&& g.direction() == Dir::Fwd
            },
    {
        let w = CamWheel::new(cfg);
        proof {
            assert forall|i: int| 0 <= i < w@.len() implies w@[i].ag <= REV_TICKS by {
                assert(w@[i] == cfg.event_at(i));
                lemma_ary_elem_le_sum(cfg.ev_ary@, cfg.ev_nr as int, i);
            }
        }
        Ok(CamSigGen { gen_pos: 0, cam: w, dir: Dir::Fwd })
    }

    /// Yield one event and advance the cursor one position in the current
    /// direction, wrapping modulo the event count. Forward yields the event
    /// at the cursor and then advances; reverse retreats first and yields the
    /// event it lands on, so that the reverse stream enumerates the wheel in
    /// exactly the reverse of the forward order.
    pub fn next(&mut self) -> (r: Event)
        requires
            old(self).wf(),
        ensures
            final(self).wf(),
            final(self).events() == old(self).events(),
            final(self).direction() == old(self).direction(),
            r == old(self).peek(),
            final(self).pos() == old(self).next_pos(),
    {
        let n = cam_vec_len(&self.cam.ev);
        match self.dir {
            Dir::Fwd => {
                let ev = cam_vec_get(&self.cam.ev, self.gen_pos);
                self.gen_pos += 1;
                if self.gen_pos >= n {
                    self.gen_pos = 0;
                }
                proof {
                    crate::cmn::lemma_cyclic_step_fwd(old(self).pos(), n as int);
                }
                ev
            },
            Dir::Rev => {
                if self.gen_pos == 0 {
                    self.gen_pos = n - 1;
                } else {
                    self.gen_pos -= 1;
                }
                proof {
                    crate::cmn::lemma_cyclic_step_rev(old(self).pos(), n as int);
                }
                cam_vec_get(&self.cam.ev, self.gen_pos)
            },
        }
    }

    /// Force the cursor back to index 0; wheel and direction are untouched.
    pub fn reset(&mut self)
        requires
            old(self).wf(),
        ensures
            final(self).wf(),
            final(self).pos() == 0,
            final(self).events() == old(self).events(),
            final(self).direction() == old(self).direction(),
    {
        self.gen_pos = 0;
    }

    /// Select the traversal direction; cursor and wheel are untouched.
    pub fn set_dir(&mut self, d: Dir)
        requires
            old(self).wf(),
        ensures
            final(self).wf(),
            final(self).direction() == d,
            final(self).pos() == old(self).pos(),
            final(self).events() == old(self).events(),
    {
        self.dir = d;
    }
}

/// Every configured delta is non-negative, so a prefix sum never is either.
proof fn lemma_sum_ary_nonneg(ary: Seq<(u32, Edge)>, n: int)
    ensures
        sum_ary_ag(ary, n) >= 0,
    decreases n,
{
    if n > 0 {
        lemma_sum_ary_nonneg(ary, n - 1);
    }
}

/// Each configured delta is at most the sum of the whole prefix it is in.
proof fn lemma_ary_elem_le_sum(ary: Seq<(u32, Edge)>, n: int, i: int)
    requires
        0 <= i < n,
    ensures
        ary[i].0 <= sum_ary_ag(ary, n),
    decreases n,
{
    if i == n - 1 {
        lemma_sum_ary_nonneg(ary, n - 1);
    } else {
        lemma_ary_elem_le_sum(ary, n - 1, i);
    }
}

/// Sum of a prefix of wheel events that carry the configured deltas.
proof fn lemma_sum_ag_matches_ary(evs: Seq<Event>, ary: Seq<(u32, Edge)>, n: int)
    requires
        0 <= n <= evs.len(),
        forall|i: int| 0 <= i < n ==> (evs[i].ag as int) == ary[i].0,
    ensures
        sum_ag(evs.subrange(0, n)) == sum_ary_ag(ary, n),
    decreases n,
{
    if n == 0 {
        assert(evs.subrange(0, 0) =~= Seq::<Event>::empty());
    } else {
        lemma_sum_ag_matches_ary(evs, ary, n - 1);
        assert(evs.subrange(0, n).drop_last() =~= evs.subrange(0, n - 1));
        assert(evs.subrange(0, n).last() == evs[n - 1]);
    }
}

/// Law: a cam wheel built from a valid configuration covers exactly one
/// revolution — its angular deltas sum to `REV_TICKS` — and each of its
/// events carries the configured edge, so the wheel follows the alternation
/// the calibration table lays out.
pub proof fn lemma_cam_wheel_props(w: CamWheel, cfg: CamCfg)
    requires
        cfg.valid(),
        w.matches_cfg(cfg),
    ensures
        sum_ag(w@) == REV_TICKS,
        forall|i: int| 0 <= i < w@.len() ==> w@[i].edge == cfg.ev_ary@[i].1,
{
    let n = w@.len() as int;
    assert forall|i: int| 0 <= i < n implies (w@[i].ag as int) == cfg.ev_ary@[i].0 by {
        assert(w@[i] == cfg.event_at(i));
    }
    lemma_sum_ag_matches_ary(w@, cfg.ev_ary@, n);
    assert(w@.subrange(0, n) =~= w@);
    assert forall|i: int| 0 <= i < w@.len() implies w@[i].edge == cfg.ev_ary@[i].1 by {
        assert(w@[i] == cfg.event_at(i));
    }
}

} // verus!
