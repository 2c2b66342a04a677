//! Crank wheel: configuration, derived event table, and the cyclic generator
//! that walks it.

use vstd::prelude::*;
use crate::cmn::{lemma_cyclic_step_fwd, lemma_cyclic_step_rev, Dir, Edge, Event, REV_TICKS};
use crate::hvec::{crk_vec_get, crk_vec_len, crk_vec_new, crk_vec_push, crk_vec_seq, CRK_EV_CAP};

verus! {

/// Crank wheel configuration: a tooth pattern with a missing-tooth gap.
#[derive(Debug, Copy, Clone, PartialEq, Eq, Structural)]
pub struct CrkCfg {
    pub tooth_nr: u8,
    pub miss_tooth_nr: u8,
    pub mai_edge: Edge,
}

impl CrkCfg {
    pub fn new(tooth_nr: u8, miss_tooth_nr: u8, mai_edge: Edge) -> (r: CrkCfg)
        ensures
            r == (CrkCfg { tooth_nr, miss_tooth_nr, mai_edge }),
    {
        CrkCfg { tooth_nr, miss_tooth_nr, mai_edge }
    }

    /// A usable configuration: at least one missing tooth, fewer missing
    /// teeth than teeth, and a wheel that fits the static table capacity.
    pub open spec fn valid(self) -> bool {
        &&& 0 < self.miss_tooth_nr < self.tooth_nr
        &&& 2 * (self.tooth_nr as int) <= CRK_EV_CAP as int
    }

    /// Number of events of the wheel this configuration derives.
    pub open spec fn event_nr(self) -> int {
        2 * (self.tooth_nr as int)
    }

    /// Angular delta of every event: half a tooth pitch.
    pub open spec fn event_ag(self) -> int {
        (REV_TICKS as int / self.tooth_nr as int) / 2
    }

    /// The event a valid configuration puts at index `i`: deltas are uniform,
    /// edges alternate starting from the main edge, and the `2 * miss_tooth_nr`
    /// events immediately following index 0 generate no output (the gap).
    pub open spec fn event_at(self, i: int) -> Event {
        Event {
            id: i as u8,
            ag: self.event_ag() as u32,
            edge: if i % 2 == 0 {
                self.mai_edge
            } else {
                self.mai_edge.invert()
            },
            is_gen: !(0 < i <= 2 * (self.miss_tooth_nr as int)),
        }
    }
}

/// Crank wheel: the event table derived from a configuration.
pub struct CrkWheel {
    pub ev: heapless::Vec<Event, CRK_EV_CAP>,
    pub cfg: CrkCfg,
}

impl View for CrkWheel {
    type V = Seq<Event>;

    open spec fn view(&self) -> Seq<Event> {
        crk_vec_seq(self.ev)
    }
}

impl CrkWheel {
    /// A well-formed wheel: built from a valid configuration, with exactly
    /// the events that configuration derives.
    pub open spec fn wf(self) -> bool {
        &&& self.cfg.valid()
        &&& self@.len() == self.cfg.event_nr()
        &&& forall|i: int| 0 <= i < self@.len() ==> self@[i] == self.cfg.event_at(i)
    }

    /// Build the wheel: `2 * tooth_nr` events of half a tooth pitch each,
    /// edges alternating from the main edge, with the missing-tooth gap
    /// marked as non-generating.
    pub fn new(cfg: CrkCfg) -> (r: CrkWheel)
        requires
            cfg.valid(),
        ensures
            r.wf(),
            r.cfg == cfg,
    {
        let mut ev = crk_vec_new();
        let tooth_ag: u32 = REV_TICKS / (cfg.tooth_nr as u32);
        let n: usize = 2 * (cfg.tooth_nr as usize);
        let mut idx: usize = 0;
        while idx < n
            invariant
                cfg.valid(),
                n == cfg.event_nr(),
                tooth_ag == REV_TICKS as int / cfg.tooth_nr as int,
                idx <= n,
                crk_vec_seq(ev).len() == idx,
                forall|j: int| 0 <= j < idx ==> crk_vec_seq(ev)[j] == cfg.event_at(j),
            decreases n - idx,
        {
            let angle = tooth_ag / 2;
            let is_gen = !(idx > 0 && idx < 2 * (cfg.miss_tooth_nr as usize) + 1);
            let edge = if idx % 2 == 0 {
                cfg.mai_edge
            } else {
                cfg.mai_edge.not()
            };
            crk_vec_push(
                &mut ev,
                Event { id: idx as u8, ag: angle, edge, is_gen },
            );
            idx += 1;
        }
        CrkWheel { ev, cfg }
    }

    pub fn teeth_nr(&self) -> (r: u8)
        ensures
            r == self.cfg.tooth_nr,
    {
        self.cfg.tooth_nr
    }
}

/// Cyclic generator over a crank wheel: an infinite, restartable, directional
/// cursor. `next` wraps modulo the configured event count.
pub struct CrkSigGen {
    pub gen_pos: usize,
    pub crk: CrkWheel,
    pub dir: Dir,
}

impl CrkSigGen {
    /// The wheel's event table.
    pub open spec fn events(self) -> Seq<Event> {
        self.crk@
    }

    /// The cursor: index of the event the next forward call yields.
    pub open spec fn pos(self) -> int {
        self.gen_pos as int
    }

    /// Current traversal direction.
    pub open spec fn direction(self) -> Dir {
        self.dir
    }

    /// The configuration the wheel was built from.
    pub open spec fn cfg(self) -> CrkCfg {
        self.crk.cfg
    }

    pub open spec fn wf(self) -> bool {
        &&& self.crk.wf()
        &&& 0 <= self.pos() < self.events().len()
        &&& forall|i: int| 0 <= i < self.events().len() ==> self.events()[i].ag <= REV_TICKS
    }

    /// The event the next call yields, per the current direction.
    pub open spec fn peek(self) -> Event {
        if self.dir == Dir::Fwd {
            self.events()[self.pos()]
        } else {
            self.events()[(self.pos() - 1) % self.events().len() as int]
        }
    }

    /// The cursor position the next call leaves behind.
    pub open spec fn next_pos(self) -> int {
        if self.dir == Dir::Fwd {
            (self.pos() + 1) % self.events().len() as int
        } else {
            (self.pos() - 1) % self.events().len() as int
        }
    }

    pub fn new(cfg: CrkCfg) -> (r: CrkSigGen)
        requires
            cfg.valid(),
        ensures
            r.wf(),
            r.cfg() == cfg,
            r.pos() == 0,
            r.direction() == Dir::Fwd,
    {
        let w = CrkWheel::new(cfg);
        proof {
            let t = cfg.tooth_nr as int;
            vstd::arithmetic::div_mod::lemma_div_nonincreasing(REV_TICKS as int, t);
            vstd::arithmetic::div_mod::lemma_div_pos_is_pos(REV_TICKS as int, t);
            vstd::arithmetic::div_mod::lemma_div_nonincreasing(REV_TICKS as int / t, 2);
            vstd::arithmetic::div_mod::lemma_div_pos_is_pos(REV_TICKS as int / t, 2);
            assert forall|i: int| 0 <= i < w@.len() implies w@[i].ag <= REV_TICKS by {
                assert(w@[i] == cfg.event_at(i));
            }
        }
        CrkSigGen { gen_pos: 0, crk: w, dir: Dir::Fwd }
    }

    /// Yield one event and advance the cursor one position in the current
    /// direction, wrapping modulo the event count. Forward yields the event
    /// at the cursor and then advances; reverse retreats first and yields the
    /// event it lands on, so that the reverse stream enumerates the wheel in
    /// exactly the reverse of the forward order.
    pub fn next(&mut self) -> (r: Event)
        requires
            old(self).wf(),
        ensures
            final(self).wf(),
            final(self).events() == old(self).events(),
            final(self).direction() == old(self).direction(),
            final(self).cfg() == old(self).cfg(),
            r == old(self).peek(),
            final(self).pos() == old(self).next_pos(),
    {
        let n = crk_vec_len(&self.crk.ev);
        match self.dir {
            Dir::Fwd => {
                let ev = crk_vec_get(&self.crk.ev, self.gen_pos);
                self.gen_pos += 1;
                if self.gen_pos >= n {
                    self.gen_pos = 0;
                }
                proof {
                    lemma_cyclic_step_fwd(old(self).pos(), n as int);
                }
                ev
            },
            Dir::Rev => {
                if self.gen_pos == 0 {
                    self.gen_pos = n - 1;
                } else {
                    self.gen_pos -= 1;
                }
                proof {
                    lemma_cyclic_step_rev(old(self).pos(), n as int);
                }
                crk_vec_get(&self.crk.ev, self.gen_pos)
            },
        }
    }

    /// Force the cursor back to index 0; wheel and direction are untouched.
    pub fn reset(&mut self)
        requires
            old(self).wf(),
        ensures
            final(self).wf(),
            final(self).pos() == 0,
            final(self).events() == old(self).events(),
            final(self).direction() == old(self).direction(),
            final(self).cfg() == old(self).cfg(),
    {
        self.gen_pos = 0;
    }

    /// Select the traversal direction; cursor and wheel are untouched.
    pub fn set_dir(&mut self, d: Dir)
        requires
            old(self).wf(),
        ensures
            final(self).wf(),
            final(self).direction() == d,
            final(self).pos() == old(self).pos(),
            final(self).events() == old(self).events(),
            final(self).cfg() == old(self).cfg(),
    {
        self.dir = d;
    }
}

/// Sum of a prefix whose events all carry the same angular delta.
proof fn lemma_sum_ag_const(s: Seq<Event>, c: int, n: int)
    requires
        0 <= n <= s.len(),
        forall|i: int| 0 <= i < n ==> (s[i].ag as int) == c,
    ensures
        crate::cmn::sum_ag(s.subrange(0, n)) == n * c,
    decreases n,
{
    if n == 0 {
        assert(s.subrange(0, 0) =~= Seq::<Event>::empty());
    } else {
        lemma_sum_ag_const(s, c, n - 1);
        assert(s.subrange(0, n).drop_last() =~= s.subrange(0, n - 1));
        assert(s.subrange(0, n).last() == s[n - 1]);
        assert((n - 1) * c + c == n * c) by (nonlinear_arith);
    }
}

/// Law: a wheel built from a valid crank configuration has exactly
/// `2 * tooth_nr` events, and exactly the `2 * miss_tooth_nr` events
/// immediately following index 0 are the non-generating sync gap.
pub proof fn lemma_crk_wheel_shape(w: CrkWheel)
    requires
        w.wf(),
    ensures
        w@.len() == 2 * w.cfg.tooth_nr,
        forall|i: int|
            0 <= i < w@.len() ==> (w@[i].is_gen <==> !(0 < i <= 2 * (
            w.cfg.miss_tooth_nr as int))),
{
    assert forall|i: int| 0 <= i < w@.len() implies (w@[i].is_gen <==> !(0 < i <= 2 * (
    w.cfg.miss_tooth_nr as int))) by {
        assert(w@[i] == w.cfg.event_at(i));
    }
}

/// Law: when the tooth count divides the revolution into an even number of
/// ticks per tooth, the angular deltas of the built crank wheel sum to
/// exactly one revolution.
pub proof fn lemma_crk_wheel_ag_sum(w: CrkWheel)
    requires
        w.wf(),
        REV_TICKS as int % (w.cfg.tooth_nr as int) == 0,
        (REV_TICKS as int / w.cfg.tooth_nr as int) % 2 == 0,
    ensures
        crate::cmn::sum_ag(w@) == REV_TICKS,
{
    let t = w.cfg.tooth_nr as int;
    let q = REV_TICKS as int / t;
    let c = w.cfg.event_ag();
    let n = w@.len() as int;
    assert forall|i: int| 0 <= i < n implies (w@[i].ag as int) == c by {
        assert(w@[i] == w.cfg.event_at(i));
    }
    lemma_sum_ag_const(w@, c, n);
    assert(w@.subrange(0, n) =~= w@);
    // q is exactly REV_TICKS / t, and c is exactly q / 2
    vstd::arithmetic::div_mod::lemma_fundamental_div_mod(REV_TICKS as int, t);
    vstd::arithmetic::div_mod::lemma_fundamental_div_mod(q, 2);
    assert(q == 2 * c);
    assert(n == 2 * t);
    assert((2 * t) * c == t * (2 * c)) by (nonlinear_arith);
    assert(t * q == REV_TICKS) by {
        assert(REV_TICKS as int == t * q + REV_TICKS as int % t);
    }
}

} // verus!
