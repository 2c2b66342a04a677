//! Common wheel-event model: output edges, traversal direction, and the
//! `Event` record that every wheel table is made of.

use vstd::prelude::*;

verus! {

/// Number of angular ticks in one full revolution (360 degrees). One fixed
/// resolution is used for every angle in the system, crank and cam alike.
pub const REV_TICKS: u32 = 36000;

/// Electrical transition direction of an output event.
#[derive(Debug, Copy, Clone, PartialEq, Eq, Structural)]
pub enum Edge {
    Falling,
    Rising,
}

impl Edge {
    /// Total inversion: rising becomes falling and falling becomes rising.
    pub fn not(self) -> (r: Edge)
        ensures
            r == self.invert(),
    {
        match self {
            Edge::Rising => Edge::Falling,
            Edge::Falling => Edge::Rising,
        }
    }

    /// The inverted edge, as contracts state it.
    pub open spec fn invert(self) -> Edge {
        match self {
            Edge::Rising => Edge::Falling,
            Edge::Falling => Edge::Rising,
        }
    }
}

/// Traversal direction of a cyclic generator over a wheel.
#[derive(Debug, Copy, Clone, PartialEq, Eq, Structural)]
pub enum Dir {
    Fwd,
    Rev,
}

/// One position of a wheel. `ag` is the angular distance in ticks from the
/// previous event (not an absolute position); `is_gen == false` marks a
/// position that exists in the angular domain but must produce no output
/// transition (the missing-tooth synchronization gap).
#[derive(Debug, Copy, Clone, PartialEq, Eq, Structural)]
pub struct Event {
    pub id: u8,
    pub ag: u32,
    pub edge: Edge,
    pub is_gen: bool,
}

impl Event {
    pub fn new() -> (r: Event)
        ensures
            r == (Event { id: 0, ag: 0, edge: Edge::Falling, is_gen: true }),
    {
        Event { id: 0, ag: 0, edge: Edge::Falling, is_gen: true }
    }
}

/// Sum of the angular deltas of a sequence of events. A complete wheel sums
/// to exactly `REV_TICKS`.
pub open spec fn sum_ag(s: Seq<Event>) -> int
    decreases s.len(),
{
    if s.len() == 0 {
        0
    } else {
        sum_ag(s.drop_last()) + s.last().ag
    }
}

/// A forward step from a cursor in range lands where the wrapping increment
/// puts it.
pub proof fn lemma_cyclic_step_fwd(p: int, n: int)
    requires
        0 <= p < n,
    ensures
        (p + 1) % n == if p + 1 == n {
            0int
        } else {
            p + 1
        },
{
    if p + 1 == n {
        assert(n % n == 0) by {
            vstd::arithmetic::div_mod::lemma_mod_self_0(n);
        }
    } else {
        vstd::arithmetic::div_mod::lemma_small_mod((p + 1) as nat, n as nat);
    }
}

/// A reverse step from a cursor in range lands where the wrapping decrement
/// puts it.
pub proof fn lemma_cyclic_step_rev(p: int, n: int)
    requires
        0 <= p < n,
    ensures
        (p - 1) % n == if p == 0 {
            n - 1
        } else {
            p - 1
        },
{
    if p == 0 {
        assert((-1) % n == n - 1) by {
            vstd::arithmetic::div_mod::lemma_mod_add_multiples_vanish(-1, n);
            vstd::arithmetic::div_mod::lemma_small_mod((n - 1) as nat, n as nat);
        }
    } else {
        vstd::arithmetic::div_mod::lemma_small_mod((p - 1) as nat, n as nat);
    }
}

/// Cursor position after `k` forward `next` calls from position `p` over a
/// wheel of `n` events, as the generators' contracts advance it.
pub open spec fn fwd_pos_after(p: int, k: nat, n: int) -> int
    decreases k,
{
    if k == 0 {
        p
    } else {
        (fwd_pos_after(p, (k - 1) as nat, n) + 1) % n
    }
}

/// Cursor position after `k` reverse `next` calls from position `p` over a
/// wheel of `n` events, as the generators' contracts retreat it.
pub open spec fn rev_pos_after(p: int, k: nat, n: int) -> int
    decreases k,
{
    if k == 0 {
        p
    } else {
        (rev_pos_after(p, (k - 1) as nat, n) - 1) % n
    }
}

/// The event the `k`-th forward `next` call (counting from 0) yields when the
/// cursor starts at index 0: forward yields the event at the cursor, then
/// advances.
pub open spec fn fwd_stream(s: Seq<Event>, k: nat) -> Event {
    s[fwd_pos_after(0, k, s.len() as int)]
}

/// The event the `k`-th reverse `next` call (counting from 0) yields when the
/// cursor starts at index 0: reverse retreats the cursor, then yields the
/// event it lands on.
pub open spec fn rev_stream(s: Seq<Event>, k: nat) -> Event {
    s[rev_pos_after(0, k + 1, s.len() as int)]
}

/// The cursor after `k` forward calls is the start shifted by `k`, modulo the
/// event count.
pub proof fn lemma_fwd_pos_after(p: int, k: nat, n: int)
    requires
        0 <= p < n,
    ensures
        fwd_pos_after(p, k, n) == (p + k) % n,
    decreases k,
{
    if k == 0 {
        vstd::arithmetic::div_mod::lemma_small_mod(p as nat, n as nat);
    } else {
        lemma_fwd_pos_after(p, (k - 1) as nat, n);
        assert(((p + (k - 1)) % n + 1) % n == (p + k) % n) by {
            vstd::arithmetic::div_mod::lemma_add_mod_noop_right(1, p + (k - 1), n);
        }
    }
}

/// The cursor after `k` reverse calls is the start shifted back by `k`,
/// modulo the event count.
pub proof fn lemma_rev_pos_after(p: int, k: nat, n: int)
    requires
        0 <= p < n,
    ensures
        rev_pos_after(p, k, n) == (p - k) % n,
    decreases k,
{
    if k == 0 {
        vstd::arithmetic::div_mod::lemma_small_mod(p as nat, n as nat);
    } else {
        lemma_rev_pos_after(p, (k - 1) as nat, n);
        assert(((p - (k - 1)) % n - 1) % n == (p - k) % n) by {
            vstd::arithmetic::div_mod::lemma_sub_mod_noop(p - (k - 1), 1, n);
            if n == 1 {
                vstd::arithmetic::div_mod::lemma_mod_division_less_than_divisor(
                    (p - (k - 1)) % n - 1,
                    n,
                );
                vstd::arithmetic::div_mod::lemma_mod_division_less_than_divisor(
                    (p - (k - 1)) % n - (1int % n),
                    n,
                );
                vstd::arithmetic::div_mod::lemma_mod_self_0(n);
            } else {
                vstd::arithmetic::div_mod::lemma_small_mod(1nat, n as nat);
            }
        }
    }
}

/// Law: the configured event count of `next` calls returns a generator to the
/// position it started from; in particular, from a fresh `reset` (cursor 0)
/// it is back in the reset state. Holds in both directions.
pub proof fn lemma_cycle_restores(p: int, n: int)
    requires
        0 <= p < n,
    ensures
        fwd_pos_after(p, n as nat, n) == p,
        rev_pos_after(p, n as nat, n) == p,
{
    lemma_fwd_pos_after(p, n as nat, n);
    lemma_rev_pos_after(p, n as nat, n);
    vstd::arithmetic::div_mod::lemma_mod_add_multiples_vanish(p, n);
    vstd::arithmetic::div_mod::lemma_small_mod(p as nat, n as nat);
    assert((p - n) % n == p) by {
        vstd::arithmetic::div_mod::lemma_mod_add_multiples_vanish(p - n, n);
        vstd::arithmetic::div_mod::lemma_small_mod(p as nat, n as nat);
    }
}

/// Law: `reset` then `next` always yields the index-0 event of the wheel when
/// traversing forward.
pub proof fn lemma_first_after_reset(s: Seq<Event>)
    requires
        s.len() > 0,
    ensures
        fwd_stream(s, 0) == s[0],
{
}

/// Law: with reverse direction, the stream of `next` results enumerates one
/// revolution in exactly the reverse of the forward order, wraparound at both
/// ends included: from a fresh reset, the `k`-th reverse result equals the
/// `(n - 1 - k)`-th forward result, and both streams repeat with period `n`.
pub proof fn lemma_reverse_enumeration(s: Seq<Event>, k: nat)
    requires
        0 < s.len(),
        k < s.len(),
    ensures
        rev_stream(s, k) == fwd_stream(s, (s.len() - 1 - k) as nat),
        fwd_stream(s, k + s.len()) == fwd_stream(s, k),
        rev_stream(s, k + s.len()) == rev_stream(s, k),
{
    let n = s.len() as int;
    lemma_rev_pos_after(0, k + 1, n);
    lemma_fwd_pos_after(0, (n - 1 - k) as nat, n);
    lemma_fwd_pos_after(0, k, n);
    lemma_fwd_pos_after(0, k + s.len(), n);
    lemma_rev_pos_after(0, k + 1 + s.len(), n);
    // (0 - (k + 1)) % n == n - 1 - k
    assert((0 - (k + 1)) % n == n - 1 - k) by {
        vstd::arithmetic::div_mod::lemma_mod_add_multiples_vanish(0 - (k + 1), n);
        vstd::arithmetic::div_mod::lemma_small_mod((n - 1 - k) as nat, n as nat);
    }
    assert((n - 1 - k) % n == n - 1 - k) by {
        vstd::arithmetic::div_mod::lemma_small_mod((n - 1 - k) as nat, n as nat);
    }
    assert((k as int) % n == k as int) by {
        vstd::arithmetic::div_mod::lemma_small_mod(k, n as nat);
    }
    assert((k as int + n) % n == (k as int) % n) by {
        vstd::arithmetic::div_mod::lemma_mod_add_multiples_vanish(k as int, n);
    }
    assert((0 - (k + 1 + n)) % n == (0 - (k + 1)) % n) by {
        vstd::arithmetic::div_mod::lemma_mod_add_multiples_vanish(0 - (k + 1 + n), n);
    }
}

} // verus!
