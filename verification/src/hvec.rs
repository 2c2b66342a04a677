//! Trusted boundary around `heapless::Vec`, the fixed-capacity vector that
//! backs every table in this crate (wheel event tables and the command
//! backlog). Each wrapper states, over an abstract contents sequence, what
//! the `heapless` source shows of the one method its body calls.

use vstd::prelude::*;
use crate::cmn::Event;
use crate::spdmngr::SpdCmd;

verus! {

/// Capacity of a crank wheel table: enough for the largest supported
/// configuration (120 teeth, two events per tooth).
pub const CRK_EV_CAP: usize = 240;

/// Capacity of a cam wheel table.
pub const CAM_EV_CAP: usize = 21;

/// Capacity of the speed-command backlog.
pub const CMD_CAP: usize = 10;

#[verifier::external_type_specification]
#[verifier::external_body]
#[verifier::reject_recursive_types(T)]
pub struct ExHeaplessVec<T, const N: usize>(heapless::Vec<T, N>);

/// The events held by a crank wheel table, in order.
pub uninterp spec fn crk_vec_seq(v: heapless::Vec<Event, CRK_EV_CAP>) -> Seq<Event>;

/// The events held by a cam wheel table, in order.
pub uninterp spec fn cam_vec_seq(v: heapless::Vec<Event, CAM_EV_CAP>) -> Seq<Event>;

/// The commands held by the backlog, oldest first.
pub uninterp spec fn cmd_vec_seq(v: heapless::Vec<SpdCmd, CMD_CAP>) -> Seq<SpdCmd>;

/// Relies on heapless::Vec::new: a fresh vector is empty.
#[verifier::external_body]
pub(crate) fn crk_vec_new() -> (r: heapless::Vec<Event, CRK_EV_CAP>)
    ensures
        crk_vec_seq(r) == Seq::<Event>::empty(),
{
    heapless::Vec::new()
}

/// Relies on heapless::Vec::push: appends the item when the vector is not
/// full (the requires rules the full case out; an unverified caller that
/// overfills a wheel halts here, a fatal configuration error).
#[verifier::external_body]
pub(crate) fn crk_vec_push(v: &mut heapless::Vec<Event, CRK_EV_CAP>, e: Event)
    requires
        crk_vec_seq(*old(v)).len() < CRK_EV_CAP,
    ensures
        crk_vec_seq(*final(v)) == crk_vec_seq(*old(v)).push(e),
{
    v.push(e).ok().unwrap()
}

/// Relies on heapless::Vec::len (through the slice view): the stored length.
#[verifier::external_body]
pub(crate) fn crk_vec_len(v: &heapless::Vec<Event, CRK_EV_CAP>) -> (r: usize)
    ensures
        r == crk_vec_seq(*v).len(),
{
    v.len()
}

/// Relies on the slice indexing that heapless::Vec dereferences to: the
/// element at `i`, which is in range by the requires.
#[verifier::external_body]
pub(crate) fn crk_vec_get(v: &heapless::Vec<Event, CRK_EV_CAP>, i: usize) -> (r: Event)
    requires
        i < crk_vec_seq(*v).len(),
    ensures
        r == crk_vec_seq(*v)[i as int],
{
    v[i]
}

/// Relies on heapless::Vec::new: a fresh vector is empty.
#[verifier::external_body]
pub(crate) fn cam_vec_new() -> (r: heapless::Vec<Event, CAM_EV_CAP>)
    ensures
        cam_vec_seq(r) == Seq::<Event>::empty(),
{
    heapless::Vec::new()
}

/// Relies on heapless::Vec::push: appends the item when the vector is not
/// full (the requires rules the full case out).
#[verifier::external_body]
pub(crate) fn cam_vec_push(v: &mut heapless::Vec<Event, CAM_EV_CAP>, e: Event)
    requires
        cam_vec_seq(*old(v)).len() < CAM_EV_CAP,
    ensures
        cam_vec_seq(*final(v)) == cam_vec_seq(*old(v)).push(e),
{
    let _ = v.push(e);
}

/// Relies on heapless::Vec::len (through the slice view): the stored length.
#[verifier::external_body]
pub(crate) fn cam_vec_len(v: &heapless::Vec<Event, CAM_EV_CAP>) -> (r: usize)
    ensures
        r == cam_vec_seq(*v).len(),
{
    v.len()
}

/// Relies on the slice indexing that heapless::Vec dereferences to: the
/// element at `i`, which is in range by the requires.
#[verifier::external_body]
pub(crate) fn cam_vec_get(v: &heapless::Vec<Event, CAM_EV_CAP>, i: usize) -> (r: Event)
    requires
        i < cam_vec_seq(*v).len(),
    ensures
        r == cam_vec_seq(*v)[i as int],
{
    v[i]
}

/// Relies on heapless::Vec::new: a fresh vector is empty.
#[verifier::external_body]
pub(crate) fn cmd_vec_new() -> (r: heapless::Vec<SpdCmd, CMD_CAP>)
    ensures
        cmd_vec_seq(r) == Seq::<SpdCmd>::empty(),
{
    heapless::Vec::new()
}

/// Relies on heapless::Vec::push: appends the item when the vector is not
/// full, and hands it back unchanged in `Err` when it is.
#[verifier::external_body]
pub(crate) fn cmd_vec_push(v: &mut heapless::Vec<SpdCmd, CMD_CAP>, c: SpdCmd) -> (r: Result<(), SpdCmd>)
    ensures
        r == if cmd_vec_seq(*old(v)).len() < CMD_CAP { Ok::<(), SpdCmd>(()) } else { Err::<(), SpdCmd>(c) },
        cmd_vec_seq(*final(v)) == if cmd_vec_seq(*old(v)).len() < CMD_CAP {
            cmd_vec_seq(*old(v)).push(c)
        } else {
            cmd_vec_seq(*old(v))
        },
{
    v.push(c)
}

/// Relies on heapless::Vec::len (through the slice view): the stored length.
#[verifier::external_body]
pub(crate) fn cmd_vec_len(v: &heapless::Vec<SpdCmd, CMD_CAP>) -> (r: usize)
    ensures
        r == cmd_vec_seq(*v).len(),
{
    v.len()
}

/// Relies on heapless::Vec::clear: removes every element.
#[verifier::external_body]
pub(crate) fn cmd_vec_clear(v: &mut heapless::Vec<SpdCmd, CMD_CAP>)
    ensures
        cmd_vec_seq(*final(v)) == Seq::<SpdCmd>::empty(),
{
    v.clear()
}

/// Relies on heapless::Vec::remove: removes and returns the element at
/// index 0, shifting the rest left (in range by the requires).
#[verifier::external_body]
pub(crate) fn cmd_vec_remove_front(v: &mut heapless::Vec<SpdCmd, CMD_CAP>) -> (r: SpdCmd)
    requires
        cmd_vec_seq(*old(v)).len() > 0,
    ensures
        r == cmd_vec_seq(*old(v))[0],
        cmd_vec_seq(*final(v)) == cmd_vec_seq(*old(v)).subrange(
            1,
            cmd_vec_seq(*old(v)).len() as int,
        ),
{
    v.remove(0)
}

} // verus!
