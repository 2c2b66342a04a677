//! Capability interface that a hardware binding implements to drive the two
//! output channels. Exactly one concrete binding implements it; the wheel,
//! generator and speed logic stay independent of it so they can be exercised
//! off-target.

use vstd::prelude::*;
use crate::cam::CamSigGen;
use crate::crk::CrkSigGen;

verus! {

pub trait CrkCamSigGen {
    /// Store both generators (ownership transfers in), configure the timer
    /// channels and pins, and arm the interrupts. Not idempotent.
    fn initialize(&mut self, cam: CamSigGen, crk: CrkSigGen);

    /// Clamp `spd` to at least 1 RPM, derive the clock divider and apply it
    /// to the counter, bracketing the write with counter disable/enable.
    fn set_speed_rpm(&mut self, spd: u32);

    /// Serve one crank-channel compare-match interrupt.
    fn set_next_crk_ev(&mut self);

    /// Serve one cam-channel compare-match interrupt.
    fn set_next_cam_ev(&mut self);

    /// Pre-load the first compare event of both channels and arm the counter.
    fn start(&mut self);
}

} // verus!
