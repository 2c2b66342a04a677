//! Signal-generation core for an engine crank/cam sensor-wheel emulator.
//!
//! The crate models the two toothed wheels of an internal-combustion engine
//! (crankshaft and camshaft), derives their event tables from configuration,
//! walks them with cyclic generators, manages commanded speed and ramps, and
//! computes the timer programming that a hardware binding then writes to the
//! output-compare channels.

pub mod cam;
pub mod cam_cfg;
pub mod cmn;
pub mod convert;
pub mod crk;
pub mod crk_cfg;
pub mod hvec;
pub mod sched;
pub mod siggen;
pub mod spdmngr;
