//! Timer scheduler: the hardware-facing state machine. On each compare-match
//! it pulls the next event from the channel's generator, turns its angular
//! delta into the next compare point, decides the output-compare action, and
//! keeps the two channels in phase by resynchronizing the crank to the cam.
//!
//! The hardware binding owns the register writes; this module owns every
//! decision. Each operation here returns the channel programming the binding
//! must apply.

use vstd::prelude::*;
use crate::cam::CamSigGen;
use crate::cmn::{Dir, Edge, Event, REV_TICKS};
use crate::crk::CrkSigGen;

verus! {

/// Auto-reload value of the shared counter: the counter runs 0..=0xFFFF, so
/// its period is `CRK_CAM_AUTORELOAD + 1` counts.
pub const CRK_CAM_AUTORELOAD: u32 = 0xFFFF;

/// Seconds per minute, for the RPM-to-divider derivation.
pub const TIM_MIN_FROM_S: u32 = 60;

/// Add `a` onto counter value `cv`, wrapping modulo `lim`: the explicit
/// unsigned wraparound of the compare-point computation.
pub fn wrapping_add(cv: u32, a: u32, lim: u32) -> (r: u32)
    requires
        lim > 0,
        cv + a <= u32::MAX,
    ensures
        r == ((cv + a) as int) % (lim as int),
{
    (cv + a) % lim
}

/// What the output compare must do at the programmed match: drive the pin
/// active, drive it inactive, or leave the level frozen (the missing-tooth
/// gap produces no transition).
#[derive(Debug, Copy, Clone, PartialEq, Eq, Structural)]
pub enum CmpAction {
    ActiveOnMatch,
    InactiveOnMatch,
    Frozen,
}

/// One channel reprogramming: the compare point to arm and the output action
/// to take when the counter reaches it.
#[derive(Debug, Copy, Clone, PartialEq, Eq, Structural)]
pub struct ChannelProgram {
    pub cmp: u16,
    pub action: CmpAction,
}

/// The action an event asks for: its edge when it generates output, frozen
/// otherwise.
pub open spec fn action_for(ev: Event) -> CmpAction {
    if !ev.is_gen {
        CmpAction::Frozen
    } else if ev.edge == Edge::Rising {
        CmpAction::ActiveOnMatch
    } else {
        CmpAction::InactiveOnMatch
    }
}

/// Decide the output-compare action for one event.
pub fn event_action(ev: &Event) -> (r: CmpAction)
    ensures
        r == action_for(*ev),
{
    if !ev.is_gen {
        CmpAction::Frozen
    } else {
        match ev.edge {
            Edge::Rising => CmpAction::ActiveOnMatch,
            Edge::Falling => CmpAction::InactiveOnMatch,
        }
    }
}

/// The speed actually applied: a requested 0 is substituted with 1 RPM so the
/// timer keeps running (never an error).
pub open spec fn clamped_speed(spd: u32) -> int {
    if spd > 0 {
        spd as int
    } else {
        1
    }
}

/// The clock divider for a speed: derived from the timer frequency and the
/// tick resolution, saturated to the largest representable divider and held
/// at no less than 1 so the register write (divider minus one) cannot wrap.
pub open spec fn prescaler_for(freq: u32, spd: u32) -> int {
    let p = (TIM_MIN_FROM_S as int) * 2 * ((freq as int) / (REV_TICKS as int)) / clamped_speed(
        spd,
    );
    if p > 0xFFFF {
        0xFFFF
    } else if p < 1 {
        1
    } else {
        p
    }
}

/// Timer scheduler state: the two generators (exclusively owned once
/// `initialize` stores them), the divider, the last programmed compare value
/// and last pulled event of each channel, and the commanded speed.
pub struct Timer {
    pub cam: Option<CamSigGen>,
    pub crk: Option<CrkSigGen>,
    pub prescaler: u32,
    pub cam_nxt_ev: u16,
    pub cam_ev: Event,
    pub crk_nxt_ev: u16,
    pub crk_ev: Event,
    /// Generation speed, RPM.
    pub speed: u32,
    /// Timer clock frequency, Hz.
    pub freq: u32,
}

impl Timer {
    /// The stored crank generator.
    pub open spec fn crk_gen(self) -> CrkSigGen {
        self.crk->Some_0
    }

    /// The stored cam generator.
    pub open spec fn cam_gen(self) -> CamSigGen {
        self.cam->Some_0
    }

    pub open spec fn wf(self) -> bool {
        &&& (self.crk is Some ==> self.crk_gen().wf())
        &&& (self.cam is Some ==> self.cam_gen().wf())
    }

    /// The compare point the crank channel programs next: the pulled event's
    /// angular delta added onto the last compare value, modulo the counter
    /// period.
    pub open spec fn crk_next_cmp(self) -> int {
        ((self.crk_nxt_ev as int) + (self.crk_gen().peek().ag as int)) % (
        CRK_CAM_AUTORELOAD as int + 1)
    }

    /// The compare point the cam channel programs next.
    pub open spec fn cam_next_cmp(self) -> int {
        ((self.cam_nxt_ev as int) + (self.cam_gen().peek().ag as int)) % (
        CRK_CAM_AUTORELOAD as int + 1)
    }

    /// What one crank-channel advance does to the scheduler state, and the
    /// programming it hands the hardware binding.
    pub open spec fn crk_advanced(pre: Timer, post: Timer, prog: ChannelProgram) -> bool {
        &&& prog.cmp == pre.crk_next_cmp()
        &&& prog.action == action_for(pre.crk_gen().peek())
        &&& post.crk is Some
        &&& post.crk_gen().events() == pre.crk_gen().events()
        &&& post.crk_gen().direction() == pre.crk_gen().direction()
        &&& post.crk_gen().pos() == pre.crk_gen().next_pos()
        &&& post.crk_ev == pre.crk_gen().peek()
        &&& post.crk_nxt_ev == pre.crk_next_cmp()
        &&& post.cam == pre.cam
        &&& post.cam_nxt_ev == pre.cam_nxt_ev
        &&& post.cam_ev == pre.cam_ev
        &&& post.prescaler == pre.prescaler
        &&& post.speed == pre.speed
        &&& post.freq == pre.freq
    }

    /// What one cam-channel advance does: the cam channel is reprogrammed,
    /// and when the pulled event is the index-0 event the crank generator is
    /// forced back to index 0 and the crank's revolution tick counter is
    /// cleared (cross-channel resynchronization).
    pub open spec fn cam_advanced(pre: Timer, post: Timer, prog: ChannelProgram) -> bool {
        &&& prog.cmp == pre.cam_next_cmp()
        &&& prog.action == action_for(pre.cam_gen().peek())
        &&& post.cam is Some
        &&& post.cam_gen().events() == pre.cam_gen().events()
        &&& post.cam_gen().direction() == pre.cam_gen().direction()
        &&& post.cam_gen().pos() == pre.cam_gen().next_pos()
        &&& post.cam_ev == pre.cam_gen().peek()
        &&& post.cam_nxt_ev == pre.cam_next_cmp()
        &&& post.crk is Some
        &&& post.crk_gen().events() == pre.crk_gen().events()
        &&& post.crk_gen().direction() == pre.crk_gen().direction()
        &&& if pre.cam_gen().peek().id == 0 {
            post.crk_gen().pos() == 0 && post.crk_nxt_ev == 0
        } else {
            post.crk_gen().pos() == pre.crk_gen().pos() && post.crk_nxt_ev == pre.crk_nxt_ev
        }
        &&& post.crk_ev == pre.crk_ev
        &&& post.prescaler == pre.prescaler
        &&& post.speed == pre.speed
        &&& post.freq == pre.freq
    }

    /// A fresh scheduler for a timer clocked at `freq` Hz: no generators yet,
    /// unit divider, both channels at rest.
    pub fn new(freq: u32) -> (r: Timer)
        ensures
            r == (Timer {
                cam: None::<CamSigGen>,
                crk: None::<CrkSigGen>,
                prescaler: 1u32,
                cam_nxt_ev: 0u16,
                cam_ev: Event { id: 0, ag: 0, edge: Edge::Falling, is_gen: true },
                crk_nxt_ev: 0u16,
                crk_ev: Event { id: 0, ag: 0, edge: Edge::Falling, is_gen: true },
                speed: 0u32,
                freq: freq,
            }),
            r.wf(),
    {
        Timer {
            cam: None,
            crk: None,
            prescaler: 1,
            cam_nxt_ev: 0,
            cam_ev: Event::new(),
            crk_nxt_ev: 0,
            crk_ev: Event::new(),
            speed: 0,
            freq,
        }
    }

    /// Store both generators; ownership transfers in. The hardware binding
    /// performs the register side of initialization around this call.
    pub fn initialize(&mut self, cam: CamSigGen, crk: CrkSigGen)
        requires
            cam.wf(),
            crk.wf(),
        ensures
            final(self).wf(),
            final(self).cam == Some(cam),
            final(self).crk == Some(crk),
            final(self).prescaler == old(self).prescaler,
            final(self).cam_nxt_ev == old(self).cam_nxt_ev,
            final(self).cam_ev == old(self).cam_ev,
            final(self).crk_nxt_ev == old(self).crk_nxt_ev,
            final(self).crk_ev == old(self).crk_ev,
            final(self).speed == old(self).speed,
            final(self).freq == old(self).freq,
    {
        self.cam = Some(cam);
        self.crk = Some(crk);
    }

    /// Apply a commanded speed: clamp 0 to 1 RPM (the zero-speed guard),
    /// derive the saturated clock divider, and hand back the value to write
    /// to the prescaler register (divider minus one). Generator cursors are
    /// untouched.
    pub fn set_speed_rpm(&mut self, spd: u32) -> (psc_reg: u16)
        requires
            old(self).wf(),
        ensures
            final(self).wf(),
            final(self).speed == clamped_speed(spd),
            final(self).prescaler == prescaler_for(old(self).freq, spd),
            psc_reg == final(self).prescaler - 1,
            final(self).cam == old(self).cam,
            final(self).crk == old(self).crk,
            final(self).cam_nxt_ev == old(self).cam_nxt_ev,
            final(self).cam_ev == old(self).cam_ev,
            final(self).crk_nxt_ev == old(self).crk_nxt_ev,
            final(self).crk_ev == old(self).crk_ev,
            final(self).freq == old(self).freq,
    {
        self.speed = if spd > 0 {
            spd
        } else {
            1
        };
        let base: u32 = TIM_MIN_FROM_S * 2 * (self.freq / REV_TICKS);
        let p: u32 = base / self.speed;
        self.prescaler = if p > 0xFFFF {
            0xFFFF
        } else if p < 1 {
            1
        } else {
            p
        };
        proof {
            vstd::arithmetic::div_mod::lemma_div_nonincreasing(
                self.freq as int,
                REV_TICKS as int,
            );
            vstd::arithmetic::div_mod::lemma_div_pos_is_pos(self.freq as int, REV_TICKS as int);
        }
        (self.prescaler - 1) as u16
    }

    /// Serve one crank-channel compare match. A call with the match flag
    /// unset is a spurious interrupt from shared dispatch: no state change,
    /// nothing to program. Otherwise pull the next crank event, program the
    /// next compare point one angular delta ahead, and select the output
    /// action (frozen for the missing-tooth gap).
    pub fn set_next_crk_ev(&mut self, flag_set: bool) -> (r: Option<ChannelProgram>)
        requires
            old(self).wf(),
            old(self).crk is Some,
        ensures
            final(self).wf(),
            final(self).crk is Some,
            !flag_set ==> r is None && *final(self) == *old(self),
            flag_set ==> (r matches Some(prog) && Timer::crk_advanced(*old(self), *final(self), prog)),
    {
        if !flag_set {
            return None;
        }
        let ev = match &mut self.crk {
            Some(g) => g.next(),
            None => vstd::pervasive::unreached(),
        };
        self.crk_ev = ev;
        let cmp = wrapping_add(ev.ag, self.crk_nxt_ev as u32, CRK_CAM_AUTORELOAD + 1);
        proof {
            vstd::arithmetic::div_mod::lemma_mod_division_less_than_divisor(
                ev.ag as int + old(self).crk_nxt_ev as int,
                CRK_CAM_AUTORELOAD as int + 1,
            );
        }
        self.crk_nxt_ev = cmp as u16;
        Some(ChannelProgram { cmp: self.crk_nxt_ev, action: event_action(&ev) })
    }

    /// Serve one cam-channel compare match. A call with the match flag unset
    /// is a spurious interrupt: no state change. Otherwise pull the next cam
    /// event, program the next compare point, select the output action, and —
    /// when the pulled event is the index-0 event, i.e. the cam wheel just
    /// completed a revolution — force the crank generator back to index 0 and
    /// clear the crank revolution tick counter, bounding phase drift between
    /// the two independently clocked channels to one cam revolution.
    pub fn set_next_cam_ev(&mut self, flag_set: bool) -> (r: Option<ChannelProgram>)
        requires
            old(self).wf(),
            old(self).cam is Some,
            old(self).crk is Some,
        ensures
            final(self).wf(),
            final(self).cam is Some,
            final(self).crk is Some,
            !flag_set ==> r is None && *final(self) == *old(self),
            flag_set ==> (r matches Some(prog) && Timer::cam_advanced(*old(self), *final(self), prog)),
    {
        if !flag_set {
            return None;
        }
        let ev = match &mut self.cam {
            Some(g) => g.next(),
            None => vstd::pervasive::unreached(),
        };
        self.cam_ev = ev;
        let cmp = wrapping_add(ev.ag, self.cam_nxt_ev as u32, CRK_CAM_AUTORELOAD + 1);
        proof {
            vstd::arithmetic::div_mod::lemma_mod_division_less_than_divisor(
                ev.ag as int + old(self).cam_nxt_ev as int,
                CRK_CAM_AUTORELOAD as int + 1,
            );
        }
        self.cam_nxt_ev = cmp as u16;
        if ev.id == 0 {
            match &mut self.crk {
                Some(g) => g.reset(),
                None => vstd::pervasive::unreached(),
            }
            self.crk_nxt_ev = 0;
        }
        Some(ChannelProgram { cmp: self.cam_nxt_ev, action: event_action(&ev) })
    }

    /// Pre-load the first compare event of both channels, so that enabling
    /// the counter cannot fire a spurious match at position zero. The
    /// binding writes the counter to 0, applies both programs, and only then
    /// enables the counter. No resynchronization happens here: both channels
    /// start from a known phase.
    pub fn start(&mut self) -> (r: (ChannelProgram, ChannelProgram))
        requires
            old(self).wf(),
            old(self).cam is Some,
            old(self).crk is Some,
        ensures
            final(self).wf(),
            ({
                let mid = Timer {
                    crk: final(self).crk,
                    crk_nxt_ev: final(self).crk_nxt_ev,
                    crk_ev: final(self).crk_ev,
                    ..*old(self)
                };
                &&& Timer::crk_advanced(*old(self), mid, r.0)
                &&& prog_cam_only(mid, *final(self), r.1)
            }),
    {
        let crk_ev = match &mut self.crk {
            Some(g) => g.next(),
            None => vstd::pervasive::unreached(),
        };
        self.crk_ev = crk_ev;
        let crk_cmp = wrapping_add(crk_ev.ag, self.crk_nxt_ev as u32, CRK_CAM_AUTORELOAD + 1);
        proof {
            vstd::arithmetic::div_mod::lemma_mod_division_less_than_divisor(
                crk_ev.ag as int + old(self).crk_nxt_ev as int,
                CRK_CAM_AUTORELOAD as int + 1,
            );
        }
        self.crk_nxt_ev = crk_cmp as u16;
        let crk_prog = ChannelProgram { cmp: self.crk_nxt_ev, action: event_action(&crk_ev) };

        let ghost mid = *self;
        let cam_ev = match &mut self.cam {
            Some(g) => g.next(),
            None => vstd::pervasive::unreached(),
        };
        self.cam_ev = cam_ev;
        let cam_cmp = wrapping_add(cam_ev.ag, self.cam_nxt_ev as u32, CRK_CAM_AUTORELOAD + 1);
        proof {
            vstd::arithmetic::div_mod::lemma_mod_division_less_than_divisor(
                cam_ev.ag as int + mid.cam_nxt_ev as int,
                CRK_CAM_AUTORELOAD as int + 1,
            );
        }
        self.cam_nxt_ev = cam_cmp as u16;
        let cam_prog = ChannelProgram { cmp: self.cam_nxt_ev, action: event_action(&cam_ev) };
        (crk_prog, cam_prog)
    }
}

/// What pre-loading the cam channel does: like a cam advance, but with no
/// resynchronization of the crank channel.
pub open spec fn prog_cam_only(pre: Timer, post: Timer, prog: ChannelProgram) -> bool {
    &&& prog.cmp == pre.cam_next_cmp()
    &&& prog.action == action_for(pre.cam_gen().peek())
    &&& post.cam is Some
    &&& post.cam_gen().events() == pre.cam_gen().events()
    &&& post.cam_gen().direction() == pre.cam_gen().direction()
    &&& post.cam_gen().pos() == pre.cam_gen().next_pos()
    &&& post.cam_ev == pre.cam_gen().peek()
    &&& post.cam_nxt_ev == pre.cam_next_cmp()
    &&& post.crk == pre.crk
    &&& post.crk_nxt_ev == pre.crk_nxt_ev
    &&& post.crk_ev == pre.crk_ev
    &&& post.prescaler == pre.prescaler
    &&& post.speed == pre.speed
    &&& post.freq == pre.freq
}

/// Law: resynchronization. Whenever the cam channel pulls the event with
/// index 0 — the cam wheel completes a revolution — the crank generator is
/// forced back to index 0, so the next crank event pulled after the resync is
/// the crank wheel's index-0 event, regardless of where the crank cursor
/// stood before.
pub proof fn lemma_resync_yields_index0(pre: Timer, post: Timer, prog: ChannelProgram)
    requires
        pre.wf(),
        pre.cam is Some,
        pre.crk is Some,
        pre.crk_gen().direction() == Dir::Fwd,
        pre.crk_gen().events().len() > 0,
        pre.cam_gen().peek().id == 0,
        Timer::cam_advanced(pre, post, prog),
    ensures
        post.crk_gen().pos() == 0,
        post.crk_gen().peek() == pre.crk_gen().events()[0],
{
}

} // verus!
