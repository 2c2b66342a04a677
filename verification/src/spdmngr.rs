//! Speed manager: commanded speed, a bounded command backlog, and the
//! per-poll ramp state machine.
//!
//! `get_next_speed` must be called once per `ti_res_ms` period by the
//! foreground loop; a ramp's real-world duration is only as accurate as that
//! polling cadence, so a delayed poll makes ramps run slower than nominally
//! configured. Commands are served in arrival order (first in, first out).

use vstd::prelude::*;
use crate::hvec::{
    cmd_vec_clear, cmd_vec_len, cmd_vec_new, cmd_vec_push, cmd_vec_remove_front, cmd_vec_seq,
    CMD_CAP,
};

verus! {

/// A speed command, as handed in by the surrounding firmware.
#[derive(Debug, Copy, Clone, PartialEq, Eq, Structural)]
pub enum SpdCmd {
    /// Jump to a fixed speed, in RPM.
    FixedSpd(u32),
    /// Ramp to the destination speed (RPM) over the given duration (ms).
    Ramp(u32, u32),
    /// Increment the current speed by the specified RPMs.
    Inc(u32),
    /// Decrement the current speed by the specified RPMs.
    Dec(u32),
}

/// Mathematical state of the speed manager.
pub ghost struct SpdView {
    /// Current speed, RPM.
    pub cur: int,
    /// Pending commands, oldest first.
    pub backlog: Seq<SpdCmd>,
    /// Signed delta or destination of the command being served.
    pub cmd: int,
    /// Remaining time of the command being served, ms.
    pub rem: int,
    /// Polling resolution, ms.
    pub res: int,
    /// Whether the command being served is a ramp.
    pub ramping: bool,
}

/// Clamp a speed into the representable range: never negative, saturating at
/// the largest representable value.
pub open spec fn clamp_spd(v: int) -> int {
    if v < 0 {
        0
    } else if v > u32::MAX as int {
        u32::MAX as int
    } else {
        v
    }
}

/// The state right after dequeuing command `c`: a ramp arms `cmd`/`rem` for
/// stepping; an increment or decrement becomes a one-step signed delta; a
/// fixed speed is applied immediately.
pub open spec fn apply_cmd(s: SpdView, c: SpdCmd) -> SpdView {
    match c {
        SpdCmd::Ramp(dest, ti) => SpdView {
            cmd: dest as int,
            rem: ti as int,
            ramping: true,
            ..s
        },
        SpdCmd::Inc(d) => SpdView { cmd: d as int, rem: 1, ramping: false, ..s },
        SpdCmd::Dec(d) => SpdView { cmd: -(d as int), rem: 1, ramping: false, ..s },
        SpdCmd::FixedSpd(dest) => SpdView {
            cur: dest as int,
            cmd: dest as int,
            rem: 0,
            ramping: false,
            ..s
        },
    }
}

/// One poll of the speed manager:
/// - with no command in progress, dequeue the oldest pending command;
/// - `rem == 0`: the current speed is already settled, output it unchanged;
/// - `rem == 1` outside a ramp: apply the signed one-step delta, clamped;
/// - otherwise step the ramp: spread the remaining speed difference evenly
///   over the remaining polls (truncating division), and retire `res` ms.
pub open spec fn poll_spec(s: SpdView) -> SpdView {
    let s1 = if s.rem == 0 && s.backlog.len() > 0 {
        apply_cmd(
            SpdView { backlog: s.backlog.subrange(1, s.backlog.len() as int), ..s },
            s.backlog[0],
        )
    } else {
        s
    };
    if s1.rem == 0 {
        SpdView { ramping: false, ..s1 }
    } else if s1.rem == 1 && !s1.ramping {
        let c = clamp_spd(s1.cur + s1.cmd);
        SpdView { cur: c, cmd: c, rem: 0, ramping: false, ..s1 }
    } else {
        let k = s1.rem / s1.res;
        if k == 0 {
            SpdView { cur: clamp_spd(s1.cmd), rem: 0, ramping: false, ..s1 }
        } else {
            let step = if s1.cmd >= s1.cur {
                (s1.cmd - s1.cur) / k
            } else {
                -((s1.cur - s1.cmd) / k)
            };
            let rem2 = if s1.rem > s1.res {
                s1.rem - s1.res
            } else {
                0
            };
            SpdView {
                cur: s1.cur + step,
                rem: rem2,
                ramping: if rem2 == 0 {
                    false
                } else {
                    s1.ramping
                },
                ..s1
            }
        }
    }
}

/// The state after `n` polls.
pub open spec fn poll_iter(s: SpdView, n: nat) -> SpdView
    decreases n,
{
    if n == 0 {
        s
    } else {
        poll_iter(poll_spec(s), (n - 1) as nat)
    }
}

/// Law: one poll of a running ramp moves the current speed toward the target
/// and never past it, retires one resolution period (stopping at 0), and
/// leaves target, resolution and backlog alone; once less than two periods
/// remain, the target is reached exactly.
pub proof fn lemma_ramp_step(s: SpdView)
    requires
        s.ramping,
        s.rem >= 1,
        s.res >= 1,
        0 <= s.cur <= u32::MAX as int,
        0 <= s.cmd <= u32::MAX as int,
    ensures
        ({
            let s2 = poll_spec(s);
            &&& (s.cur <= s.cmd ==> s.cur <= s2.cur <= s.cmd)
            &&& (s.cur >= s.cmd ==> s.cmd <= s2.cur <= s.cur)
            &&& s2.rem == if s.rem > s.res {
                s.rem - s.res
            } else {
                0int
            }
            &&& (s.rem < 2 * s.res ==> s2.cur == s.cmd)
            &&& s2.cmd == s.cmd
            &&& s2.res == s.res
            &&& s2.backlog == s.backlog
            &&& (s2.rem > 0 ==> s2.ramping)
        }),
{
    let k = s.rem / s.res;
    vstd::arithmetic::div_mod::lemma_div_pos_is_pos(s.rem, s.res);
    if k == 0 {
        // a zero quotient means less than one full period is left
        if s.rem >= s.res {
            vstd::arithmetic::div_mod::lemma_div_is_ordered(s.res, s.rem, s.res);
            vstd::arithmetic::div_mod::lemma_div_basics(s.res);
        }
    } else {
        let gap = if s.cmd >= s.cur {
            s.cmd - s.cur
        } else {
            s.cur - s.cmd
        };
        vstd::arithmetic::div_mod::lemma_div_nonincreasing(gap, k);
        vstd::arithmetic::div_mod::lemma_div_pos_is_pos(gap, k);
        if s.rem < 2 * s.res {
            // exactly one period's worth of polls left: the whole remaining
            // difference is applied in this step
            assert(k == 1) by {
                vstd::arithmetic::div_mod::lemma_fundamental_div_mod(s.rem, s.res);
                vstd::arithmetic::div_mod::lemma_mod_division_less_than_divisor(s.rem, s.res);
                assert(s.rem == s.res * k + s.rem % s.res);
                if k >= 2 {
                    assert(s.res * k >= s.res * 2) by (nonlinear_arith)
                        requires
                            k >= 2,
                            s.res >= 1,
                    ;
                }
            }
            vstd::arithmetic::div_mod::lemma_div_basics(gap);
        }
    }
}

/// Law: a ramp whose remaining time is exactly `n` polling periods reaches
/// its target after exactly `n` polls — truncating division makes every step
/// land between the current speed and the target, and the last step lands on
/// the target itself.
pub proof fn lemma_ramp_converges(s: SpdView, n: nat)
    requires
        s.ramping,
        s.res >= 1,
        n >= 1,
        s.rem == n * s.res,
        0 <= s.cur <= u32::MAX as int,
        0 <= s.cmd <= u32::MAX as int,
    ensures
        poll_iter(s, n).cur == s.cmd,
        poll_iter(s, n).rem == 0,
    decreases n,
{
    assert(s.rem >= 1) by (nonlinear_arith)
        requires
            s.rem == n * s.res,
            n >= 1,
            s.res >= 1,
    ;
    lemma_ramp_step(s);
    let s2 = poll_spec(s);
    if n == 1 {
        assert(s.rem == s.res && s.rem < 2 * s.res) by (nonlinear_arith)
            requires
                s.rem == n * s.res,
                n == 1,
                s.res >= 1,
        ;
        assert(poll_iter(s2, 0nat) == s2);
        assert(poll_iter(s, 1) == poll_iter(s2, 0nat));
    } else {
        assert(s.rem >= 2 * s.res) by (nonlinear_arith)
            requires
                s.rem == n * s.res,
                n >= 2,
                s.res >= 1,
        ;
        assert(s2.rem == s.rem - s.res);
        assert(s2.rem == (n - 1) * s.res) by (nonlinear_arith)
            requires
                s.rem == n * s.res,
                s2.rem == s.rem - s.res,
        ;
        assert(s2.rem >= 1 && s2.ramping) by (nonlinear_arith)
            requires
                s2.rem == (n - 1) * s.res,
                n >= 2,
                s.res >= 1,
                s2.rem > 0 ==> s2.ramping,
        ;
        lemma_ramp_converges(s2, (n - 1) as nat);
        assert(poll_iter(s, n) == poll_iter(s2, (n - 1) as nat));
    }
}

/// Speed manager state: current speed, the bounded backlog, and the command
/// being served.
pub struct SpdMngr {
    pub cur_spd: u32,
    pub cmd_list: heapless::Vec<SpdCmd, CMD_CAP>,
    pub cmd_spd: i64,
    pub rem_ti: u32,
    pub ti_res_ms: u32,
    pub in_ramp: bool,
}

impl View for SpdMngr {
    type V = SpdView;

    open spec fn view(&self) -> SpdView {
        SpdView {
            cur: self.cur_spd as int,
            backlog: cmd_vec_seq(self.cmd_list),
            cmd: self.cmd_spd as int,
            rem: self.rem_ti as int,
            res: self.ti_res_ms as int,
            ramping: self.in_ramp,
        }
    }
}

impl SpdMngr {
    /// Internal consistency: the polling resolution is positive, the armed
    /// delta stays within one speed range, a command with more than one
    /// period left is always a ramp, and a running ramp targets a
    /// non-negative speed.
    pub open spec fn wf(self) -> bool {
        &&& self.ti_res_ms > 0
        &&& -(u32::MAX as int) <= self.cmd_spd as int <= u32::MAX as int
        &&& (self.rem_ti >= 2 ==> self.in_ramp)
        &&& (self.rem_ti > 0 && self.in_ramp ==> self.cmd_spd >= 0)
    }

    /// A fresh manager: standing still, nothing pending, polled every 10 ms.
    pub fn new() -> (r: SpdMngr)
        ensures
            r.wf(),
            r@ == (SpdView {
                cur: 0,
                backlog: Seq::<SpdCmd>::empty(),
                cmd: 0,
                rem: 0,
                res: 10,
                ramping: false,
            }),
    {
        SpdMngr {
            cur_spd: 0,
            cmd_list: cmd_vec_new(),
            cmd_spd: 0,
            rem_ti: 0,
            ti_res_ms: 10,
            in_ramp: false,
        }
    }

    /// Append a command to the backlog. Fails, handing the command back,
    /// exactly when the backlog is at capacity.
    pub fn add_cmd(&mut self, cmd: SpdCmd) -> (r: Result<(), SpdCmd>)
        requires
            old(self).wf(),
        ensures
            final(self).wf(),
            r == if old(self)@.backlog.len() < CMD_CAP {
                Ok::<(), SpdCmd>(())
            } else {
                Err::<(), SpdCmd>(cmd)
            },
            final(self)@.backlog == if old(self)@.backlog.len() < CMD_CAP {
                old(self)@.backlog.push(cmd)
            } else {
                old(self)@.backlog
            },
            final(self)@.cur == old(self)@.cur,
            final(self)@.cmd == old(self)@.cmd,
            final(self)@.rem == old(self)@.rem,
            final(self)@.res == old(self)@.res,
            final(self)@.ramping == old(self)@.ramping,
    {
        cmd_vec_push(&mut self.cmd_list, cmd)
    }

    /// Clear the backlog and install `cmd` as the sole pending command: a
    /// priority override.
    pub fn rst_and_force_cmd(&mut self, cmd: SpdCmd)
        requires
            old(self).wf(),
        ensures
            final(self).wf(),
            final(self)@.backlog == Seq::<SpdCmd>::empty().push(cmd),
            final(self)@.cur == old(self)@.cur,
            final(self)@.cmd == old(self)@.cmd,
            final(self)@.rem == old(self)@.rem,
            final(self)@.res == old(self)@.res,
            final(self)@.ramping == old(self)@.ramping,
    {
        cmd_vec_clear(&mut self.cmd_list);
        // cannot fail: the backlog was just cleared
        let _ = cmd_vec_push(&mut self.cmd_list, cmd);
    }

    /// One poll: serve the backlog and advance the ramp state machine as
    /// `poll_spec` lays it out, and return the resulting current speed.
    pub fn get_next_speed(&mut self) -> (r: u32)
        requires
            old(self).wf(),
        ensures
            final(self).wf(),
            final(self)@ == poll_spec(old(self)@),
            r == final(self)@.cur,
    {
        if self.rem_ti == 0 {
            if cmd_vec_len(&self.cmd_list) > 0 {
                let nxt = cmd_vec_remove_front(&mut self.cmd_list);
                match nxt {
                    SpdCmd::Ramp(dest, ti) => {
                        self.cmd_spd = dest as i64;
                        self.rem_ti = ti;
                        self.in_ramp = true;
                    },
                    SpdCmd::Inc(inc) => {
                        self.cmd_spd = inc as i64;
                        self.rem_ti = 1;
                        self.in_ramp = false;
                    },
                    SpdCmd::Dec(dec) => {
                        self.cmd_spd = -(dec as i64);
                        self.rem_ti = 1;
                        self.in_ramp = false;
                    },
                    SpdCmd::FixedSpd(dest) => {
                        self.cmd_spd = dest as i64;
                        self.rem_ti = 0;
                        self.in_ramp = false;
                        self.cur_spd = dest;
                    },
                }
            }
        }
        if self.rem_ti == 0 {
            self.in_ramp = false;
        } else if self.rem_ti == 1 && !self.in_ramp {
            let sum: i64 = self.cur_spd as i64 + self.cmd_spd;
            self.cur_spd = if sum < 0 {
                0
            } else if sum > u32::MAX as i64 {
                u32::MAX
            } else {
                sum as u32
            };
            self.cmd_spd = self.cur_spd as i64;
            self.rem_ti = 0;
            self.in_ramp = false;
        } else {
            let k: u32 = self.rem_ti / self.ti_res_ms;
            if k == 0 {
                self.cur_spd = self.cmd_spd as u32;
                self.rem_ti = 0;
                self.in_ramp = false;
            } else {
                let cur64: i64 = self.cur_spd as i64;
                if self.cmd_spd >= cur64 {
                    let step: u64 = ((self.cmd_spd - cur64) as u64) / (k as u64);
                    proof {
                        vstd::arithmetic::div_mod::lemma_div_nonincreasing(
                            self.cmd_spd as int - self.cur_spd as int,
                            k as int,
                        );
                        vstd::arithmetic::div_mod::lemma_div_pos_is_pos(
                            self.cmd_spd as int - self.cur_spd as int,
                            k as int,
                        );
                    }
                    self.cur_spd = self.cur_spd + (step as u32);
                } else {
                    let step: u64 = ((cur64 - self.cmd_spd) as u64) / (k as u64);
                    proof {
                        vstd::arithmetic::div_mod::lemma_div_nonincreasing(
                            self.cur_spd as int - self.cmd_spd as int,
                            k as int,
                        );
                        vstd::arithmetic::div_mod::lemma_div_pos_is_pos(
                            self.cur_spd as int - self.cmd_spd as int,
                            k as int,
                        );
                    }
                    self.cur_spd = self.cur_spd - (step as u32);
                }
                self.rem_ti = if self.rem_ti > self.ti_res_ms {
                    self.rem_ti - self.ti_res_ms
                } else {
                    0
                };
                if self.rem_ti == 0 {
                    self.in_ramp = false;
                }
            }
        }
        self.cur_spd
    }
}

} // verus!
