//! A repeating frame-count timer.
//!
//! `FrameTimer` counts down once per simulation tick and wraps back to its
//! period on reaching zero.  It is the cadence primitive behind trail
//! spawning and trail lifetime, and is part of every rollback snapshot, so
//! it is a plain value type.
//!
//! Known quirk, kept deliberately: `finished()` also reads true on a freshly
//! constructed timer, before any `tick()`, because a fresh counter equals the
//! period.  Callers that only test `finished()` right after a `tick()` (as the
//! simulation does) see a wrap exactly once every `period` ticks.

use vstd::prelude::*;

verus! {

#[derive(Clone, Copy, PartialEq, Eq, Debug)]
pub struct FrameTimer {
    pub frames_left: u32,
    pub period: u32,
}

impl FrameTimer {
    /// Well-formed: the counter always sits in `[1, period]`.
    pub open spec fn wf(self) -> bool {
        1 <= self.frames_left && self.frames_left <= self.period
    }

    /// Construction with a checked period: a zero period would make the
    /// counter meaningless and is rejected.
    pub fn try_new(period: u32) -> (r: Option<FrameTimer>)
        ensures
            r is Some <==> period >= 1,
            period >= 1 ==> r == Some(FrameTimer { frames_left: period, period: period }),
    {
        if period == 0 {
            None
        } else {
            Some(FrameTimer { frames_left: period, period })
        }
    }

    /// Construction when the caller already knows the period is positive.
    pub fn new(period: u32) -> (t: FrameTimer)
        requires
            period >= 1,
        ensures
            t == (FrameTimer { frames_left: period, period: period }),
            t.wf(),
    {
        FrameTimer { frames_left: period, period }
    }

    /// The value `tick` leaves behind: count down, wrapping to the period.
    pub open spec fn spec_tick(self) -> FrameTimer {
        if self.frames_left == 1 {
            FrameTimer { frames_left: self.period, period: self.period }
        } else {
            FrameTimer { frames_left: (self.frames_left - 1) as u32, period: self.period }
        }
    }

    pub fn tick(&mut self)
        requires
            old(self).wf(),
        ensures
            *final(self) == old(self).spec_tick(),
            final(self).wf(),
    {
        if self.frames_left == 1 {
            self.frames_left = self.period;
        } else {
            self.frames_left = self.frames_left - 1;
        }
    }

    /// True exactly when the counter just wrapped (or was never ticked).
    pub open spec fn spec_finished(self) -> bool {
        self.frames_left == self.period
    }

    pub fn finished(&self) -> (b: bool)
        ensures
            b == self.spec_finished(),
    {
        self.frames_left == self.period
    }

    /// The timer after `n` ticks.
    pub open spec fn ticked(self, n: nat) -> FrameTimer
        decreases n,
    {
        if n == 0 {
            self
        } else {
            self.ticked((n - 1) as nat).spec_tick()
        }
    }
}

/// Counter value of a fresh timer of period `period` after `n` ticks:
/// the period itself whenever `n` is a multiple of the period, and
/// `period - n % period` otherwise.
proof fn lemma_timer_counter(period: u32, n: nat)
    requires
        1 <= period,
    ensures
        ({
            let t = (FrameTimer { frames_left: period, period: period }).ticked(n);
            t.period == period && t.frames_left == if n % (period as nat) == 0 {
                period as int
            } else {
                period - n % (period as nat)
            }
        }),
    decreases n,
{
    let p = period as nat;
    if n == 0 {
    } else {
        let m = (n - 1) as nat;
        lemma_timer_counter(period, m);
        vstd::arithmetic::div_mod::lemma_fundamental_div_mod(m as int, p as int);
        vstd::arithmetic::div_mod::lemma_mod_bound(m as int, p as int);
        let pi = p as int;
        let q = m as int / pi;
        assert(m as int == pi * q + (m % p));
        if m % p == (p - 1) as nat {
            assert((q + 1) * pi == pi * q + pi) by (nonlinear_arith);
            assert(n as int == (q + 1) * pi + 0);
            vstd::arithmetic::div_mod::lemma_fundamental_div_mod_converse_mod(n as int, pi, q + 1, 0);
        } else {
            assert(q * pi == pi * q) by (nonlinear_arith);
            assert(n as int == q * pi + ((m % p) as int + 1));
            vstd::arithmetic::div_mod::lemma_fundamental_div_mod_converse_mod(
                n as int,
                pi,
                q,
                (m % p) as int + 1,
            );
        }
    }
}

/// Law: a fresh timer of period `period` reports `finished` after `n` ticks
/// exactly when `n` is a positive-or-zero multiple of the period, so over any
/// run of ticks it finishes once per `period` ticks, cyclically, forever.
pub proof fn lemma_timer_cycle(period: u32, n: nat)
    requires
        1 <= period,
    ensures
        (FrameTimer { frames_left: period, period: period }).ticked(n).spec_finished() <==> n % (
        period as nat) == 0,
{
    lemma_timer_counter(period, n);
    vstd::arithmetic::div_mod::lemma_mod_bound(n as int, period as int);
}

} // verus!
