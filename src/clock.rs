//! The fixed-timestep frame clock: elapsed wall-clock time in, ticks out.

use vstd::arithmetic::div_mod::lemma_div_is_ordered_by_denominator;
use vstd::prelude::*;

verus! {

/// Microseconds in a second.
pub const MICROS_PER_SECOND: u64 = 1000000;

/// The tick rate an uncapped game runs at.
pub const UNCAPPED_FRAME_RATE: u64 = 255;

/// The time between two ticks, in microseconds, for a configured frame rate;
/// `None` or zero runs at the uncapped rate.
pub open spec fn target_micros(frame_rate: Option<u8>) -> nat {
    match frame_rate {
        Some(rate) => if rate > 0 {
            (MICROS_PER_SECOND / (rate as u64)) as nat
        } else {
            (MICROS_PER_SECOND / UNCAPPED_FRAME_RATE) as nat
        },
        None => (MICROS_PER_SECOND / UNCAPPED_FRAME_RATE) as nat,
    }
}

/// `1 / elapsed` in ticks per second for `elapsed` microseconds, rounded to
/// the nearest integer with halves rounded up; zero for no elapsed time.
pub open spec fn rounded_rate(elapsed: nat) -> nat {
    if elapsed == 0 {
        0
    } else {
        (2 * (MICROS_PER_SECOND as nat) + elapsed) / (2 * elapsed)
    }
}

/// The time between two ticks for a configured frame rate, in microseconds.
pub fn target_frame_micros(frame_rate: Option<u8>) -> (r: u64)
    ensures
        r == target_micros(frame_rate),
        r >= MICROS_PER_SECOND / UNCAPPED_FRAME_RATE,
{
    match frame_rate {
        Some(rate) => if rate > 0 {
            proof {
                lemma_div_is_ordered_by_denominator(
                    MICROS_PER_SECOND as int,
                    rate as int,
                    UNCAPPED_FRAME_RATE as int,
                );
            }
            MICROS_PER_SECOND / (rate as u64)
        } else {
            MICROS_PER_SECOND / UNCAPPED_FRAME_RATE
        },
        None => MICROS_PER_SECOND / UNCAPPED_FRAME_RATE,
    }
}

/// The frame rate measured over `elapsed_micros`, rounded to the nearest
/// integer; zero when no time has elapsed.
pub fn measured_frame_rate(elapsed_micros: u64) -> (r: u64)
    ensures
        r == rounded_rate(elapsed_micros as nat),
{
    if elapsed_micros == 0 {
        0
    } else if elapsed_micros > 2 * MICROS_PER_SECOND {
        let ghost e = elapsed_micros as nat;
        assert((2 * (MICROS_PER_SECOND as nat) + e) / (2 * e) == 0) by (nonlinear_arith)
            requires
                e > 2 * (MICROS_PER_SECOND as nat),
        ;
        0
    } else {
        (2 * MICROS_PER_SECOND + elapsed_micros) / (2 * elapsed_micros)
    }
}

/// The abstract state of a frame clock.
pub struct FrameClockView {
    /// Microseconds between two ticks.
    pub target: nat,
    /// Microseconds elapsed since the last tick.
    pub accumulated: nat,
}

/// Accumulates elapsed time and fires a tick each time a full frame time has
/// passed.
#[derive(Debug, Clone, Copy)]
pub struct FrameClock {
    target: u64,
    accumulated: u64,
}

impl View for FrameClock {
    type V = FrameClockView;

    closed spec fn view(&self) -> FrameClockView {
        FrameClockView { target: self.target as nat, accumulated: self.accumulated as nat }
    }
}

impl FrameClock {
    /// The clock's invariant: a frame lasts at least as long as at the
    /// uncapped rate.
    pub closed spec fn wf(&self) -> bool {
        self.target >= MICROS_PER_SECOND / UNCAPPED_FRAME_RATE
    }

    /// A clock for the configured frame rate, with nothing accumulated yet.
    pub fn new(frame_rate: Option<u8>) -> (r: FrameClock)
        ensures
            r.wf(),
            r@.target == target_micros(frame_rate),
            r@.accumulated == 0,
    {
        FrameClock { target: target_frame_micros(frame_rate), accumulated: 0 }
    }

    /// Adds `elapsed_micros` to the accumulated time (saturating at the
    /// largest `u64`). When the total reaches the frame time, the clock
    /// starts over from zero and returns the measured frame rate of that total:
    /// one tick is due.
    pub fn advance(&mut self, elapsed_micros: u64) -> (r: Option<u16>)
        requires
            old(self).wf(),
        ensures
            final(self).wf(),
            final(self)@.target == old(self)@.target,
            ({
                let total = if old(self)@.accumulated + elapsed_micros > u64::MAX {
                    u64::MAX as nat
                } else {
                    (old(self)@.accumulated + elapsed_micros) as nat
                };
                &&& total >= old(self)@.target ==> r == Some(rounded_rate(total) as u16)
                    && final(self)@.accumulated == 0
                &&& total < old(self)@.target ==> r is None && final(self)@.accumulated
                    == total
            }),
            r matches Some(rate) ==> rate <= UNCAPPED_FRAME_RATE,
    {
        let total = self.accumulated.saturating_add(elapsed_micros);
        if total >= self.target {
            let rate = measured_frame_rate(total);
            let ghost t = total as nat;
            assert(rounded_rate(t) <= UNCAPPED_FRAME_RATE) by {
                assert(2 * (MICROS_PER_SECOND as nat) + t < (UNCAPPED_FRAME_RATE as nat + 1) * (2 * t))
                    by (nonlinear_arith)
                    requires
                        t >= 3921,
                ;
                assert((2 * (MICROS_PER_SECOND as nat) + t) / (2 * t) <= UNCAPPED_FRAME_RATE as nat)
                    by (nonlinear_arith)
                    requires
                        2 * (MICROS_PER_SECOND as nat) + t < (UNCAPPED_FRAME_RATE as nat + 1) * (2
                            * t),
                        t > 0,
                ;
            }
            self.accumulated = 0;
            Some(rate as u16)
        } else {
            self.accumulated = total;
            None
        }
    }

    /// Microseconds left until the next tick is due.
    pub fn remaining_micros(&self) -> (r: u64)
        ensures
            r == if self@.accumulated < self@.target {
                self@.target - self@.accumulated
            } else {
                0
            },
    {
        if self.accumulated < self.target {
            self.target - self.accumulated
        } else {
            0
        }
    }
}

} // verus!
