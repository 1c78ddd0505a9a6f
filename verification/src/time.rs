//! The simulation clock: a time in milliseconds since the epoch that moves in
//! steps of one resolution.

use vstd::prelude::*;
use crate::data::Resolution;
use crate::rtengine::RunMode;

verus! {

/// The start of the step of length `step` that holds `time`: the largest
/// multiple of `step` that is not after `time`. A step without length leaves
/// the time as it is. At the low end of the 64-bit range the result wraps.
pub open spec fn floor_to_step(time: i64, step: i64) -> i64 {
    if step > 0 {
        time.wrapping_sub(((time as int) % (step as int)) as i64)
    } else {
        time
    }
}

/// The clock. It is created at a start time, which need not lie on a step
/// boundary. The first advance floors the time to a boundary before it adds
/// the first step; every later advance adds one step. Sums wrap at the ends of
/// the 64-bit range.
#[derive(Debug, Clone, Copy)]
pub struct TimeSync {
    time: i64,
    resolution: Resolution,
    is_quantized: bool,
}

impl TimeSync {
    /// The current time, as a specification.
    pub closed spec fn now(&self) -> i64 {
        self.time
    }

    /// The resolution the clock steps by.
    pub closed spec fn resolution(&self) -> Resolution {
        self.resolution
    }

    /// Whether the time has been floored to a step boundary yet.
    pub closed spec fn is_quantized(&self) -> bool {
        self.is_quantized
    }

    /// The time after one advance of a clock in the given state.
    pub open spec fn advanced(time: i64, step: i64, is_quantized: bool) -> i64 {
        if is_quantized {
            time.wrapping_add(step)
        } else {
            floor_to_step(time, step).wrapping_add(step)
        }
    }

    /// A clock at `time` that has not advanced yet.
    pub fn new(time: i64, resolution: Resolution) -> (r: Self)
        ensures
            r.now() == time,
            r.resolution() == resolution,
            !r.is_quantized(),
    {
        TimeSync { time, resolution, is_quantized: false }
    }

    /// The current time.
    pub fn get_time(&self) -> (r: i64)
        ensures
            r == self.now(),
    {
        self.time
    }

    /// The resolution the clock steps by.
    pub fn get_resolution(&self) -> (r: Resolution)
        ensures
            r == self.resolution(),
    {
        self.resolution
    }

    /// The start of the current period: one step before the current time.
    pub open spec fn spec_period_start(&self) -> i64 {
        self.now().wrapping_sub(self.resolution().millis())
    }

    /// The start of the current period: one step before the current time.
    #[verifier::when_used_as_spec(spec_period_start)]
    pub fn period_start(&self) -> (r: i64)
        ensures
            r == self.spec_period_start(),
    {
        self.time.wrapping_sub(self.resolution.millis())
    }

    /// Whether `after` is this clock after the update of one cycle in the
    /// given mode: one advance in a back test, no change in any other mode.
    pub open spec fn ticked(&self, mode: RunMode, after: TimeSync) -> bool {
        &&& after.resolution() == self.resolution()
        &&& mode == RunMode::BackTest ==> after.is_quantized() && after.now() == Self::advanced(
            self.now(),
            self.resolution().millis(),
            self.is_quantized(),
        )
        &&& mode != RunMode::BackTest ==> after == *self
    }

    /// Advances the clock in a back test; in every other mode the clock is
    /// left as it is.
    pub fn update_time(&mut self, mode: RunMode)
        ensures
            old(self).ticked(mode, *final(self)),
    {
        match mode {
            RunMode::LiveTrade => (),
            RunMode::PaperTrade => (),
            RunMode::BackTest => self.update_time_backtest(),
            RunMode::UnitTest => (),
        }
    }

    /// Advances the clock by one step, after flooring the time to a step
    /// boundary where that has not happened yet.
    pub fn update_time_backtest(&mut self)
        ensures
            final(self).resolution() == old(self).resolution(),
            final(self).is_quantized(),
            final(self).now() == Self::advanced(
                old(self).now(),
                old(self).resolution().millis(),
                old(self).is_quantized(),
            ),
    {
        if !self.is_quantized {
            self.quantize_time();
        }
        self.time = self.time.wrapping_add(self.resolution.millis());
    }

    /// Floors the time to a step boundary.
    pub fn quantize_time(&mut self)
        ensures
            final(self).resolution() == old(self).resolution(),
            final(self).is_quantized(),
            final(self).now() == floor_to_step(old(self).now(), old(self).resolution().millis()),
    {
        let step: i64 = self.resolution.millis();
        if step > 0 {
            match self.time.checked_rem_euclid(step) {
                Some(rest) => {
                    self.time = self.time.wrapping_sub(rest);
                },
                None => {},
            }
        }
        self.is_quantized = true;
    }
}

/// Where nothing wraps, one advance of a clock that has not advanced before
/// leads to the first step boundary after the start time: a multiple of the
/// step, later than the start, and at most one step later.
pub proof fn lemma_first_advance(time: i64, step: i64)
    requires
        step > 0,
        i64::MIN + step <= time <= i64::MAX - step,
    ensures
        TimeSync::advanced(time, step, false) as int % step as int == 0,
        time < TimeSync::advanced(time, step, false) <= time + step,
{
    let rest = (time as int) % (step as int);
    let floor = time - rest;
    assert(floor % (step as int) == 0) by {
        vstd::arithmetic::div_mod::lemma_fundamental_div_mod(time as int, step as int);
        vstd::arithmetic::div_mod::lemma_mod_multiples_basic((time as int) / (step as int), step as int);
        assert(floor == ((time as int) / (step as int)) * (step as int)) by (nonlinear_arith)
            requires
                floor == (step as int) * ((time as int) / (step as int)),
        ;
    }
    assert((floor + step) % (step as int) == 0) by {
        vstd::arithmetic::div_mod::lemma_mod_add_multiples_vanish(floor, step as int);
    }
}

/// Where nothing wraps, an advance of a clock that has advanced before adds
/// exactly one step, so the clock never goes back.
pub proof fn lemma_later_advance(time: i64, step: i64)
    requires
        step >= 0,
        time <= i64::MAX - step,
    ensures
        TimeSync::advanced(time, step, true) == time + step,
        TimeSync::advanced(time, step, true) >= time,
{
}

} // verus!
