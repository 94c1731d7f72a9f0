//! The simulation clock: elapsed time, scaled by a speed multiplier, is
//! accumulated and converted into whole simulated days.

use vstd::prelude::*;
use vstd::arithmetic::div_mod::lemma_fundamental_div_mod_converse;

verus! {

/// The accumulator units that make up one simulated day. One unit is a
/// microsecond of wall time at a speed multiplier of one thousandth, so a
/// day lasts one wall second at speed 1.0.
pub const NANOS_PER_DAY: u64 = 1_000_000_000;

/// The speed multiplier 1.0, in thousandths.
pub const UNIT_SPEED: u32 = 1000;

/// Simulated time that passes in `wall_delta_micros` microseconds of wall
/// time at a speed of `speed_milli` thousandths, in accumulator units.
pub open spec fn elapsed_nanos(wall_delta_micros: u64, speed_milli: u32) -> int {
    wall_delta_micros as int * speed_milli as int
}

/// The mathematical value of a clock.
pub struct ClockView {
    pub day: int,
    pub timer: int,
}

impl ClockView {
    /// Day boundaries crossed when `nanos` more units are accumulated.
    pub open spec fn crossings(self, nanos: int) -> int {
        (self.timer + nanos) / (NANOS_PER_DAY as int)
    }

    /// The clock after `nanos` more units: one day for every full
    /// `NANOS_PER_DAY` held, the remainder kept in the accumulator.
    pub open spec fn advanced(self, nanos: int) -> ClockView {
        ClockView {
            day: self.day + self.crossings(nanos),
            timer: (self.timer + nanos) % (NANOS_PER_DAY as int),
        }
    }
}

/// Whole days elapsed, and the part of the current day already accumulated.
#[derive(Debug, Clone, Copy, PartialEq, Eq, Structural)]
pub struct Clock {
    pub day: u32,
    pub timer_nanos: u64,
}

impl View for Clock {
    type V = ClockView;

    open spec fn view(&self) -> ClockView {
        ClockView { day: self.day as int, timer: self.timer_nanos as int }
    }
}

impl Clock {
    /// The accumulator holds less than one full day.
    pub open spec fn wf(self) -> bool {
        self.timer_nanos < NANOS_PER_DAY
    }

    /// A clock at day 0 with an empty accumulator.
    pub fn new() -> (c: Clock)
        ensures
            c.wf(),
            c.day == 0,
            c.timer_nanos == 0,
    {
        Clock { day: 0, timer_nanos: 0 }
    }

    /// Whether `advance` may be called with these arguments: the day counter
    /// must not run past `limit`.
    pub fn fits(&self, wall_delta_micros: u64, speed_milli: u32, limit: u32) -> (ok: bool)
        requires
            self.wf(),
        ensures
            ok == (self@.advanced(elapsed_nanos(wall_delta_micros, speed_milli)).day <= limit),
    {
        let total: u128 = scaled_total(self.timer_nanos, wall_delta_micros, speed_milli);
        let crossings: u128 = total / (NANOS_PER_DAY as u128);
        crossings + self.day as u128 <= limit as u128
    }

    /// Accumulates `wall_delta_micros * speed_milli` units. Every full day
    /// held by the accumulator is taken out of it and counted, one at a
    /// time, so that no boundary is skipped however large the step. Returns
    /// the number of boundaries crossed.
    pub fn advance(&mut self, wall_delta_micros: u64, speed_milli: u32) -> (crossed: u32)
        requires
            old(self).wf(),
            old(self)@.advanced(elapsed_nanos(wall_delta_micros, speed_milli)).day <= u32::MAX,
        ensures
            final(self).wf(),
            final(self)@ == old(self)@.advanced(elapsed_nanos(wall_delta_micros, speed_milli)),
            crossed == old(self)@.crossings(elapsed_nanos(wall_delta_micros, speed_milli)),
    {
        let ghost start = self@;
        let ghost nanos = elapsed_nanos(wall_delta_micros, speed_milli);
        let mut total: u128 = scaled_total(self.timer_nanos, wall_delta_micros, speed_milli);
        let mut crossed: u32 = 0;
        while total >= NANOS_PER_DAY as u128
            invariant
                start.timer + nanos == total + crossed * NANOS_PER_DAY,
                self.day == start.day + crossed,
                start.day + start.crossings(nanos) <= u32::MAX,
                self.timer_nanos == start.timer,
                0 <= start.timer,
                0 <= start.day,
            decreases total,
        {
            proof {
                lemma_fundamental_div_mod_converse(
                    start.timer + nanos,
                    NANOS_PER_DAY as int,
                    crossed + (total as int) / (NANOS_PER_DAY as int),
                    (total as int) % (NANOS_PER_DAY as int),
                );
            }
            total = total - NANOS_PER_DAY as u128;
            self.day = self.day + 1;
            crossed = crossed + 1;
        }
        proof {
            lemma_fundamental_div_mod_converse(
                start.timer + nanos,
                NANOS_PER_DAY as int,
                crossed as int,
                total as int,
            );
        }
        self.timer_nanos = total as u64;
        crossed
    }
}

impl Default for Clock {
    /// A clock at day 0 with an empty accumulator.
    fn default() -> (c: Clock)
        ensures
            c == (Clock { day: 0, timer_nanos: 0 }),
    {
        Clock::new()
    }
}

/// `timer + wall_delta_micros * speed_milli`, which always fits in 128 bits.
fn scaled_total(timer: u64, wall_delta_micros: u64, speed_milli: u32) -> (total: u128)
    ensures
        total == timer + elapsed_nanos(wall_delta_micros, speed_milli),
        total <= 0xffff_ffff_ffff_ffff + 0xffff_ffff_ffff_ffff * 0xffff_ffff,
{
    let wall: u128 = wall_delta_micros as u128;
    let speed: u128 = speed_milli as u128;
    assert(wall * speed <= 0xffff_ffff_ffff_ffff * 0xffff_ffff) by (nonlinear_arith)
        requires
            0 <= wall <= 0xffff_ffff_ffff_ffff,
            0 <= speed <= 0xffff_ffff,
    ;
    timer as u128 + wall * speed
}

/// The day counter never goes back, and moves only when the accumulator
/// fills: it stays where it is exactly when the accumulated time remains
/// below one day, and the accumulator always ends below one day.
pub proof fn lemma_advance_monotone(c: ClockView, nanos: int)
    requires
        0 <= c.timer < NANOS_PER_DAY,
        0 <= nanos,
    ensures
        c.advanced(nanos).day >= c.day,
        0 <= c.advanced(nanos).timer < NANOS_PER_DAY,
        c.advanced(nanos).day == c.day <==> c.timer + nanos < NANOS_PER_DAY,
        c.timer + nanos < NANOS_PER_DAY ==> c.advanced(nanos).timer == c.timer + nanos,
        c.advanced(nanos).day * NANOS_PER_DAY + c.advanced(nanos).timer == c.day * NANOS_PER_DAY
            + c.timer + nanos,
{
}

/// Advancing is additive: accumulating `a` units and then `b` more leaves
/// the same day and the same accumulator as accumulating `a + b` at once.
pub proof fn lemma_advance_additive(c: ClockView, a: int, b: int)
    requires
        0 <= c.timer < NANOS_PER_DAY,
        0 <= a,
        0 <= b,
    ensures
        c.advanced(a).advanced(b) == c.advanced(a + b),
{
}

/// The same law over wall time: two steps of `a` and `b` microseconds at one
/// speed leave the clock where a single step of `a + b` microseconds does.
pub proof fn lemma_advance_additive_wall(c: Clock, a: u64, b: u64, speed_milli: u32)
    requires
        c.wf(),
        a + b <= u64::MAX,
    ensures
        c@.advanced(elapsed_nanos(a, speed_milli)).advanced(elapsed_nanos(b, speed_milli))
            == c@.advanced(elapsed_nanos((a + b) as u64, speed_milli)),
{
    assert(elapsed_nanos(a, speed_milli) + elapsed_nanos(b, speed_milli) == elapsed_nanos(
        (a + b) as u64,
        speed_milli,
    )) by (nonlinear_arith)
        requires
            a + b <= u64::MAX,
    ;
    assert(0 <= elapsed_nanos(a, speed_milli)) by (nonlinear_arith);
    assert(0 <= elapsed_nanos(b, speed_milli)) by (nonlinear_arith);
    lemma_advance_additive(c@, elapsed_nanos(a, speed_milli), elapsed_nanos(b, speed_milli));
}

} // verus!
