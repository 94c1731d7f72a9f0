//! Model parameters, their units and their validation.

use vstd::prelude::*;

verus! {

/// A probability of one, in parts per million.
pub const PROB_SCALE: u32 = 1_000_000;

/// The number of duration units (millidays) in one day.
pub const MILLIDAYS_PER_DAY: u32 = 1000;

/// A duration in millidays rounded to whole days, halves rounding up.
pub open spec fn rounded_days(millidays: int) -> int {
    (millidays + 500) / 1000
}

/// Rounds a duration in millidays to the nearest whole day.
pub fn round_to_days(millidays: u32) -> (days: u32)
    ensures
        days == rounded_days(millidays as int),
{
    let wide: u64 = millidays as u64 + 500;
    (wide / 1000) as u32
}

/// Why a configuration was rejected.
#[derive(Debug, Clone, Copy, PartialEq, Eq, Structural)]
pub enum ConfigError {
    /// A probability is above one (`PROB_SCALE`).
    ProbabilityOutOfRange,
    /// A duration range has no positive width (`low >= high`).
    EmptyDurationRange,
    /// The speed multiplier is zero.
    NonPositiveSpeed,
}

/// A half-open range `[low, high)` of durations, in millidays, from which
/// dwell times are drawn uniformly.
#[derive(Debug, Clone, Copy, PartialEq, Eq, Structural)]
pub struct DurationRange {
    pub low: u32,
    pub high: u32,
}

impl DurationRange {
    /// The range holds at least one value.
    pub open spec fn wf(self) -> bool {
        self.low < self.high
    }

    /// `d` lies in the range.
    pub open spec fn contains(self, d: u32) -> bool {
        self.low <= d < self.high
    }
}

/// The rates, probabilities and durations that govern the model.
#[derive(Debug, Clone, Copy, PartialEq, Eq, Structural)]
pub struct Params {
    /// Delay before an exposed inoculation resolves, in millidays.
    pub liver_stage_millidays: u32,
    /// Time a treated host stays on prophylaxis, in millidays.
    pub prophylaxis_millidays: u32,
    /// Probability that an exposed inoculation turns acute, in ppm.
    pub prob_acute_ppm: u32,
    /// Probability that an acute inoculation turns chronic, in ppm.
    pub prob_acute_to_chronic_ppm: u32,
    /// Probability that turning acute triggers a treatment request, in ppm.
    pub prob_treatment_ppm: u32,
    /// Dwell time in the acute state.
    pub acute_duration: DurationRange,
    /// Dwell time in the chronic state.
    pub chronic_duration: DurationRange,
    /// Time between a treatment request and its taking effect.
    pub treatment_delay: DurationRange,
    /// Expected new infections per host per simulated day, in ppm.
    pub incidence_rate_ppm: u32,
}

impl Params {
    /// All three probabilities are at most one.
    pub open spec fn probabilities_in_range(self) -> bool {
        &&& self.prob_acute_ppm <= PROB_SCALE
        &&& self.prob_acute_to_chronic_ppm <= PROB_SCALE
        &&& self.prob_treatment_ppm <= PROB_SCALE
    }

    /// All three duration ranges are non-empty.
    pub open spec fn ranges_nonempty(self) -> bool {
        &&& self.acute_duration.wf()
        &&& self.chronic_duration.wf()
        &&& self.treatment_delay.wf()
    }

    /// The configuration is valid.
    pub open spec fn wf(self) -> bool {
        self.probabilities_in_range() && self.ranges_nonempty()
    }

    /// What `validate` answers: probabilities are judged before ranges.
    pub open spec fn verdict(self) -> Result<(), ConfigError> {
        if !self.probabilities_in_range() {
            Err(ConfigError::ProbabilityOutOfRange)
        } else if !self.ranges_nonempty() {
            Err(ConfigError::EmptyDurationRange)
        } else {
            Ok(())
        }
    }

    /// The furthest ahead, in whole days, that a step can schedule anything:
    /// the longest rounded treatment delay or the rounded prophylaxis window.
    pub open spec fn horizon_days(self) -> int {
        let delay = rounded_days(self.treatment_delay.high as int);
        let window = rounded_days(self.prophylaxis_millidays as int);
        if delay >= window { delay } else { window }
    }

    /// Builds a configuration from its nine values, rejecting an invalid one
    /// with the first kind of fault found.
    pub fn new(
        liver_stage_millidays: u32,
        prophylaxis_millidays: u32,
        prob_acute_ppm: u32,
        prob_acute_to_chronic_ppm: u32,
        prob_treatment_ppm: u32,
        acute_duration: DurationRange,
        chronic_duration: DurationRange,
        treatment_delay: DurationRange,
        incidence_rate_ppm: u32,
    ) -> (r: Result<Params, ConfigError>)
        ensures
            (match r {
                Ok(p) => p.wf() && p == (Params {
                    liver_stage_millidays,
                    prophylaxis_millidays,
                    prob_acute_ppm,
                    prob_acute_to_chronic_ppm,
                    prob_treatment_ppm,
                    acute_duration,
                    chronic_duration,
                    treatment_delay,
                    incidence_rate_ppm,
                }),
                Err(e) => (Params {
                    liver_stage_millidays,
                    prophylaxis_millidays,
                    prob_acute_ppm,
                    prob_acute_to_chronic_ppm,
                    prob_treatment_ppm,
                    acute_duration,
                    chronic_duration,
                    treatment_delay,
                    incidence_rate_ppm,
                }).verdict() == Err::<(), ConfigError>(e),
            }),
    {
        let p = Params {
            liver_stage_millidays,
            prophylaxis_millidays,
            prob_acute_ppm,
            prob_acute_to_chronic_ppm,
            prob_treatment_ppm,
            acute_duration,
            chronic_duration,
            treatment_delay,
            incidence_rate_ppm,
        };
        match p.validate() {
            Ok(_) => Ok(p),
            Err(e) => Err(e),
        }
    }

    /// Validates the configuration, naming the first kind of fault found.
    pub fn validate(&self) -> (r: Result<(), ConfigError>)
        ensures
            r == self.verdict(),
            r.is_ok() <==> self.wf(),
    {
        if self.prob_acute_ppm > PROB_SCALE || self.prob_acute_to_chronic_ppm > PROB_SCALE
            || self.prob_treatment_ppm > PROB_SCALE {
            Err(ConfigError::ProbabilityOutOfRange)
        } else if self.acute_duration.low >= self.acute_duration.high
            || self.chronic_duration.low >= self.chronic_duration.high
            || self.treatment_delay.low >= self.treatment_delay.high {
            Err(ConfigError::EmptyDurationRange)
        } else {
            Ok(())
        }
    }

    /// Replaces the treatment probability, rejecting a value above one and
    /// leaving the parameters untouched in that case.
    pub fn set_prob_treatment(&mut self, ppm: u32) -> (r: Result<(), ConfigError>)
        ensures
            ppm <= PROB_SCALE ==> r == Ok::<(), ConfigError>(()) && *final(self) == (Params {
                prob_treatment_ppm: ppm,
                ..*old(self)
            }),
            ppm > PROB_SCALE ==> r == Err::<(), ConfigError>(ConfigError::ProbabilityOutOfRange)
                && *final(self) == *old(self),
    {
        if ppm > PROB_SCALE {
            Err(ConfigError::ProbabilityOutOfRange)
        } else {
            self.prob_treatment_ppm = ppm;
            Ok(())
        }
    }

    /// The furthest ahead, in whole days, that a step can schedule anything.
    pub fn horizon(&self) -> (days: u32)
        ensures
            days == self.horizon_days(),
    {
        let delay = round_to_days(self.treatment_delay.high);
        let window = round_to_days(self.prophylaxis_millidays);
        if delay >= window { delay } else { window }
    }
}

impl Default for Params {
    /// A week in the liver stage, two weeks of prophylaxis, acute episodes of
    /// 10 to 40 days, chronic ones of 100 to 400, treatment within two days,
    /// and one new infection per host every ten days.
    fn default() -> (p: Params)
        ensures
            p.wf(),
            p == (Params {
                liver_stage_millidays: 7_000,
                prophylaxis_millidays: 14_000,
                prob_acute_ppm: 700_000,
                prob_acute_to_chronic_ppm: 200_000,
                prob_treatment_ppm: 400_000,
                acute_duration: DurationRange { low: 10_000, high: 40_000 },
                chronic_duration: DurationRange { low: 100_000, high: 400_000 },
                treatment_delay: DurationRange { low: 0, high: 2_000 },
                incidence_rate_ppm: 100_000,
            }),
    {
        Params {
            liver_stage_millidays: 7_000,
            prophylaxis_millidays: 14_000,
            prob_acute_ppm: 700_000,
            prob_acute_to_chronic_ppm: 200_000,
            prob_treatment_ppm: 400_000,
            acute_duration: DurationRange { low: 10_000, high: 40_000 },
            chronic_duration: DurationRange { low: 100_000, high: 400_000 },
            treatment_delay: DurationRange { low: 0, high: 2_000 },
            incidence_rate_ppm: 100_000,
        }
    }
}

} // verus!
