//! One infection event and the rule by which it moves from state to state.

use vstd::prelude::*;
use crate::params::{rounded_days, round_to_days, Params, PROB_SCALE, MILLIDAYS_PER_DAY};

verus! {

/// The stage of an untreated infection.
#[derive(Debug, Clone, Copy, PartialEq, Eq, Structural)]
pub enum InfectionState {
    Exposed,
    Acute,
    Chronic,
}

/// One infection event: its stage, the day it entered that stage, and how
/// long it dwells there before it is looked at again.
#[derive(Debug, Clone, Copy, PartialEq, Eq, Structural)]
pub struct Inoculation {
    pub state: InfectionState,
    pub start_day: u32,
    pub delay_millidays: u32,
}

/// The random numbers that one transition may consume.
#[derive(Debug, Clone, Copy, PartialEq, Eq, Structural)]
pub struct Draws {
    /// Decides acute against chronic (from exposed) or chronic against
    /// clearance (from acute); uniform below `PROB_SCALE`.
    pub transition_roll: u32,
    /// Decides whether turning acute requests treatment.
    pub treatment_roll: u32,
    /// Dwell time if the inoculation turns acute, in millidays.
    pub acute_dwell: u32,
    /// Dwell time if the inoculation turns chronic, in millidays.
    pub chronic_dwell: u32,
    /// Time until a requested treatment takes effect, in millidays.
    pub treatment_delay: u32,
}

impl Draws {
    /// Every number lies in the range that `params` prescribes for it.
    pub open spec fn drawn_from(self, params: Params) -> bool {
        &&& self.transition_roll < PROB_SCALE
        &&& self.treatment_roll < PROB_SCALE
        &&& params.acute_duration.contains(self.acute_dwell)
        &&& params.chronic_duration.contains(self.chronic_dwell)
        &&& params.treatment_delay.contains(self.treatment_delay)
    }
}

/// A Bernoulli trial: a roll below the probability is a success. A
/// probability of `PROB_SCALE` always succeeds, one of zero never.
pub open spec fn succeeds(roll: u32, prob_ppm: u32) -> bool {
    roll < prob_ppm
}

/// What becomes of an inoculation on one day.
#[derive(Debug, Clone, Copy, PartialEq, Eq)]
pub struct Resolution {
    /// The inoculation afterwards; `None` when it is destroyed.
    pub next: Option<Inoculation>,
    /// The day for which treatment of the host is requested, if any.
    pub treatment_request: Option<u32>,
}

impl Inoculation {
    /// A fresh exposure on `day`, due after the liver stage.
    pub open spec fn exposure(day: u32, params: Params) -> Inoculation {
        Inoculation {
            state: InfectionState::Exposed,
            start_day: day,
            delay_millidays: params.liver_stage_millidays,
        }
    }

    /// The dwell time has elapsed by `day`.
    pub open spec fn is_due(self, day: u32) -> bool {
        (day - self.start_day) * MILLIDAYS_PER_DAY >= self.delay_millidays
    }

    /// The inoculation as it enters `state` on `day`.
    pub open spec fn entering(state: InfectionState, day: u32, dwell: u32) -> Inoculation {
        Inoculation { state, start_day: day, delay_millidays: dwell }
    }

    /// The transition rule.
    ///
    /// Nothing happens before the dwell time has elapsed. After it, an
    /// exposed inoculation of a host on prophylaxis is destroyed; otherwise
    /// it turns acute or chronic, and turning acute may request treatment
    /// a rounded delay ahead. An acute one turns chronic or clears. A
    /// chronic one clears.
    pub open spec fn resolution(
        self,
        day: u32,
        on_prophylaxis: bool,
        params: Params,
        draws: Draws,
    ) -> Resolution {
        if !self.is_due(day) {
            Resolution { next: Some(self), treatment_request: None }
        } else {
            match self.state {
                InfectionState::Exposed => {
                    if on_prophylaxis {
                        Resolution { next: None, treatment_request: None }
                    } else if succeeds(draws.transition_roll, params.prob_acute_ppm) {
                        Resolution {
                            next: Some(
                                Self::entering(InfectionState::Acute, day, draws.acute_dwell),
                            ),
                            treatment_request: if succeeds(
                                draws.treatment_roll,
                                params.prob_treatment_ppm,
                            ) {
                                Some((day + rounded_days(draws.treatment_delay as int)) as u32)
                            } else {
                                None
                            },
                        }
                    } else {
                        Resolution {
                            next: Some(
                                Self::entering(InfectionState::Chronic, day, draws.chronic_dwell),
                            ),
                            treatment_request: None,
                        }
                    }
                },
                InfectionState::Acute => {
                    if succeeds(draws.transition_roll, params.prob_acute_to_chronic_ppm) {
                        Resolution {
                            next: Some(
                                Self::entering(InfectionState::Chronic, day, draws.chronic_dwell),
                            ),
                            treatment_request: None,
                        }
                    } else {
                        Resolution { next: None, treatment_request: None }
                    }
                },
                InfectionState::Chronic => Resolution { next: None, treatment_request: None },
            }
        }
    }

    /// A fresh exposure on `day`, due after the liver stage.
    pub fn new_exposure(day: u32, params: &Params) -> (inoc: Inoculation)
        ensures
            inoc == Self::exposure(day, *params),
    {
        Inoculation {
            state: InfectionState::Exposed,
            start_day: day,
            delay_millidays: params.liver_stage_millidays,
        }
    }

    /// Whether the dwell time has elapsed by `day`.
    pub fn due(&self, day: u32) -> (r: bool)
        ensures
            r == self.is_due(day),
    {
        day >= self.start_day && (day - self.start_day) as u64 * (MILLIDAYS_PER_DAY as u64)
            >= self.delay_millidays as u64
    }

    /// Applies the transition rule for `day` with the given random numbers.
    pub fn resolve(&self, day: u32, on_prophylaxis: bool, params: &Params, draws: &Draws) -> (r:
        Resolution)
        requires
            day + rounded_days(draws.treatment_delay as int) <= u32::MAX,
        ensures
            r == self.resolution(day, on_prophylaxis, *params, *draws),
    {
        if !self.due(day) {
            return Resolution { next: Some(*self), treatment_request: None };
        }
        match self.state {
            InfectionState::Exposed => {
                if on_prophylaxis {
                    Resolution { next: None, treatment_request: None }
                } else if draws.transition_roll < params.prob_acute_ppm {
                    let request = if draws.treatment_roll < params.prob_treatment_ppm {
                        Some(day + round_to_days(draws.treatment_delay))
                    } else {
                        None
                    };
                    Resolution {
                        next: Some(
                            Inoculation {
                                state: InfectionState::Acute,
                                start_day: day,
                                delay_millidays: draws.acute_dwell,
                            },
                        ),
                        treatment_request: request,
                    }
                } else {
                    Resolution {
                        next: Some(
                            Inoculation {
                                state: InfectionState::Chronic,
                                start_day: day,
                                delay_millidays: draws.chronic_dwell,
                            },
                        ),
                        treatment_request: None,
                    }
                }
            },
            InfectionState::Acute => {
                if draws.transition_roll < params.prob_acute_to_chronic_ppm {
                    Resolution {
                        next: Some(
                            Inoculation {
                                state: InfectionState::Chronic,
                                start_day: day,
                                delay_millidays: draws.chronic_dwell,
                            },
                        ),
                        treatment_request: None,
                    }
                } else {
                    Resolution { next: None, treatment_request: None }
                }
            },
            InfectionState::Chronic => Resolution { next: None, treatment_request: None },
        }
    }
}

/// The edges of the state graph: exposed to acute or chronic, acute to
/// chronic, and from acute or chronic out of existence (`None`).
pub open spec fn is_edge(from: InfectionState, to: Option<InfectionState>) -> bool {
    match (from, to) {
        (InfectionState::Exposed, Some(InfectionState::Acute)) => true,
        (InfectionState::Exposed, Some(InfectionState::Chronic)) => true,
        (InfectionState::Acute, Some(InfectionState::Chronic)) => true,
        (InfectionState::Acute, None) => true,
        (InfectionState::Chronic, None) => true,
        _ => false,
    }
}

/// The step that a resolution makes in the state graph.
pub open spec fn reached(r: Resolution) -> Option<InfectionState> {
    match r.next {
        Some(n) => Some(n.state),
        None => None,
    }
}

/// Whatever the random numbers, the transition rule leaves an inoculation
/// exactly as it was or moves it along one edge of the state graph; one that
/// moves to a new state starts it on the day of the move, with the dwell
/// time drawn for that state, and none moves before its dwell time has
/// elapsed. The one step outside the graph is left out: a due exposed
/// inoculation of a host on prophylaxis is destroyed.
pub proof fn lemma_transitions_follow_edges(
    inoc: Inoculation,
    day: u32,
    on_prophylaxis: bool,
    params: Params,
    draws: Draws,
)
    requires
        !(on_prophylaxis && inoc.state == InfectionState::Exposed && inoc.is_due(day)),
    ensures
        ({
            let r = inoc.resolution(day, on_prophylaxis, params, draws);
            ||| r.next == Some(inoc)
            ||| is_edge(inoc.state, reached(r))
        }),
        ({
            let r = inoc.resolution(day, on_prophylaxis, params, draws);
            match r.next {
                Some(n) => n != inoc ==> n.start_day == day && (n.delay_millidays
                    == draws.acute_dwell && n.state == InfectionState::Acute || n.delay_millidays
                    == draws.chronic_dwell && n.state == InfectionState::Chronic),
                None => inoc.is_due(day),
            }
        }),
        !inoc.is_due(day) ==> inoc.resolution(day, on_prophylaxis, params, draws).next == Some(inoc),
{
}

/// On a host under prophylaxis an exposed inoculation never turns acute or
/// chronic: it waits unchanged until its dwell time has elapsed and is then
/// destroyed, and it never requests treatment. Other inoculations of such a
/// host move as they would on any host.
pub proof fn lemma_prophylaxis_suppresses_exposed(
    inoc: Inoculation,
    day: u32,
    params: Params,
    draws: Draws,
)
    ensures
        inoc.state == InfectionState::Exposed ==> inoc.resolution(day, true, params, draws) == (
        Resolution {
            next: if inoc.is_due(day) { None } else { Some(inoc) },
            treatment_request: None,
        }),
        inoc.state != InfectionState::Exposed ==> inoc.resolution(day, true, params, draws)
            == inoc.resolution(day, false, params, draws),
{
}

/// A treatment request is never for a day before the one it is made on, and
/// only an inoculation that turns acute makes one.
pub proof fn lemma_request_not_in_past(
    inoc: Inoculation,
    day: u32,
    on_prophylaxis: bool,
    params: Params,
    draws: Draws,
)
    requires
        day + rounded_days(draws.treatment_delay as int) <= u32::MAX,
    ensures
        (match inoc.resolution(day, on_prophylaxis, params, draws).treatment_request {
            Some(d) => {
                &&& d >= day
                &&& d == day + rounded_days(draws.treatment_delay as int)
                &&& inoc.state == InfectionState::Exposed
                &&& reached(inoc.resolution(day, on_prophylaxis, params, draws)) == Some(
                    InfectionState::Acute,
                )
            },
            None => true,
        }),
{
}

} // verus!
