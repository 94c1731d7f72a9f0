//! The random source and the draws that the model takes from it.

use vstd::prelude::*;
use rand::rngs::StdRng;
use rand::Rng;
use crate::inoculation::Draws;
use crate::params::{Params, PROB_SCALE};

verus! {

/// `rand::rngs::StdRng`, the seedable generator that the model draws from.
/// Declared as an opaque type: nothing is known of its state.
#[verifier::external_type_specification]
#[verifier::external_body]
pub struct ExStdRng(rand::rngs::StdRng);

/// Calls `rand::Rng::gen_range` on the half-open range `low..high` of
/// `u32`. Trusted, not proved: the call returns a value of that range, and
/// it panics only on an empty range, which the precondition excludes.
/// Nothing is claimed about which value of the range comes back.
#[verifier::external_body]
pub(crate) fn uniform_in(rng: &mut StdRng, low: u32, high: u32) -> (r: u32)
    requires
        low < high,
    ensures
        low <= r < high,
{
    rng.gen_range(low..high)
}

/// Draws a roll for a Bernoulli trial, uniform below `PROB_SCALE`.
pub fn roll(rng: &mut StdRng) -> (r: u32)
    ensures
        r < PROB_SCALE,
{
    uniform_in(rng, 0, PROB_SCALE)
}

/// Draws the random numbers for one transition, each from the range that
/// `params` prescribes for it.
pub fn draw_transition(rng: &mut StdRng, params: &Params) -> (d: Draws)
    requires
        params.ranges_nonempty(),
    ensures
        d.drawn_from(*params),
{
    let transition_roll = roll(rng);
    let treatment_roll = roll(rng);
    let acute_dwell = uniform_in(rng, params.acute_duration.low, params.acute_duration.high);
    let chronic_dwell = uniform_in(rng, params.chronic_duration.low, params.chronic_duration.high);
    let treatment_delay = uniform_in(rng, params.treatment_delay.low, params.treatment_delay.high);
    Draws { transition_roll, treatment_roll, acute_dwell, chronic_dwell, treatment_delay }
}

/// Draws the random numbers for `n` transitions.
pub fn draw_batch(rng: &mut StdRng, params: &Params, n: usize) -> (batch: Vec<Draws>)
    requires
        params.ranges_nonempty(),
    ensures
        batch.len() == n,
        forall|k: int| 0 <= k < n ==> (#[trigger] batch[k]).drawn_from(*params),
{
    let mut batch: Vec<Draws> = Vec::new();
    let mut i: usize = 0;
    while i < n
        invariant
            i <= n,
            batch.len() == i,
            params.ranges_nonempty(),
            forall|k: int| 0 <= k < i ==> (#[trigger] batch[k]).drawn_from(*params),
        decreases n - i,
    {
        let d = draw_transition(rng, params);
        batch.push(d);
        i = i + 1;
    }
    batch
}

} // verus!
