//! The population-wide steps: a day's transitions, the treatment and
//! prophylaxis policy, and the arrival of new infections.

use vstd::prelude::*;
use rand::rngs::StdRng;
use crate::clock::{elapsed_nanos, NANOS_PER_DAY};
use crate::host::{Host, HostView};
use crate::inoculation::Draws;
use crate::params::{rounded_days, Params, PROB_SCALE};
use crate::random::{draw_batch, roll};

verus! {

/// The mathematical value of a population.
pub open spec fn views(hosts: Seq<Host>) -> Seq<HostView> {
    Seq::new(hosts.len(), |i: int| hosts[i]@)
}

/// `draws` holds, for every host, one set of random numbers for each of its
/// inoculations, each number in the range that `params` prescribes.
pub open spec fn draws_fit(hosts: Seq<HostView>, params: Params, draws: Seq<Seq<Draws>>) -> bool {
    &&& draws.len() == hosts.len()
    &&& forall|i: int|
        0 <= i < hosts.len() ==> (#[trigger] draws[i]).len() == hosts[i].inoculations.len()
    &&& forall|i: int, k: int|
        0 <= i < hosts.len() && 0 <= k < draws[i].len() ==> (#[trigger] draws[i][k]).drawn_from(
            params,
        )
}

/// The population after a day's transitions with the given random numbers.
pub open spec fn after_transitions_all(
    hosts: Seq<HostView>,
    day: u32,
    params: Params,
    draws: Seq<Seq<Draws>>,
) -> Seq<HostView> {
    Seq::new(hosts.len(), |i: int| hosts[i].after_transitions(day, params, draws[i]))
}

/// The treatment requests of the first `n` hosts, each with the index of
/// the host that it is for, host by host.
pub open spec fn emitted_upto(
    hosts: Seq<HostView>,
    day: u32,
    params: Params,
    draws: Seq<Seq<Draws>>,
    n: nat,
) -> Seq<(usize, u32)>
    decreases n,
{
    if n == 0 {
        Seq::empty()
    } else {
        emitted_upto(hosts, day, params, draws, (n - 1) as nat) + hosts[n - 1].requests(
            day,
            params,
            draws[n - 1],
        ).map_values(|requested: u32| ((n - 1) as usize, requested))
    }
}

/// The population after the treatment and prophylaxis policy of `day`.
pub open spec fn after_policy_all(hosts: Seq<HostView>, day: u32, params: Params) -> Seq<HostView> {
    Seq::new(hosts.len(), |i: int| hosts[i].after_policy(day, params))
}

/// Whether a new infection arrives: the roll, as a fraction of
/// `PROB_SCALE`, is below the rate times the simulated time elapsed.
pub open spec fn arrives(roll: u32, rate_ppm: u32, nanos: int) -> bool {
    roll * NANOS_PER_DAY < rate_ppm * nanos
}

/// The population after the arrivals that `rolls` decide, one roll a host.
pub open spec fn after_arrivals(
    hosts: Seq<HostView>,
    day: u32,
    params: Params,
    nanos: int,
    rolls: Seq<u32>,
) -> Seq<HostView> {
    Seq::new(
        hosts.len(),
        |i: int|
            if arrives(rolls[i], params.incidence_rate_ppm, nanos) {
                hosts[i].exposed(day, params)
            } else {
                hosts[i]
            },
    )
}

/// `rolls` holds one roll below `PROB_SCALE` for every host.
pub open spec fn rolls_fit(hosts: Seq<HostView>, rolls: Seq<u32>) -> bool {
    &&& rolls.len() == hosts.len()
    &&& forall|i: int| 0 <= i < rolls.len() ==> #[trigger] rolls[i] < PROB_SCALE
}

/// Runs the transitions of `day` over every inoculation of every host, with
/// random numbers drawn from `rng`. Returns the treatment requests made,
/// each with the index of its host.
///
/// Whatever is drawn, the outcome is the one that the transition rule gives
/// for some admissible random numbers.
pub fn step_inoculations(day: u32, hosts: &mut Vec<Host>, params: &Params, rng: &mut StdRng) -> (emits:
    Vec<(usize, u32)>)
    requires
        params.ranges_nonempty(),
        day + rounded_days(params.treatment_delay.high as int) <= u32::MAX,
    ensures
        final(hosts).len() == old(hosts).len(),
        (exists|draws: Seq<Seq<Draws>>|
            {
                &&& #[trigger] draws_fit(views(old(hosts)@), *params, draws)
                &&& views(final(hosts)@) == after_transitions_all(
                    views(old(hosts)@),
                    day,
                    *params,
                    draws,
                )
                &&& emits@ == emitted_upto(
                    views(old(hosts)@),
                    day,
                    *params,
                    draws,
                    old(hosts).len() as nat,
                )
            }),
{
    let ghost before = views(hosts@);
    let ghost mut all: Seq<Seq<Draws>> = Seq::empty();
    let mut emits: Vec<(usize, u32)> = Vec::new();
    let n = hosts.len();
    let mut i: usize = 0;
    while i < n
        invariant
            i <= n,
            n == hosts.len(),
            n == before.len(),
            params.ranges_nonempty(),
            day + rounded_days(params.treatment_delay.high as int) <= u32::MAX,
            all.len() == i,
            forall|k: int| 0 <= k < i ==> (#[trigger] all[k]).len() == before[k].inoculations.len(),
            forall|k: int, j: int|
                0 <= k < i && 0 <= j < all[k].len() ==> (#[trigger] all[k][j]).drawn_from(*params),
            forall|k: int|
                0 <= k < i ==> (#[trigger] hosts[k])@ == before[k].after_transitions(
                    day,
                    *params,
                    all[k],
                ),
            forall|k: int| i <= k < n ==> (#[trigger] hosts[k])@ == before[k],
            emits@ == emitted_upto(before, day, *params, all, i as nat),
        decreases n - i,
    {
        let batch = draw_batch(rng, params, hosts[i].inoculations.len());
        let requested = hosts[i].step_inoculations_with(day, params, &batch);
        let ghost earlier = all;
        let ghost sofar = emits@;
        proof {
            all = all.push(batch@);
            lemma_emitted_ignores_tail(before, day, *params, earlier, all, i as nat);
        }
        let m = requested.len();
        let mut j: usize = 0;
        while j < m
            invariant
                j <= m,
                m == requested.len(),
                emits@ == sofar + requested@.take(j as int).map_values(
                    |requested: u32| (i, requested),
                ),
            decreases m - j,
        {
            emits.push((i, requested[j]));
            proof {
                assert(requested@.take(j + 1) == requested@.take(j as int).push(requested[j as int]));
                assert(emits@ =~= sofar + requested@.take(j + 1).map_values(
                    |requested: u32| (i, requested),
                ));
            }
            j = j + 1;
        }
        proof {
            assert(requested@.take(m as int) == requested@);
        }
        i = i + 1;
    }
    proof {
        assert(draws_fit(before, *params, all));
        assert(views(hosts@) =~= after_transitions_all(before, day, *params, all));
    }
    emits
}

/// The requests of the first `n` hosts do not depend on the random numbers
/// of the hosts after them.
pub proof fn lemma_emitted_ignores_tail(
    hosts: Seq<HostView>,
    day: u32,
    params: Params,
    short: Seq<Seq<Draws>>,
    long: Seq<Seq<Draws>>,
    n: nat,
)
    requires
        n <= short.len() <= long.len(),
        forall|k: int| 0 <= k < short.len() ==> short[k] == long[k],
    ensures
        emitted_upto(hosts, day, params, short, n) == emitted_upto(hosts, day, params, long, n),
    decreases n,
{
    if n > 0 {
        lemma_emitted_ignores_tail(hosts, day, params, short, long, (n - 1) as nat);
    }
}

/// Applies the treatment and prophylaxis policy of `day` to every host.
pub fn step_hosts(day: u32, hosts: &mut Vec<Host>, params: &Params)
    requires
        day + rounded_days(params.prophylaxis_millidays as int) <= u32::MAX,
    ensures
        final(hosts).len() == old(hosts).len(),
        views(final(hosts)@) == after_policy_all(views(old(hosts)@), day, *params),
{
    let ghost before = views(hosts@);
    let n = hosts.len();
    let mut i: usize = 0;
    while i < n
        invariant
            i <= n,
            n == hosts.len(),
            n == before.len(),
            day + rounded_days(params.prophylaxis_millidays as int) <= u32::MAX,
            forall|k: int|
                0 <= k < i ==> (#[trigger] hosts[k])@ == before[k].after_policy(day, *params),
            forall|k: int| i <= k < n ==> (#[trigger] hosts[k])@ == before[k],
        decreases n - i,
    {
        hosts[i].apply_policy(day, params);
        i = i + 1;
    }
    proof {
        assert(views(hosts@) =~= after_policy_all(before, day, *params));
    }
}

/// Decides from a roll whether a new infection arrives in a step of
/// `wall_delta_micros` microseconds at speed `speed_milli`.
pub fn arrival(roll: u32, rate_ppm: u32, wall_delta_micros: u64, speed_milli: u32) -> (r: bool)
    ensures
        r == arrives(roll, rate_ppm, elapsed_nanos(wall_delta_micros, speed_milli)),
{
    let wall: u128 = wall_delta_micros as u128;
    let speed: u128 = speed_milli as u128;
    let rate: u128 = rate_ppm as u128;
    assert(wall * speed <= 0xffff_ffff_ffff_ffff * 0xffff_ffff) by (nonlinear_arith)
        requires
            0 <= wall <= 0xffff_ffff_ffff_ffff,
            0 <= speed <= 0xffff_ffff,
    ;
    let nanos: u128 = wall * speed;
    assert(rate * nanos <= 0xffff_ffff * (0xffff_ffff_ffff_ffff * 0xffff_ffff)) by (nonlinear_arith)
        requires
            0 <= rate <= 0xffff_ffff,
            0 <= nanos <= 0xffff_ffff_ffff_ffff * 0xffff_ffff,
    ;
    let wide_roll: u128 = roll as u128;
    let per_day: u128 = NANOS_PER_DAY as u128;
    assert(wide_roll * per_day <= 0xffff_ffff * 1_000_000_000) by (nonlinear_arith)
        requires
            0 <= wide_roll <= 0xffff_ffff,
            per_day == 1_000_000_000,
    ;
    wide_roll * per_day < rate * nanos
}

/// Lets new infections arrive: every host, whatever its state, draws one
/// roll, and receives a fresh exposed inoculation where the roll is below
/// the incidence rate times the simulated time of this step.
///
/// Whatever is drawn, the outcome is the one that some admissible rolls
/// give. At a rate of zero, or in a step of no duration, nothing arrives.
pub fn spawn_new_infections(
    day: u32,
    wall_delta_micros: u64,
    speed_milli: u32,
    params: &Params,
    hosts: &mut Vec<Host>,
    rng: &mut StdRng,
)
    ensures
        final(hosts).len() == old(hosts).len(),
        (exists|rolls: Seq<u32>|
            {
                &&& #[trigger] rolls_fit(views(old(hosts)@), rolls)
                &&& views(final(hosts)@) == after_arrivals(
                    views(old(hosts)@),
                    day,
                    *params,
                    elapsed_nanos(wall_delta_micros, speed_milli),
                    rolls,
                )
            }),
        params.incidence_rate_ppm == 0 || wall_delta_micros == 0 || speed_milli == 0 ==> views(
            final(hosts)@,
        ) == views(old(hosts)@),
{
    let ghost before = views(hosts@);
    let ghost nanos = elapsed_nanos(wall_delta_micros, speed_milli);
    let ghost mut rolls: Seq<u32> = Seq::empty();
    let n = hosts.len();
    let mut i: usize = 0;
    while i < n
        invariant
            i <= n,
            n == hosts.len(),
            n == before.len(),
            nanos == elapsed_nanos(wall_delta_micros, speed_milli),
            rolls.len() == i,
            forall|k: int| 0 <= k < i ==> #[trigger] rolls[k] < PROB_SCALE,
            forall|k: int|
                0 <= k < i ==> (#[trigger] hosts[k])@ == if arrives(
                    rolls[k],
                    params.incidence_rate_ppm,
                    nanos,
                ) {
                    before[k].exposed(day, *params)
                } else {
                    before[k]
                },
            forall|k: int| i <= k < n ==> (#[trigger] hosts[k])@ == before[k],
        decreases n - i,
    {
        let r = roll(rng);
        if arrival(r, params.incidence_rate_ppm, wall_delta_micros, speed_milli) {
            hosts[i].expose(day, params);
        }
        proof {
            rolls = rolls.push(r);
        }
        i = i + 1;
    }
    proof {
        assert(rolls_fit(before, rolls));
        assert(views(hosts@) =~= after_arrivals(before, day, *params, nanos, rolls));
        if params.incidence_rate_ppm == 0 || wall_delta_micros == 0 || speed_milli == 0 {
            assert(wall_delta_micros == 0 || speed_milli == 0 ==> nanos == 0) by (nonlinear_arith)
                requires
                    nanos == wall_delta_micros as int * speed_milli as int,
            ;
            lemma_nothing_arrives(before, day, *params, nanos, rolls);
        }
    }
}

/// At an incidence rate of zero, or when no simulated time has elapsed, no
/// roll lets an infection arrive: the population stays as it is.
pub proof fn lemma_nothing_arrives(
    hosts: Seq<HostView>,
    day: u32,
    params: Params,
    nanos: int,
    rolls: Seq<u32>,
)
    requires
        params.incidence_rate_ppm == 0 || nanos == 0,
    ensures
        after_arrivals(hosts, day, params, nanos, rolls) == hosts,
{
    assert forall|r: u32| !arrives(r, params.incidence_rate_ppm, nanos) by {
        assert(params.incidence_rate_ppm * nanos == 0) by (nonlinear_arith)
            requires
                params.incidence_rate_ppm == 0 || nanos == 0,
        ;
    }
    assert(after_arrivals(hosts, day, params, nanos, rolls) =~= hosts);
}

} // verus!
