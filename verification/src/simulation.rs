//! The whole model: clock, speed, parameters and population, and the tick
//! that drives them.

use vstd::prelude::*;
use rand::rngs::StdRng;
use crate::clock::{elapsed_nanos, Clock, UNIT_SPEED};
use crate::engine::{
    after_arrivals,
    after_policy_all,
    after_transitions_all,
    draws_fit,
    lemma_nothing_arrives,
    rolls_fit,
    spawn_new_infections,
    step_hosts,
    step_inoculations,
    views,
};
use crate::host::{lemma_survivors_bounded, Host, HostView};
use crate::inoculation::Draws;
use crate::params::{ConfigError, Params};

verus! {

/// `after` is a population that one day boundary can make of `before`: the
/// transitions of `day` with some admissible random numbers, followed by the
/// treatment and prophylaxis policy of `day`.
pub open spec fn day_passed(
    before: Seq<HostView>,
    after: Seq<HostView>,
    day: u32,
    params: Params,
) -> bool {
    exists|draws: Seq<Seq<Draws>>|
        {
            &&& #[trigger] draws_fit(before, params, draws)
            &&& after == after_policy_all(
                after_transitions_all(before, day, params, draws),
                day,
                params,
            )
        }
}

/// `after` is a population that the arrival of new infections on `day` can
/// make of `before` in a step of `nanos` units of simulated time.
pub open spec fn infections_arrived(
    before: Seq<HostView>,
    after: Seq<HostView>,
    day: u32,
    params: Params,
    nanos: int,
) -> bool {
    exists|rolls: Seq<u32>|
        {
            &&& #[trigger] rolls_fit(before, rolls)
            &&& after == after_arrivals(before, day, params, nanos, rolls)
        }
}

/// `trace` records a tick that begins on `first_day` and crosses `crossed`
/// day boundaries: it starts at `start`, every boundary is a full pass of
/// its own over the population that the one before it left, for the days
/// `first_day + 1` to `first_day + crossed` in turn, and the arrivals of
/// the last day then lead to `end`.
pub open spec fn tick_trace(
    start: Seq<HostView>,
    end: Seq<HostView>,
    first_day: u32,
    crossed: u32,
    params: Params,
    nanos: int,
    trace: Seq<Seq<HostView>>,
) -> bool {
    &&& trace.len() == crossed + 1
    &&& trace[0] == start
    &&& forall|k: int|
        0 <= k < crossed ==> #[trigger] day_passed(
            trace[k],
            trace[k + 1],
            (first_day + k + 1) as u32,
            params,
        )
    &&& infections_arrived(trace[crossed as int], end, (first_day + crossed) as u32, params, nanos)
}

/// A running simulation.
pub struct Simulation {
    pub clock: Clock,
    /// The speed multiplier, in thousandths; positive.
    pub speed_milli: u32,
    pub params: Params,
    pub hosts: Vec<Host>,
}

impl Simulation {
    /// The clock is sound, the speed positive, the parameters valid.
    pub open spec fn wf(self) -> bool {
        &&& self.clock.wf()
        &&& self.speed_milli > 0
        &&& self.params.wf()
    }

    /// The population by its mathematical value.
    pub open spec fn population(self) -> Seq<HostView> {
        views(self.hosts@)
    }

    /// A tick of `wall_delta_micros` keeps every day that it reaches or
    /// schedules within the range of the day counter.
    pub open spec fn tick_fits(self, wall_delta_micros: u64) -> bool {
        self.clock@.advanced(elapsed_nanos(wall_delta_micros, self.speed_milli)).day
            + self.params.horizon_days() <= u32::MAX
    }

    /// A simulation at day 0 and speed 1.0 with `host_count` hosts, each
    /// carrying one inoculation freshly exposed on day 0. Invalid
    /// parameters are rejected.
    pub fn new(host_count: usize, params: Params) -> (r: Result<Simulation, ConfigError>)
        ensures
            r.is_ok() <==> params.wf(),
            (match r {
                Ok(sim) => {
                    &&& sim.wf()
                    &&& sim.clock == (Clock { day: 0, timer_nanos: 0 })
                    &&& sim.speed_milli == UNIT_SPEED
                    &&& sim.params == params
                    &&& sim.hosts.len() == host_count
                    &&& forall|i: int|
                        0 <= i < host_count ==> (#[trigger] sim.hosts[i])@ == (HostView {
                            on_prophylaxis: false,
                            prophylaxis_end_day: None,
                            pending_treatment_day: None,
                            inoculations: Seq::empty(),
                        }).exposed(0, params)
                },
                Err(e) => params.verdict() == Err::<(), ConfigError>(e),
            }),
    {
        match params.validate() {
            Err(e) => {
                return Err(e);
            },
            Ok(_) => {},
        }
        let mut hosts: Vec<Host> = Vec::new();
        let mut i: usize = 0;
        while i < host_count
            invariant
                i <= host_count,
                hosts.len() == i,
                forall|k: int|
                    0 <= k < i ==> (#[trigger] hosts[k])@ == (HostView {
                        on_prophylaxis: false,
                        prophylaxis_end_day: None,
                        pending_treatment_day: None,
                        inoculations: Seq::empty(),
                    }).exposed(0, params),
            decreases host_count - i,
        {
            let mut h = Host::new();
            h.expose(0, &params);
            hosts.push(h);
            i = i + 1;
        }
        Ok(Simulation { clock: Clock::new(), speed_milli: UNIT_SPEED, params, hosts })
    }

    /// Replaces the speed multiplier, rejecting zero and leaving the
    /// simulation untouched in that case.
    pub fn set_speed(&mut self, speed_milli: u32) -> (r: Result<(), ConfigError>)
        ensures
            speed_milli > 0 ==> r == Ok::<(), ConfigError>(()) && final(self).speed_milli
                == speed_milli,
            speed_milli == 0 ==> r == Err::<(), ConfigError>(ConfigError::NonPositiveSpeed)
                && final(self).speed_milli == old(self).speed_milli,
            final(self).clock == old(self).clock,
            final(self).params == old(self).params,
            final(self).hosts == old(self).hosts,
    {
        if speed_milli == 0 {
            Err(ConfigError::NonPositiveSpeed)
        } else {
            self.speed_milli = speed_milli;
            Ok(())
        }
    }

    /// Replaces the parameters, rejecting invalid ones and leaving the
    /// simulation untouched in that case.
    pub fn set_params(&mut self, params: Params) -> (r: Result<(), ConfigError>)
        ensures
            r == params.verdict(),
            final(self).params == (if params.wf() { params } else { old(self).params }),
            final(self).clock == old(self).clock,
            final(self).speed_milli == old(self).speed_milli,
            final(self).hosts == old(self).hosts,
    {
        let verdict = params.validate();
        if verdict.is_ok() {
            self.params = params;
        }
        verdict
    }

    /// Whether `tick` may be called with this step.
    pub fn can_tick(&self, wall_delta_micros: u64) -> (ok: bool)
        requires
            self.clock.wf(),
        ensures
            ok == self.tick_fits(wall_delta_micros),
    {
        let horizon = self.params.horizon();
        self.clock.fits(wall_delta_micros, self.speed_milli, u32::MAX - horizon)
    }

    /// One step of the simulation for `wall_delta_micros` microseconds of
    /// wall time at the current speed. Returns the number of day boundaries
    /// crossed.
    ///
    /// The clock advances first. Every boundary crossed is then handled as
    /// a full pass of its own, transitions before policy, so that what one
    /// day schedules the next can act on. At the end, once per tick, new
    /// infections arrive. A tick of no duration changes nothing.
    pub fn tick(&mut self, wall_delta_micros: u64, rng: &mut StdRng) -> (crossed: u32)
        requires
            old(self).wf(),
            old(self).tick_fits(wall_delta_micros),
        ensures
            final(self).wf(),
            final(self).speed_milli == old(self).speed_milli,
            final(self).params == old(self).params,
            final(self).clock@ == old(self).clock@.advanced(
                elapsed_nanos(wall_delta_micros, old(self).speed_milli),
            ),
            crossed == old(self).clock@.crossings(
                elapsed_nanos(wall_delta_micros, old(self).speed_milli),
            ),
            final(self).hosts.len() == old(self).hosts.len(),
            exists|trace: Seq<Seq<HostView>>| #[trigger]
                tick_trace(
                    old(self).population(),
                    final(self).population(),
                    old(self).clock.day,
                    crossed,
                    old(self).params,
                    elapsed_nanos(wall_delta_micros, old(self).speed_milli),
                    trace,
                ),
            wall_delta_micros == 0 ==> final(self).clock == old(self).clock
                && final(self).population() == old(self).population(),
    {
        let ghost start = self.population();
        let ghost nanos = elapsed_nanos(wall_delta_micros, self.speed_milli);
        let params = self.params;
        let speed = self.speed_milli;
        let first_day = self.clock.day;
        proof {
            assert(0 <= nanos) by (nonlinear_arith)
                requires
                    nanos == wall_delta_micros as int * speed as int,
            ;
            assert(wall_delta_micros == 0 ==> nanos == 0) by (nonlinear_arith)
                requires
                    nanos == wall_delta_micros as int * speed as int,
            ;
        }
        let crossed = self.clock.advance(wall_delta_micros, speed);
        let ghost mut trace: Seq<Seq<HostView>> = seq![start];
        let mut passed: u32 = 0;
        while passed < crossed
            invariant
                passed <= crossed,
                first_day + crossed + params.horizon_days() <= u32::MAX,
                params.wf(),
                self.params == params,
                self.speed_milli == speed,
                self.clock.wf(),
                self.clock.day == first_day + crossed,
                self.clock@ == old(self).clock@.advanced(nanos),
                self.hosts.len() == old(self).hosts.len(),
                trace.len() == passed + 1,
                trace[0] == start,
                trace[passed as int] == views(self.hosts@),
                forall|k: int|
                    0 <= k < passed ==> #[trigger] day_passed(
                        trace[k],
                        trace[k + 1],
                        (first_day + k + 1) as u32,
                        params,
                    ),
            decreases crossed - passed,
        {
            let day = first_day + passed + 1;
            let ghost before = views(self.hosts@);
            let ghost earlier = trace;
            step_inoculations(day, &mut self.hosts, &params, rng);
            step_hosts(day, &mut self.hosts, &params);
            proof {
                let after = views(self.hosts@);
                assert(day_passed(before, after, day, params));
                trace = trace.push(after);
                assert forall|k: int| 0 <= k < passed + 1 implies #[trigger] day_passed(
                    trace[k],
                    trace[k + 1],
                    (first_day + k + 1) as u32,
                    params,
                ) by {
                    if k < passed {
                        assert(day_passed(
                            earlier[k],
                            earlier[k + 1],
                            (first_day + k + 1) as u32,
                            params,
                        ));
                    }
                }
            }
            passed = passed + 1;
        }
        let ghost settled = views(self.hosts@);
        spawn_new_infections(
            self.clock.day,
            wall_delta_micros,
            speed,
            &params,
            &mut self.hosts,
            rng,
        );
        proof {
            assert(infections_arrived(settled, views(self.hosts@), self.clock.day, params, nanos));
            assert(tick_trace(
                old(self).population(),
                self.population(),
                old(self).clock.day,
                crossed,
                old(self).params,
                elapsed_nanos(wall_delta_micros, old(self).speed_milli),
                trace,
            ));
        }
        crossed
    }
}

/// A day boundary never adds an inoculation to any host.
pub proof fn lemma_day_pass_adds_nothing(
    before: Seq<HostView>,
    after: Seq<HostView>,
    day: u32,
    params: Params,
)
    requires
        day_passed(before, after, day, params),
    ensures
        after.len() == before.len(),
        forall|i: int|
            0 <= i < before.len() ==> (#[trigger] after[i]).inoculations.len()
                <= before[i].inoculations.len(),
{
    let draws = choose|draws: Seq<Seq<Draws>>|
        {
            &&& #[trigger] draws_fit(before, params, draws)
            &&& after == after_policy_all(
                after_transitions_all(before, day, params, draws),
                day,
                params,
            )
        };
    assert forall|i: int| 0 <= i < before.len() implies (#[trigger] after[i]).inoculations.len()
        <= before[i].inoculations.len() by {
        let h = before[i];
        lemma_survivors_bounded(
            h.inoculations,
            day,
            h.on_prophylaxis,
            params,
            draws[i],
            h.inoculations.len(),
        );
    }
}

/// With no incidence, or in a step of no duration, the arrivals leave the
/// population as it is.
pub proof fn lemma_no_incidence_no_arrivals(
    before: Seq<HostView>,
    after: Seq<HostView>,
    day: u32,
    params: Params,
    nanos: int,
)
    requires
        infections_arrived(before, after, day, params, nanos),
        params.incidence_rate_ppm == 0 || nanos == 0,
    ensures
        after == before,
{
    let rolls = choose|rolls: Seq<u32>|
        {
            &&& #[trigger] rolls_fit(before, rolls)
            &&& after == after_arrivals(before, day, params, nanos, rolls)
        };
    lemma_nothing_arrives(before, day, params, nanos, rolls);
}

/// Along the day boundaries of a tick no host ever gains an inoculation:
/// after `k` of them every host carries at most as many as at the start.
pub proof fn lemma_boundaries_add_nothing(
    trace: Seq<Seq<HostView>>,
    first_day: u32,
    params: Params,
    k: nat,
)
    requires
        k < trace.len(),
        forall|j: int|
            0 <= j < k ==> #[trigger] day_passed(
                trace[j],
                trace[j + 1],
                (first_day + j + 1) as u32,
                params,
            ),
    ensures
        trace[k as int].len() == trace[0].len(),
        forall|i: int|
            0 <= i < trace[0].len() ==> (#[trigger] trace[k as int][i]).inoculations.len()
                <= trace[0][i].inoculations.len(),
    decreases k,
{
    if k > 0 {
        lemma_boundaries_add_nothing(trace, first_day, params, (k - 1) as nat);
        assert(day_passed(trace[k - 1], trace[k - 1 + 1], (first_day + (k - 1) + 1) as u32, params));
        lemma_day_pass_adds_nothing(
            trace[k - 1],
            trace[k as int],
            (first_day + (k - 1) + 1) as u32,
            params,
        );
        assert forall|i: int| 0 <= i < trace[0].len() implies (#[trigger] trace[k as int][i]).inoculations.len()
            <= trace[0][i].inoculations.len() by {
            assert(trace[k - 1][i].inoculations.len() <= trace[0][i].inoculations.len());
        }
    }
}

/// An incidence rate of zero spawns nothing, however many day boundaries a
/// tick crosses: the tick ends with the population that its last boundary
/// left, and no host carries more inoculations than it began with.
pub proof fn lemma_tick_without_incidence_spawns_nothing(
    start: Seq<HostView>,
    end: Seq<HostView>,
    first_day: u32,
    crossed: u32,
    params: Params,
    nanos: int,
    trace: Seq<Seq<HostView>>,
)
    requires
        tick_trace(start, end, first_day, crossed, params, nanos, trace),
        params.incidence_rate_ppm == 0,
    ensures
        end == trace[crossed as int],
        end.len() == start.len(),
        forall|i: int|
            0 <= i < start.len() ==> (#[trigger] end[i]).inoculations.len()
                <= start[i].inoculations.len(),
{
    lemma_no_incidence_no_arrivals(
        trace[crossed as int],
        end,
        (first_day + crossed) as u32,
        params,
        nanos,
    );
    lemma_boundaries_add_nothing(trace, first_day, params, crossed as nat);
}

/// A tick of no duration is a no-op on the population: it crosses no
/// boundary and lets nothing arrive.
pub proof fn lemma_empty_tick_changes_nothing(
    start: Seq<HostView>,
    end: Seq<HostView>,
    first_day: u32,
    params: Params,
    trace: Seq<Seq<HostView>>,
)
    requires
        tick_trace(start, end, first_day, 0, params, 0, trace),
    ensures
        end == start,
{
    lemma_no_incidence_no_arrivals(trace[0], end, first_day, params, 0);
}

} // verus!
