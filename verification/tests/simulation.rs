use infection_sim::clock::{Clock, UNIT_SPEED};
use infection_sim::engine::{arrival, spawn_new_infections, step_hosts, step_inoculations};
use infection_sim::host::{Host, HostState};
use infection_sim::inoculation::{InfectionState, Inoculation};
use infection_sim::params::{ConfigError, DurationRange, Params, PROB_SCALE};
use infection_sim::random::{draw_batch, draw_transition, roll};
use infection_sim::simulation::Simulation;
use rand::rngs::StdRng;
use rand::SeedableRng;

fn quiet_params() -> Params {
    let mut p = Params::default();
    p.incidence_rate_ppm = 0;
    p
}

fn exposed(day: u32) -> Inoculation {
    Inoculation { state: InfectionState::Exposed, start_day: day, delay_millidays: 7_000 }
}

#[test]
fn new_simulation_seeds_one_exposure_per_host() {
    let sim = Simulation::new(10, Params::default()).unwrap();
    assert_eq!(sim.clock, Clock { day: 0, timer_nanos: 0 });
    assert_eq!(sim.speed_milli, UNIT_SPEED);
    assert_eq!(sim.params, Params::default());
    assert_eq!(sim.hosts.len(), 10);
    for h in &sim.hosts {
        assert!(!h.on_prophylaxis);
        assert_eq!(h.prophylaxis_end_day, None);
        assert_eq!(h.pending_treatment_day, None);
        assert_eq!(h.inoculations, vec![exposed(0)]);
        assert_eq!(h.state(), HostState::Exposed);
    }
}

#[test]
fn new_simulation_rejects_invalid_params() {
    let mut p = Params::default();
    p.prob_acute_ppm = PROB_SCALE + 1;
    assert!(matches!(Simulation::new(3, p), Err(ConfigError::ProbabilityOutOfRange)));
    let mut q = Params::default();
    q.chronic_duration = DurationRange { low: 9, high: 9 };
    assert!(matches!(Simulation::new(3, q), Err(ConfigError::EmptyDurationRange)));
}

#[test]
fn zero_speed_is_rejected() {
    let mut sim = Simulation::new(1, Params::default()).unwrap();
    assert_eq!(sim.set_speed(0), Err(ConfigError::NonPositiveSpeed));
    assert_eq!(sim.speed_milli, UNIT_SPEED);
    assert_eq!(sim.set_speed(5_000), Ok(()));
    assert_eq!(sim.speed_milli, 5_000);
}

#[test]
fn set_params_rejects_without_changing_anything() {
    let mut sim = Simulation::new(1, Params::default()).unwrap();
    let mut bad = Params::default();
    bad.treatment_delay = DurationRange { low: 2, high: 1 };
    assert_eq!(sim.set_params(bad), Err(ConfigError::EmptyDurationRange));
    assert_eq!(sim.params, Params::default());
    let good = quiet_params();
    assert_eq!(sim.set_params(good), Ok(()));
    assert_eq!(sim.params, good);
}

#[test]
fn draws_stay_in_their_ranges_and_vary() {
    let p = Params::default();
    let mut rng = StdRng::seed_from_u64(7);
    let batch = draw_batch(&mut rng, &p, 200);
    assert_eq!(batch.len(), 200);
    for d in &batch {
        assert!(d.transition_roll < PROB_SCALE);
        assert!(d.treatment_roll < PROB_SCALE);
        assert!(10_000 <= d.acute_dwell && d.acute_dwell < 40_000);
        assert!(100_000 <= d.chronic_dwell && d.chronic_dwell < 400_000);
        assert!(d.treatment_delay < 2_000);
    }
    assert!(batch.iter().any(|d| d.acute_dwell != batch[0].acute_dwell));
    assert!(batch.iter().any(|d| d.acute_dwell != 10_000));
    assert!(batch.iter().any(|d| d.transition_roll != 0));
    assert!(batch.iter().any(|d| d.treatment_delay != 0));
    let one = draw_transition(&mut rng, &p);
    assert!(100_000 <= one.chronic_dwell && one.chronic_dwell < 400_000);
}

#[test]
fn rolls_are_below_the_scale_and_reproducible() {
    let mut a = StdRng::seed_from_u64(99);
    let mut b = StdRng::seed_from_u64(99);
    let mut seen_high = false;
    for _ in 0..500 {
        let r = roll(&mut a);
        assert!(r < PROB_SCALE);
        assert_eq!(r, roll(&mut b));
        if r >= PROB_SCALE / 2 {
            seen_high = true;
        }
    }
    assert!(seen_high);
}

#[test]
fn single_value_range_gives_that_value() {
    let mut p = Params::default();
    p.acute_duration = DurationRange { low: 17_000, high: 17_001 };
    let mut rng = StdRng::seed_from_u64(3);
    for _ in 0..20 {
        assert_eq!(draw_transition(&mut rng, &p).acute_dwell, 17_000);
    }
}

#[test]
fn arrival_compares_roll_with_rate_times_elapsed_time() {
    // Rate 0.1 per day over half a day: probability 0.05.
    assert!(arrival(49_999, 100_000, 500_000, 1_000));
    assert!(!arrival(50_000, 100_000, 500_000, 1_000));
    // The same wall time at speed 2.0: probability 0.1.
    assert!(arrival(99_999, 100_000, 500_000, 2_000));
    assert!(!arrival(100_000, 100_000, 500_000, 2_000));
    assert!(!arrival(0, 0, 500_000, 1_000));
    assert!(!arrival(0, 100_000, 0, 1_000));
    assert!(arrival(999_999, u32::MAX, u64::MAX, u32::MAX));
}

#[test]
fn exposed_becomes_acute_on_day_seven() {
    let mut p = quiet_params();
    p.prob_acute_ppm = PROB_SCALE;
    p.prob_treatment_ppm = 0;
    let mut sim = Simulation::new(1, p).unwrap();
    let mut rng = StdRng::seed_from_u64(1);
    assert!(sim.can_tick(6_000_000));
    assert_eq!(sim.tick(6_000_000, &mut rng), 6);
    assert_eq!(sim.hosts[0].inoculations, vec![exposed(0)]);
    assert_eq!(sim.tick(1_000_000, &mut rng), 1);
    assert_eq!(sim.clock.day, 7);
    assert_eq!(sim.hosts[0].inoculations.len(), 1);
    let inoc = sim.hosts[0].inoculations[0];
    assert_eq!(inoc.state, InfectionState::Acute);
    assert_eq!(inoc.start_day, 7);
    assert!(10_000 <= inoc.delay_millidays && inoc.delay_millidays < 40_000);
    assert_eq!(sim.hosts[0].state(), HostState::Acute);
    assert_eq!(sim.hosts[0].pending_treatment_day, None);
}

#[test]
fn pending_treatment_is_applied_on_its_day() {
    let p = quiet_params();
    let mut sim = Simulation::new(2, p).unwrap();
    sim.hosts[0].pending_treatment_day = Some(5);
    sim.hosts[0].inoculations = vec![
        Inoculation { state: InfectionState::Acute, start_day: 0, delay_millidays: 30_000 },
        Inoculation { state: InfectionState::Chronic, start_day: 0, delay_millidays: 300_000 },
    ];
    let mut rng = StdRng::seed_from_u64(2);
    assert_eq!(sim.tick(4_000_000, &mut rng), 4);
    assert_eq!(sim.hosts[0].inoculations.len(), 2);
    assert_eq!(sim.tick(1_000_000, &mut rng), 1);
    assert_eq!(sim.clock.day, 5);
    assert!(sim.hosts[0].inoculations.is_empty());
    assert!(sim.hosts[0].on_prophylaxis);
    assert_eq!(sim.hosts[0].prophylaxis_end_day, Some(19));
    assert_eq!(sim.hosts[0].pending_treatment_day, None);
    assert_eq!(sim.hosts[1].inoculations, vec![exposed(0)]);
    assert!(!sim.hosts[1].on_prophylaxis);
}

#[test]
fn zero_incidence_never_spawns() {
    let mut p = quiet_params();
    p.liver_stage_millidays = u32::MAX;
    let mut sim = Simulation::new(5, p).unwrap();
    sim.set_speed(5_000).unwrap();
    let mut rng = StdRng::seed_from_u64(11);
    for _ in 0..300 {
        sim.tick(16_667, &mut rng);
        for h in &sim.hosts {
            assert_eq!(h.inoculations.len(), 1);
        }
    }
    let mut hosts = vec![Host::new(), Host::new()];
    for day in 0..100 {
        spawn_new_infections(day, u64::MAX, u32::MAX, &p, &mut hosts, &mut rng);
    }
    assert!(hosts.iter().all(|h| h.inoculations.is_empty()));
}

#[test]
fn saturated_incidence_spawns_on_every_host() {
    let mut p = Params::default();
    p.incidence_rate_ppm = PROB_SCALE;
    let mut hosts = vec![Host::new(), Host::new(), Host::new()];
    hosts[1].on_prophylaxis = true;
    let mut rng = StdRng::seed_from_u64(5);
    spawn_new_infections(3, 1_000_000, UNIT_SPEED, &p, &mut hosts, &mut rng);
    spawn_new_infections(4, 500_000, 2 * UNIT_SPEED, &p, &mut hosts, &mut rng);
    for h in &hosts {
        assert_eq!(h.inoculations, vec![exposed(3), exposed(4)]);
    }
    assert!(hosts[1].on_prophylaxis);
}

#[test]
fn incidence_spawns_on_some_hosts_only() {
    let p = Params::default();
    let mut hosts: Vec<Host> = (0..400).map(|_| Host::new()).collect();
    let mut rng = StdRng::seed_from_u64(21);
    // Probability 0.1 * 5 days = 0.5 for every host.
    spawn_new_infections(1, 5_000_000, UNIT_SPEED, &p, &mut hosts, &mut rng);
    let spawned = hosts.iter().filter(|h| h.inoculations.len() == 1).count();
    let untouched = hosts.iter().filter(|h| h.inoculations.is_empty()).count();
    assert_eq!(spawned + untouched, 400);
    assert!(spawned > 100 && untouched > 100);
}

#[test]
fn tick_of_no_duration_changes_nothing() {
    let mut sim = Simulation::new(4, Params::default()).unwrap();
    let mut rng = StdRng::seed_from_u64(8);
    sim.tick(2_345_678, &mut rng);
    sim.hosts[2].pending_treatment_day = Some(1);
    sim.hosts[3].on_prophylaxis = true;
    sim.hosts[3].prophylaxis_end_day = Some(0);
    let clock = sim.clock;
    let hosts = sim.hosts.clone();
    for _ in 0..50 {
        assert_eq!(sim.tick(0, &mut rng), 0);
        assert_eq!(sim.clock, clock);
        assert_eq!(sim.hosts, hosts);
    }
}

#[test]
fn each_boundary_of_a_large_step_is_a_pass_of_its_own() {
    let mut p = quiet_params();
    p.prob_acute_ppm = PROB_SCALE;
    p.prob_treatment_ppm = PROB_SCALE;
    p.acute_duration = DurationRange { low: 30_000, high: 30_001 };
    p.treatment_delay = DurationRange { low: 1_000, high: 1_001 };
    let mut sim = Simulation::new(1, p).unwrap();
    let mut rng = StdRng::seed_from_u64(13);
    // Day 7 turns the inoculation acute and requests treatment for day 8;
    // day 8, crossed in the same step, applies it.
    assert_eq!(sim.tick(8_000_000, &mut rng), 8);
    assert_eq!(sim.clock.day, 8);
    assert!(sim.hosts[0].inoculations.is_empty());
    assert!(sim.hosts[0].on_prophylaxis);
    assert_eq!(sim.hosts[0].prophylaxis_end_day, Some(22));
    assert_eq!(sim.hosts[0].pending_treatment_day, None);
}

#[test]
fn step_inoculations_emits_requests_with_their_hosts() {
    let mut p = quiet_params();
    p.prob_acute_ppm = PROB_SCALE;
    p.prob_treatment_ppm = PROB_SCALE;
    p.treatment_delay = DurationRange { low: 2_000, high: 2_001 };
    let mut hosts = vec![Host::new(), Host::new(), Host::new()];
    hosts[0].inoculations.push(exposed(0));
    hosts[2].inoculations.push(exposed(0));
    hosts[2].inoculations.push(exposed(1));
    hosts[2].inoculations.push(exposed(0));
    hosts[2].pending_treatment_day = Some(8);
    let mut rng = StdRng::seed_from_u64(17);
    let emits = step_inoculations(7, &mut hosts, &p, &mut rng);
    assert_eq!(emits, vec![(0, 9), (2, 9), (2, 9)]);
    assert_eq!(hosts[0].pending_treatment_day, Some(9));
    assert_eq!(hosts[1].pending_treatment_day, None);
    assert_eq!(hosts[2].pending_treatment_day, Some(8));
    assert_eq!(hosts[2].inoculations[1], exposed(1));
    assert_eq!(hosts[2].inoculations[0].state, InfectionState::Acute);
    assert_eq!(hosts[2].inoculations[2].state, InfectionState::Acute);
}

#[test]
fn step_hosts_applies_the_policy_to_every_host() {
    let p = Params::default();
    let mut hosts = vec![Host::new(), Host::new(), Host::new()];
    hosts[0].pending_treatment_day = Some(3);
    hosts[0].inoculations.push(exposed(0));
    hosts[1].on_prophylaxis = true;
    hosts[1].prophylaxis_end_day = Some(10);
    hosts[2].inoculations.push(exposed(2));
    step_hosts(10, &mut hosts, &p);
    assert!(hosts[0].on_prophylaxis);
    assert_eq!(hosts[0].prophylaxis_end_day, Some(24));
    assert!(hosts[0].inoculations.is_empty());
    assert!(!hosts[1].on_prophylaxis);
    assert_eq!(hosts[1].prophylaxis_end_day, None);
    assert_eq!(hosts[2].inoculations, vec![exposed(2)]);
}

#[test]
fn can_tick_refuses_a_step_past_the_last_day() {
    let mut sim = Simulation::new(1, quiet_params()).unwrap();
    sim.clock.day = u32::MAX - 15;
    assert!(sim.can_tick(1_000_000));
    assert!(!sim.can_tick(2_000_000));
    assert!(sim.can_tick(0));
}

#[test]
fn population_runs_for_a_year_within_its_rules() {
    let mut sim = Simulation::new(10, Params::default()).unwrap();
    sim.set_speed(3_000).unwrap();
    let mut rng = StdRng::seed_from_u64(2024);
    let mut day = 0;
    while sim.clock.day < 365 {
        assert!(sim.can_tick(100_000));
        sim.tick(100_000, &mut rng);
        assert!(sim.clock.day >= day);
        day = sim.clock.day;
        for h in &sim.hosts {
            assert_eq!(h.on_prophylaxis, h.prophylaxis_end_day.is_some());
            if let Some(end) = h.prophylaxis_end_day {
                assert!(end > sim.clock.day);
            }
            if let Some(pending) = h.pending_treatment_day {
                assert!(pending > sim.clock.day);
            }
            for i in &h.inoculations {
                assert!(i.start_day <= sim.clock.day);
            }
        }
    }
}
