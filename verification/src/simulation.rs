//! The orchestrator: owns one of each physical component and the
//! monitoring system, drives the discrete one-hour time steps, wires the
//! reservoir through the turbine into the generator, evaluates the fixed
//! alert rules, and accumulates the produced energy.

use crate::components::{
    available_head_milli_m, generator_power_milli_mw, level_milli_percent, stepped_volume_milli_m3,
    turbine_power_milli_mw, Generator, ParamError, Reservoir, Turbine, WaterFlow,
    MAX_POWER_MILLI_MW, WATER_WEIGHT_N_M3,
};
use crate::monitoring::{pushed_trend, MonitoringSystem};
use vstd::prelude::*;

verus! {

/// One violation of the simulator's fixed alert rules, with the observed
/// value where the rendered message carries one.
#[derive(Debug, Clone, Copy, PartialEq, Eq, Structural)]
pub enum PlantAlert {
    /// The reservoir fill level fell below 20 percent.
    LowReservoirLevel { level_milli_percent: u64 },
    /// The generator ran above 95 percent of its rating.
    HighPowerOutput { power_milli_mw: u64 },
    /// The water flow left its safe operating band.
    UnsafeWaterFlow,
    /// The turbine efficiency lies below 0.7.
    LowTurbineEfficiency,
}

/// The milli-scaled sine of `2 * pi * h / 24`, for a whole hour `h` of the
/// day: the day-night cycle sampled on the simulator's one-hour grid.
pub open spec fn sin_milli_day_cycle(h: int) -> int {
    seq![
        0,
        259,
        500,
        707,
        866,
        966,
        1000,
        966,
        866,
        707,
        500,
        259,
        0,
        -259,
        -500,
        -707,
        -866,
        -966,
        -1000,
        -966,
        -866,
        -707,
        -500,
        -259,
    ][h]
}

/// The natural inflow at `time_hours`, in milli-m^3/s: a base flow of
/// 30 m^3/s varied by 20 percent over the day-night cycle.
pub open spec fn diurnal_inflow_milli_m3s(time_hours: int) -> int {
    30_000 + 6 * sin_milli_day_cycle(time_hours % 24)
}

/// The alerts one step raises, in rule order: low reservoir level (below
/// 20 percent), generator output above 95 percent of its rating, unsafe
/// water flow, and turbine efficiency below 0.7.
pub open spec fn step_alerts(
    level_milli_percent: int,
    generator_power_milli_mw: int,
    generator_max_milli_mw: int,
    flow_is_safe: bool,
    turbine_efficiency_milli: int,
) -> Seq<PlantAlert> {
    (if level_milli_percent < 20_000 {
        seq![
            PlantAlert::LowReservoirLevel {
                level_milli_percent: level_milli_percent as u64,
            },
        ]
    } else {
        Seq::empty()
    }) + (if generator_power_milli_mw * 20 > generator_max_milli_mw * 19 {
        seq![PlantAlert::HighPowerOutput { power_milli_mw: generator_power_milli_mw as u64 }]
    } else {
        Seq::empty()
    }) + (if !flow_is_safe {
        seq![PlantAlert::UnsafeWaterFlow]
    } else {
        Seq::empty()
    }) + (if turbine_efficiency_milli < 700 {
        seq![PlantAlert::LowTurbineEfficiency]
    } else {
        Seq::empty()
    })
}

/// The seven parameter names one plant snapshot records.
pub open spec fn monitored_names() -> Seq<Seq<char>> {
    seq![
        "turbine_power_mw"@,
        "generator_power_mw"@,
        "reservoir_level_percent"@,
        "water_flow_m3s"@,
        "head_height_m"@,
        "turbine_efficiency"@,
        "generator_efficiency"@,
    ]
}

/// A rendering-ready snapshot of the plant after a step.
#[derive(Debug, Clone, Copy, PartialEq, Eq, Structural)]
pub struct StatusSnapshot {
    pub turbine_power_milli_mw: u64,
    pub turbine_efficiency_milli: u64,
    pub generator_power_milli_mw: u64,
    pub generator_efficiency_milli: u64,
    pub reservoir_level_milli_percent: u64,
    pub reservoir_volume_milli_m3: u64,
    pub water_flow_milli_m3s: u64,
    pub head_height_milli_m: u64,
    pub alert_count: usize,
}

/// A rendering-ready summary of a finished run.
#[derive(Debug, Clone, Copy, PartialEq, Eq, Structural)]
pub struct FinalReport {
    pub total_time_hours: u64,
    pub total_energy_milli_mwh: u128,
    pub final_reservoir_level_milli_percent: u64,
    pub turbine_efficiency_milli: u64,
    pub generator_efficiency_milli: u64,
    pub alert_count: usize,
}

impl FinalReport {
    /// Mean power over the run, `total energy / total time`, rounded
    /// towards zero; nothing for a run of no steps.
    pub fn average_power_milli_mw(&self) -> (r: Option<u128>)
        ensures
            r is Some <==> self.total_time_hours > 0,
            r matches Some(p) ==> p == self.total_energy_milli_mwh as int
                / self.total_time_hours as int,
    {
        if self.total_time_hours > 0 {
            Some(self.total_energy_milli_mwh / (self.total_time_hours as u128))
        } else {
            None
        }
    }
}

/// The simulator: one turbine, one generator, one reservoir, one water
/// flow, one monitoring system, and the run's accounting.
pub struct PowerPlantSimulator {
    pub turbine: Turbine,
    pub generator: Generator,
    pub reservoir: Reservoir,
    pub water_flow: WaterFlow,
    pub monitoring: MonitoringSystem,
    /// Fixed at one hour.
    pub time_step_hours: u64,
    /// Simulated time, in hours since the start.
    pub current_time_hours: u64,
    /// Accumulated electrical energy, in milli-MWh.
    pub total_energy_milli_mwh: u128,
    /// The simulator's own alert list, separate from the monitoring log.
    pub alerts: Vec<PlantAlert>,
}

impl PowerPlantSimulator {
    /// Well-formedness: every component is well-formed, the step is one
    /// hour, and the accumulated energy is bounded by running every hour
    /// at the largest accepted rating.
    pub open spec fn wf(self) -> bool {
        &&& self.turbine.wf()
        &&& self.generator.wf()
        &&& self.reservoir.wf()
        &&& self.water_flow.wf()
        &&& self.monitoring.wf()
        &&& self.time_step_hours == 1
        &&& self.total_energy_milli_mwh <= self.current_time_hours * MAX_POWER_MILLI_MW
    }

    /// A simulator at hour zero with no energy produced and no alerts.
    pub fn new(
        turbine: Turbine,
        generator: Generator,
        reservoir: Reservoir,
        water_flow: WaterFlow,
        monitoring: MonitoringSystem,
    ) -> (s: PowerPlantSimulator)
        requires
            turbine.wf(),
            generator.wf(),
            reservoir.wf(),
            water_flow.wf(),
            monitoring.wf(),
        ensures
            s.wf(),
            s.turbine == turbine,
            s.generator == generator,
            s.reservoir == reservoir,
            s.water_flow == water_flow,
            s.monitoring == monitoring,
            s.time_step_hours == 1,
            s.current_time_hours == 0,
            s.total_energy_milli_mwh == 0,
            s.alerts@ == Seq::<PlantAlert>::empty(),
    {
        PowerPlantSimulator {
            turbine,
            generator,
            reservoir,
            water_flow,
            monitoring,
            time_step_hours: 1,
            current_time_hours: 0,
            total_energy_milli_mwh: 0,
            alerts: Vec::new(),
        }
    }

    /// The natural inflow the day-night cycle prescribes at `time_hours`,
    /// in milli-m^3/s; always within `[24_000, 36_000]`.
    fn diurnal_inflow(time_hours: u64) -> (r: u64)
        ensures
            r == diurnal_inflow_milli_m3s(time_hours as int),
            24_000 <= r <= 36_000,
    {
        let h: u64 = time_hours % 24;
        proof {
            assert(time_hours as int % 24 == h as int);
        }
        match h {
            0 => 30_000,
            1 => 31_554,
            2 => 33_000,
            3 => 34_242,
            4 => 35_196,
            5 => 35_796,
            6 => 36_000,
            7 => 35_796,
            8 => 35_196,
            9 => 34_242,
            10 => 33_000,
            11 => 31_554,
            12 => 30_000,
            13 => 28_446,
            14 => 27_000,
            15 => 25_758,
            16 => 24_804,
            17 => 24_204,
            18 => 24_000,
            19 => 24_204,
            20 => 24_804,
            21 => 25_758,
            22 => 27_000,
            _ => 28_446,
        }
    }

    /// Initialization: couples the generator to the grid, opens the
    /// outflow at 50 m^3/s and sets the base natural inflow of 30 m^3/s.
    /// Nothing else changes.
    fn initialize_plant(&mut self)
        requires
            old(self).wf(),
        ensures
            final(self).wf(),
            initialized_state(old(self), final(self)),
    {
        self.generator.synchronize();
        let out_ok = self.reservoir.set_outflow_rate(50_000);
        proof {
            assert(out_ok is Ok);
        }
        let in_ok = self.reservoir.set_inflow_rate(30_000);
        proof {
            assert(in_ok is Ok);
        }
    }

    /// One reservoir update: integrates the volume over one step with the
    /// current rates, then sets the inflow the day-night cycle prescribes
    /// for the current hour.
    fn update_reservoir(&mut self)
        requires
            old(self).wf(),
        ensures
            final(self).wf(),
            *final(self) == (PowerPlantSimulator {
                reservoir: final(self).reservoir,
                ..*old(self)
            }),
            final(self).reservoir == (Reservoir {
                current_volume_milli_m3: final(self).reservoir.current_volume_milli_m3,
                inflow_rate_milli_m3s: final(self).reservoir.inflow_rate_milli_m3s,
                ..old(self).reservoir
            }),
            final(self).reservoir.current_volume_milli_m3 == stepped_volume_milli_m3(
                old(self).reservoir.current_volume_milli_m3 as int,
                old(self).reservoir.inflow_rate_milli_m3s as int,
                old(self).reservoir.outflow_rate_milli_m3s as int,
                old(self).time_step_hours as int,
                old(self).reservoir.max_capacity_milli_m3 as int,
            ),
            final(self).reservoir.inflow_rate_milli_m3s == diurnal_inflow_milli_m3s(
                old(self).current_time_hours as int,
            ),
    {
        self.reservoir.update_volume(self.time_step_hours);
        let new_inflow = Self::diurnal_inflow(self.current_time_hours);
        let in_ok = self.reservoir.set_inflow_rate(new_inflow);
        proof {
            assert(in_ok is Ok);
        }
    }

    /// Forwards one full parameter snapshot of the plant, timestamped with
    /// the current hour, to the monitoring system.
    fn monitor_plant_status(&mut self)
        requires
            old(self).wf(),
        ensures
            final(self).wf(),
            *final(self) == (PowerPlantSimulator {
                monitoring: final(self).monitoring,
                ..*old(self)
            }),
            final(self).monitoring.alerts_view() == old(self).monitoring.alerts_view(),
            recorded_snapshot(old(self), final(self)),
    {
        let mut entries: Vec<(String, i64)> = Vec::new();
        entries.push(
            (String::from_str("turbine_power_mw"), self.turbine.current_power_milli_mw as i64),
        );
        entries.push(
            (String::from_str("generator_power_mw"), self.generator.current_power_milli_mw as i64),
        );
        entries.push(
            (
                String::from_str("reservoir_level_percent"),
                self.reservoir.get_water_level_percentage() as i64,
            ),
        );
        entries.push(
            (String::from_str("water_flow_m3s"), self.water_flow.flow_rate_milli_m3s as i64),
        );
        entries.push(
            (String::from_str("head_height_m"), self.reservoir.get_available_head() as i64),
        );
        entries.push(
            (String::from_str("turbine_efficiency"), self.turbine.efficiency_milli as i64),
        );
        entries.push(
            (String::from_str("generator_efficiency"), self.generator.efficiency_milli as i64),
        );
        proof {
            reveal_strlit("turbine_power_mw");
            reveal_strlit("generator_power_mw");
            reveal_strlit("reservoir_level_percent");
            reveal_strlit("water_flow_m3s");
            reveal_strlit("head_height_m");
            reveal_strlit("turbine_efficiency");
            reveal_strlit("generator_efficiency");
            assert(entries@.len() == 7);
            assert(entries@[0].0@ == "turbine_power_mw"@);
            assert(entries@[1].0@ == "generator_power_mw"@);
            assert(entries@[2].0@ == "reservoir_level_percent"@);
            assert(entries@[3].0@ == "water_flow_m3s"@);
            assert(entries@[4].0@ == "head_height_m"@);
            assert(entries@[5].0@ == "turbine_efficiency"@);
            assert(entries@[6].0@ == "generator_efficiency"@);
            assert("turbine_power_mw"@.len() == 16);
            assert("generator_power_mw"@.len() == 18);
            assert("reservoir_level_percent"@.len() == 23);
            assert("water_flow_m3s"@.len() == 14);
            assert("head_height_m"@.len() == 13);
            assert("turbine_efficiency"@.len() == 18);
            assert("generator_efficiency"@.len() == 20);
            assert("generator_power_mw"@[0] == 'g' && "turbine_efficiency"@[0] == 't');
            assert(forall|a: int, b: int|
                0 <= a < b < entries@.len() ==> entries@[a].0@ != entries@[b].0@);
        }
        self.monitoring.record_readings(self.current_time_hours, &entries);
        proof {
            assert forall|n: Seq<char>|
                !monitored_names().contains(n) implies self.monitoring.readings_for(n) == old(
                self,
            ).monitoring.readings_for(n) by {
                assert forall|k: int| 0 <= k < entries@.len() implies entries@[k].0@ != n by {
                    if k == 0 {
                        assert(entries@[0].0@ == monitored_names()[0]);
                    } else if k == 1 {
                        assert(entries@[1].0@ == monitored_names()[1]);
                    } else if k == 2 {
                        assert(entries@[2].0@ == monitored_names()[2]);
                    } else if k == 3 {
                        assert(entries@[3].0@ == monitored_names()[3]);
                    } else if k == 4 {
                        assert(entries@[4].0@ == monitored_names()[4]);
                    } else if k == 5 {
                        assert(entries@[5].0@ == monitored_names()[5]);
                    } else {
                        assert(entries@[6].0@ == monitored_names()[6]);
                    }
                    assert(monitored_names()[k] != n);
                }
            }
        }
    }

    /// Evaluates the four fixed alert rules against the current state and
    /// appends one entry per violated rule to the simulator's alert list.
    /// Nothing else changes.
    fn check_alerts(&mut self)
        requires
            old(self).wf(),
        ensures
            final(self).wf(),
            *final(self) == (PowerPlantSimulator { alerts: final(self).alerts, ..*old(self) }),
            final(self).alerts@ == old(self).alerts@ + step_alerts(
                level_milli_percent(
                    old(self).reservoir.current_volume_milli_m3 as int,
                    old(self).reservoir.max_capacity_milli_m3 as int,
                ),
                old(self).generator.current_power_milli_mw as int,
                old(self).generator.max_power_milli_mw as int,
                0 < old(self).water_flow.flow_rate_milli_m3s <= 100_000,
                old(self).turbine.efficiency_milli as int,
            ),
    {
        let ghost pre = self.alerts@;
        let level = self.reservoir.get_water_level_percentage();
        if level < 20_000 {
            self.alerts.push(PlantAlert::LowReservoirLevel { level_milli_percent: level });
        }
        if (self.generator.current_power_milli_mw as u128) * 20 > (
        self.generator.max_power_milli_mw as u128) * 19 {
            self.alerts.push(
                PlantAlert::HighPowerOutput {
                    power_milli_mw: self.generator.current_power_milli_mw,
                },
            );
        }
        if !self.water_flow.is_flow_safe() {
            self.alerts.push(PlantAlert::UnsafeWaterFlow);
        }
        if self.turbine.efficiency_milli < 700 {
            self.alerts.push(PlantAlert::LowTurbineEfficiency);
        }
        proof {
            assert(self.alerts@ =~= pre + step_alerts(
                level_milli_percent(
                    old(self).reservoir.current_volume_milli_m3 as int,
                    old(self).reservoir.max_capacity_milli_m3 as int,
                ),
                old(self).generator.current_power_milli_mw as int,
                old(self).generator.max_power_milli_mw as int,
                0 < old(self).water_flow.flow_rate_milli_m3s <= 100_000,
                old(self).turbine.efficiency_milli as int,
            ));
        }
    }

    /// One full time step: advances the clock by one hour, updates the
    /// reservoir, propagates head and outflow into the water flow,
    /// computes turbine and generator power, accumulates the energy,
    /// records the snapshot and evaluates the alert rules.
    pub fn advance_step(&mut self)
        requires
            old(self).wf(),
            old(self).current_time_hours < u64::MAX,
        ensures
            final(self).wf(),
            stepped_state(old(self), final(self)),
            recorded_snapshot(
                &(PowerPlantSimulator { monitoring: old(self).monitoring, ..*final(self) }),
                final(self),
            ),
            final(self).monitoring.alerts_view() == old(self).monitoring.alerts_view(),
    {
        self.current_time_hours = self.current_time_hours + self.time_step_hours;
        self.update_reservoir();
        let head_height = self.reservoir.get_available_head();
        let flow_ok = self.water_flow.adjust_flow_rate(self.reservoir.outflow_rate_milli_m3s);
        proof {
            assert(flow_ok is Ok);
        }
        self.water_flow.calculate_pressure(head_height);
        let mechanical_power = self.turbine.calculate_power(
            self.water_flow.flow_rate_milli_m3s,
            head_height,
        );
        let electrical_power = self.generator.generate_power(mechanical_power);
        proof {
            let e0 = old(self).total_energy_milli_mwh as int;
            let t0 = old(self).current_time_hours as int;
            let p = electrical_power as int;
            assert(e0 + p <= (t0 + 1) * MAX_POWER_MILLI_MW && (t0 + 1) * MAX_POWER_MILLI_MW
                <= 0x1_0000_0000_0000_0000i128 * 1_000_000_000_000_000) by (nonlinear_arith)
                requires
                    e0 <= t0 * MAX_POWER_MILLI_MW,
                    0 <= p <= MAX_POWER_MILLI_MW,
                    0 <= t0 + 1 <= 0x1_0000_0000_0000_0000i128,
                    MAX_POWER_MILLI_MW == 1_000_000_000_000_000u64,
            ;
        }
        let step_h: u128 = self.time_step_hours as u128;
        proof {
            assert(step_h == 1);
            assert((electrical_power as u128) * step_h == electrical_power as u128)
                by (nonlinear_arith)
                requires
                    step_h == 1u128,
            ;
        }
        self.total_energy_milli_mwh = self.total_energy_milli_mwh + (electrical_power as u128)
            * step_h;
        self.monitor_plant_status();
        self.check_alerts();
    }

    /// Runs a whole simulation: initializes the plant, then advances
    /// `num_steps` one-hour steps. The final state is pinned as exactly
    /// the initialization followed by `num_steps` iterations of the step
    /// relation — so the per-step reservoir evolution, power computations,
    /// snapshot recordings, alert rules and the energy sum over the steps
    /// all follow. The remaining clauses restate the handiest
    /// consequences: the clock, the synchronized generator, the
    /// prefix-preserved alert list, the untouched monitoring log, and the
    /// growth of the seven monitored series.
    #[verifier::rlimit(100)]
    #[verifier::spinoff_prover]
    pub fn run_simulation(&mut self, num_steps: u32)
        requires
            old(self).wf(),
            old(self).current_time_hours + num_steps <= u64::MAX,
        ensures
            final(self).wf(),
            exists|states: Seq<PowerPlantSimulator>|
                {
                    &&& #[trigger] run_trace(states)
                    &&& states.len() == num_steps + 1
                    &&& initialized_state(old(self), &states[0])
                    &&& states.last() == *final(self)
                },
            final(self).current_time_hours == old(self).current_time_hours + num_steps,
            final(self).generator.is_synchronized,
            final(self).total_energy_milli_mwh >= old(self).total_energy_milli_mwh,
            final(self).alerts@.len() >= old(self).alerts@.len(),
            final(self).alerts@.take(old(self).alerts@.len() as int) == old(self).alerts@,
            final(self).monitoring.alerts_view() == old(self).monitoring.alerts_view(),
            num_steps > 0 ==> forall|k: int|
                0 <= k < monitored_names().len() ==> series_len(
                    final(self),
                    #[trigger] monitored_names()[k],
                ) == series_len(old(self), monitored_names()[k]) + num_steps,
    {
        self.initialize_plant();
        let ghost mut trace: Seq<PowerPlantSimulator> = seq![*self];
        let mut step: u32 = 0;
        while step < num_steps
            invariant
                self.wf(),
                0 <= step <= num_steps,
                old(self).current_time_hours + num_steps <= u64::MAX,
                run_trace(trace),
                trace.len() == step + 1,
                initialized_state(old(self), &trace[0]),
                trace.last() == *self,
                self.current_time_hours == old(self).current_time_hours + step,
                self.generator.is_synchronized,
                self.total_energy_milli_mwh >= old(self).total_energy_milli_mwh,
                self.alerts@.len() >= old(self).alerts@.len(),
                self.alerts@.take(old(self).alerts@.len() as int) == old(self).alerts@,
                self.monitoring.alerts_view() == old(self).monitoring.alerts_view(),
                step == 0 ==> self.monitoring == old(self).monitoring,
                step > 0 ==> forall|k: int|
                    0 <= k < monitored_names().len() ==> series_len(
                        self,
                        #[trigger] monitored_names()[k],
                    ) == series_len(old(self), monitored_names()[k]) + step,
            decreases num_steps - step,
        {
            let ghost pre = *self;
            self.advance_step();
            proof {
                assert(step_relation(pre, *self)) by {
                    reveal(step_relation);
                }
                trace = trace.push(*self);
                assert forall|i: int| 0 <= i < trace.len() - 1 implies step_relation(
                    #[trigger] trace[i],
                    trace[i + 1],
                ) by {
                    if i < trace.len() - 2 {
                        assert(trace[i] == trace.drop_last()[i]);
                        assert(trace[i + 1] == trace.drop_last()[i + 1]);
                    } else {
                        assert(trace[i] == pre);
                    }
                }
                assert(self.alerts@.take(old(self).alerts@.len() as int) =~= pre.alerts@.take(
                    old(self).alerts@.len() as int,
                ));
                assert forall|k: int| 0 <= k < monitored_names().len() implies series_len(
                    self,
                    #[trigger] monitored_names()[k],
                ) == series_len(&pre, monitored_names()[k]) + 1 by {
                    let names = monitored_names();
                    assert(names[0] == "turbine_power_mw"@);
                    assert(names[1] == "generator_power_mw"@);
                    assert(names[2] == "reservoir_level_percent"@);
                    assert(names[3] == "water_flow_m3s"@);
                    assert(names[4] == "head_height_m"@);
                    assert(names[5] == "turbine_efficiency"@);
                    assert(names[6] == "generator_efficiency"@);
                }
            }
            step = step + 1;
        }
    }

    /// A snapshot of the plant for rendering: the components' current
    /// outputs and efficiencies, the reservoir state, and how many alerts
    /// the run has raised so far.
    pub fn status_snapshot(&self) -> (s: StatusSnapshot)
        requires
            self.wf(),
        ensures
            s.turbine_power_milli_mw == self.turbine.current_power_milli_mw,
            s.turbine_efficiency_milli == self.turbine.efficiency_milli,
            s.generator_power_milli_mw == self.generator.current_power_milli_mw,
            s.generator_efficiency_milli == self.generator.efficiency_milli,
            s.reservoir_level_milli_percent == level_milli_percent(
                self.reservoir.current_volume_milli_m3 as int,
                self.reservoir.max_capacity_milli_m3 as int,
            ),
            s.reservoir_volume_milli_m3 == self.reservoir.current_volume_milli_m3,
            s.water_flow_milli_m3s == self.water_flow.flow_rate_milli_m3s,
            s.head_height_milli_m == available_head_milli_m(
                self.reservoir.height_milli_m as int,
                self.reservoir.current_volume_milli_m3 as int,
                self.reservoir.max_capacity_milli_m3 as int,
            ),
            s.alert_count == self.alerts@.len(),
    {
        StatusSnapshot {
            turbine_power_milli_mw: self.turbine.current_power_milli_mw,
            turbine_efficiency_milli: self.turbine.efficiency_milli,
            generator_power_milli_mw: self.generator.current_power_milli_mw,
            generator_efficiency_milli: self.generator.efficiency_milli,
            reservoir_level_milli_percent: self.reservoir.get_water_level_percentage(),
            reservoir_volume_milli_m3: self.reservoir.current_volume_milli_m3,
            water_flow_milli_m3s: self.water_flow.flow_rate_milli_m3s,
            head_height_milli_m: self.reservoir.get_available_head(),
            alert_count: self.alerts.len(),
        }
    }

    /// The final aggregate summary of a run.
    pub fn final_report(&self) -> (r: FinalReport)
        requires
            self.wf(),
        ensures
            r.total_time_hours == self.current_time_hours,
            r.total_energy_milli_mwh == self.total_energy_milli_mwh,
            r.final_reservoir_level_milli_percent == level_milli_percent(
                self.reservoir.current_volume_milli_m3 as int,
                self.reservoir.max_capacity_milli_m3 as int,
            ),
            r.turbine_efficiency_milli == self.turbine.efficiency_milli,
            r.generator_efficiency_milli == self.generator.efficiency_milli,
            r.alert_count == self.alerts@.len(),
    {
        FinalReport {
            total_time_hours: self.current_time_hours,
            total_energy_milli_mwh: self.total_energy_milli_mwh,
            final_reservoir_level_milli_percent: self.reservoir.get_water_level_percentage(),
            turbine_efficiency_milli: self.turbine.efficiency_milli,
            generator_efficiency_milli: self.generator.efficiency_milli,
            alert_count: self.alerts.len(),
        }
    }

    /// External control: sets the reservoir outflow; rejects a rate above
    /// the accepted range.
    pub fn adjust_water_flow(&mut self, new_flow_rate_milli_m3s: u64) -> (r: Result<
        (),
        ParamError,
    >)
        requires
            old(self).wf(),
        ensures
            final(self).wf(),
            r is Ok <==> new_flow_rate_milli_m3s <= crate::components::MAX_FLOW_RATE_MILLI_M3S,
            r is Ok ==> *final(self) == (PowerPlantSimulator {
                reservoir: (Reservoir {
                    outflow_rate_milli_m3s: new_flow_rate_milli_m3s,
                    ..old(self).reservoir
                }),
                ..*old(self)
            }),
            r is Err ==> *final(self) == *old(self),
    {
        self.reservoir.set_outflow_rate(new_flow_rate_milli_m3s)
    }

    /// External control: stops the turbine, zeroing its output at once.
    pub fn shutdown_turbine(&mut self)
        requires
            old(self).wf(),
        ensures
            final(self).wf(),
            *final(self) == (PowerPlantSimulator {
                turbine: (Turbine {
                    is_operational: false,
                    current_power_milli_mw: 0,
                    ..old(self).turbine
                }),
                ..*old(self)
            }),
    {
        self.turbine.shutdown();
    }

    /// External control: marks the turbine operational again.
    pub fn startup_turbine(&mut self)
        requires
            old(self).wf(),
        ensures
            final(self).wf(),
            *final(self) == (PowerPlantSimulator {
                turbine: (Turbine { is_operational: true, ..old(self).turbine }),
                ..*old(self)
            }),
    {
        self.turbine.startup();
    }

    /// The generator's current electrical output, in milli-MW.
    pub fn get_current_power(&self) -> (r: u64)
        ensures
            r == self.generator.current_power_milli_mw,
    {
        self.generator.current_power_milli_mw
    }

    /// The reservoir's fill level, in milli-percent.
    pub fn get_reservoir_level(&self) -> (r: u64)
        requires
            self.wf(),
        ensures
            r == level_milli_percent(
                self.reservoir.current_volume_milli_m3 as int,
                self.reservoir.max_capacity_milli_m3 as int,
            ),
    {
        self.reservoir.get_water_level_percentage()
    }
}

/// The number of retained readings of `name`, or zero while the series
/// does not exist.
pub open spec fn series_len(s: &PowerPlantSimulator, name: Seq<char>) -> int {
    if s.monitoring.readings_for(name) is Some {
        s.monitoring.readings_for(name)->Some_0.len() as int
    } else {
        0
    }
}

/// One reading was appended to the series `name`, carrying `value` at
/// `time`; relates the monitoring state of `pre` and `post`.
pub open spec fn appended_reading(
    pre: &PowerPlantSimulator,
    post: &PowerPlantSimulator,
    name: Seq<char>,
    time: int,
    value: int,
) -> bool {
    &&& post.monitoring.readings_for(name) is Some
    &&& series_len(post, name) == series_len(pre, name) + 1
    &&& post.monitoring.readings_for(name)->Some_0.last().timestamp_hours == time
    &&& post.monitoring.readings_for(name)->Some_0.last().value_milli == value
}

/// The plant state right after initialization: the generator is coupled
/// to the grid, the outflow opens at 50 m^3/s, the base natural inflow of
/// 30 m^3/s is set, and nothing else changes.
pub open spec fn initialized_state(pre: &PowerPlantSimulator, post: &PowerPlantSimulator) -> bool {
    &&& *post == (PowerPlantSimulator {
        generator: post.generator,
        reservoir: post.reservoir,
        ..*pre
    })
    &&& post.generator == (Generator { is_synchronized: true, ..pre.generator })
    &&& post.reservoir == (Reservoir {
        inflow_rate_milli_m3s: 30_000,
        outflow_rate_milli_m3s: 50_000,
        ..pre.reservoir
    })
}

/// One full time step from `pre` to `post`: the physical step relation,
/// followed by the snapshot of the step's own end state at its own clock;
/// the monitoring alert log is never touched.
#[verifier::opaque]
pub open spec fn step_relation(pre: PowerPlantSimulator, post: PowerPlantSimulator) -> bool {
    &&& stepped_state(&pre, &post)
    &&& recorded_snapshot(&(PowerPlantSimulator { monitoring: pre.monitoring, ..post }), &post)
    &&& post.monitoring.alerts_view() == pre.monitoring.alerts_view()
}

/// `states` is a run: every state follows from its predecessor by one
/// full time step.
pub open spec fn run_trace(states: Seq<PowerPlantSimulator>) -> bool {
    forall|i: int|
        0 <= i < states.len() - 1 ==> step_relation(#[trigger] states[i], states[i + 1])
}

/// The monitoring state of `post` extends the one of `pre` by exactly the
/// seven-parameter snapshot of `pre`'s plant state, timestamped with
/// `pre`'s clock; the peak and the efficiency-trend history follow.
pub open spec fn recorded_snapshot(pre: &PowerPlantSimulator, post: &PowerPlantSimulator) -> bool {
    let t = pre.current_time_hours as int;
    &&& appended_reading(
        pre,
        post,
        "turbine_power_mw"@,
        t,
        pre.turbine.current_power_milli_mw as int,
    )
    &&& appended_reading(
        pre,
        post,
        "generator_power_mw"@,
        t,
        pre.generator.current_power_milli_mw as int,
    )
    &&& appended_reading(
        pre,
        post,
        "reservoir_level_percent"@,
        t,
        level_milli_percent(
            pre.reservoir.current_volume_milli_m3 as int,
            pre.reservoir.max_capacity_milli_m3 as int,
        ),
    )
    &&& appended_reading(
        pre,
        post,
        "water_flow_m3s"@,
        t,
        pre.water_flow.flow_rate_milli_m3s as int,
    )
    &&& appended_reading(
        pre,
        post,
        "head_height_m"@,
        t,
        available_head_milli_m(
            pre.reservoir.height_milli_m as int,
            pre.reservoir.current_volume_milli_m3 as int,
            pre.reservoir.max_capacity_milli_m3 as int,
        ),
    )
    &&& appended_reading(pre, post, "turbine_efficiency"@, t, pre.turbine.efficiency_milli as int)
    &&& appended_reading(
        pre,
        post,
        "generator_efficiency"@,
        t,
        pre.generator.efficiency_milli as int,
    )
    &&& forall|n: Seq<char>|
        !monitored_names().contains(n) ==> post.monitoring.readings_for(n)
            == pre.monitoring.readings_for(n)
    &&& post.monitoring.metrics_view().total_energy_milli_mwh
        == pre.monitoring.metrics_view().total_energy_milli_mwh
    &&& post.monitoring.metrics_view().average_power_milli_mw
        == pre.monitoring.metrics_view().average_power_milli_mw
    &&& post.monitoring.metrics_view().uptime_milli_percent
        == pre.monitoring.metrics_view().uptime_milli_percent
    &&& post.monitoring.metrics_view().total_alerts == pre.monitoring.metrics_view().total_alerts
    &&& post.monitoring.metrics_view().peak_power_milli_mw == (if pre.generator.current_power_milli_mw
        as int > pre.monitoring.metrics_view().peak_power_milli_mw {
        pre.generator.current_power_milli_mw as int
    } else {
        pre.monitoring.metrics_view().peak_power_milli_mw as int
    })
    &&& post.monitoring.metrics_view().efficiency_trend@ == pushed_trend(
        pre.monitoring.metrics_view().efficiency_trend@,
        pre.turbine.efficiency_milli as i64,
    )
}

/// The physical half of one time step: the clock, the reservoir, the
/// water flow, both machines and the energy account of `post` follow from
/// `pre` by the step formulas; the simulator's alert list grows by the
/// step's rule violations.
pub open spec fn stepped_state(pre: &PowerPlantSimulator, post: &PowerPlantSimulator) -> bool {
    let new_volume = stepped_volume_milli_m3(
        pre.reservoir.current_volume_milli_m3 as int,
        pre.reservoir.inflow_rate_milli_m3s as int,
        pre.reservoir.outflow_rate_milli_m3s as int,
        pre.time_step_hours as int,
        pre.reservoir.max_capacity_milli_m3 as int,
    );
    let head = available_head_milli_m(
        pre.reservoir.height_milli_m as int,
        new_volume,
        pre.reservoir.max_capacity_milli_m3 as int,
    );
    let flow = pre.reservoir.outflow_rate_milli_m3s as int;
    let turbine_power = if pre.turbine.is_operational {
        turbine_power_milli_mw(
            flow,
            head,
            pre.turbine.efficiency_milli as int,
            pre.turbine.max_power_milli_mw as int,
        )
    } else {
        0
    };
    let generator_power = if pre.generator.is_synchronized {
        generator_power_milli_mw(
            turbine_power,
            pre.generator.efficiency_milli as int,
            pre.generator.max_power_milli_mw as int,
        )
    } else {
        0
    };
    &&& post.current_time_hours == pre.current_time_hours + pre.time_step_hours
    &&& post.time_step_hours == pre.time_step_hours
    &&& post.reservoir == (Reservoir {
        current_volume_milli_m3: new_volume as u64,
        inflow_rate_milli_m3s: diurnal_inflow_milli_m3s(post.current_time_hours as int) as u64,
        ..pre.reservoir
    })
    &&& post.water_flow == (WaterFlow {
        flow_rate_milli_m3s: flow as u64,
        pressure_milli_pa: (WATER_WEIGHT_N_M3 * head) as u64,
        ..pre.water_flow
    })
    &&& post.turbine == (Turbine {
        current_power_milli_mw: turbine_power as u64,
        ..pre.turbine
    })
    &&& post.generator == (Generator {
        current_power_milli_mw: generator_power as u64,
        ..pre.generator
    })
    &&& post.total_energy_milli_mwh == pre.total_energy_milli_mwh + generator_power
        * pre.time_step_hours
    &&& post.alerts@ == pre.alerts@ + step_alerts(
        level_milli_percent(new_volume, pre.reservoir.max_capacity_milli_m3 as int),
        generator_power,
        pre.generator.max_power_milli_mw as int,
        0 < flow <= 100_000,
        pre.turbine.efficiency_milli as int,
    )
}

} // verus!
