use rust_bucket::components::{Generator, Reservoir, Turbine, WaterFlow};
use rust_bucket::monitoring::MonitoringSystem;
use rust_bucket::simulation::{PlantAlert, PowerPlantSimulator};

fn scenario_a_simulator() -> PowerPlantSimulator {
    let turbine = Turbine::new("Main Turbine", 100_000, 850, 0).unwrap();
    let generator = Generator::new("Main Generator", 95_000, 920).unwrap();
    let reservoir = Reservoir::new("Upper Reservoir", 100_000_000_000, 90_000_000_000).unwrap();
    let water_flow = WaterFlow::new(50_000, 100).unwrap();
    let monitoring = MonitoringSystem::new();
    PowerPlantSimulator::new(turbine, generator, reservoir, water_flow, monitoring)
}

#[test]
fn ten_steps_drain_the_reservoir_monotonically() {
    let mut sim = scenario_a_simulator();
    // Initialize without stepping, then drive ten single steps: the
    // outflow of 50 m^3/s always exceeds the at most 36 m^3/s inflow, so
    // the fill percentage falls at every step.
    sim.run_simulation(0);
    let mut last_level = sim.get_reservoir_level();
    for _ in 0..10 {
        sim.advance_step();
        let level = sim.get_reservoir_level();
        assert!(level < last_level);
        last_level = level;
    }
    assert_eq!(sim.current_time_hours, 10);
}

#[test]
fn first_step_produces_the_exact_powers() {
    let mut sim = scenario_a_simulator();
    sim.run_simulation(1);
    // Volume after one hour: 90_000_000 m^3 minus 20 m^3/s * 3600 s.
    assert_eq!(sim.reservoir.current_volume_milli_m3, 90_000_000_000 - 72_000_000);
    // Head: 100 m scaled by the fill ratio.
    assert_eq!(sim.water_flow.flow_rate_milli_m3s, 50_000);
    // Turbine: 9810 * 50 * 89.928 * 0.85, truncated to milli-MW; the
    // generator scales it by 0.92.
    assert_eq!(sim.turbine.current_power_milli_mw, 37_493);
    assert_eq!(sim.get_current_power(), 34_493);
    assert_eq!(sim.total_energy_milli_mwh, 34_493);
    // The snapshot reached the monitoring system.
    let latest = sim.monitoring.get_latest_reading("generator_power_mw").unwrap();
    assert_eq!(latest.value_milli, 34_493);
    assert_eq!(latest.timestamp_hours, 1);
    assert_eq!(sim.monitoring.get_performance_metrics().peak_power_milli_mw, 34_493);
}

#[test]
fn a_long_run_raises_the_low_reservoir_alert() {
    let mut sim = scenario_a_simulator();
    sim.run_simulation(1500);
    assert!(sim.get_reservoir_level() < 20_000);
    assert!(sim.alerts.iter().any(|a| matches!(a, PlantAlert::LowReservoirLevel { .. })));
    let report = sim.final_report();
    assert_eq!(report.total_time_hours, 1500);
    assert_eq!(report.alert_count, sim.alerts.len());
    let mean = report.average_power_milli_mw().unwrap();
    assert_eq!(mean, sim.total_energy_milli_mwh / 1500);
}

#[test]
fn unsynchronized_generator_keeps_the_plant_dark() {
    let mut sim = scenario_a_simulator();
    // Open the outflow but skip initialization: the generator is still
    // off the grid, so a step produces mechanical but no electrical
    // power.
    sim.adjust_water_flow(50_000).unwrap();
    sim.advance_step();
    assert!(sim.turbine.current_power_milli_mw > 0);
    assert_eq!(sim.get_current_power(), 0);
    assert_eq!(sim.total_energy_milli_mwh, 0);
}

#[test]
fn shutdown_and_startup_control_the_turbine() {
    let mut sim = scenario_a_simulator();
    sim.run_simulation(1);
    sim.shutdown_turbine();
    assert_eq!(sim.turbine.current_power_milli_mw, 0);
    sim.advance_step();
    assert_eq!(sim.get_current_power(), 0);
    sim.startup_turbine();
    sim.advance_step();
    assert!(sim.get_current_power() > 0);
}

#[test]
fn adjust_water_flow_feeds_the_next_step() {
    let mut sim = scenario_a_simulator();
    sim.run_simulation(1);
    sim.adjust_water_flow(60_000).unwrap();
    sim.advance_step();
    assert_eq!(sim.water_flow.flow_rate_milli_m3s, 60_000);
}

#[test]
fn unsafe_flow_raises_an_alert() {
    let mut sim = scenario_a_simulator();
    sim.run_simulation(0);
    // 150 m^3/s lies outside the safe band of (0, 100].
    sim.adjust_water_flow(150_000).unwrap();
    sim.advance_step();
    assert!(sim.alerts.iter().any(|a| matches!(a, PlantAlert::UnsafeWaterFlow)));
}

#[test]
fn status_snapshot_mirrors_the_component_state() {
    let mut sim = scenario_a_simulator();
    sim.run_simulation(3);
    let snapshot = sim.status_snapshot();
    assert_eq!(snapshot.turbine_power_milli_mw, sim.turbine.current_power_milli_mw);
    assert_eq!(snapshot.generator_power_milli_mw, sim.generator.current_power_milli_mw);
    assert_eq!(snapshot.reservoir_level_milli_percent, sim.get_reservoir_level());
    assert_eq!(snapshot.water_flow_milli_m3s, sim.water_flow.flow_rate_milli_m3s);
    assert_eq!(snapshot.alert_count, sim.alerts.len());
}

#[test]
fn diurnal_inflow_follows_the_day_night_cycle() {
    let mut sim = scenario_a_simulator();
    sim.run_simulation(0);
    // After the step at hour 6 the inflow peaks at 36 m^3/s; at hour 18
    // it bottoms out at 24 m^3/s.
    for _ in 0..6 {
        sim.advance_step();
    }
    assert_eq!(sim.reservoir.inflow_rate_milli_m3s, 36_000);
    for _ in 0..12 {
        sim.advance_step();
    }
    assert_eq!(sim.reservoir.inflow_rate_milli_m3s, 24_000);
}
