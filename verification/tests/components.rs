use rust_bucket::components::{Generator, ParamError, Reservoir, Turbine, WaterFlow};

#[test]
fn turbine_power_follows_the_hydraulic_formula() {
    // 50 m^3/s under 90 m of head at 0.85 efficiency:
    // 9810 * 50 * 90 * 0.85 W = 37.52... MW, truncated on the milli grid.
    let mut turbine = Turbine::new("Main Turbine", 100_000, 850, 0).unwrap();
    let power = turbine.calculate_power(50_000, 90_000);
    assert_eq!(power, 37_523);
    assert_eq!(turbine.current_power_milli_mw, 37_523);
}

#[test]
fn turbine_power_clamps_to_the_rating() {
    // The same flow and head against a 10 MW turbine.
    let mut turbine = Turbine::new("Small Turbine", 10_000, 850, 0).unwrap();
    let power = turbine.calculate_power(50_000, 90_000);
    assert_eq!(power, 10_000);
}

#[test]
fn stopped_turbine_delivers_nothing_whatever_the_inputs() {
    let mut turbine = Turbine::new("Main Turbine", 100_000, 850, 0).unwrap();
    turbine.calculate_power(50_000, 90_000);
    turbine.shutdown();
    assert_eq!(turbine.current_power_milli_mw, 0);
    let power = turbine.calculate_power(50_000, 90_000);
    assert_eq!(power, 0);
    assert_eq!(turbine.current_power_milli_mw, 0);
}

#[test]
fn turbine_rejects_an_efficiency_above_unity() {
    assert_eq!(Turbine::new("Broken", 100_000, 1_001, 0).unwrap_err(), ParamError::OutOfRange);
}

#[test]
fn unsynchronized_generator_returns_zero() {
    // An 80 MW mechanical offer against a generator not yet on the grid.
    let mut generator = Generator::new("Main Generator", 95_000, 920).unwrap();
    let power = generator.generate_power(80_000);
    assert_eq!(power, 0);
    assert_eq!(generator.current_power_milli_mw, 0);
}

#[test]
fn synchronized_generator_scales_and_clamps() {
    let mut generator = Generator::new("Main Generator", 95_000, 920).unwrap();
    generator.synchronize();
    assert_eq!(generator.generate_power(80_000), 73_600);
    assert_eq!(generator.generate_power(200_000), 95_000);
    generator.desynchronize();
    assert_eq!(generator.current_power_milli_mw, 0);
}

#[test]
fn reservoir_update_clamps_at_both_ends() {
    let mut reservoir = Reservoir::new("Upper Reservoir", 1_000_000, 500_000).unwrap();
    // Heavy outflow for one hour: would go far below zero.
    reservoir.set_outflow_rate(10_000).unwrap();
    reservoir.update_volume(1);
    assert_eq!(reservoir.current_volume_milli_m3, 0);
    // Heavy inflow for one hour: would go far above the capacity.
    reservoir.set_outflow_rate(0).unwrap();
    reservoir.set_inflow_rate(10_000).unwrap();
    reservoir.update_volume(1);
    assert_eq!(reservoir.current_volume_milli_m3, 1_000_000);
}

#[test]
fn reservoir_integrates_net_flow_over_the_step() {
    let mut reservoir = Reservoir::new("Upper Reservoir", 100_000_000_000, 90_000_000_000).unwrap();
    reservoir.set_inflow_rate(30_000).unwrap();
    reservoir.set_outflow_rate(50_000).unwrap();
    reservoir.update_volume(1);
    // Net -20 m^3/s over 3600 s.
    assert_eq!(reservoir.current_volume_milli_m3, 90_000_000_000 - 72_000_000);
}

#[test]
fn available_head_scales_with_the_fill_ratio() {
    let mut reservoir = Reservoir::new("Upper Reservoir", 100_000_000_000, 90_000_000_000).unwrap();
    // 90 percent full at the default 100 m height.
    assert_eq!(reservoir.get_available_head(), 90_000);
    assert_eq!(reservoir.get_water_level_percentage(), 90_000);
    // The head never decreases as the volume grows.
    let mut last_head = 0;
    for fill in [0u64, 10, 25, 50, 75, 100] {
        reservoir.current_volume_milli_m3 = fill * 1_000_000_000;
        let head = reservoir.get_available_head();
        assert!(head >= last_head);
        last_head = head;
    }
}

#[test]
fn reservoir_rejects_an_empty_capacity_and_an_overfull_start() {
    assert!(Reservoir::new("Broken", 0, 0).is_err());
    assert!(Reservoir::new("Broken", 100, 101).is_err());
}

#[test]
fn water_flow_pressure_is_hydrostatic() {
    let mut flow = WaterFlow::new(50_000, 100).unwrap();
    assert_eq!(flow.pressure_milli_pa, 101_325_000);
    flow.calculate_pressure(90_000);
    assert_eq!(flow.pressure_milli_pa, 9810 * 90_000);
}

#[test]
fn flow_safety_band_is_zero_exclusive_to_one_hundred_inclusive() {
    let mut flow = WaterFlow::new(50_000, 100).unwrap();
    assert!(flow.is_flow_safe());
    flow.adjust_flow_rate(0).unwrap();
    assert!(!flow.is_flow_safe());
    flow.adjust_flow_rate(100_000).unwrap();
    assert!(flow.is_flow_safe());
    flow.adjust_flow_rate(100_001).unwrap();
    assert!(!flow.is_flow_safe());
}

#[test]
fn informational_setters_touch_nothing_else() {
    let mut turbine = Turbine::new("Main Turbine", 100_000, 850, 17).unwrap();
    assert_eq!(turbine.last_maintenance, 17);
    turbine.schedule_maintenance(42);
    assert_eq!(turbine.last_maintenance, 42);
    assert!(turbine.is_operational);

    let mut generator = Generator::new("Main Generator", 95_000, 920).unwrap();
    assert_eq!(generator.voltage_milli_kv, 11_000);
    assert_eq!(generator.frequency_milli_hz, 50_000);
    generator.adjust_frequency(60_000);
    assert_eq!(generator.frequency_milli_hz, 60_000);
    assert_eq!(generator.current_power_milli_mw, 0);
}

#[test]
fn flow_rate_setters_reject_rates_beyond_the_accepted_range() {
    let mut reservoir = Reservoir::new("Upper Reservoir", 1_000_000, 500_000).unwrap();
    assert!(reservoir.set_inflow_rate(1_000_000_000_000).is_ok());
    assert_eq!(reservoir.set_inflow_rate(1_000_000_000_001).unwrap_err(), ParamError::OutOfRange);
    assert_eq!(reservoir.inflow_rate_milli_m3s, 1_000_000_000_000);
    assert_eq!(reservoir.set_outflow_rate(1_000_000_000_001).unwrap_err(), ParamError::OutOfRange);

    let mut flow = WaterFlow::new(50_000, 100).unwrap();
    assert_eq!(flow.adjust_flow_rate(1_000_000_000_001).unwrap_err(), ParamError::OutOfRange);
    assert_eq!(flow.flow_rate_milli_m3s, 50_000);
    assert!(WaterFlow::new(1_000_000_000_001, 0).is_err());
}
