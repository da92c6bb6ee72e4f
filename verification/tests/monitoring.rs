use rust_bucket::monitoring::{AlertSeverity, MonitoringSystem};

#[test]
fn average_and_latest_and_peak_over_two_power_readings() {
    // Record 50 MW then 30 MW: the mean is 40 MW, the latest is 30 MW,
    // and the peak stays at 50 MW.
    let mut monitoring = MonitoringSystem::new();
    monitoring.record_reading(1, "generator_power_mw", 50_000);
    monitoring.record_reading(2, "generator_power_mw", 30_000);

    assert_eq!(monitoring.calculate_average("generator_power_mw"), Some(40_000));
    let latest = monitoring.get_latest_reading("generator_power_mw").unwrap();
    assert_eq!(latest.value_milli, 30_000);
    assert_eq!(latest.timestamp_hours, 2);
    assert_eq!(latest.unit, "MW");
    assert_eq!(monitoring.get_performance_metrics().peak_power_milli_mw, 50_000);
}

#[test]
fn average_is_none_for_a_parameter_never_recorded() {
    let monitoring = MonitoringSystem::new();
    assert_eq!(monitoring.calculate_average("generator_power_mw"), None);
}

#[test]
fn average_rounds_towards_minus_infinity() {
    let mut monitoring = MonitoringSystem::new();
    monitoring.record_reading(1, "head_height_m", 1);
    monitoring.record_reading(2, "head_height_m", 2);
    assert_eq!(monitoring.calculate_average("head_height_m"), Some(1));
    monitoring.record_reading(3, "head_height_m", -6);
    assert_eq!(monitoring.calculate_average("head_height_m"), Some(-1));
}

#[test]
fn trend_needs_two_readings_and_a_positive_time_span() {
    let mut monitoring = MonitoringSystem::new();
    assert!(monitoring.calculate_trend("water_flow_m3s").is_none());
    monitoring.record_reading(5, "water_flow_m3s", 10_000);
    assert!(monitoring.calculate_trend("water_flow_m3s").is_none());
    monitoring.record_reading(5, "water_flow_m3s", 20_000);
    assert!(monitoring.calculate_trend("water_flow_m3s").is_none());
    monitoring.record_reading(7, "water_flow_m3s", 30_000);
    let trend = monitoring.calculate_trend("water_flow_m3s").unwrap();
    assert_eq!(trend.delta_value_milli, 20_000);
    assert_eq!(trend.delta_hours, 2);
    assert!(trend.is_increasing());
    assert!(!trend.is_decreasing());
}

#[test]
fn efficiency_trend_history_is_capped_at_one_hundred() {
    let mut monitoring = MonitoringSystem::new();
    for i in 0..100i64 {
        monitoring.record_reading(i as u64, "turbine_efficiency", i);
    }
    assert_eq!(monitoring.get_performance_metrics().efficiency_trend.len(), 100);
    assert_eq!(monitoring.get_performance_metrics().efficiency_trend[0], 0);

    // The 101st push evicts the oldest entry.
    monitoring.record_reading(100, "turbine_efficiency", 100);
    let metrics = monitoring.get_performance_metrics();
    assert_eq!(metrics.efficiency_trend.len(), 100);
    assert_eq!(metrics.efficiency_trend[0], 1);
    assert_eq!(metrics.efficiency_trend[99], 100);
}

#[test]
fn units_follow_the_fixed_table() {
    let mut monitoring = MonitoringSystem::new();
    monitoring.record_reading(1, "turbine_power_mw", 37_000);
    monitoring.record_reading(1, "reservoir_level_percent", 90_000);
    monitoring.record_reading(1, "water_flow_m3s", 50_000);
    monitoring.record_reading(1, "head_height_m", 90_000);
    monitoring.record_reading(1, "somewhere_else", 1);
    assert_eq!(monitoring.get_latest_reading("turbine_power_mw").unwrap().unit, "MW");
    assert_eq!(monitoring.get_latest_reading("reservoir_level_percent").unwrap().unit, "%");
    assert_eq!(monitoring.get_latest_reading("water_flow_m3s").unwrap().unit, "m³/s");
    assert_eq!(monitoring.get_latest_reading("head_height_m").unwrap().unit, "m");
    assert_eq!(monitoring.get_latest_reading("somewhere_else").unwrap().unit, "");
}

#[test]
fn record_readings_appends_one_reading_per_entry() {
    let mut monitoring = MonitoringSystem::new();
    let entries: Vec<(String, i64)> = vec![
        ("turbine_power_mw".to_string(), 37_523),
        ("generator_power_mw".to_string(), 34_521),
    ];
    monitoring.record_readings(4, &entries);
    let series = monitoring.get_readings_for_parameter("turbine_power_mw").unwrap();
    assert_eq!(series.len(), 1);
    assert_eq!(series[0].value_milli, 37_523);
    assert_eq!(monitoring.get_performance_metrics().peak_power_milli_mw, 34_521);
}

#[test]
fn alerts_filter_by_exact_severity() {
    let mut monitoring = MonitoringSystem::new();
    monitoring.add_alert(1, AlertSeverity::Info, "note".to_string(), "p".to_string(), 1);
    monitoring.add_alert(2, AlertSeverity::Critical, "bad".to_string(), "p".to_string(), 2);
    monitoring.add_alert(3, AlertSeverity::Warning, "hmm".to_string(), "q".to_string(), 3);
    monitoring.add_alert(4, AlertSeverity::Critical, "worse".to_string(), "q".to_string(), 4);

    let critical = monitoring.get_alerts_by_severity(AlertSeverity::Critical);
    assert_eq!(critical.len(), 2);
    assert_eq!(critical[0].message, "bad");
    assert_eq!(critical[1].message, "worse");
    assert_eq!(monitoring.get_performance_metrics().total_alerts, 4);
}

#[test]
fn recent_alerts_anchor_to_the_latest_alert_time() {
    let mut monitoring = MonitoringSystem::new();
    assert!(monitoring.get_recent_alerts(100).is_empty());
    monitoring.add_alert(1, AlertSeverity::Info, "old".to_string(), "p".to_string(), 1);
    monitoring.add_alert(10, AlertSeverity::Info, "mid".to_string(), "p".to_string(), 2);
    monitoring.add_alert(20, AlertSeverity::Info, "new".to_string(), "p".to_string(), 3);
    // Anchor is hour 20, window 10 hours: keeps hours 10 and 20.
    let recent = monitoring.get_recent_alerts(10);
    assert_eq!(recent.len(), 2);
    assert_eq!(recent[0].message, "mid");
    assert_eq!(recent[1].message, "new");
}

#[test]
fn clear_old_data_prunes_against_the_latest_alert() {
    let mut monitoring = MonitoringSystem::new();
    monitoring.record_reading(1, "water_flow_m3s", 10_000);
    monitoring.record_reading(15, "water_flow_m3s", 20_000);
    // Without any alert, pruning does nothing.
    monitoring.clear_old_data(5);
    assert_eq!(monitoring.get_readings_for_parameter("water_flow_m3s").unwrap().len(), 2);

    monitoring.add_alert(20, AlertSeverity::Info, "now".to_string(), "p".to_string(), 1);
    monitoring.clear_old_data(5);
    let series = monitoring.get_readings_for_parameter("water_flow_m3s").unwrap();
    assert_eq!(series.len(), 1);
    assert_eq!(series[0].timestamp_hours, 15);
    assert_eq!(monitoring.get_alerts_by_severity(AlertSeverity::Info).len(), 1);
    // The lifetime counter is not lowered by pruning.
    assert_eq!(monitoring.get_performance_metrics().total_alerts, 1);
}

#[test]
fn export_data_copies_every_series() {
    let mut monitoring = MonitoringSystem::new();
    monitoring.record_reading(1, "head_height_m", 90_000);
    monitoring.record_reading(2, "water_flow_m3s", 50_000);
    let exported = monitoring.export_data();
    assert_eq!(exported.len(), 2);
    assert_eq!(exported[0].name, "head_height_m");
    assert_eq!(exported[0].readings.len(), 1);
    assert_eq!(exported[1].name, "water_flow_m3s");
}

#[test]
fn report_renders_the_computable_lines() {
    let mut monitoring = MonitoringSystem::new();
    monitoring.record_reading(1, "generator_power_mw", 50_000);
    monitoring.record_reading(3, "generator_power_mw", 30_000);
    let report = monitoring.generate_performance_report();
    assert_eq!(
        report,
        "Performance Report\n==================\n\
         Average Power Output: 40.0 MW\n\
         Peak Power Output: 50.0 MW\n\
         Total Alerts: 0\n\
         Power Trend: Decreasing\n"
    );
}

#[test]
fn report_on_an_empty_system_has_only_the_header_and_alert_count() {
    let monitoring = MonitoringSystem::new();
    assert_eq!(
        monitoring.generate_performance_report(),
        "Performance Report\n==================\nTotal Alerts: 0\n"
    );
}

#[test]
fn report_shows_efficiencies_as_percentages() {
    let mut monitoring = MonitoringSystem::new();
    monitoring.record_reading(1, "turbine_efficiency", 850);
    monitoring.record_reading(1, "generator_efficiency", 920);
    monitoring.record_reading(1, "reservoir_level_percent", 90_000);
    monitoring.record_reading(1, "water_flow_m3s", 50_000);
    assert_eq!(
        monitoring.generate_performance_report(),
        "Performance Report\n==================\n\
         Average Turbine Efficiency: 85.0%\n\
         Average Generator Efficiency: 92.0%\n\
         Average Reservoir Level: 90.0%\n\
         Average Water Flow: 50.0 m3/s\n\
         Total Alerts: 0\n"
    );
}

#[test]
fn default_monitoring_system_is_empty() {
    let monitoring = MonitoringSystem::default();
    assert_eq!(monitoring.get_performance_metrics().total_alerts, 0);
    assert!(monitoring.calculate_average("turbine_power_mw").is_none());
    assert!(monitoring.export_data().is_empty());
}

#[test]
fn report_rounds_to_the_nearest_tenth() {
    // 37.493 MW rounds up to 37.5; plain truncation would show 37.4.
    let mut monitoring = MonitoringSystem::new();
    monitoring.record_reading(1, "generator_power_mw", 37_493);
    assert_eq!(
        monitoring.generate_performance_report(),
        "Performance Report\n==================\n\
         Average Power Output: 37.5 MW\n\
         Peak Power Output: 37.5 MW\n\
         Total Alerts: 0\n"
    );
}
