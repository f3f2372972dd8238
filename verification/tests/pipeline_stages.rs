use urn_acoustics_backend::acoustics::{parse_shape, str_eq, UrnShape};
use urn_acoustics_backend::config_loader::{config_dir_candidates, select_config_dir};
use urn_acoustics_backend::db_writer::{Table, WriteCounts};
use urn_acoustics_backend::handlers::{
    ApiResponse, PaginationQuery, RECENT_DEFAULT_LIMIT, SENSOR_DATA_DEFAULT_LIMIT,
};
use urn_acoustics_backend::metrics::Metrics;
use urn_acoustics_backend::mqtt_receiver::{account_payload, PayloadOutcome};
use urn_acoustics_backend::source_locator::{claim_source_id, push_recent, select_active_devices};
use urn_acoustics_backend::store::{recent_alerts_query, recent_localizations_query, sensor_data_query};

#[test]
fn shapes_are_read_by_name() {
    assert_eq!(parse_shape("Spherical"), UrnShape::Spherical);
    assert_eq!(parse_shape("cylindrical"), UrnShape::Cylindrical);
    assert_eq!(parse_shape("Ellipsoidal"), UrnShape::Ellipsoidal);
    assert_eq!(parse_shape("irregular"), UrnShape::Irregular);
    assert_eq!(parse_shape("IRREGULAR"), UrnShape::Spherical);
    assert_eq!(parse_shape(""), UrnShape::Spherical);
    assert!(str_eq("abc", "abc"));
    assert!(!str_eq("abc", "abd"));
}

#[test]
fn recent_history_keeps_the_newest_entries() {
    let mut h: Vec<u32> = Vec::new();
    for i in 0..5 {
        push_recent(&mut h, i, 3);
    }
    assert_eq!(h, vec![2, 3, 4]);
    push_recent(&mut h, 9, 3);
    assert_eq!(h, vec![3, 4, 9]);
}

#[test]
fn zero_capacity_keeps_nothing() {
    let mut h: Vec<u32> = Vec::new();
    push_recent(&mut h, 1, 0);
    assert!(h.is_empty());
}

#[test]
fn oversized_history_shrinks_by_one_per_push() {
    let mut h: Vec<u32> = vec![1, 2, 3, 4];
    push_recent(&mut h, 5, 2);
    assert_eq!(h, vec![2, 3, 4, 5]);
}

#[test]
fn source_ids_are_claimed_only_with_enough_devices() {
    let mut counter = 1u64;
    assert_eq!(claim_source_id(2, 3, &mut counter), None);
    assert_eq!(counter, 1);
    assert_eq!(claim_source_id(3, 3, &mut counter), Some(1));
    assert_eq!(claim_source_id(5, 3, &mut counter), Some(2));
    assert_eq!(counter, 3);
}

#[test]
fn write_counts_and_progress_reports() {
    let mut c = WriteCounts::new();
    assert!(!c.report_due());
    for _ in 0..60 {
        c.record_write(Table::SensorData);
    }
    for _ in 0..39 {
        c.record_write(Table::Alerts);
    }
    assert!(!c.report_due());
    c.record_write(Table::ResonanceAnalysis);
    assert_eq!(c.total(), 100);
    assert!(c.report_due());
    c.record_write(Table::SourceLocalization);
    assert!(!c.report_due());
    assert_eq!((c.sensor, c.resonance, c.localization, c.alerts), (60, 1, 1, 39));
    assert_eq!(Table::SourceLocalization.name(), "source_localization");
    assert_eq!(Table::Alerts.name(), "alerts");
}

#[test]
fn sensor_data_queries() {
    assert_eq!(
        sensor_data_query(Some(7), 100),
        "SELECT timestamp, device_id, sound_pressure_level, resonance_frequency,\n                 source_direction, medium_density, temperature, humidity\n                 FROM sensor_data WHERE device_id = 7\n                 ORDER BY timestamp DESC LIMIT 100"
    );
    assert_eq!(
        sensor_data_query(None, 25),
        "SELECT timestamp, device_id, sound_pressure_level, resonance_frequency,\n                 source_direction, medium_density, temperature, humidity\n                 FROM sensor_data ORDER BY timestamp DESC LIMIT 25"
    );
}

#[test]
fn recent_row_queries() {
    assert!(recent_alerts_query(50).ends_with("FROM alerts ORDER BY timestamp DESC LIMIT 50"));
    assert!(recent_alerts_query(50).starts_with("SELECT timestamp, alert_id, alert_type"));
    assert!(recent_localizations_query(0)
        .ends_with("used_devices FROM source_localization ORDER BY timestamp DESC LIMIT 0"));
}

#[test]
fn api_envelopes() {
    let ok = ApiResponse::ok(5u32);
    assert!(ok.success);
    assert_eq!(ok.data, Some(5));
    assert_eq!(ok.error, None);
    let err: ApiResponse<u32> = ApiResponse::err("设备不存在");
    assert!(!err.success);
    assert_eq!(err.data, None);
    assert_eq!(err.error.as_deref(), Some("设备不存在"));
}

#[test]
fn page_sizes_default_per_listing() {
    let none = PaginationQuery { limit: None, device_id: Some(2) };
    assert_eq!(none.limit_or(SENSOR_DATA_DEFAULT_LIMIT), 100);
    assert_eq!(none.limit_or(RECENT_DEFAULT_LIMIT), 50);
    let some = PaginationQuery { limit: Some(7), device_id: None };
    assert_eq!(some.limit_or(RECENT_DEFAULT_LIMIT), 7);
}

#[test]
fn configuration_directory_search() {
    let with_env = config_dir_candidates(Some("/srv/urn".to_string()));
    assert_eq!(with_env, vec!["/srv/urn", "./config", "../config", "/etc/urn-acoustics"]);
    let without = config_dir_candidates(None);
    assert_eq!(without, vec!["./config", "../config", "/etc/urn-acoustics"]);
    assert_eq!(select_config_dir(&with_env, &vec![false, false, true, true]), "../config");
    assert_eq!(select_config_dir(&with_env, &vec![true, true, true, true]), "/srv/urn");
    assert_eq!(select_config_dir(&without, &vec![false, false, false]), "./config");
}

#[test]
fn payload_outcomes_route_and_count() {
    assert_eq!(PayloadOutcome::classify(false, true, true), PayloadOutcome::Unparsable);
    assert_eq!(PayloadOutcome::classify(true, false, true), PayloadOutcome::Invalid);
    assert_eq!(PayloadOutcome::classify(true, true, false), PayloadOutcome::UnknownDevice);
    assert_eq!(PayloadOutcome::classify(true, true, true), PayloadOutcome::Accepted);
    assert!(!PayloadOutcome::Unparsable.stores_raw());
    assert!(PayloadOutcome::Invalid.stores_raw());
    assert!(!PayloadOutcome::UnknownDevice.forwards());
    assert!(PayloadOutcome::Accepted.forwards());

    let mut m = Metrics::new();
    account_payload(&mut m, PayloadOutcome::Unparsable);
    account_payload(&mut m, PayloadOutcome::Invalid);
    account_payload(&mut m, PayloadOutcome::UnknownDevice);
    account_payload(&mut m, PayloadOutcome::Accepted);
    assert_eq!(m.counters().mqtt_messages, 4);
    assert_eq!(m.counters().invalid_readings, 2);
}

#[test]
fn localization_draws_on_devices_with_recent_readings() {
    let ids = vec![4, 1, 9, 2];
    assert_eq!(select_active_devices(&ids, &vec![1, 0, 3, 2], 3), Some(vec![4, 9, 2]));
    assert_eq!(select_active_devices(&ids, &vec![1, 0, 3, 0], 3), None);
    assert_eq!(select_active_devices(&ids, &vec![0, 0, 0, 0], 0), Some(vec![]));
    assert_eq!(select_active_devices(&vec![], &vec![], 1), None);
}
