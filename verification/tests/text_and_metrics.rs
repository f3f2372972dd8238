use urn_acoustics_backend::metrics::{
    inc_acoustic_calcs, inc_alerts, inc_db_writes, inc_invalid_readings, inc_localizations,
    inc_mqtt_messages, render_prometheus, render_prometheus_at, uptime_seconds,
    ws_client_connected, ws_client_disconnected, Counters, LabelCount, Metrics,
};
use urn_acoustics_backend::text::to_decimal;

#[test]
fn decimal_of_small_and_large_numbers() {
    assert_eq!(to_decimal(0), "0");
    assert_eq!(to_decimal(7), "7");
    assert_eq!(to_decimal(10), "10");
    assert_eq!(to_decimal(1234567890), "1234567890");
    assert_eq!(to_decimal(u64::MAX), "18446744073709551615");
}

#[test]
fn new_registry_counts_nothing() {
    let m = Metrics::new();
    let c = m.counters();
    assert_eq!(
        c,
        Counters {
            mqtt_messages: 0,
            invalid_readings: 0,
            acoustic_calcs: 0,
            localizations: 0,
            ws_clients: 0
        }
    );
    assert!(m.alert_counts().is_empty());
    assert!(m.write_counts().is_empty());
}

#[test]
fn each_increment_moves_its_own_counter() {
    let mut m = Metrics::new();
    inc_mqtt_messages(&mut m);
    inc_mqtt_messages(&mut m);
    inc_invalid_readings(&mut m);
    inc_acoustic_calcs(&mut m);
    inc_localizations(&mut m);
    inc_localizations(&mut m);
    inc_localizations(&mut m);
    inc_alerts(&mut m, "warning");
    inc_db_writes(&mut m, "alerts");
    inc_db_writes(&mut m, "sensor_data");
    let c = m.counters();
    assert_eq!(c.mqtt_messages, 2);
    assert_eq!(c.invalid_readings, 1);
    assert_eq!(c.acoustic_calcs, 1);
    assert_eq!(c.localizations, 3);
    assert_eq!(c.ws_clients, 0);
    assert_eq!(m.alert_counts(), &vec![LabelCount { label: "warning".to_string(), count: 1 }]);
    assert_eq!(
        m.write_counts(),
        &vec![
            LabelCount { label: "alerts".to_string(), count: 1 },
            LabelCount { label: "sensor_data".to_string(), count: 1 },
        ]
    );
}

#[test]
fn websocket_clients_connect_and_disconnect() {
    let mut m = Metrics::new();
    ws_client_connected(&mut m);
    ws_client_connected(&mut m);
    ws_client_disconnected(&mut m);
    assert_eq!(m.counters().ws_clients, 1);
    ws_client_disconnected(&mut m);
    assert_eq!(m.counters().ws_clients, 0);
}

#[test]
fn disconnect_below_zero_wraps_like_an_atomic() {
    let mut m = Metrics::new();
    ws_client_disconnected(&mut m);
    assert_eq!(m.counters().ws_clients, u64::MAX);
    ws_client_connected(&mut m);
    assert_eq!(m.counters().ws_clients, 0);
}

#[test]
fn exposition_text_is_exact() {
    let mut m = Metrics::new();
    for _ in 0..12 {
        inc_mqtt_messages(&mut m);
    }
    for _ in 0..3 {
        inc_invalid_readings(&mut m);
    }
    for _ in 0..9 {
        inc_acoustic_calcs(&mut m);
    }
    for _ in 0..4 {
        inc_localizations(&mut m);
    }
    inc_alerts(&mut m, "warning");
    inc_alerts(&mut m, "critical");
    inc_alerts(&mut m, "warning");
    for _ in 0..3 {
        inc_db_writes(&mut m, "alerts");
    }
    inc_db_writes(&mut m, "sensor_data");
    ws_client_connected(&mut m);
    let text = render_prometheus_at(&m, 65);
    let expected = "# HELP urn_uptime_seconds 服务运行时长（秒）\n# TYPE urn_uptime_seconds gauge\nurn_uptime_seconds 65\n\n\
# HELP urn_mqtt_messages_total MQTT消息接收总数\n# TYPE urn_mqtt_messages_total counter\nurn_mqtt_messages_total 12\n\n\
# HELP urn_invalid_readings_total 无效传感器读数总数\n# TYPE urn_invalid_readings_total counter\nurn_invalid_readings_total 3\n\n\
# HELP urn_acoustic_calculations_total 声学仿真计算总数\n# TYPE urn_acoustic_calculations_total counter\nurn_acoustic_calculations_total 9\n\n\
# HELP urn_localizations_total 声源定位计算总数\n# TYPE urn_localizations_total counter\nurn_localizations_total 4\n\n\
# HELP urn_alerts_total 告警触发总数\n# TYPE urn_alerts_total counter\nurn_alerts_total{severity=\"warning\"} 2\nurn_alerts_total{severity=\"critical\"} 1\n\n\
# HELP urn_db_writes_total 数据库写入总数\n# TYPE urn_db_writes_total counter\nurn_db_writes_total{table=\"alerts\"} 3\nurn_db_writes_total{table=\"sensor_data\"} 1\n\n\
# HELP urn_ws_active_clients 活跃WebSocket连接数\n# TYPE urn_ws_active_clients gauge\nurn_ws_active_clients 1\n\n\
# HELP urn_info 构建信息\n# TYPE urn_info gauge\nurn_info{version=\"0.1.0\",rustc_version=\"\",build_time=\"\"} 1\n";
    assert_eq!(text, expected);
}

#[test]
fn empty_labeled_counters_have_no_samples() {
    let m = Metrics::new();
    let text = render_prometheus_at(&m, 0);
    assert!(text.contains("# TYPE urn_alerts_total counter\n\n# HELP urn_db_writes_total"));
    assert!(text.contains("# TYPE urn_db_writes_total counter\n\n# HELP urn_ws_active_clients"));
}

#[test]
fn label_values_are_escaped() {
    let mut m = Metrics::new();
    inc_alerts(&mut m, "a\"b\\c\nd");
    let text = render_prometheus_at(&m, 0);
    assert!(text.contains("urn_alerts_total{severity=\"a\\\"b\\\\c\\nd\"} 1\n"));
}

#[test]
fn rendered_metrics_report_current_counters() {
    let mut m = Metrics::new();
    inc_mqtt_messages(&mut m);
    inc_alerts(&mut m, "critical");
    let text = render_prometheus(&m);
    assert!(text.starts_with("# HELP urn_uptime_seconds"));
    assert!(text.contains("\nurn_mqtt_messages_total 1\n"));
    assert!(text.contains("\nurn_alerts_total{severity=\"critical\"} 1\n"));
    assert!(!text.contains("urn_db_writes_total{"));
    assert!(text.ends_with("build_time=\"\"} 1\n"));
    assert!(uptime_seconds(&m) < 60);
}
