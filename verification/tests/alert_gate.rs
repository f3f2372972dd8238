use urn_acoustics_backend::alerts::{AlarmEvent, AlertGate, AlertKind, AlertLevel, Severity, Topic};

const SEC: u64 = 1_000_000_000;

#[test]
fn drift_alert_is_emitted_with_its_severity() {
    let mut gate = AlertGate::new(60);
    let d = gate.check_resonance(3, AlertLevel::Warning, 5 * SEC).unwrap();
    assert_eq!(d.kind, AlertKind::FrequencyDrift);
    assert_eq!(d.severity, Severity::Warning);
    assert_eq!(d.device_id, Some(3));
    assert_eq!(d.key, "drift_3");
    assert_eq!(d.kind.as_str(), "frequency_drift");
    assert_eq!(d.severity.as_str(), "warning");

    let d = gate.check_resonance(4, AlertLevel::Critical, 5 * SEC).unwrap();
    assert_eq!(d.severity, Severity::Critical);
    assert_eq!(d.severity.as_str(), "critical");
}

#[test]
fn drift_below_threshold_raises_nothing() {
    let mut gate = AlertGate::new(60);
    assert!(gate.check_resonance(3, AlertLevel::Normal, 0).is_none());
    // Nothing was recorded, so the next real drift still alerts.
    assert!(gate.should_emit("drift_3", 1));
    assert!(gate.check_resonance(3, AlertLevel::Warning, 1).is_some());
}

#[test]
fn repeated_alert_waits_for_the_cooldown() {
    let mut gate = AlertGate::new(60);
    assert!(gate.check_resonance(1, AlertLevel::Warning, 100 * SEC).is_some());
    assert!(gate.check_resonance(1, AlertLevel::Critical, 100 * SEC + 1).is_none());
    assert!(gate.check_resonance(1, AlertLevel::Warning, 159 * SEC).is_none());
    assert!(gate.check_resonance(1, AlertLevel::Warning, 160 * SEC - 1).is_none());
    assert!(gate.check_resonance(1, AlertLevel::Warning, 160 * SEC).is_some());
}

#[test]
fn devices_and_sources_cool_down_separately() {
    let mut gate = AlertGate::new(60);
    assert!(gate.check_resonance(1, AlertLevel::Warning, 10 * SEC).is_some());
    assert!(gate.check_resonance(2, AlertLevel::Warning, 10 * SEC).is_some());
    assert!(gate.check_resonance(12, AlertLevel::Warning, 10 * SEC).is_some());
    let l = gate.check_localization(1, AlertLevel::Warning, 10 * SEC).unwrap();
    assert_eq!(l.kind, AlertKind::LocalizationBias);
    assert_eq!(l.device_id, None);
    assert_eq!(l.key, "loc_1");
    assert_eq!(l.kind.as_str(), "localization_bias");
    assert!(gate.check_localization(1, AlertLevel::Critical, 11 * SEC).is_none());
    assert!(gate.check_localization(2, AlertLevel::Critical, 11 * SEC).is_some());
}

#[test]
fn clock_going_backwards_counts_as_no_time_elapsed() {
    let mut gate = AlertGate::new(1);
    assert!(gate.check_resonance(9, AlertLevel::Warning, 50 * SEC).is_some());
    assert!(gate.check_resonance(9, AlertLevel::Warning, 10 * SEC).is_none());
}

#[test]
fn zero_cooldown_never_suppresses() {
    let mut gate = AlertGate::new(0);
    assert!(gate.check_resonance(9, AlertLevel::Warning, 5).is_some());
    assert!(gate.check_resonance(9, AlertLevel::Warning, 5).is_some());
}

#[test]
fn marking_a_key_starts_its_cooldown() {
    let mut gate = AlertGate::new(2);
    assert!(gate.should_emit("drift_5", 0));
    gate.mark_emitted("drift_5", 0);
    assert!(!gate.should_emit("drift_5", SEC));
    assert!(gate.should_emit("drift_5", 2 * SEC));
    assert!(gate.should_emit("drift_6", SEC));
}

#[test]
fn alarm_events_are_broadcast_under_their_topics() {
    let mut gate = AlertGate::new(60);
    let s = gate.handle(AlarmEvent::SensorReading, 0);
    assert_eq!(s.topic, Topic::SensorData);
    assert!(s.alert.is_none());
    let s = gate.handle(AlarmEvent::Resonance { device_id: 2, level: AlertLevel::Critical }, 0);
    assert_eq!(s.topic, Topic::Resonance);
    assert_eq!(s.alert.unwrap().severity, Severity::Critical);
    let s = gate.handle(AlarmEvent::Resonance { device_id: 2, level: AlertLevel::Critical }, SEC);
    assert!(s.alert.is_none());
    let s = gate.handle(AlarmEvent::Localization { source_id: 2, level: AlertLevel::Normal }, 0);
    assert_eq!(s.topic, Topic::Localization);
    assert!(s.alert.is_none());
    assert_eq!(Topic::Alert.as_str(), "alert");
    assert_eq!(Topic::SensorData.as_str(), "sensor_data");
    assert_eq!(Topic::Resonance.as_str(), "resonance");
    assert_eq!(Topic::Localization.as_str(), "localization");
}

#[test]
fn handled_alerts_carry_their_kind_and_device() {
    let mut gate = AlertGate::new(60);
    let d = gate
        .handle(AlarmEvent::Resonance { device_id: 5, level: AlertLevel::Warning }, 0)
        .alert
        .unwrap();
    assert_eq!(d.kind, AlertKind::FrequencyDrift);
    assert_eq!(d.device_id, Some(5));
    assert_eq!(d.key, "drift_5");
    let d = gate
        .handle(AlarmEvent::Localization { source_id: 8, level: AlertLevel::Critical }, 0)
        .alert
        .unwrap();
    assert_eq!(d.kind, AlertKind::LocalizationBias);
    assert_eq!(d.device_id, None);
    assert_eq!(d.key, "loc_8");
    assert_eq!(d.severity, Severity::Critical);
}
