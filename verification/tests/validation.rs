use urn_acoustics_backend::pipeline::{
    collect_validation_errors, field_bounds, field_precision, ranged_fields, RangeCheck,
    ReadingField, ValidationError,
};

struct Reading {
    device_id: u32,
    sound_pressure_level: f64,
    resonance_frequency: f64,
    source_direction: f64,
    medium_density: f64,
    temperature: f64,
    humidity: f64,
}

fn valid_reading() -> Reading {
    Reading {
        device_id: 1,
        sound_pressure_level: 80.0,
        resonance_frequency: 200.0,
        source_direction: 180.0,
        medium_density: 1800.0,
        temperature: 20.0,
        humidity: 50.0,
    }
}

fn value(r: &Reading, f: ReadingField) -> f64 {
    match f {
        ReadingField::SoundPressureLevel => r.sound_pressure_level,
        ReadingField::ResonanceFrequency => r.resonance_frequency,
        ReadingField::SourceDirection => r.source_direction,
        ReadingField::MediumDensity => r.medium_density,
        ReadingField::Temperature => r.temperature,
        ReadingField::Humidity => r.humidity,
    }
}

fn validate_reading(r: &Reading) -> Result<(), Vec<ValidationError>> {
    let checks: Vec<RangeCheck> = ranged_fields()
        .into_iter()
        .map(|f| {
            let (lo, hi) = field_bounds(f);
            let v = value(r, f);
            RangeCheck {
                field: f,
                in_range: (lo as f64..=hi as f64).contains(&v),
                value_text: format!("{:.*}", field_precision(f), v),
            }
        })
        .collect();
    collect_validation_errors(r.device_id, &checks)
}

#[test]
fn test_validate_valid_reading() {
    let r = valid_reading();
    assert!(validate_reading(&r).is_ok());
}

#[test]
fn test_validate_invalid_spl() {
    let mut r = valid_reading();
    r.sound_pressure_level = 300.0;
    let errs = validate_reading(&r).unwrap_err();
    assert_eq!(errs.len(), 1);
    assert_eq!(errs[0].field, "sound_pressure_level");
}

#[test]
fn test_validate_multiple_errors() {
    let mut r = valid_reading();
    r.device_id = 0;
    r.humidity = 150.0;
    let errs = validate_reading(&r).unwrap_err();
    assert_eq!(errs.len(), 2);
}

#[test]
fn errors_carry_their_messages_in_checking_order() {
    let mut r = valid_reading();
    r.device_id = 0;
    r.medium_density = 100.4;
    r.temperature = -60.25;
    let errs = validate_reading(&r).unwrap_err();
    assert_eq!(errs.len(), 3);
    assert_eq!(errs[0].field, "device_id");
    assert_eq!(errs[0].message, "device_id 必须大于 0");
    assert_eq!(errs[1].field, "medium_density");
    assert_eq!(errs[1].message, "介质密度应在 500~5000 kg/m³ 范围内，实际为 100");
    assert_eq!(errs[2].field, "temperature");
    assert_eq!(errs[2].message, "温度应在 -50~80°C 范围内，实际为 -60.2");
}

#[test]
fn range_bounds_are_inclusive() {
    let mut r = valid_reading();
    r.sound_pressure_level = 200.0;
    r.resonance_frequency = 10.0;
    r.source_direction = 360.0;
    r.medium_density = 500.0;
    r.temperature = -50.0;
    r.humidity = 0.0;
    assert!(validate_reading(&r).is_ok());
    r.humidity = 100.0001;
    let errs = validate_reading(&r).unwrap_err();
    assert_eq!(errs[0].field, "humidity");
    assert_eq!(errs[0].message, "湿度应在 0~100% 范围内，实际为 100");
}

#[test]
fn rule_table() {
    assert_eq!(
        ranged_fields(),
        vec![
            ReadingField::SoundPressureLevel,
            ReadingField::ResonanceFrequency,
            ReadingField::SourceDirection,
            ReadingField::MediumDensity,
            ReadingField::Temperature,
            ReadingField::Humidity,
        ]
    );
    assert_eq!(field_bounds(ReadingField::ResonanceFrequency), (10, 10000));
    assert_eq!(field_bounds(ReadingField::Temperature), (-50, 80));
    assert_eq!(field_precision(ReadingField::SoundPressureLevel), 1);
    assert_eq!(field_precision(ReadingField::Humidity), 0);
    assert_eq!(ReadingField::SourceDirection.name(), "source_direction");
}

#[test]
fn every_failed_check_is_reported() {
    let checks: Vec<RangeCheck> = ranged_fields()
        .into_iter()
        .map(|f| RangeCheck { field: f, in_range: false, value_text: "x".to_string() })
        .collect();
    let errs = collect_validation_errors(0, &checks).unwrap_err();
    assert_eq!(errs.len(), 7);
    assert_eq!(errs[1].message, "声压级应在 0~200 dB 范围内，实际为 x");
    assert_eq!(errs[2].message, "共振频率应在 10~10000 Hz 范围内，实际为 x");
    assert_eq!(errs[3].message, "声源方向应在 0~360° 范围内，实际为 x");
}

#[test]
fn positive_device_without_checks_is_accepted() {
    assert!(collect_validation_errors(5, &Vec::new()).is_ok());
    assert_eq!(collect_validation_errors(0, &Vec::new()).unwrap_err().len(), 1);
}
