//! Validation rules of incoming sensor readings.
//!
//! A reading is accepted when its device id is positive and each of its six
//! measured values lies in the closed range of its field. The measured
//! values are floating point: the caller compares each of them against
//! [`field_bounds`] and renders it with [`field_precision`] decimals, and
//! [`collect_validation_errors`] turns those outcomes into the result.

use vstd::prelude::*;

verus! {

/// One rejected field of a reading.
#[derive(Debug, Clone)]
pub struct ValidationError {
    pub field: String,
    pub message: String,
}

/// The measured fields of a reading that carry a range, in checking order.
#[derive(Debug, Clone, Copy, PartialEq, Eq)]
pub enum ReadingField {
    SoundPressureLevel,
    ResonanceFrequency,
    SourceDirection,
    MediumDensity,
    Temperature,
    Humidity,
}

/// The outcome of the range check of one field: whether the value lay in
/// the field's range, and the value rendered with the field's precision.
#[derive(Debug, Clone)]
pub struct RangeCheck {
    pub field: ReadingField,
    pub in_range: bool,
    pub value_text: String,
}

pub open spec fn field_name_text(f: ReadingField) -> Seq<char> {
    match f {
        ReadingField::SoundPressureLevel => "sound_pressure_level"@,
        ReadingField::ResonanceFrequency => "resonance_frequency"@,
        ReadingField::SourceDirection => "source_direction"@,
        ReadingField::MediumDensity => "medium_density"@,
        ReadingField::Temperature => "temperature"@,
        ReadingField::Humidity => "humidity"@,
    }
}

/// The inclusive range `(low, high)` that a field's value must lie in.
pub open spec fn bounds_of(f: ReadingField) -> (int, int) {
    match f {
        ReadingField::SoundPressureLevel => (0, 200),
        ReadingField::ResonanceFrequency => (10, 10000),
        ReadingField::SourceDirection => (0, 360),
        ReadingField::MediumDensity => (500, 5000),
        ReadingField::Temperature => (-50, 80),
        ReadingField::Humidity => (0, 100),
    }
}

/// Number of decimals with which a rejected value is quoted.
pub open spec fn precision_of(f: ReadingField) -> nat {
    match f {
        ReadingField::MediumDensity => 0,
        ReadingField::Humidity => 0,
        _ => 1,
    }
}

/// The text of the message of a rejected field, before the quoted value.
pub open spec fn message_prefix(f: ReadingField) -> Seq<char> {
    match f {
        ReadingField::SoundPressureLevel => "声压级应在 0~200 dB 范围内，实际为 "@,
        ReadingField::ResonanceFrequency => "共振频率应在 10~10000 Hz 范围内，实际为 "@,
        ReadingField::SourceDirection => "声源方向应在 0~360° 范围内，实际为 "@,
        ReadingField::MediumDensity => "介质密度应在 500~5000 kg/m³ 范围内，实际为 "@,
        ReadingField::Temperature => "温度应在 -50~80°C 范围内，实际为 "@,
        ReadingField::Humidity => "湿度应在 0~100% 范围内，实际为 "@,
    }
}

/// The six ranged fields in the order in which they are checked.
pub open spec fn checking_order() -> Seq<ReadingField> {
    seq![
        ReadingField::SoundPressureLevel,
        ReadingField::ResonanceFrequency,
        ReadingField::SourceDirection,
        ReadingField::MediumDensity,
        ReadingField::Temperature,
        ReadingField::Humidity,
    ]
}

/// A rejected field as (field name, message).
pub open spec fn error_view(e: ValidationError) -> (Seq<char>, Seq<char>) {
    (e.field@, e.message@)
}

/// The error a failed range check gives.
pub open spec fn range_error(c: RangeCheck) -> (Seq<char>, Seq<char>) {
    (field_name_text(c.field), message_prefix(c.field) + c.value_text@)
}

/// The errors of the failed checks among `checks`, in order.
pub open spec fn range_errors(checks: Seq<RangeCheck>) -> Seq<(Seq<char>, Seq<char>)>
    decreases checks.len(),
{
    if checks.len() == 0 {
        Seq::empty()
    } else {
        let rest = range_errors(checks.drop_last());
        if checks.last().in_range {
            rest
        } else {
            rest.push(range_error(checks.last()))
        }
    }
}

/// The error of a zero device id.
pub open spec fn device_id_error() -> (Seq<char>, Seq<char>) {
    ("device_id"@, "device_id 必须大于 0"@)
}

/// All errors of a reading with the given device id and range checks.
pub open spec fn reading_errors(device_id: u32, checks: Seq<RangeCheck>) -> Seq<(Seq<char>, Seq<char>)> {
    (if device_id == 0 { seq![device_id_error()] } else { Seq::empty() }) + range_errors(checks)
}

impl ReadingField {
    /// The name under which the field is reported.
    pub fn name(&self) -> (s: &'static str)
        ensures
            s@ == field_name_text(*self),
    {
        match self {
            ReadingField::SoundPressureLevel => "sound_pressure_level",
            ReadingField::ResonanceFrequency => "resonance_frequency",
            ReadingField::SourceDirection => "source_direction",
            ReadingField::MediumDensity => "medium_density",
            ReadingField::Temperature => "temperature",
            ReadingField::Humidity => "humidity",
        }
    }

    fn message_prefix(&self) -> (s: &'static str)
        ensures
            s@ == message_prefix(*self),
    {
        match self {
            ReadingField::SoundPressureLevel => "声压级应在 0~200 dB 范围内，实际为 ",
            ReadingField::ResonanceFrequency => "共振频率应在 10~10000 Hz 范围内，实际为 ",
            ReadingField::SourceDirection => "声源方向应在 0~360° 范围内，实际为 ",
            ReadingField::MediumDensity => "介质密度应在 500~5000 kg/m³ 范围内，实际为 ",
            ReadingField::Temperature => "温度应在 -50~80°C 范围内，实际为 ",
            ReadingField::Humidity => "湿度应在 0~100% 范围内，实际为 ",
        }
    }
}

/// The inclusive range `(low, high)` of a field.
pub fn field_bounds(f: ReadingField) -> (b: (i32, i32))
    ensures
        b.0 == bounds_of(f).0,
        b.1 == bounds_of(f).1,
{
    match f {
        ReadingField::SoundPressureLevel => (0, 200),
        ReadingField::ResonanceFrequency => (10, 10000),
        ReadingField::SourceDirection => (0, 360),
        ReadingField::MediumDensity => (500, 5000),
        ReadingField::Temperature => (-50, 80),
        ReadingField::Humidity => (0, 100),
    }
}

/// The number of decimals with which a rejected value of `f` is quoted.
pub fn field_precision(f: ReadingField) -> (p: usize)
    ensures
        p == precision_of(f),
{
    match f {
        ReadingField::MediumDensity => 0,
        ReadingField::Humidity => 0,
        _ => 1,
    }
}

/// The ranged fields in checking order.
pub fn ranged_fields() -> (v: Vec<ReadingField>)
    ensures
        v@ == checking_order(),
{
    let v = vec![
        ReadingField::SoundPressureLevel,
        ReadingField::ResonanceFrequency,
        ReadingField::SourceDirection,
        ReadingField::MediumDensity,
        ReadingField::Temperature,
        ReadingField::Humidity,
    ];
    assert(v@ =~= checking_order());
    v
}

/// Judges a reading from its device id and the outcomes of its range
/// checks: `Ok` when the id is positive and every check passed, otherwise
/// the error of the id (first) and of each failed check, in order.
pub fn collect_validation_errors(device_id: u32, checks: &Vec<RangeCheck>) -> (r: Result<(), Vec<ValidationError>>)
    ensures
        r is Ok <==> reading_errors(device_id, checks@).len() == 0,
        r matches Err(errs) ==> errs@.map_values(|e: ValidationError| error_view(e)) == reading_errors(device_id, checks@),
{
    let mut errors: Vec<ValidationError> = Vec::new();
    if device_id == 0 {
        errors.push(ValidationError {
            field: String::from_str("device_id"),
            message: String::from_str("device_id 必须大于 0"),
        });
    }
    let ghost head: Seq<(Seq<char>, Seq<char>)> = if device_id == 0 { seq![device_id_error()] } else { Seq::empty() };
    assert(errors@.map_values(|e: ValidationError| error_view(e)) =~= head);
    let n = checks.len();
    let mut i: usize = 0;
    while i < n
        invariant
            n == checks@.len(),
            i <= n,
            errors@.map_values(|e: ValidationError| error_view(e)) == head + range_errors(checks@.take(i as int)),
        decreases n - i,
    {
        let c = &checks[i];
        assert(checks@.take(i as int + 1).drop_last() =~= checks@.take(i as int));
        if !c.in_range {
            let mut message = String::from_str(c.field.message_prefix());
            message.append(c.value_text.as_str());
            let ghost before = errors@;
            errors.push(ValidationError { field: String::from_str(c.field.name()), message });
            assert(errors@.map_values(|e: ValidationError| error_view(e))
                =~= before.map_values(|e: ValidationError| error_view(e)).push(range_error(*c)));
        }
        i = i + 1;
    }
    assert(checks@.take(n as int) =~= checks@);
    assert(reading_errors(device_id, checks@) == head + range_errors(checks@));
    if errors.len() == 0 {
        Ok(())
    } else {
        Err(errors)
    }
}

/// The failed checks give no error exactly when every check passed.
pub proof fn lemma_range_errors_empty(checks: Seq<RangeCheck>)
    ensures
        range_errors(checks).len() == 0 <==> forall|i: int| 0 <= i < checks.len() ==> #[trigger] checks[i].in_range,
    decreases checks.len(),
{
    if checks.len() > 0 {
        let front = checks.drop_last();
        lemma_range_errors_empty(front);
        assert forall|i: int| 0 <= i < front.len() implies front[i] == checks[i] by {}
        if forall|i: int| 0 <= i < checks.len() ==> #[trigger] checks[i].in_range {
            assert(checks.last().in_range);
            assert forall|i: int| 0 <= i < front.len() implies #[trigger] front[i].in_range by {
                assert(checks[i].in_range);
            }
        } else {
            let j = choose|j: int| 0 <= j < checks.len() && !(#[trigger] checks[j].in_range);
            if j < front.len() {
                assert(!front[j].in_range);
            }
        }
    }
}

/// A reading is accepted exactly when its device id is positive and each of
/// its range checks passed; each failed check adds exactly one error.
pub proof fn lemma_accepted_iff_all_checks_pass(device_id: u32, checks: Seq<RangeCheck>, extra: RangeCheck)
    ensures
        reading_errors(device_id, checks).len() == 0
            <==> (device_id != 0 && forall|i: int| 0 <= i < checks.len() ==> #[trigger] checks[i].in_range),
        reading_errors(device_id, checks.push(extra)).len()
            == reading_errors(device_id, checks).len() + (if extra.in_range { 0int } else { 1int }),
{
    lemma_range_errors_empty(checks);
    assert(checks.push(extra).drop_last() =~= checks);
}

/// The documented range of each measured field: a value is within the
/// field's bounds exactly when it lies in that closed range — sound pressure
/// 0~200 dB, resonance frequency 10~10000 Hz, source direction 0~360°,
/// medium density 500~5000 kg/m³, temperature -50~80 °C, humidity 0~100 %.
pub proof fn lemma_field_ranges(v: int)
    ensures
        (bounds_of(ReadingField::SoundPressureLevel).0 <= v <= bounds_of(ReadingField::SoundPressureLevel).1)
            <==> (0 <= v <= 200),
        (bounds_of(ReadingField::ResonanceFrequency).0 <= v <= bounds_of(ReadingField::ResonanceFrequency).1)
            <==> (10 <= v <= 10000),
        (bounds_of(ReadingField::SourceDirection).0 <= v <= bounds_of(ReadingField::SourceDirection).1)
            <==> (0 <= v <= 360),
        (bounds_of(ReadingField::MediumDensity).0 <= v <= bounds_of(ReadingField::MediumDensity).1)
            <==> (500 <= v <= 5000),
        (bounds_of(ReadingField::Temperature).0 <= v <= bounds_of(ReadingField::Temperature).1)
            <==> (-50 <= v <= 80),
        (bounds_of(ReadingField::Humidity).0 <= v <= bounds_of(ReadingField::Humidity).1)
            <==> (0 <= v <= 100),
{
}

} // verus!
