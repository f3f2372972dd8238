//! Text of the parameterized queries that read recent rows back from the
//! time-series store.

use vstd::prelude::*;

use crate::text::{decimal, push_decimal};

verus! {

pub open spec fn sensor_data_by_device_head() -> Seq<char> {
    "SELECT timestamp, device_id, sound_pressure_level, resonance_frequency,\n                 source_direction, medium_density, temperature, humidity\n                 FROM sensor_data WHERE device_id = "@
}

pub open spec fn sensor_data_by_device_mid() -> Seq<char> {
    "\n                 ORDER BY timestamp DESC LIMIT "@
}

pub open spec fn sensor_data_all_head() -> Seq<char> {
    "SELECT timestamp, device_id, sound_pressure_level, resonance_frequency,\n                 source_direction, medium_density, temperature, humidity\n                 FROM sensor_data ORDER BY timestamp DESC LIMIT "@
}

pub open spec fn alerts_head() -> Seq<char> {
    "SELECT timestamp, alert_id, alert_type, severity, device_id, message, details, is_resolved\n             FROM alerts ORDER BY timestamp DESC LIMIT "@
}

pub open spec fn localizations_head() -> Seq<char> {
    "SELECT timestamp, source_id, source_x, source_y, source_z, bearing_angle,\n             elevation_angle, distance_estimate, confidence, tdoa_matrix, beamformed_power,\n             used_devices FROM source_localization ORDER BY timestamp DESC LIMIT "@
}

/// The query for the newest `limit` sensor readings, of one device when
/// `device_id` is given and of all devices otherwise.
pub open spec fn sensor_data_query_text(device_id: Option<u32>, limit: u32) -> Seq<char> {
    match device_id {
        Some(id) => sensor_data_by_device_head() + decimal(id as nat) + sensor_data_by_device_mid()
            + decimal(limit as nat),
        None => sensor_data_all_head() + decimal(limit as nat),
    }
}

/// Query for the newest `limit` sensor readings, of one device when
/// `device_id` is given and of all devices otherwise.
pub fn sensor_data_query(device_id: Option<u32>, limit: u32) -> (q: String)
    ensures
        q@ == sensor_data_query_text(device_id, limit),
{
    match device_id {
        Some(id) => {
            let mut q = String::from_str(
                "SELECT timestamp, device_id, sound_pressure_level, resonance_frequency,\n                 source_direction, medium_density, temperature, humidity\n                 FROM sensor_data WHERE device_id = ",
            );
            push_decimal(&mut q, id as u64);
            q.append("\n                 ORDER BY timestamp DESC LIMIT ");
            push_decimal(&mut q, limit as u64);
            q
        },
        None => {
            let mut q = String::from_str(
                "SELECT timestamp, device_id, sound_pressure_level, resonance_frequency,\n                 source_direction, medium_density, temperature, humidity\n                 FROM sensor_data ORDER BY timestamp DESC LIMIT ",
            );
            push_decimal(&mut q, limit as u64);
            q
        },
    }
}

/// Query for the newest `limit` alerts.
pub fn recent_alerts_query(limit: u32) -> (q: String)
    ensures
        q@ == alerts_head() + decimal(limit as nat),
{
    let mut q = String::from_str(
        "SELECT timestamp, alert_id, alert_type, severity, device_id, message, details, is_resolved\n             FROM alerts ORDER BY timestamp DESC LIMIT ",
    );
    push_decimal(&mut q, limit as u64);
    q
}

/// Query for the newest `limit` localization results.
pub fn recent_localizations_query(limit: u32) -> (q: String)
    ensures
        q@ == localizations_head() + decimal(limit as nat),
{
    let mut q = String::from_str(
        "SELECT timestamp, source_id, source_x, source_y, source_z, bearing_angle,\n             elevation_angle, distance_estimate, confidence, tdoa_matrix, beamformed_power,\n             used_devices FROM source_localization ORDER BY timestamp DESC LIMIT ",
    );
    push_decimal(&mut q, limit as u64);
    q
}

/// `columns` joined by `", "`.
pub open spec fn comma_list(columns: Seq<Seq<char>>) -> Seq<char>
    decreases columns.len(),
{
    if columns.len() == 0 {
        Seq::empty()
    } else if columns.len() == 1 {
        columns[0]
    } else {
        comma_list(columns.drop_last()) + ", "@ + columns.last()
    }
}

/// The columns of a stored alert, in the order of the alert record's fields.
pub open spec fn alert_columns() -> Seq<Seq<char>> {
    seq!["timestamp"@, "alert_id"@, "alert_type"@, "severity"@, "device_id"@, "message"@, "details"@, "is_resolved"@]
}

/// The alert listing selects the alert columns in the order of the alert
/// record's fields, newest first, limited to `limit` rows.
pub proof fn lemma_alerts_query_columns(limit: u32)
    ensures
        alerts_head() + decimal(limit as nat)
            == "SELECT "@ + comma_list(alert_columns()) + "\n             "@
                + "FROM alerts ORDER BY timestamp DESC LIMIT "@ + decimal(limit as nat),
{
    reveal_strlit("SELECT ");
    reveal_strlit(", ");
    reveal_strlit("\n             ");
    reveal_strlit("FROM alerts ORDER BY timestamp DESC LIMIT ");
    reveal_strlit("timestamp");
    reveal_strlit("alert_id");
    reveal_strlit("alert_type");
    reveal_strlit("severity");
    reveal_strlit("device_id");
    reveal_strlit("message");
    reveal_strlit("details");
    reveal_strlit("is_resolved");
    reveal_strlit("SELECT timestamp, alert_id, alert_type, severity, device_id, message, details, is_resolved\n             FROM alerts ORDER BY timestamp DESC LIMIT ");
    let c = alert_columns();
    reveal_with_fuel(comma_list, 9);
    assert(alerts_head() =~= "SELECT "@ + comma_list(c) + "\n             "@ + "FROM alerts ORDER BY timestamp DESC LIMIT "@);
}

/// The columns of a stored localization, in the order of the stored row's
/// fields.
pub open spec fn localization_columns() -> Seq<Seq<char>> {
    seq![
        "timestamp"@, "source_id"@, "source_x"@, "source_y"@, "source_z"@, "bearing_angle"@,
        "elevation_angle"@, "distance_estimate"@, "confidence"@, "tdoa_matrix"@, "beamformed_power"@,
        "used_devices"@,
    ]
}

/// The localization listing selects the localization columns in the order
/// of the stored row's fields (written over three lines), newest first,
/// limited to `limit` rows.
pub proof fn lemma_localizations_query_columns(limit: u32)
    ensures
        localizations_head() + decimal(limit as nat)
            == "SELECT "@ + comma_list(localization_columns().take(6)) + ",\n             "@
                + comma_list(localization_columns().subrange(6, 11)) + ",\n             "@
                + comma_list(localization_columns().subrange(11, 12))
                + " FROM source_localization ORDER BY timestamp DESC LIMIT "@ + decimal(limit as nat),
{
    reveal_strlit("SELECT ");
    reveal_strlit(", ");
    reveal_strlit(",\n             ");
    reveal_strlit(" FROM source_localization ORDER BY timestamp DESC LIMIT ");
    reveal_strlit("timestamp");
    reveal_strlit("source_id");
    reveal_strlit("source_x");
    reveal_strlit("source_y");
    reveal_strlit("source_z");
    reveal_strlit("bearing_angle");
    reveal_strlit("elevation_angle");
    reveal_strlit("distance_estimate");
    reveal_strlit("confidence");
    reveal_strlit("tdoa_matrix");
    reveal_strlit("beamformed_power");
    reveal_strlit("used_devices");
    reveal_strlit("SELECT timestamp, source_id, source_x, source_y, source_z, bearing_angle,\n             elevation_angle, distance_estimate, confidence, tdoa_matrix, beamformed_power,\n             used_devices FROM source_localization ORDER BY timestamp DESC LIMIT ");
    let c = localization_columns();
    let l1 = c.take(6);
    let l2 = c.subrange(6, 11);
    let l3 = c.subrange(11, 12);
    reveal_with_fuel(comma_list, 7);
    assert(localizations_head() =~= "SELECT "@ + comma_list(l1) + ",\n             "@ + comma_list(l2)
        + ",\n             "@ + comma_list(l3) + " FROM source_localization ORDER BY timestamp DESC LIMIT "@);
}

} // verus!
