//! What the MQTT receiver does with one incoming payload.

use vstd::prelude::*;

use crate::metrics::{bump, inc_invalid_readings, inc_mqtt_messages, Counters, Metrics};

verus! {

/// How far an incoming payload got through the receiver's checks.
#[derive(Debug, Clone, Copy, PartialEq, Eq)]
pub enum PayloadOutcome {
    /// The payload is not a sensor reading.
    Unparsable,
    /// The reading failed validation.
    Invalid,
    /// The reading is valid but comes from a device that is not registered.
    UnknownDevice,
    /// The reading is valid and its device is registered.
    Accepted,
}

/// The outcome of a payload from the results of its three checks, made in
/// order: parsing, validation, device lookup.
pub open spec fn outcome_of(parsed: bool, valid: bool, device_known: bool) -> PayloadOutcome {
    if !parsed {
        PayloadOutcome::Unparsable
    } else if !valid {
        PayloadOutcome::Invalid
    } else if !device_known {
        PayloadOutcome::UnknownDevice
    } else {
        PayloadOutcome::Accepted
    }
}

/// Whether the raw reading goes to the database: whenever it parsed.
pub open spec fn stores_raw(o: PayloadOutcome) -> bool {
    o != PayloadOutcome::Unparsable
}

/// Whether the reading goes on to the analysis and alarm stages.
pub open spec fn forwards(o: PayloadOutcome) -> bool {
    o == PayloadOutcome::Accepted
}

/// Whether the payload counts as an invalid reading.
pub open spec fn counts_invalid(o: PayloadOutcome) -> bool {
    o == PayloadOutcome::Unparsable || o == PayloadOutcome::Invalid
}

impl PayloadOutcome {
    /// The outcome of a payload from the results of its checks.
    pub fn classify(parsed: bool, valid: bool, device_known: bool) -> (o: PayloadOutcome)
        ensures
            o == outcome_of(parsed, valid, device_known),
    {
        if !parsed {
            PayloadOutcome::Unparsable
        } else if !valid {
            PayloadOutcome::Invalid
        } else if !device_known {
            PayloadOutcome::UnknownDevice
        } else {
            PayloadOutcome::Accepted
        }
    }

    /// Whether the raw reading is stored.
    pub fn stores_raw(&self) -> (b: bool)
        ensures
            b == stores_raw(*self),
    {
        !matches!(self, PayloadOutcome::Unparsable)
    }

    /// Whether the reading is passed on to the analysis and alarm stages.
    pub fn forwards(&self) -> (b: bool)
        ensures
            b == forwards(*self),
    {
        matches!(self, PayloadOutcome::Accepted)
    }
}

/// Counts a payload in the metrics: once as a received message, and once
/// more as an invalid reading when it did not parse or did not validate.
pub fn account_payload(m: &mut Metrics, outcome: PayloadOutcome)
    ensures
        final(m)@ == (Counters {
            mqtt_messages: bump(old(m)@.mqtt_messages),
            invalid_readings: if counts_invalid(outcome) {
                bump(old(m)@.invalid_readings)
            } else {
                old(m)@.invalid_readings
            },
            ..old(m)@
        }),
        final(m).alert_series() == old(m).alert_series(),
        final(m).write_series() == old(m).write_series(),
{
    inc_mqtt_messages(m);
    match outcome {
        PayloadOutcome::Unparsable | PayloadOutcome::Invalid => inc_invalid_readings(m),
        _ => {},
    }
}

/// Only valid readings of registered devices travel on, every reading that
/// parsed is stored raw, and a payload counts as invalid exactly when it
/// failed to parse or to validate.
pub proof fn lemma_forwarded_were_stored(parsed: bool, valid: bool, device_known: bool)
    ensures
        forwards(outcome_of(parsed, valid, device_known)) <==> (parsed && valid && device_known),
        forwards(outcome_of(parsed, valid, device_known)) ==> stores_raw(outcome_of(parsed, valid, device_known)),
        stores_raw(outcome_of(parsed, valid, device_known)) <==> parsed,
        counts_invalid(outcome_of(parsed, valid, device_known)) <==> (!parsed || !valid),
{
}

} // verus!
