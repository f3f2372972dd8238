//! Alert decisions of the alarm service: which resonance drifts and which
//! weak localizations raise an alert, with a per-key cooldown that keeps a
//! device or a source from raising the same alert again too soon.
//!
//! Times are monotonic instants written as nanoseconds on one clock.
//! The comparison of measured values against the configured thresholds
//! (floating point) is made by the caller, which hands over an [`AlertLevel`].

use dashmap::DashMap;
use vstd::prelude::*;

use crate::text::{decimal, lemma_decimal_injective, push_decimal};

verus! {

#[verifier::external_type_specification]
#[verifier::external_body]
#[verifier::reject_recursive_types(K)]
#[verifier::reject_recursive_types(V)]
#[verifier::reject_recursive_types(S)]
pub struct ExDashMap<K, V, S>(DashMap<K, V, S>);

/// The map from alert keys to the instant (ns) of their last alert.
pub type CooldownMap = DashMap<String, u64>;

/// What a cooldown map holds: for each alert key, the instant (ns) at which
/// an alert under that key was last emitted.
pub uninterp spec fn cooldown_contents(m: CooldownMap) -> Map<Seq<char>, u64>;

/// Calls `DashMap::new`, which returns a map with no entries.
#[verifier::external_body]
fn cooldown_map_new() -> (fresh: CooldownMap)
    ensures
        cooldown_contents(fresh) =~= Map::empty(),
{
    DashMap::new()
}

/// Calls `DashMap::get` and copies the value out of the returned guard:
/// `Some` of the value stored under `key` when the map has one, else `None`.
#[verifier::external_body]
fn cooldown_map_get(m: &CooldownMap, key: &str) -> (r: Option<u64>)
    ensures
        r == (if cooldown_contents(*m).contains_key(key@) {
            Some(cooldown_contents(*m)[key@])
        } else {
            None::<u64>
        }),
{
    match m.get(key) {
        Some(v) => Some(*v),
        None => None,
    }
}

/// Calls `DashMap::insert`: afterwards `key` maps to `value` and every other
/// key keeps its entry; the previous value under `key`, if any, is returned.
#[verifier::external_body]
fn cooldown_map_insert(m: &mut CooldownMap, key: String, value: u64) -> (prev: Option<u64>)
    ensures
        cooldown_contents(*final(m)) == cooldown_contents(*old(m)).insert(key@, value),
        prev == (if cooldown_contents(*old(m)).contains_key(key@) {
            Some(cooldown_contents(*old(m))[key@])
        } else {
            None::<u64>
        }),
{
    m.insert(key, value)
}

/// How a measured value stands against its warning threshold, as judged by
/// the caller: below it, at or above it, or at or above its critical multiple.
#[derive(Clone, Copy, Debug, PartialEq, Eq)]
pub enum AlertLevel {
    Normal,
    Warning,
    Critical,
}

/// Severity of an emitted alert.
#[derive(Clone, Copy, Debug, PartialEq, Eq)]
pub enum Severity {
    Warning,
    Critical,
}

/// Kind of an emitted alert.
#[derive(Clone, Copy, Debug, PartialEq, Eq)]
pub enum AlertKind {
    FrequencyDrift,
    LocalizationBias,
}

pub open spec fn severity_text(s: Severity) -> Seq<char> {
    match s {
        Severity::Warning => "warning"@,
        Severity::Critical => "critical"@,
    }
}

pub open spec fn kind_text(k: AlertKind) -> Seq<char> {
    match k {
        AlertKind::FrequencyDrift => "frequency_drift"@,
        AlertKind::LocalizationBias => "localization_bias"@,
    }
}

impl Severity {
    /// The label of the severity: `"warning"` or `"critical"`.
    pub fn as_str(&self) -> (s: &'static str)
        ensures
            s@ == severity_text(*self),
    {
        match self {
            Severity::Warning => "warning",
            Severity::Critical => "critical",
        }
    }
}

impl AlertKind {
    /// The alert type label: `"frequency_drift"` or `"localization_bias"`.
    pub fn as_str(&self) -> (s: &'static str)
        ensures
            s@ == kind_text(*self),
    {
        match self {
            AlertKind::FrequencyDrift => "frequency_drift",
            AlertKind::LocalizationBias => "localization_bias",
        }
    }
}

/// The severity an alert of the given (non-normal) level carries.
pub open spec fn level_severity(level: AlertLevel) -> Severity {
    match level {
        AlertLevel::Critical => Severity::Critical,
        _ => Severity::Warning,
    }
}

/// The cooldown key of resonance-drift alerts of a device.
pub open spec fn drift_key(device_id: u32) -> Seq<char> {
    "drift_"@ + decimal(device_id as nat)
}

/// The cooldown key of localization-bias alerts of a source.
pub open spec fn loc_key(source_id: u64) -> Seq<char> {
    "loc_"@ + decimal(source_id as nat)
}

/// Time from `last` to `now`, zero when `now` is not later (as
/// `Instant::elapsed` saturates).
pub open spec fn elapsed_ns(last: u64, now: u64) -> int {
    if now >= last { now - last } else { 0 }
}

/// Whether a key last used at `last` may be used again at `now`.
pub open spec fn cooled_down(last: u64, now: u64, cooldown_secs: u64) -> bool {
    elapsed_ns(last, now) >= cooldown_secs * 1_000_000_000
}

/// Whether an alert under `key` may be emitted at `now`, given the instants
/// of the last emissions.
pub open spec fn may_emit(last: Map<Seq<char>, u64>, key: Seq<char>, now: u64, cooldown_secs: u64) -> bool {
    !last.contains_key(key) || cooled_down(last[key], now, cooldown_secs)
}

/// Whether a check of `level` under `key` at `now` emits an alert.
pub open spec fn fires(
    last: Map<Seq<char>, u64>,
    key: Seq<char>,
    level: AlertLevel,
    now: u64,
    cooldown_secs: u64,
) -> bool {
    level != AlertLevel::Normal && may_emit(last, key, now, cooldown_secs)
}

/// The cooldown map after a check of `level` under `key` at `now`.
pub open spec fn after_check(
    last: Map<Seq<char>, u64>,
    key: Seq<char>,
    level: AlertLevel,
    now: u64,
    cooldown_secs: u64,
) -> Map<Seq<char>, u64> {
    if fires(last, key, level, now, cooldown_secs) {
        last.insert(key, now)
    } else {
        last
    }
}

/// An admitted alert: its kind, severity, device and cooldown key.
#[derive(Clone, Debug)]
pub struct AlertDecision {
    pub kind: AlertKind,
    pub severity: Severity,
    pub device_id: Option<u32>,
    pub key: String,
}

/// The cooldown state of an alarm service.
pub struct AlertGate {
    cooldown_secs: u64,
    last_alerts: CooldownMap,
}

impl AlertGate {
    pub closed spec fn cooldown(&self) -> u64 {
        self.cooldown_secs
    }

    /// Instant (ns) of the last emitted alert under each key.
    pub closed spec fn last_emitted(&self) -> Map<Seq<char>, u64> {
        cooldown_contents(self.last_alerts)
    }

    /// A gate with the given cooldown and no alert emitted yet.
    pub fn new(cooldown_seconds: u64) -> (g: AlertGate)
        ensures
            g.cooldown() == cooldown_seconds,
            g.last_emitted() == Map::<Seq<char>, u64>::empty(),
    {
        AlertGate { cooldown_secs: cooldown_seconds, last_alerts: cooldown_map_new() }
    }

    /// Whether an alert under `key` may be emitted at `now`.
    pub fn should_emit(&self, key: &str, now: u64) -> (b: bool)
        ensures
            b == may_emit(self.last_emitted(), key@, now, self.cooldown()),
    {
        match cooldown_map_get(&self.last_alerts, key) {
            Some(last) => {
                let elapsed: u64 = if now >= last { now - last } else { 0 };
                (elapsed as u128) >= (self.cooldown_secs as u128) * 1_000_000_000u128
            },
            None => true,
        }
    }

    /// Records that an alert under `key` was emitted at `now`.
    pub fn mark_emitted(&mut self, key: &str, now: u64)
        ensures
            final(self).cooldown() == old(self).cooldown(),
            final(self).last_emitted() == old(self).last_emitted().insert(key@, now),
    {
        let k = String::from_str(key);
        let _ = cooldown_map_insert(&mut self.last_alerts, k, now);
    }

    fn check_key(&mut self, key: String, level: AlertLevel, now: u64) -> (emit: Option<Severity>)
        ensures
            final(self).cooldown() == old(self).cooldown(),
            final(self).last_emitted() == after_check(old(self).last_emitted(), key@, level, now, old(self).cooldown()),
            emit is Some <==> fires(old(self).last_emitted(), key@, level, now, old(self).cooldown()),
            emit matches Some(s) ==> s == level_severity(level),
    {
        let severity = match level {
            AlertLevel::Normal => {
                return None;
            },
            AlertLevel::Warning => Severity::Warning,
            AlertLevel::Critical => Severity::Critical,
        };
        if !self.should_emit(key.as_str(), now) {
            return None;
        }
        self.mark_emitted(key.as_str(), now);
        Some(severity)
    }

    /// Decides on a resonance-drift alert for `device_id` at `now`.
    ///
    /// An alert is emitted when the drift is at least the warning threshold
    /// and the device's drift key is not cooling down; its severity is
    /// critical at the critical level. Emitting records `now` under the key.
    pub fn check_resonance(&mut self, device_id: u32, level: AlertLevel, now: u64) -> (r: Option<AlertDecision>)
        ensures
            final(self).cooldown() == old(self).cooldown(),
            final(self).last_emitted() == after_check(old(self).last_emitted(), drift_key(device_id), level, now, old(self).cooldown()),
            r is Some <==> fires(old(self).last_emitted(), drift_key(device_id), level, now, old(self).cooldown()),
            r matches Some(d) ==> {
                &&& d.kind == AlertKind::FrequencyDrift
                &&& d.severity == level_severity(level)
                &&& d.device_id == Some(device_id)
                &&& d.key@ == drift_key(device_id)
            },
    {
        let mut key = String::from_str("drift_");
        push_decimal(&mut key, device_id as u64);
        let keep = key.clone();
        match self.check_key(key, level, now) {
            Some(severity) => Some(AlertDecision {
                kind: AlertKind::FrequencyDrift,
                severity,
                device_id: Some(device_id),
                key: keep,
            }),
            None => None,
        }
    }

    /// Decides on a localization-bias alert for `source_id` at `now`.
    ///
    /// The level is `Normal` unless the bias score reaches the warning
    /// threshold and the confidence is positive. An alert is emitted when
    /// the level is not normal and the source's key is not cooling down.
    pub fn check_localization(&mut self, source_id: u64, level: AlertLevel, now: u64) -> (r: Option<AlertDecision>)
        ensures
            final(self).cooldown() == old(self).cooldown(),
            final(self).last_emitted() == after_check(old(self).last_emitted(), loc_key(source_id), level, now, old(self).cooldown()),
            r is Some <==> fires(old(self).last_emitted(), loc_key(source_id), level, now, old(self).cooldown()),
            r matches Some(d) ==> {
                &&& d.kind == AlertKind::LocalizationBias
                &&& d.severity == level_severity(level)
                &&& d.device_id == None::<u32>
                &&& d.key@ == loc_key(source_id)
            },
    {
        let mut key = String::from_str("loc_");
        push_decimal(&mut key, source_id);
        let keep = key.clone();
        match self.check_key(key, level, now) {
            Some(severity) => Some(AlertDecision {
                kind: AlertKind::LocalizationBias,
                severity,
                device_id: None,
                key: keep,
            }),
            None => None,
        }
    }
}

/// An input of the alarm service: a validated reading, a resonance analysis
/// of a device, or a localization of a source, with the level of its drift
/// or bias.
#[derive(Clone, Copy, Debug, PartialEq, Eq)]
pub enum AlarmEvent {
    SensorReading,
    Resonance { device_id: u32, level: AlertLevel },
    Localization { source_id: u64, level: AlertLevel },
}

/// The WebSocket message types the alarm service broadcasts.
#[derive(Clone, Copy, Debug, PartialEq, Eq)]
pub enum Topic {
    SensorData,
    Resonance,
    Localization,
    Alert,
}

pub open spec fn topic_text(t: Topic) -> Seq<char> {
    match t {
        Topic::SensorData => "sensor_data"@,
        Topic::Resonance => "resonance"@,
        Topic::Localization => "localization"@,
        Topic::Alert => "alert"@,
    }
}

impl Topic {
    /// The message type under which the topic is broadcast.
    pub fn as_str(&self) -> (s: &'static str)
        ensures
            s@ == topic_text(*self),
    {
        match self {
            Topic::SensorData => "sensor_data",
            Topic::Resonance => "resonance",
            Topic::Localization => "localization",
            Topic::Alert => "alert",
        }
    }
}

/// The topic under which an event itself is broadcast.
pub open spec fn event_topic(e: AlarmEvent) -> Topic {
    match e {
        AlarmEvent::SensorReading => Topic::SensorData,
        AlarmEvent::Resonance { .. } => Topic::Resonance,
        AlarmEvent::Localization { .. } => Topic::Localization,
    }
}

/// The cooldown key an event is checked under, if it is checked at all.
pub open spec fn event_key(e: AlarmEvent) -> Option<Seq<char>> {
    match e {
        AlarmEvent::SensorReading => None,
        AlarmEvent::Resonance { device_id, .. } => Some(drift_key(device_id)),
        AlarmEvent::Localization { source_id, .. } => Some(loc_key(source_id)),
    }
}

/// What the alarm service does with one event: broadcast it under `topic`,
/// then, when `alert` is set, store that alert and broadcast it as well.
#[derive(Clone, Debug)]
pub struct AlarmStep {
    pub topic: Topic,
    pub alert: Option<AlertDecision>,
}

impl AlertGate {
    /// Handles one event of the alarm service at `now`: every event is
    /// broadcast under its own topic, and analyses are checked for an alert
    /// as [`AlertGate::check_resonance`] and
    /// [`AlertGate::check_localization`] describe.
    pub fn handle(&mut self, event: AlarmEvent, now: u64) -> (step: AlarmStep)
        ensures
            step.topic == event_topic(event),
            final(self).cooldown() == old(self).cooldown(),
            (match event_key(event) {
                None => step.alert is None && final(self).last_emitted() == old(self).last_emitted(),
                Some(key) => {
                    let level = match event {
                        AlarmEvent::Resonance { level, .. } => level,
                        AlarmEvent::Localization { level, .. } => level,
                        AlarmEvent::SensorReading => AlertLevel::Normal,
                    };
                    &&& final(self).last_emitted() == after_check(old(self).last_emitted(), key, level, now, old(self).cooldown())
                    &&& (step.alert is Some <==> fires(old(self).last_emitted(), key, level, now, old(self).cooldown()))
                    &&& (step.alert matches Some(d) ==> d.key@ == key && d.severity == level_severity(level))
                },
            }),
            (match event {
                AlarmEvent::Resonance { device_id, .. } => step.alert matches Some(d) ==> {
                    &&& d.kind == AlertKind::FrequencyDrift
                    &&& d.device_id == Some(device_id)
                },
                AlarmEvent::Localization { .. } => step.alert matches Some(d) ==> {
                    &&& d.kind == AlertKind::LocalizationBias
                    &&& d.device_id == None::<u32>
                },
                AlarmEvent::SensorReading => step.alert is None,
            }),
    {
        match event {
            AlarmEvent::SensorReading => AlarmStep { topic: Topic::SensorData, alert: None },
            AlarmEvent::Resonance { device_id, level } => {
                let alert = self.check_resonance(device_id, level, now);
                AlarmStep { topic: Topic::Resonance, alert }
            },
            AlarmEvent::Localization { source_id, level } => {
                let alert = self.check_localization(source_id, level, now);
                AlarmStep { topic: Topic::Localization, alert }
            },
        }
    }
}

/// Once an alert is emitted under a key, no alert under that key is emitted
/// again until the cooldown has fully elapsed, whatever level is checked.
pub proof fn lemma_cooldown_suppresses_repeat(
    last: Map<Seq<char>, u64>,
    key: Seq<char>,
    first: AlertLevel,
    t1: u64,
    second: AlertLevel,
    t2: u64,
    cooldown_secs: u64,
)
    requires
        fires(last, key, first, t1, cooldown_secs),
        t1 <= t2,
        t2 - t1 < cooldown_secs * 1_000_000_000,
    ensures
        !fires(after_check(last, key, first, t1, cooldown_secs), key, second, t2, cooldown_secs),
{
}

/// Once the cooldown has elapsed since an emitted alert, the next check
/// above the warning threshold under the same key emits again.
pub proof fn lemma_fires_again_after_cooldown(
    last: Map<Seq<char>, u64>,
    key: Seq<char>,
    first: AlertLevel,
    t1: u64,
    second: AlertLevel,
    t2: u64,
    cooldown_secs: u64,
)
    requires
        fires(last, key, first, t1, cooldown_secs),
        second != AlertLevel::Normal,
        t1 <= t2,
        t2 - t1 >= cooldown_secs * 1_000_000_000,
    ensures
        fires(after_check(last, key, first, t1, cooldown_secs), key, second, t2, cooldown_secs),
{
}

/// A check below the warning threshold never emits and leaves the cooldown
/// state as it was.
pub proof fn lemma_normal_is_silent(
    last: Map<Seq<char>, u64>,
    key: Seq<char>,
    now: u64,
    cooldown_secs: u64,
)
    ensures
        !fires(last, key, AlertLevel::Normal, now, cooldown_secs),
        after_check(last, key, AlertLevel::Normal, now, cooldown_secs) == last,
{
}

/// A check under one key does not change whether a check under another key
/// emits.
pub proof fn lemma_keys_independent(
    last: Map<Seq<char>, u64>,
    k1: Seq<char>,
    level1: AlertLevel,
    t1: u64,
    k2: Seq<char>,
    level2: AlertLevel,
    t2: u64,
    cooldown_secs: u64,
)
    requires
        k1 != k2,
    ensures
        fires(after_check(last, k1, level1, t1, cooldown_secs), k2, level2, t2, cooldown_secs)
            == fires(last, k2, level2, t2, cooldown_secs),
{
    let after = after_check(last, k1, level1, t1, cooldown_secs);
    assert(after.contains_key(k2) == last.contains_key(k2));
    if last.contains_key(k2) {
        assert(after[k2] == last[k2]);
    }
}

/// Distinct devices, distinct sources, and a device and a source never share
/// a cooldown key, so one alert never holds back an alert of another.
pub proof fn lemma_alert_keys_distinct(d1: u32, d2: u32, s1: u64, s2: u64)
    ensures
        drift_key(d1) == drift_key(d2) ==> d1 == d2,
        loc_key(s1) == loc_key(s2) ==> s1 == s2,
        drift_key(d1) != loc_key(s1),
{
    reveal_strlit("drift_");
    reveal_strlit("loc_");
    if drift_key(d1) == drift_key(d2) {
        assert(decimal(d1 as nat) =~= drift_key(d1).subrange(6, drift_key(d1).len() as int));
        assert(decimal(d2 as nat) =~= drift_key(d2).subrange(6, drift_key(d2).len() as int));
        lemma_decimal_injective(d1 as nat, d2 as nat);
    }
    if loc_key(s1) == loc_key(s2) {
        assert(decimal(s1 as nat) =~= loc_key(s1).subrange(4, loc_key(s1).len() as int));
        assert(decimal(s2 as nat) =~= loc_key(s2).subrange(4, loc_key(s2).len() as int));
        lemma_decimal_injective(s1 as nat, s2 as nat);
    }
    assert(drift_key(d1)[0] == 'd');
    assert(loc_key(s1)[0] == 'l');
}

} // verus!
