//! Process-wide counters of the pipeline and their Prometheus text exposition.
//!
//! The counters behave like the relaxed atomic counters of a metrics
//! registry: every increment and decrement wraps around on overflow. Alerts
//! are counted per severity label and database writes per table label, each
//! label getting its own series from its first use on.

use std::time::Duration;
use std::time::Instant;
use vstd::prelude::*;

use crate::text::{decimal, push_decimal};

verus! {

#[verifier::external_type_specification]
#[verifier::external_body]
pub struct ExInstant(Instant);

/// The values of the unlabeled counters kept by [`Metrics`].
#[derive(Clone, Copy, Debug, PartialEq, Eq)]
pub struct Counters {
    pub mqtt_messages: u64,
    pub invalid_readings: u64,
    pub acoustic_calcs: u64,
    pub localizations: u64,
    pub ws_clients: u64,
}

impl Counters {
    pub open spec fn zero() -> Counters {
        Counters {
            mqtt_messages: 0,
            invalid_readings: 0,
            acoustic_calcs: 0,
            localizations: 0,
            ws_clients: 0,
        }
    }
}

/// The count of one series of a labeled counter.
#[derive(Clone, Debug, PartialEq, Eq)]
pub struct LabelCount {
    pub label: String,
    pub count: u64,
}

/// A labeled counter as (label value, count) pairs, in order of first use.
pub open spec fn series_view(v: Seq<LabelCount>) -> Seq<(Seq<char>, u64)> {
    v.map_values(|l: LabelCount| (l.label@, l.count))
}

/// Counter registry of one running service, with the instant it started.
pub struct Metrics {
    start: Instant,
    counters: Counters,
    alerts: Vec<LabelCount>,
    db_writes: Vec<LabelCount>,
}

impl View for Metrics {
    type V = Counters;

    closed spec fn view(&self) -> Counters {
        self.counters
    }
}

impl Metrics {
    /// Emitted alerts per severity label.
    pub closed spec fn alert_series(&self) -> Seq<(Seq<char>, u64)> {
        series_view(self.alerts@)
    }

    /// Successful database writes per table label.
    pub closed spec fn write_series(&self) -> Seq<(Seq<char>, u64)> {
        series_view(self.db_writes@)
    }
}

/// `x + 1` modulo 2^64.
pub open spec fn bump(x: u64) -> u64 {
    if x == u64::MAX { 0 } else { (x + 1) as u64 }
}

/// `x - 1` modulo 2^64.
pub open spec fn drop_one(x: u64) -> u64 {
    if x == 0 { u64::MAX } else { (x - 1) as u64 }
}

/// A disconnect undoes a connect, and a connect undoes a disconnect, on the
/// count of active WebSocket clients.
pub proof fn lemma_connect_disconnect_inverse(x: u64)
    ensures
        drop_one(bump(x)) == x,
        bump(drop_one(x)) == x,
{
}

/// Calls `std::time::Instant::now`. The result is read from the clock, so
/// nothing is stated of it.
#[verifier::external_body]
fn instant_now() -> (t: Instant) {
    Instant::now()
}

/// Calls `std::time::Instant::elapsed`. The result is read from the clock,
/// so nothing is stated of it.
#[verifier::external_body]
fn instant_elapsed(t: &Instant) -> (d: Duration) {
    t.elapsed()
}

/// Calls `std::time::Duration::as_secs`. `Duration` is opaque here, so
/// nothing is stated of the whole seconds it returns.
#[verifier::external_body]
fn duration_as_secs(d: &Duration) -> (s: u64) {
    d.as_secs()
}

fn wrap_inc(x: u64) -> (r: u64)
    ensures
        r == bump(x),
{
    if x == u64::MAX { 0 } else { x + 1 }
}

fn wrap_dec(x: u64) -> (r: u64)
    ensures
        r == drop_one(x),
{
    if x == 0 { u64::MAX } else { x - 1 }
}

/// Whether `series` has a series for `label`.
pub open spec fn has_label(series: Seq<(Seq<char>, u64)>, label: Seq<char>) -> bool {
    exists|i: int| 0 <= i < series.len() && series[i].0 == label
}

/// Whether `i` is the first position of `label` in `series`.
pub open spec fn first_position(series: Seq<(Seq<char>, u64)>, label: Seq<char>, i: int) -> bool {
    0 <= i < series.len() && series[i].0 == label && forall|j: int| 0 <= j < i ==> series[j].0 != label
}

/// `series` after counting one event under `label`: the first series of that
/// label moves up by one (wrapping), or a new series with count one is added
/// at the end.
pub open spec fn bump_label(series: Seq<(Seq<char>, u64)>, label: Seq<char>) -> Seq<(Seq<char>, u64)> {
    if has_label(series, label) {
        let i = choose|i: int| first_position(series, label, i);
        series.update(i, (label, bump(series[i].1)))
    } else {
        series.push((label, 1u64))
    }
}

/// The count a labeled counter reports for `label`: that of its first series
/// of the label, or zero when the label has none.
pub open spec fn label_count(series: Seq<(Seq<char>, u64)>, label: Seq<char>) -> u64 {
    if has_label(series, label) {
        series[choose|i: int| first_position(series, label, i)].1
    } else {
        0
    }
}

proof fn lemma_first_position_unique(series: Seq<(Seq<char>, u64)>, label: Seq<char>, i: int, k: int)
    requires
        first_position(series, label, i),
        first_position(series, label, k),
    ensures
        i == k,
{
    if k < i {
        assert(series[k].0 != label);
    } else if k > i {
        assert(series[i].0 != label);
    }
}

proof fn lemma_first_position_exists(series: Seq<(Seq<char>, u64)>, label: Seq<char>) -> (i: int)
    requires
        has_label(series, label),
    ensures
        first_position(series, label, i),
    decreases series.len(),
{
    if series[0].0 == label {
        0
    } else {
        let rest = series.drop_first();
        let w = choose|w: int| 0 <= w < series.len() && series[w].0 == label;
        assert(rest[w - 1].0 == label);
        let j = lemma_first_position_exists(rest, label);
        assert forall|m: int| 0 <= m < j + 1 implies series[m].0 != label by {
            if m > 0 {
                assert(series[m] == rest[m - 1]);
            }
        }
        j + 1
    }
}

/// Counting an event under a label moves that label's count up by one
/// (wrapping) and leaves the count of every other label as it was: each
/// severity and each table is counted on its own.
pub proof fn lemma_bump_label_counts(series: Seq<(Seq<char>, u64)>, label: Seq<char>, other: Seq<char>)
    requires
        other != label,
    ensures
        label_count(bump_label(series, label), label) == bump(label_count(series, label)),
        label_count(bump_label(series, label), other) == label_count(series, other),
{
    let after = bump_label(series, label);
    if has_label(series, label) {
        let i = lemma_first_position_exists(series, label);
        let c = choose|k: int| first_position(series, label, k);
        lemma_first_position_unique(series, label, i, c);
        assert(first_position(after, label, i));
        let a = choose|k: int| first_position(after, label, k);
        lemma_first_position_unique(after, label, i, a);
        if has_label(series, other) {
            let o = lemma_first_position_exists(series, other);
            assert(first_position(after, other, o));
            let b = choose|k: int| first_position(after, other, k);
            lemma_first_position_unique(after, other, o, b);
            let d = choose|k: int| first_position(series, other, k);
            lemma_first_position_unique(series, other, o, d);
        } else {
            assert(!has_label(after, other)) by {
                if has_label(after, other) {
                    let w = choose|w: int| 0 <= w < after.len() && after[w].0 == other;
                    assert(series[w].0 == other);
                }
            }
        }
    } else {
        let n = series.len() as int;
        assert(first_position(after, label, n));
        let a = choose|k: int| first_position(after, label, k);
        lemma_first_position_unique(after, label, n, a);
        if has_label(series, other) {
            let o = lemma_first_position_exists(series, other);
            assert(first_position(after, other, o));
            let b = choose|k: int| first_position(after, other, k);
            lemma_first_position_unique(after, other, o, b);
            let d = choose|k: int| first_position(series, other, k);
            lemma_first_position_unique(series, other, o, d);
        } else {
            assert(!has_label(after, other)) by {
                if has_label(after, other) {
                    let w = choose|w: int| 0 <= w < after.len() && after[w].0 == other;
                    if w < n {
                        assert(series[w].0 == other);
                    }
                }
            }
        }
    }
}

fn bump_series(v: &mut Vec<LabelCount>, label: &str)
    ensures
        series_view(final(v)@) == bump_label(series_view(old(v)@), label@),
{
    let ghost s = series_view(old(v)@);
    let key = String::from_str(label);
    let n = v.len();
    let mut i: usize = 0;
    while i < n
        invariant
            n == v.len(),
            v@ == old(v)@,
            s == series_view(old(v)@),
            key@ == label@,
            i <= n,
            forall|j: int| 0 <= j < i ==> s[j].0 != label@,
        decreases n - i,
    {
        if v[i].label == key {
            let count = wrap_inc(v[i].count);
            let updated = LabelCount { label: v[i].label.clone(), count };
            proof {
                assert(first_position(s, label@, i as int));
                assert(has_label(s, label@));
                let k = choose|k: int| first_position(s, label@, k);
                assert(k == i) by {
                    if k < i {
                        assert(s[k].0 != label@);
                    } else if k > i {
                        assert(s[i as int].0 != label@);
                    }
                }
            }
            v.set(i, updated);
            assert(series_view(v@) =~= bump_label(s, label@));
            return;
        }
        i = i + 1;
    }
    assert(!has_label(s, label@));
    v.push(LabelCount { label: key, count: 1 });
    assert(series_view(v@) =~= bump_label(s, label@));
}

impl Metrics {
    /// A registry whose counters are all zero, started now.
    pub fn new() -> (m: Metrics)
        ensures
            m@ == Counters::zero(),
            m.alert_series() == Seq::<(Seq<char>, u64)>::empty(),
            m.write_series() == Seq::<(Seq<char>, u64)>::empty(),
    {
        let m = Metrics {
            start: instant_now(),
            counters: Counters { mqtt_messages: 0, invalid_readings: 0, acoustic_calcs: 0, localizations: 0, ws_clients: 0 },
            alerts: Vec::new(),
            db_writes: Vec::new(),
        };
        assert(series_view(m.alerts@) =~= Seq::<(Seq<char>, u64)>::empty());
        assert(series_view(m.db_writes@) =~= Seq::<(Seq<char>, u64)>::empty());
        m
    }

    /// The current counter values.
    pub fn counters(&self) -> (c: Counters)
        ensures
            c == self@,
    {
        self.counters
    }

    /// The alert counts per severity label, in order of first use.
    pub fn alert_counts(&self) -> (v: &Vec<LabelCount>)
        ensures
            series_view(v@) == self.alert_series(),
    {
        &self.alerts
    }

    /// The write counts per table label, in order of first use.
    pub fn write_counts(&self) -> (v: &Vec<LabelCount>)
        ensures
            series_view(v@) == self.write_series(),
    {
        &self.db_writes
    }
}

/// Counts one received MQTT message.
pub fn inc_mqtt_messages(m: &mut Metrics)
    ensures
        final(m)@ == (Counters { mqtt_messages: bump(old(m)@.mqtt_messages), ..old(m)@ }),
        final(m).alert_series() == old(m).alert_series(),
        final(m).write_series() == old(m).write_series(),
{
    m.counters.mqtt_messages = wrap_inc(m.counters.mqtt_messages);
}

/// Counts one reading that failed to parse or to validate.
pub fn inc_invalid_readings(m: &mut Metrics)
    ensures
        final(m)@ == (Counters { invalid_readings: bump(old(m)@.invalid_readings), ..old(m)@ }),
        final(m).alert_series() == old(m).alert_series(),
        final(m).write_series() == old(m).write_series(),
{
    m.counters.invalid_readings = wrap_inc(m.counters.invalid_readings);
}

/// Counts one resonance analysis.
pub fn inc_acoustic_calcs(m: &mut Metrics)
    ensures
        final(m)@ == (Counters { acoustic_calcs: bump(old(m)@.acoustic_calcs), ..old(m)@ }),
        final(m).alert_series() == old(m).alert_series(),
        final(m).write_series() == old(m).write_series(),
{
    m.counters.acoustic_calcs = wrap_inc(m.counters.acoustic_calcs);
}

/// Counts one source localization attempt.
pub fn inc_localizations(m: &mut Metrics)
    ensures
        final(m)@ == (Counters { localizations: bump(old(m)@.localizations), ..old(m)@ }),
        final(m).alert_series() == old(m).alert_series(),
        final(m).write_series() == old(m).write_series(),
{
    m.counters.localizations = wrap_inc(m.counters.localizations);
}

/// Counts one emitted alert in the series of its `severity` label.
pub fn inc_alerts(m: &mut Metrics, severity: &str)
    ensures
        final(m)@ == old(m)@,
        final(m).alert_series() == bump_label(old(m).alert_series(), severity@),
        final(m).write_series() == old(m).write_series(),
{
    bump_series(&mut m.alerts, severity);
}

/// Counts one successful database write in the series of its `table` label.
pub fn inc_db_writes(m: &mut Metrics, table: &str)
    ensures
        final(m)@ == old(m)@,
        final(m).alert_series() == old(m).alert_series(),
        final(m).write_series() == bump_label(old(m).write_series(), table@),
{
    bump_series(&mut m.db_writes, table);
}

/// Counts one WebSocket client that connected.
pub fn ws_client_connected(m: &mut Metrics)
    ensures
        final(m)@ == (Counters { ws_clients: bump(old(m)@.ws_clients), ..old(m)@ }),
        final(m).alert_series() == old(m).alert_series(),
        final(m).write_series() == old(m).write_series(),
{
    m.counters.ws_clients = wrap_inc(m.counters.ws_clients);
}

/// Counts one WebSocket client that disconnected (wrapping below zero, as
/// an atomic `fetch_sub` does).
pub fn ws_client_disconnected(m: &mut Metrics)
    ensures
        final(m)@ == (Counters { ws_clients: drop_one(old(m)@.ws_clients), ..old(m)@ }),
        final(m).alert_series() == old(m).alert_series(),
        final(m).write_series() == old(m).write_series(),
{
    m.counters.ws_clients = wrap_dec(m.counters.ws_clients);
}

/// Whole seconds since the registry was created, read from the clock.
pub fn uptime_seconds(m: &Metrics) -> u64 {
    let d = instant_elapsed(&m.start);
    duration_as_secs(&d)
}

/// One block of the exposition: the HELP and TYPE lines, then the sample.
pub open spec fn section(header: Seq<char>, sample: Seq<char>, value: u64) -> Seq<char> {
    header + sample + decimal(value as nat) + "\n\n"@
}

/// A character of a label value as the text format writes it: backslash,
/// double quote and line feed are escaped.
pub open spec fn escape_char(c: char) -> Seq<char> {
    if c == '\\' {
        "\\\\"@
    } else if c == '"' {
        "\\\""@
    } else if c == '\n' {
        "\\n"@
    } else {
        seq![c]
    }
}

/// A label value as the text format writes it.
pub open spec fn escape_label(s: Seq<char>) -> Seq<char>
    decreases s.len(),
{
    if s.len() == 0 {
        Seq::empty()
    } else {
        escape_label(s.drop_last()) + escape_char(s.last())
    }
}

/// The sample lines of a labeled counter; `prefix` is the metric name up to
/// the opening quote of the label value.
pub open spec fn labeled_lines(prefix: Seq<char>, series: Seq<(Seq<char>, u64)>) -> Seq<char>
    decreases series.len(),
{
    if series.len() == 0 {
        Seq::empty()
    } else {
        labeled_lines(prefix, series.drop_last()) + prefix + escape_label(series.last().0) + "\"} "@
            + decimal(series.last().1 as nat) + "\n"@
    }
}

/// One block of a labeled counter: HELP and TYPE lines, one sample per label.
pub open spec fn labeled_section(header: Seq<char>, prefix: Seq<char>, series: Seq<(Seq<char>, u64)>) -> Seq<char> {
    header + labeled_lines(prefix, series) + "\n"@
}

/// The Prometheus text exposition of the counters `c`, the alert series
/// `alerts` and the write series `writes` after `uptime` seconds.
pub open spec fn prometheus_text(
    c: Counters,
    alerts: Seq<(Seq<char>, u64)>,
    writes: Seq<(Seq<char>, u64)>,
    uptime: u64,
) -> Seq<char> {
    section("# HELP urn_uptime_seconds 服务运行时长（秒）\n# TYPE urn_uptime_seconds gauge\n"@,
        "urn_uptime_seconds "@, uptime)
    + section("# HELP urn_mqtt_messages_total MQTT消息接收总数\n# TYPE urn_mqtt_messages_total counter\n"@,
        "urn_mqtt_messages_total "@, c.mqtt_messages)
    + section("# HELP urn_invalid_readings_total 无效传感器读数总数\n# TYPE urn_invalid_readings_total counter\n"@,
        "urn_invalid_readings_total "@, c.invalid_readings)
    + section("# HELP urn_acoustic_calculations_total 声学仿真计算总数\n# TYPE urn_acoustic_calculations_total counter\n"@,
        "urn_acoustic_calculations_total "@, c.acoustic_calcs)
    + section("# HELP urn_localizations_total 声源定位计算总数\n# TYPE urn_localizations_total counter\n"@,
        "urn_localizations_total "@, c.localizations)
    + labeled_section("# HELP urn_alerts_total 告警触发总数\n# TYPE urn_alerts_total counter\n"@,
        "urn_alerts_total{severity=\""@, alerts)
    + labeled_section("# HELP urn_db_writes_total 数据库写入总数\n# TYPE urn_db_writes_total counter\n"@,
        "urn_db_writes_total{table=\""@, writes)
    + section("# HELP urn_ws_active_clients 活跃WebSocket连接数\n# TYPE urn_ws_active_clients gauge\n"@,
        "urn_ws_active_clients "@, c.ws_clients)
    + "# HELP urn_info 构建信息\n# TYPE urn_info gauge\nurn_info{version=\"0.1.0\",rustc_version=\"\",build_time=\"\"} 1\n"@
}

fn push_section(out: &mut String, header: &str, sample: &str, value: u64)
    ensures
        final(out)@ == old(out)@ + section(header@, sample@, value),
{
    out.append(header);
    out.append(sample);
    push_decimal(out, value);
    out.append("\n\n");
}

fn push_escaped(out: &mut String, s: &str)
    ensures
        final(out)@ == old(out)@ + escape_label(s@),
{
    let n = s.unicode_len();
    let mut i: usize = 0;
    assert(s@.take(0) =~= Seq::<char>::empty());
    while i < n
        invariant
            n == s@.len(),
            i <= n,
            out@ == old(out)@ + escape_label(s@.take(i as int)),
        decreases n - i,
    {
        let c = s.get_char(i);
        if c == '\\' {
            out.append("\\\\");
        } else if c == '"' {
            out.append("\\\"");
        } else if c == '\n' {
            out.append("\\n");
        } else {
            out.append(s.substring_char(i, i + 1));
            assert(s@.subrange(i as int, i + 1) =~= seq![c]);
        }
        assert(s@.take(i + 1).drop_last() =~= s@.take(i as int));
        assert(s@.take(i + 1).last() == c);
        assert(out@ =~= old(out)@ + escape_label(s@.take(i + 1)));
        i = i + 1;
    }
    assert(s@.take(n as int) =~= s@);
}

fn push_labeled_section(out: &mut String, header: &str, prefix: &str, v: &Vec<LabelCount>)
    ensures
        final(out)@ == old(out)@ + labeled_section(header@, prefix@, series_view(v@)),
{
    out.append(header);
    let ghost base = out@;
    let n = v.len();
    let mut i: usize = 0;
    assert(series_view(v@).take(0) =~= Seq::<(Seq<char>, u64)>::empty());
    while i < n
        invariant
            n == v.len(),
            i <= n,
            base == old(out)@ + header@,
            out@ == base + labeled_lines(prefix@, series_view(v@).take(i as int)),
        decreases n - i,
    {
        let ghost before = out@;
        out.append(prefix);
        push_escaped(out, v[i].label.as_str());
        out.append("\"} ");
        push_decimal(out, v[i].count);
        out.append("\n");
        let ghost t = series_view(v@).take(i + 1);
        assert(t.drop_last() =~= series_view(v@).take(i as int));
        assert(t.last() == (v@[i as int].label@, v@[i as int].count));
        assert(out@ =~= base + labeled_lines(prefix@, t));
        i = i + 1;
    }
    assert(series_view(v@).take(n as int) =~= series_view(v@));
    out.append("\n");
    assert(out@ =~= old(out)@ + labeled_section(header@, prefix@, series_view(v@)));
}

/// Renders the counters and series of `m` and the given uptime in the
/// Prometheus text format. The summaries of floating-point observations are
/// not kept here; a service appends them after this text.
pub fn render_prometheus_at(m: &Metrics, uptime: u64) -> (s: String)
    ensures
        s@ == prometheus_text(m@, m.alert_series(), m.write_series(), uptime),
{
    let c = &m.counters;
    let mut out = String::new();
    push_section(&mut out,
        "# HELP urn_uptime_seconds 服务运行时长（秒）\n# TYPE urn_uptime_seconds gauge\n",
        "urn_uptime_seconds ", uptime);
    push_section(&mut out,
        "# HELP urn_mqtt_messages_total MQTT消息接收总数\n# TYPE urn_mqtt_messages_total counter\n",
        "urn_mqtt_messages_total ", c.mqtt_messages);
    push_section(&mut out,
        "# HELP urn_invalid_readings_total 无效传感器读数总数\n# TYPE urn_invalid_readings_total counter\n",
        "urn_invalid_readings_total ", c.invalid_readings);
    push_section(&mut out,
        "# HELP urn_acoustic_calculations_total 声学仿真计算总数\n# TYPE urn_acoustic_calculations_total counter\n",
        "urn_acoustic_calculations_total ", c.acoustic_calcs);
    push_section(&mut out,
        "# HELP urn_localizations_total 声源定位计算总数\n# TYPE urn_localizations_total counter\n",
        "urn_localizations_total ", c.localizations);
    push_labeled_section(&mut out,
        "# HELP urn_alerts_total 告警触发总数\n# TYPE urn_alerts_total counter\n",
        "urn_alerts_total{severity=\"", &m.alerts);
    push_labeled_section(&mut out,
        "# HELP urn_db_writes_total 数据库写入总数\n# TYPE urn_db_writes_total counter\n",
        "urn_db_writes_total{table=\"", &m.db_writes);
    push_section(&mut out,
        "# HELP urn_ws_active_clients 活跃WebSocket连接数\n# TYPE urn_ws_active_clients gauge\n",
        "urn_ws_active_clients ", c.ws_clients);
    out.append("# HELP urn_info 构建信息\n# TYPE urn_info gauge\nurn_info{version=\"0.1.0\",rustc_version=\"\",build_time=\"\"} 1\n");
    assert(out@ =~= prometheus_text(m@, m.alert_series(), m.write_series(), uptime));
    out
}

/// Renders the counters and series of `m`, with the uptime read from the
/// clock. The summaries of floating-point observations are not kept here; a
/// service appends them after this text.
pub fn render_prometheus(m: &Metrics) -> (s: String)
    ensures
        exists|uptime: u64| s@ == prometheus_text(m@, m.alert_series(), m.write_series(), uptime),
{
    let uptime = uptime_seconds(m);
    let s = render_prometheus_at(m, uptime);
    assert(s@ == prometheus_text(m@, m.alert_series(), m.write_series(), uptime));
    s
}

} // verus!
