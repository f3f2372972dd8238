//! Bookkeeping of the persistence worker: which table a record goes to and
//! how many writes succeeded per table.

use vstd::prelude::*;

verus! {

/// The tables the worker writes to.
#[derive(Debug, Clone, Copy, PartialEq, Eq)]
pub enum Table {
    SensorData,
    ResonanceAnalysis,
    SourceLocalization,
    Alerts,
}

pub open spec fn table_name_text(t: Table) -> Seq<char> {
    match t {
        Table::SensorData => "sensor_data"@,
        Table::ResonanceAnalysis => "resonance_analysis"@,
        Table::SourceLocalization => "source_localization"@,
        Table::Alerts => "alerts"@,
    }
}

impl Table {
    /// The table's name in the database.
    pub fn name(&self) -> (s: &'static str)
        ensures
            s@ == table_name_text(*self),
    {
        match self {
            Table::SensorData => "sensor_data",
            Table::ResonanceAnalysis => "resonance_analysis",
            Table::SourceLocalization => "source_localization",
            Table::Alerts => "alerts",
        }
    }
}

/// Successful writes per table since the worker started.
#[derive(Debug, Clone, Copy, PartialEq, Eq)]
pub struct WriteCounts {
    pub sensor: u64,
    pub resonance: u64,
    pub localization: u64,
    pub alerts: u64,
}

/// The count of `t` in `c`.
pub open spec fn count_of(c: WriteCounts, t: Table) -> u64 {
    match t {
        Table::SensorData => c.sensor,
        Table::ResonanceAnalysis => c.resonance,
        Table::SourceLocalization => c.localization,
        Table::Alerts => c.alerts,
    }
}

/// All successful writes.
pub open spec fn total_writes(c: WriteCounts) -> int {
    c.sensor + c.resonance + c.localization + c.alerts
}

impl WriteCounts {
    /// No write counted yet.
    pub fn new() -> (c: WriteCounts)
        ensures
            c.sensor == 0 && c.resonance == 0 && c.localization == 0 && c.alerts == 0,
    {
        WriteCounts { sensor: 0, resonance: 0, localization: 0, alerts: 0 }
    }

    /// Counts one successful write to `t`.
    pub fn record_write(&mut self, t: Table)
        requires
            count_of(*old(self), t) < u64::MAX,
        ensures
            count_of(*final(self), t) == count_of(*old(self), t) + 1,
            forall|u: Table| u != t ==> count_of(*final(self), u) == count_of(*old(self), u),
    {
        match t {
            Table::SensorData => self.sensor = self.sensor + 1,
            Table::ResonanceAnalysis => self.resonance = self.resonance + 1,
            Table::SourceLocalization => self.localization = self.localization + 1,
            Table::Alerts => self.alerts = self.alerts + 1,
        }
    }

    /// All successful writes.
    pub fn total(&self) -> (n: u128)
        ensures
            n == total_writes(*self),
    {
        self.sensor as u128 + self.resonance as u128 + self.localization as u128 + self.alerts as u128
    }

    /// Whether a progress report is due: some writes were counted and their
    /// total is a multiple of one hundred.
    pub fn report_due(&self) -> (due: bool)
        ensures
            due == (total_writes(*self) > 0 && total_writes(*self) % 100 == 0),
    {
        let n = self.total();
        n > 0 && n % 100 == 0
    }
}

} // verus!
