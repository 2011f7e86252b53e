//! The snapshot of host statistics that one sampling produces.

use vstd::prelude::*;
use crate::number::{is_json_number, is_number_text};

verus! {

/// One snapshot of the host: produced fresh by each sampling, encoded at
/// once and then dropped.
///
/// The CPU utilisation is carried as the decimal text that the JSON encoder
/// wrote for the reading, such as `42.5`, so that the snapshot and its payload
/// agree character by character. A text that is no JSON number, such as the
/// `null` that the encoder writes for a reading that is not finite, marks a
/// snapshot that cannot be encoded.
#[derive(Debug, Clone, PartialEq, Eq)]
pub struct SystemMetrics {
    /// Seconds since the Unix epoch; 0 where the clock could not be read.
    pub timestamp: u64,
    /// Global CPU utilisation at sample time, nominally 0 to 100, as JSON
    /// number text.
    pub cpu_usage_percent: String,
    /// Memory in use, as the statistics source reports it.
    pub memory_used_kb: u64,
    /// Memory installed, as the statistics source reports it.
    pub memory_total_kb: u64,
    /// Number of entries in the process table.
    pub running_processes: usize,
}

/// The mathematical content of a [`SystemMetrics`].
pub struct MetricsView {
    pub timestamp: u64,
    pub cpu_usage_percent: Seq<char>,
    pub memory_used_kb: u64,
    pub memory_total_kb: u64,
    pub running_processes: usize,
}

impl MetricsView {
    /// Whether the snapshot can be encoded: its CPU utilisation is a JSON
    /// number.
    pub open spec fn encodable(self) -> bool {
        is_json_number(self.cpu_usage_percent)
    }

    /// Whether the memory in use does not exceed the memory installed.
    pub open spec fn memory_consistent(self) -> bool {
        self.memory_used_kb <= self.memory_total_kb
    }
}

impl View for SystemMetrics {
    type V = MetricsView;

    open spec fn view(&self) -> MetricsView {
        MetricsView {
            timestamp: self.timestamp,
            cpu_usage_percent: self.cpu_usage_percent@,
            memory_used_kb: self.memory_used_kb,
            memory_total_kb: self.memory_total_kb,
            running_processes: self.running_processes,
        }
    }
}

impl SystemMetrics {
    /// A snapshot with the given readings.
    pub fn new(
        timestamp: u64,
        cpu_usage_percent: String,
        memory_used_kb: u64,
        memory_total_kb: u64,
        running_processes: usize,
    ) -> (m: SystemMetrics)
        ensures
            m@ == (MetricsView {
                timestamp,
                cpu_usage_percent: cpu_usage_percent@,
                memory_used_kb,
                memory_total_kb,
                running_processes,
            }),
    {
        SystemMetrics {
            timestamp,
            cpu_usage_percent,
            memory_used_kb,
            memory_total_kb,
            running_processes,
        }
    }

    /// Tells whether the snapshot can be encoded.
    pub fn is_encodable(&self) -> (r: bool)
        ensures
            r == self@.encodable(),
    {
        is_number_text(self.cpu_usage_percent.as_str())
    }

    /// Tells whether the memory in use does not exceed the memory installed.
    pub fn is_memory_consistent(&self) -> (r: bool)
        ensures
            r == self@.memory_consistent(),
    {
        self.memory_used_kb <= self.memory_total_kb
    }
}

} // verus!
