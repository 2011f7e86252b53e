//! The metrics sampler: refreshes the statistics source and reads one
//! snapshot from it.

use vstd::prelude::*;
use std::time::{SystemTime, UNIX_EPOCH};
use sysinfo::{CpuExt, System, SystemExt};
use crate::metrics::{MetricsView, SystemMetrics};
use crate::payload::{deserialize_spec, lemma_round_trip, serialize_spec, SerializeError};

verus! {

/// `System` of sysinfo, the statistics source: carried through, never
/// looked into.
#[verifier::external_type_specification]
#[verifier::external_body]
pub struct ExSystem(System);

/// `SystemTime` of std, a reading of the wall clock: carried through,
/// never looked into.
#[verifier::external_type_specification]
#[verifier::external_body]
pub struct ExSystemTime(SystemTime);

/// `Error` of serde_json, what the encoder fails with: only told apart
/// from success.
#[verifier::external_type_specification]
#[verifier::external_body]
pub struct ExJsonError(serde_json::Error);

/// The JSON text of the global CPU utilisation that `sys` holds since its
/// last refresh; `None` where the encoder gives no text for it.
pub uninterp spec fn cpu_usage_held(sys: System) -> Option<Seq<char>>;

/// The memory in use that `sys` holds since its last refresh.
pub uninterp spec fn used_memory_held(sys: System) -> u64;

/// The memory installed that `sys` holds since its last refresh.
pub uninterp spec fn total_memory_held(sys: System) -> u64;

/// The size of the process table that `sys` holds since its last refresh.
pub uninterp spec fn process_count_held(sys: System) -> usize;

/// `SystemExt::refresh_cpu` of sysinfo: reads the CPU counters anew. What
/// `sys` holds afterwards depends on the machine, so nothing is claimed.
#[verifier::external_body]
fn refresh_cpu(sys: &mut System) {
    sys.refresh_cpu();
}

/// `SystemExt::refresh_memory` of sysinfo: reads the memory figures anew.
/// What `sys` holds afterwards depends on the machine, so nothing is claimed.
#[verifier::external_body]
fn refresh_memory(sys: &mut System) {
    sys.refresh_memory();
}

/// `SystemExt::refresh_processes` of sysinfo: reads the process table anew.
/// What `sys` holds afterwards depends on the machine, so nothing is claimed.
#[verifier::external_body]
fn refresh_processes(sys: &mut System) {
    sys.refresh_processes();
}

/// `serde_json::to_string` on the value of `CpuExt::cpu_usage` of
/// `SystemExt::global_cpu_info`: the two getters of sysinfo pick the cached
/// reading out of `sys`, and the encoder writes it as JSON. The contract only
/// names the outcome: it is a function of what `sys` holds.
#[verifier::external_body]
fn cpu_usage_text(sys: &System) -> (r: Result<String, serde_json::Error>)
    ensures
        match r {
            Ok(text) => cpu_usage_held(*sys) == Some(text@),
            Err(_) => cpu_usage_held(*sys) is None,
        },
{
    serde_json::to_string(&sys.global_cpu_info().cpu_usage())
}

/// `SystemExt::used_memory` of sysinfo: a getter on the cached figures. On
/// Linux it is the memory installed less the memory available, both as the
/// last refresh read them.
#[verifier::external_body]
fn used_memory(sys: &System) -> (r: u64)
    ensures
        r == used_memory_held(*sys),
{
    sys.used_memory()
}

/// `SystemExt::total_memory` of sysinfo: a getter on the cached figures.
#[verifier::external_body]
fn total_memory(sys: &System) -> (r: u64)
    ensures
        r == total_memory_held(*sys),
{
    sys.total_memory()
}

/// The length of `SystemExt::processes` of sysinfo: the number of entries
/// in the cached process table.
#[verifier::external_body]
fn process_count(sys: &System) -> (r: usize)
    ensures
        r == process_count_held(*sys),
{
    sys.processes().len()
}

/// `SystemTime::now` of std. The result depends on the clock, so nothing is
/// claimed of it.
#[verifier::external_body]
fn now() -> SystemTime {
    SystemTime::now()
}

/// `SystemTime::duration_since` of std against the Unix epoch, in whole
/// seconds; `None` where `t` lies before the epoch.
#[verifier::external_body]
fn seconds_since_epoch(t: &SystemTime) -> Option<u64> {
    match t.duration_since(UNIX_EPOCH) {
        Ok(elapsed) => Some(elapsed.as_secs()),
        Err(_) => None,
    }
}

/// The timestamp for a clock reading: the seconds read, or 0 where the
/// clock could not be read.
pub open spec fn timestamp_of(clock: Option<u64>) -> u64 {
    match clock {
        Some(seconds) => seconds,
        None => 0,
    }
}

/// The CPU text for an encoder outcome: the text written, or the empty text
/// where the encoder gave none.
pub open spec fn cpu_text_of(encoded: Option<Seq<char>>) -> Seq<char> {
    match encoded {
        Some(text) => text,
        None => Seq::empty(),
    }
}

/// The snapshot that the statistics source `sys` reports at `timestamp`.
pub open spec fn reported(sys: System, timestamp: u64) -> MetricsView {
    MetricsView {
        timestamp,
        cpu_usage_percent: cpu_text_of(cpu_usage_held(sys)),
        memory_used_kb: used_memory_held(sys),
        memory_total_kb: total_memory_held(sys),
        running_processes: process_count_held(sys),
    }
}

/// The timestamp for a clock reading. A clock that cannot be read gives 0
/// and no error.
pub fn timestamp_or_zero(clock: Option<u64>) -> (timestamp: u64)
    ensures
        timestamp == timestamp_of(clock),
{
    match clock {
        Some(seconds) => seconds,
        None => 0,
    }
}

/// Puts one snapshot together from what the clock, the encoder and the
/// statistics source gave.
pub fn snapshot(
    clock: Option<u64>,
    cpu_usage: Option<String>,
    memory_used_kb: u64,
    memory_total_kb: u64,
    running_processes: usize,
) -> (m: SystemMetrics)
    ensures
        m@ == (MetricsView {
            timestamp: timestamp_of(clock),
            cpu_usage_percent: cpu_text_of(
                match cpu_usage {
                    Some(text) => Some(text@),
                    None => None,
                },
            ),
            memory_used_kb,
            memory_total_kb,
            running_processes,
        }),
{
    let cpu_usage_percent = match cpu_usage {
        Some(text) => text,
        None => String::new(),
    };
    SystemMetrics {
        timestamp: timestamp_or_zero(clock),
        cpu_usage_percent,
        memory_used_kb,
        memory_total_kb,
        running_processes,
    }
}

/// Samples the host: refreshes the CPU, memory and process views of `sys`,
/// in that order, and reads one snapshot from them. Never fails.
///
/// Every field but the timestamp is what `sys` holds after the refresh; in
/// particular, memory that the source reports as consistent is consistent in
/// the snapshot.
pub fn gather_metrics(sys: &mut System) -> (m: SystemMetrics)
    ensures
        m@ == reported(*final(sys), m.timestamp),
        used_memory_held(*final(sys)) <= total_memory_held(*final(sys))
            ==> m@.memory_consistent(),
{
    refresh_cpu(sys);
    refresh_memory(sys);
    refresh_processes(sys);
    let cpu_usage = match cpu_usage_text(sys) {
        Ok(text) => Some(text),
        Err(_) => None,
    };
    let memory_used_kb = used_memory(sys);
    let memory_total_kb = total_memory(sys);
    let running_processes = process_count(sys);
    let clock = seconds_since_epoch(&now());
    snapshot(clock, cpu_usage, memory_used_kb, memory_total_kb, running_processes)
}

/// What the statistics source reports of the memory reaches the consumer
/// unchanged: for a snapshot reported by `sys` whose payload is `text`,
/// memory in use that `sys` holds within the memory installed is within it
/// in what `text` decodes to.
pub proof fn lemma_reported_memory_relation(sys: System, timestamp: u64, text: Seq<char>)
    ensures
        serialize_spec(reported(sys, timestamp)) == Ok::<Seq<char>, SerializeError>(text)
            && used_memory_held(sys) <= total_memory_held(sys) ==> deserialize_spec(text)
            == Some(reported(sys, timestamp)) && reported(sys, timestamp).memory_consistent(),
{
    if serialize_spec(reported(sys, timestamp)) == Ok::<Seq<char>, SerializeError>(text) {
        lemma_round_trip(reported(sys, timestamp), text);
    }
}

} // verus!
