//! Data model of one GPU report: a point-in-time snapshot of a device and
//! its active graphics workloads, a snapshot of the operating system's
//! process table, and the information selected for a single target process.

use vstd::prelude::*;

verus! {

/// One GPU-active process as reported by the driver: its process id and,
/// when the driver reports it, its GPU memory usage in bytes.
pub struct WorkloadEntry {
    pub pid: u32,
    /// `None` when the driver did not report a per-process figure.
    pub used_memory_bytes: Option<u64>,
}

/// A point-in-time snapshot of one GPU's aggregate state and the list of
/// its active graphics workloads, in the order the driver reported them.
pub struct GpuSnapshot {
    pub name: String,
    pub total_utilization_percent: u32,
    pub memory_used_mb: u64,
    pub memory_total_mb: u64,
    pub temperature_c: u32,
    pub graphics_workloads: Vec<WorkloadEntry>,
}

/// One entry of a process-table snapshot: a process id and its display name.
pub struct ProcessRecord {
    pub pid: u32,
    pub name: String,
}

/// A snapshot of the operating system's process table, captured once per
/// invocation and reused for every name resolution.
pub struct ProcessTable {
    pub records: Vec<ProcessRecord>,
}

/// The result of matching one workload against the target name: the
/// resolved display name and the workload's GPU memory usage in MB
/// (0 when the driver reported no figure).
pub struct SingleProcessInfo {
    pub name: String,
    pub memory_usage_mb: u64,
}

/// Bytes per megabyte: 2^20.
pub const BYTES_PER_MB: u64 = 0x100000;

/// Converts a byte count to whole megabytes: floor division by 2^20.
pub fn bytes_to_mb(bytes: u64) -> (mb: u64)
    ensures
        mb == bytes / BYTES_PER_MB,
{
    bytes / BYTES_PER_MB
}

/// The memory usage of a workload in MB: its reported byte count
/// floor-divided by 2^20, or 0 when the driver reported none.
pub open spec fn spec_workload_mb(w: WorkloadEntry) -> u64 {
    match w.used_memory_bytes {
        Some(bytes) => (bytes / BYTES_PER_MB) as u64,
        None => 0u64,
    }
}

/// The memory usage of a workload in MB, as `spec_workload_mb` states it.
pub fn workload_mb(w: &WorkloadEntry) -> (mb: u64)
    ensures
        mb == spec_workload_mb(*w),
{
    match w.used_memory_bytes {
        Some(bytes) => bytes / BYTES_PER_MB,
        None => 0,
    }
}

/// Builds a snapshot from the plain values a driver query yields, converting
/// both memory byte counts to MB.
pub fn snapshot_from_raw(
    name: String,
    total_utilization_percent: u32,
    memory_used_bytes: u64,
    memory_total_bytes: u64,
    temperature_c: u32,
    graphics_workloads: Vec<WorkloadEntry>,
) -> (snapshot: GpuSnapshot)
    ensures
        snapshot.name == name,
        snapshot.total_utilization_percent == total_utilization_percent,
        snapshot.memory_used_mb == memory_used_bytes / BYTES_PER_MB,
        snapshot.memory_total_mb == memory_total_bytes / BYTES_PER_MB,
        snapshot.temperature_c == temperature_c,
        snapshot.graphics_workloads == graphics_workloads,
{
    GpuSnapshot {
        name,
        total_utilization_percent,
        memory_used_mb: bytes_to_mb(memory_used_bytes),
        memory_total_mb: bytes_to_mb(memory_total_bytes),
        temperature_c,
        graphics_workloads,
    }
}

} // verus!
