//! Reports GPU utilization attributable to a single named process: a
//! point-in-time snapshot of one GPU and its active graphics workloads is
//! correlated against a snapshot of the OS process table, the workload
//! whose resolved name equals a target name is selected, and the result is
//! rendered as console text, a notification body, and one appended log line.

pub mod matcher;
pub mod model;
pub mod report;
pub mod text;
