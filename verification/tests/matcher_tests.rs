use gpu_usage::matcher::{get_process_name, get_target_process_info};
use gpu_usage::model::{GpuSnapshot, ProcessRecord, ProcessTable, WorkloadEntry};

fn table(entries: &[(u32, &str)]) -> ProcessTable {
    ProcessTable {
        records: entries
            .iter()
            .map(|&(pid, name)| ProcessRecord { pid, name: String::from(name) })
            .collect(),
    }
}

fn snapshot(workloads: Vec<WorkloadEntry>) -> GpuSnapshot {
    GpuSnapshot {
        name: String::from("RTX 4090"),
        total_utilization_percent: 55,
        memory_used_mb: 2048,
        memory_total_mb: 24576,
        temperature_c: 63,
        graphics_workloads: workloads,
    }
}

#[test]
fn resolve_present_pid() {
    let t = table(&[(100, "firefox"), (200, "chrome")]);
    assert_eq!(get_process_name(&t, 200), "chrome");
}

#[test]
fn resolve_absent_pid_is_empty() {
    let t = table(&[(100, "firefox")]);
    assert_eq!(get_process_name(&t, 999), "");
}

#[test]
fn resolve_takes_first_record_with_pid() {
    let t = table(&[(100, "first"), (100, "second")]);
    assert_eq!(get_process_name(&t, 100), "first");
}

#[test]
fn empty_workloads_match_nothing() {
    let t = table(&[(100, "firefox")]);
    let s = snapshot(vec![]);
    assert!(get_target_process_info(&s, &t, "firefox").is_none());
    assert!(get_target_process_info(&s, &t, "").is_none());
}

#[test]
fn single_matching_workload() {
    let t = table(&[(100, "firefox")]);
    let s = snapshot(vec![WorkloadEntry { pid: 100, used_memory_bytes: Some(104857600) }]);
    let info = get_target_process_info(&s, &t, "firefox").unwrap();
    assert_eq!(info.name, "firefox");
    assert_eq!(info.memory_usage_mb, 100);
}

#[test]
fn unknown_memory_reports_zero() {
    let t = table(&[(100, "firefox")]);
    let s = snapshot(vec![WorkloadEntry { pid: 100, used_memory_bytes: None }]);
    let info = get_target_process_info(&s, &t, "firefox").unwrap();
    assert_eq!(info.memory_usage_mb, 0);
}

#[test]
fn duplicate_matches_select_last_in_order() {
    let t = table(&[(100, "firefox"), (101, "firefox"), (102, "chrome")]);
    let s = snapshot(vec![
        WorkloadEntry { pid: 100, used_memory_bytes: Some(1 << 20) },
        WorkloadEntry { pid: 102, used_memory_bytes: Some(5 << 20) },
        WorkloadEntry { pid: 101, used_memory_bytes: Some(2 << 20) },
    ]);
    let info = get_target_process_info(&s, &t, "firefox").unwrap();
    assert_eq!(info.memory_usage_mb, 2);
}

#[test]
fn matching_is_exact_and_case_sensitive() {
    let t = table(&[(100, "firefox")]);
    let s = snapshot(vec![WorkloadEntry { pid: 100, used_memory_bytes: Some(1 << 20) }]);
    assert!(get_target_process_info(&s, &t, "Firefox").is_none());
    assert!(get_target_process_info(&s, &t, "firefo").is_none());
    assert!(get_target_process_info(&s, &t, "firefox").is_some());
}

#[test]
fn absent_target_matches_nothing() {
    let t = table(&[(100, "firefox")]);
    let s = snapshot(vec![WorkloadEntry { pid: 100, used_memory_bytes: Some(104857600) }]);
    assert!(get_target_process_info(&s, &t, "chrome").is_none());
}

#[test]
fn exited_process_resolves_empty_and_does_not_match() {
    let t = table(&[]);
    let s = snapshot(vec![WorkloadEntry { pid: 100, used_memory_bytes: Some(104857600) }]);
    assert!(get_target_process_info(&s, &t, "firefox").is_none());
}
