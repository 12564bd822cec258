use gpu_usage::matcher::get_target_process_info;
use gpu_usage::model::{
    GpuSnapshot, ProcessRecord, ProcessTable, SingleProcessInfo, WorkloadEntry,
};
use gpu_usage::report::{console_text, log_line, log_record, notification_body};

fn table(entries: &[(u32, &str)]) -> ProcessTable {
    ProcessTable {
        records: entries
            .iter()
            .map(|&(pid, name)| ProcessRecord { pid, name: String::from(name) })
            .collect(),
    }
}

fn rtx_snapshot(workloads: Vec<WorkloadEntry>) -> GpuSnapshot {
    GpuSnapshot {
        name: String::from("RTX 4090"),
        total_utilization_percent: 55,
        memory_used_mb: 2048,
        memory_total_mb: 24576,
        temperature_c: 63,
        graphics_workloads: workloads,
    }
}

#[test]
fn notification_body_capitalizes_and_reports_mb() {
    let info = SingleProcessInfo { name: String::from("firefox"), memory_usage_mb: 100 };
    assert_eq!(notification_body(&info), "Firefox is utilizing 100 MB of memory");
}

#[test]
fn console_text_exact_rendering() {
    let s = rtx_snapshot(vec![]);
    let info = SingleProcessInfo { name: String::from("firefox"), memory_usage_mb: 100 };
    assert_eq!(
        console_text(&s, &info),
        "Name: RTX 4090\nTotal utilization: 55%\nMemory usage: 2048/24576 MB\nTemperature: 63\u{b0}C\nfirefox memory usage: 100 MB"
    );
}

#[test]
fn end_to_end_target_present() {
    let s = rtx_snapshot(vec![WorkloadEntry { pid: 100, used_memory_bytes: Some(104857600) }]);
    let t = table(&[(100, "firefox")]);
    let info = get_target_process_info(&s, &t, "firefox").unwrap();
    assert_eq!(info.name, "firefox");
    assert_eq!(info.memory_usage_mb, 100);
    let line = log_line("<timestamp>", &s, &t, Some(&info), ", ");
    assert_eq!(
        line,
        "<timestamp> | RTX 4090, Total utilization: 55%, Memory usage: 2048/24576 MB, Temperature: 63\u{b0}C, firefox memory usage: 100 MB\n"
    );
}

#[test]
fn end_to_end_target_absent() {
    let s = rtx_snapshot(vec![WorkloadEntry { pid: 100, used_memory_bytes: Some(104857600) }]);
    let t = table(&[(100, "firefox")]);
    assert!(get_target_process_info(&s, &t, "chrome").is_none());
}

#[test]
fn log_line_without_target_joins_workload_segments() {
    let s = rtx_snapshot(vec![
        WorkloadEntry { pid: 100, used_memory_bytes: Some(104857600) },
        WorkloadEntry { pid: 200, used_memory_bytes: None },
    ]);
    let t = table(&[(100, "firefox"), (200, "chrome")]);
    let line = log_line("ts", &s, &t, None, ", ");
    assert_eq!(
        line,
        "ts | RTX 4090, Total utilization: 55%, Memory usage: 2048/24576 MB, Temperature: 63\u{b0}C, Firefox memory usage: 100 MB, Chrome memory usage: 0 MB\n"
    );
}

#[test]
fn log_line_without_target_and_no_workloads() {
    let s = rtx_snapshot(vec![]);
    let t = table(&[]);
    let line = log_line("ts", &s, &t, None, "; ");
    assert_eq!(
        line,
        "ts | RTX 4090; Total utilization: 55%; Memory usage: 2048/24576 MB; Temperature: 63\u{b0}C; \n"
    );
}

#[test]
fn log_line_custom_delimiter() {
    let s = rtx_snapshot(vec![]);
    let t = table(&[]);
    let info = SingleProcessInfo { name: String::from("vlc"), memory_usage_mb: 3 };
    let line = log_line("ts", &s, &t, Some(&info), " :: ");
    assert_eq!(
        line,
        "ts | RTX 4090 :: Total utilization: 55% :: Memory usage: 2048/24576 MB :: Temperature: 63\u{b0}C :: vlc memory usage: 3 MB\n"
    );
}

#[test]
fn log_record_is_one_line_with_trailing_newline() {
    let s = rtx_snapshot(vec![]);
    let t = table(&[]);
    let info = SingleProcessInfo { name: String::from("firefox"), memory_usage_mb: 100 };
    let line = log_record(&s, &t, Some(&info), ", ");
    assert!(line.ends_with('\n'));
    assert_eq!(line.matches('\n').count(), 1);
    assert!(line.contains(" | RTX 4090, Total utilization: 55%, "));
    assert!(line.contains("firefox memory usage: 100 MB"));
    // The timestamp field is non-empty: the line does not start at the separator.
    assert!(!line.starts_with(" | "));
}
