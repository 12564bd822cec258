//! The three output representations of a snapshot and its match result:
//! console text, notification body, and the single log line appended per
//! invocation.

use vstd::prelude::*;
use vstd::string::StringExecFns;

use crate::matcher::spec_resolve;
use crate::model::{GpuSnapshot, ProcessRecord, ProcessTable, SingleProcessInfo, WorkloadEntry};
use crate::model::spec_workload_mb;
use crate::model::workload_mb;
use crate::text::{capitalize, spec_capitalize, spec_dec, u32_to_string, u64_to_string};
use crate::text::{
    lemma_capitalize_newline_free, lemma_dec_newline_free, lemma_newline_free_concat,
    newline_free,
};
use crate::matcher::get_process_name;
use crate::matcher::lemma_resolve_newline_free;

verus! {

/// The match result as plain values: the resolved name and the memory
/// usage in MB, or nothing.
pub open spec fn spec_info_of(info: Option<&SingleProcessInfo>) -> Option<(Seq<char>, u64)> {
    match info {
        Some(i) => Some((i.name@, i.memory_usage_mb)),
        None => None,
    }
}

/// The report segment for the selected target process.
pub open spec fn spec_target_segment(name: Seq<char>, mb: u64) -> Seq<char> {
    name + " memory usage: "@ + spec_dec(mb) + " MB"@
}

/// The report segment for one workload when no target was given: its
/// resolved name capitalized, then its memory usage in MB.
pub open spec fn spec_workload_segment(records: Seq<ProcessRecord>, w: WorkloadEntry) -> Seq<
    char,
> {
    spec_capitalize(spec_resolve(records, w.pid)) + " memory usage: "@ + spec_dec(
        spec_workload_mb(w),
    ) + " MB"@
}

/// All workload segments, joined by the delimiter (empty for an empty
/// workload list).
pub open spec fn spec_workload_segments(
    workloads: Seq<WorkloadEntry>,
    records: Seq<ProcessRecord>,
    delim: Seq<char>,
) -> Seq<char>
    decreases workloads.len(),
{
    if workloads.len() == 0 {
        Seq::empty()
    } else if workloads.len() == 1 {
        spec_workload_segment(records, workloads[0])
    } else {
        spec_workload_segments(workloads.drop_last(), records, delim) + delim
            + spec_workload_segment(records, workloads.last())
    }
}

/// The log line: timestamp, device name, utilization, memory, temperature,
/// then either the target segment or all workload segments, fields joined
/// by the delimiter, ended by exactly one newline.
pub open spec fn spec_log_line(
    ts: Seq<char>,
    snapshot: GpuSnapshot,
    records: Seq<ProcessRecord>,
    info: Option<(Seq<char>, u64)>,
    delim: Seq<char>,
) -> Seq<char> {
    ts + " | "@ + snapshot.name@ + delim + "Total utilization: "@ + spec_dec(
        snapshot.total_utilization_percent as u64,
    ) + "%"@ + delim + "Memory usage: "@ + spec_dec(snapshot.memory_used_mb) + "/"@ + spec_dec(
        snapshot.memory_total_mb,
    ) + " MB"@ + delim + "Temperature: "@ + spec_dec(snapshot.temperature_c as u64) + "°C"@
        + delim + (match info {
        Some((name, mb)) => spec_target_segment(name, mb),
        None => spec_workload_segments(snapshot.graphics_workloads@, records, delim),
    }) + "\n"@
}

/// The console text: device name, utilization, memory, temperature, each
/// on a line of its own, then the target process and its memory usage.
pub open spec fn spec_console_text(snapshot: GpuSnapshot, name: Seq<char>, mb: u64) -> Seq<char> {
    "Name: "@ + snapshot.name@ + "\nTotal utilization: "@ + spec_dec(
        snapshot.total_utilization_percent as u64,
    ) + "%"@ + "\nMemory usage: "@ + spec_dec(snapshot.memory_used_mb) + "/"@ + spec_dec(
        snapshot.memory_total_mb,
    ) + " MB"@ + "\nTemperature: "@ + spec_dec(snapshot.temperature_c as u64) + "°C\n"@ + name
        + " memory usage: "@ + spec_dec(mb) + " MB"@
}

/// The notification body: the capitalized process name and its memory
/// usage in MB.
pub open spec fn spec_notification_body(name: Seq<char>, mb: u64) -> Seq<char> {
    spec_capitalize(name) + " is utilizing "@ + spec_dec(mb) + " MB of memory"@
}

/// Renders the segment for the selected target process, as
/// `spec_target_segment` states it.
pub fn target_segment(info: &SingleProcessInfo) -> (r: String)
    ensures
        r@ == spec_target_segment(info.name@, info.memory_usage_mb),
{
    let mut out = info.name.clone();
    out.append(" memory usage: ");
    let mb = u64_to_string(info.memory_usage_mb);
    out.append(mb.as_str());
    out.append(" MB");
    proof {
        assert(out@ =~= spec_target_segment(info.name@, info.memory_usage_mb));
    }
    out
}

/// Renders the segment for one workload when no target was given, as
/// `spec_workload_segment` states it.
pub fn workload_segment(table: &ProcessTable, w: &WorkloadEntry) -> (r: String)
    ensures
        r@ == spec_workload_segment(table.records@, *w),
{
    let name = get_process_name(table, w.pid);
    let mut out = capitalize(name);
    out.append(" memory usage: ");
    let mb = u64_to_string(workload_mb(w));
    out.append(mb.as_str());
    out.append(" MB");
    proof {
        assert(out@ =~= spec_workload_segment(table.records@, *w));
    }
    out
}

/// Renders the notification body for the selected target process, as
/// `spec_notification_body` states it.
pub fn notification_body(info: &SingleProcessInfo) -> (r: String)
    ensures
        r@ == spec_notification_body(info.name@, info.memory_usage_mb),
{
    let mut out = capitalize(info.name.clone());
    out.append(" is utilizing ");
    let mb = u64_to_string(info.memory_usage_mb);
    out.append(mb.as_str());
    out.append(" MB of memory");
    proof {
        assert(out@ =~= spec_notification_body(info.name@, info.memory_usage_mb));
    }
    out
}

/// Renders the console text for the snapshot and the selected target
/// process, as `spec_console_text` states it.
pub fn console_text(snapshot: &GpuSnapshot, info: &SingleProcessInfo) -> (r: String)
    ensures
        r@ == spec_console_text(*snapshot, info.name@, info.memory_usage_mb),
{
    let mut out = String::new();
    out.append("Name: ");
    out.append(snapshot.name.as_str());
    out.append("\nTotal utilization: ");
    let util = u32_to_string(snapshot.total_utilization_percent);
    out.append(util.as_str());
    out.append("%");
    out.append("\nMemory usage: ");
    let used = u64_to_string(snapshot.memory_used_mb);
    out.append(used.as_str());
    out.append("/");
    let total = u64_to_string(snapshot.memory_total_mb);
    out.append(total.as_str());
    out.append(" MB");
    out.append("\nTemperature: ");
    let temp = u32_to_string(snapshot.temperature_c);
    out.append(temp.as_str());
    out.append("°C\n");
    out.append(info.name.as_str());
    out.append(" memory usage: ");
    let mb = u64_to_string(info.memory_usage_mb);
    out.append(mb.as_str());
    out.append(" MB");
    proof {
        assert(out@ =~= spec_console_text(*snapshot, info.name@, info.memory_usage_mb));
    }
    out
}

/// Renders the log line for the snapshot, the process table and the match
/// result, with the given timestamp and delimiter, as `spec_log_line`
/// states it.
pub fn log_line(
    timestamp: &str,
    snapshot: &GpuSnapshot,
    table: &ProcessTable,
    info: Option<&SingleProcessInfo>,
    delimiter: &str,
) -> (r: String)
    ensures
        r@ == spec_log_line(timestamp@, *snapshot, table.records@, spec_info_of(info), delimiter@),
{
    let mut out = String::new();
    out.append(timestamp);
    out.append(" | ");
    out.append(snapshot.name.as_str());
    out.append(delimiter);
    out.append("Total utilization: ");
    let util = u32_to_string(snapshot.total_utilization_percent);
    out.append(util.as_str());
    out.append("%");
    out.append(delimiter);
    out.append("Memory usage: ");
    let used = u64_to_string(snapshot.memory_used_mb);
    out.append(used.as_str());
    out.append("/");
    let total = u64_to_string(snapshot.memory_total_mb);
    out.append(total.as_str());
    out.append(" MB");
    out.append(delimiter);
    out.append("Temperature: ");
    let temp = u32_to_string(snapshot.temperature_c);
    out.append(temp.as_str());
    out.append("°C");
    out.append(delimiter);
    match info {
        Some(target_info) => {
            let seg = target_segment(target_info);
            out.append(seg.as_str());
        },
        None => {
            let n = snapshot.graphics_workloads.len();
            let ghost head: Seq<char> = out@;
            let mut j: usize = 0;
            proof {
                assert(snapshot.graphics_workloads@.take(0).len() == 0);
            }
            while j < n
                invariant
                    j <= n,
                    n == snapshot.graphics_workloads@.len(),
                    out@ == head + spec_workload_segments(
                        snapshot.graphics_workloads@.take(j as int),
                        table.records@,
                        delimiter@,
                    ),
                decreases n - j,
            {
                if j > 0 {
                    out.append(delimiter);
                }
                let seg = workload_segment(table, &snapshot.graphics_workloads[j]);
                out.append(seg.as_str());
                proof {
                    let ws = snapshot.graphics_workloads@;
                    assert(ws.take(j as int + 1).drop_last() =~= ws.take(j as int));
                    assert(ws.take(j as int + 1).last() == ws[j as int]);
                    if j == 0 {
                        assert(ws.take(1)[0] == ws[0]);
                        assert(out@ =~= head + spec_workload_segments(
                            ws.take(1),
                            table.records@,
                            delimiter@,
                        ));
                    } else {
                        assert(out@ =~= head + spec_workload_segments(
                            ws.take(j as int + 1),
                            table.records@,
                            delimiter@,
                        ));
                    }
                }
                j += 1;
            }
            proof {
                assert(snapshot.graphics_workloads@.take(n as int)
                    =~= snapshot.graphics_workloads@);
            }
        },
    }
    out.append("\n");
    proof {
        assert(out@ =~= spec_log_line(
            timestamp@,
            *snapshot,
            table.records@,
            spec_info_of(info),
            delimiter@,
        ));
    }
    out
}

/// A target segment built from a newline-free name is newline-free.
pub proof fn lemma_target_segment_newline_free(name: Seq<char>, mb: u64)
    requires
        newline_free(name),
    ensures
        newline_free(spec_target_segment(name, mb)),
{
    reveal_strlit(" memory usage: ");
    reveal_strlit(" MB");
    assert(newline_free(" memory usage: "@));
    assert(newline_free(" MB"@));
    lemma_dec_newline_free(mb);
    lemma_newline_free_concat(name, " memory usage: "@);
    lemma_newline_free_concat(name + " memory usage: "@, spec_dec(mb));
    lemma_newline_free_concat(name + " memory usage: "@ + spec_dec(mb), " MB"@);
}

/// A workload segment is newline-free when every record name in the table
/// is newline-free.
pub proof fn lemma_workload_segment_newline_free(records: Seq<ProcessRecord>, w: WorkloadEntry)
    requires
        forall|i: int| 0 <= i < records.len() ==> newline_free(#[trigger] records[i].name@),
    ensures
        newline_free(spec_workload_segment(records, w)),
{
    lemma_resolve_newline_free(records, w.pid);
    lemma_capitalize_newline_free(spec_resolve(records, w.pid));
    lemma_target_segment_newline_free(
        spec_capitalize(spec_resolve(records, w.pid)),
        spec_workload_mb(w),
    );
    assert(spec_workload_segment(records, w) == spec_target_segment(
        spec_capitalize(spec_resolve(records, w.pid)),
        spec_workload_mb(w),
    ));
}

/// The joined workload segments are newline-free when the delimiter and
/// every record name in the table are newline-free.
pub proof fn lemma_segments_newline_free(
    workloads: Seq<WorkloadEntry>,
    records: Seq<ProcessRecord>,
    delim: Seq<char>,
)
    requires
        newline_free(delim),
        forall|i: int| 0 <= i < records.len() ==> newline_free(#[trigger] records[i].name@),
    ensures
        newline_free(spec_workload_segments(workloads, records, delim)),
    decreases workloads.len(),
{
    if workloads.len() == 0 {
    } else if workloads.len() == 1 {
        lemma_workload_segment_newline_free(records, workloads[0]);
    } else {
        lemma_segments_newline_free(workloads.drop_last(), records, delim);
        lemma_workload_segment_newline_free(records, workloads.last());
        lemma_newline_free_concat(
            spec_workload_segments(workloads.drop_last(), records, delim),
            delim,
        );
        lemma_newline_free_concat(
            spec_workload_segments(workloads.drop_last(), records, delim) + delim,
            spec_workload_segment(records, workloads.last()),
        );
    }
}

/// Appending the log line appends exactly one line: the line is non-empty,
/// its one newline is its last character, and everything before it is
/// newline-free — given a newline-free timestamp, device name, delimiter,
/// and (for the target segment) target name, or (with no target) table of
/// newline-free record names.
pub proof fn lemma_log_line_single_newline(
    ts: Seq<char>,
    snapshot: GpuSnapshot,
    records: Seq<ProcessRecord>,
    info: Option<(Seq<char>, u64)>,
    delim: Seq<char>,
)
    requires
        newline_free(ts),
        newline_free(snapshot.name@),
        newline_free(delim),
        match info {
            Some(p) => newline_free(p.0),
            None => forall|i: int| 0 <= i < records.len() ==> newline_free(#[trigger] records[i].name@),
        },
    ensures
        spec_log_line(ts, snapshot, records, info, delim).len() > 0,
        spec_log_line(ts, snapshot, records, info, delim).last() == '\n',
        newline_free(spec_log_line(ts, snapshot, records, info, delim).drop_last()),
{
    reveal_strlit(" | ");
    reveal_strlit("Total utilization: ");
    reveal_strlit("%");
    reveal_strlit("Memory usage: ");
    reveal_strlit("/");
    reveal_strlit(" MB");
    reveal_strlit("Temperature: ");
    reveal_strlit("°C");
    reveal_strlit("\n");
    assert(newline_free(" | "@));
    assert(newline_free("Total utilization: "@));
    assert(newline_free("%"@));
    assert(newline_free("Memory usage: "@));
    assert(newline_free("/"@));
    assert(newline_free(" MB"@));
    assert(newline_free("Temperature: "@));
    assert(newline_free("°C"@));
    lemma_dec_newline_free(snapshot.total_utilization_percent as u64);
    lemma_dec_newline_free(snapshot.memory_used_mb);
    lemma_dec_newline_free(snapshot.memory_total_mb);
    lemma_dec_newline_free(snapshot.temperature_c as u64);
    let tail = match info {
        Some((name, mb)) => spec_target_segment(name, mb),
        None => spec_workload_segments(snapshot.graphics_workloads@, records, delim),
    };
    match info {
        Some((name, mb)) => lemma_target_segment_newline_free(name, mb),
        None => lemma_segments_newline_free(snapshot.graphics_workloads@, records, delim),
    }
    let p1 = ts + " | "@;
    lemma_newline_free_concat(ts, " | "@);
    let p2 = p1 + snapshot.name@;
    lemma_newline_free_concat(p1, snapshot.name@);
    let p3 = p2 + delim;
    lemma_newline_free_concat(p2, delim);
    let p4 = p3 + "Total utilization: "@;
    lemma_newline_free_concat(p3, "Total utilization: "@);
    let p5 = p4 + spec_dec(snapshot.total_utilization_percent as u64);
    lemma_newline_free_concat(p4, spec_dec(snapshot.total_utilization_percent as u64));
    let p6 = p5 + "%"@;
    lemma_newline_free_concat(p5, "%"@);
    let p7 = p6 + delim;
    lemma_newline_free_concat(p6, delim);
    let p8 = p7 + "Memory usage: "@;
    lemma_newline_free_concat(p7, "Memory usage: "@);
    let p9 = p8 + spec_dec(snapshot.memory_used_mb);
    lemma_newline_free_concat(p8, spec_dec(snapshot.memory_used_mb));
    let p10 = p9 + "/"@;
    lemma_newline_free_concat(p9, "/"@);
    let p11 = p10 + spec_dec(snapshot.memory_total_mb);
    lemma_newline_free_concat(p10, spec_dec(snapshot.memory_total_mb));
    let p12 = p11 + " MB"@;
    lemma_newline_free_concat(p11, " MB"@);
    let p13 = p12 + delim;
    lemma_newline_free_concat(p12, delim);
    let p14 = p13 + "Temperature: "@;
    lemma_newline_free_concat(p13, "Temperature: "@);
    let p15 = p14 + spec_dec(snapshot.temperature_c as u64);
    lemma_newline_free_concat(p14, spec_dec(snapshot.temperature_c as u64));
    let p16 = p15 + "°C"@;
    lemma_newline_free_concat(p15, "°C"@);
    let p17 = p16 + delim;
    lemma_newline_free_concat(p16, delim);
    let body = p17 + tail;
    lemma_newline_free_concat(p17, tail);
    let line = spec_log_line(ts, snapshot, records, info, delim);
    assert(line == body + "\n"@);
    assert("\n"@.len() == 1 && "\n"@[0] == '\n');
    assert(line.len() == body.len() + 1);
    assert(line.last() == '\n');
    assert(line.drop_last() =~= body);
}

/// Returns the current time rendered for the log line's leading field.
///
/// Relies on chrono's `Utc::now` and `DateTime::format` with the format
/// `"%a %b %e %T %Y"` (weekday, month, day, clock time, year): the rendered
/// text never contains a newline.
#[verifier::external_body]
fn timestamp_now() -> (r: String)
    ensures
        forall|i: int| 0 <= i < r@.len() ==> r@[i] != '\n',
{
    chrono::Utc::now().format("%a %b %e %T %Y").to_string()
}

/// Renders the log line with the current time as its timestamp: the result
/// is `spec_log_line` for some newline-free timestamp.
pub fn log_record(
    snapshot: &GpuSnapshot,
    table: &ProcessTable,
    info: Option<&SingleProcessInfo>,
    delimiter: &str,
) -> (r: String)
    ensures
        exists|ts: Seq<char>|
            (forall|i: int| 0 <= i < ts.len() ==> ts[i] != '\n') && r@ == spec_log_line(
                ts,
                *snapshot,
                table.records@,
                spec_info_of(info),
                delimiter@,
            ),
{
    let ts = timestamp_now();
    let line = log_line(ts.as_str(), snapshot, table, info, delimiter);
    proof {
        let witness = ts@;
        assert((forall|i: int| 0 <= i < witness.len() ==> witness[i] != '\n') && line@
            == spec_log_line(
            witness,
            *snapshot,
            table.records@,
            spec_info_of(info),
            delimiter@,
        ));
    }
    line
}

} // verus!
