//! Resolving workload process ids against the process-table snapshot and
//! selecting the workload whose resolved name equals the target name.
//!
//! The selection policy is documented as last-match: among all workloads
//! whose resolved name equals the target, the one appearing last in the
//! snapshot's reported order is returned.

use vstd::prelude::*;

use crate::model::{GpuSnapshot, ProcessRecord, ProcessTable, SingleProcessInfo, WorkloadEntry};
use crate::model::spec_workload_mb;
use crate::model::workload_mb;

verus! {

/// The display name that a process-table snapshot resolves a pid to: the
/// name of the first record with that pid, or the empty sequence when no
/// record has it (the process may have exited since the GPU snapshot).
pub open spec fn spec_resolve(records: Seq<ProcessRecord>, pid: u32) -> Seq<char>
    decreases records.len(),
{
    if records.len() == 0 {
        Seq::empty()
    } else if records[0].pid == pid {
        records[0].name@
    } else {
        spec_resolve(records.skip(1), pid)
    }
}

/// Looks up `pid` in the process-table snapshot and returns its display
/// name, or the empty string when no record has that pid.
pub fn get_process_name(table: &ProcessTable, pid: u32) -> (name: String)
    ensures
        name@ == spec_resolve(table.records@, pid),
{
    let n = table.records.len();
    let mut i: usize = 0;
    proof {
        assert(table.records@.skip(0) =~= table.records@);
    }
    while i < n
        invariant
            i <= n,
            n == table.records@.len(),
            spec_resolve(table.records@, pid) == spec_resolve(table.records@.skip(i as int), pid),
        decreases n - i,
    {
        proof {
            assert(table.records@.skip(i as int)[0] == table.records@[i as int]);
            assert(table.records@.skip(i as int).skip(1) =~= table.records@.skip(i as int + 1));
        }
        if table.records[i].pid == pid {
            return table.records[i].name.clone();
        }
        i += 1;
    }
    proof {
        assert(table.records@.skip(n as int).len() == 0);
    }
    String::new()
}

/// The last-match selection: `None` when no workload's pid resolves to the
/// target name; otherwise the resolved name (equal to the target) and the
/// memory usage in MB of the matching workload that appears last in the
/// snapshot's reported order.
pub open spec fn spec_match(
    workloads: Seq<WorkloadEntry>,
    records: Seq<ProcessRecord>,
    target: Seq<char>,
) -> Option<(Seq<char>, u64)>
    decreases workloads.len(),
{
    if workloads.len() == 0 {
        None
    } else if spec_resolve(records, workloads.last().pid) == target {
        Some((spec_resolve(records, workloads.last().pid), spec_workload_mb(workloads.last())))
    } else {
        spec_match(workloads.drop_last(), records, target)
    }
}

/// Filters the snapshot's workloads down to those whose resolved name
/// equals `target` (exact, case-sensitive) and returns the information of
/// the one appearing last in the snapshot's order, or `None` when no
/// workload matches. Every resolution uses the one process-table snapshot
/// given, never a fresh enumeration.
pub fn get_target_process_info(
    snapshot: &GpuSnapshot,
    table: &ProcessTable,
    target: &str,
) -> (r: Option<SingleProcessInfo>)
    ensures
        match r {
            Some(info) => spec_match(snapshot.graphics_workloads@, table.records@, target@)
                == Some((info.name@, info.memory_usage_mb)),
            None => spec_match(snapshot.graphics_workloads@, table.records@, target@) is None,
        },
{
    let target_owned: String = target.to_owned();
    let mut i: usize = snapshot.graphics_workloads.len();
    proof {
        assert(snapshot.graphics_workloads@.take(snapshot.graphics_workloads@.len() as int)
            =~= snapshot.graphics_workloads@);
    }
    while i > 0
        invariant
            i <= snapshot.graphics_workloads@.len(),
            target_owned@ == target@,
            spec_match(snapshot.graphics_workloads@, table.records@, target@) == spec_match(
                snapshot.graphics_workloads@.take(i as int),
                table.records@,
                target@,
            ),
        decreases i,
    {
        i -= 1;
        let name = get_process_name(table, snapshot.graphics_workloads[i].pid);
        proof {
            assert(snapshot.graphics_workloads@.take(i as int + 1).last()
                == snapshot.graphics_workloads@[i as int]);
            assert(snapshot.graphics_workloads@.take(i as int + 1).drop_last()
                =~= snapshot.graphics_workloads@.take(i as int));
        }
        if name == target_owned {
            let mb = workload_mb(&snapshot.graphics_workloads[i]);
            return Some(SingleProcessInfo { name, memory_usage_mb: mb });
        }
    }
    proof {
        assert(snapshot.graphics_workloads@.take(0).len() == 0);
    }
    None
}

/// With an empty workload list the matcher selects nothing, whatever the
/// process table and the target name hold.
pub proof fn lemma_match_empty(records: Seq<ProcessRecord>, target: Seq<char>)
    ensures
        spec_match(Seq::empty(), records, target) is None,
{
}

/// With exactly one workload whose pid resolves to the target name, the
/// matcher selects that workload: the resolved name and its memory usage
/// in MB (its reported bytes floor-divided by 2^20, or 0 when the driver
/// reported none).
pub proof fn lemma_match_single(w: WorkloadEntry, records: Seq<ProcessRecord>, target: Seq<char>)
    requires
        spec_resolve(records, w.pid) == target,
    ensures
        spec_match(seq![w], records, target) == Some((target, spec_workload_mb(w))),
{
    assert(seq![w].last() == w);
}

/// Resolution never introduces a newline: when every record name in the
/// table is newline-free, so is every resolved name (absence resolves to
/// the empty sequence).
pub proof fn lemma_resolve_newline_free(records: Seq<ProcessRecord>, pid: u32)
    requires
        forall|i: int| 0 <= i < records.len() ==> crate::text::newline_free(#[trigger] records[i].name@),
    ensures
        crate::text::newline_free(spec_resolve(records, pid)),
    decreases records.len(),
{
    if records.len() == 0 {
    } else if records[0].pid == pid {
    } else {
        assert forall|i: int| 0 <= i < records.skip(1).len() implies crate::text::newline_free(
            #[trigger] records.skip(1)[i].name@,
        ) by {
            assert(records.skip(1)[i] == records[i + 1]);
        }
        lemma_resolve_newline_free(records.skip(1), pid);
    }
}

/// The matcher's full characterization: a selected workload is one whose
/// pid resolves to the target name, and no workload after it in the
/// snapshot's order resolves to it (last-match); `None` means no workload
/// resolves to it at all.
pub proof fn lemma_match_characterization(
    workloads: Seq<WorkloadEntry>,
    records: Seq<ProcessRecord>,
    target: Seq<char>,
)
    ensures
        match spec_match(workloads, records, target) {
            None => forall|i: int|
                0 <= i < workloads.len() ==> spec_resolve(records, workloads[i].pid) != target,
            Some(info) => exists|i: int|
                0 <= i < workloads.len() && spec_resolve(records, workloads[i].pid) == target
                    && info == (target, spec_workload_mb(workloads[i])) && (forall|j: int|
                    i < j < workloads.len() ==> spec_resolve(records, workloads[j].pid) != target),
        },
    decreases workloads.len(),
{
    if workloads.len() == 0 {
    } else if spec_resolve(records, workloads.last().pid) == target {
        let i = workloads.len() - 1;
        let info = (target, spec_workload_mb(workloads[i]));
        assert(0 <= i < workloads.len() && spec_resolve(records, workloads[i].pid) == target
            && info == (target, spec_workload_mb(workloads[i])) && (forall|j: int|
            i < j < workloads.len() ==> spec_resolve(records, workloads[j].pid) != target));
    } else {
        let prefix = workloads.drop_last();
        lemma_match_characterization(prefix, records, target);
        assert(forall|i: int| 0 <= i < prefix.len() ==> prefix[i] == workloads[i]);
        match spec_match(prefix, records, target) {
            None => {
                assert(forall|i: int|
                    0 <= i < workloads.len() ==> spec_resolve(records, workloads[i].pid)
                        != target);
            },
            Some(info) => {
                let i = choose|i: int|
                    0 <= i < prefix.len() && spec_resolve(records, prefix[i].pid) == target
                        && info == (target, spec_workload_mb(prefix[i])) && (forall|j: int|
                        i < j < prefix.len() ==> spec_resolve(records, prefix[j].pid) != target);
                assert(0 <= i < workloads.len() && spec_resolve(records, workloads[i].pid)
                    == target && info == (target, spec_workload_mb(workloads[i])) && (forall|
                    j: int,
                |
                    i < j < workloads.len() ==> spec_resolve(records, workloads[j].pid)
                        != target));
            },
        }
    }
}

} // verus!
