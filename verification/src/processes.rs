//! Enrichment of raw GPU process lists: joins each reported process with an
//! OS-level display name and an optional per-process GPU utilization sample,
//! and filters the reserved sentinel pid 0 (a kernel/system aggregate with no
//! single-process meaning). The OS name cache refreshes itself at most once
//! every `NAME_CACHE_INTERVAL_MS`, decoupled from the caller's own cadence.

use crate::external;
use crate::timing::{refresh_due, spec_elapsed_at_least};
use vstd::prelude::*;

verus! {

/// Milliseconds between refreshes of the OS process-name cache.
pub const NAME_CACHE_INTERVAL_MS: u64 = 2000;

/// GPU memory attributed to one process, as the device reports it.
/// `Used` is always ordered below `Unavailable` when a table sorts by
/// memory: an unknown quantity is treated as a distinguished maximum.
#[derive(Clone, Copy, PartialEq, Eq, Structural, Debug)]
pub enum UsedGpuMemory {
    Unavailable,
    Used(u64),
}

/// One entry of a raw GPU process list, before enrichment.
#[derive(Clone, Copy, PartialEq, Eq, Structural, Debug)]
pub struct ProcessInfo {
    pub pid: u32,
    /// Amount of used GPU memory in bytes, when the driver can attribute it.
    pub used_gpu_memory: UsedGpuMemory,
}

/// One per-process utilization sample, joined against raw processes by pid.
#[derive(Clone, Copy, PartialEq, Eq, Structural, Debug)]
pub struct ProcessUtilizationSample {
    pub pid: u32,
    /// The percentage GPU utilization of the process.
    pub sm_util: u32,
}

/// An enriched process record: the raw entry plus a display name and a GPU
/// utilization percentage (0 when no sample matched).
#[derive(Debug, PartialEq, Eq)]
pub struct ProcessData {
    pub info: ProcessInfo,
    pub name: String,
    /// The percentage GPU utilization of the process.
    pub gpu_usage: u32,
}

impl ProcessData {
    /// An equal copy of the record.
    pub fn duplicate(&self) -> (r: Self)
        ensures
            r == *self,
    {
        ProcessData { info: self.info, name: self.name.clone(), gpu_usage: self.gpu_usage }
    }
}

/// The raw entries that survive the sentinel filter, in order: every process
/// whose pid is not 0.
pub open spec fn filter_nonzero_pids(raw: Seq<ProcessInfo>) -> Seq<ProcessInfo>
    decreases raw.len(),
{
    if raw.len() == 0 {
        Seq::empty()
    } else {
        let init = filter_nonzero_pids(raw.drop_last());
        if raw.last().pid != 0 {
            init.push(raw.last())
        } else {
            init
        }
    }
}

/// Nothing with pid 0 survives the sentinel filter, and it never grows the
/// list.
pub proof fn lemma_filter_nonzero_pids(raw: Seq<ProcessInfo>)
    ensures
        filter_nonzero_pids(raw).len() <= raw.len(),
        forall|i: int|
            0 <= i < filter_nonzero_pids(raw).len() ==> (#[trigger] filter_nonzero_pids(raw)[i]).pid
                != 0,
    decreases raw.len(),
{
    if raw.len() > 0 {
        lemma_filter_nonzero_pids(raw.drop_last());
    }
}

/// The utilization joined onto a process: the first sample with a matching
/// pid, or 0 when none matches.
pub open spec fn spec_util_for(utils: Seq<ProcessUtilizationSample>, pid: u32) -> u32
    decreases utils.len(),
{
    if utils.len() == 0 {
        0
    } else if utils[0].pid == pid {
        utils[0].sm_util
    } else {
        spec_util_for(utils.skip(1), pid)
    }
}

/// How an enriched list `recs` relates to the raw list `raw` and the samples
/// `utils` it was built from: one record per non-sentinel raw entry, in
/// order, each carrying its raw entry and its joined utilization. The names
/// come from the OS and are not constrained here.
pub open spec fn enrichment_matches(
    raw: Seq<ProcessInfo>,
    utils: Seq<ProcessUtilizationSample>,
    recs: Seq<ProcessData>,
) -> bool {
    let f = filter_nonzero_pids(raw);
    &&& recs.len() == f.len()
    &&& forall|i: int|
        0 <= i < f.len() ==> (#[trigger] recs[i]).info == f[i] && recs[i].gpu_usage
            == spec_util_for(utils, f[i].pid)
}

/// The display name for a lookup answer: the name found, or the literal
/// fallback `"Unknown"` when the OS knows none.
pub fn resolve_name(found: Option<String>) -> (r: String)
    ensures
        match found {
            Some(n) => r@ == n@,
            None => r@ == "Unknown"@,
        },
{
    match found {
        Some(n) => n,
        None => "Unknown".to_owned(),
    }
}

fn util_for(utils: &Vec<ProcessUtilizationSample>, pid: u32) -> (r: u32)
    ensures
        r == spec_util_for(utils@, pid),
{
    let mut k: usize = 0;
    proof {
        assert(utils@.skip(0) =~= utils@);
    }
    while k < utils.len()
        invariant
            k <= utils@.len(),
            spec_util_for(utils@, pid) == spec_util_for(utils@.skip(k as int), pid),
        decreases utils@.len() - k,
    {
        proof {
            assert(utils@.skip(k as int)[0] == utils@[k as int]);
            assert(utils@.skip(k as int).skip(1) =~= utils@.skip(k as int + 1));
        }
        if utils[k].pid == pid {
            return utils[k].sm_util;
        }
        k += 1;
    }
    proof {
        assert(utils@.skip(k as int).len() == 0);
    }
    0
}

/// The OS process-name cache: a snapshot of the machine's process table and
/// the time it was last refreshed.
pub struct ProcessDataBank {
    sys: sysinfo::System,
    last_refresh: u64,
}

impl ProcessDataBank {
    /// When the cache was last refreshed (milliseconds, caller's clock).
    pub closed spec fn cache_stamp(&self) -> u64 {
        self.last_refresh
    }

    pub fn new(now_ms: u64) -> (r: Self)
        ensures
            r.cache_stamp() == now_ms,
    {
        Self { sys: external::new_process_system(), last_refresh: now_ms }
    }

    fn get_process_name(&self, pid: u32) -> String {
        let found = external::system_process_name(&self.sys, pid);
        resolve_name(found)
    }

    /// Enriches a raw process list: refreshes the name cache when its
    /// interval has elapsed, drops sentinel entries (pid 0), and joins each
    /// survivor with a display name and a utilization sample.
    pub fn map_process_list(
        &mut self,
        now_ms: u64,
        process_list: Vec<ProcessInfo>,
        utilization_list: Vec<ProcessUtilizationSample>,
    ) -> (r: Vec<ProcessData>)
        ensures
            enrichment_matches(process_list@, utilization_list@, r@),
            final(self).cache_stamp() == if spec_elapsed_at_least(
                old(self).cache_stamp(),
                now_ms,
                NAME_CACHE_INTERVAL_MS,
            ) {
                now_ms
            } else {
                old(self).cache_stamp()
            },
    {
        if refresh_due(Some(self.last_refresh), now_ms, NAME_CACHE_INTERVAL_MS) {
            external::refresh_process_system(&mut self.sys);
            self.last_refresh = now_ms;
        }

        let mut result: Vec<ProcessData> = Vec::new();
        let mut idx: usize = 0;
        while idx < process_list.len()
            invariant
                idx <= process_list@.len(),
                enrichment_matches(
                    process_list@.subrange(0, idx as int),
                    utilization_list@,
                    result@,
                ),
            decreases process_list@.len() - idx,
        {
            let p = process_list[idx];
            if p.pid != 0 {
                let gpu_usage = util_for(&utilization_list, p.pid);
                let name = self.get_process_name(p.pid);
                result.push(ProcessData { info: p, name, gpu_usage });
            }
            proof {
                let prefix = process_list@.subrange(0, idx as int + 1);
                assert(prefix.drop_last() =~= process_list@.subrange(0, idx as int));
                assert(prefix.last() == process_list@[idx as int]);
            }
            idx += 1;
        }
        proof {
            assert(process_list@.subrange(0, process_list@.len() as int) =~= process_list@);
        }
        result
    }
}

} // verus!
