//! The sortable process-table engine: the current sort column and direction,
//! the spreadsheet-style toggle rule for header clicks, and a deterministic
//! total order over enriched process records.
//!
//! Direction is applied by swapping the operands of the column order, never
//! by negating it, so that `Unavailable` memory stays a distinguished
//! maximum under both directions instead of interleaving.

use crate::external;
use crate::processes::{
    enrichment_matches, filter_nonzero_pids, lemma_filter_nonzero_pids, ProcessData,
    ProcessDataBank, ProcessInfo, ProcessUtilizationSample, UsedGpuMemory,
};
use crate::timing::{refresh_due, spec_due, spec_elapsed_at_least};
use vstd::prelude::*;
use vstd::string::StrSliceExecFns;

verus! {

/// Milliseconds between refreshes of a process table.
pub const PROCESS_LIST_INTERVAL_MS: u64 = 1000;

#[derive(Clone, Copy, PartialEq, Eq, Structural, Debug)]
pub enum TableColumn {
    Pid,
    Name,
    GpuMemory,
}

#[derive(Clone, Copy, PartialEq, Eq, Structural, Debug)]
pub enum SortingDirection {
    Ascending,
    Descending,
}

#[derive(Clone, Copy, PartialEq, Eq, Structural, Debug)]
pub struct ProcessTableSorting {
    pub column: TableColumn,
    pub direction: SortingDirection,
}

pub open spec fn spec_flip(d: SortingDirection) -> SortingDirection {
    match d {
        SortingDirection::Ascending => SortingDirection::Descending,
        SortingDirection::Descending => SortingDirection::Ascending,
    }
}

/// The toggle rule for a header click: a click on the current column flips
/// the direction; a click on another column selects it, ascending.
pub open spec fn spec_click(s: ProcessTableSorting, column: TableColumn) -> ProcessTableSorting {
    if s.column == column {
        ProcessTableSorting { column: s.column, direction: spec_flip(s.direction) }
    } else {
        ProcessTableSorting { column, direction: SortingDirection::Ascending }
    }
}

impl ProcessTableSorting {
    pub fn click(&mut self, column: TableColumn)
        ensures
            *final(self) == spec_click(*old(self), column),
    {
        if self.column == column {
            self.direction = match self.direction {
                SortingDirection::Ascending => SortingDirection::Descending,
                SortingDirection::Descending => SortingDirection::Ascending,
            };
        } else {
            self.column = column;
            self.direction = SortingDirection::Ascending;
        }
    }
}

/// Clicking the column that is already sorted on, twice, returns the
/// direction to its original value and keeps the column.
pub proof fn lemma_click_same_column_twice(s: ProcessTableSorting, column: TableColumn)
    requires
        s.column == column,
    ensures
        spec_click(spec_click(s, column), column) == s,
{
}

/// A click on one column followed by a click on a different column always
/// ends ascending on the second column, whatever the prior state.
pub proof fn lemma_click_two_columns(s: ProcessTableSorting, x: TableColumn, y: TableColumn)
    requires
        x != y,
    ensures
        spec_click(spec_click(s, x), y) == (ProcessTableSorting {
            column: y,
            direction: SortingDirection::Ascending,
        }),
{
}

/// Lexicographic order on names, by code point; the shorter string comes
/// first when one is a prefix of the other.
pub open spec fn lex_le(a: Seq<char>, b: Seq<char>) -> bool
    decreases a.len(),
{
    if a.len() == 0 {
        true
    } else if b.len() == 0 {
        false
    } else if (a[0] as u32) < (b[0] as u32) {
        true
    } else if (b[0] as u32) < (a[0] as u32) {
        false
    } else {
        lex_le(a.skip(1), b.skip(1))
    }
}

proof fn lemma_lex_le_total(a: Seq<char>, b: Seq<char>)
    ensures
        lex_le(a, b) || lex_le(b, a),
    decreases a.len(),
{
    if a.len() == 0 || b.len() == 0 {
    } else if (a[0] as u32) < (b[0] as u32) || (b[0] as u32) < (a[0] as u32) {
    } else {
        lemma_lex_le_total(a.skip(1), b.skip(1));
    }
}

proof fn lemma_lex_le_trans(a: Seq<char>, b: Seq<char>, c: Seq<char>)
    requires
        lex_le(a, b),
        lex_le(b, c),
    ensures
        lex_le(a, c),
    decreases a.len(),
{
    if a.len() == 0 {
    } else {
        assert(b.len() > 0);
        assert(c.len() > 0);
        if (a[0] as u32) < (b[0] as u32) {
            assert((b[0] as u32) <= (c[0] as u32));
        } else {
            assert((a[0] as u32) == (b[0] as u32));
            if (b[0] as u32) < (c[0] as u32) {
            } else {
                assert((b[0] as u32) == (c[0] as u32));
                lemma_lex_le_trans(a.skip(1), b.skip(1), c.skip(1));
            }
        }
    }
}

/// Lexicographic comparison of two names, per `lex_le`.
fn str_lex_le(a: &str, b: &str) -> (r: bool)
    ensures
        r == lex_le(a@, b@),
{
    let a_len = a.unicode_len();
    let b_len = b.unicode_len();
    let mut i: usize = 0;
    proof {
        assert(a@.skip(0) =~= a@);
        assert(b@.skip(0) =~= b@);
    }
    loop
        invariant
            i <= a_len,
            i <= b_len,
            a_len == a@.len(),
            b_len == b@.len(),
            lex_le(a@, b@) == lex_le(a@.skip(i as int), b@.skip(i as int)),
        decreases a_len - i,
    {
        if i >= a_len {
            return true;
        }
        if i >= b_len {
            return false;
        }
        let ca = a.get_char(i);
        let cb = b.get_char(i);
        proof {
            assert(a@.skip(i as int)[0] == ca);
            assert(b@.skip(i as int)[0] == cb);
            assert(a@.skip(i as int).skip(1) =~= a@.skip(i as int + 1));
            assert(b@.skip(i as int).skip(1) =~= b@.skip(i as int + 1));
        }
        if (ca as u32) < (cb as u32) {
            return true;
        }
        if (cb as u32) < (ca as u32) {
            return false;
        }
        i += 1;
    }
}

/// The order of one column, before direction is applied: "not after".
pub open spec fn column_le(col: TableColumn, a: ProcessData, b: ProcessData) -> bool {
    match col {
        TableColumn::Pid => a.info.pid <= b.info.pid,
        TableColumn::Name => lex_le(a.name@, b.name@),
        TableColumn::GpuMemory => mem_le(a.info.used_gpu_memory, b.info.used_gpu_memory),
    }
}

/// Memory order: known quantities compare numerically and `Unavailable` is a
/// distinguished maximum (every `Used` comes before it).
pub open spec fn mem_le(a: UsedGpuMemory, b: UsedGpuMemory) -> bool {
    match (a, b) {
        (UsedGpuMemory::Used(x), UsedGpuMemory::Used(y)) => x <= y,
        (UsedGpuMemory::Used(_), UsedGpuMemory::Unavailable) => true,
        (UsedGpuMemory::Unavailable, UsedGpuMemory::Used(_)) => false,
        (UsedGpuMemory::Unavailable, UsedGpuMemory::Unavailable) => true,
    }
}

/// The active order of a table: the column order with the direction applied
/// by swapping operands.
pub open spec fn record_le(s: ProcessTableSorting, a: ProcessData, b: ProcessData) -> bool {
    match s.direction {
        SortingDirection::Ascending => column_le(s.column, a, b),
        SortingDirection::Descending => column_le(s.column, b, a),
    }
}

proof fn lemma_record_le_total(s: ProcessTableSorting, a: ProcessData, b: ProcessData)
    ensures
        record_le(s, a, b) || record_le(s, b, a),
{
    if s.column == TableColumn::Name {
        lemma_lex_le_total(a.name@, b.name@);
    }
}

proof fn lemma_record_le_trans(
    s: ProcessTableSorting,
    a: ProcessData,
    b: ProcessData,
    c: ProcessData,
)
    requires
        record_le(s, a, b),
        record_le(s, b, c),
    ensures
        record_le(s, a, c),
{
    if s.column == TableColumn::Name {
        match s.direction {
            SortingDirection::Ascending => lemma_lex_le_trans(a.name@, b.name@, c.name@),
            SortingDirection::Descending => lemma_lex_le_trans(c.name@, b.name@, a.name@),
        }
    }
}

fn record_le_exec(s: &ProcessTableSorting, a: &ProcessData, b: &ProcessData) -> (r: bool)
    ensures
        r == record_le(*s, *a, *b),
{
    let (x, y) = match s.direction {
        SortingDirection::Ascending => (a, b),
        SortingDirection::Descending => (b, a),
    };
    match s.column {
        TableColumn::Pid => x.info.pid <= y.info.pid,
        TableColumn::Name => str_lex_le(x.name.as_str(), y.name.as_str()),
        TableColumn::GpuMemory => match (x.info.used_gpu_memory, y.info.used_gpu_memory) {
            (UsedGpuMemory::Used(mx), UsedGpuMemory::Used(my)) => mx <= my,
            (UsedGpuMemory::Used(_), UsedGpuMemory::Unavailable) => true,
            (UsedGpuMemory::Unavailable, UsedGpuMemory::Used(_)) => false,
            (UsedGpuMemory::Unavailable, UsedGpuMemory::Unavailable) => true,
        },
    }
}

/// A sequence of records stands in the active order of `s`.
pub open spec fn spec_sorted_by(s: ProcessTableSorting, q: Seq<ProcessData>) -> bool {
    forall|i: int, j: int| 0 <= i < j < q.len() ==> record_le(s, q[i], q[j])
}

/// Sorts copies of the records into the active order of `s`: the result
/// holds exactly the input records (as a multiset) and stands sorted.
pub fn sort_records(s: &ProcessTableSorting, records: &Vec<ProcessData>) -> (r: Vec<ProcessData>)
    ensures
        r@.to_multiset() == records@.to_multiset(),
        spec_sorted_by(*s, r@),
{
    broadcast use vstd::seq_lib::group_to_multiset_ensures;

    let mut r: Vec<ProcessData> = Vec::new();
    let mut idx: usize = 0;
    proof {
        assert(r@ =~= records@.subrange(0, 0));
    }
    while idx < records.len()
        invariant
            idx <= records@.len(),
            r@.to_multiset() == records@.subrange(0, idx as int).to_multiset(),
            spec_sorted_by(*s, r@),
        decreases records@.len() - idx,
    {
        broadcast use vstd::seq_lib::group_to_multiset_ensures;

        let x = records[idx].duplicate();
        let ghost prev = r@;
        let mut pos: usize = 0;
        while pos < r.len() && record_le_exec(s, &r[pos], &x)
            invariant
                pos <= r@.len(),
                forall|j: int| 0 <= j < pos ==> record_le(*s, r@[j], x),
            decreases r@.len() - pos,
        {
            pos += 1;
        }
        let ghost xg = x;
        r.insert(pos, x);
        proof {
            prev.insert_ensures(pos as int, xg);
            assert(r@.remove(pos as int) =~= prev);
            assert(r@[pos as int] == xg);
            assert(r@.contains(xg));
            assert(prev.to_multiset() == r@.to_multiset().remove(xg));
            assert(r@.to_multiset() =~= prev.to_multiset().insert(xg)) by {
                assert(r@.to_multiset().count(xg) > 0);
            }
            assert(records@.subrange(0, idx as int + 1) =~= records@.subrange(
                0,
                idx as int,
            ).push(records@[idx as int]));
            assert(r@.to_multiset() == records@.subrange(0, idx as int + 1).to_multiset());
            assert forall|i: int, j: int| 0 <= i < j < r@.len() implies record_le(
                *s,
                r@[i],
                r@[j],
            ) by {
                if pos < prev.len() {
                    lemma_record_le_total(*s, prev[pos as int], xg);
                }
                if j < pos {
                } else if j == pos {
                    assert(record_le(*s, prev[i], xg));
                } else if i == pos {
                    assert(record_le(*s, xg, prev[pos as int]));
                    if j - 1 > pos {
                        lemma_record_le_trans(*s, xg, prev[pos as int], prev[j - 1]);
                    }
                } else {
                }
            }
        }
        idx += 1;
    }
    proof {
        assert(records@.subrange(0, records@.len() as int) =~= records@);
    }
    r
}

/// Sorting by memory treats `Unavailable` as the maximum under both
/// directions: ascending, every known quantity comes before it; descending,
/// it comes before every known quantity — never interleaved.
pub proof fn lemma_memory_unavailable_is_maximum(a: ProcessData, b: ProcessData)
    requires
        a.info.used_gpu_memory is Used,
        b.info.used_gpu_memory is Unavailable,
    ensures
        record_le(
            ProcessTableSorting {
                column: TableColumn::GpuMemory,
                direction: SortingDirection::Ascending,
            },
            a,
            b,
        ),
        !record_le(
            ProcessTableSorting {
                column: TableColumn::GpuMemory,
                direction: SortingDirection::Ascending,
            },
            b,
            a,
        ),
        record_le(
            ProcessTableSorting {
                column: TableColumn::GpuMemory,
                direction: SortingDirection::Descending,
            },
            b,
            a,
        ),
        !record_le(
            ProcessTableSorting {
                column: TableColumn::GpuMemory,
                direction: SortingDirection::Descending,
            },
            a,
            b,
        ),
{
}

/// Why a table has no process list.
#[derive(Clone, Copy, PartialEq, Eq, Structural, Debug)]
pub enum TableError {
    /// No refresh has succeeded (or been attempted) yet: the initial
    /// sentinel, distinct from a failed fetch.
    Uninitialized,
    /// The last fetch from the device failed; the causes are not
    /// discriminated here.
    FetchFailed,
}

/// Which process list of the device a table shows. The two table instances
/// are configuration of this one engine.
#[derive(Clone, Copy, PartialEq, Eq, Structural, Debug)]
pub enum ProcessListKind {
    Graphics,
    Compute,
}

/// How one poll tick relates a table's next state to its prior state: sort
/// state and kind are kept; when the refresh was not due nothing changes at
/// all; when it was due, the refresh time is stamped and the snapshot is
/// either enriched records free of the sentinel pid 0, or `FetchFailed`.
/// The tick path hands the enricher no utilization samples, so every stored
/// record carries the join default of zero utilization.
pub open spec fn table_ticked(prior: ProcessTableData, next: ProcessTableData, now_ms: u64) -> bool {
    &&& next.spec_sorting() == prior.spec_sorting()
    &&& next.spec_kind() == prior.spec_kind()
    &&& !spec_due(prior.spec_last_refresh(), now_ms, PROCESS_LIST_INTERVAL_MS) ==> next == prior
    &&& spec_due(prior.spec_last_refresh(), now_ms, PROCESS_LIST_INTERVAL_MS) ==> {
        &&& next.spec_last_refresh() == Some(now_ms)
        &&& match next.spec_snapshot() {
            Ok(recs) => forall|i: int|
                0 <= i < recs.len() ==> (#[trigger] recs[i]).info.pid != 0 && recs[i].gpu_usage
                    == 0,
            Err(e) => e == TableError::FetchFailed,
        }
    }
}

/// One process table of a device: the current snapshot (or why there is
/// none), its sort state, its refresh stamp, and the name cache that
/// enriches each fetched list.
pub struct ProcessTableData {
    sorting: ProcessTableSorting,
    processes: Result<Vec<ProcessData>, TableError>,
    last_refresh: Option<u64>,
    process_bank: ProcessDataBank,
    fetcher: ProcessListKind,
}

impl ProcessTableData {
    pub closed spec fn spec_sorting(&self) -> ProcessTableSorting {
        self.sorting
    }

    /// The stored snapshot: the enriched records of the last successful
    /// fetch, or the error that stands in their place.
    pub closed spec fn spec_snapshot(&self) -> Result<Seq<ProcessData>, TableError> {
        match self.processes {
            Ok(ref v) => Ok(v@),
            Err(e) => Err(e),
        }
    }

    pub closed spec fn spec_last_refresh(&self) -> Option<u64> {
        self.last_refresh
    }

    pub closed spec fn spec_kind(&self) -> ProcessListKind {
        self.fetcher
    }

    pub closed spec fn spec_cache_stamp(&self) -> u64 {
        self.process_bank.cache_stamp()
    }

    /// A fresh table: sorted by GPU memory, descending; no snapshot yet
    /// (`Uninitialized`); never refreshed.
    pub fn new(fetcher: ProcessListKind, now_ms: u64) -> (r: Self)
        ensures
            r.spec_sorting() == (ProcessTableSorting {
                column: TableColumn::GpuMemory,
                direction: SortingDirection::Descending,
            }),
            r.spec_snapshot() == Err::<Seq<ProcessData>, TableError>(TableError::Uninitialized),
            r.spec_last_refresh() == None::<u64>,
            r.spec_kind() == fetcher,
            r.spec_cache_stamp() == now_ms,
    {
        Self {
            sorting: ProcessTableSorting {
                column: TableColumn::GpuMemory,
                direction: SortingDirection::Descending,
            },
            processes: Err(TableError::Uninitialized),
            last_refresh: None,
            process_bank: ProcessDataBank::new(now_ms),
            fetcher,
        }
    }

    /// Whether the table's refresh interval has elapsed (or it was never
    /// refreshed).
    pub fn needs_refresh(&self, now_ms: u64) -> (r: bool)
        ensures
            r == spec_due(self.spec_last_refresh(), now_ms, PROCESS_LIST_INTERVAL_MS),
    {
        refresh_due(self.last_refresh, now_ms, PROCESS_LIST_INTERVAL_MS)
    }

    /// Stores the outcome of one fetch and stamps the refresh time. A
    /// successful fetch replaces the snapshot wholesale with the enriched
    /// list; a failed one overwrites the snapshot with its error — failures
    /// are not silently ignored.
    pub fn apply_fetch(&mut self, now_ms: u64, fetched: Result<Vec<ProcessInfo>, TableError>)
        ensures
            final(self).spec_sorting() == old(self).spec_sorting(),
            final(self).spec_kind() == old(self).spec_kind(),
            final(self).spec_last_refresh() == Some(now_ms),
            match fetched {
                Ok(raw) => {
                    &&& final(self).spec_snapshot() is Ok
                    &&& enrichment_matches(
                        raw@,
                        Seq::<ProcessUtilizationSample>::empty(),
                        final(self).spec_snapshot()->Ok_0,
                    )
                    &&& final(self).spec_cache_stamp() == if spec_elapsed_at_least(
                        old(self).spec_cache_stamp(),
                        now_ms,
                        crate::processes::NAME_CACHE_INTERVAL_MS,
                    ) {
                        now_ms
                    } else {
                        old(self).spec_cache_stamp()
                    }
                },
                Err(e) => {
                    &&& final(self).spec_snapshot() == Err::<Seq<ProcessData>, TableError>(e)
                    &&& final(self).spec_cache_stamp() == old(self).spec_cache_stamp()
                },
            },
    {
        match fetched {
            Ok(raw) => {
                let records = self.process_bank.map_process_list(now_ms, raw, Vec::new());
                self.processes = Ok(records);
            },
            Err(e) => {
                self.processes = Err(e);
            },
        }
        self.last_refresh = Some(now_ms);
    }

    /// One poll tick for this table: when the refresh interval has elapsed,
    /// fetches the device's process list of this table's kind and stores the
    /// outcome (enriched records, or `FetchFailed`); otherwise leaves
    /// everything untouched. Whatever the device answered, a stored snapshot
    /// never holds a sentinel (pid 0) record.
    pub fn update<'a>(&mut self, device: &nvml_wrapper::Device<'a>, now_ms: u64)
        ensures
            table_ticked(*old(self), *final(self), now_ms),
    {
        if self.needs_refresh(now_ms) {
            let fetched = match self.fetcher {
                ProcessListKind::Graphics => external::device_running_graphics_processes(device),
                ProcessListKind::Compute => external::device_running_compute_processes(device),
            };
            let outcome = match fetched {
                Ok(raw) => Ok(raw),
                Err(_) => Err(TableError::FetchFailed),
            };
            let ghost raw_view = match outcome {
                Ok(ref raw) => raw@,
                Err(_) => Seq::empty(),
            };
            self.apply_fetch(now_ms, outcome);
            proof {
                if self.spec_snapshot() is Ok {
                    lemma_filter_nonzero_pids(raw_view);
                }
            }
        }
    }

    /// The snapshot's records sorted into the active order, or the stored
    /// error propagated untouched (never a partial or sorted-empty result).
    pub fn get_processes_sorted(&self) -> (r: Result<Vec<ProcessData>, TableError>)
        ensures
            match self.spec_snapshot() {
                Ok(recs) => {
                    &&& r is Ok
                    &&& (r->Ok_0)@.to_multiset() == recs.to_multiset()
                    &&& spec_sorted_by(self.spec_sorting(), (r->Ok_0)@)
                },
                Err(e) => r == Err::<Vec<ProcessData>, TableError>(e),
            },
    {
        match &self.processes {
            Ok(records) => Ok(sort_records(&self.sorting, records)),
            Err(e) => Err(*e),
        }
    }

    /// The sort state, for a renderer to toggle via `click`; nothing else of
    /// the table changes through it.
    pub fn sorting_mut(&mut self) -> (r: &mut ProcessTableSorting)
        ensures
            *r == old(self).spec_sorting(),
            final(self).spec_sorting() == *final(r),
            final(self).spec_snapshot() == old(self).spec_snapshot(),
            final(self).spec_last_refresh() == old(self).spec_last_refresh(),
            final(self).spec_kind() == old(self).spec_kind(),
            final(self).spec_cache_stamp() == old(self).spec_cache_stamp(),
    {
        &mut self.sorting
    }

    /// The current sorted view, as `get_processes_sorted`.
    pub fn processes(&self) -> (r: Result<Vec<ProcessData>, TableError>)
        ensures
            match self.spec_snapshot() {
                Ok(recs) => {
                    &&& r is Ok
                    &&& (r->Ok_0)@.to_multiset() == recs.to_multiset()
                    &&& spec_sorted_by(self.spec_sorting(), (r->Ok_0)@)
                },
                Err(e) => r == Err::<Vec<ProcessData>, TableError>(e),
            },
    {
        self.get_processes_sorted()
    }
}

} // verus!
