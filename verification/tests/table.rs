//! The sortable table engine: the click toggle rule and the total order over
//! records, including the Unavailable-as-maximum tie-break.

use gpustat::{
    sort_records, ProcessData, ProcessInfo, ProcessTableSorting, SortingDirection, TableColumn,
    UsedGpuMemory,
};

fn record(pid: u32, name: &str, memory: UsedGpuMemory, gpu_usage: u32) -> ProcessData {
    ProcessData {
        info: ProcessInfo {
            pid,
            used_gpu_memory: memory,
        },
        name: name.to_string(),
        gpu_usage,
    }
}

fn sorting(column: TableColumn, direction: SortingDirection) -> ProcessTableSorting {
    ProcessTableSorting { column, direction }
}

fn pids(records: &[ProcessData]) -> Vec<u32> {
    records.iter().map(|r| r.info.pid).collect()
}

#[test]
fn click_same_column_flips_direction() {
    let mut s = sorting(TableColumn::GpuMemory, SortingDirection::Descending);
    s.click(TableColumn::GpuMemory);
    assert_eq!(s.column, TableColumn::GpuMemory);
    assert_eq!(s.direction, SortingDirection::Ascending);
    s.click(TableColumn::GpuMemory);
    assert_eq!(s.column, TableColumn::GpuMemory);
    assert_eq!(s.direction, SortingDirection::Descending);
}

#[test]
fn click_other_column_selects_it_ascending() {
    let mut s = sorting(TableColumn::GpuMemory, SortingDirection::Descending);
    s.click(TableColumn::Name);
    assert_eq!(s.column, TableColumn::Name);
    assert_eq!(s.direction, SortingDirection::Ascending);
    // Regardless of prior direction:
    let mut s2 = sorting(TableColumn::Pid, SortingDirection::Ascending);
    s2.click(TableColumn::Pid); // now Descending on Pid
    s2.click(TableColumn::Name);
    assert_eq!(s2.column, TableColumn::Name);
    assert_eq!(s2.direction, SortingDirection::Ascending);
}

#[test]
fn memory_sort_used_before_unavailable_ascending() {
    let r1 = record(1, "a", UsedGpuMemory::Used(100), 0);
    let r2 = record(2, "b", UsedGpuMemory::Unavailable, 0);
    let input = vec![r2, r1];
    let out = sort_records(
        &sorting(TableColumn::GpuMemory, SortingDirection::Ascending),
        &input,
    );
    assert_eq!(pids(&out), vec![1, 2]);
}

#[test]
fn memory_sort_unavailable_first_descending() {
    let r1 = record(1, "a", UsedGpuMemory::Used(100), 0);
    let r2 = record(2, "b", UsedGpuMemory::Unavailable, 0);
    let input = vec![r1, r2];
    let out = sort_records(
        &sorting(TableColumn::GpuMemory, SortingDirection::Descending),
        &input,
    );
    // Unavailable is the maximum, so descending puts it first — a naive
    // negation of the comparator would interleave it instead.
    assert_eq!(pids(&out), vec![2, 1]);
}

#[test]
fn memory_sort_numeric_within_used() {
    let a = record(1, "a", UsedGpuMemory::Used(300), 0);
    let b = record(2, "b", UsedGpuMemory::Used(100), 0);
    let c = record(3, "c", UsedGpuMemory::Used(200), 0);
    let d = record(4, "d", UsedGpuMemory::Unavailable, 0);
    let input = vec![a, b, c, d];
    let asc = sort_records(
        &sorting(TableColumn::GpuMemory, SortingDirection::Ascending),
        &input,
    );
    assert_eq!(pids(&asc), vec![2, 3, 1, 4]);
    let desc = sort_records(
        &sorting(TableColumn::GpuMemory, SortingDirection::Descending),
        &input,
    );
    assert_eq!(pids(&desc), vec![4, 1, 3, 2]);
}

#[test]
fn pid_sort_is_numeric() {
    let input = vec![
        record(30, "x", UsedGpuMemory::Unavailable, 0),
        record(4, "y", UsedGpuMemory::Used(5), 0),
        record(u32::MAX, "z", UsedGpuMemory::Used(1), 0),
    ];
    let asc = sort_records(&sorting(TableColumn::Pid, SortingDirection::Ascending), &input);
    assert_eq!(pids(&asc), vec![4, 30, u32::MAX]);
    let desc = sort_records(&sorting(TableColumn::Pid, SortingDirection::Descending), &input);
    assert_eq!(pids(&desc), vec![u32::MAX, 30, 4]);
}

#[test]
fn name_sort_is_lexicographic() {
    let input = vec![
        record(1, "chrome", UsedGpuMemory::Used(1), 0),
        record(2, "Xorg", UsedGpuMemory::Used(2), 0),
        record(3, "alacritty", UsedGpuMemory::Used(3), 0),
        record(4, "ch", UsedGpuMemory::Used(4), 0),
    ];
    // By code point: upper-case 'X' (0x58) comes before lower-case names,
    // and a prefix comes before its extension.
    let asc = sort_records(&sorting(TableColumn::Name, SortingDirection::Ascending), &input);
    assert_eq!(pids(&asc), vec![2, 3, 4, 1]);
    let desc = sort_records(&sorting(TableColumn::Name, SortingDirection::Descending), &input);
    assert_eq!(pids(&desc), vec![1, 4, 3, 2]);
}

#[test]
fn sort_keeps_duplicates() {
    let input = vec![
        record(7, "same", UsedGpuMemory::Used(100), 0),
        record(7, "same", UsedGpuMemory::Used(100), 0),
    ];
    let out = sort_records(&sorting(TableColumn::Pid, SortingDirection::Ascending), &input);
    assert_eq!(out.len(), 2);
    assert_eq!(pids(&out), vec![7, 7]);
}

#[test]
fn sort_of_empty_is_empty() {
    let out = sort_records(
        &sorting(TableColumn::Name, SortingDirection::Descending),
        &Vec::new(),
    );
    assert!(out.is_empty());
}
