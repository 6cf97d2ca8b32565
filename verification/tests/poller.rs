//! The device poller's cadences and the table's stale-data policy: a failed
//! fetch overwrites the snapshot, it is never silently kept.

use gpustat::{
    GpuDeviceMonitor, ProcessInfo, ProcessListKind, ProcessTableData, SortingDirection,
    TableColumn, TableError, UsedGpuMemory,
};

#[test]
fn first_metrics_tick_always_fetches() {
    let monitor = GpuDeviceMonitor::new("uuid".to_string(), "name".to_string(), 1024, 0);
    assert!(monitor.metrics_due(0));
}

#[test]
fn metrics_interval_gates_refetch() {
    let mut monitor = GpuDeviceMonitor::new("uuid".to_string(), "name".to_string(), 1024, 0);
    assert!(monitor.metrics_due(0));
    monitor.record_metric_samples(0, Some(40), Some(1_000_000), Some(55));
    assert!(!monitor.metrics_due(200));
    assert!(monitor.metrics_due(600));
}

#[test]
fn recorded_samples_land_in_their_histories() {
    let mut monitor = GpuDeviceMonitor::new("uuid".to_string(), "name".to_string(), 1024, 0);
    monitor.record_metric_samples(0, Some(40), None, Some(55));
    monitor.record_metric_samples(600, Some(41), Some(2_000_000), None);
    assert_eq!(monitor.usage_graph_mut().get_value_at(0), Some(41));
    assert_eq!(monitor.usage_graph_mut().get_value_at(1), Some(40));
    assert_eq!(monitor.memory_graph_mut().get_value_at(0), Some(2_000_000));
    assert_eq!(monitor.memory_graph_mut().get_value_at(1), None); // gap
    assert_eq!(monitor.temperature_graph_mut().get_value_at(0), None); // gap
    assert_eq!(monitor.temperature_graph_mut().get_value_at(1), Some(55));
}

#[test]
fn monitor_identity_is_kept() {
    let monitor = GpuDeviceMonitor::new("GPU-123".to_string(), "Example GPU".to_string(), 8192, 0);
    assert_eq!(monitor.device_uuid(), "GPU-123");
    assert_eq!(monitor.device_name(), "Example GPU");
    assert_eq!(monitor.max_memory(), 8192);
}

#[test]
fn fresh_table_is_uninitialized() {
    let table = ProcessTableData::new(ProcessListKind::Graphics, 0);
    assert_eq!(table.processes(), Err(TableError::Uninitialized));
    assert_eq!(table.get_processes_sorted(), Err(TableError::Uninitialized));
}

#[test]
fn table_interval_gates_refetch() {
    let mut table = ProcessTableData::new(ProcessListKind::Compute, 0);
    assert!(table.needs_refresh(0));
    table.apply_fetch(0, Ok(Vec::new()));
    assert!(!table.needs_refresh(500));
    assert!(table.needs_refresh(1000));
}

#[test]
fn failed_refresh_overwrites_a_good_snapshot() {
    let mut table = ProcessTableData::new(ProcessListKind::Graphics, 0);
    let list = vec![ProcessInfo {
        pid: 5,
        used_gpu_memory: UsedGpuMemory::Used(100),
    }];
    table.apply_fetch(0, Ok(list));
    let first = table.get_processes_sorted().unwrap();
    assert_eq!(first.len(), 1);
    assert_eq!(first[0].info.pid, 5);

    table.apply_fetch(1500, Err(TableError::FetchFailed));
    // The stale list from the first refresh is not served.
    assert_eq!(table.get_processes_sorted(), Err(TableError::FetchFailed));
}

#[test]
fn good_refresh_replaces_snapshot_wholesale() {
    let mut table = ProcessTableData::new(ProcessListKind::Graphics, 0);
    table.apply_fetch(
        0,
        Ok(vec![ProcessInfo {
            pid: 5,
            used_gpu_memory: UsedGpuMemory::Used(100),
        }]),
    );
    table.apply_fetch(
        1500,
        Ok(vec![ProcessInfo {
            pid: 9,
            used_gpu_memory: UsedGpuMemory::Unavailable,
        }]),
    );
    let records = table.get_processes_sorted().unwrap();
    assert_eq!(records.len(), 1);
    assert_eq!(records[0].info.pid, 9);
}

#[test]
fn sorted_view_follows_sort_state() {
    let mut table = ProcessTableData::new(ProcessListKind::Graphics, 0);
    let list = vec![
        ProcessInfo {
            pid: 1,
            used_gpu_memory: UsedGpuMemory::Used(100),
        },
        ProcessInfo {
            pid: 2,
            used_gpu_memory: UsedGpuMemory::Unavailable,
        },
    ];
    table.apply_fetch(0, Ok(list));

    // Default: memory, descending — Unavailable (the maximum) first.
    let desc = table.get_processes_sorted().unwrap();
    let desc_pids: Vec<u32> = desc.iter().map(|r| r.info.pid).collect();
    assert_eq!(desc_pids, vec![2, 1]);

    // One click on the memory column flips to ascending.
    table.sorting_mut().click(TableColumn::GpuMemory);
    let asc = table.get_processes_sorted().unwrap();
    let asc_pids: Vec<u32> = asc.iter().map(|r| r.info.pid).collect();
    assert_eq!(asc_pids, vec![1, 2]);
    assert_eq!(table.sorting_mut().direction, SortingDirection::Ascending);
}

#[test]
fn sentinel_filtered_through_the_table_too() {
    let mut table = ProcessTableData::new(ProcessListKind::Graphics, 0);
    let list = vec![
        ProcessInfo {
            pid: 0,
            used_gpu_memory: UsedGpuMemory::Used(1),
        },
        ProcessInfo {
            pid: 5,
            used_gpu_memory: UsedGpuMemory::Used(2),
        },
    ];
    table.apply_fetch(0, Ok(list));
    let records = table.get_processes_sorted().unwrap();
    assert_eq!(records.len(), 1);
    assert_eq!(records[0].info.pid, 5);
}
