//! The per-device poller: owns the three metric histories (usage, memory,
//! temperature), the two process tables (graphics, compute) and the device's
//! identity, and refreshes each on its own cadence. A fetch failure for one
//! metric becomes a gap in that metric's history and blocks nothing else;
//! the fixed interval is the whole retry policy.

use crate::external;
use crate::history::{pushed, GraphViewerData};
use crate::process_table::{table_ticked, ProcessListKind, ProcessTableData};
use crate::timing::{refresh_due, spec_due};
use vstd::prelude::*;

verus! {

/// Milliseconds between refreshes of the metric histories.
pub const METRICS_INTERVAL_MS: u64 = 500;

/// The monitoring state of one device.
pub struct GpuDeviceMonitor {
    device_uuid: String,
    device_name: String,
    last_graph_update: Option<u64>,
    usage_graph: GraphViewerData,
    memory_graph: GraphViewerData,
    temperature_graph: GraphViewerData,
    graphics_processes: ProcessTableData,
    compute_processes: ProcessTableData,
    max_memory: u64,
}

impl GpuDeviceMonitor {
    pub closed spec fn spec_uuid(&self) -> Seq<char> {
        self.device_uuid@
    }

    pub closed spec fn spec_name(&self) -> Seq<char> {
        self.device_name@
    }

    pub closed spec fn spec_last_graph_update(&self) -> Option<u64> {
        self.last_graph_update
    }

    pub closed spec fn spec_usage_history(&self) -> Seq<Option<u64>> {
        self.usage_graph@
    }

    pub closed spec fn spec_memory_history(&self) -> Seq<Option<u64>> {
        self.memory_graph@
    }

    pub closed spec fn spec_temperature_history(&self) -> Seq<Option<u64>> {
        self.temperature_graph@
    }

    pub closed spec fn spec_graphics(&self) -> ProcessTableData {
        self.graphics_processes
    }

    pub closed spec fn spec_compute(&self) -> ProcessTableData {
        self.compute_processes
    }

    pub closed spec fn spec_max_memory(&self) -> u64 {
        self.max_memory
    }

    /// A fresh monitor for the device with this identity: empty histories,
    /// never refreshed, one graphics and one compute table, each in its
    /// initial state with the default sort (GPU memory, descending).
    pub fn new(device_uuid: String, device_name: String, max_memory: u64, now_ms: u64) -> (r: Self)
        ensures
            r.spec_uuid() == device_uuid@,
            r.spec_name() == device_name@,
            r.spec_last_graph_update() == None::<u64>,
            r.spec_usage_history() == Seq::<Option<u64>>::empty(),
            r.spec_memory_history() == Seq::<Option<u64>>::empty(),
            r.spec_temperature_history() == Seq::<Option<u64>>::empty(),
            r.spec_graphics().spec_kind() == ProcessListKind::Graphics,
            r.spec_graphics().spec_last_refresh() == None::<u64>,
            r.spec_graphics().spec_snapshot() == Err::<
                Seq<crate::processes::ProcessData>,
                crate::process_table::TableError,
            >(crate::process_table::TableError::Uninitialized),
            r.spec_graphics().spec_sorting() == (crate::process_table::ProcessTableSorting {
                column: crate::process_table::TableColumn::GpuMemory,
                direction: crate::process_table::SortingDirection::Descending,
            }),
            r.spec_compute().spec_kind() == ProcessListKind::Compute,
            r.spec_compute().spec_last_refresh() == None::<u64>,
            r.spec_compute().spec_snapshot() == Err::<
                Seq<crate::processes::ProcessData>,
                crate::process_table::TableError,
            >(crate::process_table::TableError::Uninitialized),
            r.spec_compute().spec_sorting() == (crate::process_table::ProcessTableSorting {
                column: crate::process_table::TableColumn::GpuMemory,
                direction: crate::process_table::SortingDirection::Descending,
            }),
            r.spec_max_memory() == max_memory,
    {
        Self {
            device_uuid,
            device_name,
            last_graph_update: None,
            usage_graph: GraphViewerData::new(),
            memory_graph: GraphViewerData::new(),
            temperature_graph: GraphViewerData::new(),
            graphics_processes: ProcessTableData::new(ProcessListKind::Graphics, now_ms),
            compute_processes: ProcessTableData::new(ProcessListKind::Compute, now_ms),
            max_memory,
        }
    }

    /// Whether the metric histories are due a refresh: never refreshed, or
    /// the metrics interval has elapsed.
    pub fn metrics_due(&self, now_ms: u64) -> (r: bool)
        ensures
            r == spec_due(self.spec_last_graph_update(), now_ms, METRICS_INTERVAL_MS),
    {
        refresh_due(self.last_graph_update, now_ms, METRICS_INTERVAL_MS)
    }

    /// Records one tick's readings: pushes each optional sample (a `None`
    /// marks a failed fetch as a gap) into its history and stamps the
    /// refresh time. The process tables and the device identity are
    /// untouched.
    pub fn record_metric_samples(
        &mut self,
        now_ms: u64,
        usage: Option<u64>,
        memory: Option<u64>,
        temperature: Option<u64>,
    )
        ensures
            final(self).spec_last_graph_update() == Some(now_ms),
            final(self).spec_usage_history() == pushed(old(self).spec_usage_history(), usage),
            final(self).spec_memory_history() == pushed(old(self).spec_memory_history(), memory),
            final(self).spec_temperature_history() == pushed(
                old(self).spec_temperature_history(),
                temperature,
            ),
            final(self).spec_uuid() == old(self).spec_uuid(),
            final(self).spec_name() == old(self).spec_name(),
            final(self).spec_max_memory() == old(self).spec_max_memory(),
            final(self).spec_graphics() == old(self).spec_graphics(),
            final(self).spec_compute() == old(self).spec_compute(),
    {
        self.last_graph_update = Some(now_ms);
        self.usage_graph.update(usage);
        self.memory_graph.update(memory);
        self.temperature_graph.update(temperature);
    }

    /// One poll tick: when the metrics interval has elapsed, reads
    /// utilization, used memory and temperature from the device, mapping
    /// each failed reading to a gap, and pushes all three; then gives each
    /// process table its own tick. Each reading's staleness is independent.
    pub fn update<'a>(&mut self, device: &nvml_wrapper::Device<'a>, now_ms: u64)
        ensures
            final(self).spec_uuid() == old(self).spec_uuid(),
            final(self).spec_name() == old(self).spec_name(),
            final(self).spec_max_memory() == old(self).spec_max_memory(),
            !spec_due(old(self).spec_last_graph_update(), now_ms, METRICS_INTERVAL_MS) ==> {
                &&& final(self).spec_last_graph_update() == old(self).spec_last_graph_update()
                &&& final(self).spec_usage_history() == old(self).spec_usage_history()
                &&& final(self).spec_memory_history() == old(self).spec_memory_history()
                &&& final(self).spec_temperature_history() == old(self).spec_temperature_history()
            },
            spec_due(old(self).spec_last_graph_update(), now_ms, METRICS_INTERVAL_MS) ==> {
                &&& final(self).spec_last_graph_update() == Some(now_ms)
                &&& final(self).spec_usage_history().len() > 0
                &&& final(self).spec_usage_history() == pushed(
                    old(self).spec_usage_history(),
                    final(self).spec_usage_history()[0],
                )
                &&& final(self).spec_memory_history() == pushed(
                    old(self).spec_memory_history(),
                    final(self).spec_memory_history()[0],
                )
                &&& final(self).spec_temperature_history() == pushed(
                    old(self).spec_temperature_history(),
                    final(self).spec_temperature_history()[0],
                )
            },
            table_ticked(old(self).spec_graphics(), final(self).spec_graphics(), now_ms),
            table_ticked(old(self).spec_compute(), final(self).spec_compute(), now_ms),
    {
        if self.metrics_due(now_ms) {
            let percent = match external::device_utilization_percent(device) {
                Ok(p) => Some(p as u64),
                Err(_) => None,
            };
            let used = match external::device_memory_used(device) {
                Ok(u) => Some(u),
                Err(_) => None,
            };
            let temperature = match external::device_temperature_gpu(device) {
                Ok(t) => Some(t as u64),
                Err(_) => None,
            };
            self.record_metric_samples(now_ms, percent, used, temperature);
        }

        self.graphics_processes.update(device, now_ms);
        self.compute_processes.update(device, now_ms);
    }

    pub fn memory_graph_mut(&mut self) -> (r: &mut GraphViewerData)
        ensures
            (*r)@ == old(self).spec_memory_history(),
            final(self).spec_memory_history() == (*final(r))@,
            final(self).spec_usage_history() == old(self).spec_usage_history(),
            final(self).spec_temperature_history() == old(self).spec_temperature_history(),
            final(self).spec_last_graph_update() == old(self).spec_last_graph_update(),
            final(self).spec_uuid() == old(self).spec_uuid(),
            final(self).spec_name() == old(self).spec_name(),
            final(self).spec_max_memory() == old(self).spec_max_memory(),
            final(self).spec_graphics() == old(self).spec_graphics(),
            final(self).spec_compute() == old(self).spec_compute(),
    {
        &mut self.memory_graph
    }

    pub fn usage_graph_mut(&mut self) -> (r: &mut GraphViewerData)
        ensures
            (*r)@ == old(self).spec_usage_history(),
            final(self).spec_usage_history() == (*final(r))@,
            final(self).spec_memory_history() == old(self).spec_memory_history(),
            final(self).spec_temperature_history() == old(self).spec_temperature_history(),
            final(self).spec_last_graph_update() == old(self).spec_last_graph_update(),
            final(self).spec_uuid() == old(self).spec_uuid(),
            final(self).spec_name() == old(self).spec_name(),
            final(self).spec_max_memory() == old(self).spec_max_memory(),
            final(self).spec_graphics() == old(self).spec_graphics(),
            final(self).spec_compute() == old(self).spec_compute(),
    {
        &mut self.usage_graph
    }

    pub fn temperature_graph_mut(&mut self) -> (r: &mut GraphViewerData)
        ensures
            (*r)@ == old(self).spec_temperature_history(),
            final(self).spec_temperature_history() == (*final(r))@,
            final(self).spec_usage_history() == old(self).spec_usage_history(),
            final(self).spec_memory_history() == old(self).spec_memory_history(),
            final(self).spec_last_graph_update() == old(self).spec_last_graph_update(),
            final(self).spec_uuid() == old(self).spec_uuid(),
            final(self).spec_name() == old(self).spec_name(),
            final(self).spec_max_memory() == old(self).spec_max_memory(),
            final(self).spec_graphics() == old(self).spec_graphics(),
            final(self).spec_compute() == old(self).spec_compute(),
    {
        &mut self.temperature_graph
    }

    pub fn graphics_processes_mut(&mut self) -> (r: &mut ProcessTableData)
        ensures
            *r == old(self).spec_graphics(),
            final(self).spec_graphics() == *final(r),
            final(self).spec_compute() == old(self).spec_compute(),
            final(self).spec_usage_history() == old(self).spec_usage_history(),
            final(self).spec_memory_history() == old(self).spec_memory_history(),
            final(self).spec_temperature_history() == old(self).spec_temperature_history(),
            final(self).spec_last_graph_update() == old(self).spec_last_graph_update(),
            final(self).spec_uuid() == old(self).spec_uuid(),
            final(self).spec_name() == old(self).spec_name(),
            final(self).spec_max_memory() == old(self).spec_max_memory(),
    {
        &mut self.graphics_processes
    }

    pub fn compute_processes_mut(&mut self) -> (r: &mut ProcessTableData)
        ensures
            *r == old(self).spec_compute(),
            final(self).spec_compute() == *final(r),
            final(self).spec_graphics() == old(self).spec_graphics(),
            final(self).spec_usage_history() == old(self).spec_usage_history(),
            final(self).spec_memory_history() == old(self).spec_memory_history(),
            final(self).spec_temperature_history() == old(self).spec_temperature_history(),
            final(self).spec_last_graph_update() == old(self).spec_last_graph_update(),
            final(self).spec_uuid() == old(self).spec_uuid(),
            final(self).spec_name() == old(self).spec_name(),
            final(self).spec_max_memory() == old(self).spec_max_memory(),
    {
        &mut self.compute_processes
    }

    pub fn device_name(&self) -> (r: &str)
        ensures
            r@ == self.spec_name(),
    {
        self.device_name.as_str()
    }

    pub fn device_uuid(&self) -> (r: &str)
        ensures
            r@ == self.spec_uuid(),
    {
        self.device_uuid.as_str()
    }

    pub fn max_memory(&self) -> (r: u64)
        ensures
            r == self.spec_max_memory(),
    {
        self.max_memory
    }
}

} // verus!
