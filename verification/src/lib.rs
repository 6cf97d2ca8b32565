//! Core engine of a GPU monitoring tool: bounded per-metric sample
//! histories, enrichment of raw GPU process lists with OS process names,
//! a sortable process-table view, and per-device refresh scheduling.

mod external;
mod history;
mod monitor;
mod process_table;
mod processes;
mod timing;

pub use history::GraphViewerData;
pub use monitor::GpuDeviceMonitor;
pub use process_table::{
    sort_records, ProcessListKind, ProcessTableData, ProcessTableSorting, SortingDirection,
    TableColumn, TableError,
};
pub use processes::{
    resolve_name, ProcessData, ProcessDataBank, ProcessInfo, ProcessUtilizationSample,
    UsedGpuMemory,
};
