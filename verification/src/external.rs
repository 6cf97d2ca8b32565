//! Declarations of the outside capabilities the engine polls: the NVML
//! device handle (hardware telemetry) and the OS process table (process
//! names). Every reading depends on the machine's state at the moment of the
//! call, so the wrappers promise nothing of the values that come back; the
//! verified callers state what holds of every outcome.

use crate::processes::{ProcessInfo, UsedGpuMemory};
use vstd::prelude::*;

verus! {

#[verifier::external_type_specification]
#[verifier::external_body]
pub struct ExDevice<'nvml>(nvml_wrapper::Device<'nvml>);

#[verifier::external_type_specification]
#[verifier::external_body]
pub struct ExNvmlError(nvml_wrapper::error::NvmlError);

#[verifier::external_type_specification]
#[verifier::external_body]
pub struct ExSystem(sysinfo::System);

/// Relies on nvml_wrapper's Device::utilization_rates for the device's
/// utilization over the last sample period; only the GPU percentage is kept.
#[verifier::external_body]
pub(crate) fn device_utilization_percent<'a>(device: &nvml_wrapper::Device<'a>) -> (r: Result<
    u32,
    nvml_wrapper::error::NvmlError,
>) {
    device.utilization_rates().map(|u| u.gpu)
}

/// Relies on nvml_wrapper's Device::memory_info for the device's memory
/// accounting; only the used-bytes figure is kept.
#[verifier::external_body]
pub(crate) fn device_memory_used<'a>(device: &nvml_wrapper::Device<'a>) -> (r: Result<
    u64,
    nvml_wrapper::error::NvmlError,
>) {
    device.memory_info().map(|m| m.used)
}

/// Relies on nvml_wrapper's Device::temperature, read from the GPU die
/// sensor, in degrees Celsius.
#[verifier::external_body]
pub(crate) fn device_temperature_gpu<'a>(device: &nvml_wrapper::Device<'a>) -> (r: Result<
    u32,
    nvml_wrapper::error::NvmlError,
>) {
    device.temperature(nvml_wrapper::enum_wrappers::device::TemperatureSensor::Gpu)
}

/// Relies on nvml_wrapper's Device::running_graphics_processes: the processes
/// holding a graphics context on the device, each reduced to its pid and its
/// used GPU memory.
#[verifier::external_body]
pub(crate) fn device_running_graphics_processes<'a>(device: &nvml_wrapper::Device<'a>) -> (r:
    Result<Vec<ProcessInfo>, nvml_wrapper::error::NvmlError>) {
    device.running_graphics_processes().map(|v| {
        v.into_iter().map(|p| ProcessInfo {
            pid: p.pid,
            used_gpu_memory: match p.used_gpu_memory {
                nvml_wrapper::enums::device::UsedGpuMemory::Used(bytes) => UsedGpuMemory::Used(
                    bytes,
                ),
                nvml_wrapper::enums::device::UsedGpuMemory::Unavailable => UsedGpuMemory::Unavailable,
            },
        }).collect()
    })
}

/// Relies on nvml_wrapper's Device::running_compute_processes: the processes
/// holding a compute context on the device, each reduced to its pid and its
/// used GPU memory.
#[verifier::external_body]
pub(crate) fn device_running_compute_processes<'a>(device: &nvml_wrapper::Device<'a>) -> (r:
    Result<Vec<ProcessInfo>, nvml_wrapper::error::NvmlError>) {
    device.running_compute_processes().map(|v| {
        v.into_iter().map(|p| ProcessInfo {
            pid: p.pid,
            used_gpu_memory: match p.used_gpu_memory {
                nvml_wrapper::enums::device::UsedGpuMemory::Used(bytes) => UsedGpuMemory::Used(
                    bytes,
                ),
                nvml_wrapper::enums::device::UsedGpuMemory::Unavailable => UsedGpuMemory::Unavailable,
            },
        }).collect()
    })
}

/// Relies on sysinfo's System::new_with_specifics: a snapshot of this
/// machine's process table, set up to track processes only.
#[verifier::external_body]
pub(crate) fn new_process_system() -> (r: sysinfo::System) {
    sysinfo::System::new_with_specifics(
        sysinfo::RefreshKind::nothing().with_processes(sysinfo::ProcessRefreshKind::nothing()),
    )
}

/// Relies on sysinfo's System::refresh_all: re-reads the OS process table.
#[verifier::external_body]
pub(crate) fn refresh_process_system(sys: &mut sysinfo::System) {
    sys.refresh_all()
}

/// Relies on sysinfo's System::process and Process::name: the OS name of the
/// process with this pid, when the snapshot knows one it can give as UTF-8.
#[verifier::external_body]
pub(crate) fn system_process_name(sys: &sysinfo::System, pid: u32) -> (r: Option<String>) {
    match sys.process(sysinfo::Pid::from_u32(pid)) {
        Some(p) => p.name().to_str().map(|s| s.to_string()),
        None => None,
    }
}

} // verus!
