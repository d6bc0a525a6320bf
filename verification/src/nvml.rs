//! Vendor-A backend: bridges the NVML management interface into the unified
//! model. Utilization, memory and temperature are required — any of them
//! failing fails the sample — while clocks, fan and PCIe throughput default
//! to zero independently and the power pair defaults atomically.
//!
//! Every call into the management interface stands behind a trusted wrapper;
//! the degradation policy itself is `assemble_nvml_data`, which is verified
//! for every combination of readings.

use vstd::prelude::*;

use crate::data::{str_or_na, u32_or_zero, u64_or_zero, GpuData, GpuInfo, MonitorError, ProcessInfo};
use crate::monitor::{elapsed_millis, monotonic_now, GpuMonitor};

verus! {

#[verifier::external_type_specification]
#[verifier::external_body]
pub struct ExNvml(nvml_wrapper::Nvml);

#[verifier::external_type_specification]
#[verifier::external_body]
pub struct ExNvmlDevice<'a>(nvml_wrapper::Device<'a>);

#[verifier::external_type_specification]
#[verifier::external_body]
pub struct ExNvmlError(nvml_wrapper::error::NvmlError);

/// Relies on Nvml::init: loads the management library and opens a connection
/// to the local telemetry service.
#[verifier::external_body]
fn nvml_init() -> (r: Result<nvml_wrapper::Nvml, nvml_wrapper::error::NvmlError>) {
    nvml_wrapper::Nvml::init()
}

/// Relies on Nvml::device_by_index: resolves one device of the service by
/// its index.
#[verifier::external_body]
fn device_at<'a>(
    nvml: &'a nvml_wrapper::Nvml,
    index: u32,
) -> (r: Result<nvml_wrapper::Device<'a>, nvml_wrapper::error::NvmlError>) {
    nvml.device_by_index(index)
}

/// Relies on Nvml::sys_driver_version: the driver version string.
#[verifier::external_body]
fn nvml_driver_version(nvml: &nvml_wrapper::Nvml) -> (r: Option<String>) {
    nvml.sys_driver_version().ok()
}

/// Relies on Device::name: the device's product name.
#[verifier::external_body]
fn device_name(d: &nvml_wrapper::Device<'_>) -> (r: Option<String>) {
    d.name().ok()
}

/// Relies on Device::uuid: the device's unique identifier.
#[verifier::external_body]
fn device_uuid(d: &nvml_wrapper::Device<'_>) -> (r: Option<String>) {
    d.uuid().ok()
}

/// Relies on Device::vbios_version: the firmware version string.
#[verifier::external_body]
fn device_vbios(d: &nvml_wrapper::Device<'_>) -> (r: Option<String>) {
    d.vbios_version().ok()
}

/// Relies on Device::current_pcie_link_gen: the current link generation.
#[verifier::external_body]
fn device_pcie_gen(d: &nvml_wrapper::Device<'_>) -> (r: Option<u32>) {
    d.current_pcie_link_gen().ok()
}

/// Relies on Device::current_pcie_link_width: the current link lane width.
#[verifier::external_body]
fn device_pcie_width(d: &nvml_wrapper::Device<'_>) -> (r: Option<u32>) {
    d.current_pcie_link_width().ok()
}

/// Relies on Device::utilization_rates: percent of time the device was busy
/// over the last sample period (the `gpu` field of the reported pair).
#[verifier::external_body]
fn device_utilization(
    d: &nvml_wrapper::Device<'_>,
) -> (r: Result<u32, nvml_wrapper::error::NvmlError>) {
    d.utilization_rates().map(|u| u.gpu)
}

/// Relies on Device::memory_info: used and total device memory in bytes.
#[verifier::external_body]
fn device_memory(
    d: &nvml_wrapper::Device<'_>,
) -> (r: Result<(u64, u64), nvml_wrapper::error::NvmlError>) {
    d.memory_info().map(|m| (m.used, m.total))
}

/// Relies on Device::temperature with the on-die sensor: degrees Celsius.
#[verifier::external_body]
fn device_temperature(
    d: &nvml_wrapper::Device<'_>,
) -> (r: Result<u32, nvml_wrapper::error::NvmlError>) {
    d.temperature(nvml_wrapper::enum_wrappers::device::TemperatureSensor::Gpu)
}

/// Relies on Device::clock_info for the graphics clock, in MHz.
#[verifier::external_body]
fn device_graphics_clock(d: &nvml_wrapper::Device<'_>) -> (r: Option<u32>) {
    d.clock_info(nvml_wrapper::enum_wrappers::device::Clock::Graphics).ok()
}

/// Relies on Device::clock_info for the memory clock, in MHz.
#[verifier::external_body]
fn device_memory_clock(d: &nvml_wrapper::Device<'_>) -> (r: Option<u32>) {
    d.clock_info(nvml_wrapper::enum_wrappers::device::Clock::Memory).ok()
}

/// Relies on Device::power_usage: the device's power draw in milliwatts.
#[verifier::external_body]
fn device_power_usage(d: &nvml_wrapper::Device<'_>) -> (r: Option<u32>) {
    d.power_usage().ok()
}

/// Relies on Device::power_management_limit: the enforced power limit in
/// milliwatts.
#[verifier::external_body]
fn device_power_limit(d: &nvml_wrapper::Device<'_>) -> (r: Option<u32>) {
    d.power_management_limit().ok()
}

/// Relies on Device::fan_speed for the first fan: intended speed as a
/// percentage.
#[verifier::external_body]
fn device_fan_speed(d: &nvml_wrapper::Device<'_>) -> (r: Option<u32>) {
    d.fan_speed(0).ok()
}

/// Relies on Device::pcie_throughput with the send counter: KB/s.
#[verifier::external_body]
fn device_pcie_send(d: &nvml_wrapper::Device<'_>) -> (r: Option<u32>) {
    d.pcie_throughput(nvml_wrapper::enum_wrappers::device::PcieUtilCounter::Send).ok()
}

/// Relies on Device::pcie_throughput with the receive counter: KB/s.
#[verifier::external_body]
fn device_pcie_recv(d: &nvml_wrapper::Device<'_>) -> (r: Option<u32>) {
    d.pcie_throughput(nvml_wrapper::enum_wrappers::device::PcieUtilCounter::Receive).ok()
}

/// Relies on Device::running_graphics_processes: for each device-resident
/// process, its id and its reported memory use in bytes, where the wrapper
/// maps the `Used` variant to a value and `Unavailable` to `None`.
#[verifier::external_body]
fn device_processes(d: &nvml_wrapper::Device<'_>) -> (r: Option<Vec<(u32, Option<u64>)>>) {
    d.running_graphics_processes().ok().map(|procs| {
        procs
            .into_iter()
            .map(|p| {
                let mem = match p.used_gpu_memory {
                    nvml_wrapper::enums::device::UsedGpuMemory::Used(v) => Some(v),
                    nvml_wrapper::enums::device::UsedGpuMemory::Unavailable => None,
                };
                (p.pid, mem)
            })
            .collect()
    })
}

/// Relies on procfs::process::Process::new and Process::stat: the short
/// command name of a process, failing when it no longer exists.
#[verifier::external_body]
fn proc_comm(pid: u32) -> (r: Option<String>) {
    procfs::process::Process::new(pid as i32).and_then(|p| p.stat()).map(|s| s.comm).ok()
}

/// How the optional power readings default: both real, or both zero.
pub open spec fn power_pair(usage_mw: Option<u32>, limit_mw: Option<u32>) -> (u64, u64) {
    match (usage_mw, limit_mw) {
        (Some(u), Some(l)) => (u as u64, l as u64),
        _ => (0, 0),
    }
}

/// Power usage and power limit degrade as an atomic pair: either both carry
/// the reported values, or both are zero — never one of each.
pub proof fn lemma_power_pair_atomic(usage_mw: Option<u32>, limit_mw: Option<u32>)
    ensures
        ({
            let p = power_pair(usage_mw, limit_mw);
            (usage_mw matches Some(u) && limit_mw matches Some(l) && p.0 == u && p.1 == l) || (p.0
                == 0 && p.1 == 0)
        }),
{
}

/// How the PCIe throughput counters map to the output: as a pair, zero when
/// either is unavailable, and cross-mapped when both are read — the
/// provider's send counter lands in the receive field and its receive
/// counter in the send field, a quirk inherited from the data source.
pub open spec fn pcie_pair(send_kbs: Option<u32>, recv_kbs: Option<u32>) -> (u32, u32) {
    match (send_kbs, recv_kbs) {
        (Some(s), Some(v)) => (v, s),
        _ => (0, 0),
    }
}

/// The whole degradation policy of a Vendor-A sample, verified for every
/// combination of readings: the three required readings decide success as a
/// whole, the first failed one (in the order utilization, memory,
/// temperature) decides the sampling-failure message, and every optional
/// reading defaults by its documented rule.
pub fn assemble_nvml_data(
    timestamp_ms: u64,
    utilization_pct: Result<u32, nvml_wrapper::error::NvmlError>,
    memory_bytes: Result<(u64, u64), nvml_wrapper::error::NvmlError>,
    temperature_c: Result<u32, nvml_wrapper::error::NvmlError>,
    gpu_clock_mhz: Option<u32>,
    memory_clock_mhz: Option<u32>,
    power_usage_mw: Option<u32>,
    power_limit_mw: Option<u32>,
    fan_speed_pct: Option<u32>,
    pcie_send_kbs: Option<u32>,
    pcie_recv_kbs: Option<u32>,
) -> (r: Result<GpuData, MonitorError>)
    ensures
        r is Ok <==> (utilization_pct is Ok && memory_bytes is Ok && temperature_c is Ok),
        utilization_pct is Err ==> (r matches Err(MonitorError::SamplingFailed(m)) && m@
            == "utilization unavailable"@),
        utilization_pct is Ok && memory_bytes is Err ==> (r matches Err(
            MonitorError::SamplingFailed(m),
        ) && m@ == "memory info unavailable"@),
        utilization_pct is Ok && memory_bytes is Ok && temperature_c is Err ==> (r matches Err(
            MonitorError::SamplingFailed(m),
        ) && m@ == "temperature unavailable"@),
        utilization_pct matches Ok(u) ==> (memory_bytes matches Ok(m) ==> (temperature_c matches Ok(
            t,
        ) ==> (r matches Ok(d) && {
            &&& d.timestamp_ms == timestamp_ms
            &&& d.utilization_pct == u
            &&& d.memory_used_bytes == m.0
            &&& d.memory_total_bytes == m.1
            &&& d.temperature_c == t
            &&& d.gpu_clock_mhz == u32_or_zero(gpu_clock_mhz)
            &&& d.memory_clock_mhz == u32_or_zero(memory_clock_mhz)
            &&& d.power_usage_mw == power_pair(power_usage_mw, power_limit_mw).0
            &&& d.power_limit_mw == power_pair(power_usage_mw, power_limit_mw).1
            &&& d.fan_speed_pct == u32_or_zero(fan_speed_pct)
            &&& d.pcie_throughput_tx_kbs == pcie_pair(pcie_send_kbs, pcie_recv_kbs).0
            &&& d.pcie_throughput_rx_kbs == pcie_pair(pcie_send_kbs, pcie_recv_kbs).1
        }))),
{
    let u = match utilization_pct {
        Ok(v) => v,
        Err(_) => {
            return Err(MonitorError::SamplingFailed("utilization unavailable".to_owned()));
        },
    };
    let m = match memory_bytes {
        Ok(v) => v,
        Err(_) => {
            return Err(MonitorError::SamplingFailed("memory info unavailable".to_owned()));
        },
    };
    let t = match temperature_c {
        Ok(v) => v,
        Err(_) => {
            return Err(MonitorError::SamplingFailed("temperature unavailable".to_owned()));
        },
    };
    let (pu, pl): (u64, u64) = match (power_usage_mw, power_limit_mw) {
        (Some(usage), Some(limit)) => (usage as u64, limit as u64),
        _ => (0, 0),
    };
    let (tx, rx): (u32, u32) = match (pcie_send_kbs, pcie_recv_kbs) {
        (Some(send), Some(recv)) => (recv, send),
        _ => (0, 0),
    };
    Ok(
        GpuData {
            timestamp_ms,
            utilization_pct: u,
            memory_used_bytes: m.0,
            memory_total_bytes: m.1,
            temperature_c: t,
            gpu_clock_mhz: match gpu_clock_mhz {
                Some(v) => v,
                None => 0,
            },
            memory_clock_mhz: match memory_clock_mhz {
                Some(v) => v,
                None => 0,
            },
            power_usage_mw: pu,
            power_limit_mw: pl,
            fan_speed_pct: match fan_speed_pct {
                Some(v) => v,
                None => 0,
            },
            pcie_throughput_tx_kbs: tx,
            pcie_throughput_rx_kbs: rx,
        },
    )
}

/// One process list: exactly one row per enumerated process, in enumeration
/// order, with pid and reported memory passed through and cpu fixed at 0.
/// Only the display names are left open: each comes from the process-
/// metadata lookup, with `"unknown"` when the process could not be read.
pub fn build_process_rows(raw: &Vec<(u32, Option<u64>)>) -> (v: Vec<ProcessInfo>)
    ensures
        v@.len() == raw@.len(),
        forall|i: int|
            0 <= i < raw@.len() ==> {
                &&& (#[trigger] v@[i]).pid == raw@[i].0
                &&& v@[i].memory_usage == u64_or_zero(raw@[i].1)
                &&& v@[i].cpu_percent == 0
            },
{
    let mut v: Vec<ProcessInfo> = Vec::new();
    let mut i: usize = 0;
    while i < raw.len()
        invariant
            i <= raw@.len(),
            v@.len() == i,
            forall|k: int|
                0 <= k < i ==> {
                    &&& (#[trigger] v@[k]).pid == raw@[k].0
                    &&& v@[k].memory_usage == u64_or_zero(raw@[k].1)
                    &&& v@[k].cpu_percent == 0
                },
        decreases raw@.len() - i,
    {
        let (pid, mem) = raw[i];
        v.push(make_process_entry(pid, proc_comm(pid), mem));
        i = i + 1;
    }
    v
}

/// One process row: the given name, or `"unknown"` when the process could
/// not be read; the reported memory, or 0 when unspecified; cpu fixed at 0.
pub fn make_process_entry(pid: u32, comm: Option<String>, memory_usage: Option<u64>) -> (p:
    ProcessInfo)
    ensures
        p.pid == pid,
        p.name@ == (match comm {
            Some(n) => n@,
            None => "unknown"@,
        }),
        p.memory_usage == u64_or_zero(memory_usage),
        p.cpu_percent == 0,
{
    ProcessInfo {
        pid,
        name: match comm {
            Some(n) => n,
            None => "unknown".to_owned(),
        },
        memory_usage: match memory_usage {
            Some(v) => v,
            None => 0,
        },
        cpu_percent: 0,
    }
}

/// Every static sub-query degrades independently: the given value, or the
/// documented placeholder.
pub fn build_nvml_info(
    name: Option<String>,
    uuid: Option<String>,
    driver_version: Option<String>,
    vbios_version: Option<String>,
    pcie_gen: Option<u32>,
    pcie_width: Option<u32>,
) -> (r: GpuInfo)
    ensures
        r.name@ == str_or_na(name),
        r.uuid@ == str_or_na(uuid),
        r.driver_version@ == str_or_na(driver_version),
        r.vbios_version@ == str_or_na(vbios_version),
        r.pcie_gen == u32_or_zero(pcie_gen),
        r.pcie_width == u32_or_zero(pcie_width),
{
    GpuInfo {
        name: or_na(name),
        uuid: or_na(uuid),
        driver_version: or_na(driver_version),
        vbios_version: or_na(vbios_version),
        pcie_gen: match pcie_gen {
            Some(v) => v,
            None => 0,
        },
        pcie_width: match pcie_width {
            Some(v) => v,
            None => 0,
        },
    }
}

fn or_na(o: Option<String>) -> (r: String)
    ensures
        r@ == str_or_na(o),
{
    match o {
        Some(s) => s,
        None => "N/A".to_owned(),
    }
}

/// The Vendor-A backend: a connection to the telemetry service, the resolved
/// device index, and the timepoint samples are stamped against.
pub struct NvmlMonitor {
    nvml: nvml_wrapper::Nvml,
    device_index: u32,
    start_time: std::time::Instant,
}

impl NvmlMonitor {
    /// The device index this backend was bound to.
    pub closed spec fn spec_device_index(&self) -> u32 {
        self.device_index
    }

    /// Opens the service and checks that the device index resolves; either
    /// failing is a hard construction failure.
    pub fn new(device_index: u32) -> (r: Result<NvmlMonitor, MonitorError>)
        ensures
            r matches Ok(m) ==> m.spec_device_index() == device_index,
            r matches Err(e) ==> (e is NvmlInit || (e matches MonitorError::DeviceNotFound(i)
                && i == device_index)),
    {
        let nvml = match nvml_init() {
            Ok(n) => n,
            Err(e) => return Err(MonitorError::NvmlInit(e)),
        };
        match device_at(&nvml, device_index) {
            Ok(_) => (),
            Err(_) => return Err(MonitorError::DeviceNotFound(device_index)),
        };
        Ok(NvmlMonitor { nvml, device_index, start_time: monotonic_now() })
    }

    /// Never fails: every sub-query that errors resolves to its placeholder
    /// (the exact field policy is stated and proved on `build_nvml_info`).
    /// A device that no longer resolves degrades every device-bound field.
    pub fn get_static_info(&self) -> (r: GpuInfo) {
        let driver_version = nvml_driver_version(&self.nvml);
        match device_at(&self.nvml, self.device_index) {
            Ok(device) => build_nvml_info(
                device_name(&device),
                device_uuid(&device),
                driver_version,
                device_vbios(&device),
                device_pcie_gen(&device),
                device_pcie_width(&device),
            ),
            Err(_) => build_nvml_info(None, None, driver_version, None, None, None),
        }
    }

    /// One snapshot: fails as a whole — always as a sampling failure — when
    /// the device or a required reading is unobtainable (the
    /// reading-by-reading policy is stated and proved on
    /// `assemble_nvml_data`); the process list is built row for row by
    /// `build_process_rows`, and a failed enumeration yields an empty list
    /// rather than failing the sample.
    pub fn sample(&self) -> (r: Result<(GpuData, Vec<ProcessInfo>), MonitorError>)
        ensures
            r matches Err(e) ==> e is SamplingFailed,
            r matches Ok(s) ==> forall|i: int|
                0 <= i < s.1@.len() ==> (#[trigger] s.1@[i]).cpu_percent == 0,
    {
        let device = match device_at(&self.nvml, self.device_index) {
            Ok(d) => d,
            Err(_) => {
                return Err(MonitorError::SamplingFailed("device unavailable".to_owned()));
            },
        };
        let data = match assemble_nvml_data(
            elapsed_millis(&self.start_time),
            device_utilization(&device),
            device_memory(&device),
            device_temperature(&device),
            device_graphics_clock(&device),
            device_memory_clock(&device),
            device_power_usage(&device),
            device_power_limit(&device),
            device_fan_speed(&device),
            device_pcie_send(&device),
            device_pcie_recv(&device),
        ) {
            Ok(d) => d,
            Err(e) => return Err(e),
        };
        let process_infos: Vec<ProcessInfo> = match device_processes(&device) {
            Some(raw) => build_process_rows(&raw),
            None => Vec::new(),
        };
        Ok((data, process_infos))
    }
}

impl GpuMonitor for NvmlMonitor {
    fn get_static_info(&self) -> GpuInfo {
        NvmlMonitor::get_static_info(self)
    }

    fn sample(&self) -> Result<(GpuData, Vec<ProcessInfo>), MonitorError> {
        NvmlMonitor::sample(self)
    }
}

} // verus!
