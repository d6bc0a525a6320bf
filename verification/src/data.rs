//! The unified data model: static device facts, one telemetry snapshot,
//! per-process usage, and the error taxonomy.
//!
//! Every quantity is carried in a fixed integer unit (bytes, milliwatts,
//! kilobytes per second, milliseconds) so that the degradation policy can be
//! stated and checked exactly; presentation-unit conversion is the caller's.

use vstd::prelude::*;

verus! {

/// Facts about a device that do not change while it is monitored.
///
/// Every field degrades independently: a sub-query that fails resolves to
/// `"N/A"` for the strings and `0` for the numbers, never to an error.
#[derive(Debug, Clone)]
pub struct GpuInfo {
    pub name: String,
    pub uuid: String,
    pub driver_version: String,
    pub vbios_version: String,
    pub pcie_gen: u32,
    pub pcie_width: u32,
}

/// One telemetry snapshot.
///
/// Utilization, memory and temperature are required: a backend that cannot
/// read them fails the whole sample. Every other field defaults to zero when
/// its source is unavailable, except the power pair, which defaults
/// atomically (see `MonitorError` for the failure side).
#[derive(Debug, Clone, PartialEq, Eq, Structural)]
pub struct GpuData {
    /// Milliseconds since the backend was constructed.
    pub timestamp_ms: u64,
    /// Percent of time the device was busy over the last sample period.
    pub utilization_pct: u32,
    pub memory_used_bytes: u64,
    pub memory_total_bytes: u64,
    pub temperature_c: u32,
    pub gpu_clock_mhz: u32,
    pub memory_clock_mhz: u32,
    pub power_usage_mw: u64,
    pub power_limit_mw: u64,
    /// Fan duty cycle as a percentage, 0 to 100.
    pub fan_speed_pct: u32,
    pub pcie_throughput_tx_kbs: u32,
    pub pcie_throughput_rx_kbs: u32,
}

/// One process currently resident on the device.
#[derive(Debug, Clone)]
pub struct ProcessInfo {
    pub pid: u32,
    /// Best-effort display name; `"unknown"` when the process could not be
    /// read (it may have exited between enumeration and lookup).
    pub name: String,
    /// Bytes of device memory in use, 0 when the source reports none.
    pub memory_usage: u64,
    /// Neither backend sources this; always 0.
    pub cpu_percent: u32,
}

/// Why a backend could not be built or a sample could not be taken.
#[derive(Debug)]
pub enum MonitorError {
    /// The vendor management service could not be reached or initialized.
    NvmlInit(nvml_wrapper::error::NvmlError),
    /// The requested device index does not resolve.
    DeviceNotFound(u32),
    /// A required reading was unobtainable (transient: retry on the next
    /// tick), or the kernel-driven backend could not be constructed.
    SamplingFailed(String),
}

/// An optional reading's documented default: the value, or 0.
pub open spec fn u32_or_zero(o: Option<u32>) -> u32 {
    match o {
        Some(v) => v,
        None => 0,
    }
}

/// An optional reading's documented default: the value, or 0.
pub open spec fn u64_or_zero(o: Option<u64>) -> u64 {
    match o {
        Some(v) => v,
        None => 0,
    }
}

/// The placeholder a failed string sub-query resolves to.
pub open spec fn str_or_na(o: Option<String>) -> Seq<char> {
    match o {
        Some(s) => s@,
        None => "N/A"@,
    }
}

} // verus!
