//! The shared capability contract every backend satisfies, the one-shot
//! selection of a usable backend at startup, and the monotonic clock both
//! backends stamp their samples with.

use vstd::prelude::*;

use crate::amdgpu::{entry_matches, AmdgpuMonitor, DrmEntry};
use crate::data::{GpuData, GpuInfo, MonitorError, ProcessInfo};
use crate::nvml::NvmlMonitor;

verus! {

/// What any backend offers: a one-time static query that never fails, and a
/// repeated sampling query that fails as a whole when a required reading is
/// unobtainable.
pub trait GpuMonitor: Send + Sync {
    fn get_static_info(&self) -> GpuInfo;

    fn sample(&self) -> Result<(GpuData, Vec<ProcessInfo>), MonitorError>;
}

/// The backend the one-shot selection produced.
pub enum Backend {
    Nvml(NvmlMonitor),
    Amdgpu(AmdgpuMonitor),
}

/// Deterministic one-shot priority at startup: Vendor-A against the fixed
/// first device index, then Vendor-B over the given enumeration entries;
/// `None` — no supported monitor, an absence, not an error — when neither
/// constructs. No re-probing afterward.
pub fn select_backend(entries: Vec<DrmEntry>) -> (r: Option<Backend>)
    ensures
        r matches Some(Backend::Nvml(m)) ==> m.spec_device_index() == 0,
        r matches Some(Backend::Amdgpu(_)) ==> exists|j: int|
            0 <= j < entries@.len() && entry_matches(#[trigger] entries@[j]),
{
    match NvmlMonitor::new(0) {
        Ok(m) => Some(Backend::Nvml(m)),
        Err(_) => match AmdgpuMonitor::new(entries) {
            Ok(m) => Some(Backend::Amdgpu(m)),
            Err(_) => None,
        },
    }
}

impl GpuMonitor for Backend {
    fn get_static_info(&self) -> GpuInfo {
        match self {
            Backend::Nvml(m) => NvmlMonitor::get_static_info(m),
            Backend::Amdgpu(m) => AmdgpuMonitor::get_static_info(m),
        }
    }

    fn sample(&self) -> Result<(GpuData, Vec<ProcessInfo>), MonitorError> {
        match self {
            Backend::Nvml(m) => NvmlMonitor::sample(m),
            Backend::Amdgpu(m) => AmdgpuMonitor::sample(m),
        }
    }
}

#[verifier::external_type_specification]
#[verifier::external_body]
pub struct ExInstant(std::time::Instant);

/// Relies on std::time::Instant::now: an opaque timepoint of the monotonic
/// clock; nothing is promised of it.
#[verifier::external_body]
pub(crate) fn monotonic_now() -> (r: std::time::Instant) {
    std::time::Instant::now()
}

/// Relies on std::time::Instant::elapsed: whole milliseconds since the
/// timepoint. The value depends on the clock, so nothing is promised of it.
#[verifier::external_body]
pub(crate) fn elapsed_millis(t: &std::time::Instant) -> (r: u64) {
    t.elapsed().as_millis() as u64
}

} // verus!
