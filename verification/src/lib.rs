//! GPU telemetry behind one uniform polling contract.
//!
//! Two backends feed the shared data model: a vendor management interface
//! (NVML) and the kernel's sysfs tree (amdgpu). Required readings fail a
//! sample as a whole; optional readings degrade to documented defaults.

pub mod amdgpu;
pub mod data;
pub mod monitor;
pub mod nvml;
pub mod text;
