//! Vendor-B backend: a kernel-driven device found by scanning the device
//! enumeration directory, read through sysfs hardware-monitor files. It has
//! no per-process accounting and no PCIe throughput counters, and a sample
//! never fails: every reading degrades to zero on unavailability.
//!
//! The caller (outside this library) lists the enumeration directory and
//! hands the entries in as plain values; discovery itself — name filtering,
//! ascending order, first driver match — is verified here. Every sysfs read
//! stands behind a trusted wrapper; the field-by-field policy is
//! `assemble_amdgpu_data`, verified for every combination of readings.

use vstd::prelude::*;

use crate::data::{str_or_na, u32_or_zero, u64_or_zero, GpuData, GpuInfo, MonitorError, ProcessInfo};
use crate::monitor::{elapsed_millis, monotonic_now, GpuMonitor};
use crate::text::{
    contains_seq, contains_substr, is_digit_char, lex_lt, parse_u32_spec, parse_u32_trimmed,
    str_eq, str_lex_lt,
};

verus! {

#[verifier::external_type_specification]
#[verifier::external_body]
pub struct ExGpuHandle(amdgpu_sysfs::gpu_handle::GpuHandle);

/// One entry of the device-enumeration directory: its name and the lines of
/// its driver-identification file (empty when that file was unreadable).
pub struct DrmEntry {
    pub name: String,
    pub uevent_lines: Vec<String>,
}

/// A candidate device entry: "card" followed by only digits, which excludes
/// connector-qualified entries such as "card0-DP-1".
pub open spec fn is_card_name(s: Seq<char>) -> bool {
    &&& s.len() >= 4
    &&& s.subrange(0, 4) == "card"@
    &&& forall|i: int| 4 <= i < s.len() ==> is_digit_char(s[i])
}

/// The driver-identification lines name the target kernel driver.
pub open spec fn names_target_driver(lines: Seq<String>) -> bool {
    exists|i: int| 0 <= i < lines.len() && (#[trigger] lines[i])@ == "DRIVER=amdgpu"@
}

/// The entry is a candidate and is driven by the target driver.
pub open spec fn entry_matches(e: DrmEntry) -> bool {
    is_card_name(e.name@) && names_target_driver(e.uevent_lines@)
}

fn is_card_name_exec(s: &str) -> (r: bool)
    ensures
        r == is_card_name(s@),
{
    let len = s.unicode_len();
    if len < 4 {
        return false;
    }
    if !str_eq(s.substring_char(0, 4), "card") {
        return false;
    }
    let mut i: usize = 4;
    while i < len
        invariant
            len == s@.len(),
            4 <= i <= len,
            forall|k: int| 4 <= k < i ==> is_digit_char(s@[k]),
        decreases len - i,
    {
        let c = s.get_char(i);
        if c < '0' || c > '9' {
            assert(!is_digit_char(s@[i as int]));
            return false;
        }
        i = i + 1;
    }
    true
}

fn entry_matches_exec(e: &DrmEntry) -> (r: bool)
    ensures
        r == entry_matches(*e),
{
    if !is_card_name_exec(e.name.as_str()) {
        return false;
    }
    let mut i: usize = 0;
    while i < e.uevent_lines.len()
        invariant
            is_card_name(e.name@),
            i <= e.uevent_lines@.len(),
            forall|k: int| 0 <= k < i ==> (#[trigger] e.uevent_lines@[k])@ != "DRIVER=amdgpu"@,
        decreases e.uevent_lines@.len() - i,
    {
        if str_eq(e.uevent_lines[i].as_str(), "DRIVER=amdgpu") {
            return true;
        }
        i = i + 1;
    }
    false
}

/// Lexicographic order never orders a name before itself.
proof fn lemma_lex_lt_irrefl(a: Seq<char>)
    ensures
        !lex_lt(a, a),
    decreases a.len(),
{
    if a.len() > 0 {
        lemma_lex_lt_irrefl(a.skip(1));
    }
}

/// Lexicographic order is total: two names are ordered one way, the other,
/// or equal.
proof fn lemma_lex_lt_connex(a: Seq<char>, b: Seq<char>)
    ensures
        lex_lt(a, b) || lex_lt(b, a) || a == b,
    decreases a.len(),
{
    if b.len() == 0 && a.len() == 0 {
        assert(a =~= b);
    } else if b.len() == 0 || a.len() == 0 {
    } else if a[0] < b[0] || b[0] < a[0] {
    } else {
        lemma_lex_lt_connex(a.skip(1), b.skip(1));
        if !lex_lt(a, b) && !lex_lt(b, a) {
            assert(a.skip(1) == b.skip(1));
            assert forall|i: int| 0 <= i < a.len() implies a[i] == b[i] by {
                if i > 0 {
                    assert(a[i] == a.skip(1)[i - 1]);
                    assert(b[i] == b.skip(1)[i - 1]);
                }
            }
            assert(a =~= b);
        }
    }
}

/// Lexicographic order is transitive.
proof fn lemma_lex_lt_trans(a: Seq<char>, b: Seq<char>, c: Seq<char>)
    requires
        lex_lt(a, b),
        lex_lt(b, c),
    ensures
        lex_lt(a, c),
    decreases a.len(),
{
    if a.len() == 0 {
    } else {
        if a[0] < b[0] {
        } else if b[0] < c[0] {
        } else {
            lemma_lex_lt_trans(a.skip(1), b.skip(1), c.skip(1));
        }
    }
}

/// Device discovery's decision: among the candidate entries that name the
/// target driver, the one first in ascending name order — the index of the
/// earliest entry with the least name — or `None` when no entry matches.
pub fn select_card(entries: &Vec<DrmEntry>) -> (r: Option<usize>)
    ensures
        match r {
            Some(i) => {
                &&& i < entries@.len()
                &&& entry_matches(entries@[i as int])
                &&& forall|j: int|
                    0 <= j < entries@.len() && entry_matches(#[trigger] entries@[j]) ==> !lex_lt(
                        entries@[j].name@,
                        entries@[i as int].name@,
                    )
                &&& forall|j: int|
                    0 <= j < i && entry_matches(#[trigger] entries@[j]) ==> lex_lt(
                        entries@[i as int].name@,
                        entries@[j].name@,
                    )
            },
            None => forall|j: int|
                0 <= j < entries@.len() ==> !entry_matches(#[trigger] entries@[j]),
        },
{
    let mut best: Option<usize> = None;
    let mut i: usize = 0;
    while i < entries.len()
        invariant
            i <= entries@.len(),
            match best {
                Some(b) => {
                    &&& b < i
                    &&& entry_matches(entries@[b as int])
                    &&& forall|j: int|
                        0 <= j < i && entry_matches(#[trigger] entries@[j]) ==> !lex_lt(
                            entries@[j].name@,
                            entries@[b as int].name@,
                        )
                    &&& forall|j: int|
                        0 <= j < b && entry_matches(#[trigger] entries@[j]) ==> lex_lt(
                            entries@[b as int].name@,
                            entries@[j].name@,
                        )
                },
                None => forall|j: int| 0 <= j < i ==> !entry_matches(#[trigger] entries@[j]),
            },
        decreases entries@.len() - i,
    {
        if entry_matches_exec(&entries[i]) {
            match best {
                None => {
                    proof {
                        lemma_lex_lt_irrefl(entries@[i as int].name@);
                    }
                    best = Some(i);
                },
                Some(b) => {
                    if str_lex_lt(entries[i].name.as_str(), entries[b].name.as_str()) {
                        proof {
                            assert forall|j: int|
                                0 <= j < i && entry_matches(#[trigger] entries@[j]) implies lex_lt(
                                entries@[i as int].name@,
                                entries@[j].name@,
                            ) by {
                                lemma_lex_lt_connex(entries@[j].name@, entries@[b as int].name@);
                                if lex_lt(entries@[b as int].name@, entries@[j].name@) {
                                    lemma_lex_lt_trans(
                                        entries@[i as int].name@,
                                        entries@[b as int].name@,
                                        entries@[j].name@,
                                    );
                                }
                            }
                            assert forall|j: int|
                                0 <= j < i + 1 && entry_matches(#[trigger] entries@[j])
                                implies !lex_lt(entries@[j].name@, entries@[i as int].name@) by {
                                if j == i {
                                    lemma_lex_lt_irrefl(entries@[i as int].name@);
                                } else if lex_lt(entries@[j].name@, entries@[i as int].name@) {
                                    lemma_lex_lt_trans(
                                        entries@[j].name@,
                                        entries@[i as int].name@,
                                        entries@[b as int].name@,
                                    );
                                }
                            }
                        }
                        best = Some(i);
                    } else {
                        proof {
                            lemma_lex_lt_irrefl(entries@[i as int].name@);
                        }
                    }
                },
            }
        }
        i = i + 1;
    }
    best
}

/// Relies on GpuHandle::new_from_path: opens the named entry's device
/// directory under the kernel's device-enumeration tree, reading its
/// metadata and hardware-monitor handles; fails when the metadata is absent.
#[verifier::external_body]
fn open_gpu_handle(card: &str) -> (r: Option<amdgpu_sysfs::gpu_handle::GpuHandle>) {
    let path = std::path::PathBuf::from(format!("/sys/class/drm/{card}/device"));
    amdgpu_sysfs::gpu_handle::GpuHandle::new_from_path(path).ok()
}

/// Relies on GpuHandle::get_driver: the kernel driver's name.
#[verifier::external_body]
fn handle_driver(h: &amdgpu_sysfs::gpu_handle::GpuHandle) -> (r: String) {
    h.get_driver().to_owned()
}

/// Relies on GpuHandle::get_pci_id: the device's PCI vendor and device
/// identifiers, when the metadata reports them.
#[verifier::external_body]
fn handle_pci_id(h: &amdgpu_sysfs::gpu_handle::GpuHandle) -> (r: Option<(String, String)>) {
    h.get_pci_id().map(|(v, d)| (v.to_owned(), d.to_owned()))
}

/// Relies on GpuHandle::get_vbios_version: the firmware version string.
#[verifier::external_body]
fn handle_vbios(h: &amdgpu_sysfs::gpu_handle::GpuHandle) -> (r: Option<String>) {
    h.get_vbios_version().ok()
}

/// Relies on GpuHandle::get_current_link_width: the lane width as the kernel
/// reports it, a decimal string.
#[verifier::external_body]
fn handle_link_width(h: &amdgpu_sysfs::gpu_handle::GpuHandle) -> (r: Option<String>) {
    h.get_current_link_width().ok()
}

/// Relies on GpuHandle::get_current_link_speed: the link speed as the kernel
/// reports it, e.g. "8.0 GT/s PCIe".
#[verifier::external_body]
fn handle_link_speed(h: &amdgpu_sysfs::gpu_handle::GpuHandle) -> (r: Option<String>) {
    h.get_current_link_speed().ok()
}

/// Relies on GpuHandle::get_busy_percent: percent of time the device was
/// busy.
#[verifier::external_body]
fn handle_busy_percent(h: &amdgpu_sysfs::gpu_handle::GpuHandle) -> (r: Option<u8>) {
    h.get_busy_percent().ok()
}

/// Relies on GpuHandle::get_used_vram: bytes of device memory in use.
#[verifier::external_body]
fn handle_used_vram(h: &amdgpu_sysfs::gpu_handle::GpuHandle) -> (r: Option<u64>) {
    h.get_used_vram().ok()
}

/// Relies on GpuHandle::get_total_vram: bytes of device memory installed.
#[verifier::external_body]
fn handle_total_vram(h: &amdgpu_sysfs::gpu_handle::GpuHandle) -> (r: Option<u64>) {
    h.get_total_vram().ok()
}

/// One named temperature sensor; the reading is whole degrees Celsius, with
/// a negative reading clamped to 0 by the conversion.
pub struct TempReading {
    pub label: String,
    pub current_c: Option<u32>,
}

/// Relies on HwMon::get_temps of the first hardware monitor: the named
/// temperature sensors; `None` when the device has no hardware monitor. The
/// sensor map is walked in no fixed order, so nothing is promised of the
/// order of the rows.
#[verifier::external_body]
fn hwmon_temps(h: &amdgpu_sysfs::gpu_handle::GpuHandle) -> (r: Option<Vec<TempReading>>) {
    let hw_mon = h.hw_monitors.first()?;
    let mut rows = Vec::new();
    for (label, t) in hw_mon.get_temps() {
        rows.push(TempReading { label, current_c: t.current.map(|c| c as u32) });
    }
    Some(rows)
}

/// Relies on HwMon::get_fan_pwm of the first hardware monitor: the raw fan
/// duty-cycle value, 0 to 255.
#[verifier::external_body]
fn hwmon_fan_pwm(h: &amdgpu_sysfs::gpu_handle::GpuHandle) -> (r: Option<u8>) {
    h.hw_monitors.first().and_then(|hw| hw.get_fan_pwm().ok())
}

/// Relies on HwMon::get_gpu_clockspeed of the first hardware monitor: MHz.
#[verifier::external_body]
fn hwmon_gpu_clock(h: &amdgpu_sysfs::gpu_handle::GpuHandle) -> (r: Option<u64>) {
    h.hw_monitors.first().and_then(|hw| hw.get_gpu_clockspeed().ok())
}

/// Relies on HwMon::get_vram_clockspeed of the first hardware monitor: MHz.
#[verifier::external_body]
fn hwmon_vram_clock(h: &amdgpu_sysfs::gpu_handle::GpuHandle) -> (r: Option<u64>) {
    h.hw_monitors.first().and_then(|hw| hw.get_vram_clockspeed().ok())
}

/// Relies on HwMon::get_power_average of the first hardware monitor: the
/// averaged power draw, truncated to whole watts by the conversion.
#[verifier::external_body]
fn hwmon_power_average(h: &amdgpu_sysfs::gpu_handle::GpuHandle) -> (r: Option<u32>) {
    h.hw_monitors.first().and_then(|hw| hw.get_power_average().ok()).map(|w| w as u32)
}

/// Relies on HwMon::get_power_input of the first hardware monitor: the
/// instantaneous power draw, truncated to whole watts by the conversion.
#[verifier::external_body]
fn hwmon_power_input(h: &amdgpu_sysfs::gpu_handle::GpuHandle) -> (r: Option<u32>) {
    h.hw_monitors.first().and_then(|hw| hw.get_power_input().ok()).map(|w| w as u32)
}

/// Relies on HwMon::get_power_cap of the first hardware monitor: the power
/// cap, truncated to whole watts by the conversion.
#[verifier::external_body]
fn hwmon_power_cap(h: &amdgpu_sysfs::gpu_handle::GpuHandle) -> (r: Option<u32>) {
    h.hw_monitors.first().and_then(|hw| hw.get_power_cap().ok()).map(|w| w as u32)
}

/// The value a sensor contributes: its reading, or 0 when it has none.
pub open spec fn temp_value(t: TempReading) -> u32 {
    u32_or_zero(t.current_c)
}

/// The first sensor named "edge", scanning in row order.
pub open spec fn pick_edge(s: Seq<TempReading>) -> Option<u32>
    decreases s.len(),
{
    if s.len() == 0 {
        None
    } else if s[0].label@ == "edge"@ {
        Some(temp_value(s[0]))
    } else {
        pick_edge(s.skip(1))
    }
}

/// Temperature selection: prefer the sensor named "edge", else the first
/// available sensor, else 0.
pub open spec fn pick_temp_spec(s: Seq<TempReading>) -> u32 {
    match pick_edge(s) {
        Some(v) => v,
        None => if s.len() > 0 {
            temp_value(s[0])
        } else {
            0
        },
    }
}

/// The reported temperature over the optional sensor rows: the selection
/// rule where a hardware monitor exists, 0 where the device has none.
pub fn pick_temperature_of(sensors: Option<Vec<TempReading>>) -> (r: u32)
    ensures
        r == (match sensors {
            Some(v) => pick_temp_spec(v@),
            None => 0,
        }),
{
    match sensors {
        Some(v) => pick_temperature(&v),
        None => 0,
    }
}

/// Pick the reported temperature out of the sensor rows.
pub fn pick_temperature(sensors: &Vec<TempReading>) -> (r: u32)
    ensures
        r == pick_temp_spec(sensors@),
{
    proof {
        assert(sensors@.skip(0) =~= sensors@);
    }
    let mut i: usize = 0;
    while i < sensors.len()
        invariant
            i <= sensors@.len(),
            pick_edge(sensors@) == pick_edge(sensors@.skip(i as int)),
        decreases sensors@.len() - i,
    {
        if str_eq(sensors[i].label.as_str(), "edge") {
            let v = match sensors[i].current_c {
                Some(v) => v,
                None => 0,
            };
            assert(sensors@.skip(i as int)[0] == sensors@[i as int]);
            return v;
        }
        assert(sensors@.skip(i as int)[0] == sensors@[i as int]);
        assert(sensors@.skip(i as int).skip(1) =~= sensors@.skip(i as int + 1));
        i = i + 1;
    }
    assert(sensors@.skip(i as int).len() == 0);
    assert(pick_edge(sensors@) is None);
    if sensors.len() > 0 {
        match sensors[0].current_c {
            Some(v) => v,
            None => 0,
        }
    } else {
        0
    }
}

/// Fan duty cycle, raw 0–255, as an integer-floor percentage.
pub fn fan_pwm_to_percent(pwm: u8) -> (r: u32)
    ensures
        r == (pwm as int) * 100 / 255,
{
    (pwm as u32 * 100) / 255
}

/// The PCIe generation the reported link-speed string denotes, by substring
/// heuristic, checked in this exact order. The second "5.0" check can never
/// be reached — the first branch already matches any string holding "5.0" —
/// a latent ordering defect kept deliberately for behavioural compatibility.
pub open spec fn spec_pcie_gen(s: Seq<char>) -> u32 {
    if contains_seq(s, "32"@) || contains_seq(s, "5.0"@) {
        5
    } else if contains_seq(s, "16"@) || contains_seq(s, "4.0"@) {
        4
    } else if contains_seq(s, "8.0"@) {
        3
    } else if contains_seq(s, "5.0"@) {
        2
    } else if contains_seq(s, "2.5"@) {
        1
    } else {
        0
    }
}

/// Parse a PCIe generation out of a link-speed string such as "8.0 GT/s".
pub fn pcie_gen_from_speed(s: &str) -> (r: u32)
    ensures
        r == spec_pcie_gen(s@),
{
    if contains_substr(s, "32") || contains_substr(s, "5.0") {
        5
    } else if contains_substr(s, "16") || contains_substr(s, "4.0") {
        4
    } else if contains_substr(s, "8.0") {
        3
    } else if contains_substr(s, "5.0") {
        2
    } else if contains_substr(s, "2.5") {
        1
    } else {
        0
    }
}

/// The synthesized device name: the PCI identifiers when available, else the
/// generic label.
pub open spec fn amdgpu_name_spec(pci_id: Option<(String, String)>) -> Seq<char> {
    match pci_id {
        Some(p) => "AMD GPU ["@ + p.0@ + ":"@ + p.1@ + "]"@,
        None => "AMD GPU"@,
    }
}

/// Power usage: prefer the averaged reading, fall back to the instantaneous
/// one, else 0; in milliwatts.
pub open spec fn amdgpu_power_usage_mw(avg_w: Option<u32>, input_w: Option<u32>) -> int {
    match avg_w {
        Some(w) => (w as int) * 1000,
        None => match input_w {
            Some(w) => (w as int) * 1000,
            None => 0,
        },
    }
}

/// Every static sub-query degrades independently: the synthesized name, the
/// always-absent unique identifier, the reported driver and firmware
/// versions, and the lane width and generation parsed out of the kernel's
/// link strings — 0 whenever a string is absent or unparsable.
pub fn build_amdgpu_info(
    pci_id: Option<(String, String)>,
    driver_version: String,
    vbios_version: Option<String>,
    link_width: Option<String>,
    link_speed: Option<String>,
) -> (r: GpuInfo)
    ensures
        r.name@ == amdgpu_name_spec(pci_id),
        r.uuid@ == "N/A"@,
        r.driver_version == driver_version,
        r.vbios_version@ == str_or_na(vbios_version),
        r.pcie_width == (match link_width {
            Some(s) => parse_u32_spec(s@),
            None => 0,
        }),
        r.pcie_gen == (match link_speed {
            Some(s) => spec_pcie_gen(s@),
            None => 0,
        }),
{
    let name: String = match pci_id {
        Some((vendor, device)) => {
            let mut n = "AMD GPU [".to_owned();
            n.append(vendor.as_str());
            n.append(":");
            n.append(device.as_str());
            n.append("]");
            n
        },
        None => "AMD GPU".to_owned(),
    };
    let pcie_width: u32 = match link_width {
        Some(s) => parse_u32_trimmed(s.as_str()),
        None => 0,
    };
    let pcie_gen: u32 = match link_speed {
        Some(s) => pcie_gen_from_speed(s.as_str()),
        None => 0,
    };
    GpuInfo {
        name,
        uuid: "N/A".to_owned(),
        driver_version,
        vbios_version: match vbios_version {
            Some(s) => s,
            None => "N/A".to_owned(),
        },
        pcie_gen,
        pcie_width,
    }
}

/// The whole field policy of a Vendor-B sample, verified for every
/// combination of readings: every absent reading is zero, power usage falls
/// back from the averaged to the instantaneous reading, the fan duty cycle
/// scales to a percentage, and PCIe throughput is always zero — this source
/// exposes no counters for it.
pub fn assemble_amdgpu_data(
    timestamp_ms: u64,
    busy_pct: Option<u8>,
    used_vram_bytes: Option<u64>,
    total_vram_bytes: Option<u64>,
    temperature_c: u32,
    gpu_clock_mhz: Option<u64>,
    vram_clock_mhz: Option<u64>,
    power_average_w: Option<u32>,
    power_input_w: Option<u32>,
    power_cap_w: Option<u32>,
    fan_pwm: Option<u8>,
) -> (d: GpuData)
    ensures
        d.timestamp_ms == timestamp_ms,
        d.utilization_pct == (match busy_pct {
            Some(b) => b as u32,
            None => 0,
        }),
        d.memory_used_bytes == u64_or_zero(used_vram_bytes),
        d.memory_total_bytes == u64_or_zero(total_vram_bytes),
        d.temperature_c == temperature_c,
        d.gpu_clock_mhz == u64_or_zero(gpu_clock_mhz) as u32,
        d.memory_clock_mhz == u64_or_zero(vram_clock_mhz) as u32,
        d.power_usage_mw == amdgpu_power_usage_mw(power_average_w, power_input_w),
        d.power_limit_mw == (u32_or_zero(power_cap_w) as u64) * 1000,
        d.fan_speed_pct == (match fan_pwm {
            Some(p) => (p as int) * 100 / 255,
            None => 0,
        }),
        d.pcie_throughput_tx_kbs == 0,
        d.pcie_throughput_rx_kbs == 0,
{
    let gc: u64 = match gpu_clock_mhz {
        Some(v) => v,
        None => 0,
    };
    let mc: u64 = match vram_clock_mhz {
        Some(v) => v,
        None => 0,
    };
    let power_usage_w: u32 = match power_average_w {
        Some(w) => w,
        None => match power_input_w {
            Some(w) => w,
            None => 0,
        },
    };
    GpuData {
        timestamp_ms,
        utilization_pct: match busy_pct {
            Some(b) => b as u32,
            None => 0,
        },
        memory_used_bytes: match used_vram_bytes {
            Some(v) => v,
            None => 0,
        },
        memory_total_bytes: match total_vram_bytes {
            Some(v) => v,
            None => 0,
        },
        temperature_c,
        gpu_clock_mhz: #[verifier::truncate] (gc as u32),
        memory_clock_mhz: #[verifier::truncate] (mc as u32),
        power_usage_mw: (power_usage_w as u64) * 1000,
        power_limit_mw: (match power_cap_w {
            Some(w) => w,
            None => 0u32,
        } as u64) * 1000,
        fan_speed_pct: match fan_pwm {
            Some(p) => fan_pwm_to_percent(p),
            None => 0,
        },
        pcie_throughput_tx_kbs: 0,
        pcie_throughput_rx_kbs: 0,
    }
}

/// The Vendor-B backend: an open sysfs handle on the discovered device and
/// the timepoint samples are stamped against.
pub struct AmdgpuMonitor {
    gpu_handle: amdgpu_sysfs::gpu_handle::GpuHandle,
    start_time: std::time::Instant,
}

impl AmdgpuMonitor {
    /// Device discovery over the given enumeration entries: the first
    /// candidate in ascending name order whose driver-identification lines
    /// name the target driver. Discovery finding nothing, or the sensor
    /// handle failing to open, is a construction failure.
    pub fn new(entries: Vec<DrmEntry>) -> (r: Result<AmdgpuMonitor, MonitorError>)
        ensures
            (forall|j: int| 0 <= j < entries@.len() ==> !entry_matches(#[trigger] entries@[j]))
                ==> (r matches Err(e) && e matches MonitorError::SamplingFailed(m) && m@
                == "No amdgpu device found"@),
            (exists|j: int| 0 <= j < entries@.len() && entry_matches(#[trigger] entries@[j])) ==> (
            r is Ok || (r matches Err(MonitorError::SamplingFailed(m)) && m@
                == "amdgpu sysfs initialization failed"@)),
            r is Ok ==> exists|j: int|
                0 <= j < entries@.len() && entry_matches(#[trigger] entries@[j]),
            r matches Err(e) ==> e is SamplingFailed,
    {
        let idx = match select_card(&entries) {
            Some(i) => i,
            None => {
                return Err(MonitorError::SamplingFailed("No amdgpu device found".to_owned()));
            },
        };
        let handle = match open_gpu_handle(entries[idx].name.as_str()) {
            Some(h) => h,
            None => {
                return Err(
                    MonitorError::SamplingFailed("amdgpu sysfs initialization failed".to_owned()),
                );
            },
        };
        Ok(AmdgpuMonitor { gpu_handle: handle, start_time: monotonic_now() })
    }

    /// Never fails: every sub-query that errors resolves to its placeholder
    /// (the exact field policy is stated and proved on `build_amdgpu_info`).
    /// The unique identifier is always the placeholder: this source does not
    /// expose one, whatever is read.
    pub fn get_static_info(&self) -> (r: GpuInfo)
        ensures
            r.uuid@ == "N/A"@,
    {
        build_amdgpu_info(
            handle_pci_id(&self.gpu_handle),
            handle_driver(&self.gpu_handle),
            handle_vbios(&self.gpu_handle),
            handle_link_width(&self.gpu_handle),
            handle_link_speed(&self.gpu_handle),
        )
    }

    /// The reported temperature: the "edge" sensor of the first hardware
    /// monitor, else its first sensor, else 0 (the selection rule is stated
    /// and proved on `pick_temperature`).
    fn read_temperature(&self) -> (r: u32) {
        pick_temperature_of(hwmon_temps(&self.gpu_handle))
    }

    /// One snapshot. This source never fails a sample: every reading
    /// degrades to zero (the field policy is stated and proved on
    /// `assemble_amdgpu_data`). The process list is always empty — no
    /// per-process accounting — and PCIe throughput is always zero.
    pub fn sample(&self) -> (r: Result<(GpuData, Vec<ProcessInfo>), MonitorError>)
        ensures
            r is Ok,
            r matches Ok(s) ==> {
                &&& s.1@.len() == 0
                &&& s.0.pcie_throughput_tx_kbs == 0
                &&& s.0.pcie_throughput_rx_kbs == 0
            },
    {
        let temperature_c = self.read_temperature();
        let data = assemble_amdgpu_data(
            elapsed_millis(&self.start_time),
            handle_busy_percent(&self.gpu_handle),
            handle_used_vram(&self.gpu_handle),
            handle_total_vram(&self.gpu_handle),
            temperature_c,
            hwmon_gpu_clock(&self.gpu_handle),
            hwmon_vram_clock(&self.gpu_handle),
            hwmon_power_average(&self.gpu_handle),
            hwmon_power_input(&self.gpu_handle),
            hwmon_power_cap(&self.gpu_handle),
            hwmon_fan_pwm(&self.gpu_handle),
        );
        Ok((data, Vec::new()))
    }
}

impl GpuMonitor for AmdgpuMonitor {
    fn get_static_info(&self) -> GpuInfo {
        AmdgpuMonitor::get_static_info(self)
    }

    fn sample(&self) -> Result<(GpuData, Vec<ProcessInfo>), MonitorError> {
        AmdgpuMonitor::sample(self)
    }
}

} // verus!
