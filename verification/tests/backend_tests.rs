use gpumon::amdgpu::{
    assemble_amdgpu_data, build_amdgpu_info, fan_pwm_to_percent, pcie_gen_from_speed,
    pick_temperature, pick_temperature_of, select_card, AmdgpuMonitor, DrmEntry, TempReading,
};
use gpumon::data::MonitorError;
use gpumon::monitor::{select_backend, Backend};
use gpumon::nvml::{assemble_nvml_data, build_nvml_info, build_process_rows, make_process_entry};
use gpumon::text::parse_u32_trimmed;
use nvml_wrapper::error::NvmlError;

fn err() -> NvmlError {
    NvmlError::UnexpectedVariant(0)
}

fn lines(v: &[&str]) -> Vec<String> {
    v.iter().map(|s| s.to_string()).collect()
}

fn entry(name: &str, uevent: &[&str]) -> DrmEntry {
    DrmEntry { name: name.to_string(), uevent_lines: lines(uevent) }
}

// ── static info placeholders ────────────────────────────────────────────────

#[test]
fn nvml_info_defaults_every_field_independently() {
    let info = build_nvml_info(None, None, None, None, None, None);
    assert_eq!(info.name, "N/A");
    assert_eq!(info.uuid, "N/A");
    assert_eq!(info.driver_version, "N/A");
    assert_eq!(info.vbios_version, "N/A");
    assert_eq!(info.pcie_gen, 0);
    assert_eq!(info.pcie_width, 0);
}

#[test]
fn nvml_info_keeps_available_fields() {
    let info = build_nvml_info(
        Some("Device X".to_string()),
        None,
        Some("550.54".to_string()),
        None,
        Some(4),
        Some(16),
    );
    assert_eq!(info.name, "Device X");
    assert_eq!(info.uuid, "N/A");
    assert_eq!(info.driver_version, "550.54");
    assert_eq!(info.vbios_version, "N/A");
    assert_eq!(info.pcie_gen, 4);
    assert_eq!(info.pcie_width, 16);
}

#[test]
fn amdgpu_info_without_pci_id_uses_generic_label() {
    let info = build_amdgpu_info(None, "amdgpu".to_string(), None, None, None);
    assert_eq!(info.name, "AMD GPU");
    assert_eq!(info.uuid, "N/A");
    assert_eq!(info.driver_version, "amdgpu");
    assert_eq!(info.vbios_version, "N/A");
    assert_eq!(info.pcie_gen, 0);
    assert_eq!(info.pcie_width, 0);
}

#[test]
fn amdgpu_info_synthesizes_name_and_parses_link_strings() {
    let info = build_amdgpu_info(
        Some(("1002".to_string(), "73BF".to_string())),
        "amdgpu".to_string(),
        Some("113-D412".to_string()),
        Some("16\n".to_string()),
        Some("8.0 GT/s PCIe\n".to_string()),
    );
    assert_eq!(info.name, "AMD GPU [1002:73BF]");
    assert_eq!(info.uuid, "N/A");
    assert_eq!(info.vbios_version, "113-D412");
    assert_eq!(info.pcie_width, 16);
    assert_eq!(info.pcie_gen, 3);
}

// ── required readings fail the sample as a whole ────────────────────────────

#[test]
fn nvml_sample_fails_when_utilization_fails() {
    let r = assemble_nvml_data(
        0,
        Err(err()),
        Ok((0, 0)),
        Ok(40),
        Some(1),
        Some(2),
        Some(3),
        Some(4),
        Some(5),
        Some(6),
        Some(7),
    );
    match r {
        Err(MonitorError::SamplingFailed(m)) => assert_eq!(m, "utilization unavailable"),
        other => panic!("expected a sampling failure, got {:?}", other),
    }
}

#[test]
fn nvml_sample_fails_when_memory_fails() {
    let r = assemble_nvml_data(
        0,
        Ok(10),
        Err(err()),
        Ok(40),
        None,
        None,
        None,
        None,
        None,
        None,
        None,
    );
    match r {
        Err(MonitorError::SamplingFailed(m)) => assert_eq!(m, "memory info unavailable"),
        other => panic!("expected a sampling failure, got {:?}", other),
    }
}

#[test]
fn nvml_sample_fails_when_temperature_fails() {
    let r = assemble_nvml_data(
        0,
        Ok(10),
        Ok((1, 2)),
        Err(err()),
        None,
        None,
        None,
        None,
        None,
        None,
        None,
    );
    match r {
        Err(MonitorError::SamplingFailed(m)) => assert_eq!(m, "temperature unavailable"),
        other => panic!("expected a sampling failure, got {:?}", other),
    }
}

#[test]
fn nvml_sample_succeeds_with_required_readings_only() {
    let d = assemble_nvml_data(
        123,
        Ok(55),
        Ok((1 << 30, 4 << 30)),
        Ok(66),
        None,
        None,
        None,
        None,
        None,
        None,
        None,
    )
    .unwrap();
    assert_eq!(d.timestamp_ms, 123);
    assert_eq!(d.utilization_pct, 55);
    assert_eq!(d.memory_used_bytes, 1 << 30);
    assert_eq!(d.memory_total_bytes, 4 << 30);
    assert_eq!(d.temperature_c, 66);
    assert_eq!(d.gpu_clock_mhz, 0);
    assert_eq!(d.memory_clock_mhz, 0);
    assert_eq!(d.power_usage_mw, 0);
    assert_eq!(d.power_limit_mw, 0);
    assert_eq!(d.fan_speed_pct, 0);
    assert_eq!(d.pcie_throughput_tx_kbs, 0);
    assert_eq!(d.pcie_throughput_rx_kbs, 0);
}

// ── the power pair defaults atomically ──────────────────────────────────────

#[test]
fn nvml_power_pair_both_present_is_kept() {
    let d = assemble_nvml_data(
        0,
        Ok(0),
        Ok((0, 0)),
        Ok(0),
        None,
        None,
        Some(35500),
        Some(250000),
        None,
        None,
        None,
    )
    .unwrap();
    assert_eq!(d.power_usage_mw, 35500);
    assert_eq!(d.power_limit_mw, 250000);
}

#[test]
fn nvml_power_pair_missing_limit_zeroes_both() {
    let d = assemble_nvml_data(
        0,
        Ok(0),
        Ok((0, 0)),
        Ok(0),
        None,
        None,
        Some(35500),
        None,
        None,
        None,
        None,
    )
    .unwrap();
    assert_eq!(d.power_usage_mw, 0);
    assert_eq!(d.power_limit_mw, 0);
}

#[test]
fn nvml_power_pair_missing_usage_zeroes_both() {
    let d = assemble_nvml_data(
        0,
        Ok(0),
        Ok((0, 0)),
        Ok(0),
        None,
        None,
        None,
        Some(250000),
        None,
        None,
        None,
    )
    .unwrap();
    assert_eq!(d.power_usage_mw, 0);
    assert_eq!(d.power_limit_mw, 0);
}

// ── the PCIe counters cross-map as a pair ───────────────────────────────────

#[test]
fn nvml_pcie_counters_cross_map() {
    let d = assemble_nvml_data(
        0,
        Ok(0),
        Ok((0, 0)),
        Ok(0),
        None,
        None,
        None,
        None,
        None,
        Some(111),
        Some(222),
    )
    .unwrap();
    assert_eq!(d.pcie_throughput_tx_kbs, 222);
    assert_eq!(d.pcie_throughput_rx_kbs, 111);
}

#[test]
fn nvml_pcie_counters_zero_as_a_pair() {
    let d = assemble_nvml_data(
        0,
        Ok(0),
        Ok((0, 0)),
        Ok(0),
        None,
        None,
        None,
        None,
        None,
        Some(111),
        None,
    )
    .unwrap();
    assert_eq!(d.pcie_throughput_tx_kbs, 0);
    assert_eq!(d.pcie_throughput_rx_kbs, 0);
}

// ── process entries ─────────────────────────────────────────────────────────

#[test]
fn process_entry_defaults_name_and_memory() {
    let p = make_process_entry(42, None, None);
    assert_eq!(p.pid, 42);
    assert_eq!(p.name, "unknown");
    assert_eq!(p.memory_usage, 0);
    assert_eq!(p.cpu_percent, 0);
}

#[test]
fn process_entry_keeps_reported_values() {
    let p = make_process_entry(7, Some("compositor".to_string()), Some(123456));
    assert_eq!(p.pid, 7);
    assert_eq!(p.name, "compositor");
    assert_eq!(p.memory_usage, 123456);
    assert_eq!(p.cpu_percent, 0);
}

// ── device discovery ────────────────────────────────────────────────────────

#[test]
fn discovery_picks_first_matching_card_in_ascending_order() {
    let entries = vec![
        entry("card2", &["DRIVER=amdgpu"]),
        entry("card0", &["DRIVER=other"]),
        entry("card1", &["DRIVER=amdgpu"]),
    ];
    let picked = select_card(&entries).unwrap();
    assert_eq!(entries[picked].name, "card1");
}

#[test]
fn discovery_excludes_connector_qualified_entries() {
    let entries = vec![
        entry("card0-DP-1", &["DRIVER=amdgpu"]),
        entry("renderD128", &["DRIVER=amdgpu"]),
    ];
    assert!(select_card(&entries).is_none());
}

#[test]
fn discovery_requires_the_target_driver_line() {
    let entries = vec![
        entry("card0", &["DRIVER=nouveau", "PCI_ID=10DE:2204"]),
        entry("card1", &[]),
    ];
    assert!(select_card(&entries).is_none());
}

#[test]
fn discovery_orders_names_byte_wise() {
    let entries = vec![
        entry("card2", &["DRIVER=amdgpu"]),
        entry("card10", &["DRIVER=amdgpu"]),
    ];
    let picked = select_card(&entries).unwrap();
    assert_eq!(entries[picked].name, "card10");
}

#[test]
fn selector_never_picks_the_kernel_backend_without_a_matching_entry() {
    // Whatever the machine offers Vendor-A, Vendor-B cannot be picked when
    // no enumeration entry matches.
    match select_backend(Vec::new()) {
        Some(Backend::Amdgpu(_)) => panic!("picked the kernel backend with no entries"),
        Some(Backend::Nvml(_)) | None => {}
    }
}

#[test]
fn amdgpu_construction_fails_without_entries() {
    let r = AmdgpuMonitor::new(Vec::new());
    match r {
        Err(MonitorError::SamplingFailed(m)) => assert_eq!(m, "No amdgpu device found"),
        _ => panic!("expected the discovery error"),
    }
}

#[test]
fn amdgpu_construction_with_a_match_reports_the_open_failure() {
    // The entry matches, but no such device directory exists here, so the
    // handle cannot be opened; the error must be the open failure, never the
    // discovery error.
    let entries = vec![entry("card7", &["DRIVER=amdgpu"])];
    match AmdgpuMonitor::new(entries) {
        Err(MonitorError::SamplingFailed(m)) => {
            assert_eq!(m, "amdgpu sysfs initialization failed")
        }
        _ => panic!("expected the open failure"),
    }
}

// ── fan duty-cycle conversion ───────────────────────────────────────────────

#[test]
fn fan_full_duty_cycle_is_one_hundred_percent() {
    assert_eq!(fan_pwm_to_percent(255), 100);
}

#[test]
fn fan_half_duty_cycle_floors_to_fifty_percent() {
    assert_eq!(fan_pwm_to_percent(128), 50);
}

#[test]
fn fan_zero_duty_cycle_is_zero_percent() {
    assert_eq!(fan_pwm_to_percent(0), 0);
}

// ── PCIe generation heuristic ───────────────────────────────────────────────

#[test]
fn pcie_gen_parses_known_speed_strings() {
    assert_eq!(pcie_gen_from_speed("8.0 GT/s"), 3);
    assert_eq!(pcie_gen_from_speed("16.0 GT/s"), 4);
    assert_eq!(pcie_gen_from_speed("32.0 GT/s PCIe"), 5);
    assert_eq!(pcie_gen_from_speed("2.5 GT/s PCIe"), 1);
}

#[test]
fn pcie_gen_unrecognized_string_is_zero() {
    assert_eq!(pcie_gen_from_speed("warp speed"), 0);
    assert_eq!(pcie_gen_from_speed(""), 0);
}

#[test]
fn pcie_gen_five_point_zero_hits_the_first_branch() {
    // The later generation-2 check for "5.0" is shadowed by this one: the
    // inherited ordering defect, kept for behavioural compatibility.
    assert_eq!(pcie_gen_from_speed("5.0 GT/s"), 5);
}

// ── link width parsing ──────────────────────────────────────────────────────

#[test]
fn link_width_parses_trimmed_decimal() {
    assert_eq!(parse_u32_trimmed("16\n"), 16);
    assert_eq!(parse_u32_trimmed(" 8 "), 8);
    assert_eq!(parse_u32_trimmed("0"), 0);
    assert_eq!(parse_u32_trimmed("4294967295"), u32::MAX);
}

#[test]
fn link_width_accepts_one_leading_plus_as_std_parse_does() {
    assert_eq!(parse_u32_trimmed("+16"), 16);
    assert_eq!(parse_u32_trimmed(" +8 "), 8);
    assert_eq!(parse_u32_trimmed("+"), 0);
    assert_eq!(parse_u32_trimmed("++16"), 0);
}

#[test]
fn link_width_unparsable_is_zero() {
    assert_eq!(parse_u32_trimmed(""), 0);
    assert_eq!(parse_u32_trimmed("x16"), 0);
    assert_eq!(parse_u32_trimmed("1 6"), 0);
    assert_eq!(parse_u32_trimmed("4294967296"), 0);
    assert_eq!(parse_u32_trimmed("99999999999"), 0);
}

// ── temperature selection ───────────────────────────────────────────────────

fn sensor(label: &str, v: Option<u32>) -> TempReading {
    TempReading { label: label.to_string(), current_c: v }
}

#[test]
fn temperature_prefers_edge_sensor() {
    let sensors = vec![sensor("junction", Some(72)), sensor("edge", Some(65))];
    assert_eq!(pick_temperature(&sensors), 65);
}

#[test]
fn temperature_falls_back_to_first_sensor() {
    let sensors = vec![sensor("junction", Some(72))];
    assert_eq!(pick_temperature(&sensors), 72);
}

#[test]
fn temperature_without_sensors_is_zero() {
    assert_eq!(pick_temperature(&Vec::new()), 0);
    let sensors = vec![sensor("edge", None)];
    assert_eq!(pick_temperature(&sensors), 0);
}

#[test]
fn temperature_without_a_hardware_monitor_is_zero() {
    assert_eq!(pick_temperature_of(None), 0);
    assert_eq!(pick_temperature_of(Some(vec![sensor("junction", Some(72))])), 72);
}

// ── the process list, row for row ───────────────────────────────────────────

#[test]
fn process_rows_carry_one_entry_per_process_in_order() {
    // Pids far above any live process: the metadata lookup fails for each,
    // so the names fall back to "unknown" while pid and memory pass through.
    let raw = vec![(4294967295, Some(512)), (4294967294, None)];
    let rows = build_process_rows(&raw);
    assert_eq!(rows.len(), 2);
    assert_eq!(rows[0].pid, 4294967295);
    assert_eq!(rows[0].memory_usage, 512);
    assert_eq!(rows[0].name, "unknown");
    assert_eq!(rows[0].cpu_percent, 0);
    assert_eq!(rows[1].pid, 4294967294);
    assert_eq!(rows[1].memory_usage, 0);
    assert_eq!(rows[1].name, "unknown");
    assert_eq!(rows[1].cpu_percent, 0);
}

#[test]
fn process_rows_empty_enumeration_yields_empty_list() {
    assert!(build_process_rows(&Vec::new()).is_empty());
}

// ── Vendor-B field policy ───────────────────────────────────────────────────

#[test]
fn amdgpu_sample_has_no_processes_and_no_pcie_throughput() {
    let d = assemble_amdgpu_data(
        5,
        Some(80),
        Some(1 << 30),
        Some(8 << 30),
        65,
        Some(2100),
        Some(1000),
        Some(35),
        Some(40),
        Some(300),
        Some(255),
    );
    assert_eq!(d.pcie_throughput_tx_kbs, 0);
    assert_eq!(d.pcie_throughput_rx_kbs, 0);
    assert_eq!(d.timestamp_ms, 5);
    assert_eq!(d.utilization_pct, 80);
    assert_eq!(d.memory_used_bytes, 1 << 30);
    assert_eq!(d.memory_total_bytes, 8 << 30);
    assert_eq!(d.temperature_c, 65);
    assert_eq!(d.gpu_clock_mhz, 2100);
    assert_eq!(d.memory_clock_mhz, 1000);
    assert_eq!(d.power_usage_mw, 35000);
    assert_eq!(d.power_limit_mw, 300000);
    assert_eq!(d.fan_speed_pct, 100);
}

#[test]
fn amdgpu_power_falls_back_to_instantaneous_reading() {
    let d = assemble_amdgpu_data(0, None, None, None, 0, None, None, None, Some(33), None, None);
    assert_eq!(d.power_usage_mw, 33000);
    assert_eq!(d.power_limit_mw, 0);
}

#[test]
fn amdgpu_missing_readings_default_to_zero() {
    let d = assemble_amdgpu_data(0, None, None, None, 0, None, None, None, None, None, None);
    assert_eq!(d.utilization_pct, 0);
    assert_eq!(d.memory_used_bytes, 0);
    assert_eq!(d.memory_total_bytes, 0);
    assert_eq!(d.gpu_clock_mhz, 0);
    assert_eq!(d.memory_clock_mhz, 0);
    assert_eq!(d.power_usage_mw, 0);
    assert_eq!(d.power_limit_mw, 0);
    assert_eq!(d.fan_speed_pct, 0);
}
