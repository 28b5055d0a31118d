//! End-to-end tests of the probes and the orchestrator over simulated
//! evidence.

use gpufetch::amd::detect_amd_gpus;
use gpufetch::common::DetectError;
use gpufetch::common::GpuVendor;
use gpufetch::evidence::DrmCardEvidence;
use gpufetch::evidence::IntelToolEvidence;
use gpufetch::evidence::PciCardEvidence;
use gpufetch::evidence::SystemEvidence;
use gpufetch::evidence::ToolResult;
use gpufetch::intel::detect_intel_gpus;
use gpufetch::intel::get_intel_driver_version;
use gpufetch::manager::GpuManager;
use gpufetch::nvidia::detect_nvidia_gpus;
use gpufetch::nvidia::nvidia_gpu_from_line;
use gpufetch::pci::create_gpu_info_from_pci;
use gpufetch::pci::detect_gpus_from_pci;
use gpufetch::pci::is_display_adapter;
use gpufetch::pci::read_pci_info;

fn blank_card(name: &str) -> DrmCardEvidence {
    DrmCardEvidence {
        name: name.to_string(),
        vendor: None,
        device: None,
        product_name: None,
        modalias: None,
        pp_dpm_sclk: None,
        mem_info_vram_total: None,
        gt_max_freq_mhz: None,
        gt_min_freq_mhz: None,
    }
}

fn no_intel_tools() -> IntelToolEvidence {
    IntelToolEvidence {
        tool_available: false,
        glx_version: ToolResult::Missing,
        glx_direct: ToolResult::Missing,
        modinfo: ToolResult::Missing,
    }
}

fn blank_pci_entry(name: &str) -> PciCardEvidence {
    PciCardEvidence {
        name: name.to_string(),
        vendor: None,
        device: None,
        class: None,
        pp_dpm_sclk: None,
        gt_max_freq_mhz: None,
    }
}

#[test]
fn amd_probe_from_modalias_and_clock_table() {
    // One device directory with the vendor attribute, no product name,
    // a modalias carrying the device code, and a marked clock table.
    let mut card = blank_card("card0");
    card.vendor = Some("0x1002\n".to_string());
    card.modalias = Some("pci:v00001002d00007480sv00001043sd000004F1bc03sc00i00\n".to_string());
    card.pp_dpm_sclk = Some("0: 500Mhz\n1: 1000Mhz\n2: 2100Mhz *".to_string());
    let gpus = detect_amd_gpus(&vec![card], &ToolResult::Missing);
    assert_eq!(gpus.len(), 1);
    let gpu = &gpus[0];
    assert_eq!(gpu.name, "AMD GPU (Device ID: 7480)");
    assert_eq!(gpu.vendor, GpuVendor::Amd);
    assert_eq!(gpu.freq_mhz, 2100);
    assert_eq!(gpu.max_freq_mhz, 2100);
}

#[test]
fn amd_probe_reads_memory_and_enhances_driver() {
    let mut card = blank_card("card1");
    card.vendor = Some("0x1002".to_string());
    card.product_name = Some(" AMD Radeon RX 6800 XT \n".to_string());
    card.mem_info_vram_total = Some("17163091968\n".to_string());
    card.pp_dpm_sclk = Some("0: 500Mhz\n1: 2250Mhz *".to_string());
    let rocm = ToolResult::Output(
        "==== System info ====\nDriver Version: 6.3.6\nother: x\n".to_string(),
    );
    let gpus = detect_amd_gpus(&vec![card], &rocm);
    assert_eq!(gpus.len(), 1);
    let gpu = &gpus[0];
    assert_eq!(gpu.name, "AMD Radeon RX 6800 XT");
    let memory = gpu.memory.as_ref().unwrap();
    assert_eq!(memory.size_bytes, 17163091968);
    assert_eq!(gpu.driver_version.as_deref(), Some("6.3.6"));
    assert_eq!(gpu.architecture, "RDNA 2");
    assert_eq!(gpu.chip, "Navi 21");
    // Peak throughput comes from the populated topology and clock.
    assert_eq!(
        gpu.peak_performance_mflops,
        Some(2 * 4608 * 2250)
    );
}

#[test]
fn amd_probe_skips_foreign_and_render_entries() {
    let mut other_vendor = blank_card("card0");
    other_vendor.vendor = Some("0x10de".to_string());
    let mut render = blank_card("renderD128");
    render.vendor = Some("0x1002".to_string());
    let mut misnamed = blank_card("version");
    misnamed.vendor = Some("0x1002".to_string());
    let gpus = detect_amd_gpus(
        &vec![other_vendor, render, misnamed],
        &ToolResult::Missing,
    );
    assert!(gpus.is_empty());
}

#[test]
fn nvidia_probe_parses_query_line() {
    let line = "GeForce RTX 3080, 525.60, 10240 MiB, 00000000:01:00.0, P0, 1710 MHz, 1500 MHz";
    let smi = ToolResult::Output(line.to_string());
    let gpus = detect_nvidia_gpus(&smi).unwrap();
    assert_eq!(gpus.len(), 1);
    let gpu = &gpus[0];
    assert_eq!(gpu.name, "GeForce RTX 3080");
    assert_eq!(gpu.vendor, GpuVendor::Nvidia);
    assert_eq!(gpu.driver_version.as_deref(), Some("525.60"));
    let memory = gpu.memory.as_ref().unwrap();
    assert_eq!(memory.size_bytes, 10240 * 1024 * 1024);
    assert_eq!(gpu.max_freq_mhz, 1710);
    assert_eq!(gpu.freq_mhz, 1500);
    assert_eq!(gpu.architecture, "Ampere");
    assert_eq!(gpu.compute_capability.as_deref(), Some("8.6"));
}

#[test]
fn nvidia_probe_outcomes() {
    assert_eq!(detect_nvidia_gpus(&ToolResult::Missing).unwrap().len(), 0);
    assert_eq!(
        detect_nvidia_gpus(&ToolResult::Failed).unwrap_err(),
        DetectError::CommandFailed
    );
    // A short line is skipped without failing the rest.
    let smi = ToolResult::Output(
        "short, line\nGeForce GTX 1070, 470.1, 8192 MiB, 0:1:0.0, P0, 1683 MHz, 139 MHz\n"
            .to_string(),
    );
    let gpus = detect_nvidia_gpus(&smi).unwrap();
    assert_eq!(gpus.len(), 1);
    assert_eq!(gpus[0].name, "GeForce GTX 1070");
}

#[test]
fn nvidia_line_with_few_fields_is_skipped() {
    assert!(nvidia_gpu_from_line("a, b, c, d, e, f").is_none());
    assert!(nvidia_gpu_from_line("").is_none());
}

#[test]
fn nvidia_line_with_empty_name_is_skipped() {
    // Every profile carries a non-empty name, so a line whose first
    // field trims to nothing yields none.
    assert!(nvidia_gpu_from_line("  , 525.60, 10240 MiB, 0:1:0.0, P0, 1710 MHz, 1500 MHz")
        .is_none());
}

#[test]
fn amd_blank_product_name_falls_back() {
    let mut card = blank_card("card0");
    card.vendor = Some("0x1002".to_string());
    card.device = Some("0x73bf\n".to_string());
    card.product_name = Some("   \n".to_string());
    let gpus = detect_amd_gpus(&vec![card], &ToolResult::Missing);
    assert_eq!(gpus.len(), 1);
    assert_eq!(gpus[0].name, "AMD GPU (Device ID: 73bf)");
}

#[test]
fn intel_probe_with_attributes_and_defaults() {
    let mut card = blank_card("card0");
    card.vendor = Some("0x8086\n".to_string());
    card.device = Some("0x9a49\n".to_string());
    card.gt_max_freq_mhz = Some("1450\n".to_string());
    card.gt_min_freq_mhz = Some("350\n".to_string());
    let gpus = detect_intel_gpus(&vec![card], &no_intel_tools());
    assert_eq!(gpus.len(), 1);
    let gpu = &gpus[0];
    assert_eq!(gpu.name, "Intel Iris Xe Graphics (96 EUs)");
    assert_eq!(gpu.vendor, GpuVendor::Intel);
    assert!(gpu.is_integrated);
    assert_eq!(gpu.max_freq_mhz, 1450);
    assert_eq!(gpu.freq_mhz, 350);
    assert_eq!(gpu.architecture, "Gen12 (Xe)");
    let topology = gpu.topology.as_ref().unwrap();
    assert_eq!(topology.execution_units, Some(96));
    // Peak throughput: sixteen lanes per execution unit and the
    // maximum clock.
    assert_eq!(gpu.peak_performance_mflops, Some(16 * 96 * 1450));

    // Without frequency attributes, the generation-keyed default holds.
    let mut bare = blank_card("card1");
    bare.vendor = Some("0x8086".to_string());
    bare.device = Some("0x9a49".to_string());
    let gpus = detect_intel_gpus(&vec![bare], &no_intel_tools());
    assert_eq!(gpus[0].max_freq_mhz, 1450);
    assert_eq!(gpus[0].freq_mhz, 1450);
}

#[test]
fn intel_blank_product_name_falls_back_to_id_map() {
    let mut card = blank_card("card0");
    card.vendor = Some("0x8086".to_string());
    card.device = Some("0x3e92".to_string());
    card.product_name = Some("   \n".to_string());
    let gpus = detect_intel_gpus(&vec![card], &no_intel_tools());
    assert_eq!(gpus[0].name, "Intel UHD Graphics 630");

    let mut named = blank_card("card0");
    named.vendor = Some("0x8086".to_string());
    named.device = Some("0x3e92".to_string());
    named.product_name = Some(" Custom Panel Graphics \n".to_string());
    let gpus = detect_intel_gpus(&vec![named], &no_intel_tools());
    assert_eq!(gpus[0].name, "Custom Panel Graphics");
}

#[test]
fn intel_driver_version_sources_in_order() {
    let mut tools = no_intel_tools();
    tools.tool_available = true;
    tools.glx_version = ToolResult::Output(
        "OpenGL version string: 4.6 (Compatibility Profile) Mesa 23.0.4\n".to_string(),
    );
    tools.modinfo = ToolResult::Output("1.2.3\n".to_string());
    assert_eq!(get_intel_driver_version(&tools).as_deref(), Some("23.0.4"));

    tools.glx_version = ToolResult::Failed;
    tools.glx_direct = ToolResult::Output("direct rendering: Yes\n".to_string());
    assert_eq!(
        get_intel_driver_version(&tools).as_deref(),
        Some("Mesa DRI Intel")
    );

    tools.glx_direct = ToolResult::Missing;
    assert_eq!(get_intel_driver_version(&tools).as_deref(), Some("i915 1.2.3"));

    tools.modinfo = ToolResult::Output("   \n".to_string());
    assert_eq!(get_intel_driver_version(&tools), None);
}

#[test]
fn pci_entry_parses_location_and_attributes() {
    // The standard textual location: domain, bus, device and function.
    let mut entry = blank_pci_entry("0000:01:00.0");
    entry.vendor = Some("0x10de\n".to_string());
    entry.device = Some("0x2206\n".to_string());
    entry.class = Some("0x030000\n".to_string());
    let info = read_pci_info(&entry).unwrap();
    assert_eq!(info.vendor_id, 0x10de);
    assert_eq!(info.device_id, 0x2206);
    assert_eq!(info.class_id, 0x0300);
    assert_eq!(info.domain, 0);
    assert_eq!(info.bus, 1);
    assert_eq!(info.device, 0);
    assert_eq!(info.function, 0);
    assert!(is_display_adapter(info.class_id));
    assert!(!is_display_adapter(0x0200));

    let mut multi = blank_pci_entry("0001:a2:1f.3");
    multi.vendor = Some("0x1002".to_string());
    multi.device = Some("0x73bf".to_string());
    multi.class = Some("0x030000".to_string());
    let info2 = read_pci_info(&multi).unwrap();
    assert_eq!(info2.domain, 1);
    assert_eq!(info2.bus, 0xa2);
    assert_eq!(info2.device, 0x1f);
    assert_eq!(info2.function, 3);

    // A malformed entry name rejects the whole entry.
    for bad_name in ["01:00.0", "0000:01:00", "junk", ""] {
        let mut bad = blank_pci_entry(bad_name);
        bad.vendor = Some("0x10de".to_string());
        bad.device = Some("0x2206".to_string());
        bad.class = Some("0x030000".to_string());
        assert!(read_pci_info(&bad).is_none());
    }
}

#[test]
fn pci_profile_resolves_names_from_database() {
    let mut entry = blank_pci_entry("0000:01:00.0");
    entry.vendor = Some("0x10de".to_string());
    entry.device = Some("0x2206".to_string());
    entry.class = Some("0x030000".to_string());
    let info = read_pci_info(&entry).unwrap();
    let gpu = create_gpu_info_from_pci(&info, &entry);
    assert_eq!(gpu.name, "NVIDIA Corporation GA102 [GeForce RTX 3080]");
    assert_eq!(gpu.vendor, GpuVendor::Nvidia);
    assert_eq!(gpu.pci_info.as_ref().unwrap().device_id, 0x2206);

    // An unlisted device falls back to its hexadecimal identifier.
    let mut unlisted = blank_pci_entry("0000:01:00.0");
    unlisted.vendor = Some("0x10de".to_string());
    unlisted.device = Some("0xfff0".to_string());
    unlisted.class = Some("0x030000".to_string());
    let info2 = read_pci_info(&unlisted).unwrap();
    let gpu2 = create_gpu_info_from_pci(&info2, &unlisted);
    assert_eq!(gpu2.name, "NVIDIA Corporation Device fff0");

    // An unlisted vendor falls back entirely, and keeps its raw label.
    let mut foreign = blank_pci_entry("0000:01:00.0");
    foreign.vendor = Some("0x0666".to_string());
    foreign.device = Some("0x0001".to_string());
    foreign.class = Some("0x030000".to_string());
    let info3 = read_pci_info(&foreign).unwrap();
    let gpu3 = create_gpu_info_from_pci(&info3, &foreign);
    assert_eq!(gpu3.name, "Unknown Device 0666:0001");
    assert_eq!(gpu3.vendor, GpuVendor::Other("Unknown (0x0666)".to_string()));
}

#[test]
fn pci_probe_filters_and_enriches() {
    let mut display = blank_pci_entry("0000:01:00.0");
    display.vendor = Some("0x1002".to_string());
    display.device = Some("0x73bf".to_string());
    display.class = Some("0x030000".to_string());
    display.pp_dpm_sclk = Some("0: 500Mhz\n2: 2100Mhz *".to_string());
    let mut network = blank_pci_entry("0000:02:00.0");
    network.vendor = Some("0x8086".to_string());
    network.device = Some("0x15f3".to_string());
    network.class = Some("0x020000".to_string());
    let gpus = detect_gpus_from_pci(Some(&vec![display, network])).unwrap();
    assert_eq!(gpus.len(), 1);
    // The second token of the table's last line, unit suffix removed.
    assert_eq!(gpus[0].freq_mhz, 2100);
    assert_eq!(gpus[0].max_freq_mhz, 2100);
}

#[test]
fn pci_probe_missing_root_is_the_hard_error() {
    assert_eq!(
        detect_gpus_from_pci(None).unwrap_err(),
        DetectError::PciUnavailable
    );
}

#[test]
fn orchestrator_prefers_vendor_probes_over_fallback() {
    // The Nvidia probe yields a device; the PCI directory is absent.
    // Were the fallback consulted, detection would fail — it must not.
    let line = "GeForce RTX 3080, 525.60, 10240 MiB, 0:1:0.0, P0, 1710 MHz, 1500 MHz";
    let evidence = SystemEvidence {
        nvidia_smi: ToolResult::Output(line.to_string()),
        drm_cards: vec![],
        rocm: ToolResult::Missing,
        intel_tools: no_intel_tools(),
        pci: None,
    };
    let manager = GpuManager::new().with_verbose(false);
    let gpus = manager.detect_gpus(&evidence).unwrap();
    assert_eq!(gpus.len(), 1);
    assert_eq!(gpus[0].name, "GeForce RTX 3080");
}

#[test]
fn orchestrator_concatenates_in_priority_order() {
    let line = "GeForce RTX 3080, 525.60, 10240 MiB, 0:1:0.0, P0, 1710 MHz, 1500 MHz";
    let mut amd_card = blank_card("card0");
    amd_card.vendor = Some("0x1002".to_string());
    amd_card.product_name = Some("Radeon RX 6800".to_string());
    let mut intel_card = blank_card("card1");
    intel_card.vendor = Some("0x8086".to_string());
    intel_card.device = Some("0x3e92".to_string());
    let evidence = SystemEvidence {
        nvidia_smi: ToolResult::Output(line.to_string()),
        drm_cards: vec![amd_card, intel_card],
        rocm: ToolResult::Missing,
        intel_tools: no_intel_tools(),
        pci: None,
    };
    let gpus = GpuManager::new().detect_gpus(&evidence).unwrap();
    assert_eq!(gpus.len(), 3);
    assert_eq!(gpus[0].vendor, GpuVendor::Nvidia);
    assert_eq!(gpus[1].vendor, GpuVendor::Amd);
    assert_eq!(gpus[2].vendor, GpuVendor::Intel);
}

#[test]
fn orchestrator_falls_back_only_when_empty() {
    // All vendor probes empty: the aggregate equals exactly the PCI
    // probe's output.
    let mut display = blank_pci_entry("0000:01:00.0");
    display.vendor = Some("0x1002".to_string());
    display.device = Some("0x73bf".to_string());
    display.class = Some("0x030000".to_string());
    let evidence = SystemEvidence {
        nvidia_smi: ToolResult::Missing,
        drm_cards: vec![],
        rocm: ToolResult::Missing,
        intel_tools: no_intel_tools(),
        pci: Some(vec![display.clone()]),
    };
    let gpus = GpuManager::new().detect_gpus(&evidence).unwrap();
    let direct = detect_gpus_from_pci(Some(&vec![display])).unwrap();
    assert_eq!(gpus, direct);
    assert_eq!(gpus.len(), 1);

    // All probes empty and the PCI directory absent: the hard error.
    let empty = SystemEvidence {
        nvidia_smi: ToolResult::Missing,
        drm_cards: vec![],
        rocm: ToolResult::Missing,
        intel_tools: no_intel_tools(),
        pci: None,
    };
    assert_eq!(
        GpuManager::new().detect_gpus(&empty).unwrap_err(),
        DetectError::PciUnavailable
    );
}

#[test]
fn detection_is_deterministic() {
    let line = "GeForce RTX 3080, 525.60, 10240 MiB, 0:1:0.0, P0, 1710 MHz, 1500 MHz";
    let evidence = SystemEvidence {
        nvidia_smi: ToolResult::Output(line.to_string()),
        drm_cards: vec![],
        rocm: ToolResult::Missing,
        intel_tools: no_intel_tools(),
        pci: None,
    };
    let manager = GpuManager::new();
    assert_eq!(
        manager.detect_gpus(&evidence).unwrap(),
        manager.detect_gpus(&evidence).unwrap()
    );
}
