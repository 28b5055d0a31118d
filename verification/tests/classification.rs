//! Tests of the classification rule tables: determinism, rule
//! precedence, and unknown-input safety on concrete names.

use gpufetch::amd::get_amd_architecture;
use gpufetch::amd::get_amd_bus_width;
use gpufetch::amd::get_amd_cache;
use gpufetch::amd::get_amd_memory_type;
use gpufetch::amd::get_amd_topology;
use gpufetch::common::MemoryType;
use gpufetch::intel::get_intel_architecture;
use gpufetch::intel::get_intel_cache;
use gpufetch::intel::get_intel_memory;
use gpufetch::intel::get_intel_topology;
use gpufetch::intel::intel_name_for_device_id;
use gpufetch::nvidia::get_nvidia_architecture;
use gpufetch::nvidia::get_nvidia_bus_width;
use gpufetch::nvidia::get_nvidia_cache;
use gpufetch::nvidia::get_nvidia_chip;
use gpufetch::nvidia::get_nvidia_memory_type;
use gpufetch::nvidia::get_nvidia_process_nm;
use gpufetch::nvidia::get_nvidia_topology;

#[test]
fn classification_is_deterministic() {
    let name = "AMD Radeon RX 6800 XT";
    let id = "73bf";
    assert_eq!(
        get_amd_architecture(name, id),
        get_amd_architecture(name, id)
    );
    assert_eq!(get_amd_topology(name), get_amd_topology(name));
    assert_eq!(get_amd_cache(name), get_amd_cache(name));
    let nname = "NVIDIA GeForce RTX 3080";
    assert_eq!(get_nvidia_architecture(nname), get_nvidia_architecture(nname));
    assert_eq!(get_nvidia_topology(nname), get_nvidia_topology(nname));
    let iname = "Intel UHD Graphics 630";
    assert_eq!(
        get_intel_architecture(iname, "3e92"),
        get_intel_architecture(iname, "3e92")
    );
    assert_eq!(get_intel_topology(iname, 10), get_intel_topology(iname, 10));
}

#[test]
fn amd_rule_precedence_rx_6900() {
    // The name also satisfies the later generic catch-all through the
    // identifier, but the earlier-listed rule wins.
    let (arch, chip, process) = get_amd_architecture("Radeon RX 6900 XT", "6900");
    assert_eq!(arch, "RDNA 2");
    assert_eq!(chip, "Navi 21");
    assert_eq!(process, Some(7));
}

#[test]
fn nvidia_rule_precedence_rtx_3060_ti() {
    // "RTX 3060 Ti" matches both its own rule and the later "rtx 3060"
    // rule; the earlier one decides the bus width.
    assert_eq!(get_nvidia_bus_width("GeForce RTX 3060 Ti"), 256);
    assert_eq!(get_nvidia_bus_width("GeForce RTX 3060"), 192);
}

#[test]
fn unknown_amd_classification_is_safe() {
    let (arch, chip, process) = get_amd_architecture("Mystery Accelerator", "zz99");
    assert_eq!(arch, "Unknown");
    assert_eq!(chip, "Unknown");
    assert_eq!(process, None);
    assert!(get_amd_topology("Mystery Accelerator").is_none());
    let cache = get_amd_cache("Mystery Accelerator").unwrap();
    assert!(cache.l1_size.is_none());
    assert!(cache.l2_size.is_none());
    assert!(cache.l3_size.is_none());
}

#[test]
fn unknown_nvidia_classification_is_safe() {
    assert!(get_nvidia_architecture("Mystery Accelerator").is_none());
    assert!(get_nvidia_chip("Mystery Accelerator").is_none());
    assert!(get_nvidia_process_nm("Mystery Accelerator").is_none());
    assert!(get_nvidia_topology("Mystery Accelerator").is_none());
    let cache = get_nvidia_cache("Mystery Accelerator").unwrap();
    assert!(cache.l1_size.is_none());
    assert!(cache.l2_size.is_none());
    assert!(cache.l3_size.is_none());
}

#[test]
fn unknown_intel_classification_is_safe() {
    let (arch, chip, generation, process) =
        get_intel_architecture("Mystery Accelerator", "zz99");
    assert_eq!(arch, "Unknown");
    assert_eq!(chip, "Unknown");
    assert_eq!(generation, 0);
    assert_eq!(process, None);
    assert!(get_intel_topology("Mystery Accelerator", 0).is_none());
    let cache = get_intel_cache("Mystery Accelerator", 0).unwrap();
    assert!(cache.l1_size.is_none());
    assert!(cache.l2_size.is_none());
    assert!(cache.l3_size.is_none());
}

#[test]
fn classification_is_case_insensitive() {
    let (arch, chip, _) = get_amd_architecture("radeon rx 7900 xtx", "744c");
    assert_eq!(arch, "RDNA 3");
    assert_eq!(chip, "Navi 31");
    let (arch2, chip2, _) = get_amd_architecture("RADEON RX 7900 XTX", "744c");
    assert_eq!(arch2, arch);
    assert_eq!(chip2, chip);
}

#[test]
fn nvidia_tables_for_rtx_3080() {
    let name = "GeForce RTX 3080";
    assert_eq!(get_nvidia_memory_type(name), MemoryType::Gddr6X);
    assert_eq!(get_nvidia_bus_width(name), 384);
    let (arch, cap) = get_nvidia_architecture(name).unwrap();
    assert_eq!(arch, "Ampere");
    assert_eq!(cap, "8.6");
    assert_eq!(get_nvidia_chip(name).unwrap(), "GA102");
    assert_eq!(get_nvidia_process_nm(name), Some(8));
    let topology = get_nvidia_topology(name).unwrap();
    assert_eq!(topology.sm_count, Some(68));
    assert_eq!(topology.cuda_cores, Some(68 * 128));
    assert_eq!(topology.tensor_cores, Some(68 * 4));
    assert_eq!(topology.rt_cores, Some(68));
    let cache = get_nvidia_cache(name).unwrap();
    assert_eq!(cache.l2_size, Some(5 * 1024 * 1024));
}

#[test]
fn amd_tables_for_rx_6800_xt() {
    let name = "AMD Radeon RX 6800 XT";
    assert_eq!(get_amd_memory_type(name), MemoryType::Gddr6);
    assert_eq!(get_amd_bus_width(name), 256);
    let topology = get_amd_topology(name).unwrap();
    assert_eq!(topology.stream_processors, Some(4608));
    assert_eq!(topology.compute_units, 4608 / 64);
    assert_eq!(topology.rops, Some(128));
    assert_eq!(topology.tmus, Some(144));
    let cache = get_amd_cache(name).unwrap();
    assert_eq!(cache.l2_size, Some(512 * 1024));
    assert_eq!(cache.l3_size, Some(128 * 1024 * 1024));
}

#[test]
fn amd_newest_generation_has_wider_compute_units() {
    let topology = get_amd_topology("Radeon RX 7900 XTX").unwrap();
    assert_eq!(topology.stream_processors, Some(12288));
    assert_eq!(topology.compute_units, 12288 / 128);
}

#[test]
fn nvidia_generations_span_the_tables() {
    let (arch, cap) = get_nvidia_architecture("GeForce RTX 4090").unwrap();
    assert_eq!((arch.as_str(), cap.as_str()), ("Ada Lovelace", "8.9"));
    assert_eq!(get_nvidia_chip("GeForce RTX 4090").unwrap(), "AD102");
    assert_eq!(get_nvidia_process_nm("GeForce RTX 4090"), Some(4));
    assert_eq!(get_nvidia_memory_type("GeForce GTX 1070"), MemoryType::Gddr5);
    assert_eq!(get_nvidia_memory_type("GeForce GTX 1080"), MemoryType::Gddr5X);
    assert_eq!(get_nvidia_memory_type("Tesla V100"), MemoryType::Hbm2);
    let (arch, cap) = get_nvidia_architecture("GeForce GTX 780").unwrap();
    assert_eq!((arch.as_str(), cap.as_str()), ("Kepler", "3.5"));
    // Pascal and earlier have no tensor or ray-tracing cores.
    let topology = get_nvidia_topology("GeForce GTX 1080").unwrap();
    assert_eq!(topology.tensor_cores, None);
    assert_eq!(topology.rt_cores, None);
    let turing = get_nvidia_topology("GeForce RTX 2080").unwrap();
    assert_eq!(turing.cuda_cores, Some(46 * 64));
    assert_eq!(turing.tensor_cores, Some(46 * 8));
    assert_eq!(turing.rt_cores, Some(46));
}

#[test]
fn amd_generations_span_the_tables() {
    let (arch, chip, process) = get_amd_architecture("Radeon RX 5700 XT", "731f");
    assert_eq!((arch.as_str(), chip.as_str(), process), ("RDNA", "Navi 10", Some(7)));
    let (arch, chip, process) = get_amd_architecture("Radeon Vega 64", "687f");
    assert_eq!((arch.as_str(), chip.as_str(), process), ("Vega", "Vega 10/20", Some(7)));
    let (arch, _, process) = get_amd_architecture("Radeon RX 580", "67df");
    assert_eq!((arch.as_str(), process), ("Polaris", Some(14)));
    // The identifier prefix alone classifies when the name says nothing.
    let (arch, chip, _) = get_amd_architecture("some card", "73df");
    assert_eq!((arch.as_str(), chip.as_str()), ("RDNA 2", "Navi 22"));
    assert_eq!(get_amd_memory_type("Radeon VII"), MemoryType::Hbm2);
    assert_eq!(get_amd_bus_width("Radeon VII"), 4096);
    assert_eq!(get_amd_bus_width("Radeon RX 6400"), 64);
}

#[test]
fn intel_name_map_and_tables() {
    assert_eq!(
        intel_name_for_device_id("9a49"),
        "Intel Iris Xe Graphics (96 EUs)"
    );
    assert_eq!(intel_name_for_device_id("3e92"), "Intel UHD Graphics 630");
    assert_eq!(
        intel_name_for_device_id("beef"),
        "Intel GPU (Device ID: beef, Generation Unknown)"
    );
    let name = "Intel Iris Xe Graphics (96 EUs)";
    let (arch, chip, generation, process) = get_intel_architecture(name, "9a49");
    assert_eq!(arch, "Gen12 (Xe)");
    assert_eq!(chip, "Gen12");
    assert_eq!(generation, 12);
    assert_eq!(process, Some(10));
    let topology = get_intel_topology(name, generation).unwrap();
    assert_eq!(topology.execution_units, Some(96));
    assert_eq!(topology.slices, Some(1));
    assert_eq!(topology.subslices, Some(6));
    let memory = get_intel_memory(name).unwrap();
    assert_eq!(memory.memory_type, MemoryType::Ddr4);
    assert_eq!(memory.bus_width, 128);
    assert_eq!(memory.clock_mhz, 3200);
    let cache = get_intel_cache(name, generation).unwrap();
    assert_eq!(cache.l2_size, Some(2 * 1024 * 1024));
    assert_eq!(cache.l3_size, Some(16 * 1024 * 1024));
}
