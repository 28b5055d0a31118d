//! Tests of the evidence parsers and text helpers.

use gpufetch::amd::modalias_code;
use gpufetch::amd::parse_amd_clock_table;
use gpufetch::amd::parse_sclk_line;
use gpufetch::common::GpuInfo;
use gpufetch::common::GpuVendor;
use gpufetch::common::Memory;
use gpufetch::common::MemoryType;
use gpufetch::nvidia::parse_nvidia_clock;
use gpufetch::nvidia::parse_nvidia_memory;
use gpufetch::strutil::contains_lower;
use gpufetch::strutil::hex_to_u64;
use gpufetch::strutil::parse_u32_dec;
use gpufetch::strutil::parse_u64_dec;
use gpufetch::strutil::trim;
use gpufetch::strutil::u16_to_hex4;
use gpufetch::strutil::u64_to_string;
use gpufetch::utils::format_size;

#[test]
fn nvidia_memory_field_parses() {
    assert_eq!(parse_nvidia_memory("10240 MiB"), Some(10240));
    assert_eq!(parse_nvidia_memory("  8192 MiB  "), Some(8192));
    assert_eq!(parse_nvidia_memory("[N/A]"), None);
    assert_eq!(parse_nvidia_memory("10240"), None);
    assert_eq!(parse_nvidia_memory("10240 MHz"), None);
}

#[test]
fn nvidia_clock_field_parses() {
    assert_eq!(parse_nvidia_clock("1710 MHz"), Some(1710));
    assert_eq!(parse_nvidia_clock("1500 MHz"), Some(1500));
    assert_eq!(parse_nvidia_clock("[N/A]"), None);
    assert_eq!(parse_nvidia_clock("1710 MiB"), None);
}

#[test]
fn amd_clock_line_parses() {
    assert_eq!(parse_sclk_line("0: 500Mhz"), Some((500, false)));
    assert_eq!(parse_sclk_line("2: 2100Mhz *"), Some((2100, true)));
    assert_eq!(parse_sclk_line("garbage"), None);
    assert_eq!(parse_sclk_line("2: Mhz"), None);
}

#[test]
fn amd_clock_table_takes_max_and_marked() {
    let table = "0: 500Mhz\n1: 1000Mhz\n2: 2100Mhz *";
    assert_eq!(parse_amd_clock_table(table), (2100, 2100));
    let marked_middle = "0: 500Mhz\n1: 1000Mhz *\n2: 2100Mhz";
    assert_eq!(parse_amd_clock_table(marked_middle), (2100, 1000));
}

#[test]
fn amd_clock_table_without_marker_falls_back_to_max() {
    let table = "0: 500Mhz\n1: 1000Mhz\n2: 2100Mhz";
    assert_eq!(parse_amd_clock_table(table), (2100, 2100));
}

#[test]
fn modalias_device_code_extraction() {
    let modalias = "pci:v00001002d00007480sv00001043sd000004F1bc03sc00i00";
    assert_eq!(modalias_code(modalias).as_deref(), Some("7480"));
    assert_eq!(modalias_code("pci:v00008086d00001912"), None);
    assert_eq!(modalias_code("pci:v00001002d0000xyzw"), None);
}

#[test]
fn hex_conversion_round_trips() {
    assert_eq!(hex_to_u64("0x1002"), Some(0x1002));
    assert_eq!(hex_to_u64("  8086  "), Some(0x8086));
    assert_eq!(hex_to_u64("0x0x10"), Some(0x10));
    assert_eq!(hex_to_u64("zz"), None);
    assert_eq!(hex_to_u64(""), None);
    assert_eq!(u16_to_hex4(0x1002), "1002");
    assert_eq!(u16_to_hex4(0x0abc), "0abc");
    assert_eq!(hex_to_u64(&u16_to_hex4(0xbeef)), Some(0xbeef));
}

#[test]
fn decimal_conversion_round_trips() {
    assert_eq!(u64_to_string(0), "0");
    assert_eq!(u64_to_string(10240), "10240");
    assert_eq!(parse_u64_dec(&u64_to_string(u64::MAX)), Some(u64::MAX));
    assert_eq!(parse_u64_dec("18446744073709551616"), None);
    assert_eq!(parse_u32_dec("4294967295"), Some(u32::MAX));
    assert_eq!(parse_u32_dec("4294967296"), None);
    assert_eq!(parse_u32_dec("+17"), Some(17));
    assert_eq!(parse_u32_dec(""), None);
    assert_eq!(parse_u32_dec("12a"), None);
}

#[test]
fn trim_and_substring_helpers() {
    assert_eq!(trim("  0x1002\n"), "0x1002");
    assert_eq!(trim(""), "");
    assert_eq!(trim(" \t\r\n "), "");
    assert!(contains_lower("GeForce RTX 3080", "rtx 30"));
    assert!(!contains_lower("GeForce RTX 3080", "rtx 40"));
}

#[test]
fn format_size_scales_units() {
    assert_eq!(format_size(512), "512 bytes");
    assert_eq!(format_size(1536), "1.50 KB");
    assert_eq!(format_size(1048576), "1.00 MB");
    assert_eq!(format_size(5 * 1024 * 1024 + 256 * 1024), "5.25 MB");
    assert_eq!(format_size(1073741824), "1.00 GB");
    assert_eq!(format_size(10 * 1024 * 1024 * 1024), "10.00 GB");
}

#[test]
fn format_size_rounds_ties_to_even() {
    // 1152/1024 = 1.125 and 1408/1024 = 1.375: the exact halves go to
    // the even hundredth, as float formatting of exact quotients does.
    assert_eq!(format_size(1152), "1.12 KB");
    assert_eq!(format_size(1408), "1.38 KB");
}

#[test]
fn memory_size_formats_at_boundaries() {
    // 1,048,576 KB, i.e. 1024 MB, reads as one gigabyte to one decimal.
    let mut gpu = GpuInfo::new("test", GpuVendor::Nvidia);
    gpu.memory = Some(Memory {
        size_bytes: 1048576 * 1024,
        memory_type: MemoryType::Gddr6,
        bus_width: 256,
        clock_mhz: 0,
    });
    assert_eq!(gpu.get_memory_size_readable(), "1.0 GB");

    // 512 MB stays in megabytes.
    gpu.memory = Some(Memory {
        size_bytes: 512 * 1024 * 1024,
        memory_type: MemoryType::Gddr6,
        bus_width: 256,
        clock_mhz: 0,
    });
    assert_eq!(gpu.get_memory_size_readable(), "512 MB");

    gpu.memory = None;
    assert_eq!(gpu.get_memory_size_readable(), "Unknown");
}

#[test]
fn memory_size_rounds_ties_to_even() {
    // 1280 MB is exactly 1.25 GB and 1792 MB exactly 1.75 GB: the
    // halves go to the even tenth.
    let mut gpu = GpuInfo::new("test", GpuVendor::Nvidia);
    gpu.memory = Some(Memory {
        size_bytes: 1280 * 1024 * 1024,
        memory_type: MemoryType::Gddr6,
        bus_width: 256,
        clock_mhz: 0,
    });
    assert_eq!(gpu.get_memory_size_readable(), "1.2 GB");
    gpu.memory = Some(Memory {
        size_bytes: 1792 * 1024 * 1024,
        memory_type: MemoryType::Gddr6,
        bus_width: 256,
        clock_mhz: 0,
    });
    assert_eq!(gpu.get_memory_size_readable(), "1.8 GB");
}

#[test]
fn display_labels() {
    assert_eq!(GpuVendor::Nvidia.label(), "NVIDIA");
    assert_eq!(GpuVendor::Amd.label(), "AMD");
    assert_eq!(GpuVendor::Intel.label(), "Intel");
    assert_eq!(GpuVendor::Arm.label(), "ARM");
    assert_eq!(GpuVendor::Other("Matrox".to_string()).label(), "Matrox");
    assert_eq!(MemoryType::Gddr6X.label(), "GDDR6X");
    assert_eq!(MemoryType::Hbm2.label(), "HBM2");
    assert_eq!(MemoryType::Unknown.label(), "Unknown");
}

#[test]
fn args_defaults() {
    let args = gpufetch::args::Args::default();
    assert_eq!(args.gpu_index, 0);
    assert!(!args.list_only);
    assert_eq!(args.color_scheme, gpufetch::args::ColorScheme::System);
    assert!(args.custom_colors.is_none());
    assert_eq!(args.logo_variant, gpufetch::args::LogoVariant::Normal);
    assert!(!args.detailed && !args.no_color && !args.verbose);
}

#[test]
fn readable_getters() {
    let mut gpu = GpuInfo::new("test", GpuVendor::Amd);
    assert_eq!(gpu.get_process_readable(), "Unknown");
    gpu.process_nm = Some(7);
    assert_eq!(gpu.get_process_readable(), "7 nm");
    assert_eq!(gpu.get_compute_units_readable(), "Unknown Compute Units");
    gpu.topology = gpufetch::amd::get_amd_topology("Radeon RX 6800 XT");
    assert_eq!(gpu.get_compute_units_readable(), "4608 Stream Processors");
}
