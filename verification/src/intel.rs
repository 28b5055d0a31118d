//! The Intel probe: selects the vendor's entries of the
//! direct-rendering device directory, resolves each device's name from
//! the product-name attribute or a device-identifier map, reads or
//! defaults the clock bounds, and classifies by generation-keyed rule
//! tables.

use vstd::prelude::*;

use crate::common::Cache;
use crate::common::GpuInfo;
use crate::common::GpuInfoView;
use crate::common::GpuVendor;
use crate::common::GpuVendorView;
use crate::common::Memory;
use crate::common::MemoryType;
use crate::common::Topology;
use crate::common::profile_views;
use crate::evidence::DrmCardEvidence;
use crate::evidence::DrmCardEvidenceView;
use crate::evidence::IntelToolEvidence;
use crate::evidence::IntelToolEvidenceView;
use crate::evidence::ToolResult;
use crate::evidence::ToolResultView;
use crate::evidence::drm_views;
use crate::strutil::capture_after;
use crate::strutil::contains_lower;
use crate::strutil::contains_sub;
use crate::strutil::has_substring;
use crate::strutil::lower;
use crate::strutil::spec_capture_after;
use crate::strutil::spec_parse_dec;
use crate::strutil::spec_trim;
use crate::strutil::parse_u32_dec;
use crate::strutil::str_eq;
use crate::strutil::str_starts_with;
use crate::strutil::strip_0x;
use crate::strutil::strip_0x_exec;
use crate::strutil::trim;

verus! {

/// Display name for a known device identifier; unknown identifiers get
/// a labelled fallback.
pub open spec fn spec_intel_name_for_id(id: Seq<char>) -> Seq<char> {
    if id == "9a49"@ {
        "Intel Iris Xe Graphics (96 EUs)"@
    } else if id == "9a40"@ {
        "Intel Iris Xe Graphics (80 EUs)"@
    } else if id == "9a78"@ {
        "Intel UHD Graphics (32 EUs)"@
    } else if id == "4c8a"@ {
        "Intel UHD Graphics 750"@
    } else if id == "4c8b"@ {
        "Intel UHD Graphics 730"@
    } else if id == "4680"@ {
        "Intel UHD Graphics 770"@
    } else if id == "4690"@ {
        "Intel UHD Graphics 770"@
    } else if id == "4692"@ {
        "Intel UHD Graphics 730"@
    } else if id == "4693"@ {
        "Intel UHD Graphics 710"@
    } else if id == "8a52"@ {
        "Intel Iris Plus Graphics G7"@
    } else if id == "8a53"@ {
        "Intel Iris Plus Graphics G7"@
    } else if id == "8a5c"@ {
        "Intel Iris Plus Graphics G4"@
    } else if id == "8a5a"@ {
        "Intel Iris Plus Graphics G4"@
    } else if id == "8a51"@ {
        "Intel Iris Plus Graphics G1"@
    } else if id == "8a56"@ {
        "Intel UHD Graphics G1"@
    } else if id == "8a58"@ {
        "Intel UHD Graphics G1"@
    } else if id == "5917"@ {
        "Intel UHD Graphics 620"@
    } else if id == "3ea0"@ {
        "Intel UHD Graphics 620"@
    } else if id == "3e91"@ {
        "Intel UHD Graphics 630"@
    } else if id == "3e92"@ {
        "Intel UHD Graphics 630"@
    } else if id == "3e98"@ {
        "Intel UHD Graphics 630"@
    } else if id == "3e9b"@ {
        "Intel UHD Graphics 630"@
    } else if id == "9bc5"@ {
        "Intel UHD Graphics 630"@
    } else if id == "9bc8"@ {
        "Intel UHD Graphics 630"@
    } else if id == "5902"@ {
        "Intel HD Graphics 610"@
    } else if id == "5906"@ {
        "Intel HD Graphics 610"@
    } else if id == "590b"@ {
        "Intel HD Graphics 610"@
    } else if id == "591e"@ {
        "Intel HD Graphics 615"@
    } else if id == "5912"@ {
        "Intel HD Graphics 630"@
    } else if id == "591b"@ {
        "Intel HD Graphics 630"@
    } else if id == "591a"@ {
        "Intel HD Graphics P630"@
    } else if id == "591d"@ {
        "Intel HD Graphics P630"@
    } else if id == "5926"@ {
        "Intel Iris Plus Graphics 640"@
    } else if id == "5927"@ {
        "Intel Iris Plus Graphics 650"@
    } else if id == "3185"@ {
        "Intel UHD Graphics 600"@
    } else if id == "3184"@ {
        "Intel UHD Graphics 605"@
    } else if id == "1902"@ {
        "Intel HD Graphics 510"@
    } else if id == "1906"@ {
        "Intel HD Graphics 510"@
    } else if id == "190b"@ {
        "Intel HD Graphics 510"@
    } else if id == "191e"@ {
        "Intel HD Graphics 515"@
    } else if id == "1916"@ {
        "Intel HD Graphics 520"@
    } else if id == "1921"@ {
        "Intel HD Graphics 520"@
    } else if id == "1912"@ {
        "Intel HD Graphics 530"@
    } else if id == "191b"@ {
        "Intel HD Graphics 530"@
    } else if id == "191d"@ {
        "Intel HD Graphics P530"@
    } else if id == "1606"@ {
        "Intel HD Graphics (Broadwell)"@
    } else if id == "161e"@ {
        "Intel HD Graphics 5300"@
    } else if id == "1616"@ {
        "Intel HD Graphics 5500"@
    } else if id == "1612"@ {
        "Intel HD Graphics 5600"@
    } else if id == "161a"@ {
        "Intel HD Graphics P5700"@
    } else if id == "1626"@ {
        "Intel HD Graphics 6000"@
    } else if id == "162b"@ {
        "Intel Iris Graphics 6100"@
    } else if id == "1622"@ {
        "Intel Iris Pro Graphics 6200"@
    } else if id == "162a"@ {
        "Intel Iris Pro Graphics P6300"@
    } else if id == "0402"@ {
        "Intel HD Graphics (Haswell)"@
    } else if id == "0406"@ {
        "Intel HD Graphics (Haswell)"@
    } else if id == "040a"@ {
        "Intel HD Graphics (Haswell)"@
    } else if id == "0412"@ {
        "Intel HD Graphics 4600"@
    } else if id == "0416"@ {
        "Intel HD Graphics 4600"@
    } else if id == "041a"@ {
        "Intel HD Graphics P4600"@
    } else if id == "0a16"@ {
        "Intel HD Graphics 4400"@
    } else if id == "0a1e"@ {
        "Intel HD Graphics 4200"@
    } else if id == "0a2e"@ {
        "Intel Iris Graphics 5100"@
    } else if id == "0d22"@ {
        "Intel Iris Pro Graphics 5200"@
    } else if id == "0d26"@ {
        "Intel Iris Pro Graphics P5200"@
    } else if id == "0152"@ {
        "Intel HD Graphics 2500"@
    } else if id == "0156"@ {
        "Intel HD Graphics 2500"@
    } else if id == "0162"@ {
        "Intel HD Graphics 4000"@
    } else if id == "0166"@ {
        "Intel HD Graphics 4000"@
    } else if id == "016a"@ {
        "Intel HD Graphics P4000"@
    } else if id == "015a"@ {
        "Intel HD Graphics (Ivy Bridge)"@
    } else if id == "0f30"@ {
        "Intel HD Graphics (Bay Trail)"@
    } else if id == "0f31"@ {
        "Intel HD Graphics (Bay Trail)"@
    } else if id == "0f32"@ {
        "Intel HD Graphics (Bay Trail)"@
    } else if id == "0f33"@ {
        "Intel HD Graphics (Bay Trail)"@
    } else if id == "0155"@ {
        "Intel HD Graphics (Cherry Trail)"@
    } else if id == "0157"@ {
        "Intel HD Graphics (Cherry Trail)"@
    } else if id == "0102"@ {
        "Intel HD Graphics 2000"@
    } else if id == "0106"@ {
        "Intel HD Graphics 2000"@
    } else if id == "0112"@ {
        "Intel HD Graphics 3000"@
    } else if id == "0116"@ {
        "Intel HD Graphics 3000"@
    } else if id == "0122"@ {
        "Intel HD Graphics 3000"@
    } else if id == "0126"@ {
        "Intel HD Graphics 3000"@
    } else if id == "010a"@ {
        "Intel HD Graphics (Sandy Bridge)"@
    } else {
        "Intel GPU (Device ID: "@ + id + ", Generation Unknown)"@
    }
}

/// Maps a device identifier to its display name.
pub fn intel_name_for_device_id(device_id: &str) -> (r: String)
    ensures
        r@ == spec_intel_name_for_id(device_id@),
{
    if str_eq(device_id, "9a49") {
        String::from_str("Intel Iris Xe Graphics (96 EUs)")
    } else if str_eq(device_id, "9a40") {
        String::from_str("Intel Iris Xe Graphics (80 EUs)")
    } else if str_eq(device_id, "9a78") {
        String::from_str("Intel UHD Graphics (32 EUs)")
    } else if str_eq(device_id, "4c8a") {
        String::from_str("Intel UHD Graphics 750")
    } else if str_eq(device_id, "4c8b") {
        String::from_str("Intel UHD Graphics 730")
    } else if str_eq(device_id, "4680") {
        String::from_str("Intel UHD Graphics 770")
    } else if str_eq(device_id, "4690") {
        String::from_str("Intel UHD Graphics 770")
    } else if str_eq(device_id, "4692") {
        String::from_str("Intel UHD Graphics 730")
    } else if str_eq(device_id, "4693") {
        String::from_str("Intel UHD Graphics 710")
    } else if str_eq(device_id, "8a52") {
        String::from_str("Intel Iris Plus Graphics G7")
    } else if str_eq(device_id, "8a53") {
        String::from_str("Intel Iris Plus Graphics G7")
    } else if str_eq(device_id, "8a5c") {
        String::from_str("Intel Iris Plus Graphics G4")
    } else if str_eq(device_id, "8a5a") {
        String::from_str("Intel Iris Plus Graphics G4")
    } else if str_eq(device_id, "8a51") {
        String::from_str("Intel Iris Plus Graphics G1")
    } else if str_eq(device_id, "8a56") {
        String::from_str("Intel UHD Graphics G1")
    } else if str_eq(device_id, "8a58") {
        String::from_str("Intel UHD Graphics G1")
    } else if str_eq(device_id, "5917") {
        String::from_str("Intel UHD Graphics 620")
    } else if str_eq(device_id, "3ea0") {
        String::from_str("Intel UHD Graphics 620")
    } else if str_eq(device_id, "3e91") {
        String::from_str("Intel UHD Graphics 630")
    } else if str_eq(device_id, "3e92") {
        String::from_str("Intel UHD Graphics 630")
    } else if str_eq(device_id, "3e98") {
        String::from_str("Intel UHD Graphics 630")
    } else if str_eq(device_id, "3e9b") {
        String::from_str("Intel UHD Graphics 630")
    } else if str_eq(device_id, "9bc5") {
        String::from_str("Intel UHD Graphics 630")
    } else if str_eq(device_id, "9bc8") {
        String::from_str("Intel UHD Graphics 630")
    } else if str_eq(device_id, "5902") {
        String::from_str("Intel HD Graphics 610")
    } else if str_eq(device_id, "5906") {
        String::from_str("Intel HD Graphics 610")
    } else if str_eq(device_id, "590b") {
        String::from_str("Intel HD Graphics 610")
    } else if str_eq(device_id, "591e") {
        String::from_str("Intel HD Graphics 615")
    } else if str_eq(device_id, "5912") {
        String::from_str("Intel HD Graphics 630")
    } else if str_eq(device_id, "591b") {
        String::from_str("Intel HD Graphics 630")
    } else if str_eq(device_id, "591a") {
        String::from_str("Intel HD Graphics P630")
    } else if str_eq(device_id, "591d") {
        String::from_str("Intel HD Graphics P630")
    } else if str_eq(device_id, "5926") {
        String::from_str("Intel Iris Plus Graphics 640")
    } else if str_eq(device_id, "5927") {
        String::from_str("Intel Iris Plus Graphics 650")
    } else if str_eq(device_id, "3185") {
        String::from_str("Intel UHD Graphics 600")
    } else if str_eq(device_id, "3184") {
        String::from_str("Intel UHD Graphics 605")
    } else if str_eq(device_id, "1902") {
        String::from_str("Intel HD Graphics 510")
    } else if str_eq(device_id, "1906") {
        String::from_str("Intel HD Graphics 510")
    } else if str_eq(device_id, "190b") {
        String::from_str("Intel HD Graphics 510")
    } else if str_eq(device_id, "191e") {
        String::from_str("Intel HD Graphics 515")
    } else if str_eq(device_id, "1916") {
        String::from_str("Intel HD Graphics 520")
    } else if str_eq(device_id, "1921") {
        String::from_str("Intel HD Graphics 520")
    } else if str_eq(device_id, "1912") {
        String::from_str("Intel HD Graphics 530")
    } else if str_eq(device_id, "191b") {
        String::from_str("Intel HD Graphics 530")
    } else if str_eq(device_id, "191d") {
        String::from_str("Intel HD Graphics P530")
    } else if str_eq(device_id, "1606") {
        String::from_str("Intel HD Graphics (Broadwell)")
    } else if str_eq(device_id, "161e") {
        String::from_str("Intel HD Graphics 5300")
    } else if str_eq(device_id, "1616") {
        String::from_str("Intel HD Graphics 5500")
    } else if str_eq(device_id, "1612") {
        String::from_str("Intel HD Graphics 5600")
    } else if str_eq(device_id, "161a") {
        String::from_str("Intel HD Graphics P5700")
    } else if str_eq(device_id, "1626") {
        String::from_str("Intel HD Graphics 6000")
    } else if str_eq(device_id, "162b") {
        String::from_str("Intel Iris Graphics 6100")
    } else if str_eq(device_id, "1622") {
        String::from_str("Intel Iris Pro Graphics 6200")
    } else if str_eq(device_id, "162a") {
        String::from_str("Intel Iris Pro Graphics P6300")
    } else if str_eq(device_id, "0402") {
        String::from_str("Intel HD Graphics (Haswell)")
    } else if str_eq(device_id, "0406") {
        String::from_str("Intel HD Graphics (Haswell)")
    } else if str_eq(device_id, "040a") {
        String::from_str("Intel HD Graphics (Haswell)")
    } else if str_eq(device_id, "0412") {
        String::from_str("Intel HD Graphics 4600")
    } else if str_eq(device_id, "0416") {
        String::from_str("Intel HD Graphics 4600")
    } else if str_eq(device_id, "041a") {
        String::from_str("Intel HD Graphics P4600")
    } else if str_eq(device_id, "0a16") {
        String::from_str("Intel HD Graphics 4400")
    } else if str_eq(device_id, "0a1e") {
        String::from_str("Intel HD Graphics 4200")
    } else if str_eq(device_id, "0a2e") {
        String::from_str("Intel Iris Graphics 5100")
    } else if str_eq(device_id, "0d22") {
        String::from_str("Intel Iris Pro Graphics 5200")
    } else if str_eq(device_id, "0d26") {
        String::from_str("Intel Iris Pro Graphics P5200")
    } else if str_eq(device_id, "0152") {
        String::from_str("Intel HD Graphics 2500")
    } else if str_eq(device_id, "0156") {
        String::from_str("Intel HD Graphics 2500")
    } else if str_eq(device_id, "0162") {
        String::from_str("Intel HD Graphics 4000")
    } else if str_eq(device_id, "0166") {
        String::from_str("Intel HD Graphics 4000")
    } else if str_eq(device_id, "016a") {
        String::from_str("Intel HD Graphics P4000")
    } else if str_eq(device_id, "015a") {
        String::from_str("Intel HD Graphics (Ivy Bridge)")
    } else if str_eq(device_id, "0f30") {
        String::from_str("Intel HD Graphics (Bay Trail)")
    } else if str_eq(device_id, "0f31") {
        String::from_str("Intel HD Graphics (Bay Trail)")
    } else if str_eq(device_id, "0f32") {
        String::from_str("Intel HD Graphics (Bay Trail)")
    } else if str_eq(device_id, "0f33") {
        String::from_str("Intel HD Graphics (Bay Trail)")
    } else if str_eq(device_id, "0155") {
        String::from_str("Intel HD Graphics (Cherry Trail)")
    } else if str_eq(device_id, "0157") {
        String::from_str("Intel HD Graphics (Cherry Trail)")
    } else if str_eq(device_id, "0102") {
        String::from_str("Intel HD Graphics 2000")
    } else if str_eq(device_id, "0106") {
        String::from_str("Intel HD Graphics 2000")
    } else if str_eq(device_id, "0112") {
        String::from_str("Intel HD Graphics 3000")
    } else if str_eq(device_id, "0116") {
        String::from_str("Intel HD Graphics 3000")
    } else if str_eq(device_id, "0122") {
        String::from_str("Intel HD Graphics 3000")
    } else if str_eq(device_id, "0126") {
        String::from_str("Intel HD Graphics 3000")
    } else if str_eq(device_id, "010a") {
        String::from_str("Intel HD Graphics (Sandy Bridge)")
    } else {
        let r = String::from_str("Intel GPU (Device ID: ").concat(device_id).concat(
            ", Generation Unknown)",
        );
        proof {
            assert(r@ =~= spec_intel_name_for_id(device_id@));
        }
        r
    }
}

/// Architecture, chip, generation and process node by display name and
/// device-id prefix, first matching rule wins; generation zero stands
/// for "unknown".
pub open spec fn spec_intel_architecture(name: Seq<char>, id: Seq<char>) -> (
    Seq<char>,
    Seq<char>,
    u32,
    Option<u32>,
) {
    let l = lower(name);
    if has_substring(l, "iris xe"@) || "9a"@.is_prefix_of(id) || "4c8"@.is_prefix_of(id)
        || "468"@.is_prefix_of(id) || "469"@.is_prefix_of(id) {
        ("Gen12 (Xe)"@, "Gen12"@, 12u32, Some(10u32))
    } else if has_substring(l, "iris plus"@) || "8a"@.is_prefix_of(id) {
        ("Gen11"@, "Gen11"@, 11u32, Some(10u32))
    } else if has_substring(l, "uhd graphics"@) || has_substring(l, "hd graphics 6"@)
        || "3e"@.is_prefix_of(id) || "3184"@.is_prefix_of(id) || "3185"@.is_prefix_of(id)
        || "9bc"@.is_prefix_of(id) {
        ("Gen9.5"@, "Gen9.5"@, 10u32, Some(14u32))
    } else if has_substring(l, "hd graphics 5"@) || "19"@.is_prefix_of(id) {
        ("Gen9"@, "Gen9"@, 9u32, Some(14u32))
    } else if has_substring(l, "hd graphics"@) && (has_substring(l, "6000"@) || has_substring(
        l,
        "5500"@,
    ) || has_substring(l, "5300"@) || "16"@.is_prefix_of(id)) {
        ("Gen8 (Broadwell)"@, "Gen8"@, 8u32, Some(14u32))
    } else if has_substring(l, "hd graphics 4"@) || "04"@.is_prefix_of(id) || "0a"@.is_prefix_of(
        id,
    ) || "0d2"@.is_prefix_of(id) {
        ("Gen7.5 (Haswell)"@, "Gen7.5"@, 8u32, Some(22u32))
    } else if has_substring(l, "hd graphics 2500"@) || has_substring(l, "hd graphics 4000"@)
        || "015"@.is_prefix_of(id) || "016"@.is_prefix_of(id) || "0f3"@.is_prefix_of(id) {
        ("Gen7 (Ivy Bridge)"@, "Gen7"@, 7u32, Some(22u32))
    } else if has_substring(l, "hd graphics 2000"@) || has_substring(l, "hd graphics 3000"@)
        || "010"@.is_prefix_of(id) || "011"@.is_prefix_of(id) || "012"@.is_prefix_of(id) {
        ("Gen6 (Sandy Bridge)"@, "Gen6"@, 6u32, Some(32u32))
    } else {
        ("Unknown"@, "Unknown"@, 0u32, None)
    }
}

/// Architecture, chip, generation and process node for an Intel device.
pub fn get_intel_architecture(name: &str, device_id: &str) -> (r: (
    String,
    String,
    u32,
    Option<u32>,
))
    ensures
        (r.0@, r.1@, r.2, r.3) == spec_intel_architecture(name@, device_id@),
{
    if contains_lower(name, "iris xe") || str_starts_with(device_id, "9a") || str_starts_with(
        device_id,
        "4c8",
    ) || str_starts_with(device_id, "468") || str_starts_with(device_id, "469") {
        (String::from_str("Gen12 (Xe)"), String::from_str("Gen12"), 12, Some(10))
    } else if contains_lower(name, "iris plus") || str_starts_with(device_id, "8a") {
        (String::from_str("Gen11"), String::from_str("Gen11"), 11, Some(10))
    } else if contains_lower(name, "uhd graphics") || contains_lower(name, "hd graphics 6")
        || str_starts_with(device_id, "3e") || str_starts_with(device_id, "3184")
        || str_starts_with(device_id, "3185") || str_starts_with(device_id, "9bc") {
        (String::from_str("Gen9.5"), String::from_str("Gen9.5"), 10, Some(14))
    } else if contains_lower(name, "hd graphics 5") || str_starts_with(device_id, "19") {
        (String::from_str("Gen9"), String::from_str("Gen9"), 9, Some(14))
    } else if contains_lower(name, "hd graphics") && (contains_lower(name, "6000")
        || contains_lower(name, "5500") || contains_lower(name, "5300") || str_starts_with(
        device_id,
        "16",
    )) {
        (String::from_str("Gen8 (Broadwell)"), String::from_str("Gen8"), 8, Some(14))
    } else if contains_lower(name, "hd graphics 4") || str_starts_with(device_id, "04")
        || str_starts_with(device_id, "0a") || str_starts_with(device_id, "0d2") {
        (String::from_str("Gen7.5 (Haswell)"), String::from_str("Gen7.5"), 8, Some(22))
    } else if contains_lower(name, "hd graphics 2500") || contains_lower(name, "hd graphics 4000")
        || str_starts_with(device_id, "015") || str_starts_with(device_id, "016")
        || str_starts_with(device_id, "0f3") {
        (String::from_str("Gen7 (Ivy Bridge)"), String::from_str("Gen7"), 7, Some(22))
    } else if contains_lower(name, "hd graphics 2000") || contains_lower(name, "hd graphics 3000")
        || str_starts_with(device_id, "010") || str_starts_with(device_id, "011")
        || str_starts_with(device_id, "012") {
        (String::from_str("Gen6 (Sandy Bridge)"), String::from_str("Gen6"), 6, Some(32))
    } else {
        (String::from_str("Unknown"), String::from_str("Unknown"), 0, None)
    }
}

/// The system-memory block estimated for an integrated device by its
/// display name: technology, bus width and clock by generation, a fixed
/// nominal size.
pub open spec fn spec_intel_memory(name: Seq<char>) -> Option<Memory> {
    let l = lower(name);
    let memory_type = if has_substring(l, "iris xe"@) || has_substring(l, "gen12"@) {
        MemoryType::Ddr4
    } else if has_substring(l, "iris plus"@) || has_substring(l, "gen11"@) {
        MemoryType::Ddr4
    } else if has_substring(l, "uhd graphics"@) || has_substring(l, "hd graphics 6"@) {
        MemoryType::Ddr4
    } else if has_substring(l, "hd graphics 5"@) {
        MemoryType::Ddr3
    } else if has_substring(l, "hd graphics 4"@) {
        MemoryType::Ddr3
    } else {
        MemoryType::Ddr3
    };
    let bus_width: u32 = if has_substring(l, "iris xe"@) || has_substring(l, "gen12"@) {
        128
    } else if has_substring(l, "iris plus"@) || has_substring(l, "gen11"@) {
        128
    } else if has_substring(l, "uhd graphics"@) || has_substring(l, "hd graphics 6"@) {
        128
    } else {
        64
    };
    let clock_mhz: u32 = if has_substring(l, "iris xe"@) || has_substring(l, "gen12"@) {
        3200
    } else if has_substring(l, "iris plus"@) || has_substring(l, "gen11"@) {
        2933
    } else if has_substring(l, "uhd graphics"@) || has_substring(l, "hd graphics 6"@) {
        2666
    } else if has_substring(l, "hd graphics 5"@) {
        2133
    } else if has_substring(l, "hd graphics 4"@) {
        1600
    } else {
        1333
    };
    Some(
        Memory {
            size_bytes: (1024 * 1024 * 1024) as u64,
            memory_type: memory_type,
            bus_width: bus_width,
            clock_mhz: clock_mhz,
        },
    )
}

/// Memory block for an Intel device name.
pub fn get_intel_memory(name: &str) -> (r: Option<Memory>)
    ensures
        r == spec_intel_memory(name@),
{
    let memory_type = if contains_lower(name, "iris xe") || contains_lower(name, "gen12") {
        MemoryType::Ddr4
    } else if contains_lower(name, "iris plus") || contains_lower(name, "gen11") {
        MemoryType::Ddr4
    } else if contains_lower(name, "uhd graphics") || contains_lower(name, "hd graphics 6") {
        MemoryType::Ddr4
    } else if contains_lower(name, "hd graphics 5") {
        MemoryType::Ddr3
    } else if contains_lower(name, "hd graphics 4") {
        MemoryType::Ddr3
    } else {
        MemoryType::Ddr3
    };
    let bus_width: u32 = if contains_lower(name, "iris xe") || contains_lower(name, "gen12") {
        128
    } else if contains_lower(name, "iris plus") || contains_lower(name, "gen11") {
        128
    } else if contains_lower(name, "uhd graphics") || contains_lower(name, "hd graphics 6") {
        128
    } else {
        64
    };
    let clock_mhz: u32 = if contains_lower(name, "iris xe") || contains_lower(name, "gen12") {
        3200
    } else if contains_lower(name, "iris plus") || contains_lower(name, "gen11") {
        2933
    } else if contains_lower(name, "uhd graphics") || contains_lower(name, "hd graphics 6") {
        2666
    } else if contains_lower(name, "hd graphics 5") {
        2133
    } else if contains_lower(name, "hd graphics 4") {
        1600
    } else {
        1333
    };
    Some(Memory { size_bytes: 1024 * 1024 * 1024, memory_type, bus_width, clock_mhz })
}

/// Execution-unit count by display name, first matching rule wins.
pub open spec fn spec_intel_execution_units(name: Seq<char>) -> Option<u32> {
    let l = lower(name);
    if has_substring(l, "iris xe"@) && has_substring(l, "96"@) {
        Some(96u32)
    } else if has_substring(l, "iris xe"@) && has_substring(l, "80"@) {
        Some(80u32)
    } else if has_substring(l, "iris xe"@) || has_substring(l, "770"@) {
        Some(32u32)
    } else if has_substring(l, "750"@) {
        Some(32u32)
    } else if has_substring(l, "730"@) {
        Some(24u32)
    } else if has_substring(l, "710"@) {
        Some(16u32)
    } else if has_substring(l, "iris plus"@) && has_substring(l, "g7"@) {
        Some(64u32)
    } else if has_substring(l, "iris plus"@) && has_substring(l, "g4"@) {
        Some(48u32)
    } else if has_substring(l, "iris plus"@) || has_substring(l, "g1"@) {
        Some(32u32)
    } else if has_substring(l, "uhd graphics 630"@) {
        Some(24u32)
    } else if has_substring(l, "uhd graphics 620"@) {
        Some(24u32)
    } else if has_substring(l, "uhd graphics"@) {
        Some(24u32)
    } else if has_substring(l, "iris graphics"@) {
        Some(48u32)
    } else if has_substring(l, "iris pro"@) {
        Some(48u32)
    } else if has_substring(l, "hd graphics 6"@) {
        Some(48u32)
    } else if has_substring(l, "hd graphics 5"@) {
        Some(24u32)
    } else if has_substring(l, "hd graphics 4"@) {
        Some(20u32)
    } else if has_substring(l, "hd graphics 3"@) {
        Some(12u32)
    } else if has_substring(l, "hd graphics 2"@) {
        Some(6u32)
    } else {
        None
    }
}

fn get_intel_execution_units(name: &str) -> (r: Option<u32>)
    ensures
        r == spec_intel_execution_units(name@),
{
    if contains_lower(name, "iris xe") && contains_lower(name, "96") {
        Some(96)
    } else if contains_lower(name, "iris xe") && contains_lower(name, "80") {
        Some(80)
    } else if contains_lower(name, "iris xe") || contains_lower(name, "770") {
        Some(32)
    } else if contains_lower(name, "750") {
        Some(32)
    } else if contains_lower(name, "730") {
        Some(24)
    } else if contains_lower(name, "710") {
        Some(16)
    } else if contains_lower(name, "iris plus") && contains_lower(name, "g7") {
        Some(64)
    } else if contains_lower(name, "iris plus") && contains_lower(name, "g4") {
        Some(48)
    } else if contains_lower(name, "iris plus") || contains_lower(name, "g1") {
        Some(32)
    } else if contains_lower(name, "uhd graphics 630") {
        Some(24)
    } else if contains_lower(name, "uhd graphics 620") {
        Some(24)
    } else if contains_lower(name, "uhd graphics") {
        Some(24)
    } else if contains_lower(name, "iris graphics") {
        Some(48)
    } else if contains_lower(name, "iris pro") {
        Some(48)
    } else if contains_lower(name, "hd graphics 6") {
        Some(48)
    } else if contains_lower(name, "hd graphics 5") {
        Some(24)
    } else if contains_lower(name, "hd graphics 4") {
        Some(20)
    } else if contains_lower(name, "hd graphics 3") {
        Some(12)
    } else if contains_lower(name, "hd graphics 2") {
        Some(6)
    } else {
        None
    }
}

/// Slice and subslice structure by generation and execution-unit count.
pub open spec fn spec_intel_slices(name: Seq<char>, generation: u32, eu0: u32) -> (
    Option<u32>,
    Option<u32>,
) {
    let l = lower(name);
    if generation == 12 {
        if has_substring(l, "96"@) {
            (Some(1u32), Some(6u32))
        } else if has_substring(l, "80"@) {
            (Some(1u32), Some(5u32))
        } else if eu0 >= 32 {
            (Some(1u32), Some(2u32))
        } else {
            (Some(1u32), Some(1u32))
        }
    } else if generation == 11 {
        if eu0 >= 64 {
            (Some(1u32), Some(8u32))
        } else if eu0 >= 48 {
            (Some(1u32), Some(6u32))
        } else {
            (Some(1u32), Some(4u32))
        }
    } else if generation == 9 || generation == 10 {
        if eu0 >= 48 {
            (Some(3u32), Some(6u32))
        } else if eu0 >= 24 {
            (Some(1u32), Some(3u32))
        } else {
            (Some(1u32), Some(2u32))
        }
    } else if generation == 8 {
        if eu0 >= 48 {
            (Some(2u32), Some(6u32))
        } else {
            (Some(1u32), Some(3u32))
        }
    } else if generation == 7 {
        if eu0 >= 40 {
            (Some(1u32), Some(4u32))
        } else if eu0 >= 20 {
            (Some(1u32), Some(2u32))
        } else {
            (Some(1u32), Some(1u32))
        }
    } else if generation == 6 {
        if eu0 >= 12 {
            (Some(1u32), Some(2u32))
        } else {
            (Some(1u32), Some(1u32))
        }
    } else {
        (None, None)
    }
}

/// Topology by display name and generation: the execution-unit table
/// and the generation-keyed slice structure.
pub open spec fn spec_intel_topology(name: Seq<char>, generation: u32) -> Option<Topology> {
    match spec_intel_execution_units(name) {
        Some(eus) => {
            let sl = spec_intel_slices(name, generation, eus);
            Some(
                Topology {
                    compute_units: eus,
                    cuda_cores: None,
                    tensor_cores: None,
                    rt_cores: None,
                    sm_count: None,
                    stream_processors: None,
                    rops: None,
                    tmus: None,
                    execution_units: Some(eus),
                    slices: sl.0,
                    subslices: sl.1,
                },
            )
        },
        None => None,
    }
}

/// Compute topology for an Intel device name and generation.
pub fn get_intel_topology(name: &str, generation: u32) -> (r: Option<Topology>)
    ensures
        r == spec_intel_topology(name@, generation),
{
    let execution_units = get_intel_execution_units(name);
    match execution_units {
        Some(eus) => {
            let sl: (Option<u32>, Option<u32>) = if generation == 12 {
                if contains_lower(name, "96") {
                    (Some(1), Some(6))
                } else if contains_lower(name, "80") {
                    (Some(1), Some(5))
                } else if eus >= 32 {
                    (Some(1), Some(2))
                } else {
                    (Some(1), Some(1))
                }
            } else if generation == 11 {
                if eus >= 64 {
                    (Some(1), Some(8))
                } else if eus >= 48 {
                    (Some(1), Some(6))
                } else {
                    (Some(1), Some(4))
                }
            } else if generation == 9 || generation == 10 {
                if eus >= 48 {
                    (Some(3), Some(6))
                } else if eus >= 24 {
                    (Some(1), Some(3))
                } else {
                    (Some(1), Some(2))
                }
            } else if generation == 8 {
                if eus >= 48 {
                    (Some(2), Some(6))
                } else {
                    (Some(1), Some(3))
                }
            } else if generation == 7 {
                if eus >= 40 {
                    (Some(1), Some(4))
                } else if eus >= 20 {
                    (Some(1), Some(2))
                } else {
                    (Some(1), Some(1))
                }
            } else if generation == 6 {
                if eus >= 12 {
                    (Some(1), Some(2))
                } else {
                    (Some(1), Some(1))
                }
            } else {
                (None, None)
            };
            Some(
                Topology {
                    compute_units: eus,
                    cuda_cores: None,
                    tensor_cores: None,
                    rt_cores: None,
                    sm_count: None,
                    stream_processors: None,
                    rops: None,
                    tmus: None,
                    execution_units: Some(eus),
                    slices: sl.0,
                    subslices: sl.1,
                },
            )
        },
        None => None,
    }
}

/// Cache sizing by display name and generation: a name-keyed last-level
/// size and a generation-keyed second-level size.
pub open spec fn spec_intel_cache(name: Seq<char>, generation: u32) -> Option<Cache> {
    let l = lower(name);
    let l3_size: Option<u64> = if has_substring(l, "iris xe"@) && (has_substring(l, "96"@)
        || has_substring(l, "80"@)) {
        Some((16 * 1024 * 1024) as u64)
    } else if has_substring(l, "iris xe"@) {
        Some((8 * 1024 * 1024) as u64)
    } else if has_substring(l, "iris plus g7"@) {
        Some((1024 * 1024) as u64)
    } else if has_substring(l, "iris plus"@) {
        Some((768 * 1024) as u64)
    } else if has_substring(l, "iris pro"@) {
        Some((128 * 1024 * 1024) as u64)
    } else if has_substring(l, "iris graphics"@) {
        Some((48 * 1024 * 1024) as u64)
    } else {
        None
    };
    let l2_size: Option<u64> = if generation == 12 {
        Some((2 * 1024 * 1024) as u64)
    } else if generation == 11 {
        Some((1024 * 1024) as u64)
    } else if generation == 9 || generation == 10 {
        Some((768 * 1024) as u64)
    } else if generation == 8 {
        Some((512 * 1024) as u64)
    } else if generation == 7 {
        Some((256 * 1024) as u64)
    } else if generation == 6 {
        Some((128 * 1024) as u64)
    } else {
        None
    };
    Some(Cache { l1_size: None, l2_size: l2_size, l3_size: l3_size })
}

/// Cache block for an Intel device name and generation.
pub fn get_intel_cache(name: &str, generation: u32) -> (r: Option<Cache>)
    ensures
        r == spec_intel_cache(name@, generation),
{
    let l3_size: Option<u64> = if contains_lower(name, "iris xe") && (contains_lower(name, "96")
        || contains_lower(name, "80")) {
        Some(16 * 1024 * 1024)
    } else if contains_lower(name, "iris xe") {
        Some(8 * 1024 * 1024)
    } else if contains_lower(name, "iris plus g7") {
        Some(1024 * 1024)
    } else if contains_lower(name, "iris plus") {
        Some(768 * 1024)
    } else if contains_lower(name, "iris pro") {
        Some(128 * 1024 * 1024)
    } else if contains_lower(name, "iris graphics") {
        Some(48 * 1024 * 1024)
    } else {
        None
    };
    let l2_size: Option<u64> = if generation == 12 {
        Some(2 * 1024 * 1024)
    } else if generation == 11 {
        Some(1024 * 1024)
    } else if generation == 9 || generation == 10 {
        Some(768 * 1024)
    } else if generation == 8 {
        Some(512 * 1024)
    } else if generation == 7 {
        Some(256 * 1024)
    } else if generation == 6 {
        Some(128 * 1024)
    } else {
        None
    };
    Some(Cache { l1_size: None, l2_size, l3_size })
}

/// The plausible default maximum clock for a device whose frequency
/// attributes are absent, keyed by display name.
pub open spec fn spec_intel_default_freq(name: Seq<char>) -> u32 {
    let l = lower(name);
    if has_substring(l, "gen12"@) || has_substring(l, "iris xe"@) {
        1450
    } else if has_substring(l, "gen11"@) || has_substring(l, "iris plus"@) {
        1100
    } else if has_substring(l, "uhd graphics"@) {
        1150
    } else if has_substring(l, "hd graphics 6"@) {
        1100
    } else if has_substring(l, "hd graphics 5"@) {
        1050
    } else if has_substring(l, "hd graphics 4"@) {
        1150
    } else if has_substring(l, "hd graphics 3"@) {
        1150
    } else if has_substring(l, "hd graphics 2"@) {
        1100
    } else {
        1000
    }
}

fn intel_default_freq(name: &str) -> (r: u32)
    ensures
        r == spec_intel_default_freq(name@),
{
    if contains_lower(name, "gen12") || contains_lower(name, "iris xe") {
        1450
    } else if contains_lower(name, "gen11") || contains_lower(name, "iris plus") {
        1100
    } else if contains_lower(name, "uhd graphics") {
        1150
    } else if contains_lower(name, "hd graphics 6") {
        1100
    } else if contains_lower(name, "hd graphics 5") {
        1050
    } else if contains_lower(name, "hd graphics 4") {
        1150
    } else if contains_lower(name, "hd graphics 3") {
        1150
    } else if contains_lower(name, "hd graphics 2") {
        1100
    } else {
        1000
    }
}

/// The clock pair (maximum, current) the frequency attributes yield:
/// the two attributes where present, the current clock defaulting to
/// the maximum when its attribute is absent, and a name-keyed plausible
/// default when no maximum could be read.
pub open spec fn spec_intel_frequencies(ev: DrmCardEvidenceView, name: Seq<char>) -> (u32, u32) {
    let max0: u32 = match ev.gt_max_freq_mhz {
        Some(t) => match spec_parse_dec(spec_trim(t)) {
            Some(v) => if v <= u32::MAX {
                v as u32
            } else {
                0u32
            },
            None => 0u32,
        },
        None => 0u32,
    };
    let cur0: u32 = match ev.gt_min_freq_mhz {
        Some(t) => match spec_parse_dec(spec_trim(t)) {
            Some(v) => if v <= u32::MAX {
                v as u32
            } else {
                0u32
            },
            None => 0u32,
        },
        None => max0,
    };
    if max0 == 0 {
        let d = spec_intel_default_freq(name);
        (
            d,
            if cur0 == 0 {
                d
            } else {
                cur0
            },
        )
    } else {
        (max0, cur0)
    }
}

/// Reads the clock bounds from the frequency attributes into the
/// profile, defaulting as the specification above says.
pub fn read_intel_frequencies(ev: &DrmCardEvidence, gpu_info: &mut GpuInfo)
    ensures
        final(gpu_info)@ == (GpuInfoView {
            freq_mhz: spec_intel_frequencies(ev@, old(gpu_info)@.name).1,
            max_freq_mhz: spec_intel_frequencies(ev@, old(gpu_info)@.name).0,
            ..old(gpu_info)@
        }),
{
    let mut max_freq: u32 = 0;
    match &ev.gt_max_freq_mhz {
        Some(content) => {
            match parse_u32_dec(trim(content.as_str())) {
                Some(freq) => {
                    max_freq = freq;
                },
                None => {},
            }
        },
        None => {},
    }
    let mut cur_freq: u32 = 0;
    match &ev.gt_min_freq_mhz {
        Some(content) => {
            match parse_u32_dec(trim(content.as_str())) {
                Some(freq) => {
                    cur_freq = freq;
                },
                None => {},
            }
        },
        None => {
            cur_freq = max_freq;
        },
    }
    if max_freq == 0 {
        max_freq = intel_default_freq(gpu_info.name.as_str());
        if cur_freq == 0 {
            cur_freq = max_freq;
        }
    }
    gpu_info.max_freq_mhz = max_freq;
    gpu_info.freq_mhz = cur_freq;
    proof {
        assert(gpu_info@ =~= (GpuInfoView {
            freq_mhz: spec_intel_frequencies(ev@, old(gpu_info)@.name).1,
            max_freq_mhz: spec_intel_frequencies(ev@, old(gpu_info)@.name).0,
            ..old(gpu_info)@
        }));
    }
}

/// The display-server renderer version: the text after the version
/// marker on its line, then after the renderer-library marker.
pub open spec fn spec_mesa_version(o: Seq<char>) -> Option<Seq<char>> {
    match spec_capture_after(o, "OpenGL version string: "@) {
        Some(line) => spec_capture_after(line, " Mesa "@),
        None => None,
    }
}

/// The driver version from the version sources, each tried in sequence,
/// the first successful extraction winning.
pub open spec fn spec_intel_driver_sources(t: IntelToolEvidenceView) -> Option<Seq<char>> {
    let mesa = match t.glx_version {
        ToolResultView::Output(o) => spec_mesa_version(o),
        _ => None,
    };
    if mesa is Some {
        mesa
    } else {
        let direct: Option<Seq<char>> = match t.glx_direct {
            ToolResultView::Output(o) => if has_substring(o, "direct rendering: Yes"@) {
                Some("Mesa DRI Intel"@)
            } else {
                None
            },
            _ => None,
        };
        if direct is Some {
            direct
        } else {
            match t.modinfo {
                ToolResultView::Output(o) => if spec_trim(o).len() > 0 {
                    Some("i915 "@ + spec_trim(o))
                } else {
                    None
                },
                _ => None,
            }
        }
    }
}

/// Scrapes the driver version from the version sources, first
/// successful source wins.
pub fn get_intel_driver_version(tools: &IntelToolEvidence) -> (r: Option<String>)
    ensures
        r is Some <==> spec_intel_driver_sources(tools@) is Some,
        r is Some ==> r.unwrap()@ == spec_intel_driver_sources(tools@).unwrap(),
{
    match &tools.glx_version {
        ToolResult::Output(o) => {
            match capture_after(o.as_str(), "OpenGL version string: ") {
                Some(line) => {
                    match capture_after(line.as_str(), " Mesa ") {
                        Some(version) => {
                            return Some(version);
                        },
                        None => {},
                    }
                },
                None => {},
            }
        },
        _ => {},
    }
    match &tools.glx_direct {
        ToolResult::Output(o) => {
            if contains_sub(o.as_str(), "direct rendering: Yes") {
                return Some(String::from_str("Mesa DRI Intel"));
            }
        },
        _ => {},
    }
    match &tools.modinfo {
        ToolResult::Output(o) => {
            let version = trim(o.as_str());
            if version.unicode_len() > 0 {
                let r = String::from_str("i915 ").concat(version);
                proof {
                    assert(r@ =~= "i915 "@ + spec_trim(o@));
                }
                return Some(r);
            }
        },
        _ => {},
    }
    None
}

/// The device identifier read from the device attribute: trimmed, any
/// leading `0x` repetitions removed; a fixed placeholder when absent.
pub open spec fn spec_intel_device_id(ev: DrmCardEvidenceView) -> Seq<char> {
    match ev.device {
        Some(t) => strip_0x(spec_trim(t)),
        None => "unknown"@,
    }
}

/// The display name: the product-name attribute when present and
/// non-empty after trimming, else the device-identifier map.
pub open spec fn spec_intel_name(ev: DrmCardEvidenceView) -> Seq<char> {
    let by_id = spec_intel_name_for_id(spec_intel_device_id(ev));
    match ev.product_name {
        Some(t) => if spec_trim(t).len() > 0 {
            spec_trim(t)
        } else {
            by_id
        },
        None => by_id,
    }
}

/// The profile one selected device directory yields; such a device is
/// always marked integrated.
pub open spec fn spec_intel_profile(
    ev: DrmCardEvidenceView,
    tools: IntelToolEvidenceView,
) -> GpuInfoView {
    let device_id = spec_intel_device_id(ev);
    let name = spec_intel_name(ev);
    let freqs = spec_intel_frequencies(ev, name);
    let arch = spec_intel_architecture(name, device_id);
    let topology = spec_intel_topology(name, arch.2);
    let peak = match topology {
        Some(t) => match t.execution_units {
            Some(eus) => Some((16 * eus * freqs.0) as u64),
            None => None,
        },
        None => None,
    };
    GpuInfoView {
        name: name,
        vendor: GpuVendorView::Intel,
        architecture: arch.0,
        chip: arch.1,
        process_nm: arch.3,
        freq_mhz: freqs.1,
        max_freq_mhz: freqs.0,
        memory: spec_intel_memory(name),
        topology: topology,
        cache: spec_intel_cache(name, arch.2),
        pci_info: None,
        driver_version: if tools.tool_available {
            spec_intel_driver_sources(tools)
        } else {
            None
        },
        compute_capability: None,
        opengl_version: None,
        vulkan_version: None,
        opencl_version: None,
        peak_performance_mflops: peak,
        is_integrated: true,
    }
}

/// Builds the profile of one selected device directory from its
/// attribute evidence and the version-source evidence.
pub fn intel_gpu_info_from_evidence(ev: &DrmCardEvidence, tools: &IntelToolEvidence) -> (r:
    GpuInfo)
    ensures
        r@ == spec_intel_profile(ev@, tools@),
{
    let device_id: String = match &ev.device {
        Some(text) => String::from_str(strip_0x_exec(trim(text.as_str()))),
        None => String::from_str("unknown"),
    };
    let name: String = match &ev.product_name {
        Some(text) => {
            let trimmed = trim(text.as_str());
            if trimmed.unicode_len() > 0 {
                String::from_str(trimmed)
            } else {
                intel_name_for_device_id(device_id.as_str())
            }
        },
        None => intel_name_for_device_id(device_id.as_str()),
    };

    let mut gpu_info = GpuInfo::new(name.as_str(), GpuVendor::Intel);
    gpu_info.is_integrated = true;

    read_intel_frequencies(ev, &mut gpu_info);

    let arch = get_intel_architecture(name.as_str(), device_id.as_str());
    let generation = arch.2;
    gpu_info.architecture = arch.0;
    gpu_info.chip = arch.1;
    gpu_info.process_nm = arch.3;

    gpu_info.memory = get_intel_memory(name.as_str());
    gpu_info.topology = get_intel_topology(name.as_str(), generation);
    gpu_info.cache = get_intel_cache(name.as_str(), generation);

    match &gpu_info.topology {
        Some(topology) => {
            match topology.execution_units {
                Some(execution_units) => {
                    assert(execution_units <= 96);
                    let mf = gpu_info.max_freq_mhz;
                    assert(16 * (execution_units as int) * (mf as int) <= u64::MAX)
                        by (nonlinear_arith)
                        requires
                            execution_units <= 96,
                            mf <= u32::MAX,
                    ;
                    let peak = 16 * (execution_units as u64) * (mf as u64);
                    gpu_info.peak_performance_mflops = Some(peak);
                },
                None => {},
            }
        },
        None => {},
    }

    if tools.tool_available {
        gpu_info.driver_version = get_intel_driver_version(tools);
    }

    proof {
        assert(gpu_info@ =~= spec_intel_profile(ev@, tools@));
    }
    gpu_info
}

/// A device directory belongs to this probe: a non-render card entry
/// whose vendor attribute carries the Intel PCI vendor identifier.
pub open spec fn spec_intel_selected(ev: DrmCardEvidenceView) -> bool {
    &&& "card"@.is_prefix_of(ev.name)
    &&& !has_substring(ev.name, "renderD"@)
    &&& match ev.vendor {
        Some(v) => spec_trim(v) == "0x8086"@,
        None => false,
    }
}

fn intel_card_selected(ev: &DrmCardEvidence) -> (r: bool)
    ensures
        r == spec_intel_selected(ev@),
{
    if !str_starts_with(ev.name.as_str(), "card") {
        return false;
    }
    if contains_sub(ev.name.as_str(), "renderD") {
        return false;
    }
    match &ev.vendor {
        Some(v) => str_eq(trim(v.as_str()), "0x8086"),
        None => false,
    }
}

/// What the Intel probe yields: one profile per selected device
/// directory, in directory order.
pub open spec fn spec_detect_intel(
    cards: Seq<DrmCardEvidenceView>,
    tools: IntelToolEvidenceView,
) -> Seq<GpuInfoView>
    decreases cards.len(),
{
    if cards.len() == 0 {
        Seq::empty()
    } else {
        let rest = spec_detect_intel(cards.drop_last(), tools);
        if spec_intel_selected(cards.last()) {
            rest + seq![spec_intel_profile(cards.last(), tools)]
        } else {
            rest
        }
    }
}

/// The Intel probe over the device-directory evidence and the
/// version-source evidence.
pub fn detect_intel_gpus(cards: &Vec<DrmCardEvidence>, tools: &IntelToolEvidence) -> (r: Vec<
    GpuInfo,
>)
    ensures
        profile_views(r@) == spec_detect_intel(drm_views(cards@), tools@),
{
    let ghost cv = drm_views(cards@);
    let mut gpus: Vec<GpuInfo> = Vec::new();
    let n = cards.len();
    let mut i: usize = 0;
    proof {
        assert(profile_views(gpus@) =~= spec_detect_intel(cv.subrange(0, 0), tools@));
    }
    while i < n
        invariant
            n == cards.len(),
            drm_views(cards@) == cv,
            0 <= i <= n,
            profile_views(gpus@) =~= spec_detect_intel(cv.subrange(0, i as int), tools@),
        decreases n - i,
    {
        proof {
            assert(cards@[i as int]@ == cv[i as int]);
            assert(cv.subrange(0, i + 1).drop_last() =~= cv.subrange(0, i as int));
            assert(cv.subrange(0, i + 1).last() == cv[i as int]);
        }
        if intel_card_selected(&cards[i]) {
            let ghost pre = gpus@;
            let gpu = intel_gpu_info_from_evidence(&cards[i], tools);
            gpus.push(gpu);
            proof {
                assert(profile_views(gpus@) =~= profile_views(pre).push(gpu@));
            }
        }
        i = i + 1;
    }
    proof {
        assert(cv.subrange(0, n as int) =~= cv);
    }
    gpus
}

/// The topology of this vendor's devices populates only the fields that
/// describe this vendor; every other vendor's fields stay absent.
pub proof fn lemma_intel_topology_vendor_fields(name: Seq<char>, generation: u32)
    ensures
        spec_intel_topology(name, generation) matches Some(t) ==> {
            &&& t.cuda_cores is None
            &&& t.tensor_cores is None
            &&& t.rt_cores is None
            &&& t.sm_count is None
            &&& t.stream_processors is None
            &&& t.rops is None
            &&& t.tmus is None
            &&& t.execution_units is Some
        },
{
}

/// Every profile this probe yields is named and carries this vendor's
/// tag: the trimmed product name where non-empty, else a map entry or
/// labelled fallback that is never empty.
pub proof fn lemma_intel_profile_named(ev: DrmCardEvidenceView, tools: IntelToolEvidenceView)
    ensures
        spec_intel_profile(ev, tools).name.len() > 0,
        spec_intel_profile(ev, tools).vendor == GpuVendorView::Intel,
{
    reveal_strlit("Intel GPU (Device ID: ");
    reveal_strlit("Intel HD Graphics (Bay Trail)");
    reveal_strlit("Intel HD Graphics (Broadwell)");
    reveal_strlit("Intel HD Graphics (Cherry Trail)");
    reveal_strlit("Intel HD Graphics (Haswell)");
    reveal_strlit("Intel HD Graphics (Ivy Bridge)");
    reveal_strlit("Intel HD Graphics (Sandy Bridge)");
    reveal_strlit("Intel HD Graphics 2000");
    reveal_strlit("Intel HD Graphics 2500");
    reveal_strlit("Intel HD Graphics 3000");
    reveal_strlit("Intel HD Graphics 4000");
    reveal_strlit("Intel HD Graphics 4200");
    reveal_strlit("Intel HD Graphics 4400");
    reveal_strlit("Intel HD Graphics 4600");
    reveal_strlit("Intel HD Graphics 510");
    reveal_strlit("Intel HD Graphics 515");
    reveal_strlit("Intel HD Graphics 520");
    reveal_strlit("Intel HD Graphics 530");
    reveal_strlit("Intel HD Graphics 5300");
    reveal_strlit("Intel HD Graphics 5500");
    reveal_strlit("Intel HD Graphics 5600");
    reveal_strlit("Intel HD Graphics 6000");
    reveal_strlit("Intel HD Graphics 610");
    reveal_strlit("Intel HD Graphics 615");
    reveal_strlit("Intel HD Graphics 630");
    reveal_strlit("Intel HD Graphics P4000");
    reveal_strlit("Intel HD Graphics P4600");
    reveal_strlit("Intel HD Graphics P530");
    reveal_strlit("Intel HD Graphics P5700");
    reveal_strlit("Intel HD Graphics P630");
    reveal_strlit("Intel Iris Graphics 5100");
    reveal_strlit("Intel Iris Graphics 6100");
    reveal_strlit("Intel Iris Plus Graphics 640");
    reveal_strlit("Intel Iris Plus Graphics 650");
    reveal_strlit("Intel Iris Plus Graphics G1");
    reveal_strlit("Intel Iris Plus Graphics G4");
    reveal_strlit("Intel Iris Plus Graphics G7");
    reveal_strlit("Intel Iris Pro Graphics 5200");
    reveal_strlit("Intel Iris Pro Graphics 6200");
    reveal_strlit("Intel Iris Pro Graphics P5200");
    reveal_strlit("Intel Iris Pro Graphics P6300");
    reveal_strlit("Intel Iris Xe Graphics (80 EUs)");
    reveal_strlit("Intel Iris Xe Graphics (96 EUs)");
    reveal_strlit("Intel UHD Graphics (32 EUs)");
    reveal_strlit("Intel UHD Graphics 600");
    reveal_strlit("Intel UHD Graphics 605");
    reveal_strlit("Intel UHD Graphics 620");
    reveal_strlit("Intel UHD Graphics 630");
    reveal_strlit("Intel UHD Graphics 710");
    reveal_strlit("Intel UHD Graphics 730");
    reveal_strlit("Intel UHD Graphics 750");
    reveal_strlit("Intel UHD Graphics 770");
    reveal_strlit("Intel UHD Graphics G1");
    reveal_strlit("Intel GPU (Device ID: ");
}

/// Every profile this probe's detection yields is named and carries
/// this vendor's tag.
pub proof fn lemma_intel_detection_named(
    cards: Seq<DrmCardEvidenceView>,
    tools: IntelToolEvidenceView,
)
    ensures
        forall|i: int|
            0 <= i < spec_detect_intel(cards, tools).len() ==> (#[trigger] spec_detect_intel(
                cards,
                tools,
            )[i]).name.len() > 0 && spec_detect_intel(cards, tools)[i].vendor
                == GpuVendorView::Intel,
    decreases cards.len(),
{
    if cards.len() > 0 {
        lemma_intel_detection_named(cards.drop_last(), tools);
        lemma_intel_profile_named(cards.last(), tools);
    }
}

/// Classification determinism: two results of classifying the same
/// evidence are identical — the profile is a function of the evidence.
pub proof fn lemma_intel_classification_deterministic(
    ev: DrmCardEvidenceView,
    tools: IntelToolEvidenceView,
    r1: GpuInfoView,
    r2: GpuInfoView,
)
    requires
        r1 == spec_intel_profile(ev, tools),
        r2 == spec_intel_profile(ev, tools),
    ensures
        r1 == r2,
{
}

/// Unknown-input safety: a name and identifier matching no rule of the
/// architecture, topology or cache tables classify to the unknown
/// sentinel, with no topology and no cache sizes.
pub proof fn lemma_intel_unknown_classification(name: Seq<char>, id: Seq<char>)
    requires
        !has_substring(lower(name), "iris xe"@),
        !has_substring(lower(name), "iris plus"@),
        !has_substring(lower(name), "iris plus g7"@),
        !has_substring(lower(name), "iris graphics"@),
        !has_substring(lower(name), "iris pro"@),
        !has_substring(lower(name), "uhd graphics"@),
        !has_substring(lower(name), "uhd graphics 630"@),
        !has_substring(lower(name), "uhd graphics 620"@),
        !has_substring(lower(name), "hd graphics"@),
        !has_substring(lower(name), "hd graphics 6"@),
        !has_substring(lower(name), "hd graphics 5"@),
        !has_substring(lower(name), "hd graphics 4"@),
        !has_substring(lower(name), "hd graphics 3"@),
        !has_substring(lower(name), "hd graphics 2"@),
        !has_substring(lower(name), "hd graphics 2500"@),
        !has_substring(lower(name), "hd graphics 4000"@),
        !has_substring(lower(name), "hd graphics 2000"@),
        !has_substring(lower(name), "hd graphics 3000"@),
        !has_substring(lower(name), "96"@),
        !has_substring(lower(name), "80"@),
        !has_substring(lower(name), "770"@),
        !has_substring(lower(name), "750"@),
        !has_substring(lower(name), "730"@),
        !has_substring(lower(name), "710"@),
        !has_substring(lower(name), "g1"@),
        !has_substring(lower(name), "g4"@),
        !has_substring(lower(name), "g7"@),
        !"9a"@.is_prefix_of(id),
        !"4c8"@.is_prefix_of(id),
        !"468"@.is_prefix_of(id),
        !"469"@.is_prefix_of(id),
        !"8a"@.is_prefix_of(id),
        !"3e"@.is_prefix_of(id),
        !"3184"@.is_prefix_of(id),
        !"3185"@.is_prefix_of(id),
        !"9bc"@.is_prefix_of(id),
        !"19"@.is_prefix_of(id),
        !"16"@.is_prefix_of(id),
        !"04"@.is_prefix_of(id),
        !"0a"@.is_prefix_of(id),
        !"0d2"@.is_prefix_of(id),
        !"015"@.is_prefix_of(id),
        !"016"@.is_prefix_of(id),
        !"0f3"@.is_prefix_of(id),
        !"010"@.is_prefix_of(id),
        !"011"@.is_prefix_of(id),
        !"012"@.is_prefix_of(id),
    ensures
        spec_intel_architecture(name, id) == ("Unknown"@, "Unknown"@, 0u32, None::<u32>),
        spec_intel_topology(name, 0) is None,
        spec_intel_cache(name, 0) == Some(Cache { l1_size: None, l2_size: None, l3_size: None }),
{
}

} // verus!
