//! The Nvidia probe: parses the vendor utility's comma-separated query
//! output, one line per device, and classifies each device by its
//! display name through the ordered rule tables below.

use vstd::prelude::*;

use crate::common::Cache;
use crate::common::DetectError;
use crate::common::GpuInfo;
use crate::common::GpuInfoView;
use crate::common::GpuVendor;
use crate::common::GpuVendorView;
use crate::common::Memory;
use crate::common::MemoryType;
use crate::common::Topology;
use crate::common::profile_views;
use crate::evidence::ToolResult;
use crate::evidence::ToolResultView;
use crate::strutil::contains_lower;
use crate::strutil::dec_val;
use crate::strutil::digit_run_end;
use crate::strutil::digit_run_end_exec;
use crate::strutil::has_substring;
use crate::strutil::is_digit;
use crate::strutil::is_digit_exec;
use crate::strutil::lemma_digit_run_end;
use crate::strutil::lines_of;
use crate::strutil::lower;
use crate::strutil::matches_at;
use crate::strutil::parse_digits_u64;
use crate::strutil::spec_lines;
use crate::strutil::spec_split;
use crate::strutil::spec_trim;
use crate::strutil::split_char;
use crate::strutil::trim;

verus! {

/// A run of digits starts at `p` (it is not preceded by another digit)
/// and is immediately followed by the text `unit`.
pub open spec fn unit_number_match_at(s: Seq<char>, unit: Seq<char>, p: int) -> bool {
    &&& 0 <= p < s.len()
    &&& is_digit(s[p])
    &&& (p == 0 || !is_digit(s[p - 1]))
    &&& matches_at(s, unit, digit_run_end(s, p))
}

/// The least digit-run start at or after `p` whose run is followed by
/// `unit`, or `-1`.
pub open spec fn first_unit_number_start(s: Seq<char>, unit: Seq<char>, p: int) -> int
    decreases s.len() - p + 1,
{
    if p >= s.len() {
        -1
    } else if unit_number_match_at(s, unit, p) {
        p
    } else {
        first_unit_number_start(s, unit, p + 1)
    }
}

proof fn lemma_first_unit_number_start(s: Seq<char>, unit: Seq<char>, p: int)
    requires
        0 <= p,
    ensures
        ({
            let q = first_unit_number_start(s, unit, p);
            &&& q == -1 ==> forall|k: int| k >= p ==> !unit_number_match_at(s, unit, k)
            &&& q != -1 ==> p <= q && unit_number_match_at(s, unit, q) && (forall|k: int|
                p <= k < q ==> !unit_number_match_at(s, unit, k))
        }),
    decreases s.len() - p + 1,
{
    if p >= s.len() {
    } else if unit_number_match_at(s, unit, p) {
    } else {
        lemma_first_unit_number_start(s, unit, p + 1);
    }
}

/// The value of the first digit run in `s` that is immediately followed
/// by the text `unit`.
pub open spec fn spec_number_before_unit(s: Seq<char>, unit: Seq<char>) -> Option<int> {
    let p = first_unit_number_start(s, unit, 0);
    if p >= 0 {
        Some(dec_val(s.subrange(p, digit_run_end(s, p))))
    } else {
        None
    }
}

/// Extracts the integer that precedes the unit suffix `unit` in `s`;
/// `None` when no digit run is followed by `unit`, or on overflow.
pub fn parse_number_with_unit(s: &str, unit: &str) -> (r: Option<u64>)
    ensures
        ({
            let n = spec_number_before_unit(s@, unit@);
            &&& r is Some <==> (n is Some && n.unwrap() <= u64::MAX)
            &&& r is Some ==> r.unwrap() == n.unwrap()
        }),
{
    proof {
        lemma_first_unit_number_start(s@, unit@, 0);
    }
    let len = s.unicode_len();
    let mut p: usize = 0;
    while p < len
        invariant
            len == s@.len(),
            0 <= p <= len,
            forall|k: int| 0 <= k < p ==> !unit_number_match_at(s@, unit@, k),
        decreases len - p,
    {
        let c = s.get_char(p);
        let starts_run = is_digit_exec(c) && (p == 0 || !is_digit_exec(s.get_char(p - 1)));
        if starts_run {
            let m = digit_run_end_exec(s, p);
            proof {
                lemma_digit_run_end(s@, p as int);
            }
            if unit.unicode_len() <= len - m && crate::strutil::matches_at_exec(s, unit, m) {
                proof {
                    assert(unit_number_match_at(s@, unit@, p as int));
                    lemma_first_unit_number_start(s@, unit@, 0);
                    let q = first_unit_number_start(s@, unit@, 0);
                    assert(q != -1 && q <= p && p <= q);
                }
                let run = s.substring_char(p, m);
                proof {
                    assert(m > p) by {
                        if m == p {
                            assert(!is_digit(s@[p as int]));
                        }
                    }
                    assert(crate::strutil::all_digits(run@)) by {
                        assert(forall|k: int|
                            0 <= k < run@.len() ==> run@[k] == s@[p + k]);
                    }
                    crate::strutil::lemma_dec_val_nonneg(run@);
                }
                return parse_digits_u64(run);
            }
        }
        proof {
            assert(!unit_number_match_at(s@, unit@, p as int));
        }
        p = p + 1;
    }
    proof {
        lemma_first_unit_number_start(s@, unit@, 0);
    }
    None
}

/// Total memory in mebibytes as reported in a utility output field.
pub fn parse_nvidia_memory(memory_str: &str) -> (r: Option<u64>)
    ensures
        ({
            let n = spec_number_before_unit(memory_str@, " MiB"@);
            &&& r is Some <==> (n is Some && n.unwrap() <= u64::MAX)
            &&& r is Some ==> r.unwrap() == n.unwrap()
        }),
{
    parse_number_with_unit(memory_str, " MiB")
}

/// A clock in megahertz as reported in a utility output field.
pub fn parse_nvidia_clock(clock_str: &str) -> (r: Option<u32>)
    ensures
        ({
            let n = spec_number_before_unit(clock_str@, " MHz"@);
            &&& r is Some <==> (n is Some && n.unwrap() <= u32::MAX)
            &&& r is Some ==> r.unwrap() == n.unwrap()
        }),
{
    match parse_number_with_unit(clock_str, " MHz") {
        Some(v) => {
            if v <= u32::MAX as u64 {
                Some(v as u32)
            } else {
                None
            }
        },
        None => None,
    }
}

/// Memory technology by display name, first matching rule wins.
pub open spec fn spec_nvidia_memory_type(name: Seq<char>) -> MemoryType {
    let l = lower(name);
    if has_substring(l, "rtx 30"@) || has_substring(l, "rtx 40"@) {
        MemoryType::Gddr6X
    } else if has_substring(l, "rtx 20"@) || has_substring(l, "gtx 16"@) || has_substring(
        l,
        "rtx a"@,
    ) {
        MemoryType::Gddr6
    } else if has_substring(l, "titan v"@) || has_substring(l, "tesla v"@) {
        MemoryType::Hbm2
    } else if has_substring(l, "titan x"@) || has_substring(l, "gtx 1080"@) {
        MemoryType::Gddr5X
    } else if has_substring(l, "gtx 9"@) || has_substring(l, "gtx 10"@) {
        MemoryType::Gddr5
    } else {
        MemoryType::Unknown
    }
}

/// Memory technology for an Nvidia device name.
pub fn get_nvidia_memory_type(name: &str) -> (r: MemoryType)
    ensures
        r == spec_nvidia_memory_type(name@),
{
    if contains_lower(name, "rtx 30") || contains_lower(name, "rtx 40") {
        MemoryType::Gddr6X
    } else if contains_lower(name, "rtx 20") || contains_lower(name, "gtx 16") || contains_lower(
        name,
        "rtx a",
    ) {
        MemoryType::Gddr6
    } else if contains_lower(name, "titan v") || contains_lower(name, "tesla v") {
        MemoryType::Hbm2
    } else if contains_lower(name, "titan x") || contains_lower(name, "gtx 1080") {
        MemoryType::Gddr5X
    } else if contains_lower(name, "gtx 9") || contains_lower(name, "gtx 10") {
        MemoryType::Gddr5
    } else {
        MemoryType::Unknown
    }
}

/// Memory bus width in bits by display name, first matching rule wins;
/// 256 is the catch-all estimate.
pub open spec fn spec_nvidia_bus_width(name: Seq<char>) -> u32 {
    let l = lower(name);
    if has_substring(l, "rtx 3090"@) || has_substring(l, "rtx 3080"@) || has_substring(
        l,
        "rtx 4090"@,
    ) || has_substring(l, "rtx 4080"@) {
        384
    } else if has_substring(l, "rtx 3070"@) || has_substring(l, "rtx 3060 ti"@) || has_substring(
        l,
        "rtx 4070"@,
    ) {
        256
    } else if has_substring(l, "rtx 3060"@) || has_substring(l, "rtx 4060"@) {
        192
    } else if has_substring(l, "rtx 3050"@) || has_substring(l, "rtx 4050"@) {
        128
    } else if has_substring(l, "rtx 2080"@) {
        256
    } else if has_substring(l, "rtx 2070"@) || has_substring(l, "rtx 2060"@) {
        192
    } else if has_substring(l, "gtx 1080"@) || has_substring(l, "gtx 1070"@) {
        256
    } else if has_substring(l, "gtx 1060"@) {
        192
    } else if has_substring(l, "gtx 1050"@) {
        128
    } else {
        256
    }
}

/// Estimated memory bus width for an Nvidia device name.
pub fn get_nvidia_bus_width(name: &str) -> (r: u32)
    ensures
        r == spec_nvidia_bus_width(name@),
{
    if contains_lower(name, "rtx 3090") || contains_lower(name, "rtx 3080") || contains_lower(
        name,
        "rtx 4090",
    ) || contains_lower(name, "rtx 4080") {
        384
    } else if contains_lower(name, "rtx 3070") || contains_lower(name, "rtx 3060 ti")
        || contains_lower(name, "rtx 4070") {
        256
    } else if contains_lower(name, "rtx 3060") || contains_lower(name, "rtx 4060") {
        192
    } else if contains_lower(name, "rtx 3050") || contains_lower(name, "rtx 4050") {
        128
    } else if contains_lower(name, "rtx 2080") {
        256
    } else if contains_lower(name, "rtx 2070") || contains_lower(name, "rtx 2060") {
        192
    } else if contains_lower(name, "gtx 1080") || contains_lower(name, "gtx 1070") {
        256
    } else if contains_lower(name, "gtx 1060") {
        192
    } else if contains_lower(name, "gtx 1050") {
        128
    } else {
        256
    }
}

/// Architecture and compute capability by display name, first matching
/// rule wins; unmatched names stay unclassified.
pub open spec fn spec_nvidia_architecture(name: Seq<char>) -> Option<(Seq<char>, Seq<char>)> {
    let l = lower(name);
    if has_substring(l, "rtx 40"@) {
        Some(("Ada Lovelace"@, "8.9"@))
    } else if has_substring(l, "rtx 30"@) {
        Some(("Ampere"@, "8.6"@))
    } else if has_substring(l, "a100"@) || has_substring(l, "a30"@) {
        Some(("Ampere"@, "8.0"@))
    } else if has_substring(l, "rtx 20"@) || has_substring(l, "gtx 16"@) {
        Some(("Turing"@, "7.5"@))
    } else if has_substring(l, "tesla v"@) || has_substring(l, "titan v"@) {
        Some(("Volta"@, "7.0"@))
    } else if has_substring(l, "gtx 10"@) || has_substring(l, "tesla p"@) {
        Some(("Pascal"@, "6.1"@))
    } else if has_substring(l, "tesla p100"@) {
        Some(("Pascal"@, "6.0"@))
    } else if has_substring(l, "gtx 9"@) || has_substring(l, "tesla m40"@) {
        Some(("Maxwell"@, "5.2"@))
    } else if has_substring(l, "gtx 750"@) || has_substring(l, "gtx 860m"@) {
        Some(("Maxwell"@, "5.0"@))
    } else if has_substring(l, "gtx 780"@) || has_substring(l, "tesla k"@) {
        Some(("Kepler"@, "3.5"@))
    } else {
        None
    }
}

/// Architecture name and compute capability for an Nvidia device name.
pub fn get_nvidia_architecture(name: &str) -> (r: Option<(String, String)>)
    ensures
        r is Some <==> spec_nvidia_architecture(name@) is Some,
        r is Some ==> (r.unwrap().0@, r.unwrap().1@) == spec_nvidia_architecture(name@).unwrap(),
{
    if contains_lower(name, "rtx 40") {
        Some((String::from_str("Ada Lovelace"), String::from_str("8.9")))
    } else if contains_lower(name, "rtx 30") {
        Some((String::from_str("Ampere"), String::from_str("8.6")))
    } else if contains_lower(name, "a100") || contains_lower(name, "a30") {
        Some((String::from_str("Ampere"), String::from_str("8.0")))
    } else if contains_lower(name, "rtx 20") || contains_lower(name, "gtx 16") {
        Some((String::from_str("Turing"), String::from_str("7.5")))
    } else if contains_lower(name, "tesla v") || contains_lower(name, "titan v") {
        Some((String::from_str("Volta"), String::from_str("7.0")))
    } else if contains_lower(name, "gtx 10") || contains_lower(name, "tesla p") {
        Some((String::from_str("Pascal"), String::from_str("6.1")))
    } else if contains_lower(name, "tesla p100") {
        Some((String::from_str("Pascal"), String::from_str("6.0")))
    } else if contains_lower(name, "gtx 9") || contains_lower(name, "tesla m40") {
        Some((String::from_str("Maxwell"), String::from_str("5.2")))
    } else if contains_lower(name, "gtx 750") || contains_lower(name, "gtx 860m") {
        Some((String::from_str("Maxwell"), String::from_str("5.0")))
    } else if contains_lower(name, "gtx 780") || contains_lower(name, "tesla k") {
        Some((String::from_str("Kepler"), String::from_str("3.5")))
    } else {
        None
    }
}

/// Chip codename by display name, first matching rule wins.
pub open spec fn spec_nvidia_chip(name: Seq<char>) -> Option<Seq<char>> {
    let l = lower(name);
    if has_substring(l, "rtx 4090"@) || has_substring(l, "rtx 4080"@) {
        Some("AD102"@)
    } else if has_substring(l, "rtx 4070"@) {
        Some("AD104"@)
    } else if has_substring(l, "rtx 4060"@) {
        Some("AD106"@)
    } else if has_substring(l, "rtx 4050"@) {
        Some("AD107"@)
    } else if has_substring(l, "rtx 3090"@) || has_substring(l, "rtx 3080"@) {
        Some("GA102"@)
    } else if has_substring(l, "rtx 3070"@) || has_substring(l, "rtx 3060 ti"@) {
        Some("GA104"@)
    } else if has_substring(l, "rtx 3060"@) {
        Some("GA106"@)
    } else if has_substring(l, "rtx 3050"@) {
        Some("GA107"@)
    } else if has_substring(l, "a100"@) {
        Some("GA100"@)
    } else if has_substring(l, "rtx 2080"@) {
        Some("TU102"@)
    } else if has_substring(l, "rtx 2070"@) || has_substring(l, "rtx 2060"@) {
        Some("TU106"@)
    } else if has_substring(l, "gtx 1660"@) || has_substring(l, "gtx 1650"@) {
        Some("TU116"@)
    } else {
        None
    }
}

/// Chip codename for an Nvidia device name.
pub fn get_nvidia_chip(name: &str) -> (r: Option<String>)
    ensures
        r is Some <==> spec_nvidia_chip(name@) is Some,
        r is Some ==> r.unwrap()@ == spec_nvidia_chip(name@).unwrap(),
{
    if contains_lower(name, "rtx 4090") || contains_lower(name, "rtx 4080") {
        Some(String::from_str("AD102"))
    } else if contains_lower(name, "rtx 4070") {
        Some(String::from_str("AD104"))
    } else if contains_lower(name, "rtx 4060") {
        Some(String::from_str("AD106"))
    } else if contains_lower(name, "rtx 4050") {
        Some(String::from_str("AD107"))
    } else if contains_lower(name, "rtx 3090") || contains_lower(name, "rtx 3080") {
        Some(String::from_str("GA102"))
    } else if contains_lower(name, "rtx 3070") || contains_lower(name, "rtx 3060 ti") {
        Some(String::from_str("GA104"))
    } else if contains_lower(name, "rtx 3060") {
        Some(String::from_str("GA106"))
    } else if contains_lower(name, "rtx 3050") {
        Some(String::from_str("GA107"))
    } else if contains_lower(name, "a100") {
        Some(String::from_str("GA100"))
    } else if contains_lower(name, "rtx 2080") {
        Some(String::from_str("TU102"))
    } else if contains_lower(name, "rtx 2070") || contains_lower(name, "rtx 2060") {
        Some(String::from_str("TU106"))
    } else if contains_lower(name, "gtx 1660") || contains_lower(name, "gtx 1650") {
        Some(String::from_str("TU116"))
    } else {
        None
    }
}

/// Process node in nanometers by display name, first matching rule wins.
pub open spec fn spec_nvidia_process_nm(name: Seq<char>) -> Option<u32> {
    let l = lower(name);
    if has_substring(l, "rtx 40"@) {
        Some(4u32)
    } else if has_substring(l, "rtx 30"@) || has_substring(l, "a100"@) {
        Some(8u32)
    } else if has_substring(l, "rtx 20"@) || has_substring(l, "gtx 16"@) {
        Some(12u32)
    } else if has_substring(l, "titan v"@) || has_substring(l, "tesla v"@) {
        Some(12u32)
    } else if has_substring(l, "gtx 10"@) || has_substring(l, "tesla p"@) {
        Some(16u32)
    } else if has_substring(l, "gtx 9"@) {
        Some(28u32)
    } else if has_substring(l, "gtx 750"@) || has_substring(l, "gtx 860m"@) {
        Some(28u32)
    } else {
        None
    }
}

/// Manufacturing process for an Nvidia device name.
pub fn get_nvidia_process_nm(name: &str) -> (r: Option<u32>)
    ensures
        r == spec_nvidia_process_nm(name@),
{
    if contains_lower(name, "rtx 40") {
        Some(4)
    } else if contains_lower(name, "rtx 30") || contains_lower(name, "a100") {
        Some(8)
    } else if contains_lower(name, "rtx 20") || contains_lower(name, "gtx 16") {
        Some(12)
    } else if contains_lower(name, "titan v") || contains_lower(name, "tesla v") {
        Some(12)
    } else if contains_lower(name, "gtx 10") || contains_lower(name, "tesla p") {
        Some(16)
    } else if contains_lower(name, "gtx 9") {
        Some(28)
    } else if contains_lower(name, "gtx 750") || contains_lower(name, "gtx 860m") {
        Some(28)
    } else {
        None
    }
}

/// Streaming-multiprocessor count and cores per multiprocessor by
/// display name, first matching rule wins.
pub open spec fn spec_nvidia_sm_shape(name: Seq<char>) -> Option<(u32, u32)> {
    let l = lower(name);
    if has_substring(l, "rtx 4090"@) {
        Some((128u32, 128u32))
    } else if has_substring(l, "rtx 4080"@) {
        Some((76u32, 128u32))
    } else if has_substring(l, "rtx 4070 ti"@) {
        Some((60u32, 128u32))
    } else if has_substring(l, "rtx 4070"@) {
        Some((46u32, 128u32))
    } else if has_substring(l, "rtx 4060 ti"@) {
        Some((34u32, 128u32))
    } else if has_substring(l, "rtx 3090"@) {
        Some((82u32, 128u32))
    } else if has_substring(l, "rtx 3080"@) {
        Some((68u32, 128u32))
    } else if has_substring(l, "rtx 3070"@) {
        Some((46u32, 128u32))
    } else if has_substring(l, "rtx 3060 ti"@) {
        Some((38u32, 128u32))
    } else if has_substring(l, "rtx 2080 ti"@) {
        Some((68u32, 64u32))
    } else if has_substring(l, "rtx 2080"@) {
        Some((46u32, 64u32))
    } else if has_substring(l, "rtx 2070"@) {
        Some((36u32, 64u32))
    } else if has_substring(l, "rtx 2060"@) {
        Some((30u32, 64u32))
    } else if has_substring(l, "gtx 1080 ti"@) {
        Some((28u32, 128u32))
    } else if has_substring(l, "gtx 1080"@) {
        Some((20u32, 128u32))
    } else if has_substring(l, "gtx 1070"@) {
        Some((15u32, 128u32))
    } else if has_substring(l, "gtx 1060"@) {
        Some((10u32, 128u32))
    } else {
        None
    }
}

/// Topology by display name: multiprocessor shape from the table above,
/// tensor and ray-tracing core counts derived from the product line.
pub open spec fn spec_nvidia_topology(name: Seq<char>) -> Option<Topology> {
    let l = lower(name);
    match spec_nvidia_sm_shape(name) {
        Some(shape) => {
            let sm_count = shape.0;
            let cuda_cores = (shape.0 * shape.1) as u32;
            let tensor_cores = if has_substring(l, "rtx 40"@) || has_substring(l, "rtx 30"@) {
                Some((sm_count * 4) as u32)
            } else if has_substring(l, "rtx 20"@) {
                Some((sm_count * 8) as u32)
            } else {
                None
            };
            let rt_cores = if has_substring(l, "rtx"@) {
                Some(sm_count)
            } else {
                None
            };
            Some(
                Topology {
                    compute_units: sm_count,
                    cuda_cores: Some(cuda_cores),
                    tensor_cores: tensor_cores,
                    rt_cores: rt_cores,
                    sm_count: Some(sm_count),
                    stream_processors: None,
                    rops: None,
                    tmus: None,
                    execution_units: None,
                    slices: None,
                    subslices: None,
                },
            )
        },
        None => None,
    }
}

fn get_nvidia_sm_shape(name: &str) -> (r: Option<(u32, u32)>)
    ensures
        r == spec_nvidia_sm_shape(name@),
{
    if contains_lower(name, "rtx 4090") {
        Some((128, 128))
    } else if contains_lower(name, "rtx 4080") {
        Some((76, 128))
    } else if contains_lower(name, "rtx 4070 ti") {
        Some((60, 128))
    } else if contains_lower(name, "rtx 4070") {
        Some((46, 128))
    } else if contains_lower(name, "rtx 4060 ti") {
        Some((34, 128))
    } else if contains_lower(name, "rtx 3090") {
        Some((82, 128))
    } else if contains_lower(name, "rtx 3080") {
        Some((68, 128))
    } else if contains_lower(name, "rtx 3070") {
        Some((46, 128))
    } else if contains_lower(name, "rtx 3060 ti") {
        Some((38, 128))
    } else if contains_lower(name, "rtx 2080 ti") {
        Some((68, 64))
    } else if contains_lower(name, "rtx 2080") {
        Some((46, 64))
    } else if contains_lower(name, "rtx 2070") {
        Some((36, 64))
    } else if contains_lower(name, "rtx 2060") {
        Some((30, 64))
    } else if contains_lower(name, "gtx 1080 ti") {
        Some((28, 128))
    } else if contains_lower(name, "gtx 1080") {
        Some((20, 128))
    } else if contains_lower(name, "gtx 1070") {
        Some((15, 128))
    } else if contains_lower(name, "gtx 1060") {
        Some((10, 128))
    } else {
        None
    }
}

/// Compute topology for an Nvidia device name.
pub fn get_nvidia_topology(name: &str) -> (r: Option<Topology>)
    ensures
        r == spec_nvidia_topology(name@),
{
    let shape = get_nvidia_sm_shape(name);
    match shape {
        Some(pair) => {
            let sm_count = pair.0;
            let cores_per_sm = pair.1;
            let cuda_cores = sm_count * cores_per_sm;
            let tensor_cores = if contains_lower(name, "rtx 40") || contains_lower(
                name,
                "rtx 30",
            ) {
                Some(sm_count * 4)
            } else if contains_lower(name, "rtx 20") {
                Some(sm_count * 8)
            } else {
                None
            };
            let rt_cores = if contains_lower(name, "rtx") {
                Some(sm_count)
            } else {
                None
            };
            Some(
                Topology {
                    compute_units: sm_count,
                    cuda_cores: Some(cuda_cores),
                    tensor_cores,
                    rt_cores,
                    sm_count: Some(sm_count),
                    stream_processors: None,
                    rops: None,
                    tmus: None,
                    execution_units: None,
                    slices: None,
                    subslices: None,
                },
            )
        },
        None => None,
    }
}

/// Second-level cache size by display name, first matching rule wins.
pub open spec fn spec_nvidia_l2_size(name: Seq<char>) -> Option<u64> {
    let l = lower(name);
    if has_substring(l, "rtx 4090"@) {
        Some((72 * 1024 * 1024) as u64)
    } else if has_substring(l, "rtx 4080"@) {
        Some((64 * 1024 * 1024) as u64)
    } else if has_substring(l, "rtx 4070"@) {
        Some((48 * 1024 * 1024) as u64)
    } else if has_substring(l, "rtx 4060"@) {
        Some((32 * 1024 * 1024) as u64)
    } else if has_substring(l, "rtx 3090"@) {
        Some((6 * 1024 * 1024) as u64)
    } else if has_substring(l, "rtx 3080"@) {
        Some((5 * 1024 * 1024) as u64)
    } else if has_substring(l, "rtx 3070"@) {
        Some((4 * 1024 * 1024) as u64)
    } else if has_substring(l, "rtx 3060"@) {
        Some((3 * 1024 * 1024) as u64)
    } else if has_substring(l, "rtx 2080 ti"@) {
        Some((6 * 1024 * 1024) as u64)
    } else if has_substring(l, "rtx 2080"@) {
        Some((4 * 1024 * 1024) as u64)
    } else if has_substring(l, "rtx 2070"@) {
        Some((4 * 1024 * 1024) as u64)
    } else if has_substring(l, "rtx 2060"@) {
        Some((3 * 1024 * 1024) as u64)
    } else if has_substring(l, "gtx 1080 ti"@) {
        Some((3 * 1024 * 1024) as u64)
    } else if has_substring(l, "gtx 1080"@) {
        Some((2 * 1024 * 1024) as u64)
    } else if has_substring(l, "gtx 1070"@) {
        Some((2 * 1024 * 1024) as u64)
    } else if has_substring(l, "gtx 1060"@) {
        Some((1536 * 1024) as u64)
    } else {
        None
    }
}

/// Cache sizing by display name: the level-two size where published,
/// level one and three not published for this vendor.
pub open spec fn spec_nvidia_cache(name: Seq<char>) -> Option<Cache> {
    Some(Cache { l1_size: None, l2_size: spec_nvidia_l2_size(name), l3_size: None })
}

/// The comma-separated fields of one utility output line, each trimmed.
pub open spec fn spec_nvidia_fields(line: Seq<char>) -> Seq<Seq<char>> {
    spec_split(line, ',').map_values(|f: Seq<char>| spec_trim(f))
}

fn fields_of_line(line: &str) -> (r: Vec<String>)
    ensures
        r.deep_view() == spec_nvidia_fields(line@),
{
    let parts = split_char(line, ',');
    let ghost pv = parts.deep_view();
    let mut r: Vec<String> = Vec::new();
    let n = parts.len();
    let mut i: usize = 0;
    while i < n
        invariant
            n == parts.len(),
            parts.deep_view() == pv,
            0 <= i <= n,
            r.deep_view() =~= pv.subrange(0, i as int).map_values(|f: Seq<char>| spec_trim(f)),
        decreases n - i,
    {
        let t = trim(parts[i].as_str());
        r.push(String::from_str(t));
        proof {
            assert(pv.subrange(0, i + 1).map_values(|f: Seq<char>| spec_trim(f)) =~= pv.subrange(
                0,
                i as int,
            ).map_values(|f: Seq<char>| spec_trim(f)).push(spec_trim(pv[i as int])));
        }
        i = i + 1;
    }
    proof {
        assert(pv.subrange(0, n as int) =~= pv);
    }
    r
}

/// The largest mebibyte count whose byte count still fits the size
/// field.
pub open spec fn max_reportable_mib() -> int {
    17592186044415
}

/// The profile one utility output line yields: `None` when the line has
/// fewer than the seven queried fields or an empty name field (a
/// profile always carries a non-empty name), otherwise a profile whose
/// every block comes from the fields and the name-keyed rule tables.
pub open spec fn spec_nvidia_profile_of_line(line: Seq<char>) -> Option<GpuInfoView> {
    let fields = spec_nvidia_fields(line);
    if fields.len() < 7 || fields[0].len() == 0 {
        None
    } else {
        let name = fields[0];
        let memory = match spec_number_before_unit(fields[2], " MiB"@) {
            Some(mb) => if mb <= max_reportable_mib() {
                Some(
                    Memory {
                        size_bytes: (mb * 1024 * 1024) as u64,
                        memory_type: spec_nvidia_memory_type(name),
                        bus_width: spec_nvidia_bus_width(name),
                        clock_mhz: 0,
                    },
                )
            } else {
                None
            },
            None => None,
        };
        let freq_mhz: u32 = match spec_number_before_unit(fields[6], " MHz"@) {
            Some(v) => if v <= u32::MAX {
                v as u32
            } else {
                0u32
            },
            None => 0u32,
        };
        let max_freq_mhz: u32 = match spec_number_before_unit(fields[5], " MHz"@) {
            Some(v) => if v <= u32::MAX {
                v as u32
            } else {
                0u32
            },
            None => 0u32,
        };
        let arch = spec_nvidia_architecture(name);
        let topology = spec_nvidia_topology(name);
        let peak = match topology {
            Some(t) => match t.cuda_cores {
                Some(cc) => Some((2 * cc * max_freq_mhz) as u64),
                None => None,
            },
            None => None,
        };
        Some(
            GpuInfoView {
                name: name,
                vendor: GpuVendorView::Nvidia,
                architecture: match arch {
                    Some(p) => p.0,
                    None => "Unknown"@,
                },
                chip: match spec_nvidia_chip(name) {
                    Some(c) => c,
                    None => "Unknown"@,
                },
                process_nm: spec_nvidia_process_nm(name),
                freq_mhz: freq_mhz,
                max_freq_mhz: max_freq_mhz,
                memory: memory,
                topology: topology,
                cache: spec_nvidia_cache(name),
                pci_info: None,
                driver_version: Some(fields[1]),
                compute_capability: match arch {
                    Some(p) => Some(p.1),
                    None => None,
                },
                opengl_version: None,
                vulkan_version: None,
                opencl_version: None,
                peak_performance_mflops: peak,
                is_integrated: false,
            },
        )
    }
}

/// Parses one utility output line into a profile; a line with fewer
/// than the seven queried fields, or an empty name field, is skipped.
pub fn nvidia_gpu_from_line(line: &str) -> (r: Option<GpuInfo>)
    ensures
        r is Some <==> spec_nvidia_profile_of_line(line@) is Some,
        r is Some ==> r.unwrap()@ == spec_nvidia_profile_of_line(line@).unwrap(),
{
    let fields = fields_of_line(line);
    let ghost fv = fields.deep_view();
    if fields.len() < 7 {
        return None;
    }
    let name = fields[0].as_str();
    proof {
        assert(name@ == fv[0]);
    }
    if name.unicode_len() == 0 {
        return None;
    }
    let mut gpu_info = GpuInfo::new(name, GpuVendor::Nvidia);
    gpu_info.driver_version = Some(fields[1].clone());
    proof {
        assert(fields[1]@ == fv[1]);
    }

    match parse_nvidia_memory(fields[2].as_str()) {
        Some(memory_mb) => {
            proof {
                assert(fields[2]@ == fv[2]);
            }
            if memory_mb <= 17592186044415 {
                gpu_info.memory = Some(
                    Memory {
                        size_bytes: memory_mb * 1024 * 1024,
                        memory_type: get_nvidia_memory_type(name),
                        bus_width: get_nvidia_bus_width(name),
                        clock_mhz: 0,
                    },
                );
            }
        },
        None => {
            proof {
                assert(fields[2]@ == fv[2]);
            }
        },
    }

    proof {
        assert(fields[6]@ == fv[6]);
        assert(fields[5]@ == fv[5]);
    }
    match parse_nvidia_clock(fields[6].as_str()) {
        Some(current_mhz) => {
            gpu_info.freq_mhz = current_mhz;
        },
        None => {},
    }
    match parse_nvidia_clock(fields[5].as_str()) {
        Some(max_mhz) => {
            gpu_info.max_freq_mhz = max_mhz;
        },
        None => {},
    }

    match get_nvidia_architecture(name) {
        Some(arch_pair) => {
            gpu_info.architecture = arch_pair.0;
            gpu_info.compute_capability = Some(arch_pair.1);
        },
        None => {},
    }
    match get_nvidia_chip(name) {
        Some(chip) => {
            gpu_info.chip = chip;
        },
        None => {},
    }
    gpu_info.process_nm = get_nvidia_process_nm(name);
    gpu_info.topology = get_nvidia_topology(name);
    gpu_info.cache = get_nvidia_cache(name);

    match &gpu_info.topology {
        Some(topology) => {
            match topology.cuda_cores {
                Some(cuda_cores) => {
                    assert(cuda_cores <= 16384);
                    let mf = gpu_info.max_freq_mhz;
                    assert(2 * (cuda_cores as int) * (mf as int) <= u64::MAX) by (nonlinear_arith)
                        requires
                            cuda_cores <= 16384,
                            mf <= u32::MAX,
                    ;
                    let peak = 2 * (cuda_cores as u64) * (mf as u64);
                    gpu_info.peak_performance_mflops = Some(peak);
                },
                None => {},
            }
        },
        None => {},
    }

    proof {
        assert(gpu_info@ =~= spec_nvidia_profile_of_line(line@).unwrap());
    }
    Some(gpu_info)
}

/// The profiles of a whole utility output, in line order, unparsable
/// lines skipped.
pub open spec fn collect_line_profiles(lines: Seq<Seq<char>>) -> Seq<GpuInfoView>
    decreases lines.len(),
{
    if lines.len() == 0 {
        Seq::empty()
    } else {
        collect_line_profiles(lines.drop_last()) + (match spec_nvidia_profile_of_line(
            lines.last(),
        ) {
            Some(v) => seq![v],
            None => Seq::<GpuInfoView>::empty(),
        })
    }
}

/// What the Nvidia probe yields for a given tool outcome: nothing when
/// the tool is missing, an error when it failed, else one profile per
/// parsable output line.
pub open spec fn spec_detect_nvidia(t: ToolResultView) -> Result<Seq<GpuInfoView>, DetectError> {
    match t {
        ToolResultView::Missing => Ok(Seq::empty()),
        ToolResultView::Failed => Err(DetectError::CommandFailed),
        ToolResultView::Output(out) => Ok(collect_line_profiles(spec_lines(out))),
    }
}

/// The Nvidia probe over the vendor utility's captured output.
pub fn detect_nvidia_gpus(smi: &ToolResult) -> (r: Result<Vec<GpuInfo>, DetectError>)
    ensures
        ({
            let s = spec_detect_nvidia(smi@);
            match r {
                Ok(v) => s is Ok && profile_views(v@) == s.unwrap(),
                Err(e) => s == Err::<Seq<GpuInfoView>, DetectError>(e),
            }
        }),
{
    match smi {
        ToolResult::Missing => {
            let v: Vec<GpuInfo> = Vec::new();
            proof {
                assert(profile_views(v@) =~= Seq::<GpuInfoView>::empty());
            }
            Ok(v)
        },
        ToolResult::Failed => Err(DetectError::CommandFailed),
        ToolResult::Output(out) => {
            let lines = lines_of(out.as_str());
            let ghost lv = lines.deep_view();
            let mut gpus: Vec<GpuInfo> = Vec::new();
            let n = lines.len();
            let mut i: usize = 0;
            proof {
                assert(profile_views(gpus@) =~= collect_line_profiles(lv.subrange(0, 0)));
            }
            while i < n
                invariant
                    n == lines.len(),
                    lines.deep_view() == lv,
                    0 <= i <= n,
                    profile_views(gpus@) =~= collect_line_profiles(lv.subrange(0, i as int)),
                decreases n - i,
            {
                proof {
                    assert(lines[i as int]@ == lv[i as int]);
                }
                match nvidia_gpu_from_line(lines[i].as_str()) {
                    Some(gpu) => {
                        let ghost pre = gpus@;
                        gpus.push(gpu);
                        proof {
                            assert(lv.subrange(0, i + 1).drop_last() =~= lv.subrange(0, i as int));
                            assert(profile_views(gpus@) =~= profile_views(pre).push(gpu@));
                        }
                    },
                    None => {
                        proof {
                            assert(lv.subrange(0, i + 1).drop_last() =~= lv.subrange(0, i as int));
                            assert(profile_views(gpus@) =~= collect_line_profiles(
                                lv.subrange(0, i + 1),
                            ));
                        }
                    },
                }
                i = i + 1;
            }
            proof {
                assert(lv.subrange(0, n as int) =~= lv);
            }
            Ok(gpus)
        },
    }
}

/// The topology of this vendor's devices populates only the fields that
/// describe this vendor; every other vendor's fields stay absent.
pub proof fn lemma_nvidia_topology_vendor_fields(name: Seq<char>)
    ensures
        spec_nvidia_topology(name) matches Some(t) ==> {
            &&& t.stream_processors is None
            &&& t.rops is None
            &&& t.tmus is None
            &&& t.execution_units is None
            &&& t.slices is None
            &&& t.subslices is None
            &&& t.cuda_cores is Some
            &&& t.sm_count is Some
        },
{
}

/// Every profile this probe yields is named and carries this vendor's
/// tag: the name is the line's first trimmed field, skipped when empty.
pub proof fn lemma_nvidia_profile_named(line: Seq<char>)
    ensures
        spec_nvidia_profile_of_line(line) matches Some(p) ==> p.name.len() > 0 && p.vendor
            == GpuVendorView::Nvidia,
{
}

proof fn lemma_collect_line_profiles_named(lines: Seq<Seq<char>>)
    ensures
        forall|i: int|
            0 <= i < collect_line_profiles(lines).len() ==> (#[trigger] collect_line_profiles(
                lines,
            )[i]).name.len() > 0 && collect_line_profiles(lines)[i].vendor
                == GpuVendorView::Nvidia,
    decreases lines.len(),
{
    if lines.len() > 0 {
        lemma_collect_line_profiles_named(lines.drop_last());
        lemma_nvidia_profile_named(lines.last());
    }
}

/// Every profile in a successful detection is named and carries this
/// vendor's tag.
pub proof fn lemma_nvidia_detection_named(t: ToolResultView)
    ensures
        spec_detect_nvidia(t) matches Ok(s) ==> forall|i: int|
            0 <= i < s.len() ==> (#[trigger] s[i]).name.len() > 0 && s[i].vendor
                == GpuVendorView::Nvidia,
{
    match t {
        ToolResultView::Output(out) => lemma_collect_line_profiles_named(spec_lines(out)),
        _ => (),
    }
}

/// Classification determinism: two results of parsing and classifying
/// the same output line are identical — the profile is a function of
/// the line.
pub proof fn lemma_nvidia_classification_deterministic(
    line: Seq<char>,
    r1: Option<GpuInfoView>,
    r2: Option<GpuInfoView>,
)
    requires
        r1 == spec_nvidia_profile_of_line(line),
        r2 == spec_nvidia_profile_of_line(line),
    ensures
        r1 == r2,
{
}

/// Rule precedence: a name carrying the `rtx 3060 ti` fragment takes
/// that rule's bus width — earliest listed wins — although the same
/// name also matches the later, narrower `rtx 3060` rule, provided the
/// one earlier rule does not fire.
pub proof fn lemma_nvidia_rule_precedence(name: Seq<char>)
    requires
        has_substring(lower(name), "rtx 3060 ti"@),
        !has_substring(lower(name), "rtx 3090"@),
        !has_substring(lower(name), "rtx 3080"@),
        !has_substring(lower(name), "rtx 4090"@),
        !has_substring(lower(name), "rtx 4080"@),
        !has_substring(lower(name), "rtx 3070"@),
        !has_substring(lower(name), "rtx 4070"@),
    ensures
        has_substring(lower(name), "rtx 3060"@),
        spec_nvidia_bus_width(name) == 256,
{
    let l = lower(name);
    let i = choose|i: int| matches_at(l, "rtx 3060 ti"@, i);
    assert(matches_at(l, "rtx 3060"@, i)) by {
        reveal_strlit("rtx 3060 ti");
        reveal_strlit("rtx 3060");
        assert(l.subrange(i, i + 8) =~= "rtx 3060"@) by {
            assert(forall|k: int|
                0 <= k < 11 ==> l[i + k] == #[trigger] "rtx 3060 ti"@[k]) by {
                assert(forall|k: int|
                    0 <= k < 11 ==> #[trigger] l.subrange(i, i + 11)[k] == l[i + k]);
            }
        }
    }
}

/// Unknown-input safety: a name matching no rule of the architecture,
/// topology or cache tables classifies to the unknown sentinel, with no
/// topology and no cache sizes.
pub proof fn lemma_nvidia_unknown_classification(name: Seq<char>)
    requires
        !has_substring(lower(name), "rtx 40"@),
        !has_substring(lower(name), "rtx 30"@),
        !has_substring(lower(name), "rtx 20"@),
        !has_substring(lower(name), "rtx 4090"@),
        !has_substring(lower(name), "rtx 4080"@),
        !has_substring(lower(name), "rtx 4070 ti"@),
        !has_substring(lower(name), "rtx 4070"@),
        !has_substring(lower(name), "rtx 4060 ti"@),
        !has_substring(lower(name), "rtx 4060"@),
        !has_substring(lower(name), "rtx 3090"@),
        !has_substring(lower(name), "rtx 3080"@),
        !has_substring(lower(name), "rtx 3070"@),
        !has_substring(lower(name), "rtx 3060 ti"@),
        !has_substring(lower(name), "rtx 3060"@),
        !has_substring(lower(name), "rtx 2080 ti"@),
        !has_substring(lower(name), "rtx 2080"@),
        !has_substring(lower(name), "rtx 2070"@),
        !has_substring(lower(name), "rtx 2060"@),
        !has_substring(lower(name), "gtx 16"@),
        !has_substring(lower(name), "gtx 10"@),
        !has_substring(lower(name), "gtx 1080 ti"@),
        !has_substring(lower(name), "gtx 1080"@),
        !has_substring(lower(name), "gtx 1070"@),
        !has_substring(lower(name), "gtx 1060"@),
        !has_substring(lower(name), "gtx 9"@),
        !has_substring(lower(name), "gtx 750"@),
        !has_substring(lower(name), "gtx 780"@),
        !has_substring(lower(name), "gtx 860m"@),
        !has_substring(lower(name), "a100"@),
        !has_substring(lower(name), "a30"@),
        !has_substring(lower(name), "tesla v"@),
        !has_substring(lower(name), "tesla p"@),
        !has_substring(lower(name), "tesla p100"@),
        !has_substring(lower(name), "tesla m40"@),
        !has_substring(lower(name), "tesla k"@),
        !has_substring(lower(name), "titan v"@),
    ensures
        spec_nvidia_architecture(name) is None,
        spec_nvidia_topology(name) is None,
        spec_nvidia_cache(name) == Some(Cache { l1_size: None, l2_size: None, l3_size: None }),
{
}

/// Cache block for an Nvidia device name.
pub fn get_nvidia_cache(name: &str) -> (r: Option<Cache>)
    ensures
        r == spec_nvidia_cache(name@),
{
    let l2_size: Option<u64> = if contains_lower(name, "rtx 4090") {
        Some(72 * 1024 * 1024)
    } else if contains_lower(name, "rtx 4080") {
        Some(64 * 1024 * 1024)
    } else if contains_lower(name, "rtx 4070") {
        Some(48 * 1024 * 1024)
    } else if contains_lower(name, "rtx 4060") {
        Some(32 * 1024 * 1024)
    } else if contains_lower(name, "rtx 3090") {
        Some(6 * 1024 * 1024)
    } else if contains_lower(name, "rtx 3080") {
        Some(5 * 1024 * 1024)
    } else if contains_lower(name, "rtx 3070") {
        Some(4 * 1024 * 1024)
    } else if contains_lower(name, "rtx 3060") {
        Some(3 * 1024 * 1024)
    } else if contains_lower(name, "rtx 2080 ti") {
        Some(6 * 1024 * 1024)
    } else if contains_lower(name, "rtx 2080") {
        Some(4 * 1024 * 1024)
    } else if contains_lower(name, "rtx 2070") {
        Some(4 * 1024 * 1024)
    } else if contains_lower(name, "rtx 2060") {
        Some(3 * 1024 * 1024)
    } else if contains_lower(name, "gtx 1080 ti") {
        Some(3 * 1024 * 1024)
    } else if contains_lower(name, "gtx 1080") {
        Some(2 * 1024 * 1024)
    } else if contains_lower(name, "gtx 1070") {
        Some(2 * 1024 * 1024)
    } else if contains_lower(name, "gtx 1060") {
        Some(1536 * 1024)
    } else {
        None
    };
    Some(Cache { l1_size: None, l2_size, l3_size: None })
}

} // verus!
