//! The Amd probe: selects the vendor's entries of the direct-rendering
//! device directory, resolves each device's name (non-empty product-name
//! attribute, else a modalias-derived device code, else a raw
//! device-identifier fallback), parses the frequency-table attribute,
//! and classifies by the ordered rule tables below.

use vstd::prelude::*;

use crate::common::Cache;
use crate::common::GpuInfo;
use crate::common::GpuInfoView;
use crate::common::GpuVendor;
use crate::common::GpuVendorView;
use crate::common::Memory;
use crate::common::MemoryType;
use crate::common::Topology;
use crate::common::profile_views;
use crate::evidence::DrmCardEvidence;
use crate::evidence::DrmCardEvidenceView;
use crate::evidence::ToolResult;
use crate::evidence::ToolResultView;
use crate::evidence::drm_views;
use crate::strutil::all_digits;
use crate::strutil::contains_lower;
use crate::strutil::contains_sub;
use crate::strutil::capture_after;
use crate::strutil::dec_val;
use crate::strutil::digit_run_end;
use crate::strutil::digit_run_end_exec;
use crate::strutil::has_substring;
use crate::strutil::is_hex_digit;
use crate::strutil::is_hex_digit_exec;
use crate::strutil::lemma_dec_val_nonneg;
use crate::strutil::lines_of;
use crate::strutil::lower;
use crate::strutil::matches_at;
use crate::strutil::matches_at_exec;
use crate::strutil::parse_digits_u64;
use crate::strutil::parse_u64_dec;
use crate::strutil::spec_capture_after;
use crate::strutil::spec_lines;
use crate::strutil::spec_parse_dec;
use crate::strutil::spec_trim;
use crate::strutil::str_eq;
use crate::strutil::str_starts_with;
use crate::strutil::strip_0x;
use crate::strutil::strip_0x_exec;
use crate::strutil::trim;

verus! {

/// One line of the frequency-table attribute, of the form
/// `<index>: <freq>Mhz` with an optional in-use marker after the unit:
/// the clock value and whether the line carries the marker.
pub open spec fn spec_sclk_line(line: Seq<char>) -> Option<(int, bool)> {
    let m1 = digit_run_end(line, 0);
    if m1 < 1 {
        None
    } else if !matches_at(line, ": "@, m1) {
        None
    } else {
        let p2 = m1 + 2;
        let m2 = digit_run_end(line, p2);
        if m2 <= p2 {
            None
        } else if !matches_at(line, "Mhz"@, m2) {
            None
        } else {
            Some((dec_val(line.subrange(p2, m2)), matches_at(line, " *"@, m2 + 3)))
        }
    }
}

/// Parses one frequency-table line; clock values beyond the clock
/// field's range are skipped like unparsable lines.
pub fn parse_sclk_line(line: &str) -> (r: Option<(u32, bool)>)
    ensures
        ({
            match spec_sclk_line(line@) {
                Some(fs) => if fs.0 <= u32::MAX {
                    r == Some(((fs.0) as u32, fs.1))
                } else {
                    r is None
                },
                None => r is None,
            }
        }),
{
    proof {
        reveal_strlit(": ");
        reveal_strlit("Mhz");
    }
    let len = line.unicode_len();
    let m1 = digit_run_end_exec(line, 0);
    proof {
        crate::strutil::lemma_digit_run_end(line@, 0);
    }
    if m1 < 1 {
        return None;
    }
    if 2 > len - m1 || !matches_at_exec(line, ": ", m1) {
        return None;
    }
    let p2 = m1 + 2;
    let m2 = digit_run_end_exec(line, p2);
    proof {
        crate::strutil::lemma_digit_run_end(line@, p2 as int);
    }
    if m2 <= p2 {
        return None;
    }
    if 3 > len - m2 || !matches_at_exec(line, "Mhz", m2) {
        return None;
    }
    proof {
        reveal_strlit(" *");
    }
    let starred = if m2 + 3 <= len && 2 <= len - (m2 + 3) {
        matches_at_exec(line, " *", m2 + 3)
    } else {
        proof {
            assert(!matches_at(line@, " *"@, m2 + 3));
        }
        false
    };
    let run = line.substring_char(p2, m2);
    proof {
        assert(all_digits(run@)) by {
            assert(forall|k: int| 0 <= k < run@.len() ==> run@[k] == line@[p2 + k]);
        }
        lemma_dec_val_nonneg(run@);
    }
    match parse_digits_u64(run) {
        Some(v) => {
            if v <= u32::MAX as u64 {
                Some((v as u32, starred))
            } else {
                None
            }
        },
        None => None,
    }
}

/// A parsed frequency-table clock is never negative: it is the value of
/// a digit run.
pub proof fn lemma_sclk_line_nonneg(line: Seq<char>)
    ensures
        spec_sclk_line(line) is Some ==> spec_sclk_line(line).unwrap().0 >= 0,
{
    if spec_sclk_line(line) is Some {
        reveal_strlit(": ");
        crate::strutil::lemma_digit_run_end(line, 0);
        let m1 = digit_run_end(line, 0);
        let p2 = m1 + 2;
        crate::strutil::lemma_digit_run_end(line, p2);
        let m2 = digit_run_end(line, p2);
        let run = line.subrange(p2, m2);
        assert(all_digits(run)) by {
            assert(forall|k: int| 0 <= k < run.len() ==> run[k] == line[p2 + k]);
        }
        lemma_dec_val_nonneg(run);
    }
}

/// The greatest clock among the parsable lines of the frequency table;
/// zero when none parses.
pub open spec fn spec_sclk_max(lines: Seq<Seq<char>>) -> u32
    decreases lines.len(),
{
    if lines.len() == 0 {
        0u32
    } else {
        let rest = spec_sclk_max(lines.drop_last());
        match spec_sclk_line(lines.last()) {
            Some(fs) => if 0 <= fs.0 <= u32::MAX && fs.0 > rest {
                fs.0 as u32
            } else {
                rest
            },
            None => rest,
        }
    }
}

/// The clock of the first line flagged with the in-use marker, when one
/// parses.
pub open spec fn spec_sclk_current(lines: Seq<Seq<char>>) -> Option<u32>
    decreases lines.len(),
{
    if lines.len() == 0 {
        None
    } else {
        match spec_sclk_line(lines.first()) {
            Some(fs) => if fs.1 && 0 <= fs.0 <= u32::MAX {
                Some(fs.0 as u32)
            } else {
                spec_sclk_current(lines.drop_first())
            },
            None => spec_sclk_current(lines.drop_first()),
        }
    }
}

/// Parses the whole frequency-table attribute: the maximum listed clock
/// and the current clock (the marked line's clock, else the maximum).
pub fn parse_amd_clock_table(content: &str) -> (r: (u32, u32))
    ensures
        ({
            let lines = spec_lines(content@);
            &&& r.0 == spec_sclk_max(lines)
            &&& r.1 == (match spec_sclk_current(lines) {
                Some(c) => c,
                None => spec_sclk_max(lines),
            })
        }),
{
    let lines = lines_of(content);
    let ghost lv = lines.deep_view();
    let n = lines.len();

    let mut max_freq: u32 = 0;
    let mut i: usize = 0;
    proof {
        assert(lv.subrange(0, 0) =~= Seq::<Seq<char>>::empty());
    }
    while i < n
        invariant
            n == lines.len(),
            lines.deep_view() == lv,
            0 <= i <= n,
            max_freq == spec_sclk_max(lv.subrange(0, i as int)),
        decreases n - i,
    {
        proof {
            assert(lines[i as int]@ == lv[i as int]);
            assert(lv.subrange(0, i + 1).drop_last() =~= lv.subrange(0, i as int));
            assert(lv.subrange(0, i + 1).last() == lv[i as int]);
            lemma_sclk_line_nonneg(lv[i as int]);
        }
        match parse_sclk_line(lines[i].as_str()) {
            Some(pair) => {
                if pair.0 > max_freq {
                    max_freq = pair.0;
                }
            },
            None => {},
        }
        i = i + 1;
    }
    proof {
        assert(lv.subrange(0, n as int) =~= lv);
    }

    let mut current: u32 = max_freq;
    let mut found = false;
    let mut j: usize = 0;
    while j < n && !found
        invariant
            n == lines.len(),
            lines.deep_view() == lv,
            0 <= j <= n,
            !found ==> spec_sclk_current(lv) == spec_sclk_current(lv.subrange(j as int, n as int)),
            !found ==> current == spec_sclk_max(lv),
            found ==> spec_sclk_current(lv) == Some(current),
        decreases n - j,
    {
        proof {
            assert(lines[j as int]@ == lv[j as int]);
            assert(lv.subrange(j as int, n as int).first() == lv[j as int]);
            assert(lv.subrange(j as int, n as int).drop_first() =~= lv.subrange(
                j + 1,
                n as int,
            ));
            lemma_sclk_line_nonneg(lv[j as int]);
        }
        match parse_sclk_line(lines[j].as_str()) {
            Some(pair) => {
                if pair.1 {
                    current = pair.0;
                    found = true;
                }
            },
            None => {},
        }
        j = j + 1;
    }
    proof {
        if !found {
            assert(lv.subrange(n as int, n as int) =~= Seq::<Seq<char>>::empty());
        }
    }
    (max_freq, current)
}

/// A modalias-embedded vendor/device code occurs at `p`: the vendor
/// marker text followed by four hexadecimal digits of the device code.
pub open spec fn modalias_match_at(s: Seq<char>, p: int) -> bool {
    &&& matches_at(s, "pci:v00001002d0000"@, p)
    &&& p + 22 <= s.len()
    &&& forall|k: int| p + 18 <= k < p + 22 ==> is_hex_digit(#[trigger] s[k])
}

/// The least offset of a modalias device-code match at or after `p`, or
/// `-1`.
pub open spec fn first_modalias_match(s: Seq<char>, p: int) -> int
    decreases s.len() - p + 1,
{
    if p >= s.len() {
        -1
    } else if modalias_match_at(s, p) {
        p
    } else {
        first_modalias_match(s, p + 1)
    }
}

proof fn lemma_first_modalias_match(s: Seq<char>, p: int)
    requires
        0 <= p,
    ensures
        ({
            let q = first_modalias_match(s, p);
            &&& q == -1 ==> forall|k: int| k >= p ==> !modalias_match_at(s, k)
            &&& q != -1 ==> p <= q && modalias_match_at(s, q) && (forall|k: int|
                p <= k < q ==> !modalias_match_at(s, k))
        }),
    decreases s.len() - p + 1,
{
    if p >= s.len() {
    } else if modalias_match_at(s, p) {
    } else {
        lemma_first_modalias_match(s, p + 1);
    }
}

/// The four-digit device code extracted from a modalias text, when the
/// vendor marker followed by four hexadecimal digits occurs in it.
pub open spec fn spec_modalias_code(s: Seq<char>) -> Option<Seq<char>> {
    let p = first_modalias_match(s, 0);
    if p >= 0 {
        Some(s.subrange(p + 18, p + 22))
    } else {
        None
    }
}

/// Extracts the modalias-embedded device code.
pub fn modalias_code(s: &str) -> (r: Option<String>)
    ensures
        r is Some <==> spec_modalias_code(s@) is Some,
        r is Some ==> r.unwrap()@ == spec_modalias_code(s@).unwrap(),
{
    proof {
        reveal_strlit("pci:v00001002d0000");
        lemma_first_modalias_match(s@, 0);
    }
    let len = s.unicode_len();
    let mut p: usize = 0;
    while p < len
        invariant
            len == s@.len(),
            0 <= p <= len,
            forall|k: int| 0 <= k < p ==> !modalias_match_at(s@, k),
        decreases len - p,
    {
        proof {
            reveal_strlit("pci:v00001002d0000");
        }
        let hit = 22 <= len - p && matches_at_exec(s, "pci:v00001002d0000", p)
            && is_hex_digit_exec(s.get_char(p + 18)) && is_hex_digit_exec(s.get_char(p + 19))
            && is_hex_digit_exec(s.get_char(p + 20)) && is_hex_digit_exec(s.get_char(p + 21));
        if hit {
            proof {
                assert(modalias_match_at(s@, p as int)) by {
                    assert(forall|k: int|
                        p + 18 <= k < p + 22 ==> is_hex_digit(#[trigger] s@[k])) by {
                        assert(is_hex_digit(s@[p + 18]));
                        assert(is_hex_digit(s@[p + 19]));
                        assert(is_hex_digit(s@[p + 20]));
                        assert(is_hex_digit(s@[p + 21]));
                    }
                }
                lemma_first_modalias_match(s@, 0);
                let q = first_modalias_match(s@, 0);
                assert(q != -1 && q <= p && p <= q);
            }
            let code = s.substring_char(p + 18, p + 22);
            return Some(String::from_str(code));
        }
        proof {
            assert(!modalias_match_at(s@, p as int));
        }
        p = p + 1;
    }
    proof {
        lemma_first_modalias_match(s@, 0);
    }
    None
}

/// Architecture, chip and process node by display name and device-id
/// prefix, first matching rule wins; unmatched devices stay unknown.
pub open spec fn spec_amd_architecture(name: Seq<char>, id: Seq<char>) -> (
    Seq<char>,
    Seq<char>,
    Option<u32>,
) {
    let l = lower(name);
    if has_substring(l, "rx 7900"@) || "744c"@.is_prefix_of(id) || "7440"@.is_prefix_of(id) {
        ("RDNA 3"@, "Navi 31"@, Some(5u32))
    } else if has_substring(l, "rx 6950"@) || has_substring(l, "rx 6900"@)
        || "73a"@.is_prefix_of(id) {
        ("RDNA 2"@, "Navi 21"@, Some(7u32))
    } else if has_substring(l, "rx 6800"@) || "73b"@.is_prefix_of(id) {
        ("RDNA 2"@, "Navi 21"@, Some(7u32))
    } else if has_substring(l, "rx 6700"@) || "73d"@.is_prefix_of(id) {
        ("RDNA 2"@, "Navi 22"@, Some(7u32))
    } else if has_substring(l, "rx 6600"@) || "73e"@.is_prefix_of(id) || "73f"@.is_prefix_of(id) {
        ("RDNA 2"@, "Navi 23"@, Some(7u32))
    } else if has_substring(l, "rx 6500"@) || has_substring(l, "rx 6400"@)
        || "743"@.is_prefix_of(id) {
        ("RDNA 2"@, "Navi 24"@, Some(6u32))
    } else if has_substring(l, "rx 5700"@) || "731"@.is_prefix_of(id) {
        ("RDNA"@, "Navi 10"@, Some(7u32))
    } else if has_substring(l, "rx 5600"@) {
        ("RDNA"@, "Navi 10"@, Some(7u32))
    } else if has_substring(l, "rx 5500"@) || "7340"@.is_prefix_of(id) {
        ("RDNA"@, "Navi 14"@, Some(7u32))
    } else if has_substring(l, "vega"@) || has_substring(l, "radeon vii"@)
        || "66"@.is_prefix_of(id) {
        ("Vega"@, "Vega 10/20"@, Some(7u32))
    } else if has_substring(l, "rx 5"@) || has_substring(l, "rx 4"@) || "67"@.is_prefix_of(id) {
        ("Polaris"@, "Polaris"@, Some(14u32))
    } else if has_substring(l, "rx 3"@) || has_substring(l, "r9"@) || "6"@.is_prefix_of(id) {
        ("GCN"@, "GCN"@, Some(28u32))
    } else {
        ("Unknown"@, "Unknown"@, None)
    }
}

/// Architecture, chip and process node for an Amd device.
pub fn get_amd_architecture(name: &str, device_id: &str) -> (r: (String, String, Option<u32>))
    ensures
        (r.0@, r.1@, r.2) == spec_amd_architecture(name@, device_id@),
{
    if contains_lower(name, "rx 7900") || str_starts_with(device_id, "744c") || str_starts_with(
        device_id,
        "7440",
    ) {
        (String::from_str("RDNA 3"), String::from_str("Navi 31"), Some(5))
    } else if contains_lower(name, "rx 6950") || contains_lower(name, "rx 6900")
        || str_starts_with(device_id, "73a") {
        (String::from_str("RDNA 2"), String::from_str("Navi 21"), Some(7))
    } else if contains_lower(name, "rx 6800") || str_starts_with(device_id, "73b") {
        (String::from_str("RDNA 2"), String::from_str("Navi 21"), Some(7))
    } else if contains_lower(name, "rx 6700") || str_starts_with(device_id, "73d") {
        (String::from_str("RDNA 2"), String::from_str("Navi 22"), Some(7))
    } else if contains_lower(name, "rx 6600") || str_starts_with(device_id, "73e")
        || str_starts_with(device_id, "73f") {
        (String::from_str("RDNA 2"), String::from_str("Navi 23"), Some(7))
    } else if contains_lower(name, "rx 6500") || contains_lower(name, "rx 6400")
        || str_starts_with(device_id, "743") {
        (String::from_str("RDNA 2"), String::from_str("Navi 24"), Some(6))
    } else if contains_lower(name, "rx 5700") || str_starts_with(device_id, "731") {
        (String::from_str("RDNA"), String::from_str("Navi 10"), Some(7))
    } else if contains_lower(name, "rx 5600") {
        (String::from_str("RDNA"), String::from_str("Navi 10"), Some(7))
    } else if contains_lower(name, "rx 5500") || str_starts_with(device_id, "7340") {
        (String::from_str("RDNA"), String::from_str("Navi 14"), Some(7))
    } else if contains_lower(name, "vega") || contains_lower(name, "radeon vii")
        || str_starts_with(device_id, "66") {
        (String::from_str("Vega"), String::from_str("Vega 10/20"), Some(7))
    } else if contains_lower(name, "rx 5") || contains_lower(name, "rx 4") || str_starts_with(
        device_id,
        "67",
    ) {
        (String::from_str("Polaris"), String::from_str("Polaris"), Some(14))
    } else if contains_lower(name, "rx 3") || contains_lower(name, "r9") || str_starts_with(
        device_id,
        "6",
    ) {
        (String::from_str("GCN"), String::from_str("GCN"), Some(28))
    } else {
        (String::from_str("Unknown"), String::from_str("Unknown"), None)
    }
}

/// Memory technology by display name, first matching rule wins.
pub open spec fn spec_amd_memory_type(name: Seq<char>) -> MemoryType {
    let l = lower(name);
    if has_substring(l, "rx 7900"@) {
        MemoryType::Gddr6
    } else if has_substring(l, "rx 6"@) {
        MemoryType::Gddr6
    } else if has_substring(l, "rx 5"@) {
        MemoryType::Gddr6
    } else if has_substring(l, "radeon vii"@) {
        MemoryType::Hbm2
    } else if has_substring(l, "vega"@) {
        MemoryType::Hbm2
    } else if has_substring(l, "rx 580"@) || has_substring(l, "rx 570"@) || has_substring(
        l,
        "rx 480"@,
    ) || has_substring(l, "rx 470"@) {
        MemoryType::Gddr5
    } else {
        MemoryType::Unknown
    }
}

/// Memory technology for an Amd device name.
pub fn get_amd_memory_type(name: &str) -> (r: MemoryType)
    ensures
        r == spec_amd_memory_type(name@),
{
    if contains_lower(name, "rx 7900") {
        MemoryType::Gddr6
    } else if contains_lower(name, "rx 6") {
        MemoryType::Gddr6
    } else if contains_lower(name, "rx 5") {
        MemoryType::Gddr6
    } else if contains_lower(name, "radeon vii") {
        MemoryType::Hbm2
    } else if contains_lower(name, "vega") {
        MemoryType::Hbm2
    } else if contains_lower(name, "rx 580") || contains_lower(name, "rx 570") || contains_lower(
        name,
        "rx 480",
    ) || contains_lower(name, "rx 470") {
        MemoryType::Gddr5
    } else {
        MemoryType::Unknown
    }
}

/// Memory bus width in bits by display name, first matching rule wins;
/// 256 is the catch-all estimate.
pub open spec fn spec_amd_bus_width(name: Seq<char>) -> u32 {
    let l = lower(name);
    if has_substring(l, "rx 7900"@) {
        384
    } else if has_substring(l, "rx 6900"@) || has_substring(l, "rx 6800"@) {
        256
    } else if has_substring(l, "rx 6700"@) {
        192
    } else if has_substring(l, "rx 6600"@) {
        128
    } else if has_substring(l, "rx 6500"@) || has_substring(l, "rx 6400"@) {
        64
    } else if has_substring(l, "rx 5700"@) {
        256
    } else if has_substring(l, "rx 5600"@) {
        192
    } else if has_substring(l, "rx 5500"@) {
        128
    } else if has_substring(l, "radeon vii"@) {
        4096
    } else if has_substring(l, "vega"@) {
        2048
    } else if has_substring(l, "rx 580"@) || has_substring(l, "rx 480"@) {
        256
    } else if has_substring(l, "rx 570"@) || has_substring(l, "rx 470"@) {
        256
    } else if has_substring(l, "rx 560"@) || has_substring(l, "rx 460"@) {
        128
    } else {
        256
    }
}

/// Estimated memory bus width for an Amd device name.
pub fn get_amd_bus_width(name: &str) -> (r: u32)
    ensures
        r == spec_amd_bus_width(name@),
{
    if contains_lower(name, "rx 7900") {
        384
    } else if contains_lower(name, "rx 6900") || contains_lower(name, "rx 6800") {
        256
    } else if contains_lower(name, "rx 6700") {
        192
    } else if contains_lower(name, "rx 6600") {
        128
    } else if contains_lower(name, "rx 6500") || contains_lower(name, "rx 6400") {
        64
    } else if contains_lower(name, "rx 5700") {
        256
    } else if contains_lower(name, "rx 5600") {
        192
    } else if contains_lower(name, "rx 5500") {
        128
    } else if contains_lower(name, "radeon vii") {
        4096
    } else if contains_lower(name, "vega") {
        2048
    } else if contains_lower(name, "rx 580") || contains_lower(name, "rx 480") {
        256
    } else if contains_lower(name, "rx 570") || contains_lower(name, "rx 470") {
        256
    } else if contains_lower(name, "rx 560") || contains_lower(name, "rx 460") {
        128
    } else {
        256
    }
}

/// Stream-processor count by display name, first matching rule wins.
pub open spec fn spec_amd_stream_processors(name: Seq<char>) -> Option<u32> {
    let l = lower(name);
    if has_substring(l, "rx 7900 xtx"@) {
        Some(12288u32)
    } else if has_substring(l, "rx 7900 xt"@) {
        Some(10752u32)
    } else if has_substring(l, "rx 6950 xt"@) || has_substring(l, "rx 6900 xt"@) {
        Some(5120u32)
    } else if has_substring(l, "rx 6800 xt"@) {
        Some(4608u32)
    } else if has_substring(l, "rx 6800"@) {
        Some(3840u32)
    } else if has_substring(l, "rx 6700 xt"@) {
        Some(2560u32)
    } else if has_substring(l, "rx 6600 xt"@) {
        Some(2048u32)
    } else if has_substring(l, "rx 6600"@) {
        Some(1792u32)
    } else if has_substring(l, "rx 6500 xt"@) {
        Some(1024u32)
    } else if has_substring(l, "rx 5700 xt"@) {
        Some(2560u32)
    } else if has_substring(l, "rx 5700"@) {
        Some(2304u32)
    } else if has_substring(l, "rx 5600 xt"@) {
        Some(2048u32)
    } else if has_substring(l, "rx 5500 xt"@) {
        Some(1408u32)
    } else if has_substring(l, "radeon vii"@) {
        Some(3840u32)
    } else if has_substring(l, "vega 64"@) {
        Some(4096u32)
    } else if has_substring(l, "vega 56"@) {
        Some(3584u32)
    } else if has_substring(l, "rx 580"@) {
        Some(2304u32)
    } else if has_substring(l, "rx 570"@) {
        Some(2048u32)
    } else {
        None
    }
}

fn get_amd_stream_processors(name: &str) -> (r: Option<u32>)
    ensures
        r == spec_amd_stream_processors(name@),
{
    if contains_lower(name, "rx 7900 xtx") {
        Some(12288)
    } else if contains_lower(name, "rx 7900 xt") {
        Some(10752)
    } else if contains_lower(name, "rx 6950 xt") || contains_lower(name, "rx 6900 xt") {
        Some(5120)
    } else if contains_lower(name, "rx 6800 xt") {
        Some(4608)
    } else if contains_lower(name, "rx 6800") {
        Some(3840)
    } else if contains_lower(name, "rx 6700 xt") {
        Some(2560)
    } else if contains_lower(name, "rx 6600 xt") {
        Some(2048)
    } else if contains_lower(name, "rx 6600") {
        Some(1792)
    } else if contains_lower(name, "rx 6500 xt") {
        Some(1024)
    } else if contains_lower(name, "rx 5700 xt") {
        Some(2560)
    } else if contains_lower(name, "rx 5700") {
        Some(2304)
    } else if contains_lower(name, "rx 5600 xt") {
        Some(2048)
    } else if contains_lower(name, "rx 5500 xt") {
        Some(1408)
    } else if contains_lower(name, "radeon vii") {
        Some(3840)
    } else if contains_lower(name, "vega 64") {
        Some(4096)
    } else if contains_lower(name, "vega 56") {
        Some(3584)
    } else if contains_lower(name, "rx 580") {
        Some(2304)
    } else if contains_lower(name, "rx 570") {
        Some(2048)
    } else {
        None
    }
}

/// Render-output and texture-mapping unit counts by display name, first
/// matching rule wins.
pub open spec fn spec_amd_rops_tmus(name: Seq<char>) -> (Option<u32>, Option<u32>) {
    let l = lower(name);
    if has_substring(l, "rx 7900 xtx"@) {
        (Some(192u32), Some(384u32))
    } else if has_substring(l, "rx 7900 xt"@) {
        (Some(176u32), Some(336u32))
    } else if has_substring(l, "rx 6950 xt"@) || has_substring(l, "rx 6900 xt"@) {
        (Some(128u32), Some(160u32))
    } else if has_substring(l, "rx 6800 xt"@) {
        (Some(128u32), Some(144u32))
    } else if has_substring(l, "rx 6800"@) {
        (Some(96u32), Some(120u32))
    } else if has_substring(l, "rx 6700 xt"@) {
        (Some(64u32), Some(160u32))
    } else if has_substring(l, "rx 6600 xt"@) {
        (Some(64u32), Some(128u32))
    } else if has_substring(l, "rx 5700 xt"@) {
        (Some(64u32), Some(160u32))
    } else if has_substring(l, "rx 580"@) {
        (Some(32u32), Some(144u32))
    } else {
        (None, None)
    }
}

fn get_amd_rops_tmus(name: &str) -> (r: (Option<u32>, Option<u32>))
    ensures
        r == spec_amd_rops_tmus(name@),
{
    if contains_lower(name, "rx 7900 xtx") {
        (Some(192), Some(384))
    } else if contains_lower(name, "rx 7900 xt") {
        (Some(176), Some(336))
    } else if contains_lower(name, "rx 6950 xt") || contains_lower(name, "rx 6900 xt") {
        (Some(128), Some(160))
    } else if contains_lower(name, "rx 6800 xt") {
        (Some(128), Some(144))
    } else if contains_lower(name, "rx 6800") {
        (Some(96), Some(120))
    } else if contains_lower(name, "rx 6700 xt") {
        (Some(64), Some(160))
    } else if contains_lower(name, "rx 6600 xt") {
        (Some(64), Some(128))
    } else if contains_lower(name, "rx 5700 xt") {
        (Some(64), Some(160))
    } else if contains_lower(name, "rx 580") {
        (Some(32), Some(144))
    } else {
        (None, None)
    }
}

/// Topology by display name: the stream-processor table, compute units
/// derived from it (128 per unit on the newest generation, 64 before),
/// and the render/texture unit table.
pub open spec fn spec_amd_topology(name: Seq<char>) -> Option<Topology> {
    let l = lower(name);
    match spec_amd_stream_processors(name) {
        Some(sp) => {
            let compute_units = if has_substring(l, "rx 7"@) {
                (sp / 128) as u32
            } else {
                (sp / 64) as u32
            };
            let rt = spec_amd_rops_tmus(name);
            Some(
                Topology {
                    compute_units: compute_units,
                    cuda_cores: None,
                    tensor_cores: None,
                    rt_cores: None,
                    sm_count: None,
                    stream_processors: Some(sp),
                    rops: rt.0,
                    tmus: rt.1,
                    execution_units: None,
                    slices: None,
                    subslices: None,
                },
            )
        },
        None => None,
    }
}

/// Compute topology for an Amd device name.
pub fn get_amd_topology(name: &str) -> (r: Option<Topology>)
    ensures
        r == spec_amd_topology(name@),
{
    match get_amd_stream_processors(name) {
        Some(sp) => {
            let compute_units = if contains_lower(name, "rx 7") {
                sp / 128
            } else {
                sp / 64
            };
            let rt = get_amd_rops_tmus(name);
            Some(
                Topology {
                    compute_units,
                    cuda_cores: None,
                    tensor_cores: None,
                    rt_cores: None,
                    sm_count: None,
                    stream_processors: Some(sp),
                    rops: rt.0,
                    tmus: rt.1,
                    execution_units: None,
                    slices: None,
                    subslices: None,
                },
            )
        },
        None => None,
    }
}

/// Level-two and level-three cache sizes by display name, first
/// matching rule wins.
pub open spec fn spec_amd_l2_l3(name: Seq<char>) -> (Option<u64>, Option<u64>) {
    let l = lower(name);
    if has_substring(l, "rx 7900"@) {
        (Some((6 * 1024 * 1024) as u64), Some((96 * 1024 * 1024) as u64))
    } else if has_substring(l, "rx 6950"@) || has_substring(l, "rx 6900"@) || has_substring(
        l,
        "rx 6800"@,
    ) {
        (Some((512 * 1024) as u64), Some((128 * 1024 * 1024) as u64))
    } else if has_substring(l, "rx 6700"@) {
        (Some((384 * 1024) as u64), Some((96 * 1024 * 1024) as u64))
    } else if has_substring(l, "rx 6600"@) {
        (Some((256 * 1024) as u64), Some((32 * 1024 * 1024) as u64))
    } else if has_substring(l, "rx 6500"@) || has_substring(l, "rx 6400"@) {
        (Some((128 * 1024) as u64), Some((16 * 1024 * 1024) as u64))
    } else if has_substring(l, "rx 5700"@) {
        (Some((4 * 1024 * 1024) as u64), None)
    } else if has_substring(l, "rx 5600"@) {
        (Some((4 * 1024 * 1024) as u64), None)
    } else if has_substring(l, "rx 5500"@) {
        (Some((4 * 1024 * 1024) as u64), None)
    } else if has_substring(l, "radeon vii"@) {
        (Some((4 * 1024 * 1024) as u64), None)
    } else if has_substring(l, "vega"@) {
        (Some((4 * 1024 * 1024) as u64), None)
    } else if has_substring(l, "rx 580"@) || has_substring(l, "rx 570"@) {
        (Some((2 * 1024 * 1024) as u64), None)
    } else {
        (None, None)
    }
}

/// Cache sizing by display name: second-level and the large last-level
/// cache where published, first level not published for this vendor.
pub open spec fn spec_amd_cache(name: Seq<char>) -> Option<Cache> {
    let c = spec_amd_l2_l3(name);
    Some(Cache { l1_size: None, l2_size: c.0, l3_size: c.1 })
}

/// Cache block for an Amd device name.
pub fn get_amd_cache(name: &str) -> (r: Option<Cache>)
    ensures
        r == spec_amd_cache(name@),
{
    let sizes: (Option<u64>, Option<u64>) = if contains_lower(name, "rx 7900") {
        (Some(6 * 1024 * 1024), Some(96 * 1024 * 1024))
    } else if contains_lower(name, "rx 6950") || contains_lower(name, "rx 6900") || contains_lower(
        name,
        "rx 6800",
    ) {
        (Some(512 * 1024), Some(128 * 1024 * 1024))
    } else if contains_lower(name, "rx 6700") {
        (Some(384 * 1024), Some(96 * 1024 * 1024))
    } else if contains_lower(name, "rx 6600") {
        (Some(256 * 1024), Some(32 * 1024 * 1024))
    } else if contains_lower(name, "rx 6500") || contains_lower(name, "rx 6400") {
        (Some(128 * 1024), Some(16 * 1024 * 1024))
    } else if contains_lower(name, "rx 5700") {
        (Some(4 * 1024 * 1024), None)
    } else if contains_lower(name, "rx 5600") {
        (Some(4 * 1024 * 1024), None)
    } else if contains_lower(name, "rx 5500") {
        (Some(4 * 1024 * 1024), None)
    } else if contains_lower(name, "radeon vii") {
        (Some(4 * 1024 * 1024), None)
    } else if contains_lower(name, "vega") {
        (Some(4 * 1024 * 1024), None)
    } else if contains_lower(name, "rx 580") || contains_lower(name, "rx 570") {
        (Some(2 * 1024 * 1024), None)
    } else {
        (None, None)
    };
    Some(Cache { l1_size: None, l2_size: sizes.0, l3_size: sizes.1 })
}

/// The device identifier read from the device attribute: trimmed, any
/// leading `0x` repetitions removed; a fixed placeholder when absent.
pub open spec fn spec_amd_device_id(ev: DrmCardEvidenceView) -> Seq<char> {
    match ev.device {
        Some(t) => strip_0x(spec_trim(t)),
        None => "unknown"@,
    }
}

/// The raw device-identifier fallback display name.
pub open spec fn spec_amd_fallback_name(device_id: Seq<char>) -> Seq<char> {
    "AMD GPU (Device ID: "@ + device_id + ")"@
}

/// The display name a device gets when its product-name attribute says
/// nothing: a modalias-derived device code, else the raw
/// device-identifier fallback.
pub open spec fn spec_amd_secondary_name(ev: DrmCardEvidenceView) -> Seq<char> {
    match ev.modalias {
        Some(m) => match spec_modalias_code(m) {
            Some(code) => spec_amd_fallback_name(code),
            None => spec_amd_fallback_name(spec_amd_device_id(ev)),
        },
        None => spec_amd_fallback_name(spec_amd_device_id(ev)),
    }
}

/// The display name, resolved in priority order: the product-name
/// attribute when it is non-empty after trimming, else a
/// modalias-derived device code, else the raw device-identifier
/// fallback; never empty.
pub open spec fn spec_amd_name(ev: DrmCardEvidenceView) -> Seq<char> {
    match ev.product_name {
        Some(t) => if spec_trim(t).len() > 0 {
            spec_trim(t)
        } else {
            spec_amd_secondary_name(ev)
        },
        None => spec_amd_secondary_name(ev),
    }
}

fn amd_fallback_name(device_id: &str) -> (r: String)
    ensures
        r@ == spec_amd_fallback_name(device_id@),
{
    let r = String::from_str("AMD GPU (Device ID: ").concat(device_id).concat(")");
    proof {
        assert(r@ =~= spec_amd_fallback_name(device_id@));
    }
    r
}

fn amd_secondary_name(ev: &DrmCardEvidence, device_id: &str) -> (r: String)
    requires
        device_id@ == spec_amd_device_id(ev@),
    ensures
        r@ == spec_amd_secondary_name(ev@),
{
    match &ev.modalias {
        Some(m) => {
            match modalias_code(m.as_str()) {
                Some(code) => amd_fallback_name(code.as_str()),
                None => amd_fallback_name(device_id),
            }
        },
        None => amd_fallback_name(device_id),
    }
}

/// The driver version scraped from the enhancement utility's output,
/// when the utility produced output carrying a driver-version line.
pub open spec fn spec_rocm_driver(rocm: ToolResultView) -> Option<Seq<char>> {
    match rocm {
        ToolResultView::Output(o) => spec_capture_after(o, "Driver Version: "@),
        _ => None,
    }
}

/// The clock pair (maximum, current) that the frequency-table attribute
/// yields: both zero when the attribute is absent or no line parses.
pub open spec fn spec_amd_clocks(ev: DrmCardEvidenceView) -> (u32, u32) {
    match ev.pp_dpm_sclk {
        Some(c) => {
            let lines = spec_lines(c);
            let mx = spec_sclk_max(lines);
            if mx > 0 {
                (
                    mx,
                    match spec_sclk_current(lines) {
                        Some(cu) => cu,
                        None => mx,
                    },
                )
            } else {
                (0u32, 0u32)
            }
        },
        None => (0u32, 0u32),
    }
}

/// The profile one selected device directory yields, every block
/// derived from its attribute evidence and the rule tables.
pub open spec fn spec_amd_profile(ev: DrmCardEvidenceView, rocm: ToolResultView) -> GpuInfoView {
    let device_id = spec_amd_device_id(ev);
    let name = spec_amd_name(ev);
    let clocks = spec_amd_clocks(ev);
    let arch = spec_amd_architecture(name, device_id);
    let memory = match ev.mem_info_vram_total {
        Some(t) => match spec_parse_dec(spec_trim(t)) {
            Some(b) => if b <= u64::MAX {
                Some(
                    Memory {
                        size_bytes: b as u64,
                        memory_type: spec_amd_memory_type(name),
                        bus_width: spec_amd_bus_width(name),
                        clock_mhz: 0,
                    },
                )
            } else {
                None
            },
            None => None,
        },
        None => None,
    };
    let topology = spec_amd_topology(name);
    let peak = match topology {
        Some(t) => match t.stream_processors {
            Some(sp) => Some((2 * sp * clocks.0) as u64),
            None => None,
        },
        None => None,
    };
    GpuInfoView {
        name: name,
        vendor: GpuVendorView::Amd,
        architecture: arch.0,
        chip: arch.1,
        process_nm: arch.2,
        freq_mhz: clocks.1,
        max_freq_mhz: clocks.0,
        memory: memory,
        topology: topology,
        cache: spec_amd_cache(name),
        pci_info: None,
        driver_version: spec_rocm_driver(rocm),
        compute_capability: None,
        opengl_version: None,
        vulkan_version: None,
        opencl_version: None,
        peak_performance_mflops: peak,
        is_integrated: false,
    }
}

/// Builds the profile of one selected device directory from its
/// attribute evidence, enhanced with the utility-scraped driver version.
pub fn amd_gpu_info_from_evidence(ev: &DrmCardEvidence, rocm: &ToolResult) -> (r: GpuInfo)
    ensures
        r@ == spec_amd_profile(ev@, rocm@),
{
    let device_id: String = match &ev.device {
        Some(text) => String::from_str(strip_0x_exec(trim(text.as_str()))),
        None => String::from_str("unknown"),
    };
    let name: String = match &ev.product_name {
        Some(text) => {
            let trimmed = trim(text.as_str());
            if trimmed.unicode_len() > 0 {
                String::from_str(trimmed)
            } else {
                amd_secondary_name(ev, device_id.as_str())
            }
        },
        None => amd_secondary_name(ev, device_id.as_str()),
    };

    let mut gpu_info = GpuInfo::new(name.as_str(), GpuVendor::Amd);

    match &ev.pp_dpm_sclk {
        Some(content) => {
            let clocks = parse_amd_clock_table(content.as_str());
            if clocks.0 > 0 {
                gpu_info.max_freq_mhz = clocks.0;
                gpu_info.freq_mhz = clocks.1;
            }
        },
        None => {},
    }

    let arch = get_amd_architecture(name.as_str(), device_id.as_str());
    gpu_info.architecture = arch.0;
    gpu_info.chip = arch.1;
    gpu_info.process_nm = arch.2;

    match &ev.mem_info_vram_total {
        Some(content) => {
            match parse_u64_dec(trim(content.as_str())) {
                Some(bytes) => {
                    gpu_info.memory = Some(
                        Memory {
                            size_bytes: bytes,
                            memory_type: get_amd_memory_type(name.as_str()),
                            bus_width: get_amd_bus_width(name.as_str()),
                            clock_mhz: 0,
                        },
                    );
                },
                None => {},
            }
        },
        None => {},
    }

    gpu_info.topology = get_amd_topology(name.as_str());
    gpu_info.cache = get_amd_cache(name.as_str());

    match &gpu_info.topology {
        Some(topology) => {
            match topology.stream_processors {
                Some(stream_processors) => {
                    assert(stream_processors <= 12288);
                    let mf = gpu_info.max_freq_mhz;
                    assert(2 * (stream_processors as int) * (mf as int) <= u64::MAX)
                        by (nonlinear_arith)
                        requires
                            stream_processors <= 12288,
                            mf <= u32::MAX,
                    ;
                    let peak = 2 * (stream_processors as u64) * (mf as u64);
                    gpu_info.peak_performance_mflops = Some(peak);
                },
                None => {},
            }
        },
        None => {},
    }

    match rocm {
        ToolResult::Output(o) => {
            gpu_info.driver_version = capture_after(o.as_str(), "Driver Version: ");
        },
        _ => {},
    }

    proof {
        assert(gpu_info@ =~= spec_amd_profile(ev@, rocm@));
    }
    gpu_info
}

/// A device directory belongs to this probe: a non-render card entry
/// whose vendor attribute carries the Amd PCI vendor identifier.
pub open spec fn spec_amd_selected(ev: DrmCardEvidenceView) -> bool {
    &&& "card"@.is_prefix_of(ev.name)
    &&& !has_substring(ev.name, "renderD"@)
    &&& match ev.vendor {
        Some(v) => spec_trim(v) == "0x1002"@,
        None => false,
    }
}

fn amd_card_selected(ev: &DrmCardEvidence) -> (r: bool)
    ensures
        r == spec_amd_selected(ev@),
{
    if !str_starts_with(ev.name.as_str(), "card") {
        return false;
    }
    if contains_sub(ev.name.as_str(), "renderD") {
        return false;
    }
    match &ev.vendor {
        Some(v) => str_eq(trim(v.as_str()), "0x1002"),
        None => false,
    }
}

/// What the Amd probe yields: one profile per selected device
/// directory, in directory order.
pub open spec fn spec_detect_amd(
    cards: Seq<DrmCardEvidenceView>,
    rocm: ToolResultView,
) -> Seq<GpuInfoView>
    decreases cards.len(),
{
    if cards.len() == 0 {
        Seq::empty()
    } else {
        let rest = spec_detect_amd(cards.drop_last(), rocm);
        if spec_amd_selected(cards.last()) {
            rest + seq![spec_amd_profile(cards.last(), rocm)]
        } else {
            rest
        }
    }
}

/// The Amd probe over the device-directory evidence and the enhancement
/// utility's outcome.
pub fn detect_amd_gpus(cards: &Vec<DrmCardEvidence>, rocm: &ToolResult) -> (r: Vec<GpuInfo>)
    ensures
        profile_views(r@) == spec_detect_amd(drm_views(cards@), rocm@),
{
    let ghost cv = drm_views(cards@);
    let mut gpus: Vec<GpuInfo> = Vec::new();
    let n = cards.len();
    let mut i: usize = 0;
    proof {
        assert(profile_views(gpus@) =~= spec_detect_amd(cv.subrange(0, 0), rocm@));
    }
    while i < n
        invariant
            n == cards.len(),
            drm_views(cards@) == cv,
            0 <= i <= n,
            profile_views(gpus@) =~= spec_detect_amd(cv.subrange(0, i as int), rocm@),
        decreases n - i,
    {
        proof {
            assert(cards@[i as int]@ == cv[i as int]);
            assert(cv.subrange(0, i + 1).drop_last() =~= cv.subrange(0, i as int));
            assert(cv.subrange(0, i + 1).last() == cv[i as int]);
        }
        if amd_card_selected(&cards[i]) {
            let ghost pre = gpus@;
            let gpu = amd_gpu_info_from_evidence(&cards[i], rocm);
            gpus.push(gpu);
            proof {
                assert(profile_views(gpus@) =~= profile_views(pre).push(gpu@));
            }
        }
        i = i + 1;
    }
    proof {
        assert(cv.subrange(0, n as int) =~= cv);
    }
    gpus
}

/// The topology of this vendor's devices populates only the fields that
/// describe this vendor; every other vendor's fields stay absent.
pub proof fn lemma_amd_topology_vendor_fields(name: Seq<char>)
    ensures
        spec_amd_topology(name) matches Some(t) ==> {
            &&& t.cuda_cores is None
            &&& t.tensor_cores is None
            &&& t.rt_cores is None
            &&& t.sm_count is None
            &&& t.execution_units is None
            &&& t.slices is None
            &&& t.subslices is None
            &&& t.stream_processors is Some
        },
{
}

/// Every profile this probe yields is named and carries this vendor's
/// tag: the trimmed product name where non-empty, else a labelled
/// fallback that is never empty.
pub proof fn lemma_amd_profile_named(ev: DrmCardEvidenceView, rocm: ToolResultView)
    ensures
        spec_amd_profile(ev, rocm).name.len() > 0,
        spec_amd_profile(ev, rocm).vendor == GpuVendorView::Amd,
{
    reveal_strlit("AMD GPU (Device ID: ");
}

/// Every profile this probe's detection yields is named and carries
/// this vendor's tag.
pub proof fn lemma_amd_detection_named(cards: Seq<DrmCardEvidenceView>, rocm: ToolResultView)
    ensures
        forall|i: int|
            0 <= i < spec_detect_amd(cards, rocm).len() ==> (#[trigger] spec_detect_amd(
                cards,
                rocm,
            )[i]).name.len() > 0 && spec_detect_amd(cards, rocm)[i].vendor == GpuVendorView::Amd,
    decreases cards.len(),
{
    if cards.len() > 0 {
        lemma_amd_detection_named(cards.drop_last(), rocm);
        lemma_amd_profile_named(cards.last(), rocm);
    }
}

/// Classification determinism: two results of classifying the same
/// evidence are identical — the profile is a function of the evidence.
pub proof fn lemma_amd_classification_deterministic(
    ev: DrmCardEvidenceView,
    rocm: ToolResultView,
    r1: GpuInfoView,
    r2: GpuInfoView,
)
    requires
        r1 == spec_amd_profile(ev, rocm),
        r2 == spec_amd_profile(ev, rocm),
    ensures
        r1 == r2,
{
}

/// Rule precedence: a name carrying the `rx 6900` fragment classifies
/// by that rule — earliest listed wins — whatever later rules (the
/// generic catch-alls among them) it would also match, provided the one
/// earlier rule does not fire.
pub proof fn lemma_amd_rule_precedence(name: Seq<char>, id: Seq<char>)
    requires
        has_substring(lower(name), "rx 6900"@),
        !has_substring(lower(name), "rx 7900"@),
        !"744c"@.is_prefix_of(id),
        !"7440"@.is_prefix_of(id),
    ensures
        spec_amd_architecture(name, id) == ("RDNA 2"@, "Navi 21"@, Some(7u32)),
{
}

/// Unknown-input safety: a name and identifier matching no rule of the
/// architecture, topology or cache tables classify to the unknown
/// sentinel, with no topology and no cache sizes.
pub proof fn lemma_amd_unknown_classification(name: Seq<char>, id: Seq<char>)
    requires
        !has_substring(lower(name), "rx 7900"@),
        !has_substring(lower(name), "rx 7900 xtx"@),
        !has_substring(lower(name), "rx 7900 xt"@),
        !has_substring(lower(name), "rx 6950"@),
        !has_substring(lower(name), "rx 6950 xt"@),
        !has_substring(lower(name), "rx 6900"@),
        !has_substring(lower(name), "rx 6900 xt"@),
        !has_substring(lower(name), "rx 6800"@),
        !has_substring(lower(name), "rx 6800 xt"@),
        !has_substring(lower(name), "rx 6700"@),
        !has_substring(lower(name), "rx 6700 xt"@),
        !has_substring(lower(name), "rx 6600"@),
        !has_substring(lower(name), "rx 6600 xt"@),
        !has_substring(lower(name), "rx 6500"@),
        !has_substring(lower(name), "rx 6500 xt"@),
        !has_substring(lower(name), "rx 6400"@),
        !has_substring(lower(name), "rx 5700"@),
        !has_substring(lower(name), "rx 5700 xt"@),
        !has_substring(lower(name), "rx 5600"@),
        !has_substring(lower(name), "rx 5600 xt"@),
        !has_substring(lower(name), "rx 5500"@),
        !has_substring(lower(name), "rx 5500 xt"@),
        !has_substring(lower(name), "vega"@),
        !has_substring(lower(name), "vega 64"@),
        !has_substring(lower(name), "vega 56"@),
        !has_substring(lower(name), "radeon vii"@),
        !has_substring(lower(name), "rx 5"@),
        !has_substring(lower(name), "rx 4"@),
        !has_substring(lower(name), "rx 3"@),
        !has_substring(lower(name), "rx 580"@),
        !has_substring(lower(name), "rx 570"@),
        !has_substring(lower(name), "r9"@),
        !"744c"@.is_prefix_of(id),
        !"7440"@.is_prefix_of(id),
        !"73a"@.is_prefix_of(id),
        !"73b"@.is_prefix_of(id),
        !"73d"@.is_prefix_of(id),
        !"73e"@.is_prefix_of(id),
        !"73f"@.is_prefix_of(id),
        !"743"@.is_prefix_of(id),
        !"731"@.is_prefix_of(id),
        !"7340"@.is_prefix_of(id),
        !"66"@.is_prefix_of(id),
        !"67"@.is_prefix_of(id),
        !"6"@.is_prefix_of(id),
    ensures
        spec_amd_architecture(name, id) == ("Unknown"@, "Unknown"@, None::<u32>),
        spec_amd_topology(name) is None,
        spec_amd_cache(name) == Some(Cache { l1_size: None, l2_size: None, l3_size: None }),
{
}

} // verus!
