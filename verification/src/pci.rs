//! The generic PCI probe, the last-resort fallback: walks the flat PCI
//! device directory, parses each entry's textual location, filters to
//! display-class functions, and resolves names through the bundled PCI
//! identifier database.

use vstd::prelude::*;

use crate::common::DetectError;
use crate::common::GpuInfo;
use crate::common::GpuInfoView;
use crate::common::GpuVendor;
use crate::common::GpuVendorView;
use crate::common::PciInfo;
use crate::common::profile_views;
use crate::evidence::PciCardEvidence;
use crate::evidence::PciCardEvidenceView;
use crate::evidence::pci_views;
use crate::strutil::hex4_of;
use crate::strutil::is_space;
use crate::strutil::lines_of;
use crate::strutil::matches_at;
use crate::strutil::matches_at_exec;
use crate::strutil::parse_u32_dec;
use crate::strutil::parse_u64_hex;
use crate::strutil::spec_lines;
use crate::strutil::spec_parse_dec;
use crate::strutil::spec_parse_hex;
use crate::strutil::spec_split;
use crate::strutil::spec_trim;
use crate::strutil::split_char;
use crate::strutil::strip_0x;
use crate::strutil::strip_0x_exec;
use crate::strutil::trim;
use crate::strutil::u16_to_hex4;

verus! {

/// The name of a vendor in the PCI identifier database bundled with the
/// identification crate: a fixed compiled-in table, so a function of
/// the identifier alone.
pub uninterp spec fn pci_db_vendor_name(vendor_id: u16) -> Option<Seq<char>>;

/// The name of a device under its vendor in the bundled PCI identifier
/// database: a function of the two identifiers alone.
pub uninterp spec fn pci_db_device_name(vendor_id: u16, device_id: u16) -> Option<Seq<char>>;

/// Relies on `pci_ids::Vendor::from_id` and `Vendor::name`: looks the
/// vendor up in the compiled-in PCI identifier database and hands back
/// its name.
#[verifier::external_body]
fn lookup_vendor_name(vendor_id: u16) -> (r: Option<String>)
    ensures
        r is Some <==> pci_db_vendor_name(vendor_id) is Some,
        r is Some ==> r.unwrap()@ == pci_db_vendor_name(vendor_id).unwrap(),
{
    <pci_ids::Vendor as pci_ids::FromId<u16>>::from_id(vendor_id).map(|v| v.name().to_string())
}

/// Relies on `pci_ids::Device::from_vid_pid` and `Device::name`: looks
/// the vendor/device pair up in the compiled-in PCI identifier database
/// and hands back the device's name.
#[verifier::external_body]
fn lookup_device_name(vendor_id: u16, device_id: u16) -> (r: Option<String>)
    ensures
        r is Some <==> pci_db_device_name(vendor_id, device_id) is Some,
        r is Some ==> r.unwrap()@ == pci_db_device_name(vendor_id, device_id).unwrap(),
{
    pci_ids::Device::from_vid_pid(vendor_id, device_id).map(|d| d.name().to_string())
}

/// The value of a hexadecimal attribute file: trimmed, leading `0x`
/// repetitions removed, read as hexadecimal, in range for its field.
pub open spec fn spec_hex_attr16(t: Seq<char>) -> Option<u16> {
    match spec_parse_hex(strip_0x(spec_trim(t))) {
        Some(v) => if v <= u16::MAX {
            Some(v as u16)
        } else {
            None
        },
        None => None,
    }
}

fn read_hex_attr16(text: &str) -> (r: Option<u16>)
    ensures
        r == spec_hex_attr16(text@),
{
    let stripped = strip_0x_exec(trim(text));
    crate::strutil::parse_u16_hex(stripped)
}

/// The class attribute's value with its low byte (the programming
/// interface) discarded: the class and subclass pair, which must fit
/// the class field.
pub open spec fn spec_class_attr(t: Seq<char>) -> Option<u16> {
    match spec_parse_hex(strip_0x(spec_trim(t))) {
        Some(v) => if v <= u64::MAX && v / 256 <= u16::MAX {
            Some((v / 256) as u16)
        } else {
            None
        },
        None => None,
    }
}

fn read_class_attr(text: &str) -> (r: Option<u16>)
    ensures
        r == spec_class_attr(text@),
{
    let stripped = strip_0x_exec(trim(text));
    match parse_u64_hex(stripped) {
        Some(v) => {
            let high = v / 256;
            if high <= u16::MAX as u64 {
                Some(high as u16)
            } else {
                None
            }
        },
        None => {
            proof {
                if spec_parse_hex(strip_0x(spec_trim(text@))) is Some {
                    crate::strutil::lemma_parse_hex_nonneg(strip_0x(spec_trim(text@)));
                }
            }
            None
        },
    }
}

/// A hexadecimal location component, in range for a byte-wide field.
pub open spec fn spec_hex_u8(t: Seq<char>) -> Option<u8> {
    match spec_parse_hex(t) {
        Some(v) => if v <= u8::MAX {
            Some(v as u8)
        } else {
            None
        },
        None => None,
    }
}

fn parse_u8_hex(s: &str) -> (r: Option<u8>)
    ensures
        r == spec_hex_u8(s@),
{
    match parse_u64_hex(s) {
        Some(v) => {
            if v <= u8::MAX as u64 {
                Some(v as u8)
            } else {
                None
            }
        },
        None => {
            proof {
                if spec_parse_hex(s@) is Some {
                    crate::strutil::lemma_parse_hex_nonneg(s@);
                }
            }
            None
        },
    }
}

/// The location and identity parsed from one PCI directory entry. The
/// directory name is the textual location
/// `<domain>:<bus>:<device>.<function>`: split at `':'` it must have
/// exactly three hexadecimal parts, the third of which splits at `'.'`
/// into the device and the function; the vendor, device and class
/// attributes must each parse, the class attribute's low byte being
/// discarded. Any malformed component rejects the whole entry.
pub open spec fn spec_read_pci_info(ev: PciCardEvidenceView) -> Option<PciInfo> {
    let parts = spec_split(ev.name, ':');
    if parts.len() != 3 {
        None
    } else {
        let domain = spec_parse_hex(parts[0]);
        let bus = spec_hex_u8(parts[1]);
        let dev_fn = spec_split(parts[2], '.');
        if domain is None || domain.unwrap() > u16::MAX || bus is None || dev_fn.len() != 2 {
            None
        } else {
            let device = spec_hex_u8(dev_fn[0]);
            let function = spec_hex_u8(dev_fn[1]);
            let vendor_id = match ev.vendor {
                Some(t) => spec_hex_attr16(t),
                None => None,
            };
            let device_id = match ev.device {
                Some(t) => spec_hex_attr16(t),
                None => None,
            };
            let class_id = match ev.class {
                Some(t) => spec_class_attr(t),
                None => None,
            };
            if device is None || function is None || vendor_id is None || device_id is None
                || class_id is None {
                None
            } else {
                Some(
                    PciInfo {
                        vendor_id: vendor_id.unwrap(),
                        device_id: device_id.unwrap(),
                        class_id: class_id.unwrap(),
                        domain: domain.unwrap() as u16,
                        bus: bus.unwrap(),
                        device: device.unwrap(),
                        function: function.unwrap(),
                    },
                )
            }
        }
    }
}

/// Parses the location and identity of one PCI directory entry.
pub fn read_pci_info(ev: &PciCardEvidence) -> (r: Option<PciInfo>)
    ensures
        r == spec_read_pci_info(ev@),
{
    let parts = split_char(ev.name.as_str(), ':');
    let ghost pv = parts.deep_view();
    if parts.len() != 3 {
        return None;
    }
    proof {
        assert(parts@[0]@ == pv[0]);
        assert(parts@[1]@ == pv[1]);
        assert(parts@[2]@ == pv[2]);
    }
    let domain = match crate::strutil::parse_u16_hex(parts[0].as_str()) {
        Some(v) => v,
        None => {
            proof {
                if spec_parse_hex(pv[0]) is Some {
                    crate::strutil::lemma_parse_hex_nonneg(pv[0]);
                }
            }
            return None;
        },
    };
    let bus = match parse_u8_hex(parts[1].as_str()) {
        Some(v) => v,
        None => {
            return None;
        },
    };
    let dev_fn = split_char(parts[2].as_str(), '.');
    let ghost dv = dev_fn.deep_view();
    if dev_fn.len() != 2 {
        return None;
    }
    proof {
        assert(dev_fn@[0]@ == dv[0]);
        assert(dev_fn@[1]@ == dv[1]);
    }
    let device = match parse_u8_hex(dev_fn[0].as_str()) {
        Some(v) => v,
        None => {
            return None;
        },
    };
    let function = match parse_u8_hex(dev_fn[1].as_str()) {
        Some(v) => v,
        None => {
            return None;
        },
    };
    let vendor_id = match &ev.vendor {
        Some(t) => match read_hex_attr16(t.as_str()) {
            Some(v) => v,
            None => {
                return None;
            },
        },
        None => {
            return None;
        },
    };
    let device_id = match &ev.device {
        Some(t) => match read_hex_attr16(t.as_str()) {
            Some(v) => v,
            None => {
                return None;
            },
        },
        None => {
            return None;
        },
    };
    let class_id = match &ev.class {
        Some(t) => match read_class_attr(t.as_str()) {
            Some(v) => v,
            None => {
                return None;
            },
        },
        None => {
            return None;
        },
    };
    Some(
        PciInfo {
            vendor_id,
            device_id,
            class_id,
            domain,
            bus,
            device,
            function,
        },
    )
}

/// The display-class codes this probe keeps.
pub open spec fn spec_is_display_adapter(class_id: u16) -> bool {
    class_id == 0x0300 || class_id == 0x0302
}

/// A PCI class is a display adapter: a display controller or a
/// three-dimensional controller.
pub fn is_display_adapter(class_id: u16) -> (r: bool)
    ensures
        r == spec_is_display_adapter(class_id),
{
    class_id == 0x0300 || class_id == 0x0302
}

/// End (exclusive) of the run of whitespace starting at `p`.
pub open spec fn space_run_end(s: Seq<char>, p: int) -> int
    decreases s.len() - p,
{
    if 0 <= p < s.len() && is_space(s[p]) {
        space_run_end(s, p + 1)
    } else {
        p
    }
}

/// End (exclusive) of the run of non-whitespace starting at `p`.
pub open spec fn token_run_end(s: Seq<char>, p: int) -> int
    decreases s.len() - p,
{
    if 0 <= p < s.len() && !is_space(s[p]) {
        token_run_end(s, p + 1)
    } else {
        p
    }
}

/// The second whitespace-separated token of `s`, when it has one.
pub open spec fn spec_second_token(s: Seq<char>) -> Option<Seq<char>> {
    let a = space_run_end(s, 0);
    let b = token_run_end(s, a);
    let c = space_run_end(s, b);
    if c < s.len() {
        Some(s.subrange(c, token_run_end(s, c)))
    } else {
        None
    }
}

fn space_run_end_exec(s: &str, p: usize) -> (r: usize)
    requires
        p <= s@.len(),
    ensures
        r == space_run_end(s@, p as int),
        p <= r <= s@.len(),
{
    let len = s.unicode_len();
    let mut m = p;
    while m < len && crate::strutil::is_space_exec(s.get_char(m))
        invariant
            p <= m <= len,
            len == s@.len(),
            space_run_end(s@, p as int) == space_run_end(s@, m as int),
        decreases len - m,
    {
        m = m + 1;
    }
    m
}

fn token_run_end_exec(s: &str, p: usize) -> (r: usize)
    requires
        p <= s@.len(),
    ensures
        r == token_run_end(s@, p as int),
        p <= r <= s@.len(),
{
    let len = s.unicode_len();
    let mut m = p;
    while m < len && !crate::strutil::is_space_exec(s.get_char(m))
        invariant
            p <= m <= len,
            len == s@.len(),
            token_run_end(s@, p as int) == token_run_end(s@, m as int),
        decreases len - m,
    {
        m = m + 1;
    }
    m
}

fn second_token(s: &str) -> (r: Option<&str>)
    ensures
        r is Some <==> spec_second_token(s@) is Some,
        r is Some ==> r.unwrap()@ == spec_second_token(s@).unwrap(),
{
    let len = s.unicode_len();
    let a = space_run_end_exec(s, 0);
    let b = token_run_end_exec(s, a);
    let c = space_run_end_exec(s, b);
    if c < len {
        let d = token_run_end_exec(s, c);
        Some(s.substring_char(c, d))
    } else {
        None
    }
}

/// `s` with every repetition of a trailing `"Mhz"` removed, as
/// `str::trim_end_matches("Mhz")` leaves it.
pub open spec fn strip_mhz_end(s: Seq<char>) -> Seq<char>
    decreases s.len(),
{
    if s.len() >= 3 && matches_at(s, "Mhz"@, s.len() - 3) {
        strip_mhz_end(s.subrange(0, s.len() - 3))
    } else {
        s
    }
}

fn strip_mhz_end_exec(s: &str) -> (r: &str)
    ensures
        r@ == strip_mhz_end(s@),
    decreases s@.len(),
{
    proof {
        reveal_strlit("Mhz");
    }
    let len = s.unicode_len();
    if len >= 3 && matches_at_exec(s, "Mhz", len - 3) {
        strip_mhz_end_exec(s.substring_char(0, len - 3))
    } else {
        s
    }
}

/// The vendor tag a PCI vendor identifier resolves to; an unknown
/// identifier keeps its hexadecimal form in the free-text tag.
pub open spec fn spec_pci_vendor(vendor_id: u16) -> GpuVendorView {
    if vendor_id == 0x10de {
        GpuVendorView::Nvidia
    } else if vendor_id == 0x1002 {
        GpuVendorView::Amd
    } else if vendor_id == 0x8086 {
        GpuVendorView::Intel
    } else {
        GpuVendorView::Other("Unknown (0x"@ + hex4_of(vendor_id) + ")"@)
    }
}

/// The display name resolved from the identifier database: vendor and
/// device names where listed, labelled hexadecimal fallbacks where not.
pub open spec fn spec_pci_display_name(vendor_id: u16, device_id: u16) -> Seq<char> {
    match pci_db_vendor_name(vendor_id) {
        Some(vn) => match pci_db_device_name(vendor_id, device_id) {
            Some(dn) => vn + " "@ + dn,
            None => vn + " Device "@ + hex4_of(device_id),
        },
        None => "Unknown Device "@ + hex4_of(vendor_id) + ":"@ + hex4_of(device_id),
    }
}

/// The best-effort clock pair read back through the vendor-style
/// attributes under the entry's relative device path: the second token
/// of the frequency table's last line with its unit suffix removed, or
/// else the plain maximum-frequency attribute; both clocks get the one
/// value found, zero otherwise.
pub open spec fn spec_pci_clocks(ev: PciCardEvidenceView) -> u32 {
    match ev.pp_dpm_sclk {
        Some(content) => {
            let lines = spec_lines(content);
            if lines.len() > 0 {
                match spec_second_token(lines.last()) {
                    Some(tok) => match spec_parse_dec(strip_mhz_end(tok)) {
                        Some(v) => if v <= u32::MAX {
                            v as u32
                        } else {
                            0u32
                        },
                        None => 0u32,
                    },
                    None => 0u32,
                }
            } else {
                0u32
            }
        },
        None => match ev.gt_max_freq_mhz {
            Some(content) => match spec_parse_dec(spec_trim(content)) {
                Some(v) => if v <= u32::MAX {
                    v as u32
                } else {
                    0u32
                },
                None => 0u32,
            },
            None => 0u32,
        },
    }
}

/// The profile one retained PCI entry yields: identity from the
/// database, the attachment point, and the best-effort clock.
pub open spec fn spec_pci_profile(pci: PciInfo, ev: PciCardEvidenceView) -> GpuInfoView {
    let name = spec_pci_display_name(pci.vendor_id, pci.device_id);
    let clock = spec_pci_clocks(ev);
    GpuInfoView {
        name: name,
        vendor: spec_pci_vendor(pci.vendor_id),
        architecture: "Unknown"@,
        chip: "Unknown"@,
        process_nm: None,
        freq_mhz: clock,
        max_freq_mhz: clock,
        memory: None,
        topology: None,
        cache: None,
        pci_info: Some(pci),
        driver_version: None,
        compute_capability: None,
        opengl_version: None,
        vulkan_version: None,
        opencl_version: None,
        peak_performance_mflops: None,
        is_integrated: false,
    }
}

/// Builds the profile of one retained PCI entry.
pub fn create_gpu_info_from_pci(pci_info: &PciInfo, ev: &PciCardEvidence) -> (r: GpuInfo)
    ensures
        r@ == spec_pci_profile(*pci_info, ev@),
{
    let vendor = if pci_info.vendor_id == 0x10de {
        GpuVendor::Nvidia
    } else if pci_info.vendor_id == 0x1002 {
        GpuVendor::Amd
    } else if pci_info.vendor_id == 0x8086 {
        GpuVendor::Intel
    } else {
        let label = String::from_str("Unknown (0x").concat(
            u16_to_hex4(pci_info.vendor_id).as_str(),
        ).concat(")");
        proof {
            assert(label@ =~= "Unknown (0x"@ + hex4_of(pci_info.vendor_id) + ")"@);
        }
        GpuVendor::Other(label)
    };

    let device_name: String = match lookup_vendor_name(pci_info.vendor_id) {
        Some(vendor_name) => {
            match lookup_device_name(pci_info.vendor_id, pci_info.device_id) {
                Some(dn) => {
                    let r = vendor_name.concat(" ").concat(dn.as_str());
                    proof {
                        assert(r@ =~= spec_pci_display_name(
                            pci_info.vendor_id,
                            pci_info.device_id,
                        ));
                    }
                    r
                },
                None => {
                    let r = vendor_name.concat(" Device ").concat(
                        u16_to_hex4(pci_info.device_id).as_str(),
                    );
                    proof {
                        assert(r@ =~= spec_pci_display_name(
                            pci_info.vendor_id,
                            pci_info.device_id,
                        ));
                    }
                    r
                },
            }
        },
        None => {
            let r = String::from_str("Unknown Device ").concat(
                u16_to_hex4(pci_info.vendor_id).as_str(),
            ).concat(":").concat(u16_to_hex4(pci_info.device_id).as_str());
            proof {
                assert(r@ =~= spec_pci_display_name(pci_info.vendor_id, pci_info.device_id));
            }
            r
        },
    };

    let mut gpu_info = GpuInfo::new(device_name.as_str(), vendor);
    gpu_info.pci_info = Some(*pci_info);

    match &ev.pp_dpm_sclk {
        Some(content) => {
            let lines = lines_of(content.as_str());
            let ghost lv = lines.deep_view();
            if lines.len() > 0 {
                proof {
                    assert(lines@[lines@.len() - 1]@ == lv.last());
                }
                match second_token(lines[lines.len() - 1].as_str()) {
                    Some(tok) => {
                        match parse_u32_dec(strip_mhz_end_exec(tok)) {
                            Some(mhz) => {
                                gpu_info.freq_mhz = mhz;
                                gpu_info.max_freq_mhz = mhz;
                            },
                            None => {},
                        }
                    },
                    None => {},
                }
            }
        },
        None => {
            match &ev.gt_max_freq_mhz {
                Some(content) => {
                    match parse_u32_dec(trim(content.as_str())) {
                        Some(mhz) => {
                            gpu_info.freq_mhz = mhz;
                            gpu_info.max_freq_mhz = mhz;
                        },
                        None => {},
                    }
                },
                None => {},
            }
        },
    }

    proof {
        assert(gpu_info@ =~= spec_pci_profile(*pci_info, ev@));
    }
    gpu_info
}

/// What the fallback probe yields over a readable PCI directory: one
/// profile per entry that parses and is display-class, in directory
/// order.
pub open spec fn spec_detect_pci_entries(entries: Seq<PciCardEvidenceView>) -> Seq<GpuInfoView>
    decreases entries.len(),
{
    if entries.len() == 0 {
        Seq::empty()
    } else {
        let rest = spec_detect_pci_entries(entries.drop_last());
        match spec_read_pci_info(entries.last()) {
            Some(pci) => if spec_is_display_adapter(pci.class_id) {
                rest + seq![spec_pci_profile(pci, entries.last())]
            } else {
                rest
            },
            None => rest,
        }
    }
}

/// The generic PCI probe: `None` for the directory evidence means the
/// PCI device tree is wholly absent, the one hard error of the system.
pub fn detect_gpus_from_pci(root: Option<&Vec<PciCardEvidence>>) -> (r: Result<
    Vec<GpuInfo>,
    DetectError,
>)
    ensures
        r is Ok <==> root is Some,
        r is Ok ==> profile_views(r.unwrap()@) == spec_detect_pci_entries(
            pci_views(root.unwrap()@),
        ),
        r is Err ==> r.unwrap_err() == DetectError::PciUnavailable,
{
    match root {
        None => Err(DetectError::PciUnavailable),
        Some(entries) => {
            let ghost evs = pci_views(entries@);
            let mut gpus: Vec<GpuInfo> = Vec::new();
            let n = entries.len();
            let mut i: usize = 0;
            proof {
                assert(profile_views(gpus@) =~= spec_detect_pci_entries(evs.subrange(0, 0)));
            }
            while i < n
                invariant
                    n == entries.len(),
                    pci_views(entries@) == evs,
                    0 <= i <= n,
                    profile_views(gpus@) =~= spec_detect_pci_entries(evs.subrange(0, i as int)),
                decreases n - i,
            {
                proof {
                    assert(entries@[i as int]@ == evs[i as int]);
                    assert(evs.subrange(0, i + 1).drop_last() =~= evs.subrange(0, i as int));
                    assert(evs.subrange(0, i + 1).last() == evs[i as int]);
                }
                match read_pci_info(&entries[i]) {
                    Some(pci_info) => {
                        if is_display_adapter(pci_info.class_id) {
                            let ghost pre = gpus@;
                            let gpu = create_gpu_info_from_pci(&pci_info, &entries[i]);
                            gpus.push(gpu);
                            proof {
                                assert(profile_views(gpus@) =~= profile_views(pre).push(gpu@));
                            }
                        }
                    },
                    None => {},
                }
                i = i + 1;
            }
            proof {
                assert(evs.subrange(0, n as int) =~= evs);
            }
            Ok(gpus)
        },
    }
}

} // verus!
