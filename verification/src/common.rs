//! The shared data model: the per-device profile and its component
//! blocks, together with their mathematical views.

use vstd::prelude::*;

use crate::strutil::dec_digits_of;
use crate::strutil::round_half_even;
use crate::strutil::round_half_even_u64;
use crate::strutil::u64_to_string;
use crate::strutil::u32_to_string;

verus! {

/// The one error a probe can surface: its tool ran and failed, or — for
/// the generic fallback only — the PCI device tree is wholly absent.
#[derive(Clone, Copy, Debug, PartialEq, Eq)]
pub enum DetectError {
    /// A vendor tool was present but its invocation did not succeed.
    CommandFailed,
    /// The flat PCI device directory does not exist at all.
    PciUnavailable,
}

/// The views of a sequence of profiles.
pub open spec fn profile_views(s: Seq<GpuInfo>) -> Seq<GpuInfoView> {
    s.map_values(|g: GpuInfo| g@)
}

/// The vendor tag of a device; an unrecognized vendor keeps its raw
/// label rather than being discarded.
#[derive(Clone, Debug, PartialEq, Eq)]
pub enum GpuVendor {
    Nvidia,
    Amd,
    Intel,
    Arm,
    Other(String),
}

/// Mathematical view of a vendor tag.
#[verifier::ext_equal]
pub ghost enum GpuVendorView {
    Nvidia,
    Amd,
    Intel,
    Arm,
    Other(Seq<char>),
}

impl View for GpuVendor {
    type V = GpuVendorView;

    open spec fn view(&self) -> GpuVendorView {
        match self {
            GpuVendor::Nvidia => GpuVendorView::Nvidia,
            GpuVendor::Amd => GpuVendorView::Amd,
            GpuVendor::Intel => GpuVendorView::Intel,
            GpuVendor::Arm => GpuVendorView::Arm,
            GpuVendor::Other(s) => GpuVendorView::Other(s@),
        }
    }
}

impl GpuVendor {
    /// The display label of the vendor tag.
    pub fn label(&self) -> (r: String)
        ensures
            r@ == spec_vendor_label(self@),
    {
        match self {
            GpuVendor::Nvidia => String::from_str("NVIDIA"),
            GpuVendor::Amd => String::from_str("AMD"),
            GpuVendor::Intel => String::from_str("Intel"),
            GpuVendor::Arm => String::from_str("ARM"),
            GpuVendor::Other(name) => name.clone(),
        }
    }
}

pub open spec fn spec_vendor_label(v: GpuVendorView) -> Seq<char> {
    match v {
        GpuVendorView::Nvidia => "NVIDIA"@,
        GpuVendorView::Amd => "AMD"@,
        GpuVendorView::Intel => "Intel"@,
        GpuVendorView::Arm => "ARM"@,
        GpuVendorView::Other(s) => s,
    }
}

/// Memory technology tag.
#[derive(Clone, Copy, Debug, PartialEq, Eq)]
pub enum MemoryType {
    Ddr3,
    Ddr4,
    Gddr5,
    Gddr5X,
    Gddr6,
    Gddr6X,
    Hbm,
    Hbm2,
    Unknown,
}

impl MemoryType {
    /// The display label of the memory technology.
    pub fn label(&self) -> (r: String)
        ensures
            r@ == spec_memory_type_label(*self),
    {
        match self {
            MemoryType::Ddr3 => String::from_str("DDR3"),
            MemoryType::Ddr4 => String::from_str("DDR4"),
            MemoryType::Gddr5 => String::from_str("GDDR5"),
            MemoryType::Gddr5X => String::from_str("GDDR5X"),
            MemoryType::Gddr6 => String::from_str("GDDR6"),
            MemoryType::Gddr6X => String::from_str("GDDR6X"),
            MemoryType::Hbm => String::from_str("HBM"),
            MemoryType::Hbm2 => String::from_str("HBM2"),
            MemoryType::Unknown => String::from_str("Unknown"),
        }
    }
}

pub open spec fn spec_memory_type_label(t: MemoryType) -> Seq<char> {
    match t {
        MemoryType::Ddr3 => "DDR3"@,
        MemoryType::Ddr4 => "DDR4"@,
        MemoryType::Gddr5 => "GDDR5"@,
        MemoryType::Gddr5X => "GDDR5X"@,
        MemoryType::Gddr6 => "GDDR6"@,
        MemoryType::Gddr6X => "GDDR6X"@,
        MemoryType::Hbm => "HBM"@,
        MemoryType::Hbm2 => "HBM2"@,
        MemoryType::Unknown => "Unknown"@,
    }
}

/// The memory block of a profile.
#[derive(Clone, Debug, PartialEq, Eq)]
pub struct Memory {
    pub size_bytes: u64,
    pub memory_type: MemoryType,
    pub bus_width: u32,
    pub clock_mhz: u32,
}

/// Compute topology; only the fields relevant to the owning vendor are
/// populated, the rest stay absent to distinguish "not applicable" from
/// "measured as zero".
#[derive(Clone, Debug, PartialEq, Eq)]
pub struct Topology {
    pub compute_units: u32,
    pub cuda_cores: Option<u32>,
    pub tensor_cores: Option<u32>,
    pub rt_cores: Option<u32>,
    pub sm_count: Option<u32>,
    pub stream_processors: Option<u32>,
    pub rops: Option<u32>,
    pub tmus: Option<u32>,
    pub execution_units: Option<u32>,
    pub slices: Option<u32>,
    pub subslices: Option<u32>,
}

/// Cache sizes in bytes; absence means "not published or not
/// determined", not "no cache".
#[derive(Clone, Debug, PartialEq, Eq)]
pub struct Cache {
    pub l1_size: Option<u64>,
    pub l2_size: Option<u64>,
    pub l3_size: Option<u64>,
}

/// Physical attachment point of a PCI function.
#[derive(Clone, Copy, Debug, PartialEq, Eq)]
pub struct PciInfo {
    pub vendor_id: u16,
    pub device_id: u16,
    pub class_id: u16,
    pub domain: u16,
    pub bus: u8,
    pub device: u8,
    pub function: u8,
}

/// The normalized per-device record this library produces.
#[derive(Clone, Debug, PartialEq)]
pub struct GpuInfo {
    pub name: String,
    pub vendor: GpuVendor,
    pub architecture: String,
    pub chip: String,
    pub process_nm: Option<u32>,
    pub freq_mhz: u32,
    pub max_freq_mhz: u32,
    pub memory: Option<Memory>,
    pub topology: Option<Topology>,
    pub cache: Option<Cache>,
    pub pci_info: Option<PciInfo>,
    pub driver_version: Option<String>,
    pub compute_capability: Option<String>,
    pub opengl_version: Option<String>,
    pub vulkan_version: Option<String>,
    pub opencl_version: Option<String>,
    pub peak_performance_mflops: Option<u64>,
    pub is_integrated: bool,
}

/// Mathematical view of a profile: text fields become character
/// sequences, everything else is carried as is.
#[verifier::ext_equal]
pub ghost struct GpuInfoView {
    pub name: Seq<char>,
    pub vendor: GpuVendorView,
    pub architecture: Seq<char>,
    pub chip: Seq<char>,
    pub process_nm: Option<u32>,
    pub freq_mhz: u32,
    pub max_freq_mhz: u32,
    pub memory: Option<Memory>,
    pub topology: Option<Topology>,
    pub cache: Option<Cache>,
    pub pci_info: Option<PciInfo>,
    pub driver_version: Option<Seq<char>>,
    pub compute_capability: Option<Seq<char>>,
    pub opengl_version: Option<Seq<char>>,
    pub vulkan_version: Option<Seq<char>>,
    pub opencl_version: Option<Seq<char>>,
    pub peak_performance_mflops: Option<u64>,
    pub is_integrated: bool,
}

pub open spec fn view_opt_string(s: Option<String>) -> Option<Seq<char>> {
    match s {
        Some(v) => Some(v@),
        None => None,
    }
}

impl View for GpuInfo {
    type V = GpuInfoView;

    open spec fn view(&self) -> GpuInfoView {
        GpuInfoView {
            name: self.name@,
            vendor: self.vendor@,
            architecture: self.architecture@,
            chip: self.chip@,
            process_nm: self.process_nm,
            freq_mhz: self.freq_mhz,
            max_freq_mhz: self.max_freq_mhz,
            memory: self.memory,
            topology: self.topology,
            cache: self.cache,
            pci_info: self.pci_info,
            driver_version: view_opt_string(self.driver_version),
            compute_capability: view_opt_string(self.compute_capability),
            opengl_version: view_opt_string(self.opengl_version),
            vulkan_version: view_opt_string(self.vulkan_version),
            opencl_version: view_opt_string(self.opencl_version),
            peak_performance_mflops: self.peak_performance_mflops,
            is_integrated: self.is_integrated,
        }
    }
}

/// The view of a freshly constructed profile: typed, named, everything
/// else still unknown or absent.
pub open spec fn spec_new_profile(name: Seq<char>, vendor: GpuVendorView) -> GpuInfoView {
    GpuInfoView {
        name: name,
        vendor: vendor,
        architecture: "Unknown"@,
        chip: "Unknown"@,
        process_nm: None,
        freq_mhz: 0,
        max_freq_mhz: 0,
        memory: None,
        topology: None,
        cache: None,
        pci_info: None,
        driver_version: None,
        compute_capability: None,
        opengl_version: None,
        vulkan_version: None,
        opencl_version: None,
        peak_performance_mflops: None,
        is_integrated: false,
    }
}

impl GpuInfo {
    /// A profile constructed empty-but-typed by its owning probe, to be
    /// enriched field by field as evidence is consulted.
    pub fn new(name: &str, vendor: GpuVendor) -> (r: GpuInfo)
        ensures
            r@ == spec_new_profile(name@, vendor@),
    {
        let r = GpuInfo {
            name: String::from_str(name),
            vendor: vendor,
            architecture: String::from_str("Unknown"),
            chip: String::from_str("Unknown"),
            process_nm: None,
            freq_mhz: 0,
            max_freq_mhz: 0,
            memory: None,
            topology: None,
            cache: None,
            pci_info: None,
            driver_version: None,
            compute_capability: None,
            opengl_version: None,
            vulkan_version: None,
            opencl_version: None,
            peak_performance_mflops: None,
            is_integrated: false,
        };
        proof {
            assert(r@ =~= spec_new_profile(name@, vendor@));
        }
        r
    }

    /// Memory size as display text: mebibytes, or gibibytes to one
    /// decimal (rounded to nearest, ties to even) from one gibibyte
    /// on.
    pub fn get_memory_size_readable(&self) -> (r: String)
        ensures
            r@ == spec_memory_size_readable(self@.memory),
    {
        match &self.memory {
            Some(memory) => {
                let size_mb = memory.size_bytes / 1024 / 1024;
                if size_mb >= 1024 {
                    let tenths = round_half_even_u64(size_mb * 10, 1024);
                    let r = u64_to_string(tenths / 10).concat(".").concat(
                        u64_to_string(tenths % 10).as_str(),
                    ).concat(" GB");
                    proof {
                        assert(r@ =~= spec_memory_size_readable(self@.memory));
                    }
                    r
                } else {
                    let r = u64_to_string(size_mb).concat(" MB");
                    proof {
                        assert(r@ =~= spec_memory_size_readable(self@.memory));
                    }
                    r
                }
            },
            None => String::from_str("Unknown"),
        }
    }

    /// Process node as display text.
    pub fn get_process_readable(&self) -> (r: String)
        ensures
            r@ == spec_process_readable(self@.process_nm),
    {
        match self.process_nm {
            Some(nm) => {
                let r = u32_to_string(nm).concat(" nm");
                proof {
                    assert(r@ =~= spec_process_readable(self@.process_nm));
                }
                r
            },
            None => String::from_str("Unknown"),
        }
    }

    /// The vendor-relevant compute-unit count as display text.
    pub fn get_compute_units_readable(&self) -> (r: String)
        ensures
            r@ == spec_compute_units_readable(self@.vendor, self@.topology),
    {
        match &self.topology {
            Some(topology) => {
                match &self.vendor {
                    GpuVendor::Nvidia => {
                        match topology.cuda_cores {
                            Some(cores) => {
                                let r = u32_to_string(cores).concat(" CUDA Cores");
                                proof {
                                    assert(r@ =~= spec_compute_units_readable(
                                        self@.vendor,
                                        self@.topology,
                                    ));
                                }
                                r
                            },
                            None => String::from_str("Unknown CUDA Cores"),
                        }
                    },
                    GpuVendor::Amd => {
                        match topology.stream_processors {
                            Some(sps) => {
                                let r = u32_to_string(sps).concat(" Stream Processors");
                                proof {
                                    assert(r@ =~= spec_compute_units_readable(
                                        self@.vendor,
                                        self@.topology,
                                    ));
                                }
                                r
                            },
                            None => String::from_str("Unknown Stream Processors"),
                        }
                    },
                    GpuVendor::Intel => {
                        match topology.execution_units {
                            Some(eus) => {
                                let r = u32_to_string(eus).concat(" Execution Units");
                                proof {
                                    assert(r@ =~= spec_compute_units_readable(
                                        self@.vendor,
                                        self@.topology,
                                    ));
                                }
                                r
                            },
                            None => String::from_str("Unknown Execution Units"),
                        }
                    },
                    _ => {
                        let r = u32_to_string(topology.compute_units).concat(" Compute Units");
                        proof {
                            assert(r@ =~= spec_compute_units_readable(self@.vendor, self@.topology));
                        }
                        r
                    },
                }
            },
            None => String::from_str("Unknown Compute Units"),
        }
    }
}

pub open spec fn spec_memory_size_readable(memory: Option<Memory>) -> Seq<char> {
    match memory {
        Some(m) => {
            let size_mb = m.size_bytes as int / 1024 / 1024;
            if size_mb >= 1024 {
                let tenths = round_half_even(size_mb * 10, 1024);
                dec_digits_of((tenths / 10) as nat) + "."@ + dec_digits_of((tenths % 10) as nat)
                    + " GB"@
            } else {
                dec_digits_of(size_mb as nat) + " MB"@
            }
        },
        None => "Unknown"@,
    }
}

pub open spec fn spec_process_readable(process_nm: Option<u32>) -> Seq<char> {
    match process_nm {
        Some(nm) => dec_digits_of(nm as nat) + " nm"@,
        None => "Unknown"@,
    }
}

pub open spec fn spec_compute_units_readable(
    vendor: GpuVendorView,
    topology: Option<Topology>,
) -> Seq<char> {
    match topology {
        Some(t) => match vendor {
            GpuVendorView::Nvidia => match t.cuda_cores {
                Some(cores) => dec_digits_of(cores as nat) + " CUDA Cores"@,
                None => "Unknown CUDA Cores"@,
            },
            GpuVendorView::Amd => match t.stream_processors {
                Some(sps) => dec_digits_of(sps as nat) + " Stream Processors"@,
                None => "Unknown Stream Processors"@,
            },
            GpuVendorView::Intel => match t.execution_units {
                Some(eus) => dec_digits_of(eus as nat) + " Execution Units"@,
                None => "Unknown Execution Units"@,
            },
            _ => dec_digits_of(t.compute_units as nat) + " Compute Units"@,
        },
        None => "Unknown Compute Units"@,
    }
}

} // verus!
