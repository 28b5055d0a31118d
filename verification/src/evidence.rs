//! Raw evidence handed to the probes: attribute text read from the
//! kernel's device trees and captured output of external tools. The
//! unverified shell gathers these values; the probes consume them.

use vstd::prelude::*;

verus! {

/// Outcome of one external-tool invocation.
#[derive(Clone, Debug, PartialEq, Eq)]
pub enum ToolResult {
    /// The tool is not installed or not invocable.
    Missing,
    /// The tool ran but exited unsuccessfully, or its output was not
    /// readable text.
    Failed,
    /// The tool's captured standard output.
    Output(String),
}

/// Mathematical view of a tool invocation outcome.
#[verifier::ext_equal]
pub ghost enum ToolResultView {
    Missing,
    Failed,
    Output(Seq<char>),
}

impl View for ToolResult {
    type V = ToolResultView;

    open spec fn view(&self) -> ToolResultView {
        match self {
            ToolResult::Missing => ToolResultView::Missing,
            ToolResult::Failed => ToolResultView::Failed,
            ToolResult::Output(s) => ToolResultView::Output(s@),
        }
    }
}

/// Attribute text for one entry of the direct-rendering device class
/// directory. `name` is the entry's directory name; each attribute is
/// `Some` exactly when the file exists and was readable, with its raw
/// (untrimmed) content.
#[derive(Clone, Debug, PartialEq, Eq)]
pub struct DrmCardEvidence {
    pub name: String,
    pub vendor: Option<String>,
    pub device: Option<String>,
    pub product_name: Option<String>,
    pub modalias: Option<String>,
    pub pp_dpm_sclk: Option<String>,
    pub mem_info_vram_total: Option<String>,
    pub gt_max_freq_mhz: Option<String>,
    pub gt_min_freq_mhz: Option<String>,
}

/// Mathematical view of one device directory's attribute evidence.
#[verifier::ext_equal]
pub ghost struct DrmCardEvidenceView {
    pub name: Seq<char>,
    pub vendor: Option<Seq<char>>,
    pub device: Option<Seq<char>>,
    pub product_name: Option<Seq<char>>,
    pub modalias: Option<Seq<char>>,
    pub pp_dpm_sclk: Option<Seq<char>>,
    pub mem_info_vram_total: Option<Seq<char>>,
    pub gt_max_freq_mhz: Option<Seq<char>>,
    pub gt_min_freq_mhz: Option<Seq<char>>,
}

pub open spec fn view_opt_text(s: Option<String>) -> Option<Seq<char>> {
    match s {
        Some(v) => Some(v@),
        None => None,
    }
}

impl View for DrmCardEvidence {
    type V = DrmCardEvidenceView;

    open spec fn view(&self) -> DrmCardEvidenceView {
        DrmCardEvidenceView {
            name: self.name@,
            vendor: view_opt_text(self.vendor),
            device: view_opt_text(self.device),
            product_name: view_opt_text(self.product_name),
            modalias: view_opt_text(self.modalias),
            pp_dpm_sclk: view_opt_text(self.pp_dpm_sclk),
            mem_info_vram_total: view_opt_text(self.mem_info_vram_total),
            gt_max_freq_mhz: view_opt_text(self.gt_max_freq_mhz),
            gt_min_freq_mhz: view_opt_text(self.gt_min_freq_mhz),
        }
    }
}

/// Attribute text for one entry of the flat PCI device directory.
/// `name` is the entry's directory name (the textual PCI location);
/// the frequency fields carry the vendor-style clock attributes read
/// under the entry's relative device path, when present.
#[derive(Clone, Debug, PartialEq, Eq)]
pub struct PciCardEvidence {
    pub name: String,
    pub vendor: Option<String>,
    pub device: Option<String>,
    pub class: Option<String>,
    pub pp_dpm_sclk: Option<String>,
    pub gt_max_freq_mhz: Option<String>,
}

/// Mathematical view of one PCI directory entry's evidence.
#[verifier::ext_equal]
pub ghost struct PciCardEvidenceView {
    pub name: Seq<char>,
    pub vendor: Option<Seq<char>>,
    pub device: Option<Seq<char>>,
    pub class: Option<Seq<char>>,
    pub pp_dpm_sclk: Option<Seq<char>>,
    pub gt_max_freq_mhz: Option<Seq<char>>,
}

impl View for PciCardEvidence {
    type V = PciCardEvidenceView;

    open spec fn view(&self) -> PciCardEvidenceView {
        PciCardEvidenceView {
            name: self.name@,
            vendor: view_opt_text(self.vendor),
            device: view_opt_text(self.device),
            class: view_opt_text(self.class),
            pp_dpm_sclk: view_opt_text(self.pp_dpm_sclk),
            gt_max_freq_mhz: view_opt_text(self.gt_max_freq_mhz),
        }
    }
}

/// Evidence for the Intel driver-version scrape: whether the vendor
/// tool is present, and the captured output of each version source.
#[derive(Clone, Debug, PartialEq, Eq)]
pub struct IntelToolEvidence {
    /// The vendor GPU tool is installed.
    pub tool_available: bool,
    /// Display-server renderer text filtered to the version line.
    pub glx_version: ToolResult,
    /// Display-server renderer text filtered to the direct-rendering
    /// line.
    pub glx_direct: ToolResult,
    /// Installed kernel-module version metadata.
    pub modinfo: ToolResult,
}

/// Mathematical view of the Intel tool evidence.
#[verifier::ext_equal]
pub ghost struct IntelToolEvidenceView {
    pub tool_available: bool,
    pub glx_version: ToolResultView,
    pub glx_direct: ToolResultView,
    pub modinfo: ToolResultView,
}

impl View for IntelToolEvidence {
    type V = IntelToolEvidenceView;

    open spec fn view(&self) -> IntelToolEvidenceView {
        IntelToolEvidenceView {
            tool_available: self.tool_available,
            glx_version: self.glx_version@,
            glx_direct: self.glx_direct@,
            modinfo: self.modinfo@,
        }
    }
}

/// The views of a sequence of device-directory evidence records.
pub open spec fn drm_views(s: Seq<DrmCardEvidence>) -> Seq<DrmCardEvidenceView> {
    s.map_values(|e: DrmCardEvidence| e@)
}

/// The views of a sequence of PCI-directory evidence records.
pub open spec fn pci_views(s: Seq<PciCardEvidence>) -> Seq<PciCardEvidenceView> {
    s.map_values(|e: PciCardEvidence| e@)
}

/// Everything one detection run reads from the host, gathered up front
/// by the unverified shell: the Nvidia utility's outcome, the
/// direct-rendering device directory, the Amd enhancement utility's
/// outcome, the Intel version sources, and the flat PCI directory
/// (`None` when that directory does not exist at all).
#[derive(Clone, Debug, PartialEq, Eq)]
pub struct SystemEvidence {
    pub nvidia_smi: ToolResult,
    pub drm_cards: Vec<DrmCardEvidence>,
    pub rocm: ToolResult,
    pub intel_tools: IntelToolEvidence,
    pub pci: Option<Vec<PciCardEvidence>>,
}

/// Mathematical view of one detection run's evidence.
#[verifier::ext_equal]
pub ghost struct SystemEvidenceView {
    pub nvidia_smi: ToolResultView,
    pub drm_cards: Seq<DrmCardEvidenceView>,
    pub rocm: ToolResultView,
    pub intel_tools: IntelToolEvidenceView,
    pub pci: Option<Seq<PciCardEvidenceView>>,
}

impl View for SystemEvidence {
    type V = SystemEvidenceView;

    open spec fn view(&self) -> SystemEvidenceView {
        SystemEvidenceView {
            nvidia_smi: self.nvidia_smi@,
            drm_cards: drm_views(self.drm_cards@),
            rocm: self.rocm@,
            intel_tools: self.intel_tools@,
            pci: match self.pci {
                Some(entries) => Some(pci_views(entries@)),
                None => None,
            },
        }
    }
}

} // verus!
