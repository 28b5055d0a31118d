//! The detection orchestrator: runs the vendor probes in fixed priority
//! order, concatenates their results, and falls back to the generic PCI
//! probe only when every vendor probe contributed nothing.

use vstd::prelude::*;

use crate::amd::detect_amd_gpus;
use crate::amd::spec_detect_amd;
use crate::common::DetectError;
use crate::common::GpuInfo;
use crate::common::GpuInfoView;
use crate::common::profile_views;
use crate::evidence::SystemEvidence;
use crate::evidence::SystemEvidenceView;
use crate::intel::detect_intel_gpus;
use crate::intel::spec_detect_intel;
use crate::nvidia::detect_nvidia_gpus;
use crate::nvidia::spec_detect_nvidia;
use crate::pci::detect_gpus_from_pci;
use crate::pci::spec_detect_pci_entries;

verus! {

/// The concatenation of the three vendor probes' results, in the fixed
/// priority order (a failed Nvidia invocation contributes nothing).
pub open spec fn spec_vendor_detections(ev: SystemEvidenceView) -> Seq<GpuInfoView> {
    let nv = match spec_detect_nvidia(ev.nvidia_smi) {
        Ok(s) => s,
        Err(_) => Seq::empty(),
    };
    nv + spec_detect_amd(ev.drm_cards, ev.rocm) + spec_detect_intel(ev.drm_cards, ev.intel_tools)
}

/// The aggregate detection result: the vendor probes' concatenation
/// when it is non-empty; otherwise exactly the generic PCI probe's
/// output, whose hard error (an absent PCI directory) is the one error
/// surfaced.
pub open spec fn spec_detect_all(ev: SystemEvidenceView) -> Result<Seq<GpuInfoView>, DetectError> {
    let combined = spec_vendor_detections(ev);
    if combined.len() > 0 {
        Ok(combined)
    } else {
        match ev.pci {
            Some(entries) => Ok(spec_detect_pci_entries(entries)),
            None => Err(DetectError::PciUnavailable),
        }
    }
}

/// Fallback ordering: when any vendor probe contributes a device, the
/// aggregate result is exactly the vendor concatenation, whatever the
/// PCI evidence holds — the fallback is never consulted; when all
/// vendor probes are empty, the aggregate result is exactly the generic
/// PCI probe's output.
pub proof fn lemma_fallback_ordering(ev1: SystemEvidenceView, ev2: SystemEvidenceView)
    requires
        ev1.nvidia_smi == ev2.nvidia_smi,
        ev1.drm_cards == ev2.drm_cards,
        ev1.rocm == ev2.rocm,
        ev1.intel_tools == ev2.intel_tools,
    ensures
        spec_vendor_detections(ev1).len() > 0 ==> spec_detect_all(ev1) == spec_detect_all(ev2),
        spec_vendor_detections(ev1).len() == 0 ==> spec_detect_all(ev1) == (match ev1.pci {
            Some(entries) => Ok::<Seq<GpuInfoView>, DetectError>(spec_detect_pci_entries(entries)),
            None => Err::<Seq<GpuInfoView>, DetectError>(DetectError::PciUnavailable),
        }),
{
    assert(spec_vendor_detections(ev1) == spec_vendor_detections(ev2));
}

/// Every profile the vendor probes contribute is named: the name
/// invariant of each probe, lifted to their concatenation. (The
/// fallback's names come from the identifier database or labelled
/// fallbacks, which this library does not constrain further.)
pub proof fn lemma_vendor_detections_named(ev: SystemEvidenceView)
    ensures
        forall|i: int|
            0 <= i < spec_vendor_detections(ev).len() ==> (#[trigger] spec_vendor_detections(
                ev,
            )[i]).name.len() > 0,
{
    crate::nvidia::lemma_nvidia_detection_named(ev.nvidia_smi);
    crate::amd::lemma_amd_detection_named(ev.drm_cards, ev.rocm);
    crate::intel::lemma_intel_detection_named(ev.drm_cards, ev.intel_tools);
}

/// Detection determinism: two aggregate results over the same evidence
/// are identical — the whole pipeline is a function of its evidence.
pub proof fn lemma_detection_deterministic(
    ev: SystemEvidenceView,
    r1: Result<Seq<GpuInfoView>, DetectError>,
    r2: Result<Seq<GpuInfoView>, DetectError>,
)
    requires
        r1 == spec_detect_all(ev),
        r2 == spec_detect_all(ev),
    ensures
        r1 == r2,
{
}

/// Manager for a detection run.
pub struct GpuManager {
    pub verbose: bool,
}

impl GpuManager {
    /// A manager with diagnostics off.
    pub fn new() -> (r: GpuManager)
        ensures
            r.verbose == false,
    {
        GpuManager { verbose: false }
    }

    /// The manager with the diagnostics setting replaced.
    pub fn with_verbose(self, verbose: bool) -> (r: GpuManager)
        ensures
            r.verbose == verbose,
    {
        GpuManager { verbose: verbose }
    }

    /// Runs the Nvidia, Amd and Intel probes over the gathered
    /// evidence, concatenating their results in that order; when all
    /// three contribute nothing, yields the generic PCI probe's output
    /// instead. A vendor probe's failure contributes zero devices; only
    /// the fallback's hard error is surfaced.
    pub fn detect_gpus(&self, evidence: &SystemEvidence) -> (r: Result<Vec<GpuInfo>, DetectError>)
        ensures
            ({
                let s = spec_detect_all(evidence@);
                match r {
                    Ok(v) => s is Ok && profile_views(v@) == s.unwrap(),
                    Err(e) => s == Err::<Seq<GpuInfoView>, DetectError>(e),
                }
            }),
    {
        let mut gpus: Vec<GpuInfo> = match detect_nvidia_gpus(&evidence.nvidia_smi) {
            Ok(nvidia_gpus) => nvidia_gpus,
            Err(_) => Vec::new(),
        };
        let ghost nv = profile_views(gpus@);

        let mut amd_gpus = detect_amd_gpus(&evidence.drm_cards, &evidence.rocm);
        let ghost av = profile_views(amd_gpus@);
        gpus.append(&mut amd_gpus);
        proof {
            assert(profile_views(gpus@) =~= nv + av);
        }

        let mut intel_gpus = detect_intel_gpus(&evidence.drm_cards, &evidence.intel_tools);
        let ghost iv = profile_views(intel_gpus@);
        gpus.append(&mut intel_gpus);
        proof {
            assert(profile_views(gpus@) =~= nv + av + iv);
            assert(profile_views(gpus@) == spec_vendor_detections(evidence@));
        }

        if gpus.len() == 0 {
            proof {
                assert(spec_vendor_detections(evidence@).len() == 0);
            }
            detect_gpus_from_pci(evidence.pci.as_ref())
        } else {
            Ok(gpus)
        }
    }
}

} // verus!
