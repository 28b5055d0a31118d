//! The run configuration the presentation layer hands in: which device
//! to show and how. The unverified shell parses the command line into
//! its own copy of these types and converts.

use vstd::prelude::*;

verus! {

/// Color scheme selection.
#[derive(Clone, Copy, Debug, PartialEq, Eq)]
pub enum ColorScheme {
    /// Vendor-matched system colors.
    System,
    /// Nvidia green colors.
    Nvidia,
    /// Amd red colors.
    Amd,
    /// Intel blue colors.
    Intel,
    /// A custom scheme supplied separately.
    Custom,
}

/// Logo size selection.
#[derive(Clone, Copy, Debug, PartialEq, Eq)]
pub enum LogoVariant {
    /// Regular sized logo.
    Normal,
    /// Short variant of the logo.
    Short,
    /// Long variant of the logo.
    Long,
    /// No logo, information only.
    Hidden,
}

/// A detection-and-display run's configuration.
#[derive(Clone, Debug, PartialEq, Eq)]
pub struct Args {
    /// Which device to display; negative means all devices.
    pub gpu_index: i32,
    /// Just list the detected devices and exit.
    pub list_only: bool,
    /// Color scheme to use.
    pub color_scheme: ColorScheme,
    /// Custom colors, four comma-separated triples joined by colons.
    pub custom_colors: Option<String>,
    /// Logo size variant.
    pub logo_variant: LogoVariant,
    /// Display detailed information.
    pub detailed: bool,
    /// Disable color output.
    pub no_color: bool,
    /// Enable diagnostic output.
    pub verbose: bool,
}

impl Default for Args {
    /// The defaults of the command line: first device, full output,
    /// system colors, regular logo, everything else off.
    fn default() -> (r: Args)
        ensures
            r.gpu_index == 0,
            !r.list_only,
            r.color_scheme == ColorScheme::System,
            r.custom_colors is None,
            r.logo_variant == LogoVariant::Normal,
            !r.detailed,
            !r.no_color,
            !r.verbose,
    {
        Args {
            gpu_index: 0,
            list_only: false,
            color_scheme: ColorScheme::System,
            custom_colors: None,
            logo_variant: LogoVariant::Normal,
            detailed: false,
            no_color: false,
            verbose: false,
        }
    }
}

} // verus!
