//! Where the plots of an experiment are written.

use vstd::prelude::*;

verus! {

/// The files the plots of an experiment are written to.
pub struct ExportPaths {
    pub position_histogram: String,
    pub mh_position_histogram: String,
    pub momentum_histogram: String,
    pub momentum_scan: String,
    /// Which mass index to histogram momenta for. Defaults to the index
    /// whose mass is closest to `result.params.mass`.
    pub momentum_mass_index: Option<usize>,
}

impl Default for ExportPaths {
    /// The plots go to PDF files in the working directory, and the momentum
    /// histogram is drawn for the mass nearest to the experiment's mass.
    fn default() -> (paths: Self)
        ensures
            paths.position_histogram@ == "hmc_histogram.pdf"@,
            paths.mh_position_histogram@ == "mh_histogram.pdf"@,
            paths.momentum_histogram@ == "momentum_histogram.pdf"@,
            paths.momentum_scan@ == "momentum_std_vs_mass.pdf"@,
            paths.momentum_mass_index is None,
    {
        ExportPaths {
            position_histogram: String::from_str("hmc_histogram.pdf"),
            mh_position_histogram: String::from_str("mh_histogram.pdf"),
            momentum_histogram: String::from_str("momentum_histogram.pdf"),
            momentum_scan: String::from_str("momentum_std_vs_mass.pdf"),
            momentum_mass_index: None,
        }
    }
}

} // verus!
