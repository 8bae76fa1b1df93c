//! Monitor color metadata consumed by the capture pipeline when it picks a
//! texture format for a selected window.

use vstd::prelude::*;

verus! {

/// Color capabilities of one monitor: whether it is in an HDR color
/// space, its color depth, and its SDR reference white level in nits.
#[derive(Debug, Clone, Copy)]
pub struct GsMonitorColorInfo {
    pub hdr: bool,
    pub bits_per_color: u32,
    pub sdr_white_nits: u64,
}

/// Converts the SDR white level the OS reports for a display path —
/// expressed in thousandths of the 80-nit reference level — into nits.
/// The platform layer queries the level; this computes what it means.
pub fn sdr_white_level_to_nits(level: u32) -> (nits: u64)
    ensures
        nits == level as int * 80 / 1000,
{
    level as u64 * 80 / 1000
}

} // verus!
