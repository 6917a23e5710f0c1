//! Shared plain types for the calibration boundary.

use vstd::prelude::*;

verus! {

/// How a control channel's raw byte is rescaled into a normalized output by
/// the calibration layer.
#[derive(Debug, Clone, Copy)]
pub enum FixType {
    /// Linear rescaling between a recorded minimum and maximum.
    MaxMin,
    /// Piecewise-linear rescaling through a recorded midpoint.
    MaxMidMin,
    /// No rescaling beyond dividing by the full byte range.
    Raw,
}

} // verus!
