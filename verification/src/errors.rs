use vstd::prelude::*;

verus! {

/// Every failure the engine can report. All operations are deterministic, so
/// a failing input fails identically on every call; no error is transient
/// except image decoding, which the caller owns.
#[derive(Clone, Copy, Debug, PartialEq, Eq, Structural, Hash)]
pub enum EngineError {
    /// A latitude outside [-90, 90] degrees or a longitude outside
    /// [-180, 180] degrees was supplied.
    InvalidCoordinate,
    /// A resolution outside the range the hexagonal grid system supports.
    UnsupportedResolution,
    /// A negative ring count was requested for a disk.
    NegativeDistance,
    /// A 64-bit index that does not denote a cell of the grid system.
    InvalidCellId,
    /// The external image codec failed; propagated, never masked.
    ImageDecodeFailure,
    /// A raster with width or height below 2, for which bilinear
    /// interpolation is ill-defined.
    DimensionTooSmall,
}

} // verus!
