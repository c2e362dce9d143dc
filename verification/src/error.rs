//! Why an operation is refused.

use crate::arith::{extent, times};
use crate::config::GgmlType;
use crate::kernel::Kernel;
use vstd::prelude::*;

verus! {

/// The check that a shape fails.
#[derive(Clone, Copy, PartialEq, Eq, Structural, Debug)]
pub enum Check {
    ZeroDim,
    WeightLen,
    SecondWeightLen,
    ThirdWeightLen,
    InputLen,
    SecondInputLen,
    InputAlign,
    OutputAlign,
    LowAlign,
    EmbdAlign,
    Positions,
    GammaLen,
    UnitGammaLen,
    ScaleLen,
    BaseLen,
    BiasLen,
    SinksLen,
    SplitLen,
    PostLen,
    CombLen,
    ResidualLen,
    MixesLen,
    SelectedLen,
    RouteWeightsLen,
    MapLen,
    IdsLen,
    RingLen,
    ScoresLen,
    MaskLen,
    AvailLen,
    ApeLen,
    NormLen,
    HeadShape,
    HeadDim,
    RotaryDim,
    SpanEnd,
    Rows,
    Ratio,
    RingCapacity,
    SlotRange,
    CacheAlign,
    TopK,
    ExpertCount,
    ActivationSlots,
    LowDim,
    TokenCount,
    LayerCount,
    NoLayers,
}

/// A check that failed, with what was found and what it was held against: two
/// lengths, a size and its divisor or bound. Numbers past 64 bits stand as the
/// largest.
#[derive(Clone, Copy, PartialEq, Eq, Structural, Debug)]
pub struct Refusal {
    pub check: Check,
    pub got: u64,
    pub want: u64,
}

/// A number in 64 bits, or the largest where it does not fit.
pub open spec fn cap(n: int) -> u64 {
    if n > u64::MAX {
        u64::MAX
    } else {
        n as u64
    }
}

/// The refusal for what was found, held against what was wanted.
pub open spec fn refusal(check: Check, got: int, want: int) -> Refusal {
    Refusal { check, got: cap(got), want: cap(want) }
}

pub(crate) fn refusal_of(check: Check, got: u64, want: u64) -> (r: Refusal)
    ensures
        r == refusal(check, got as int, want as int),
{
    Refusal { check, got, want }
}

pub(crate) fn unfit(check: Check, got: u64, want: u64) -> (r: EncodeError)
    ensures
        r == EncodeError::Shape(refusal(check, got as int, want as int)),
{
    EncodeError::Shape(refusal_of(check, got, want))
}

/// A product of three, or the largest number where it does not fit.
pub(crate) fn capped3(a: u64, b: u64, c: u64) -> (r: u64)
    requires
        extent(a),
        extent(b),
    ensures
        r == cap(a * b * c),
{
    match times(a, b).checked_mul(c) {
        Some(p) => p,
        None => u64::MAX,
    }
}

/// Why an operation was refused.
#[derive(Clone, Copy, PartialEq, Eq, Structural, Debug)]
pub enum EncodeError {
    /// The shapes of the arguments do not fit together.
    Shape(Refusal),
    /// A pipeline that should have been loaded with the engine is absent.
    NotLoaded(Kernel),
    /// No expert weights are loaded for the layer.
    NoExperts { layer: u32, loaded: u64 },
    /// Expert streaming is on and the layer has no chunk pool.
    NoChunkPool { layer: u32 },
    /// The routing table, read in rows of `k_used`, has none for the token.
    NoTableRow { token: i32, k_used: u64, table_len: u64 },
    /// No expert-gather kernel exists for the weight format.
    UnsupportedQuant(GgmlType),
    /// No fused kernel set exists for the layer's weight formats.
    UnsupportedQuants { layer: u32, gate: GgmlType, up: GgmlType, down: GgmlType },
}

} // verus!
