//! The two numeric thresholds of the pipeline: when a frame counts as redundant
//! with its predecessor, and when a caption is trusted.
//!
//! Scores and confidences are IEEE 754 numbers, handled here by their bit
//! patterns. Among the patterns with a clear sign bit the order of the
//! patterns is the order of the numbers, with positive infinity as the
//! largest number and every not-a-number pattern above it. A pattern with
//! the sign bit set is a number that is not positive, or not a number.

use vstd::prelude::*;

verus! {

/// Bit pattern of the double-precision number 0.28: a comparison score
/// above it makes a frame redundant.
pub const DISSIMILARITY_THRESHOLD: u64 = 0x3FD1_EB85_1EB8_51EC;

/// Bit pattern of double-precision positive infinity.
pub const F64_INFINITY: u64 = 0x7FF0_0000_0000_0000;

/// Bit pattern of the single-precision number 0.5: a caption with at least
/// this confidence is trusted.
pub const CONFIDENCE_THRESHOLD: u32 = 0x3F00_0000;

/// Bit pattern of single-precision positive infinity.
pub const F32_INFINITY: u32 = 0x7F80_0000;

/// Whether the double with these bits is a number greater than 0.28.
pub open spec fn exceeds_dissimilarity(score_bits: u64) -> bool {
    DISSIMILARITY_THRESHOLD < score_bits <= F64_INFINITY
}

/// Whether the single with these bits is a number of at least 0.5.
pub open spec fn reaches_confidence(confidence_bits: u32) -> bool {
    CONFIDENCE_THRESHOLD <= confidence_bits <= F32_INFINITY
}

/// Whether a frame is redundant with its predecessor: the score of their
/// comparison is a number strictly greater than the dissimilarity threshold. A score
/// exactly at the threshold does not make it so, nor does a score that is
/// not a number.
pub fn is_redundant(score_bits: u64) -> (redundant: bool)
    ensures
        redundant == exceeds_dissimilarity(score_bits),
{
    DISSIMILARITY_THRESHOLD < score_bits && score_bits <= F64_INFINITY
}

/// Whether a caption is trusted: its confidence is a number of at least the
/// confidence threshold.
pub fn is_confident(confidence_bits: u32) -> (confident: bool)
    ensures
        confident == reaches_confidence(confidence_bits),
{
    CONFIDENCE_THRESHOLD <= confidence_bits && confidence_bits <= F32_INFINITY
}

/// The dissimilarity threshold is exclusive: the threshold itself passes, the
/// next larger number does not, and everything up to the threshold passes.
pub proof fn lemma_dissimilarity_boundary(score_bits: u64)
    ensures
        !exceeds_dissimilarity(DISSIMILARITY_THRESHOLD),
        exceeds_dissimilarity((DISSIMILARITY_THRESHOLD + 1) as u64),
        score_bits <= DISSIMILARITY_THRESHOLD ==> !exceeds_dissimilarity(score_bits),
        score_bits > F64_INFINITY ==> !exceeds_dissimilarity(score_bits),
{
}

/// The confidence threshold is inclusive: the threshold itself passes, the next
/// smaller number does not.
pub proof fn lemma_confidence_boundary(confidence_bits: u32)
    ensures
        reaches_confidence(CONFIDENCE_THRESHOLD),
        !reaches_confidence((CONFIDENCE_THRESHOLD - 1) as u32),
        confidence_bits < CONFIDENCE_THRESHOLD ==> !reaches_confidence(confidence_bits),
        confidence_bits > F32_INFINITY ==> !reaches_confidence(confidence_bits),
{
}

} // verus!
