//! The frame deduplicator: every frame is scored against the frame before
//! it, and then becomes the baseline for the frame after it.

use crate::error::MediaError;
use crate::source::{Frame, FrameView};
use vstd::prelude::*;

verus! {

/// Width of the windows that the structural comparison walks in.
pub const COMPARE_WINDOW: u32 = 8;

/// Whether two bitmaps can be scored against each other: they have the same
/// dimensions, these are positive, and their pixels can be counted.
pub open spec fn comparable(first: FrameView, second: FrameView) -> bool {
    &&& first.width == second.width
    &&& first.height == second.height
    &&& 0 < first.width <= u32::MAX - COMPARE_WINDOW
    &&& 0 < first.height <= u32::MAX - COMPARE_WINDOW
    &&& first.width * first.height <= u32::MAX
}

/// `image::RgbaImage::from_raw` for both frames, then
/// `image_compare::rgba_hybrid_compare`: the score of the hybrid comparison
/// of two bitmaps of the same dimensions, by its bit pattern. The
/// comparison fails on different dimensions only, which the precondition
/// leaves out together with the dimensions on which its arithmetic
/// overflows. Nothing is promised of the score itself.
#[verifier::external_body]
fn hybrid_score(first: &Frame, second: &Frame) -> (score: Option<u64>)
    requires
        comparable(first@, second@),
    ensures
        score is Some,
{
    let first = image::RgbaImage::from_raw(first.width(), first.height(), first.data().to_vec())?;
    let second =
        image::RgbaImage::from_raw(second.width(), second.height(), second.data().to_vec())?;
    match image_compare::rgba_hybrid_compare(&first, &second) {
        Ok(similarity) => Some(similarity.score.to_bits()),
        Err(_) => None,
    }
}

/// Whether two bitmaps can be scored against each other.
pub fn can_compare(first: &Frame, second: &Frame) -> (possible: bool)
    ensures
        possible == comparable(first@, second@),
{
    let width: u32 = first.width();
    let height: u32 = first.height();
    if width != second.width() || height != second.height() {
        return false;
    }
    if width == 0 || height == 0 {
        return false;
    }
    if width > u32::MAX - COMPARE_WINDOW || height > u32::MAX - COMPARE_WINDOW {
        return false;
    }
    assert(width * height <= 0xFFFF_FFFF * 0xFFFF_FFFF) by (nonlinear_arith)
        requires
            width <= 0xFFFF_FFFF,
            height <= 0xFFFF_FFFF,
    ;
    (width as u64) * (height as u64) <= u32::MAX as u64
}

/// Scores `second` against `first`, where the two can be compared.
pub fn compare_frames(first: &Frame, second: &Frame) -> (score: Option<u64>)
    ensures
        score is Some <==> comparable(first@, second@),
{
    if can_compare(first, second) {
        hybrid_score(first, second)
    } else {
        None
    }
}

/// The baseline of the comparison: the frame that was shown last.
pub struct Deduplicator {
    previous: Option<Frame>,
}

impl Deduplicator {
    /// The frame that was shown last.
    pub closed spec fn previous(&self) -> Option<Frame> {
        self.previous
    }

    /// A deduplicator that was shown no frame yet.
    pub fn new() -> (deduplicator: Self)
        ensures
            deduplicator.previous() is None,
    {
        Self { previous: None }
    }

    /// The frame that was shown last.
    pub fn last_frame(&self) -> (frame: Option<&Frame>)
        ensures
            match frame {
                Some(frame) => self.previous() == Some(*frame),
                None => self.previous() is None,
            },
    {
        self.previous.as_ref()
    }

    /// Scores `frame` against the frame shown before it, and makes it the
    /// baseline for the next frame, whatever comes of the comparison.
    ///
    /// The first frame has no predecessor: no comparison is made, and there
    /// is no score. A later frame has a score where it can be compared with
    /// its predecessor; where it cannot, the comparison fails.
    pub fn advance(&mut self, frame: Frame) -> (result: Result<Option<u64>, MediaError>)
        ensures
            final(self).previous() == Some(frame),
            match old(self).previous() {
                None => result == Ok::<Option<u64>, MediaError>(None),
                Some(previous) => if comparable(previous@, frame@) {
                    result matches Ok(Some(_))
                } else {
                    result == Err::<Option<u64>, MediaError>(MediaError::Uncomparable)
                },
            },
    {
        let result = match &self.previous {
            Some(previous) => match compare_frames(previous, &frame) {
                Some(score) => Ok(Some(score)),
                None => Err(MediaError::Uncomparable),
            },
            None => Ok(None),
        };
        self.previous = Some(frame);
        result
    }
}

} // verus!
