//! Caption records and the text that is made of them.

use crate::text::{decimal, push_decimal};
use vstd::prelude::*;
use vstd::string::*;

verus! {

/// The instruction that precedes the joined captions in the prompt of the
/// summarization oracle.
pub const SUMMARY_INSTRUCTION: &'static str =
    "The following is a description of unique frames in a video, write a concise summmary: ";

/// What the captioning oracle says of one image.
#[derive(Clone, Debug)]
pub struct ImageResponse {
    pub description: String,
    /// Bit pattern of the single-precision confidence.
    pub confidence: u32,
}

/// An accepted caption.
#[derive(Clone, Debug)]
pub struct CaptionRecord {
    pub frame_index: u32,
    pub text: String,
    /// Bit pattern of the single-precision confidence.
    pub confidence: u32,
}

/// What a `CaptionRecord` holds.
pub struct CaptionView {
    pub frame_index: nat,
    pub text: Seq<char>,
    pub confidence: u32,
}

impl View for CaptionRecord {
    type V = CaptionView;

    open spec fn view(&self) -> CaptionView {
        CaptionView {
            frame_index: self.frame_index as nat,
            text: self.text@,
            confidence: self.confidence,
        }
    }
}

/// The views of the records of `records`, in order.
pub open spec fn caption_views(records: Seq<CaptionRecord>) -> Seq<CaptionView> {
    Seq::new(records.len(), |i: int| records[i]@)
}

/// The line that stands for one caption.
pub open spec fn frame_line(caption: CaptionView) -> Seq<char> {
    "Frame #"@ + decimal(caption.frame_index) + ": "@ + caption.text
}

/// The lines of `captions`, in order, with a single space between two.
pub open spec fn joined_lines(captions: Seq<CaptionView>) -> Seq<char>
    decreases captions.len(),
{
    if captions.len() == 0 {
        Seq::empty()
    } else if captions.len() == 1 {
        frame_line(captions[0])
    } else {
        joined_lines(captions.drop_last()) + " "@ + frame_line(captions.last())
    }
}

/// The prompt of the summarization oracle for `captions`.
pub open spec fn prompt_text(captions: Seq<CaptionView>) -> Seq<char> {
    SUMMARY_INSTRUCTION@ + joined_lines(captions)
}

impl CaptionRecord {
    /// The line that stands for this caption: `Frame #`, the frame index,
    /// a colon, a space and the text.
    pub fn line(&self) -> (line: String)
        ensures
            line@ == frame_line(self@),
    {
        let mut line = String::from_str("Frame #");
        push_decimal(&mut line, self.frame_index);
        line.append(": ");
        line.append(self.text.as_str());
        line
    }
}

/// Joins the lines of `captions` in order, with a single space between two.
/// Without captions the result is empty.
pub fn join_captions(captions: &Vec<CaptionRecord>) -> (joined: String)
    ensures
        joined@ == joined_lines(caption_views(captions@)),
{
    let mut joined = String::new();
    let mut index: usize = 0;
    while index < captions.len()
        invariant
            index <= captions@.len(),
            joined@ == joined_lines(caption_views(captions@).take(index as int)),
        decreases captions@.len() - index,
    {
        let ghost views = caption_views(captions@);
        let ghost before = views.take(index as int);
        let ghost after = views.take(index + 1);
        if index > 0 {
            joined.append(" ");
        }
        let line = captions[index].line();
        joined.append(line.as_str());
        proof {
            assert(after.drop_last() =~= before);
            assert(after.last() == views[index as int]);
            assert(views[index as int] == captions@[index as int]@);
            if index == 0 {
                assert(joined@ =~= frame_line(after[0]));
            }
        }
        index += 1;
    }
    assert(caption_views(captions@).take(index as int) =~= caption_views(captions@));
    joined
}

/// The prompt of the summarization oracle: the fixed instruction and the
/// joined captions. Without captions it is the instruction alone.
pub fn summary_prompt(captions: &Vec<CaptionRecord>) -> (prompt: String)
    ensures
        prompt@ == prompt_text(caption_views(captions@)),
{
    let mut prompt = String::from_str(SUMMARY_INSTRUCTION);
    let joined = join_captions(captions);
    prompt.append(joined.as_str());
    prompt
}

} // verus!
