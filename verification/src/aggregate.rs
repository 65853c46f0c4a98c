//! Frame deduplication and caption aggregation: which frames of the numbered
//! frame stream are captioned, which captions are accepted, and when the
//! stream is no longer pulled.

use crate::caption::{
    caption_views, prompt_text, summary_prompt, CaptionRecord, CaptionView, ImageResponse,
};
use crate::dedup::{comparable, Deduplicator};
use crate::error::MediaError;
use crate::source::Frame;
use crate::threshold::{exceeds_dissimilarity, is_confident, is_redundant, reaches_confidence};
use vstd::prelude::*;

verus! {

/// Number of accepted captions at which no further frame is pulled.
pub const MAX_CAPTIONS: usize = 10;

/// What the aggregator says of a frame that it was shown.
#[derive(Clone, Copy, Debug, PartialEq, Eq, Structural)]
pub struct FrameTicket {
    /// The number of the frame in the stream, counted from zero.
    pub index: u32,
    /// Whether the frame has a predecessor to be compared with.
    pub compare: bool,
}

/// What the aggregator says of a frame that it was handed.
#[derive(Clone, Copy, Debug, PartialEq, Eq, Structural)]
pub struct Admission {
    /// The number of the frame in the stream, counted from zero.
    pub index: u32,
    /// Bit pattern of the score of the comparison with the predecessor,
    /// where the frame has one.
    pub score: Option<u64>,
    /// Whether the frame is to be captioned.
    pub kept: bool,
}

/// All that is known of one frame of a finished run: the score of its
/// comparison with its predecessor, which means nothing for the first
/// frame, and what the captioning oracle said of it, if it answered.
#[derive(Debug)]
pub struct FrameReport {
    /// Bit pattern of the double-precision comparison score.
    pub score: u64,
    pub caption: Option<ImageResponse>,
}

/// What a `FrameReport` holds.
pub struct FrameReportView {
    pub score: u64,
    pub caption: Option<(Seq<char>, u32)>,
}

impl View for FrameReport {
    type V = FrameReportView;

    open spec fn view(&self) -> FrameReportView {
        FrameReportView {
            score: self.score,
            caption: match self.caption {
                Some(response) => Some((response.description@, response.confidence)),
                None => None,
            },
        }
    }
}

/// The views of the reports of `reports`, in order.
pub open spec fn report_views(reports: Seq<FrameReport>) -> Seq<FrameReportView> {
    Seq::new(reports.len(), |i: int| reports[i]@)
}

/// Whether the frame with number `index` is captioned: the first frame
/// always is, a later one unless its score makes it redundant.
pub open spec fn frame_kept(index: nat, score: u64) -> bool {
    index == 0 || !exceeds_dissimilarity(score)
}

/// The caption that the frame with number `index` contributes, if any: the
/// frame is kept, the oracle answered, and the confidence reaches the confidence threshold.
pub open spec fn frame_caption(index: nat, report: FrameReportView) -> Option<CaptionView> {
    if !frame_kept(index, report.score) {
        None
    } else {
        match report.caption {
            Some((text, confidence)) => if reaches_confidence(confidence) {
                Some(CaptionView { frame_index: index, text, confidence })
            } else {
                None
            },
            None => None,
        }
    }
}

/// Whether the frame with number `index` is still pulled once `accepted`
/// captions are in.
pub open spec fn still_pulling(accepted: nat, index: nat) -> bool {
    accepted < MAX_CAPTIONS && index < u32::MAX
}

/// The captions accepted from the first `count` frames of `reports`, in
/// frame order.
pub open spec fn accepted_captions(reports: Seq<FrameReportView>, count: nat) -> Seq<CaptionView>
    decreases count,
{
    if count == 0 {
        Seq::empty()
    } else {
        let index = (count - 1) as nat;
        let before = accepted_captions(reports, index);
        if index < reports.len() && still_pulling(before.len(), index) {
            match frame_caption(index, reports[index as int]) {
                Some(caption) => before.push(caption),
                None => before,
            }
        } else {
            before
        }
    }
}

/// The number of frames pulled from the first `count` frames of `reports`.
pub open spec fn frames_pulled(reports: Seq<FrameReportView>, count: nat) -> nat
    decreases count,
{
    if count == 0 {
        0
    } else {
        let index = (count - 1) as nat;
        let before = frames_pulled(reports, index);
        if index < reports.len() && still_pulling(accepted_captions(reports, index).len(), index) {
            before + 1
        } else {
            before
        }
    }
}

/// The state of one run between two frames or in the middle of one.
pub struct Aggregator {
    frames_seen: u32,
    pending: bool,
    captions: Vec<CaptionRecord>,
    baseline: Deduplicator,
}

impl Aggregator {
    /// The number of frames shown so far.
    pub closed spec fn frames_seen(&self) -> nat {
        self.frames_seen as nat
    }

    /// Whether the frame shown last is not settled yet.
    pub closed spec fn pending(&self) -> bool {
        self.pending
    }

    /// The captions accepted so far, in the order of their acceptance.
    pub closed spec fn captions(&self) -> Seq<CaptionView> {
        caption_views(self.captions@)
    }

    /// The frame that later frames are compared with, where the run is
    /// handed its frames.
    pub closed spec fn baseline(&self) -> Option<Frame> {
        self.baseline.previous()
    }

    /// The number of frames that are settled.
    pub open spec fn frames_settled(&self) -> nat {
        if self.pending() {
            (self.frames_seen() - 1) as nat
        } else {
            self.frames_seen()
        }
    }

    /// The aggregator's invariant: at most `MAX_CAPTIONS` captions are
    /// accepted, each of a settled frame, in strictly increasing frame order.
    pub open spec fn wf(&self) -> bool {
        &&& self.captions().len() <= MAX_CAPTIONS
        &&& self.frames_seen() <= u32::MAX
        &&& self.frames_seen() == 0 ==> self.baseline() is None
        &&& self.pending() ==> self.frames_seen() > 0 && self.captions().len() < MAX_CAPTIONS
        &&& forall|i: int|
            0 <= i < self.captions().len() ==> (#[trigger] self.captions()[i]).frame_index
                < self.frames_settled()
        &&& forall|i: int, j: int|
            0 <= i < j < self.captions().len() ==> (#[trigger] self.captions()[i]).frame_index < (
            #[trigger] self.captions()[j]).frame_index
    }

    /// Whether another frame is to be pulled.
    pub open spec fn wants_frame_spec(&self) -> bool {
        still_pulling(self.captions().len(), self.frames_seen())
    }

    /// Starts a run: no frame shown, no caption accepted.
    pub fn new() -> (aggregator: Self)
        ensures
            aggregator.wf(),
            aggregator.frames_seen() == 0,
            !aggregator.pending(),
            aggregator.captions() == Seq::<CaptionView>::empty(),
            aggregator.baseline() is None,
    {
        let aggregator = Self {
            frames_seen: 0,
            pending: false,
            captions: Vec::new(),
            baseline: Deduplicator::new(),
        };
        assert(aggregator.captions() =~= Seq::<CaptionView>::empty());
        aggregator
    }

    /// Whether another frame is to be pulled: fewer than `MAX_CAPTIONS`
    /// captions are accepted, and the frame numbers are not used up.
    #[verifier::when_used_as_spec(wants_frame_spec)]
    pub fn wants_frame(&self) -> (wanted: bool)
        ensures
            wanted == self.wants_frame_spec(),
    {
        self.captions.len() < MAX_CAPTIONS && self.frames_seen < u32::MAX
    }

    /// Whether the frame shown last is not settled yet.
    pub fn is_pending(&self) -> (pending: bool)
        ensures
            pending == self.pending(),
    {
        self.pending
    }

    /// The number of frames shown so far.
    pub fn frame_count(&self) -> (count: u32)
        ensures
            count == self.frames_seen(),
    {
        self.frames_seen
    }

    /// The captions accepted so far, in frame order.
    pub fn accepted(&self) -> (captions: &Vec<CaptionRecord>)
        ensures
            caption_views(captions@) == self.captions(),
    {
        &self.captions
    }

    /// Shows the next frame of the stream to the aggregator.
    ///
    /// The frame gets the next number, counted from zero in the order of
    /// arrival. It is to be compared with its predecessor exactly where it
    /// has one; whatever comes of the comparison, it is the predecessor of
    /// the frame after it.
    pub fn observe_frame(&mut self) -> (ticket: FrameTicket)
        requires
            old(self).wf(),
            !old(self).pending(),
            old(self).wants_frame_spec(),
        ensures
            final(self).wf(),
            final(self).pending(),
            ticket.index == old(self).frames_seen(),
            ticket.compare == (old(self).frames_seen() > 0),
            final(self).frames_seen() == old(self).frames_seen() + 1,
            final(self).captions() == old(self).captions(),
            final(self).baseline() == old(self).baseline(),
    {
        let ticket = FrameTicket { index: self.frames_seen, compare: self.frames_seen > 0 };
        self.frames_seen = self.frames_seen + 1;
        self.pending = true;
        ticket
    }

    /// Decides whether the pending frame is captioned.
    ///
    /// `score` is the score of the comparison with the predecessor, where
    /// there is one. The first frame has none and is always kept. A later
    /// frame is skipped, and thereby settled, where its score exceeds the
    /// dissimilarity threshold; it is kept where it has no score.
    pub fn keep_frame(&mut self, score: Option<u64>) -> (kept: bool)
        requires
            old(self).wf(),
            old(self).pending(),
            old(self).frames_seen() == 1 ==> score is None,
        ensures
            final(self).wf(),
            kept == match score {
                Some(bits) => frame_kept((old(self).frames_seen() - 1) as nat, bits),
                None => true,
            },
            final(self).pending() == kept,
            final(self).frames_seen() == old(self).frames_seen(),
            final(self).captions() == old(self).captions(),
            final(self).baseline() == old(self).baseline(),
    {
        match score {
            Some(bits) => {
                if is_redundant(bits) {
                    self.pending = false;
                    false
                } else {
                    true
                }
            },
            None => true,
        }
    }

    /// Hands the next frame of the stream to the aggregator.
    ///
    /// The frame gets the next number, counted from zero in the order of
    /// arrival. The first frame is kept without any comparison. A later
    /// frame is scored against its predecessor, and is skipped, and thereby
    /// settled, exactly where the score exceeds the dissimilarity
    /// threshold. A later frame that cannot be compared with its
    /// predecessor fails the run; it is settled as well. Whatever comes of
    /// it, the frame is what the next frame is compared with.
    pub fn admit_frame(&mut self, frame: Frame) -> (result: Result<Admission, MediaError>)
        requires
            old(self).wf(),
            !old(self).pending(),
            old(self).wants_frame_spec(),
        ensures
            final(self).wf(),
            final(self).frames_seen() == old(self).frames_seen() + 1,
            final(self).captions() == old(self).captions(),
            final(self).baseline() == Some(frame),
            result is Err <==> (old(self).baseline() matches Some(previous) && !comparable(
                previous@,
                frame@,
            )),
            match result {
                Ok(admission) => {
                    &&& admission.index == old(self).frames_seen()
                    &&& admission.score is Some <==> old(self).baseline() is Some
                    &&& admission.kept == match admission.score {
                        Some(bits) => !exceeds_dissimilarity(bits),
                        None => true,
                    }
                    &&& final(self).pending() == admission.kept
                },
                Err(error) => error == MediaError::Uncomparable && !final(self).pending(),
            },
    {
        let ticket = self.observe_frame();
        match self.baseline.advance(frame) {
            Ok(score) => {
                let kept = self.keep_frame(score);
                Ok(Admission { index: ticket.index, score, kept })
            },
            Err(error) => {
                self.pending = false;
                Err(error)
            },
        }
    }

    /// The frame that was handed in last, which is the one to caption
    /// while it is pending.
    pub fn last_frame(&self) -> (frame: Option<&Frame>)
        ensures
            match frame {
                Some(frame) => self.baseline() == Some(*frame),
                None => self.baseline() is None,
            },
    {
        self.baseline.last_frame()
    }

    /// Settles the pending frame with what the captioning oracle said of
    /// it, `None` standing for a failure of the oracle.
    ///
    /// The caption is accepted exactly where the oracle answered with a
    /// confidence that reaches the confidence threshold.
    pub fn record_caption(&mut self, response: Option<ImageResponse>) -> (accepted: bool)
        requires
            old(self).wf(),
            old(self).pending(),
        ensures
            final(self).wf(),
            !final(self).pending(),
            final(self).frames_seen() == old(self).frames_seen(),
            final(self).baseline() == old(self).baseline(),
            match response {
                Some(answer) => {
                    &&& accepted == reaches_confidence(answer.confidence)
                    &&& accepted ==> final(self).captions() == old(self).captions().push(
                        CaptionView {
                            frame_index: (old(self).frames_seen() - 1) as nat,
                            text: answer.description@,
                            confidence: answer.confidence,
                        },
                    )
                },
                None => !accepted,
            },
            !accepted ==> final(self).captions() == old(self).captions(),
    {
        self.pending = false;
        match response {
            Some(answer) => {
                if is_confident(answer.confidence) {
                    let ghost before = self.captions@;
                    let record = CaptionRecord {
                        frame_index: self.frames_seen - 1,
                        text: answer.description,
                        confidence: answer.confidence,
                    };
                    self.captions.push(record);
                    proof {
                        assert(caption_views(self.captions@) =~= caption_views(before).push(
                            record@,
                        ));
                        assert forall|i: int, j: int|
                            0 <= i < j < self.captions().len() implies (
                        #[trigger] self.captions()[i]).frame_index < (
                        #[trigger] self.captions()[j]).frame_index by {
                            if j == before.len() {
                                assert(caption_views(before)[i].frame_index < old(self).frames_settled());
                            } else {
                                assert(caption_views(before)[i].frame_index < caption_views(
                                    before,
                                )[j].frame_index);
                            }
                        }
                        assert forall|i: int| 0 <= i < self.captions().len() implies (
                        #[trigger] self.captions()[i]).frame_index < self.frames_settled() by {
                            if i < before.len() {
                                assert(caption_views(before)[i].frame_index < old(self).frames_settled());
                            }
                        }
                    }
                    true
                } else {
                    false
                }
            },
            None => false,
        }
    }

    /// Ends the run: with the prompt of the summarization oracle, or with
    /// the failure that ended the frame stream where that failure is not a
    /// soft one.
    ///
    /// A native failure always ends the stream softly, a byte-source failure
    /// does once a caption is accepted; every other failure is the result of
    /// the run. Without a failure, and without captions, the prompt is the
    /// bare instruction.
    pub fn conclude(&self, failure: Option<MediaError>) -> (result: Result<String, MediaError>)
        ensures
            match failure {
                Some(error) if !error.ends_softly(self.captions().len()) => result == Err::<
                    String,
                    MediaError,
                >(error),
                _ => result matches Ok(prompt) && prompt@ == prompt_text(self.captions()),
            },
    {
        match failure {
            Some(error) => {
                let soft = match error {
                    MediaError::Native(_) => true,
                    MediaError::Io(_) => self.captions.len() > 0,
                    _ => false,
                };
                if soft {
                    Ok(summary_prompt(&self.captions))
                } else {
                    Err(error)
                }
            },
            None => Ok(summary_prompt(&self.captions)),
        }
    }
}

/// Runs the aggregator over the frames of a finished run, in order, and
/// stops pulling as the aggregator asks.
pub fn collect_captions(reports: &Vec<FrameReport>) -> (aggregator: Aggregator)
    ensures
        aggregator.wf(),
        !aggregator.pending(),
        aggregator.captions() == accepted_captions(report_views(reports@), reports@.len()),
        aggregator.frames_seen() == frames_pulled(report_views(reports@), reports@.len()),
{
    let mut aggregator = Aggregator::new();
    let mut index: usize = 0;
    let ghost views = report_views(reports@);
    while index < reports.len() && aggregator.wants_frame()
        invariant
            views == report_views(reports@),
            index <= reports@.len(),
            aggregator.wf(),
            !aggregator.pending(),
            aggregator.frames_seen() == index,
            aggregator.captions() == accepted_captions(views, index as nat),
            aggregator.frames_seen() == frames_pulled(views, index as nat),
        decreases reports@.len() - index,
    {
        let report = &reports[index];
        assert(views[index as int] == report@);
        let ticket = aggregator.observe_frame();
        let score: Option<u64> = if ticket.compare {
            Some(report.score)
        } else {
            None
        };
        if aggregator.keep_frame(score) {
            let response = match &report.caption {
                Some(answer) => Some(
                    ImageResponse {
                        description: answer.description.clone(),
                        confidence: answer.confidence,
                    },
                ),
                None => None,
            };
            aggregator.record_caption(response);
        }
        index += 1;
    }
    proof {
        lemma_stopped_run_is_stable(views, index as nat, reports@.len());
    }
    aggregator
}

/// Once the run has stopped pulling, or the frames have run out, later
/// frames change nothing.
pub proof fn lemma_stopped_run_is_stable(reports: Seq<FrameReportView>, stop: nat, count: nat)
    requires
        stop <= count,
        stop >= reports.len() || !still_pulling(accepted_captions(reports, stop).len(), stop),
        frames_pulled(reports, stop) == stop,
    ensures
        accepted_captions(reports, count) == accepted_captions(reports, stop),
        frames_pulled(reports, count) == frames_pulled(reports, stop),
    decreases count,
{
    if count > stop {
        lemma_stopped_run_is_stable(reports, stop, (count - 1) as nat);
    }
}

/// The acceptance cap: never more than `MAX_CAPTIONS` captions are
/// accepted, never more than one per frame pulled, and no frame is pulled
/// that was not there.
pub proof fn lemma_acceptance_cap(reports: Seq<FrameReportView>, count: nat)
    ensures
        accepted_captions(reports, count).len() <= MAX_CAPTIONS,
        accepted_captions(reports, count).len() <= frames_pulled(reports, count),
        frames_pulled(reports, count) <= count,
        frames_pulled(reports, count) <= reports.len(),
    decreases count,
{
    if count > 0 {
        lemma_acceptance_cap(reports, (count - 1) as nat);
    }
}

/// Captions are accepted in frame order: the frame numbers of the accepted
/// captions are strictly increasing, and each is the number of a frame that
/// was pulled.
pub proof fn lemma_accepted_in_frame_order(reports: Seq<FrameReportView>, count: nat)
    ensures
        forall|i: int|
            0 <= i < accepted_captions(reports, count).len() ==> (#[trigger] accepted_captions(
                reports,
                count,
            )[i]).frame_index < count,
        forall|i: int, j: int|
            0 <= i < j < accepted_captions(reports, count).len() ==> (#[trigger] accepted_captions(
                reports,
                count,
            )[i]).frame_index < (#[trigger] accepted_captions(reports, count)[j]).frame_index,
    decreases count,
{
    if count > 0 {
        let index = (count - 1) as nat;
        lemma_accepted_in_frame_order(reports, index);
        let before = accepted_captions(reports, index);
        let after = accepted_captions(reports, count);
        assert forall|i: int| 0 <= i < after.len() implies (#[trigger] after[i]).frame_index
            < count by {
            if i < before.len() {
                assert(after[i] == before[i]);
            }
        }
        assert forall|i: int, j: int| 0 <= i < j < after.len() implies (#[trigger] after[i]).frame_index
            < (#[trigger] after[j]).frame_index by {
            assert(after[i] == before[i]);
            if j < before.len() {
                assert(after[j] == before[j]);
            }
        }
    }
}

/// Where every frame passes both thresholds, the first `MAX_CAPTIONS` frames are
/// the ones accepted, and pulling stops with the frame that fills the cap.
pub proof fn lemma_all_passing_frames(reports: Seq<FrameReportView>, count: nat)
    requires
        count <= reports.len(),
        count <= u32::MAX,
        forall|i: int| 0 <= i < count ==> (#[trigger] frame_caption(i as nat, reports[i])) is Some,
    ensures
        accepted_captions(reports, count).len() == if count <= MAX_CAPTIONS {
            count
        } else {
            MAX_CAPTIONS as nat
        },
        frames_pulled(reports, count) == accepted_captions(reports, count).len(),
        forall|i: int|
            0 <= i < accepted_captions(reports, count).len() ==> (#[trigger] accepted_captions(
                reports,
                count,
            )[i]).frame_index == i,
    decreases count,
{
    if count > 0 {
        lemma_all_passing_frames(reports, (count - 1) as nat);
        let index = (count - 1) as int;
        assert(frame_caption(index as nat, reports[index]) is Some);
    }
}

/// A run of a single frame makes no comparison: whatever the report says of
/// a score, the frame is kept, and its caption is accepted exactly where
/// the oracle answered with a confidence that reaches the confidence threshold.
pub proof fn lemma_single_frame(reports: Seq<FrameReportView>)
    requires
        reports.len() == 1,
    ensures
        frames_pulled(reports, 1) == 1,
        accepted_captions(reports, 1) == match reports[0].caption {
            Some((text, confidence)) => if reaches_confidence(confidence) {
                seq![CaptionView { frame_index: 0, text, confidence }]
            } else {
                Seq::<CaptionView>::empty()
            },
            None => Seq::<CaptionView>::empty(),
        },
{
    assert(accepted_captions(reports, 0) =~= Seq::<CaptionView>::empty());
    assert(frames_pulled(reports, 0) == 0);
    reveal_with_fuel(accepted_captions, 2);
    reveal_with_fuel(frames_pulled, 2);
    match reports[0].caption {
        Some((text, confidence)) => {
            if reaches_confidence(confidence) {
                assert(accepted_captions(reports, 1) =~= seq![
                    CaptionView { frame_index: 0, text, confidence },
                ]);
            }
        },
        None => {},
    }
}

} // verus!
