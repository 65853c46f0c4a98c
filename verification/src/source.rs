//! The frame source: which native operation a pull for the next video frame
//! asks for, step by step, and what a converted frame becomes.

use crate::context::Context;
use crate::error::{ffmpeg_into_image, native_as_media, out_of_memory, MediaError, NativeError};
use vstd::prelude::*;

verus! {

/// Number of bytes of one RGBA pixel.
pub const RGBA_CHANNELS: usize = 4;

/// Numerator of the nominal delay of a frame, in milliseconds.
pub const FRAME_DELAY_NUMER_MS: u32 = 10;

/// Denominator of the nominal delay of a frame.
pub const FRAME_DELAY_DENOM_MS: u32 = 1;

/// A decoded RGBA bitmap with its nominal delay.
#[derive(Debug)]
pub struct Frame {
    width: u32,
    height: u32,
    data: Vec<u8>,
    delay_numer_ms: u32,
    delay_denom_ms: u32,
}

/// What a `Frame` holds.
pub struct FrameView {
    pub width: nat,
    pub height: nat,
    pub data: Seq<u8>,
    pub delay_numer_ms: nat,
    pub delay_denom_ms: nat,
}

impl View for Frame {
    type V = FrameView;

    closed spec fn view(&self) -> FrameView {
        FrameView {
            width: self.width as nat,
            height: self.height as nat,
            data: self.data@,
            delay_numer_ms: self.delay_numer_ms as nat,
            delay_denom_ms: self.delay_denom_ms as nat,
        }
    }
}

/// Whether `len` bytes hold an RGBA bitmap of the given dimensions.
pub open spec fn fits_rgba(width: nat, height: nat, len: nat) -> bool {
    RGBA_CHANNELS * width * height <= len
}

impl Frame {
    /// Every frame holds at least the bytes of its pixels.
    #[verifier::type_invariant]
    spec fn holds_its_pixels(&self) -> bool {
        fits_rgba(self.width as nat, self.height as nat, self.data@.len())
    }

    /// Makes a frame of the given dimensions from raw RGBA bytes, or `None`
    /// where the bytes are too few for the dimensions.
    pub fn from_raw(width: u32, height: u32, data: Vec<u8>) -> (frame: Option<Self>)
        ensures
            match frame {
                Some(frame) => {
                    &&& fits_rgba(width as nat, height as nat, data@.len())
                    &&& frame@ == (FrameView {
                        width: width as nat,
                        height: height as nat,
                        data: data@,
                        delay_numer_ms: FRAME_DELAY_NUMER_MS as nat,
                        delay_denom_ms: FRAME_DELAY_DENOM_MS as nat,
                    })
                },
                None => !fits_rgba(width as nat, height as nat, data@.len()),
            },
    {
        let pixels: u64 = mul_dimensions(width, height);
        let len: u64 = data.len() as u64;
        assert(RGBA_CHANNELS * (width as nat) * (height as nat) == 4 * (width * height)) by (nonlinear_arith);
        if pixels <= len / 4 {
            Some(
                Frame {
                    width,
                    height,
                    data,
                    delay_numer_ms: FRAME_DELAY_NUMER_MS,
                    delay_denom_ms: FRAME_DELAY_DENOM_MS,
                },
            )
        } else {
            None
        }
    }

    /// The width in pixels.
    pub fn width(&self) -> (width: u32)
        ensures
            width == self@.width,
    {
        self.width
    }

    /// The height in pixels.
    pub fn height(&self) -> (height: u32)
        ensures
            height == self@.height,
    {
        self.height
    }

    /// The raw RGBA bytes, row by row.
    pub fn data(&self) -> (data: &[u8])
        ensures
            data@ == self@.data,
    {
        self.data.as_slice()
    }

    /// The nominal delay as a ratio of milliseconds.
    pub fn delay(&self) -> (delay: (u32, u32))
        ensures
            delay.0 == self@.delay_numer_ms,
            delay.1 == self@.delay_denom_ms,
    {
        (self.delay_numer_ms, self.delay_denom_ms)
    }

    /// Gives up the raw RGBA bytes.
    pub fn into_raw(self) -> (data: Vec<u8>)
        ensures
            data@ == self@.data,
    {
        self.data
    }
}

/// The number of pixels of a bitmap of the given dimensions.
fn mul_dimensions(width: u32, height: u32) -> (pixels: u64)
    ensures
        pixels == width * height,
{
    assert(width * height <= 0xFFFF_FFFF * 0xFFFF_FFFF) by (nonlinear_arith)
        requires
            width <= 0xFFFF_FFFF,
            height <= 0xFFFF_FFFF,
    ;
    (width as u64) * (height as u64)
}

/// What a converted native frame becomes: nothing where it has no image
/// plane, else the frame of its first plane; bytes too few for the
/// dimensions are reported as an allocation failure.
pub open spec fn rgba_outcome(planes: nat, width: nat, height: nat, len: nat) -> Result<
    bool,
    MediaError,
> {
    if planes == 0 {
        Ok(false)
    } else if fits_rgba(width, height, len) {
        Ok(true)
    } else {
        Err(MediaError::OutOfMemory)
    }
}

/// Turns a converted native frame into a `Frame`.
///
/// `planes` is the number of image planes of the converted frame, `data`
/// the bytes of its first plane. A frame without planes is no frame, which
/// is not a failure.
pub fn to_rgba(planes: usize, width: u32, height: u32, data: Vec<u8>) -> (result: Result<
    Option<Frame>,
    MediaError,
>)
    ensures
        match rgba_outcome(planes as nat, width as nat, height as nat, data@.len()) {
            Ok(true) => result matches Ok(Some(frame)) && frame@ == (FrameView {
                width: width as nat,
                height: height as nat,
                data: data@,
                delay_numer_ms: FRAME_DELAY_NUMER_MS as nat,
                delay_denom_ms: FRAME_DELAY_DENOM_MS as nat,
            }),
            Ok(false) => result matches Ok(None),
            Err(error) => result matches Err(e) && e == error,
        },
{
    if planes > 0 {
        match Frame::from_raw(width, height, data) {
            Some(frame) => Ok(Some(frame)),
            None => Err(out_of_memory()),
        }
    } else {
        Ok(None)
    }
}

/// An opened input: the decode context that it took over.
#[derive(Clone, Copy, Debug, PartialEq, Eq, Structural)]
pub struct MediaSource {
    inner: Context,
}

impl MediaSource {
    /// The decode context behind this source.
    pub closed spec fn context(&self) -> Context {
        self.inner
    }

    /// Takes over an opened decode context.
    pub fn new(context: Context) -> (source: Self)
        ensures
            source.context() == context,
    {
        Self { inner: context }
    }

    /// Starts the frame source of the best video stream.
    pub fn video(&self, best: Option<usize>, decoder: Result<(), NativeError>) -> (result: Result<
        VideoSource,
        MediaError,
    >)
        ensures
            result == video_outcome(best, decoder),
    {
        video_source(self, best, decoder)
    }
}

/// What the native layer is asked for or waited on during a pull.
#[derive(Clone, Copy, Debug, PartialEq, Eq, Structural)]
pub enum Phase {
    /// No pull is under way.
    Idle,
    /// The next packet was asked of the demuxer.
    Reading,
    /// A packet was handed to the decoder.
    Sending,
    /// A frame was asked of the decoder.
    Receiving,
    /// A frame was handed to the converter.
    Converting,
    /// The end of the stream was signalled to the decoder.
    Flushing,
    /// A buffered frame was asked of the flushed decoder.
    Draining,
    /// A buffered frame was handed to the converter.
    DrainConverting,
}

/// What the native layer reported, or what the consumer asks.
#[derive(Clone, Copy, Debug, PartialEq, Eq, Structural)]
pub enum DecodeEvent {
    /// The consumer asks for the next frame.
    Pull,
    /// The demuxer produced a packet of this stream.
    Packet { stream: usize },
    /// The demuxer has no more packets.
    EndOfPackets,
    /// The decoder took what it was sent.
    Sent,
    /// The decoder produced a frame.
    FrameReady,
    /// The decoder has no frame to give yet.
    NoFrame,
    /// The converter produced a frame with this many image planes.
    Converted { planes: usize },
    /// The native operation failed.
    Failed(NativeError),
}

/// What is to be done next.
#[derive(Clone, Debug, PartialEq, Eq)]
pub enum DecodeAction {
    /// Ask the demuxer for the next packet.
    ReadPacket,
    /// Hand the packet to the decoder.
    SendPacket,
    /// Ask the decoder for a frame.
    ReceiveFrame,
    /// Hand the frame to the converter.
    ConvertFrame,
    /// Signal the end of the stream to the decoder.
    SendEof,
    /// Hand the converted frame to the consumer; the pull is over.
    Emit,
    /// Tell the consumer that there are no more frames; the pull is over.
    Finish,
    /// Hand the failure to the consumer; the pull is over.
    Fail(MediaError),
}

/// The frame source of one video stream: forward-only, and exhausted for
/// good once the demuxer has run dry.
#[derive(Clone, Copy, Debug, PartialEq, Eq, Structural)]
pub struct VideoSource {
    pub index: usize,
    pub is_eof: bool,
    pub phase: Phase,
}

/// What the decoder's answer to the request for a frame means: a frame
/// where it gave one; no frame yet where it asks for more input or says
/// that it is drained; else a failure.
pub open spec fn received(answer: Result<(), NativeError>) -> DecodeEvent {
    match answer {
        Ok(()) => DecodeEvent::FrameReady,
        Err(NativeError::Again) => DecodeEvent::NoFrame,
        Err(NativeError::Eof) => DecodeEvent::NoFrame,
        Err(error) => DecodeEvent::Failed(error),
    }
}

/// Turns the decoder's answer to the request for a frame into the event
/// that the frame source is shown.
pub fn received_event(answer: Result<(), NativeError>) -> (event: DecodeEvent)
    ensures
        event == received(answer),
{
    match answer {
        Ok(()) => DecodeEvent::FrameReady,
        Err(NativeError::Again) => DecodeEvent::NoFrame,
        Err(NativeError::Eof) => DecodeEvent::NoFrame,
        Err(error) => DecodeEvent::Failed(error),
    }
}

/// How the frame source of the best video stream starts: without such a
/// stream, and where its decoder cannot be opened, with the translated
/// native failure.
pub open spec fn video_outcome(best: Option<usize>, decoder: Result<(), NativeError>) -> Result<
    VideoSource,
    MediaError,
> {
    match best {
        None => Err(native_as_media(NativeError::StreamNotFound)),
        Some(index) => match decoder {
            Err(error) => Err(native_as_media(error)),
            Ok(()) => Ok(VideoSource { index, is_eof: false, phase: Phase::Idle }),
        },
    }
}

/// Starts the frame source of the best video stream of `media_source`.
///
/// `best` is the index of the stream that the native layer picked, `decoder`
/// how the opening of its decoder went.
pub fn video_source(
    media_source: &MediaSource,
    best: Option<usize>,
    decoder: Result<(), NativeError>,
) -> (result: Result<VideoSource, MediaError>)
    ensures
        result == video_outcome(best, decoder),
{
    match best {
        None => Err(ffmpeg_into_image(NativeError::StreamNotFound)),
        Some(index) => match decoder {
            Err(error) => Err(ffmpeg_into_image(error)),
            Ok(()) => Ok(VideoSource { index, is_eof: false, phase: Phase::Idle }),
        },
    }
}

impl VideoSource {
    /// Whether `event` can follow in the current phase.
    pub open spec fn accepts_spec(&self, event: DecodeEvent) -> bool {
        match self.phase {
            Phase::Idle => event is Pull,
            Phase::Reading => event is Packet || event is EndOfPackets || event is Failed,
            Phase::Sending | Phase::Flushing => event is Sent || event is Failed,
            Phase::Receiving | Phase::Draining => event is FrameReady || event is NoFrame
                || event is Failed,
            Phase::Converting | Phase::DrainConverting => event is Converted || event is Failed,
        }
    }

    /// The source after `event`, and what is to be done next.
    pub open spec fn step_spec(&self, event: DecodeEvent) -> (VideoSource, DecodeAction) {
        match (self.phase, event) {
            (Phase::Idle, DecodeEvent::Pull) => if self.is_eof {
                (*self, DecodeAction::Finish)
            } else {
                (VideoSource { phase: Phase::Reading, ..*self }, DecodeAction::ReadPacket)
            },
            (Phase::Reading, DecodeEvent::Packet { stream }) => if stream == self.index {
                (VideoSource { phase: Phase::Sending, ..*self }, DecodeAction::SendPacket)
            } else {
                (*self, DecodeAction::ReadPacket)
            },
            (Phase::Reading, DecodeEvent::EndOfPackets) => (
                VideoSource { phase: Phase::Flushing, is_eof: true, ..*self },
                DecodeAction::SendEof,
            ),
            (Phase::Sending, DecodeEvent::Sent) => (
                VideoSource { phase: Phase::Receiving, ..*self },
                DecodeAction::ReceiveFrame,
            ),
            (Phase::Receiving, DecodeEvent::FrameReady) => (
                VideoSource { phase: Phase::Converting, ..*self },
                DecodeAction::ConvertFrame,
            ),
            (Phase::Receiving, DecodeEvent::NoFrame) => (
                VideoSource { phase: Phase::Reading, ..*self },
                DecodeAction::ReadPacket,
            ),
            (Phase::Converting, DecodeEvent::Converted { planes }) => if planes > 0 {
                (VideoSource { phase: Phase::Idle, ..*self }, DecodeAction::Emit)
            } else {
                (VideoSource { phase: Phase::Reading, ..*self }, DecodeAction::ReadPacket)
            },
            (Phase::Flushing, DecodeEvent::Sent) => (
                VideoSource { phase: Phase::Draining, ..*self },
                DecodeAction::ReceiveFrame,
            ),
            (Phase::Draining, DecodeEvent::FrameReady) => (
                VideoSource { phase: Phase::DrainConverting, ..*self },
                DecodeAction::ConvertFrame,
            ),
            (Phase::Draining, DecodeEvent::NoFrame) => (
                VideoSource { phase: Phase::Idle, ..*self },
                DecodeAction::Finish,
            ),
            (Phase::DrainConverting, DecodeEvent::Converted { planes }) => if planes > 0 {
                (VideoSource { phase: Phase::Idle, ..*self }, DecodeAction::Emit)
            } else {
                (VideoSource { phase: Phase::Idle, ..*self }, DecodeAction::Finish)
            },
            (_, DecodeEvent::Failed(error)) => (
                VideoSource { phase: Phase::Idle, ..*self },
                DecodeAction::Fail(native_as_media(error)),
            ),
            _ => (*self, DecodeAction::Fail(MediaError::Native(NativeError::Unknown))),
        }
    }

    /// Whether `event` can follow in the current phase.
    #[verifier::when_used_as_spec(accepts_spec)]
    pub fn accepts(&self, event: DecodeEvent) -> (accepted: bool)
        ensures
            accepted == self.accepts_spec(event),
    {
        match self.phase {
            Phase::Idle => matches!(event, DecodeEvent::Pull),
            Phase::Reading => matches!(
                event,
                DecodeEvent::Packet { .. } | DecodeEvent::EndOfPackets | DecodeEvent::Failed(_)
            ),
            Phase::Sending | Phase::Flushing => matches!(
                event,
                DecodeEvent::Sent | DecodeEvent::Failed(_)
            ),
            Phase::Receiving | Phase::Draining => matches!(
                event,
                DecodeEvent::FrameReady | DecodeEvent::NoFrame | DecodeEvent::Failed(_)
            ),
            Phase::Converting | Phase::DrainConverting => matches!(
                event,
                DecodeEvent::Converted { .. } | DecodeEvent::Failed(_)
            ),
        }
    }

    /// Whether the source has signalled its end; it must not be polled
    /// again once it has.
    pub fn is_exhausted(&self) -> (exhausted: bool)
        ensures
            exhausted == self.is_eof,
    {
        self.is_eof
    }
}

/// Advances a pull for the next frame by one step.
///
/// A pull starts with `Pull` and is over with `Emit`, `Finish` or `Fail`.
/// Packets of other streams are skipped. A packet of the chosen stream goes
/// to the decoder, and a frame is asked of it; a frame goes to the
/// converter, and is emitted where it has an image plane. Where the decoder
/// has no frame yet, or the converted frame no plane, the next packet is
/// read. Once the demuxer has run dry the source is exhausted: the decoder
/// is flushed, one buffered frame is still asked of it, and every later pull
/// finishes at once. A native failure ends the pull with its translation.
pub fn next_frame(video_source: &mut VideoSource, event: DecodeEvent) -> (action: DecodeAction)
    requires
        old(video_source).accepts_spec(event),
    ensures
        (*final(video_source), action) == old(video_source).step_spec(event),
        final(video_source).index == old(video_source).index,
        old(video_source).is_eof ==> final(video_source).is_eof,
{
    let phase = video_source.phase;
    match event {
        DecodeEvent::Failed(error) => {
            video_source.phase = Phase::Idle;
            DecodeAction::Fail(ffmpeg_into_image(error))
        },
        DecodeEvent::Pull => {
            if video_source.is_eof {
                DecodeAction::Finish
            } else {
                video_source.phase = Phase::Reading;
                DecodeAction::ReadPacket
            }
        },
        DecodeEvent::Packet { stream } => {
            if stream == video_source.index {
                video_source.phase = Phase::Sending;
                DecodeAction::SendPacket
            } else {
                DecodeAction::ReadPacket
            }
        },
        DecodeEvent::EndOfPackets => {
            video_source.is_eof = true;
            video_source.phase = Phase::Flushing;
            DecodeAction::SendEof
        },
        DecodeEvent::Sent => {
            video_source.phase = if phase == Phase::Sending {
                Phase::Receiving
            } else {
                Phase::Draining
            };
            DecodeAction::ReceiveFrame
        },
        DecodeEvent::FrameReady => {
            video_source.phase = if phase == Phase::Receiving {
                Phase::Converting
            } else {
                Phase::DrainConverting
            };
            DecodeAction::ConvertFrame
        },
        DecodeEvent::NoFrame => {
            if phase == Phase::Receiving {
                video_source.phase = Phase::Reading;
                DecodeAction::ReadPacket
            } else {
                video_source.phase = Phase::Idle;
                DecodeAction::Finish
            }
        },
        DecodeEvent::Converted { planes } => {
            if planes > 0 {
                video_source.phase = Phase::Idle;
                DecodeAction::Emit
            } else if phase == Phase::Converting {
                video_source.phase = Phase::Reading;
                DecodeAction::ReadPacket
            } else {
                video_source.phase = Phase::Idle;
                DecodeAction::Finish
            }
        },
    }
}

/// An exhausted source stays exhausted: no event clears the mark, and every
/// pull on an idle exhausted source finishes at once and changes nothing.
pub proof fn lemma_exhaustion_is_final(source: VideoSource, event: DecodeEvent)
    requires
        source.is_eof,
    ensures
        source.step_spec(event).0.is_eof,
        source.phase == Phase::Idle && event == DecodeEvent::Pull ==> source.step_spec(event) == (
            source,
            DecodeAction::Finish,
        ),
{
}

/// Only packets of the chosen stream reach the decoder, only the running
/// dry of the demuxer exhausts the source, and only a converted frame with
/// an image plane is emitted.
pub proof fn lemma_step_causes(source: VideoSource, event: DecodeEvent)
    requires
        source.accepts_spec(event),
    ensures
        source.step_spec(event).1 == DecodeAction::SendPacket ==> event == (DecodeEvent::Packet {
            stream: source.index,
        }),
        source.step_spec(event).0.is_eof && !source.is_eof ==> event == DecodeEvent::EndOfPackets,
        source.step_spec(event).1 == DecodeAction::Emit ==> (event matches DecodeEvent::Converted {
            planes,
        } && planes > 0),
        source.step_spec(event).1 is Fail ==> event is Failed,
{
}

} // verus!
