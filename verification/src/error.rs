//! The error taxonomy of the media pipeline and the translations between the
//! byte-source, native-layer and pipeline views of a failure.

use crate::text::{push_signed_decimal, signed_decimal};
use vstd::prelude::*;
use vstd::string::*;

verus! {

/// The category of a byte-source failure.
#[derive(Clone, Copy, Debug, PartialEq, Eq, Structural)]
pub enum IoErrorKind {
    ConnectionReset,
    ConnectionAborted,
    BrokenPipe,
    TimedOut,
    Interrupted,
    UnexpectedEof,
    InvalidData,
    OutOfMemory,
    Other,
}

/// A failure reported by the byte source: its category, its
/// operating-system code where it came from the operating system, and the
/// text in which the source itself describes it.
#[derive(Clone, Debug, PartialEq, Eq)]
pub struct IoError {
    pub kind: IoErrorKind,
    pub os_code: Option<i32>,
    pub message: String,
}

/// A failure reported by the native demuxer or decoder.
#[derive(Clone, Copy, Debug, PartialEq, Eq, Structural)]
pub enum NativeError {
    /// The native end-of-stream sentinel.
    Eof,
    /// The generic native failure.
    Unknown,
    /// The container holds no stream of the wanted kind.
    StreamNotFound,
    /// The native layer needs more input before it can go on.
    Again,
    /// A POSIX error number handed through the native layer.
    Other { errno: i32 },
    /// Any other native error, by its raw code.
    Code { code: i32 },
}

/// A failure of the media pipeline.
#[derive(Clone, Debug, PartialEq, Eq)]
pub enum MediaError {
    /// Neither probing pass recognised the container format.
    FormatUnrecognized,
    /// A native allocation failed.
    OutOfMemory,
    /// The byte source failed.
    Io(IoError),
    /// The demuxer or decoder reported an error.
    Native(NativeError),
    /// A frame could not be compared with its predecessor.
    Uncomparable,
    /// The enclosing runtime cancelled the run.
    Timeout,
}

impl IoError {
    /// The operating-system code of this failure, if it has one.
    pub open spec fn spec_raw_os_error(&self) -> Option<i32> {
        self.os_code
    }

    /// The operating-system code of this failure, if it has one.
    #[verifier::when_used_as_spec(spec_raw_os_error)]
    pub fn raw_os_error(&self) -> (code: Option<i32>)
        ensures
            code == self.spec_raw_os_error(),
    {
        self.os_code
    }

    /// A copy of this failure.
    pub fn duplicate(&self) -> (copy: Self)
        ensures
            copy == *self,
    {
        Self { kind: self.kind, os_code: self.os_code, message: self.message.clone() }
    }

    /// The failure of an allocation that was never attempted because the
    /// size asked for cannot be addressed.
    pub fn out_of_memory() -> (failure: Self)
        ensures
            failure.kind == IoErrorKind::OutOfMemory,
            failure.os_code is None,
            failure.message@ == "out of memory"@,
    {
        Self {
            kind: IoErrorKind::OutOfMemory,
            os_code: None,
            message: String::from_str("out of memory"),
        }
    }
}

impl NativeError {
    /// What `to_string` returns.
    pub open spec fn text(&self) -> Seq<char> {
        match *self {
            NativeError::Eof => "End of file"@,
            NativeError::Unknown => "Unknown error occurred"@,
            NativeError::StreamNotFound => "Stream not found"@,
            NativeError::Again => "Resource temporarily unavailable"@,
            NativeError::Other { errno } => "os error "@ + signed_decimal(errno as int),
            NativeError::Code { code } => "native error "@ + signed_decimal(code as int),
        }
    }

    /// The failure as text: the native layer's words for the failures
    /// that have a name here, else the number of the failure.
    pub fn to_string(&self) -> (text: String)
        ensures
            text@ == self.text(),
    {
        match *self {
            NativeError::Eof => String::from_str("End of file"),
            NativeError::Unknown => String::from_str("Unknown error occurred"),
            NativeError::StreamNotFound => String::from_str("Stream not found"),
            NativeError::Again => String::from_str("Resource temporarily unavailable"),
            NativeError::Other { errno } => {
                let mut text = String::from_str("os error ");
                push_signed_decimal(&mut text, errno);
                text
            },
            NativeError::Code { code } => {
                let mut text = String::from_str("native error ");
                push_signed_decimal(&mut text, code);
                text
            },
        }
    }
}

impl MediaError {
    /// Whether the failure only ends frame production, so that a run keeps
    /// what it has gathered so far. Native failures always do; a byte-source
    /// failure does once at least one caption has been accepted.
    pub open spec fn ends_softly(self, accepted: nat) -> bool {
        match self {
            MediaError::Native(_) => true,
            MediaError::Io(_) => accepted > 0,
            _ => false,
        }
    }

    /// The text that stands for this failure where a summary was expected:
    /// for a failure of the byte source and of the native layer the text of
    /// that failure itself.
    pub open spec fn message_spec(self) -> Seq<char> {
        match self {
            MediaError::FormatUnrecognized => "Unknown or unsupported format"@,
            MediaError::OutOfMemory => "out of memory"@,
            MediaError::Io(error) => error.message@,
            MediaError::Native(error) => error.text(),
            MediaError::Uncomparable => "The dimensions of the input images are not identical"@,
            MediaError::Timeout => "the run was cancelled"@,
        }
    }

    /// Renders this failure as the text shown in place of a summary.
    pub fn message(&self) -> (text: String)
        ensures
            text@ == self.message_spec(),
    {
        match self {
            MediaError::FormatUnrecognized => String::from_str("Unknown or unsupported format"),
            MediaError::OutOfMemory => String::from_str("out of memory"),
            MediaError::Io(error) => error.message.clone(),
            MediaError::Native(error) => error.to_string(),
            MediaError::Uncomparable => String::from_str(
                "The dimensions of the input images are not identical",
            ),
            MediaError::Timeout => String::from_str("the run was cancelled"),
        }
    }

    /// A copy of this failure.
    pub fn duplicate(&self) -> (copy: Self)
        ensures
            copy == *self,
    {
        match self {
            MediaError::FormatUnrecognized => MediaError::FormatUnrecognized,
            MediaError::OutOfMemory => MediaError::OutOfMemory,
            MediaError::Io(error) => MediaError::Io(error.duplicate()),
            MediaError::Native(error) => MediaError::Native(*error),
            MediaError::Uncomparable => MediaError::Uncomparable,
            MediaError::Timeout => MediaError::Timeout,
        }
    }
}

/// The failure that stands for any native allocation failure.
pub fn out_of_memory() -> (error: MediaError)
    ensures
        error == MediaError::OutOfMemory,
{
    MediaError::OutOfMemory
}

/// The failure that stands for an unknown or unsupported format.
pub fn unknown_format() -> (error: MediaError)
    ensures
        error == MediaError::FormatUnrecognized,
{
    MediaError::FormatUnrecognized
}

/// What a native failure is to the pipeline.
pub open spec fn native_as_media(error: NativeError) -> MediaError {
    MediaError::Native(error)
}

/// What a byte-source failure is to the native layer.
pub open spec fn io_as_native(error: IoError) -> NativeError {
    match error.os_code {
        Some(code) => NativeError::Other { errno: code },
        None => NativeError::Unknown,
    }
}

/// Translates a native failure into the pipeline's taxonomy, in which it
/// stays a native failure with its code.
pub fn ffmpeg_into_image(error: NativeError) -> (media: MediaError)
    ensures
        media == native_as_media(error),
{
    MediaError::Native(error)
}

/// Translates a byte-source failure into the native convention: a failure with
/// an operating-system code keeps the code, any other becomes the generic
/// native failure.
pub fn io_to_ffmpeg(error: &IoError) -> (native: NativeError)
    ensures
        native == io_as_native(*error),
{
    match error.raw_os_error() {
        Some(errno) => NativeError::Other { errno },
        None => NativeError::Unknown,
    }
}

/// The operating-system code of a failure of the byte source survives the
/// trip through the native layer and back.
pub proof fn lemma_os_error_round_trip(error: IoError, code: i32)
    requires
        error.os_code == Some(code),
    ensures
        native_as_media(io_as_native(error)) == MediaError::Native(NativeError::Other { errno: code }),
{
}

/// What comes back from the native layer is a native failure, never one of
/// the other failures of the pipeline.
pub proof fn lemma_native_as_media_kinds(error: NativeError)
    ensures
        native_as_media(error) is Native,
        native_as_media(error).ends_softly(0),
{
}

} // verus!
