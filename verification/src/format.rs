//! Format probing: which bytes are shown to the native prober, in which
//! passes, and what its answers amount to.

use crate::buffer::{zeros, Buffer};
use crate::error::{unknown_format, MediaError};
use vstd::prelude::*;
use vstd::slice::slice_subrange;

verus! {

/// Largest number of leading bytes that probing inspects.
pub const PROBE_WINDOW: usize = 4096;

/// Number of zero bytes that the native prober wants behind the inspected
/// bytes.
pub const PROBE_PADDING: usize = 32;

/// A container format, as the native layer describes it.
#[derive(Debug)]
pub struct MediaFormat {
    name: String,
    description: String,
    extensions: Vec<String>,
    mime_types: Vec<String>,
}

/// What a `MediaFormat` says, as plain text.
pub struct MediaFormatView {
    pub name: Seq<char>,
    pub description: Seq<char>,
    pub extensions: Seq<Seq<char>>,
    pub mime_types: Seq<Seq<char>>,
}

impl View for MediaFormat {
    type V = MediaFormatView;

    closed spec fn view(&self) -> MediaFormatView {
        MediaFormatView {
            name: self.name@,
            description: self.description@,
            extensions: Seq::new(self.extensions@.len(), |i: int| self.extensions@[i]@),
            mime_types: Seq::new(self.mime_types@.len(), |i: int| self.mime_types@[i]@),
        }
    }
}

/// The inspected bytes: the first `PROBE_WINDOW` bytes, or all of them where
/// there are fewer.
pub open spec fn probe_window(bytes: Seq<u8>) -> Seq<u8> {
    if bytes.len() <= PROBE_WINDOW {
        bytes
    } else {
        bytes.take(PROBE_WINDOW as int)
    }
}

/// The scratch buffer shown to the native prober: the inspected bytes and
/// the zero padding behind them.
pub open spec fn probe_scratch(bytes: Seq<u8>) -> Seq<u8> {
    probe_window(bytes) + zeros(PROBE_PADDING as nat)
}

/// The two probing passes, in the order in which they are made.
#[derive(Clone, Copy, Debug, PartialEq, Eq, Structural)]
pub enum ProbePass {
    /// The high-confidence pass.
    Strict,
    /// The pass that also accepts weak matches.
    Relaxed,
}

/// A probe under way: the scratch buffer and the pass to make next.
pub struct FormatProbe {
    scratch: Buffer,
    window: usize,
    pass: ProbePass,
}

/// What a `FormatProbe` holds.
pub struct FormatProbeView {
    pub scratch: Seq<u8>,
    pub window: nat,
    pub pass: ProbePass,
}

impl View for FormatProbe {
    type V = FormatProbeView;

    closed spec fn view(&self) -> FormatProbeView {
        FormatProbeView { scratch: self.scratch@, window: self.window as nat, pass: self.pass }
    }
}

/// The probe that `guess_format` starts on `bytes`.
pub open spec fn initial_probe(bytes: Seq<u8>) -> FormatProbeView {
    FormatProbeView {
        scratch: probe_scratch(bytes),
        window: probe_window(bytes).len(),
        pass: ProbePass::Strict,
    }
}

/// How a probe goes on after the native prober has answered one pass.
pub enum ProbeStep {
    /// The format is settled.
    Recognized(MediaFormat),
    /// The pass found nothing; the next pass is to be made on the same bytes.
    Retry(FormatProbe),
    /// Both passes found nothing.
    Unrecognized(MediaError),
}

impl MediaFormat {
    /// Describes a format by its name, description, file extensions and MIME
    /// types.
    pub fn new(
        name: String,
        description: String,
        extensions: Vec<String>,
        mime_types: Vec<String>,
    ) -> (format: Self)
        ensures
            format@.name == name@,
            format@.description == description@,
            format@.extensions == Seq::new(extensions@.len(), |i: int| extensions@[i]@),
            format@.mime_types == Seq::new(mime_types@.len(), |i: int| mime_types@[i]@),
    {
        Self { name, description, extensions, mime_types }
    }

    /// The name of the format.
    pub fn name(&self) -> (name: &str)
        ensures
            name@ == self@.name,
    {
        self.name.as_str()
    }

    /// A description of the format.
    pub fn description(&self) -> (description: &str)
        ensures
            description@ == self@.description,
    {
        self.description.as_str()
    }

    /// The file extensions of the format.
    pub fn extensions(&self) -> (extensions: Vec<&str>)
        ensures
            extensions@.len() == self@.extensions.len(),
            forall|i: int| 0 <= i < extensions@.len() ==> extensions@[i]@ == self@.extensions[i],
    {
        borrow_all(&self.extensions)
    }

    /// The MIME types of the format.
    pub fn mime_types(&self) -> (mime_types: Vec<&str>)
        ensures
            mime_types@.len() == self@.mime_types.len(),
            forall|i: int| 0 <= i < mime_types@.len() ==> mime_types@[i]@ == self@.mime_types[i],
    {
        borrow_all(&self.mime_types)
    }

    /// Starts a probe of the format of `bytes`.
    pub fn guess(bytes: &[u8]) -> (result: Result<FormatProbe, MediaError>)
        ensures
            match result {
                Ok(probe) => probe@ == initial_probe(bytes@),
                Err(error) => error == MediaError::OutOfMemory,
            },
    {
        guess_format(bytes)
    }
}

/// Borrows every string of `strings`, in order.
fn borrow_all(strings: &Vec<String>) -> (borrowed: Vec<&str>)
    ensures
        borrowed@.len() == strings@.len(),
        forall|i: int| 0 <= i < borrowed@.len() ==> borrowed@[i]@ == strings@[i]@,
{
    let mut borrowed: Vec<&str> = Vec::new();
    let mut index: usize = 0;
    while index < strings.len()
        invariant
            index <= strings@.len(),
            borrowed@.len() == index,
            forall|i: int| 0 <= i < index ==> borrowed@[i]@ == strings@[i]@,
        decreases strings@.len() - index,
    {
        borrowed.push(strings[index].as_str());
        index += 1;
    }
    borrowed
}

/// Starts a probe of the format of `bytes`: copies the inspected bytes into
/// a zero-padded scratch buffer and schedules the strict pass.
///
/// `bytes` itself is neither changed nor consumed. The only failure is the
/// allocation of the scratch buffer.
pub fn guess_format(bytes: &[u8]) -> (result: Result<FormatProbe, MediaError>)
    ensures
        match result {
            Ok(probe) => probe@ == initial_probe(bytes@),
            Err(error) => error == MediaError::OutOfMemory,
        },
{
    let len: usize = if bytes.len() <= PROBE_WINDOW {
        bytes.len()
    } else {
        PROBE_WINDOW
    };
    match Buffer::try_alloc(len + PROBE_PADDING) {
        Ok(buffer) => {
            let mut scratch = buffer;
            let window = slice_subrange(bytes, 0, len);
            scratch.write_prefix(window);
            proof {
                assert(window@ =~= probe_window(bytes@));
                assert(scratch@ =~= probe_scratch(bytes@));
            }
            Ok(FormatProbe { scratch, window: len, pass: ProbePass::Strict })
        },
        Err(error) => Err(error),
    }
}

impl FormatProbe {
    /// The placeholder file name shown to the native prober; it names no
    /// file.
    pub fn file_name(&self) -> (name: &'static str)
        ensures
            name@ == "stream"@,
    {
        "stream"
    }

    /// The scratch buffer to show to the native prober.
    pub fn scratch(&self) -> (bytes: &[u8])
        ensures
            bytes@ == self@.scratch,
    {
        self.scratch.as_slice()
    }

    /// The number of leading bytes of the scratch buffer that are inspected;
    /// what follows is padding.
    pub fn window_len(&self) -> (len: usize)
        ensures
            len == self@.window,
    {
        self.window
    }

    /// The pass to make next.
    pub fn pass(&self) -> (pass: ProbePass)
        ensures
            pass == self@.pass,
    {
        self.pass
    }

    /// Takes the native prober's answer to the pass that was due.
    ///
    /// A match settles the format. No match in the strict pass schedules the
    /// relaxed pass on the same bytes; no match in the relaxed pass means
    /// that the format is unrecognised.
    pub fn answer(self, found: Option<MediaFormat>) -> (step: ProbeStep)
        ensures
            match found {
                Some(format) => step == ProbeStep::Recognized(format),
                None => match self@.pass {
                    ProbePass::Strict => step matches ProbeStep::Retry(next) && next@
                        == (FormatProbeView { pass: ProbePass::Relaxed, ..self@ }),
                    ProbePass::Relaxed => step == ProbeStep::Unrecognized(
                        MediaError::FormatUnrecognized,
                    ),
                },
            },
    {
        match found {
            Some(format) => ProbeStep::Recognized(format),
            None => match self.pass {
                ProbePass::Strict => ProbeStep::Retry(
                    FormatProbe { scratch: self.scratch, window: self.window, pass: ProbePass::Relaxed },
                ),
                ProbePass::Relaxed => ProbeStep::Unrecognized(unknown_format()),
            },
        }
    }
}

/// What probing amounts to, given what the native prober answers to each
/// pass: the strict answer where there is one, else the relaxed answer, else
/// the unrecognised-format failure.
pub open spec fn probe_outcome(
    strict: Option<MediaFormat>,
    relaxed: Option<MediaFormat>,
) -> Result<MediaFormat, MediaError> {
    match strict {
        Some(format) => Ok(format),
        None => match relaxed {
            Some(format) => Ok(format),
            None => Err(MediaError::FormatUnrecognized),
        },
    }
}

/// Settles a probe from the answers to both passes; the relaxed answer is
/// looked at only where the strict pass found nothing.
pub fn resolve_probe(strict: Option<MediaFormat>, relaxed: Option<MediaFormat>) -> (result: Result<
    MediaFormat,
    MediaError,
>)
    ensures
        result == probe_outcome(strict, relaxed),
{
    match strict {
        Some(format) => Ok(format),
        None => match relaxed {
            Some(format) => Ok(format),
            None => Err(unknown_format()),
        },
    }
}

/// Probing looks at nothing beyond the first `PROBE_WINDOW` bytes: inputs
/// that agree there start the same probe, so that equal answers of the
/// native prober give the same format or the same failure.
pub proof fn lemma_probe_is_determined_by_window(first: Seq<u8>, second: Seq<u8>)
    requires
        probe_window(first) == probe_window(second),
    ensures
        initial_probe(first) == initial_probe(second),
        probe_scratch(first) == probe_scratch(second),
{
}

/// The inspected bytes are a prefix of the input, at most `PROBE_WINDOW`
/// long, and the scratch buffer is that prefix with `PROBE_PADDING` zero
/// bytes behind it.
pub proof fn lemma_probe_window_is_prefix(bytes: Seq<u8>)
    ensures
        probe_window(bytes).len() <= PROBE_WINDOW,
        probe_window(bytes).len() <= bytes.len(),
        probe_window(bytes).is_prefix_of(bytes),
        probe_scratch(bytes).len() == probe_window(bytes).len() + PROBE_PADDING,
        probe_window(probe_window(bytes)) == probe_window(bytes),
{
    let window = probe_window(bytes);
    assert(window =~= bytes.take(window.len() as int));
}

} // verus!
