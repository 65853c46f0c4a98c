//! The synchronous read adapter: a growable byte buffer in front of a pull
//! based byte source, so that bytes inspected while probing are still handed
//! to the decoder, each exactly once and in order.

use crate::error::{IoError, IoErrorKind, MediaError};
use bytes::{Buf, BytesMut};
use std::io::Read;
use vstd::prelude::*;
use vstd::slice::slice_subrange;

verus! {

/// Number of bytes asked of the byte source in one buffering pull.
pub const PULL_SIZE: usize = 4096;

/// `bytes::BytesMut`, taken as it is: what it holds is known by
/// `resident_bytes` alone.
#[verifier::external_type_specification]
#[verifier::external_body]
pub struct ExBytesMut(bytes::BytesMut);

/// `std::io::Error`, taken as it is: a failure is known by its
/// operating-system code and its category alone.
#[verifier::external_type_specification]
#[verifier::external_body]
pub struct ExIoError(std::io::Error);

/// `std::io::ErrorKind`, with its categories.
#[verifier::external_type_specification]
pub struct ExErrorKind(std::io::ErrorKind);

/// The bytes that a `BytesMut` holds, first to last.
pub uninterp spec fn resident_bytes(buffer: BytesMut) -> Seq<u8>;

/// `BytesMut::with_capacity`: the new buffer holds no bytes, whatever its
/// capacity.
pub assume_specification[ BytesMut::with_capacity ](capacity: usize) -> (buffer: BytesMut)
    requires
        capacity <= isize::MAX,
    ensures
        resident_bytes(buffer) == Seq::<u8>::empty(),
;

/// `BytesMut::len`: the number of bytes held.
pub assume_specification[ BytesMut::len ](buffer: &BytesMut) -> (len: usize)
    ensures
        len == resident_bytes(*buffer).len(),
;

/// `BytesMut::extend_from_slice`: the given bytes are appended behind those
/// already held. The call panics where the new length overflows, which the
/// precondition leaves out.
pub assume_specification[ BytesMut::extend_from_slice ](buffer: &mut BytesMut, extend: &[u8])
    requires
        resident_bytes(*old(buffer)).len() + extend@.len() <= isize::MAX,
    ensures
        resident_bytes(*final(buffer)) == resident_bytes(*old(buffer)) + extend@,
;

/// `AsRef<[u8]>::as_ref` of `BytesMut`: a view of all the bytes held, none
/// consumed.
#[verifier::external_body]
fn buffer_as_slice(buffer: &BytesMut) -> (bytes: &[u8])
    ensures
        bytes@ == resident_bytes(*buffer),
{
    buffer.as_ref()
}

/// `Buf::reader` of `&mut BytesMut`, then `Read::read` of that adapter: the
/// first `n` held bytes move into the front of `dst`, where `n` is the smaller
/// of the number of bytes held and the length of `dst`; the rest of `dst` and
/// the rest of the buffer stay as they were. The adapter never fails.
#[verifier::external_body]
fn buffer_read(buffer: &mut BytesMut, dst: &mut [u8]) -> (n: usize)
    ensures
        n == if resident_bytes(*old(buffer)).len() <= old(dst)@.len() {
            resident_bytes(*old(buffer)).len()
        } else {
            old(dst)@.len()
        },
        final(dst)@ == resident_bytes(*old(buffer)).take(n as int) + old(dst)@.skip(n as int),
        resident_bytes(*final(buffer)) == resident_bytes(*old(buffer)).skip(n as int),
{
    match buffer.reader().read(dst) {
        Ok(n) => n,
        Err(_) => 0,
    }
}

/// The category of the pipeline that a category of `std::io::ErrorKind`
/// falls under; every category that the pipeline does not keep is `Other`.
pub open spec fn kept_kind(kind: std::io::ErrorKind) -> IoErrorKind {
    match kind {
        std::io::ErrorKind::ConnectionReset => IoErrorKind::ConnectionReset,
        std::io::ErrorKind::ConnectionAborted => IoErrorKind::ConnectionAborted,
        std::io::ErrorKind::BrokenPipe => IoErrorKind::BrokenPipe,
        std::io::ErrorKind::TimedOut => IoErrorKind::TimedOut,
        std::io::ErrorKind::Interrupted => IoErrorKind::Interrupted,
        std::io::ErrorKind::UnexpectedEof => IoErrorKind::UnexpectedEof,
        std::io::ErrorKind::InvalidData => IoErrorKind::InvalidData,
        std::io::ErrorKind::OutOfMemory => IoErrorKind::OutOfMemory,
        _ => IoErrorKind::Other,
    }
}

/// The operating-system code that a failure of `std::io` carries, if any.
pub uninterp spec fn os_code_of(error: std::io::Error) -> Option<i32>;

/// The category of a failure of `std::io`.
pub uninterp spec fn kind_of(error: std::io::Error) -> std::io::ErrorKind;

/// `std::io::Error::raw_os_error`: the operating-system code of the
/// failure, if it came from the operating system.
pub assume_specification[ std::io::Error::raw_os_error ](error: &std::io::Error) -> (code: Option<
    i32,
>)
    ensures
        code == os_code_of(*error),
;

/// `std::io::Error::kind`: the category of the failure.
pub assume_specification[ std::io::Error::kind ](error: &std::io::Error) -> (kind:
    std::io::ErrorKind)
    ensures
        kind == kind_of(*error),
;

/// The category of the pipeline that `kind` falls under.
pub fn io_kind_of(kind: std::io::ErrorKind) -> (kept: IoErrorKind)
    ensures
        kept == kept_kind(kind),
{
    match kind {
        std::io::ErrorKind::ConnectionReset => IoErrorKind::ConnectionReset,
        std::io::ErrorKind::ConnectionAborted => IoErrorKind::ConnectionAborted,
        std::io::ErrorKind::BrokenPipe => IoErrorKind::BrokenPipe,
        std::io::ErrorKind::TimedOut => IoErrorKind::TimedOut,
        std::io::ErrorKind::Interrupted => IoErrorKind::Interrupted,
        std::io::ErrorKind::UnexpectedEof => IoErrorKind::UnexpectedEof,
        std::io::ErrorKind::InvalidData => IoErrorKind::InvalidData,
        std::io::ErrorKind::OutOfMemory => IoErrorKind::OutOfMemory,
        _ => IoErrorKind::Other,
    }
}

/// Translates a failure of `std::io` into the pipeline's taxonomy: its
/// category, its operating-system code where it carries one, and the text
/// in which it describes itself.
pub fn io_error_of(error: &std::io::Error) -> (failure: IoError)
    ensures
        failure.kind == kept_kind(kind_of(*error)),
        failure.os_code == os_code_of(*error),
{
    IoError {
        kind: io_kind_of(error.kind()),
        os_code: error.raw_os_error(),
        message: error.to_string(),
    }
}

/// `std::io::Read::read` of the byte source: on success the count is at most
/// the length of `buf`, as the trait asks of every implementation. Which bytes
/// arrive, how many, and whether the call fails is the source's to decide.
#[verifier::external_body]
fn source_read<R: Read>(source: &mut R, buf: &mut [u8]) -> (result: Result<usize, std::io::Error>)
    ensures
        final(buf)@.len() == old(buf)@.len(),
        result matches Ok(n) ==> n <= old(buf)@.len(),
{
    source.read(buf)
}

/// Whether another pull would make the buffer longer than any buffer can
/// be.
pub open spec fn pull_overflows(resident: nat) -> bool {
    resident + PULL_SIZE > isize::MAX
}

/// The smaller of two lengths.
pub open spec fn smaller(first: nat, second: nat) -> nat {
    if first <= second {
        first
    } else {
        second
    }
}

/// A byte source behind a growable buffer.
///
/// `pulled` is every byte the source has produced so far, `delivered` every
/// byte that `read` has handed out so far, and `resident` what is buffered in
/// between.
pub struct Reader<R> {
    buffer: BytesMut,
    reader: R,
    error: Option<MediaError>,
    ended: bool,
    pulled: Ghost<Seq<u8>>,
    delivered: Ghost<Seq<u8>>,
}

impl<R> Reader<R> {
    /// The bytes that are buffered and not yet handed out.
    pub closed spec fn resident(&self) -> Seq<u8> {
        resident_bytes(self.buffer)
    }

    /// Every byte that the byte source has produced so far, in order.
    pub closed spec fn pulled(&self) -> Seq<u8> {
        self.pulled@
    }

    /// Every byte that `read` has handed out so far, in order.
    pub closed spec fn delivered(&self) -> Seq<u8> {
        self.delivered@
    }

    /// Whether the byte source has reported the end of the stream.
    pub closed spec fn source_ended(&self) -> bool {
        self.ended
    }

    /// The most recent failure that was recorded.
    pub closed spec fn recorded_error(&self) -> Option<MediaError> {
        self.error
    }

    /// The adapter's invariant: what was handed out, followed by what is
    /// still buffered, is exactly what the source produced.
    pub closed spec fn wf(&self) -> bool {
        self.pulled@ == self.delivered@ + resident_bytes(self.buffer)
    }

    /// What a read into a buffer of `before_buf` amounts to, where `self`
    /// is the adapter before it, `after` the adapter and `after_buf` the
    /// buffer after it.
    ///
    /// While bytes are resident the read is served from them alone: the
    /// count is the smaller of their number and the length of the buffer,
    /// and the source is not touched. With nothing resident, what the
    /// source produced is what is handed out, and a failure of the source
    /// moves nothing and is recorded.
    pub open spec fn read_outcome(
        &self,
        after: Self,
        before_buf: Seq<u8>,
        after_buf: Seq<u8>,
        result: Result<usize, IoError>,
    ) -> bool {
        &&& after_buf.len() == before_buf.len()
        &&& match result {
            Ok(n) => {
                &&& n <= before_buf.len()
                &&& after.delivered() == self.delivered() + after_buf.take(n as int)
                &&& after.recorded_error() == self.recorded_error()
                &&& if self.resident().len() > 0 {
                    &&& n == smaller(self.resident().len(), before_buf.len())
                    &&& after_buf == self.resident().take(n as int) + before_buf.skip(n as int)
                    &&& after.resident() == self.resident().skip(n as int)
                    &&& after.pulled() == self.pulled()
                    &&& after.source_ended() == self.source_ended()
                } else {
                    &&& after.resident() == Seq::<u8>::empty()
                    &&& after.pulled() == self.pulled() + after_buf.take(n as int)
                    &&& after.source_ended() == (self.source_ended() || (n == 0
                        && before_buf.len() > 0))
                }
            },
            Err(error) => {
                &&& self.resident().len() == 0
                &&& after.resident() == self.resident()
                &&& after.pulled() == self.pulled()
                &&& after.delivered() == self.delivered()
                &&& after.source_ended() == self.source_ended()
                &&& after.recorded_error() == Some(MediaError::Io(error))
            },
        }
    }

    /// A view of everything buffered, consuming nothing.
    pub fn buffer(&self) -> (bytes: &[u8])
        ensures
            bytes@ == self.resident(),
    {
        buffer_as_slice(&self.buffer)
    }

    /// Whether the byte source has reported the end of the stream.
    pub fn is_ended(&self) -> (ended: bool)
        ensures
            ended == self.source_ended(),
    {
        self.ended
    }

    /// The most recent failure that was recorded.
    pub fn last_error(&self) -> (error: Option<MediaError>)
        ensures
            error == self.recorded_error(),
    {
        match &self.error {
            Some(error) => Some(error.duplicate()),
            None => None,
        }
    }

    /// Records `error` as the most recent failure; the bytes are untouched.
    pub fn record_error(&mut self, error: MediaError)
        ensures
            final(self).recorded_error() == Some(error),
            final(self).resident() == old(self).resident(),
            final(self).pulled() == old(self).pulled(),
            final(self).delivered() == old(self).delivered(),
            final(self).source_ended() == old(self).source_ended(),
            final(self).wf() == old(self).wf(),
    {
        self.error = Some(error);
    }
}

impl<R: Read> Reader<R> {
    /// Wraps `reader` with an empty buffer.
    pub fn new(reader: R) -> (adapter: Box<Self>)
        ensures
            adapter.wf(),
            adapter.resident() == Seq::<u8>::empty(),
            adapter.pulled() == Seq::<u8>::empty(),
            adapter.delivered() == Seq::<u8>::empty(),
            adapter.recorded_error() == None::<MediaError>,
            !adapter.source_ended(),
    {
        Box::new(
            Self {
                buffer: BytesMut::with_capacity(PULL_SIZE),
                reader,
                error: None,
                ended: false,
                pulled: Ghost(Seq::empty()),
                delivered: Ghost(Seq::empty()),
            },
        )
    }

    /// Takes in what one pull of the byte source came to.
    ///
    /// `scratch` is the buffer that the source was asked to fill, `outcome`
    /// what it answered. On `Ok(n)` the first `n` bytes of `scratch`, which
    /// are the bytes that the source wrote, are put behind the resident
    /// bytes, and `Ok(0)` marks the end of the stream. On `Err` nothing is
    /// taken in and the failure is recorded. The outcome is handed on as it
    /// came.
    pub fn absorb(&mut self, scratch: &[u8], outcome: Result<usize, IoError>) -> (result: Result<
        usize,
        IoError,
    >)
        requires
            old(self).wf(),
            !pull_overflows(old(self).resident().len()),
            scratch@.len() <= PULL_SIZE,
            outcome matches Ok(n) ==> n <= scratch@.len(),
        ensures
            final(self).wf(),
            result == outcome,
            final(self).delivered() == old(self).delivered(),
            match outcome {
                Ok(n) => {
                    &&& final(self).resident() == old(self).resident() + scratch@.take(n as int)
                    &&& final(self).pulled() == old(self).pulled() + scratch@.take(n as int)
                    &&& final(self).source_ended() == (old(self).source_ended() || n == 0)
                    &&& final(self).recorded_error() == old(self).recorded_error()
                },
                Err(error) => {
                    &&& final(self).resident() == old(self).resident()
                    &&& final(self).pulled() == old(self).pulled()
                    &&& final(self).source_ended() == old(self).source_ended()
                    &&& final(self).recorded_error() == Some(MediaError::Io(error))
                },
            },
    {
        match outcome {
            Ok(n) => {
                let chunk = slice_subrange(scratch, 0, n);
                let ghost before = resident_bytes(self.buffer);
                self.buffer.extend_from_slice(chunk);
                proof {
                    assert(chunk@ =~= scratch@.take(n as int));
                    assert(self.delivered@ + (before + chunk@) =~= (self.delivered@ + before)
                        + chunk@);
                    self.pulled@ = self.pulled@ + chunk@;
                }
                if n == 0 {
                    self.ended = true;
                }
                Ok(n)
            },
            Err(failure) => {
                self.error = Some(MediaError::Io(failure.duplicate()));
                Err(failure)
            },
        }
    }

    /// Pulls once from the byte source and buffers what arrives.
    ///
    /// `Ok(n)` says that `n` new bytes, at most `PULL_SIZE`, now stand behind
    /// those already resident; `Ok(0)` is the end of the stream. On `Err` no
    /// byte was taken and the failure is recorded. Nothing is handed out
    /// either way. Where the buffer could not hold another pull, the source
    /// is not asked, and the failure is the library's own. Otherwise the
    /// source is asked to fill a scratch buffer of `PULL_SIZE` bytes, and
    /// `absorb` takes in what came of it.
    pub fn read_buf(&mut self) -> (result: Result<usize, IoError>)
        requires
            old(self).wf(),
        ensures
            final(self).wf(),
            final(self).delivered() == old(self).delivered(),
            pull_overflows(old(self).resident().len()) ==> (result matches Err(error) && error.kind
                == IoErrorKind::OutOfMemory && error.os_code is None && error.message@
                == "out of memory"@),
            match result {
                Ok(n) => {
                    &&& n <= PULL_SIZE
                    &&& final(self).resident().len() == old(self).resident().len() + n
                    &&& final(self).resident().take(old(self).resident().len() as int) == old(self).resident()
                    &&& final(self).pulled() == old(self).pulled() + final(self).resident().skip(
                        old(self).resident().len() as int,
                    )
                    &&& final(self).source_ended() == (old(self).source_ended() || n == 0)
                    &&& final(self).recorded_error() == old(self).recorded_error()
                },
                Err(error) => {
                    &&& final(self).resident() == old(self).resident()
                    &&& final(self).pulled() == old(self).pulled()
                    &&& final(self).source_ended() == old(self).source_ended()
                    &&& final(self).recorded_error() == Some(MediaError::Io(error))
                },
            },
    {
        if self.buffer.len() > isize::MAX as usize - PULL_SIZE {
            let failure = IoError::out_of_memory();
            self.error = Some(MediaError::Io(failure.duplicate()));
            return Err(failure);
        }
        let mut scratch: Vec<u8> = vec![0u8; PULL_SIZE];
        let outcome = match source_read(&mut self.reader, scratch.as_mut_slice()) {
            Ok(n) => Ok(n),
            Err(error) => Err(io_error_of(&error)),
        };
        let ghost before = self.resident();
        let result = self.absorb(scratch.as_slice(), outcome);
        proof {
            if let Ok(n) = result {
                let chunk = scratch@.take(n as int);
                assert((before + chunk).take(before.len() as int) =~= before);
                assert((before + chunk).skip(before.len() as int) =~= chunk);
            }
        }
        result
    }

    /// Pulls until at least `min_bytes` are resident or the stream has ended.
    ///
    /// On `Ok` one of the two holds. What was resident before is still there,
    /// in front; nothing is handed out. On `Err` the bytes that arrived before
    /// the failure stay resident.
    pub fn ensure_buffered(&mut self, min_bytes: usize) -> (result: Result<(), IoError>)
        requires
            old(self).wf(),
        ensures
            final(self).wf(),
            final(self).delivered() == old(self).delivered(),
            old(self).resident().len() <= final(self).resident().len(),
            final(self).resident().take(old(self).resident().len() as int) == old(self).resident(),
            final(self).pulled() == old(self).pulled() + final(self).resident().skip(
                old(self).resident().len() as int,
            ),
            old(self).resident().len() >= min_bytes ==> {
                &&& result is Ok
                &&& final(self).resident() == old(self).resident()
                &&& final(self).pulled() == old(self).pulled()
            },
            result is Ok ==> {
                &&& final(self).resident().len() >= min_bytes || final(self).source_ended()
                &&& final(self).recorded_error() == old(self).recorded_error()
                &&& final(self).source_ended() == (old(self).source_ended() || final(self).resident().len() < min_bytes)
            },
            result matches Err(error) ==> {
                &&& old(self).resident().len() < min_bytes
                &&& final(self).recorded_error() == Some(MediaError::Io(error))
                &&& final(self).source_ended() == old(self).source_ended()
            },
    {
        let ghost start = self.resident();
        let ghost start_pulled = self.pulled();
        let ghost start_error = self.recorded_error();
        let ghost start_ended = self.source_ended();
        proof {
            assert(start.take(start.len() as int) =~= start);
            assert(start.skip(start.len() as int) =~= Seq::<u8>::empty());
            assert(start_pulled + Seq::<u8>::empty() =~= start_pulled);
        }
        let mut have = self.buffer.len();
        while have < min_bytes
            invariant
                have == self.resident().len(),
                self.wf(),
                self.delivered() == old(self).delivered(),
                start == old(self).resident(),
                start_pulled == old(self).pulled(),
                start.len() <= self.resident().len(),
                self.resident().take(start.len() as int) == start,
                self.pulled() == start_pulled + self.resident().skip(start.len() as int),
                start.len() >= min_bytes ==> self.resident() == start,
                start_error == old(self).recorded_error(),
                start_ended == old(self).source_ended(),
                self.recorded_error() == start_error,
                self.source_ended() == start_ended,
                have < min_bytes ==> start.len() < min_bytes,
            decreases
                    (if have < min_bytes {
                        min_bytes - have
                    } else {
                        0
                    }),
        {
            let ghost before = self.resident();
            match self.read_buf() {
                Ok(n) => {
                    proof {
                        let after = self.resident();
                        assert(after.take(start.len() as int) =~= before.take(start.len() as int))
                            by {
                            assert(after.take(before.len() as int) == before);
                            assert(after.take(start.len() as int) =~= after.take(
                                before.len() as int,
                            ).take(start.len() as int));
                        }
                        assert(after.skip(start.len() as int) =~= before.skip(start.len() as int)
                            + after.skip(before.len() as int)) by {
                            assert(after =~= after.take(before.len() as int) + after.skip(
                                before.len() as int,
                            ));
                        }
                        assert(start_pulled + (before.skip(start.len() as int) + after.skip(
                            before.len() as int,
                        )) =~= (start_pulled + before.skip(start.len() as int)) + after.skip(
                            before.len() as int,
                        ));
                    }
                    if n == 0 {
                        return Ok(());
                    }
                    have = self.buffer.len();
                },
                Err(error) => {
                    return Err(error);
                },
            }
        }
        Ok(())
    }

    /// Reads into `buf`: from the buffer while anything is resident, else
    /// straight from the byte source.
    ///
    /// `Ok(n)` says that the first `n` bytes of `buf` are the next `n` bytes
    /// of the stream. While bytes are resident the count is the smaller of
    /// their number and the length of `buf`, the source is not touched and
    /// the rest of `buf` is unchanged. With nothing resident, what the source
    /// produced is what is handed out; `Ok(0)` into a buffer that is not
    /// empty is then the end of the stream. On `Err` nothing moved and the
    /// failure is recorded.
    pub fn read(&mut self, buf: &mut [u8]) -> (result: Result<usize, IoError>)
        requires
            old(self).wf(),
        ensures
            final(self).wf(),
            old(self).read_outcome(*final(self), old(buf)@, final(buf)@, result),
    {
        if self.buffer.len() > 0 {
            let ghost before = resident_bytes(self.buffer);
            let n = buffer_read(&mut self.buffer, buf);
            proof {
                assert(buf@.take(n as int) =~= before.take(n as int));
                assert(before =~= before.take(n as int) + before.skip(n as int));
                assert(self.delivered@ + before =~= (self.delivered@ + before.take(n as int))
                    + before.skip(n as int));
                self.delivered@ = self.delivered@ + before.take(n as int);
            }
            Ok(n)
        } else {
            let wanted = buf.len();
            match source_read(&mut self.reader, buf) {
                Ok(n) => {
                    proof {
                        let got = buf@.take(n as int);
                        assert(resident_bytes(self.buffer) =~= Seq::<u8>::empty());
                        assert((self.delivered@ + got) + resident_bytes(self.buffer) =~= (
                        self.delivered@ + resident_bytes(self.buffer)) + got);
                        self.pulled@ = self.pulled@ + got;
                        self.delivered@ = self.delivered@ + got;
                    }
                    if n == 0 && wanted > 0 {
                        self.ended = true;
                    }
                    Ok(n)
                },
                Err(error) => {
                    let failure = io_error_of(&error);
                    self.error = Some(MediaError::Io(failure.duplicate()));
                    Err(failure)
                },
            }
        }
    }
}

/// No byte is read twice and none is lost: what `read` has handed out so far,
/// followed by what is still buffered, is exactly what the byte source has
/// produced so far. Once the buffer is drained, the two streams are equal.
pub proof fn lemma_no_double_consumption<R>(reader: Reader<R>)
    requires
        reader.wf(),
    ensures
        reader.delivered() + reader.resident() == reader.pulled(),
        reader.delivered().is_prefix_of(reader.pulled()),
        reader.resident().len() == 0 ==> reader.delivered() == reader.pulled(),
{
    assert(reader.delivered() =~= reader.pulled().take(reader.delivered().len() as int));
    if reader.resident().len() == 0 {
        assert(reader.delivered() + reader.resident() =~= reader.delivered());
    }
}

} // verus!
