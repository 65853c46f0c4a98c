//! The decode context: the decisions around the native demuxer handle, the
//! registration of the read adapter with it, and the read callback that the
//! native layer drives.

use crate::error::{
    ffmpeg_into_image, io_as_native, io_to_ffmpeg, native_as_media, out_of_memory, IoError,
    MediaError, NativeError,
};
use crate::reader::{smaller, Reader};
use crate::source::MediaSource;
use std::io::Read;
use vstd::prelude::*;

verus! {

/// Size of the scratch buffer that the native layer reads through.
pub const IO_BUFFER_SIZE: usize = 4096;

/// Who has to release a resource.
#[derive(Clone, Copy, Debug, PartialEq, Eq, Structural)]
pub enum Holder {
    /// The resource does not exist, or was released.
    Nobody,
    /// The adapter owns it and has to release it.
    Adapter,
    /// The native layer owns it; the adapter must not release it.
    Native,
}

/// The ownership ledger of a decode context.
///
/// The context owns the native demuxer handle from its creation on. Once a
/// reader is attached it also answers for the boxed reader that the native
/// layer reaches through an opaque pointer, while the scratch buffer belongs
/// to the native layer.
#[derive(Clone, Copy, Debug, PartialEq, Eq, Structural)]
pub struct Context {
    reader: Holder,
    scratch: Holder,
}

/// What has to be released when a context goes away, in this order: the
/// native handles first, then the reader, then the scratch buffer.
#[derive(Clone, Copy, Debug, PartialEq, Eq, Structural)]
pub struct Teardown {
    pub close_native: bool,
    pub drop_reader: bool,
    pub free_scratch: bool,
}

/// How an attempt to attach a reader ended.
#[derive(Clone, Debug, PartialEq, Eq)]
pub enum Attach {
    /// The native layer took the registration.
    Attached,
    /// An allocation failed. The reader stays with the caller, and so does
    /// the scratch buffer where `free_scratch` says that one was allocated.
    Failed { error: MediaError, free_scratch: bool },
}

impl Context {
    /// Who answers for the boxed reader.
    pub closed spec fn reader_holder(&self) -> Holder {
        self.reader
    }

    /// Who answers for the scratch buffer.
    pub closed spec fn scratch_holder(&self) -> Holder {
        self.scratch
    }

    /// A context without a reader owns no reader and no scratch buffer; one
    /// with a reader answers for the reader and leaves the scratch buffer to
    /// the native layer.
    pub open spec fn wf(&self) -> bool {
        ||| self.reader_holder() == Holder::Nobody && self.scratch_holder() == Holder::Nobody
        ||| self.reader_holder() == Holder::Adapter && self.scratch_holder() == Holder::Native
    }

    /// Whether a reader is attached.
    pub open spec fn spec_has_reader(&self) -> bool {
        self.reader_holder() == Holder::Adapter
    }

    /// Takes charge of a demuxer handle, if the native layer allocated one.
    pub fn new(allocated: bool) -> (result: Result<Self, MediaError>)
        ensures
            allocated ==> (result matches Ok(context) && context.wf() && !context.spec_has_reader()),
            !allocated ==> result == Err::<Self, MediaError>(MediaError::OutOfMemory),
    {
        new_context(allocated)
    }

    /// Whether a reader is attached.
    #[verifier::when_used_as_spec(spec_has_reader)]
    pub fn has_reader(&self) -> (attached: bool)
        ensures
            attached == self.spec_has_reader(),
    {
        self.reader == Holder::Adapter
    }

    /// Records the attempt to attach a reader.
    pub fn set_reader(&mut self, scratch_allocated: bool, io_allocated: bool) -> (attach: Attach)
        requires
            old(self).wf(),
        ensures
            final(self).wf(),
            attach == attach_outcome(scratch_allocated, io_allocated),
            attach == Attach::Attached ==> final(self).spec_has_reader(),
            attach != Attach::Attached ==> *final(self) == *old(self),
    {
        set_reader(self, scratch_allocated, io_allocated)
    }

    /// Ends the context's life with the attempt to open the input.
    pub fn decode(self, opened: Result<(), NativeError>) -> (result: Result<MediaSource, MediaError>)
        requires
            self.wf(),
        ensures
            match opened {
                Ok(()) => result matches Ok(source) && source.context() == self,
                Err(error) => result == Err::<MediaSource, MediaError>(native_as_media(error)),
            },
    {
        decode(self, opened)
    }

    /// What has to be released when this context goes away.
    pub fn teardown(&self) -> (plan: Teardown)
        ensures
            plan.close_native,
            plan.drop_reader == (self.reader_holder() == Holder::Adapter),
            plan.free_scratch == (self.scratch_holder() == Holder::Adapter),
    {
        Teardown {
            close_native: true,
            drop_reader: self.reader == Holder::Adapter,
            free_scratch: self.scratch == Holder::Adapter,
        }
    }
}

/// Takes charge of a demuxer handle, if the native layer allocated one; a
/// failed allocation is `OutOfMemory`.
pub fn new_context(allocated: bool) -> (result: Result<Context, MediaError>)
    ensures
        allocated ==> (result matches Ok(context) && context.wf() && !context.spec_has_reader()),
        !allocated ==> result == Err::<Context, MediaError>(MediaError::OutOfMemory),
{
    if allocated {
        Ok(Context { reader: Holder::Nobody, scratch: Holder::Nobody })
    } else {
        Err(out_of_memory())
    }
}

/// How an attempt to attach a reader ends: it succeeds where both the
/// scratch buffer and the native I/O handle were allocated. Where only the
/// scratch buffer was, the buffer is still the adapter's to free.
pub open spec fn attach_outcome(scratch_allocated: bool, io_allocated: bool) -> Attach {
    if !scratch_allocated {
        Attach::Failed { error: MediaError::OutOfMemory, free_scratch: false }
    } else if !io_allocated {
        Attach::Failed { error: MediaError::OutOfMemory, free_scratch: true }
    } else {
        Attach::Attached
    }
}

/// Records the attempt to attach a reader to `context`.
///
/// On success the scratch buffer passes to the native layer, which alone
/// frees it from then on, and the context answers for the reader; a reader
/// that was attached before is replaced. On failure the context is as it
/// was.
pub fn set_reader(context: &mut Context, scratch_allocated: bool, io_allocated: bool) -> (attach:
    Attach)
    requires
        old(context).wf(),
    ensures
        final(context).wf(),
        attach == attach_outcome(scratch_allocated, io_allocated),
        attach == Attach::Attached ==> final(context).reader_holder() == Holder::Adapter && final(context).scratch_holder() == Holder::Native,
        attach != Attach::Attached ==> *final(context) == *old(context),
{
    if !scratch_allocated {
        return Attach::Failed { error: out_of_memory(), free_scratch: false };
    }
    if !io_allocated {
        return Attach::Failed { error: out_of_memory(), free_scratch: true };
    }
    context.scratch = Holder::Native;
    context.reader = Holder::Adapter;
    Attach::Attached
}

/// Ends the life of `context` with the attempt to open the input: on success
/// the media source takes the context over, on failure the native error is
/// translated and the context is dropped.
pub fn decode(context: Context, opened: Result<(), NativeError>) -> (result: Result<
    MediaSource,
    MediaError,
>)
    requires
        context.wf(),
    ensures
        match opened {
            Ok(()) => result matches Ok(source) && source.context() == context,
            Err(error) => result == Err::<MediaSource, MediaError>(native_as_media(error)),
        },
{
    match opened {
        Ok(()) => Ok(MediaSource::new(context)),
        Err(error) => Err(ffmpeg_into_image(error)),
    }
}

/// The scratch buffer is released exactly once: by the adapter where the
/// native layer never took the registration, and by the native layer, not by
/// the adapter, once it did.
pub proof fn lemma_scratch_released_once(
    context: Context,
    scratch_allocated: bool,
    io_allocated: bool,
)
    requires
        context.wf(),
    ensures
        ({
            let attach = attach_outcome(scratch_allocated, io_allocated);
            &&& attach is Attached <==> scratch_allocated && io_allocated
            &&& attach matches Attach::Failed { free_scratch, .. } ==> free_scratch
                == scratch_allocated
            &&& attach matches Attach::Failed { error, .. } ==> error == MediaError::OutOfMemory
        }),
{
}

/// The length of the slice that a pointer and a length from the native layer
/// stand for, or `None` where the pointer is null or the length not positive.
pub fn slice_mut(buf_is_null: bool, len: i32) -> (slice_len: Option<usize>)
    ensures
        slice_len == if buf_is_null || len <= 0 {
            None
        } else {
            Some(len as usize)
        },
{
    if buf_is_null {
        return None;
    }
    if len <= 0 {
        return None;
    }
    Some(len as usize)
}

/// Validates what the native layer handed to the read callback: a missing
/// reader, a null buffer or a length that is not positive is answered with
/// the end-of-stream sentinel; otherwise the length to read is returned.
pub fn read_request(reader_is_null: bool, buf_is_null: bool, len: i32) -> (request: Result<
    usize,
    NativeError,
>)
    ensures
        request == if reader_is_null || buf_is_null || len <= 0 {
            Err::<usize, NativeError>(NativeError::Eof)
        } else {
            Ok::<usize, NativeError>(len as usize)
        },
{
    if reader_is_null {
        return Err(NativeError::Eof);
    }
    match slice_mut(buf_is_null, len) {
        Some(slice_len) => Ok(slice_len),
        None => Err(NativeError::Eof),
    }
}

/// What the read callback answers to the native layer for what the reader
/// returned: a positive count that fits is passed on, zero bytes and a count
/// that does not fit become the end-of-stream sentinel, and a failure is
/// translated into the native convention.
pub open spec fn read_answer(read: Result<usize, IoError>) -> Result<i32, NativeError> {
    match read {
        Ok(count) => if 0 < count <= i32::MAX {
            Ok(count as i32)
        } else {
            Err(NativeError::Eof)
        },
        Err(error) => Err(io_as_native(error)),
    }
}

/// Translates what the reader returned into the native convention.
pub fn translate_read(read: &Result<usize, IoError>) -> (answer: Result<i32, NativeError>)
    ensures
        answer == read_answer(*read),
{
    match read {
        Ok(count) => {
            let count: usize = *count;
            if count == 0 || count > i32::MAX as usize {
                Err(NativeError::Eof)
            } else {
                Ok(count as i32)
            }
        },
        Err(error) => Err(io_to_ffmpeg(error)),
    }
}

/// The read callback proper: reads from `reader` into `buf` and answers in
/// the native convention.
///
/// An empty buffer is answered with the end-of-stream sentinel, and neither
/// the reader nor the byte source is touched. Otherwise the answer is the
/// translation of what the reader's read returned, and the reader and the
/// buffer are as that read left them. So while bytes are resident, the
/// answer is the count of the bytes that moved from the front of the
/// resident bytes into the front of the buffer, and the source is not
/// touched. The end-of-stream sentinel is the answer to a read of zero
/// bytes. A failure of the byte source is answered with its native
/// translation, and stays recorded on the reader for later inspection.
pub fn read_inner<R: Read>(reader: &mut Reader<R>, buf: &mut [u8]) -> (answer: Result<
    i32,
    NativeError,
>)
    requires
        old(reader).wf(),
    ensures
        final(reader).wf(),
        final(buf)@.len() == old(buf)@.len(),
        old(buf)@.len() == 0 ==> {
            &&& answer == Err::<i32, NativeError>(NativeError::Eof)
            &&& *final(reader) == *old(reader)
            &&& final(buf)@ == old(buf)@
        },
        old(buf)@.len() > 0 ==> exists|read: Result<usize, IoError>|
            answer == read_answer(read) && #[trigger] old(reader).read_outcome(
                *final(reader),
                old(buf)@,
                final(buf)@,
                read,
            ),
        old(buf)@.len() > 0 && old(reader).resident().len() > 0 ==> {
            let n = smaller(old(reader).resident().len(), old(buf)@.len());
            &&& answer == read_answer(Ok::<usize, IoError>(n as usize))
            &&& final(buf)@ == old(reader).resident().take(n as int) + old(buf)@.skip(n as int)
            &&& final(reader).resident() == old(reader).resident().skip(n as int)
            &&& final(reader).pulled() == old(reader).pulled()
            &&& final(reader).delivered() == old(reader).delivered() + final(buf)@.take(n as int)
            &&& final(reader).recorded_error() == old(reader).recorded_error()
            &&& final(reader).source_ended() == old(reader).source_ended()
        },
        answer matches Ok(count) ==> {
            &&& 0 < count <= old(buf)@.len()
            &&& final(reader).delivered() == old(reader).delivered() + final(buf)@.take(
                count as int,
            )
            &&& final(reader).recorded_error() == old(reader).recorded_error()
        },
{
    if buf.len() == 0 {
        return Err(NativeError::Eof);
    }
    let read = reader.read(buf);
    translate_read(&read)
}

} // verus!
