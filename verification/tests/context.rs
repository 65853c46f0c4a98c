use angel::context::{
    decode, new_context, read_inner, read_request, set_reader, slice_mut, translate_read, Attach,
    Context, Teardown, IO_BUFFER_SIZE,
};
use angel::error::{IoError, IoErrorKind, MediaError, NativeError};
use angel::reader::Reader;
use std::io::{Cursor, Error, ErrorKind, Read};

fn failure_of(kind: IoErrorKind, error: &Error) -> IoError {
    IoError {
        kind,
        os_code: error.raw_os_error(),
        message: error.to_string(),
    }
}

struct Broken(Option<Error>);

impl Read for Broken {
    fn read(&mut self, _buf: &mut [u8]) -> std::io::Result<usize> {
        match self.0.take() {
            Some(error) => Err(error),
            None => Ok(0),
        }
    }
}

#[test]
fn io_buffer_size_is_4096() {
    assert_eq!(IO_BUFFER_SIZE, 4096);
}

#[test]
fn failed_context_allocation_is_out_of_memory() {
    assert_eq!(Context::new(false), Err(MediaError::OutOfMemory));
    assert_eq!(new_context(false), Err(MediaError::OutOfMemory));
}

#[test]
fn fresh_context_owns_nothing_but_the_native_handle() {
    let context = Context::new(true).unwrap();
    assert!(!context.has_reader());
    assert_eq!(
        context.teardown(),
        Teardown {
            close_native: true,
            drop_reader: false,
            free_scratch: false,
        }
    );
}

#[test]
fn attached_reader_is_dropped_by_the_context_and_the_scratch_is_not_freed() {
    let mut context = new_context(true).unwrap();
    assert_eq!(context.set_reader(true, true), Attach::Attached);
    assert!(context.has_reader());
    assert_eq!(
        context.teardown(),
        Teardown {
            close_native: true,
            drop_reader: true,
            free_scratch: false,
        }
    );
}

#[test]
fn failed_scratch_allocation_leaves_nothing_to_free() {
    let mut context = new_context(true).unwrap();
    let before = context;
    assert_eq!(
        set_reader(&mut context, false, false),
        Attach::Failed {
            error: MediaError::OutOfMemory,
            free_scratch: false,
        }
    );
    assert_eq!(
        set_reader(&mut context, false, true),
        Attach::Failed {
            error: MediaError::OutOfMemory,
            free_scratch: false,
        }
    );
    assert_eq!(context, before);
    assert!(!context.has_reader());
}

#[test]
fn refused_registration_leaves_the_scratch_to_the_adapter() {
    let mut context = new_context(true).unwrap();
    let before = context;
    assert_eq!(
        context.set_reader(true, false),
        Attach::Failed {
            error: MediaError::OutOfMemory,
            free_scratch: true,
        }
    );
    assert_eq!(context, before);
    assert!(!context.teardown().drop_reader);
    assert!(!context.teardown().free_scratch);
    // A later attempt may still succeed, and so may one after that.
    assert_eq!(context.set_reader(true, true), Attach::Attached);
    assert_eq!(context.set_reader(true, true), Attach::Attached);
    assert!(context.has_reader());
    assert_eq!(
        context.set_reader(true, false),
        Attach::Failed {
            error: MediaError::OutOfMemory,
            free_scratch: true,
        }
    );
    assert!(context.has_reader());
}

#[test]
fn opened_context_becomes_a_media_source() {
    let mut context = new_context(true).unwrap();
    context.set_reader(true, true);
    assert!(context.decode(Ok(())).is_ok());
    assert!(decode(context, Ok(())).is_ok());
}

#[test]
fn failed_open_is_translated() {
    let mut context = new_context(true).unwrap();
    context.set_reader(true, true);
    assert_eq!(
        context.decode(Err(NativeError::Code { code: -1094995529 })),
        Err(MediaError::Native(NativeError::Code { code: -1094995529 }))
    );
    assert_eq!(
        decode(context, Err(NativeError::Other { errno: 12 })),
        Err(MediaError::Native(NativeError::Other { errno: 12 }))
    );
    assert_eq!(
        decode(context, Err(NativeError::Unknown)),
        Err(MediaError::Native(NativeError::Unknown))
    );
}

#[test]
fn slice_of_null_or_without_length_is_none() {
    assert_eq!(slice_mut(true, 4096), None);
    assert_eq!(slice_mut(false, 0), None);
    assert_eq!(slice_mut(false, -1), None);
    assert_eq!(slice_mut(false, i32::MIN), None);
    assert_eq!(slice_mut(true, -5), None);
    assert_eq!(slice_mut(false, 1), Some(1));
    assert_eq!(slice_mut(false, 4096), Some(4096));
    assert_eq!(slice_mut(false, i32::MAX), Some(2147483647));
}

#[test]
fn invalid_read_request_is_end_of_stream() {
    assert_eq!(read_request(true, false, 10), Err(NativeError::Eof));
    assert_eq!(read_request(false, true, 10), Err(NativeError::Eof));
    assert_eq!(read_request(false, false, 0), Err(NativeError::Eof));
    assert_eq!(read_request(false, false, -3), Err(NativeError::Eof));
    assert_eq!(read_request(false, false, 10), Ok(10));
}

#[test]
fn read_results_are_translated_to_the_native_convention() {
    assert_eq!(translate_read(&Ok(0)), Err(NativeError::Eof));
    assert_eq!(translate_read(&Ok(1)), Ok(1));
    assert_eq!(translate_read(&Ok(4096)), Ok(4096));
    assert_eq!(translate_read(&Ok(2147483647)), Ok(i32::MAX));
    assert_eq!(translate_read(&Ok(2147483648)), Err(NativeError::Eof));
    assert_eq!(
        translate_read(&Err(failure_of(
            IoErrorKind::Other,
            &Error::from_raw_os_error(104)
        ))),
        Err(NativeError::Other { errno: 104 })
    );
    assert_eq!(
        translate_read(&Err(failure_of(
            IoErrorKind::TimedOut,
            &Error::from(ErrorKind::TimedOut)
        ))),
        Err(NativeError::Unknown)
    );
}

#[test]
fn read_callback_hands_out_the_stream() {
    let bytes: Vec<u8> = (0..10).collect();
    let mut reader = Reader::new(Cursor::new(bytes.clone()));
    reader.ensure_buffered(4).unwrap();
    let mut buf = [0u8; 6];
    assert_eq!(read_inner(&mut reader, &mut buf), Ok(6));
    assert_eq!(&buf, &bytes[..6]);
    assert_eq!(read_inner(&mut reader, &mut buf), Ok(4));
    assert_eq!(&buf[..4], &bytes[6..]);
    assert_eq!(read_inner(&mut reader, &mut buf), Err(NativeError::Eof));
    assert_eq!(reader.last_error(), None);
}

#[test]
fn read_callback_serves_resident_bytes_without_the_source() {
    let bytes: Vec<u8> = (0..6).collect();
    let mut source = bytes.clone();
    source.extend_from_slice(&[9; 4]);
    let mut reader = Reader::new(Cursor::new(source));
    let mut first = [0u8; 6];
    reader.read_buf().unwrap();
    assert_eq!(read_inner(&mut reader, &mut first), Ok(6));
    assert_eq!(&first[..], &bytes[..]);
    assert_eq!(reader.buffer(), &[9u8; 4]);
    let mut wide = [7u8; 10];
    assert_eq!(read_inner(&mut reader, &mut wide), Ok(4));
    assert_eq!(&wide, &[9, 9, 9, 9, 7, 7, 7, 7, 7, 7]);
}

#[test]
fn read_callback_stashes_the_failure_on_the_reader() {
    let mut reader = Reader::new(Broken(Some(Error::from_raw_os_error(32))));
    let mut buf = [0u8; 16];
    assert_eq!(
        read_inner(&mut reader, &mut buf),
        Err(NativeError::Other { errno: 32 })
    );
    assert_eq!(
        reader.last_error(),
        Some(MediaError::Io(failure_of(
            IoErrorKind::BrokenPipe,
            &Error::from_raw_os_error(32)
        )))
    );

    let mut reader = Reader::new(Broken(Some(Error::from(ErrorKind::BrokenPipe))));
    assert_eq!(read_inner(&mut reader, &mut buf), Err(NativeError::Unknown));
    assert_eq!(
        reader.last_error(),
        Some(MediaError::Io(failure_of(
            IoErrorKind::BrokenPipe,
            &Error::from(ErrorKind::BrokenPipe)
        )))
    );
    // After the failure the source is at its end, which is no failure.
    assert_eq!(read_inner(&mut reader, &mut buf), Err(NativeError::Eof));
}

#[test]
fn read_callback_answers_an_empty_buffer_with_end_of_stream() {
    // Neither the resident bytes nor the source are touched.
    let mut reader = Reader::new(Cursor::new(vec![1u8, 2, 3, 4]));
    reader.read_buf().unwrap();
    let mut empty = [0u8; 0];
    assert_eq!(read_inner(&mut reader, &mut empty), Err(NativeError::Eof));
    assert_eq!(reader.buffer(), &[1, 2, 3, 4]);
    assert!(!reader.is_ended());

    let mut reader = Reader::new(Broken(Some(Error::from(ErrorKind::BrokenPipe))));
    assert_eq!(read_inner(&mut reader, &mut empty), Err(NativeError::Eof));
    assert_eq!(reader.last_error(), None);
    assert!(!reader.is_ended());
    // The failure is still the source's to report.
    let mut buf = [0u8; 4];
    assert_eq!(read_inner(&mut reader, &mut buf), Err(NativeError::Unknown));
}
