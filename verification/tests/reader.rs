use angel::error::{IoError, IoErrorKind, MediaError};
use angel::reader::{Reader, PULL_SIZE};
use std::io::{Cursor, Error, ErrorKind, Read};

/// A byte source that hands out its bytes in chunks of at most `chunk`
/// bytes and fails once, when `fail_at` bytes have been handed out.
struct Chunked {
    bytes: Vec<u8>,
    position: usize,
    chunk: usize,
    fail_at: Option<usize>,
    failure: Option<Error>,
}

impl Chunked {
    fn new(bytes: Vec<u8>, chunk: usize) -> Self {
        Chunked {
            bytes,
            position: 0,
            chunk,
            fail_at: None,
            failure: None,
        }
    }

    fn failing(bytes: Vec<u8>, chunk: usize, fail_at: usize, failure: Error) -> Self {
        Chunked {
            bytes,
            position: 0,
            chunk,
            fail_at: Some(fail_at),
            failure: Some(failure),
        }
    }
}

impl Read for Chunked {
    fn read(&mut self, buf: &mut [u8]) -> std::io::Result<usize> {
        if self.fail_at == Some(self.position) {
            if let Some(failure) = self.failure.take() {
                return Err(failure);
            }
        }
        let mut len = buf.len().min(self.chunk).min(self.bytes.len() - self.position);
        if let Some(fail_at) = self.fail_at {
            if self.failure.is_some() && self.position < fail_at {
                len = len.min(fail_at - self.position);
            }
        }
        buf[..len].copy_from_slice(&self.bytes[self.position..self.position + len]);
        self.position += len;
        Ok(len)
    }
}

/// The failure that the adapter makes of `error`.
fn failure_of(kind: IoErrorKind, error: &Error) -> IoError {
    IoError {
        kind,
        os_code: error.raw_os_error(),
        message: error.to_string(),
    }
}

fn sample(len: usize) -> Vec<u8> {
    (0..len).map(|i| (i * 7 % 251) as u8).collect()
}

fn drain<R: Read>(reader: &mut Reader<R>, step: usize) -> Vec<u8> {
    let mut out = Vec::new();
    let mut buf = vec![0u8; step];
    loop {
        let n = reader.read(&mut buf).unwrap();
        if n == 0 {
            break;
        }
        out.extend_from_slice(&buf[..n]);
    }
    out
}

#[test]
fn new_reader_is_empty() {
    let reader = Reader::new(Cursor::new(sample(10)));
    assert!(reader.buffer().is_empty());
    assert!(!reader.is_ended());
    assert_eq!(reader.last_error(), None);
}

#[test]
fn read_buf_appends_what_the_source_produced() {
    let bytes = sample(10_000);
    let mut reader = Reader::new(Cursor::new(bytes.clone()));
    assert_eq!(reader.read_buf().unwrap(), PULL_SIZE);
    assert_eq!(reader.buffer(), &bytes[..4096]);
    assert_eq!(reader.read_buf().unwrap(), 4096);
    assert_eq!(reader.buffer(), &bytes[..8192]);
    assert_eq!(reader.read_buf().unwrap(), 10_000 - 8192);
    assert_eq!(reader.buffer(), &bytes[..]);
    assert!(!reader.is_ended());
    assert_eq!(reader.read_buf().unwrap(), 0);
    assert!(reader.is_ended());
    assert_eq!(reader.buffer(), &bytes[..]);
}

#[test]
fn buffer_does_not_consume() {
    let bytes = sample(100);
    let mut reader = Reader::new(Cursor::new(bytes.clone()));
    reader.read_buf().unwrap();
    assert_eq!(reader.buffer(), &bytes[..]);
    assert_eq!(reader.buffer(), &bytes[..]);
    assert_eq!(drain(&mut reader, 7), bytes);
}

#[test]
fn read_drains_the_buffer_before_the_source() {
    let bytes = sample(30);
    let mut reader = Reader::new(Chunked::new(bytes.clone(), 10));
    assert_eq!(reader.read_buf().unwrap(), 10);
    let mut buf = [0u8; 4];
    assert_eq!(reader.read(&mut buf).unwrap(), 4);
    assert_eq!(&buf, &bytes[0..4]);
    assert_eq!(reader.buffer(), &bytes[4..10]);
    let mut buf = [0xAAu8; 16];
    assert_eq!(reader.read(&mut buf).unwrap(), 6);
    assert_eq!(&buf[..6], &bytes[4..10]);
    assert_eq!(&buf[6..], &[0xAAu8; 10]);
    assert!(reader.buffer().is_empty());
    assert_eq!(reader.read(&mut buf).unwrap(), 10);
    assert_eq!(&buf[..10], &bytes[10..20]);
}

#[test]
fn no_byte_is_lost_or_read_twice() {
    for (len, chunk, min, step) in [
        (0usize, 5usize, 4096usize, 3usize),
        (1, 1, 4096, 1),
        (5000, 4096, 4096, 100),
        (5000, 333, 4096, 4096),
        (12_345, 1000, 4096, 17),
        (4096, 4096, 4096, 4096),
        (9000, 50, 100, 1),
    ] {
        let bytes = sample(len);
        let mut reader = Reader::new(Chunked::new(bytes.clone(), chunk));
        reader.ensure_buffered(min).unwrap();
        let probed = reader.buffer().to_vec();
        assert_eq!(&probed[..], &bytes[..probed.len()]);
        assert!(probed.len() >= min.min(len));
        assert_eq!(drain(&mut reader, step), bytes);
    }
}

#[test]
fn interleaved_buffering_and_reading_keeps_the_stream() {
    let bytes = sample(20_000);
    let mut reader = Reader::new(Chunked::new(bytes.clone(), 700));
    let mut out = Vec::new();
    let mut buf = [0u8; 900];
    let mut round = 0;
    loop {
        if round % 3 == 0 {
            reader.read_buf().unwrap();
        }
        if round % 5 == 0 {
            reader.ensure_buffered(1500).unwrap();
        }
        let n = reader.read(&mut buf).unwrap();
        out.extend_from_slice(&buf[..n]);
        if n == 0 && reader.buffer().is_empty() {
            break;
        }
        round += 1;
    }
    assert_eq!(out, bytes);
}

#[test]
fn ensure_buffered_stops_at_the_end_of_the_stream() {
    let bytes = sample(100);
    let mut reader = Reader::new(Cursor::new(bytes.clone()));
    assert_eq!(reader.ensure_buffered(4096), Ok(()));
    assert_eq!(reader.buffer(), &bytes[..]);
    assert!(reader.is_ended());
}

#[test]
fn ensure_buffered_pulls_nothing_when_enough_is_resident() {
    let bytes = sample(10_000);
    let mut reader = Reader::new(Chunked::new(bytes.clone(), 100));
    reader.ensure_buffered(250).unwrap();
    assert_eq!(reader.buffer().len(), 300);
    reader.ensure_buffered(250).unwrap();
    assert_eq!(reader.buffer().len(), 300);
    reader.ensure_buffered(0).unwrap();
    assert_eq!(reader.buffer().len(), 300);
}

#[test]
fn zero_length_read_is_the_end_of_the_stream() {
    let mut reader = Reader::new(Cursor::new(Vec::<u8>::new()));
    let mut buf = [0u8; 8];
    assert_eq!(reader.read(&mut buf), Ok(0));
    assert!(reader.is_ended());
    assert_eq!(reader.last_error(), None);
}

#[test]
fn read_into_an_empty_buffer_is_no_end_of_stream() {
    let mut reader = Reader::new(Cursor::new(sample(8)));
    let mut buf = [0u8; 0];
    assert_eq!(reader.read(&mut buf), Ok(0));
    assert!(!reader.is_ended());
}

#[test]
fn source_failure_is_returned_and_recorded() {
    let bytes = sample(50);
    let failure = Error::from(ErrorKind::ConnectionReset);
    let mut reader = Reader::new(Chunked::failing(bytes.clone(), 20, 20, failure));
    assert_eq!(reader.read_buf(), Ok(20));
    let expected = failure_of(
        IoErrorKind::ConnectionReset,
        &Error::from(ErrorKind::ConnectionReset),
    );
    assert_eq!(expected.message, "connection reset");
    assert_eq!(reader.read_buf(), Err(expected.clone()));
    assert_eq!(reader.last_error(), Some(MediaError::Io(expected)));
    assert_eq!(reader.buffer(), &bytes[..20]);
    // The source goes on after its one failure; nothing was lost.
    assert_eq!(drain(&mut reader, 9), bytes);
}

#[test]
fn os_failure_keeps_its_code() {
    let failure = Error::from_raw_os_error(5);
    let mut reader = Reader::new(Chunked::failing(sample(10), 4, 0, failure));
    let mut buf = [0u8; 4];
    let expected = failure_of(IoErrorKind::Other, &Error::from_raw_os_error(5));
    assert_eq!(expected.os_code, Some(5));
    assert!(expected.message.ends_with("(os error 5)"));
    assert_eq!(reader.read(&mut buf), Err(expected.clone()));
    assert_eq!(reader.last_error(), Some(MediaError::Io(expected)));
}

#[test]
fn uncommon_failure_kind_is_other() {
    let failure = Error::from(ErrorKind::AddrInUse);
    let mut reader = Reader::new(Chunked::failing(sample(10), 4, 0, failure));
    assert_eq!(
        reader.ensure_buffered(1),
        Err(failure_of(
            IoErrorKind::Other,
            &Error::from(ErrorKind::AddrInUse)
        ))
    );
}

#[test]
fn ensure_buffered_keeps_what_arrived_before_a_failure() {
    let bytes = sample(100);
    let failure = Error::from(ErrorKind::TimedOut);
    let mut reader = Reader::new(Chunked::failing(bytes.clone(), 30, 60, failure));
    let expected = failure_of(IoErrorKind::TimedOut, &Error::from(ErrorKind::TimedOut));
    assert_eq!(reader.ensure_buffered(4096), Err(expected.clone()));
    assert_eq!(reader.buffer(), &bytes[..60]);
    assert_eq!(reader.last_error(), Some(MediaError::Io(expected)));
}

#[test]
fn record_error_replaces_the_last_error() {
    let mut reader = Reader::new(Cursor::new(sample(3)));
    reader.record_error(MediaError::Timeout);
    assert_eq!(reader.last_error(), Some(MediaError::Timeout));
    reader.record_error(MediaError::OutOfMemory);
    assert_eq!(reader.last_error(), Some(MediaError::OutOfMemory));
    assert_eq!(drain(&mut reader, 2), sample(3));
}

#[test]
fn custom_failure_keeps_the_text_of_its_cause() {
    let failure = Error::other("error decoding response body");
    let mut reader = Reader::new(Chunked::failing(sample(10), 4, 0, failure));
    let mut buf = [0u8; 4];
    let error = reader.read(&mut buf).unwrap_err();
    assert_eq!(error.kind, IoErrorKind::Other);
    assert_eq!(error.os_code, None);
    assert_eq!(error.message, "error decoding response body");
    assert_eq!(
        reader.last_error().unwrap().message(),
        "error decoding response body"
    );
}

#[test]
fn buffered_read_does_not_touch_the_source() {
    // The source fails at once, but the bytes that are resident are served.
    let bytes = sample(8);
    let failure = Error::from(ErrorKind::BrokenPipe);
    let mut reader = Reader::new(Chunked::failing(bytes.clone(), 8, 8, failure));
    assert_eq!(reader.ensure_buffered(8), Ok(()));
    assert_eq!(reader.ensure_buffered(8), Ok(()));
    assert_eq!(reader.last_error(), None);
    let mut buf = [0u8; 8];
    assert_eq!(reader.read(&mut buf), Ok(8));
    assert_eq!(&buf[..], &bytes[..]);
    assert_eq!(reader.last_error(), None);
    assert!(reader.read(&mut buf).is_err());
}

#[test]
fn absorb_takes_in_what_the_source_wrote() {
    let mut reader = Reader::new(Cursor::new(Vec::<u8>::new()));
    assert_eq!(reader.absorb(&[1, 2, 3, 4], Ok(3)), Ok(3));
    assert_eq!(reader.buffer(), &[1, 2, 3]);
    assert_eq!(reader.absorb(&[9, 8], Ok(2)), Ok(2));
    assert_eq!(reader.buffer(), &[1, 2, 3, 9, 8]);
    assert!(!reader.is_ended());
    assert_eq!(reader.absorb(&[7; 16], Ok(0)), Ok(0));
    assert_eq!(reader.buffer(), &[1, 2, 3, 9, 8]);
    assert!(reader.is_ended());
    assert_eq!(reader.last_error(), None);
    let mut out = [0u8; 8];
    assert_eq!(reader.read(&mut out), Ok(5));
    assert_eq!(&out[..5], &[1, 2, 3, 9, 8]);
}

#[test]
fn absorb_records_a_failure_and_takes_nothing_in() {
    let mut reader = Reader::new(Cursor::new(Vec::<u8>::new()));
    reader.absorb(&[1, 2], Ok(2)).unwrap();
    let failure = failure_of(IoErrorKind::TimedOut, &Error::from(ErrorKind::TimedOut));
    assert_eq!(
        reader.absorb(&[5, 6, 7], Err(failure.clone())),
        Err(failure.clone())
    );
    assert_eq!(reader.buffer(), &[1, 2]);
    assert!(!reader.is_ended());
    assert_eq!(reader.last_error(), Some(MediaError::Io(failure)));
}

#[test]
fn read_buf_buffers_the_bytes_of_the_source_not_the_scratch() {
    let bytes: Vec<u8> = (1..=200).collect();
    let mut reader = Reader::new(Chunked::new(bytes.clone(), 64));
    let mut seen = 0;
    while seen < bytes.len() {
        let n = reader.read_buf().unwrap();
        assert_eq!(n, 64.min(bytes.len() - seen));
        seen += n;
        assert_eq!(reader.buffer(), &bytes[..seen]);
    }
}
