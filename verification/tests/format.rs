use angel::buffer::Buffer;
use angel::error::MediaError;
use angel::format::{
    guess_format, resolve_probe, MediaFormat, ProbePass, ProbeStep, PROBE_PADDING, PROBE_WINDOW,
};

fn matroska() -> MediaFormat {
    MediaFormat::new(
        String::from("matroska,webm"),
        String::from("Matroska / WebM"),
        vec![String::from("mkv"), String::from("webm")],
        vec![String::from("video/webm"), String::from("video/x-matroska")],
    )
}

fn mp4() -> MediaFormat {
    MediaFormat::new(
        String::from("mov,mp4,m4a,3gp,3g2,mj2"),
        String::from("QuickTime / MOV"),
        vec![String::from("mov"), String::from("mp4")],
        vec![],
    )
}

#[test]
fn format_descriptor_getters() {
    let format = matroska();
    assert_eq!(format.name(), "matroska,webm");
    assert_eq!(format.description(), "Matroska / WebM");
    assert_eq!(format.extensions(), vec!["mkv", "webm"]);
    assert_eq!(format.mime_types(), vec!["video/webm", "video/x-matroska"]);
    assert!(mp4().mime_types().is_empty());
}

#[test]
fn probe_copies_short_input_whole_and_pads_it() {
    let bytes: Vec<u8> = (1..=100).collect();
    let probe = guess_format(&bytes).unwrap();
    assert_eq!(probe.window_len(), 100);
    assert_eq!(probe.scratch().len(), 100 + PROBE_PADDING);
    assert_eq!(&probe.scratch()[..100], &bytes[..]);
    assert_eq!(&probe.scratch()[100..], &[0u8; 32]);
    assert_eq!(probe.pass(), ProbePass::Strict);
    assert_eq!(probe.file_name(), "stream");
}

#[test]
fn probe_looks_at_no_more_than_the_window() {
    let bytes: Vec<u8> = (0..10_000).map(|i| (i % 255 + 1) as u8).collect();
    let probe = MediaFormat::guess(&bytes).unwrap();
    assert_eq!(probe.window_len(), PROBE_WINDOW);
    assert_eq!(probe.window_len(), 4096);
    assert_eq!(probe.scratch().len(), 4096 + 32);
    assert_eq!(&probe.scratch()[..4096], &bytes[..4096]);
    assert_eq!(&probe.scratch()[4096..], &[0u8; 32]);
}

#[test]
fn probe_of_empty_input_is_padding_only() {
    let probe = guess_format(&[]).unwrap();
    assert_eq!(probe.window_len(), 0);
    assert_eq!(probe.scratch(), &[0u8; 32]);
}

#[test]
fn probe_is_determined_by_the_first_window() {
    let mut first: Vec<u8> = (0..5000).map(|i| (i % 200) as u8).collect();
    let mut second = first.clone();
    first.extend_from_slice(&[1, 2, 3]);
    second.extend_from_slice(&[9; 700]);
    let first = guess_format(&first).unwrap();
    let second = guess_format(&second).unwrap();
    assert_eq!(first.scratch(), second.scratch());
    assert_eq!(first.window_len(), second.window_len());
    assert_eq!(first.pass(), second.pass());
}

#[test]
fn probe_does_not_touch_its_input() {
    let bytes: Vec<u8> = (0..300).map(|i| i as u8).collect();
    let copy = bytes.clone();
    let _probe = guess_format(&bytes).unwrap();
    let _again = guess_format(&bytes).unwrap();
    assert_eq!(bytes, copy);
}

#[test]
fn strict_match_settles_the_format() {
    let probe = guess_format(b"\x1a\x45\xdf\xa3").unwrap();
    match probe.answer(Some(matroska())) {
        ProbeStep::Recognized(format) => assert_eq!(format.name(), "matroska,webm"),
        _ => panic!("the strict match should settle the format"),
    }
}

#[test]
fn strict_miss_retries_relaxed_on_the_same_bytes() {
    let bytes = b"....ftypisom";
    let probe = guess_format(bytes).unwrap();
    let scratch = probe.scratch().to_vec();
    let retry = match probe.answer(None) {
        ProbeStep::Retry(retry) => retry,
        _ => panic!("a strict miss should schedule the relaxed pass"),
    };
    assert_eq!(retry.pass(), ProbePass::Relaxed);
    assert_eq!(retry.scratch(), &scratch[..]);
    assert_eq!(retry.window_len(), bytes.len());
    match retry.answer(Some(mp4())) {
        ProbeStep::Recognized(format) => assert_eq!(format.description(), "QuickTime / MOV"),
        _ => panic!("the relaxed match should settle the format"),
    }
}

#[test]
fn two_misses_are_an_unrecognized_format() {
    let probe = guess_format(&[0u8; 4096]).unwrap();
    let retry = match probe.answer(None) {
        ProbeStep::Retry(retry) => retry,
        _ => panic!("a strict miss should schedule the relaxed pass"),
    };
    match retry.answer(None) {
        ProbeStep::Unrecognized(error) => assert_eq!(error, MediaError::FormatUnrecognized),
        _ => panic!("two misses should end the probe"),
    }
}

#[test]
fn resolve_probe_prefers_the_strict_answer() {
    assert_eq!(
        resolve_probe(Some(matroska()), Some(mp4())).unwrap().name(),
        "matroska,webm"
    );
    assert_eq!(
        resolve_probe(None, Some(mp4())).unwrap().name(),
        "mov,mp4,m4a,3gp,3g2,mj2"
    );
    assert_eq!(
        resolve_probe(Some(matroska()), None).unwrap().name(),
        "matroska,webm"
    );
    assert_eq!(
        resolve_probe(None, None).unwrap_err(),
        MediaError::FormatUnrecognized
    );
}

#[test]
fn buffer_is_zero_filled_and_takes_a_prefix() {
    let mut buffer = Buffer::try_alloc(6).unwrap();
    assert_eq!(buffer.capacity(), 6);
    assert_eq!(buffer.as_slice(), &[0u8; 6]);
    buffer.write_prefix(&[7, 8, 9]);
    assert_eq!(buffer.as_slice(), &[7, 8, 9, 0, 0, 0]);
    buffer.write_prefix(&[]);
    assert_eq!(buffer.as_slice(), &[7, 8, 9, 0, 0, 0]);
    buffer.write_prefix(&[1, 2, 3, 4, 5, 6]);
    assert_eq!(buffer.as_slice(), &[1, 2, 3, 4, 5, 6]);
    assert_eq!(Buffer::try_alloc(0).unwrap().capacity(), 0);
}
