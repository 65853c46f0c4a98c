use angel::context::new_context;
use angel::error::{MediaError, NativeError};
use angel::source::{
    next_frame, received_event, to_rgba, video_source, DecodeAction, DecodeEvent, Frame,
    MediaSource, Phase, VideoSource,
};

fn source() -> VideoSource {
    let media = MediaSource::new(new_context(true).unwrap());
    media.video(Some(1), Ok(())).unwrap()
}

/// Feeds `events` to `source` and returns the actions.
fn run(source: &mut VideoSource, events: &[DecodeEvent]) -> Vec<DecodeAction> {
    events
        .iter()
        .map(|event| {
            assert!(source.accepts(*event));
            next_frame(source, *event)
        })
        .collect()
}

#[test]
fn frame_from_raw_needs_four_bytes_per_pixel() {
    assert!(Frame::from_raw(2, 3, vec![0; 24]).is_some());
    assert!(Frame::from_raw(2, 3, vec![0; 23]).is_none());
    assert!(Frame::from_raw(2, 3, vec![0; 30]).is_some());
    assert!(Frame::from_raw(0, 0, vec![]).is_some());
    assert!(Frame::from_raw(0, 5, vec![]).is_some());
    assert!(Frame::from_raw(1, 1, vec![]).is_none());
    assert!(Frame::from_raw(u32::MAX, u32::MAX, vec![0; 64]).is_none());
    assert!(Frame::from_raw(65536, 65536, vec![0; 64]).is_none());
}

#[test]
fn frame_keeps_its_parts() {
    let data: Vec<u8> = (0..16).collect();
    let frame = Frame::from_raw(2, 2, data.clone()).unwrap();
    assert_eq!(frame.width(), 2);
    assert_eq!(frame.height(), 2);
    assert_eq!(frame.data(), &data[..]);
    assert_eq!(frame.delay(), (10, 1));
    assert_eq!(frame.into_raw(), data);
}

#[test]
fn converted_frame_without_planes_is_no_frame() {
    assert!(matches!(to_rgba(0, 4, 4, vec![0; 64]), Ok(None)));
    assert!(matches!(to_rgba(0, 4, 4, vec![]), Ok(None)));
}

#[test]
fn converted_frame_with_a_plane_is_a_frame() {
    let frame = to_rgba(1, 4, 2, vec![9; 32]).unwrap().unwrap();
    assert_eq!((frame.width(), frame.height()), (4, 2));
    assert_eq!(frame.data(), &[9u8; 32]);
    assert!(to_rgba(3, 1, 1, vec![1, 2, 3, 4]).unwrap().is_some());
}

#[test]
fn converted_frame_with_too_few_bytes_is_out_of_memory() {
    assert_eq!(
        to_rgba(1, 4, 2, vec![9; 31]).unwrap_err(),
        MediaError::OutOfMemory
    );
}

#[test]
fn video_source_needs_a_stream_and_a_decoder() {
    let media = MediaSource::new(new_context(true).unwrap());
    assert_eq!(
        media.video(None, Ok(())),
        Err(MediaError::Native(NativeError::StreamNotFound))
    );
    assert_eq!(
        video_source(&media, Some(0), Err(NativeError::Code { code: -22 })),
        Err(MediaError::Native(NativeError::Code { code: -22 }))
    );
    assert_eq!(
        video_source(&media, Some(0), Err(NativeError::Other { errno: 22 })),
        Err(MediaError::Native(NativeError::Other { errno: 22 }))
    );
    assert_eq!(
        video_source(&media, Some(3), Ok(())),
        Ok(VideoSource {
            index: 3,
            is_eof: false,
            phase: Phase::Idle
        })
    );
}

#[test]
fn a_pull_decodes_one_frame() {
    let mut source = source();
    let actions = run(
        &mut source,
        &[
            DecodeEvent::Pull,
            DecodeEvent::Packet { stream: 1 },
            DecodeEvent::Sent,
            DecodeEvent::FrameReady,
            DecodeEvent::Converted { planes: 1 },
        ],
    );
    assert_eq!(
        actions,
        vec![
            DecodeAction::ReadPacket,
            DecodeAction::SendPacket,
            DecodeAction::ReceiveFrame,
            DecodeAction::ConvertFrame,
            DecodeAction::Emit,
        ]
    );
    assert_eq!(source.phase, Phase::Idle);
    assert!(!source.is_exhausted());
}

#[test]
fn packets_of_other_streams_are_skipped() {
    let mut source = source();
    let actions = run(
        &mut source,
        &[
            DecodeEvent::Pull,
            DecodeEvent::Packet { stream: 0 },
            DecodeEvent::Packet { stream: 2 },
            DecodeEvent::Packet { stream: 1 },
        ],
    );
    assert_eq!(
        actions,
        vec![
            DecodeAction::ReadPacket,
            DecodeAction::ReadPacket,
            DecodeAction::ReadPacket,
            DecodeAction::SendPacket,
        ]
    );
}

#[test]
fn no_frame_yet_reads_the_next_packet() {
    let mut source = source();
    let actions = run(
        &mut source,
        &[
            DecodeEvent::Pull,
            DecodeEvent::Packet { stream: 1 },
            DecodeEvent::Sent,
            DecodeEvent::NoFrame,
            DecodeEvent::Packet { stream: 1 },
            DecodeEvent::Sent,
            DecodeEvent::FrameReady,
        ],
    );
    assert_eq!(actions[3], DecodeAction::ReadPacket);
    assert_eq!(actions[6], DecodeAction::ConvertFrame);
    assert!(!source.is_exhausted());
}

#[test]
fn frame_without_planes_does_not_end_the_source() {
    let mut source = source();
    let actions = run(
        &mut source,
        &[
            DecodeEvent::Pull,
            DecodeEvent::Packet { stream: 1 },
            DecodeEvent::Sent,
            DecodeEvent::FrameReady,
            DecodeEvent::Converted { planes: 0 },
            DecodeEvent::Packet { stream: 1 },
        ],
    );
    assert_eq!(actions[4], DecodeAction::ReadPacket);
    assert_eq!(actions[5], DecodeAction::SendPacket);
    assert!(!source.is_exhausted());
}

#[test]
fn exhausted_demuxer_flushes_and_drains_once() {
    let mut source = source();
    let actions = run(
        &mut source,
        &[
            DecodeEvent::Pull,
            DecodeEvent::EndOfPackets,
            DecodeEvent::Sent,
            DecodeEvent::FrameReady,
            DecodeEvent::Converted { planes: 2 },
        ],
    );
    assert_eq!(
        actions,
        vec![
            DecodeAction::ReadPacket,
            DecodeAction::SendEof,
            DecodeAction::ReceiveFrame,
            DecodeAction::ConvertFrame,
            DecodeAction::Emit,
        ]
    );
    assert!(source.is_exhausted());
    // Every later pull finishes at once.
    assert_eq!(next_frame(&mut source, DecodeEvent::Pull), DecodeAction::Finish);
    assert_eq!(next_frame(&mut source, DecodeEvent::Pull), DecodeAction::Finish);
    assert_eq!(source.phase, Phase::Idle);
}

#[test]
fn drained_decoder_without_frame_finishes() {
    let mut source = source();
    let actions = run(
        &mut source,
        &[
            DecodeEvent::Pull,
            DecodeEvent::EndOfPackets,
            DecodeEvent::Sent,
            DecodeEvent::NoFrame,
        ],
    );
    assert_eq!(actions[3], DecodeAction::Finish);
    assert!(source.is_exhausted());

    let mut source = self::source();
    let actions = run(
        &mut source,
        &[
            DecodeEvent::Pull,
            DecodeEvent::EndOfPackets,
            DecodeEvent::Sent,
            DecodeEvent::FrameReady,
            DecodeEvent::Converted { planes: 0 },
        ],
    );
    assert_eq!(actions[4], DecodeAction::Finish);
}

#[test]
fn native_failure_ends_the_pull_with_its_translation() {
    let events = [
        DecodeEvent::Pull,
        DecodeEvent::Packet { stream: 1 },
        DecodeEvent::Sent,
        DecodeEvent::FrameReady,
    ];
    for failed_after in 1..=events.len() {
        let mut source = source();
        run(&mut source, &events[..failed_after]);
        let failure = DecodeEvent::Failed(NativeError::Code { code: -1094995529 });
        assert!(source.accepts(failure));
        assert_eq!(
            next_frame(&mut source, failure),
            DecodeAction::Fail(MediaError::Native(NativeError::Code {
                code: -1094995529
            }))
        );
        assert_eq!(source.phase, Phase::Idle);
        assert!(!source.is_exhausted());
    }
}

#[test]
fn failed_flush_leaves_the_source_exhausted() {
    let mut source = source();
    run(&mut source, &[DecodeEvent::Pull, DecodeEvent::EndOfPackets]);
    assert_eq!(
        next_frame(&mut source, DecodeEvent::Failed(NativeError::Other { errno: 5 })),
        DecodeAction::Fail(MediaError::Native(NativeError::Other { errno: 5 }))
    );
    assert!(source.is_exhausted());
    assert_eq!(next_frame(&mut source, DecodeEvent::Pull), DecodeAction::Finish);
}

#[test]
fn events_are_accepted_by_phase() {
    let mut source = source();
    assert!(source.accepts(DecodeEvent::Pull));
    assert!(!source.accepts(DecodeEvent::Sent));
    assert!(!source.accepts(DecodeEvent::Failed(NativeError::Unknown)));
    next_frame(&mut source, DecodeEvent::Pull);
    assert!(!source.accepts(DecodeEvent::Pull));
    assert!(source.accepts(DecodeEvent::Packet { stream: 7 }));
    assert!(source.accepts(DecodeEvent::EndOfPackets));
    assert!(!source.accepts(DecodeEvent::FrameReady));
    next_frame(&mut source, DecodeEvent::Packet { stream: 1 });
    assert!(source.accepts(DecodeEvent::Sent));
    assert!(!source.accepts(DecodeEvent::NoFrame));
    next_frame(&mut source, DecodeEvent::Sent);
    assert!(source.accepts(DecodeEvent::NoFrame));
    assert!(source.accepts(DecodeEvent::FrameReady));
    assert!(!source.accepts(DecodeEvent::Converted { planes: 1 }));
    next_frame(&mut source, DecodeEvent::FrameReady);
    assert!(source.accepts(DecodeEvent::Converted { planes: 0 }));
    assert!(!source.accepts(DecodeEvent::Sent));
}

#[test]
fn decoder_answers_become_events() {
    assert_eq!(received_event(Ok(())), DecodeEvent::FrameReady);
    assert_eq!(received_event(Err(NativeError::Again)), DecodeEvent::NoFrame);
    assert_eq!(received_event(Err(NativeError::Eof)), DecodeEvent::NoFrame);
    for error in [
        NativeError::Unknown,
        NativeError::StreamNotFound,
        NativeError::Other { errno: 12 },
        NativeError::Code { code: -1094995529 },
    ] {
        assert_eq!(received_event(Err(error)), DecodeEvent::Failed(error));
    }
}
