use gst_player_backend::command::{
    AppStreamType, Command, FlowReturn, PushReply, QueueLevel, Rate, SourceCommand, StreamType,
    Volume, NORMAL_RATE_BITS,
};
use gst_player_backend::error::PlayerError;
use gst_player_backend::event::PlayerEvent;
use gst_player_backend::inner::{
    end_of_stream_finished, push_finished, PlayerInner, LIVE_SOURCE_SIZE, MAX_SRC_QUEUE_SIZE,
};
use gst_player_backend::metadata::MediaInfo;
use gst_player_backend::time::{ClockTime, Duration};

type Inner = PlayerInner<&'static str, &'static str, &'static str>;

fn fresh() -> Inner {
    PlayerInner::new("pipeline", "sink")
}

fn media(is_seekable: bool, nanos: Option<u64>) -> MediaInfo {
    MediaInfo {
        duration: ClockTime { nanos },
        container_format: None,
        streams: vec![],
        number_of_video_streams: 0,
        video_streams: vec![],
        is_seekable,
    }
}

fn rate(r: f64) -> Rate {
    Rate { bits: r.to_bits() }
}

#[test]
fn a_fresh_player_has_its_handles_and_no_source() {
    let p = fresh();
    assert_eq!(*p.player(), "pipeline");
    assert_eq!(*p.appsink(), "sink");
    assert!(p.appsrc().is_none());
    assert_eq!(f64::from_bits(NORMAL_RATE_BITS), 1.0);
    assert_eq!(MAX_SRC_QUEUE_SIZE, 52_428_800);
    assert_eq!(LIVE_SOURCE_SIZE, -1);
}

#[test]
fn plain_requests_go_to_the_pipeline() {
    let mut p = fresh();
    assert_eq!(p.play(), Ok(Some(Command::Play)));
    assert_eq!(p.pause(), Ok(Some(Command::Pause)));
    assert_eq!(p.stop(), Ok(Some(Command::Stop)));
    let half = Volume { bits: 0.5f64.to_bits() };
    assert_eq!(p.set_volume(half), Ok(Some(Command::SetVolume(half))));
}

#[test]
fn input_size_goes_to_the_source() {
    let mut p = fresh();
    assert_eq!(p.set_input_size(10), Ok(None));
    p.set_app_src("source");
    assert_eq!(p.appsrc(), Some(&"source"));
    assert_eq!(p.set_input_size(10), Ok(Some(Command::SetSize(10))));
    assert_eq!(p.set_input_size(0), Ok(Some(Command::SetSize(-1))));
    assert_eq!(p.set_input_size(u64::MAX - 1), Ok(Some(Command::SetSize(-2))));
    assert_eq!(p.set_input_size(1 << 63), Ok(Some(Command::SetSize(i64::MIN))));
}

#[test]
fn stream_type_goes_to_the_source() {
    let mut p = fresh();
    assert_eq!(p.set_stream_type(StreamType::Stream), Ok(None));
    p.set_app_src("source");
    let types = [
        (StreamType::Stream, AppStreamType::Stream),
        (StreamType::Seekable, AppStreamType::Seekable),
        (StreamType::RandomAccess, AppStreamType::RandomAccess),
    ];
    for (type_, app_type) in types {
        assert_eq!(p.set_stream_type(type_), Ok(Some(Command::SetStreamType(app_type))));
    }
}

#[test]
fn a_source_learns_what_was_set_before() {
    let mut p = fresh();
    assert_eq!(
        p.source_setup(Some("source")),
        Ok(vec![
            SourceCommand::SetMaxBytes(52_428_800),
            SourceCommand::SetBlock(false),
            SourceCommand::SetFormatBytes,
            SourceCommand::SetCallbacks,
        ])
    );
    assert_eq!(p.appsrc(), Some(&"source"));
    p.set_input_size(77).unwrap();
    p.set_stream_type(StreamType::Seekable).unwrap();
    p.stop().unwrap();
    assert!(p.appsrc().is_none());
    assert_eq!(
        p.source_setup(Some("other")),
        Ok(vec![
            SourceCommand::SetMaxBytes(52_428_800),
            SourceCommand::SetBlock(false),
            SourceCommand::SetFormatBytes,
            SourceCommand::SetSize(77),
            SourceCommand::SetStreamType(AppStreamType::Seekable),
            SourceCommand::SetCallbacks,
        ])
    );
    assert_eq!(p.appsrc(), Some(&"other"));
}

#[test]
fn no_source_is_a_failure() {
    let mut p = fresh();
    p.set_app_src("source");
    assert_eq!(
        p.source_setup(None),
        Err(PlayerError::Backend("Source setup failed".to_string()))
    );
    assert_eq!(p.appsrc(), Some(&"source"));
}

#[test]
fn a_rate_takes_effect_when_the_media_is_seekable() {
    let mut p = fresh();
    assert_eq!(p.set_rate(rate(2.0)), Ok(None));
    let (command, event) = p.media_info_updated(&media(true, None));
    assert_eq!(command, Some(Command::SetRate(rate(2.0))));
    assert!(event.is_some());
    assert_eq!(p.set_rate(rate(0.5)), Ok(Some(Command::SetRate(rate(0.5)))));
}

#[test]
fn a_refused_rate_is_kept() {
    let mut p = fresh();
    let (command, event) = p.media_info_updated(&media(false, None));
    assert_eq!(command, None);
    assert!(event.is_some());
    assert_eq!(p.set_rate(rate(3.0)), Err(PlayerError::NonSeekableStream));
    let (command, _) = p.media_info_updated(&media(true, None));
    assert_eq!(command, Some(Command::SetRate(rate(3.0))));
}

#[test]
fn the_first_rate_is_normal() {
    let mut p = fresh();
    let (command, _) = p.media_info_updated(&media(true, None));
    assert_eq!(command, Some(Command::SetRate(rate(1.0))));
}

#[test]
fn known_media_is_not_told_again() {
    let mut p = fresh();
    assert!(p.media_info_updated(&media(true, Some(5))).1.is_some());
    assert_eq!(p.media_info_updated(&media(true, Some(5))), (None, None));
    assert!(p.media_info_updated(&media(true, Some(6))).1.is_some());
    p.stop().unwrap();
    assert!(p.media_info_updated(&media(true, Some(6))).1.is_some());
}

#[test]
fn a_new_duration_is_told_once_the_media_is_known() {
    let mut p = fresh();
    assert_eq!(p.duration_changed(ClockTime::from_nseconds(1)), None);
    p.media_info_updated(&media(true, None));
    match p.duration_changed(ClockTime::from_nseconds(4_000_000_002)) {
        Some(PlayerEvent::MetadataUpdated(m)) => {
            assert!(m.duration == Some(Duration::new(4, 2)));
            assert!(m.is_seekable);
        }
        _ => panic!("no update"),
    }
    match p.duration_changed(ClockTime::none()) {
        Some(PlayerEvent::MetadataUpdated(m)) => assert!(m.duration.is_none()),
        _ => panic!("no update"),
    }
}

#[test]
fn only_seekable_streams_are_seeked() {
    let mut p = fresh();
    assert_eq!(p.seek(1, 1_000_000_000), Err(PlayerError::NonSeekableStream));
    p.set_stream_type(StreamType::Stream).unwrap();
    assert_eq!(p.seek(1, 1_000_000_000), Err(PlayerError::NonSeekableStream));
    p.set_stream_type(StreamType::RandomAccess).unwrap();
    assert_eq!(p.seek(1, 1_000_000_000), Err(PlayerError::NonSeekableStream));
    p.set_stream_type(StreamType::Seekable).unwrap();
    assert_eq!(
        p.seek(1, 1_500_000_000),
        Ok(Some(Command::Seek(ClockTime::from_nseconds(1_500_000_000))))
    );
}

#[test]
fn seeks_stay_within_the_duration() {
    let mut p = fresh();
    p.set_stream_type(StreamType::Seekable).unwrap();
    p.media_info_updated(&media(true, Some(10_500_000_000)));
    let at = |nanos| Ok(Some(Command::Seek(ClockTime::from_nseconds(nanos))));
    assert_eq!(p.seek(10, 10_900_000_000), at(10_900_000_000));
    assert_eq!(p.seek(11, 11_000_000_000), Err(PlayerError::SeekOutOfRange));
    p.duration_changed(ClockTime::from_nseconds(11_000_000_000));
    assert_eq!(p.seek(11, 11_000_000_000), at(11_000_000_000));
    p.duration_changed(ClockTime::none());
    assert_eq!(p.seek(u64::MAX, u64::MAX), at(u64::MAX));
    p.duration_changed(ClockTime::from_nseconds(0));
    assert_eq!(p.seek(1, 1_000_000_000), Err(PlayerError::SeekOutOfRange));
    p.stop().unwrap();
    assert_eq!(p.seek(1, 1_000_000_000), at(1_000_000_000));
}

#[test]
fn the_end_of_the_stream_needs_a_source() {
    let mut p = fresh();
    assert_eq!(p.end_of_stream(), Err(PlayerError::EOSFailed));
    p.set_app_src("source");
    assert_eq!(p.end_of_stream(), Ok(Some(Command::EndOfStream)));
    assert_eq!(end_of_stream_finished(FlowReturn::Accepted), Ok(()));
    for flow in [FlowReturn::Eos, FlowReturn::Error, FlowReturn::Other] {
        assert_eq!(end_of_stream_finished(flow), Err(PlayerError::EOSFailed));
    }
    p.stop().unwrap();
    assert_eq!(p.end_of_stream(), Err(PlayerError::EOSFailed));
}

#[test]
fn data_needs_a_source_and_room() {
    let mut p = fresh();
    assert!(matches!(p.push_data(vec![1]), Err(PlayerError::BufferPushFailed)));
    p.set_app_src("source");
    let full = QueueLevel { current_bytes: 8, max_bytes: 10 };
    let pending = p.push_data(vec![1, 2]).ok().unwrap();
    assert_eq!(pending.check_room(full), Ok(vec![1, 2]));
    let pending = p.push_data(vec![1, 2, 3]).ok().unwrap();
    assert_eq!(pending.check_room(full), Err(PlayerError::EnoughData));
    p.stop().unwrap();
    assert!(matches!(p.push_data(vec![1]), Err(PlayerError::BufferPushFailed)));
}

#[test]
fn a_push_ends_with_the_answer_of_the_source() {
    assert_eq!(push_finished(PushReply::Flow(FlowReturn::Accepted)), Ok(()));
    let failures = [
        PushReply::NoBuffer,
        PushReply::Flow(FlowReturn::Eos),
        PushReply::Flow(FlowReturn::Error),
        PushReply::Flow(FlowReturn::Other),
    ];
    for reply in failures {
        assert_eq!(push_finished(reply), Err(PlayerError::BufferPushFailed));
    }
}

#[test]
fn pushes_never_overfill_the_queue() {
    let mut p = fresh();
    p.set_app_src("source");
    let mut queue = QueueLevel { current_bytes: 0, max_bytes: 10 };
    for len in [4usize, 5, 3, 1, 1] {
        let pending = p.push_data(vec![0; len]).ok().unwrap();
        if let Ok(data) = pending.check_room(queue) {
            queue.current_bytes += data.len() as u64;
        }
        assert!(queue.current_bytes <= 10);
    }
    assert_eq!(queue.current_bytes, 10);
}
