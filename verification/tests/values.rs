use std::sync::Arc;

use gst_player_backend::event::{
    position_updated, seek_done, state_changed, PipelineState, PlaybackState, PlayerEvent,
};
use gst_player_backend::frame::{frame_from_sample, Frame, Mapping, Sample, VideoInfo};
use gst_player_backend::metadata::{
    metadata_from_media_info, MediaInfo, Metadata, StreamInfo, VideoStream,
};
use gst_player_backend::observers::PlayerEventObserverList;
use gst_player_backend::renderers::FrameRendererList;
use gst_player_backend::time::{ClockTime, Duration};

fn stream(stream_type: &str, codec: Option<&str>) -> StreamInfo {
    StreamInfo {
        stream_type: stream_type.to_string(),
        codec: codec.map(|c| c.to_string()),
    }
}

fn movie() -> MediaInfo {
    MediaInfo {
        duration: ClockTime::from_nseconds(90_500_000_001),
        container_format: Some("Matroska".to_string()),
        streams: vec![
            stream("video", Some("H.264")),
            stream("audio", Some("AAC")),
            stream("subtitle", Some("SRT")),
            stream("audio", None),
        ],
        number_of_video_streams: 1,
        video_streams: vec![VideoStream { width: 1920, height: 1080 }],
        is_seekable: true,
    }
}

fn sample(data: Option<Vec<u8>>) -> Sample {
    Sample {
        has_buffer: true,
        info: Some(VideoInfo { width: 2, height: 1 }),
        mapping: Mapping::Mapped(data),
    }
}

#[test]
fn duration_has_the_length_of_the_reading() {
    let d = ClockTime::from_nseconds(12_000_000_034).to_duration().unwrap();
    assert_eq!(d.as_secs(), 12);
    assert_eq!(d.subsec_nanos(), 34);
    assert!(d == Duration::new(12, 34));
    assert!(ClockTime::none().to_duration().is_none());
}

#[test]
fn duration_carries_whole_seconds() {
    let d = Duration::new(1, 2_500_000_000);
    assert_eq!((d.as_secs(), d.subsec_nanos()), (3, 500_000_000));
    let longest = ClockTime::from_nseconds(u64::MAX).to_duration().unwrap();
    assert_eq!(longest.as_secs(), 18_446_744_073);
    assert_eq!(longest.subsec_nanos(), 709_551_615);
}

#[test]
fn durations_are_ordered_by_length() {
    assert!(Duration::new(1, 999_999_999).shorter_than(&Duration::new(2, 0)));
    assert!(Duration::new(2, 0).shorter_than(&Duration::new(2, 1)));
    assert!(!Duration::new(2, 0).shorter_than(&Duration::new(2, 0)));
    assert!(!Duration::new(3, 0).shorter_than(&Duration::new(2, 5)));
}

#[test]
fn clock_readings() {
    assert_eq!(ClockTime::from_nseconds(2_999_999_999).seconds(), Some(2));
    assert_eq!(ClockTime::from_nseconds(7).nanoseconds(), Some(7));
    assert_eq!(ClockTime::none().seconds(), None);
    assert_eq!(ClockTime::none().nanoseconds(), None);
}

#[test]
fn metadata_of_a_movie() {
    let metadata = metadata_from_media_info(&movie()).unwrap();
    assert!(metadata.duration == Some(Duration::new(90, 500_000_001)));
    assert_eq!((metadata.width, metadata.height), (1920, 1080));
    assert_eq!(metadata.format, "Matroska");
    assert!(metadata.is_seekable);
    assert_eq!(metadata.video_tracks, vec!["H.264"]);
    assert_eq!(metadata.audio_tracks, vec!["AAC", ""]);
}

#[test]
fn metadata_of_an_unknown_live_stream() {
    let info = MediaInfo {
        duration: ClockTime::none(),
        container_format: None,
        streams: vec![],
        number_of_video_streams: 0,
        video_streams: vec![VideoStream { width: 5, height: 5 }],
        is_seekable: false,
    };
    let metadata = metadata_from_media_info(&info).unwrap();
    assert!(metadata.duration.is_none());
    assert_eq!((metadata.width, metadata.height), (0, 0));
    assert_eq!(metadata.format, "");
    assert!(!metadata.is_seekable);
    assert!(metadata.audio_tracks.is_empty());
    assert!(metadata.video_tracks.is_empty());
}

#[test]
fn negative_picture_sizes_wrap() {
    let mut info = movie();
    info.video_streams[0] = VideoStream { width: -1, height: i32::MIN };
    let metadata = metadata_from_media_info(&info).unwrap();
    assert_eq!((metadata.width, metadata.height), (u32::MAX, 2_147_483_648));
}

#[test]
fn metadata_differs_in_any_field() {
    let metadata = metadata_from_media_info(&movie()).unwrap();
    assert!(metadata == metadata.clone());
    let mut others: Vec<Metadata> = (0..7).map(|_| metadata.clone()).collect();
    others[0].duration = None;
    others[1].width = 1;
    others[2].height = 1;
    others[3].format = "Ogg".to_string();
    others[4].is_seekable = false;
    others[5].audio_tracks.push("AAC".to_string());
    others[6].video_tracks[0] = "VP9".to_string();
    for other in &others {
        assert!(metadata != *other);
    }
}

#[test]
fn frame_of_a_sample() {
    let frame = frame_from_sample(sample(Some(vec![1, 2, 3, 4, 5, 6, 7, 8]))).unwrap();
    assert_eq!((frame.get_width(), frame.get_height()), (2, 1));
    assert_eq!(*frame.get_data(), vec![1, 2, 3, 4, 5, 6, 7, 8]);
}

#[test]
fn frame_sizes_wrap() {
    let mut s = sample(Some(vec![]));
    s.info = Some(VideoInfo { width: u32::MAX, height: 2_147_483_648 });
    let frame = frame_from_sample(s).unwrap();
    assert_eq!((frame.get_width(), frame.get_height()), (-1, i32::MIN));
}

#[test]
fn no_frame_without_its_parts() {
    assert!(frame_from_sample(sample(None)).is_err());
    let mut s = sample(Some(vec![1]));
    s.has_buffer = false;
    assert!(frame_from_sample(s).is_err());
    let mut s = sample(Some(vec![1]));
    s.info = None;
    assert!(frame_from_sample(s).is_err());
    let mut s = sample(Some(vec![1]));
    s.mapping = Mapping::Unmapped;
    assert!(frame_from_sample(s).is_err());
}

#[test]
fn copies_of_a_frame_share_the_pixels() {
    let data = Arc::new(vec![9, 8, 7]);
    let frame = Frame::new(3, 1, data.clone());
    let copy = frame.clone();
    assert!(Arc::ptr_eq(&copy.get_data(), &data));
    assert_eq!(Arc::strong_count(&data), 3);
    assert_eq!((copy.get_width(), copy.get_height()), (3, 1));
}

#[test]
fn events_of_pipeline_states() {
    let told = |s| state_changed(s);
    assert_eq!(
        told(PipelineState::Stopped),
        Some(PlayerEvent::StateChanged(PlaybackState::Stopped))
    );
    assert_eq!(
        told(PipelineState::Paused),
        Some(PlayerEvent::StateChanged(PlaybackState::Paused))
    );
    assert_eq!(
        told(PipelineState::Playing),
        Some(PlayerEvent::StateChanged(PlaybackState::Playing))
    );
    assert_eq!(told(PipelineState::Buffering), None);
    assert_eq!(told(PipelineState::Unknown(7)), None);
}

#[test]
fn events_of_positions() {
    let at = ClockTime::from_nseconds(61_999_999_999);
    assert_eq!(position_updated(at), Some(PlayerEvent::PositionChanged(61)));
    assert_eq!(seek_done(at), Some(PlayerEvent::SeekDone(61)));
    assert_eq!(position_updated(ClockTime::none()), None);
    assert_eq!(seek_done(ClockTime::none()), None);
}

#[test]
fn each_observer_is_told_once() {
    let mut observers = PlayerEventObserverList::new();
    assert!(observers.notify(PlayerEvent::Error).is_empty());
    observers.register("first");
    observers.register("second");
    assert_eq!(*observers.observers(), vec!["first", "second"]);
    let metadata = metadata_from_media_info(&movie()).unwrap();
    let event = PlayerEvent::MetadataUpdated(metadata);
    assert_eq!(observers.notify(event.clone()), vec![event.clone(), event]);
}

#[test]
fn each_renderer_gets_the_frame() {
    let mut renderers = FrameRendererList::new();
    renderers.register('a');
    renderers.register('b');
    renderers.register('c');
    assert_eq!(*renderers.renderers(), vec!['a', 'b', 'c']);
    let frames = renderers.render(sample(Some(vec![5, 6]))).unwrap();
    assert_eq!(frames.len(), 3);
    for frame in &frames {
        assert_eq!(*frame.get_data(), vec![5, 6]);
    }
    assert!(renderers.render(sample(None)).is_err());
}
