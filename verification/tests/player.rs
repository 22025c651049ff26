use gst_player_backend::command::{
    AppStreamType, Command, FlowReturn, Rate, SourceCommand, StreamType, Volume,
};
use gst_player_backend::error::{Outcome, PlayerError};
use gst_player_backend::event::{PipelineState, PlaybackState, PlayerEvent};
use gst_player_backend::frame::{Mapping, Sample, VideoInfo};
use gst_player_backend::metadata::MediaInfo;
use gst_player_backend::player::{setup_error, GStreamerPlayer, Signal};
use gst_player_backend::setup::{source_uri, video_caps, Element, SetupReply, SetupStep};
use gst_player_backend::time::ClockTime;

type TestPlayer = GStreamerPlayer<u32, char, u8, &'static str, &'static str>;

struct World {
    missing: Option<&'static str>,
    config: Result<(), String>,
    sink: bool,
    attach: Result<(), String>,
    uri: Result<(), String>,
    connected: bool,
    ready: Option<Outcome>,
    seen: Vec<String>,
    reported: Option<PlayerError>,
}

fn world() -> World {
    World {
        missing: None,
        config: Ok(()),
        sink: true,
        attach: Ok(()),
        uri: Ok(()),
        connected: true,
        ready: Some(Ok(())),
        seen: vec![],
        reported: None,
    }
}

impl World {
    fn reply(&mut self, step: &SetupStep) -> SetupReply<u32, u8> {
        self.seen.push(format!("{:?}", step));
        match step {
            SetupStep::FindElement(e) => SetupReply::Found(self.missing != Some(e.name())),
            SetupStep::Configure(_) => SetupReply::Taken(self.config.clone()),
            SetupStep::MakeVideoSink(_) => SetupReply::Found(self.sink),
            SetupStep::AttachVideoSink => SetupReply::Taken(self.attach.clone()),
            SetupStep::SetUri(_) => SetupReply::Handles(self.uri.clone().map(|_| (42, 7))),
            SetupStep::ConnectSourceSetup => SetupReply::Connected(self.connected),
            SetupStep::Report(e) => {
                self.reported = Some(e.clone());
                SetupReply::Done
            }
            SetupStep::AwaitReady => SetupReply::Ready(match self.reported.take() {
                Some(e) => Err(e),
                None => self.ready.take().unwrap(),
            }),
            _ => SetupReply::Done,
        }
    }

    fn set_up(&mut self, player: &mut TestPlayer) -> Outcome {
        let mut step = player.setup();
        loop {
            if let SetupStep::Finished(outcome) = step {
                return outcome;
            }
            let reply = self.reply(&step);
            step = player.setup_next(step, reply);
        }
    }
}

fn ready_player() -> TestPlayer {
    let mut player = TestPlayer::new();
    assert_eq!(world().set_up(&mut player), Ok(()));
    player
}

fn backend(text: &str) -> Outcome {
    Err(PlayerError::Backend(text.to_string()))
}

fn media(is_seekable: bool) -> MediaInfo {
    MediaInfo {
        duration: ClockTime::none(),
        container_format: None,
        streams: vec![],
        number_of_video_streams: 0,
        video_streams: vec![],
        is_seekable,
    }
}

#[test]
fn set_up_step_by_step() {
    let mut player = TestPlayer::new();
    assert!(player.inner().is_none());
    let mut w = world();
    assert_eq!(w.set_up(&mut player), Ok(()));
    assert_eq!(
        w.seen,
        vec![
            "FindElement(Playbin)",
            "FindElement(Queue)",
            "CreatePlayer",
            "Configure(500)",
            "MakeVideoSink(Appsink)",
            "AttachVideoSink",
            "RestrictCaps(VideoCaps { media_type: \"video/x-raw\", format: \"BGRA\", \
             pixel_aspect_ratio: (1, 1) })",
            "SetUri(\"appsrc://\")",
            "ConnectHandlers",
            "ConnectSourceSetup",
            "WatchErrors",
            "Pause",
            "AwaitReady",
            "UnwatchErrors(Ok(()))",
        ]
    );
    let inner = player.inner().unwrap();
    assert_eq!((*inner.player(), *inner.appsink()), (42, 7));
    assert!(inner.appsrc().is_none());
}

#[test]
fn what_the_set_up_hands_to_the_pipeline() {
    assert_eq!(Element::Playbin.name(), "playbin");
    assert_eq!(Element::Queue.name(), "queue");
    assert_eq!(Element::Appsink.name(), "appsink");
    assert_eq!(source_uri(), "appsrc://");
    let caps = video_caps();
    assert_eq!((caps.media_type, caps.format), ("video/x-raw", "BGRA"));
    assert_eq!(caps.pixel_aspect_ratio, (1, 1));
}

#[test]
fn set_up_fails_before_the_pipeline_is_ready() {
    let failures: Vec<(fn(&mut World), &str)> = vec![
        (|w| w.missing = Some("playbin"), "Missing dependency: playbin"),
        (|w| w.missing = Some("queue"), "Missing dependency: queue"),
        (|w| w.config = Err("no config".to_string()), "no config"),
        (|w| w.sink = false, "appsink creation failed"),
        (|w| w.attach = Err("no sink".to_string()), "no sink"),
        (|w| w.uri = Err("no uri".to_string()), "no uri"),
    ];
    for (spoil, text) in failures {
        let mut player = TestPlayer::new();
        let mut w = world();
        spoil(&mut w);
        assert_eq!(w.set_up(&mut player), backend(text));
        assert!(player.inner().is_none());
        assert_eq!(world().set_up(&mut player), Ok(()));
        assert!(player.inner().is_some());
    }
}

#[test]
fn set_up_is_done_once_even_if_it_fails_late() {
    let mut player = TestPlayer::new();
    let mut w = world();
    w.ready = Some(backend("no codec"));
    assert_eq!(w.set_up(&mut player), backend("no codec"));
    assert!(player.inner().is_some());
    let mut again = world();
    assert_eq!(again.set_up(&mut player), Ok(()));
    assert!(again.seen.is_empty());
}

#[test]
fn a_source_that_cannot_be_awaited_fails_the_set_up() {
    let mut player = TestPlayer::new();
    let mut w = world();
    w.connected = false;
    assert_eq!(w.set_up(&mut player), backend("Source setup failed"));
    assert!(player.inner().is_some());
    assert_eq!(w.seen[10], "Report(Backend(\"Source setup failed\"))");
    assert_eq!(w.seen[11], "WatchErrors");
}

#[test]
fn an_error_during_the_set_up_stops_the_pipeline() {
    assert_eq!(
        setup_error("broken".to_string()),
        (backend("broken"), Command::Stop)
    );
}

#[test]
fn requests_fail_with_the_set_up() {
    let mut player = TestPlayer::new();
    let failed = || backend("no queue");
    let refused = || Err(PlayerError::Backend("no queue".to_string()));
    assert_eq!(player.play(failed()), refused());
    assert_eq!(player.pause(failed()), refused());
    assert_eq!(player.stop(failed()), refused());
    assert_eq!(player.end_of_stream(failed()), refused());
    assert_eq!(player.set_input_size(failed(), 1), refused());
    assert_eq!(player.set_rate(failed(), Rate { bits: 1 }), refused());
    assert_eq!(player.set_stream_type(failed(), StreamType::Stream), refused());
    assert_eq!(player.seek(failed(), 1, 1), refused());
    assert_eq!(player.set_volume(failed(), Volume { bits: 1 }), refused());
    match player.push_data(failed(), vec![1]) {
        Err(PlayerError::Backend(text)) => assert_eq!(text, "no queue"),
        _ => panic!("not refused"),
    }
    assert!(player.inner().is_none());
}

#[test]
fn requests_reach_the_player() {
    let mut player = ready_player();
    let rate = Rate { bits: 2.0f64.to_bits() };
    assert_eq!(player.play(Ok(())), Ok(Some(Command::Play)));
    assert_eq!(player.pause(Ok(())), Ok(Some(Command::Pause)));
    assert_eq!(player.set_input_size(Ok(()), 9), Ok(None));
    assert_eq!(player.set_rate(Ok(()), rate), Ok(None));
    assert_eq!(player.set_stream_type(Ok(()), StreamType::Seekable), Ok(None));
    assert_eq!(player.end_of_stream(Ok(())), Err(PlayerError::EOSFailed));
    assert!(matches!(
        player.push_data(Ok(()), vec![1]),
        Err(PlayerError::BufferPushFailed)
    ));
    assert_eq!(
        player.source_setup(Some('s')),
        Ok(vec![
            SourceCommand::SetMaxBytes(52_428_800),
            SourceCommand::SetBlock(false),
            SourceCommand::SetFormatBytes,
            SourceCommand::SetSize(9),
            SourceCommand::SetStreamType(AppStreamType::Seekable),
            SourceCommand::SetCallbacks,
        ])
    );
    assert_eq!(player.end_of_stream(Ok(())), Ok(Some(Command::EndOfStream)));
    assert!(player.push_data(Ok(()), vec![1]).is_ok());
    assert_eq!(
        player.seek(Ok(()), 3, 3_000_000_000),
        Ok(Some(Command::Seek(ClockTime::from_nseconds(3_000_000_000))))
    );
    let loud = Volume { bits: 1 };
    assert_eq!(player.set_volume(Ok(()), loud), Ok(Some(Command::SetVolume(loud))));
    assert_eq!(player.stop(Ok(())), Ok(Some(Command::Stop)));
    assert_eq!(player.end_of_stream(Ok(())), Err(PlayerError::EOSFailed));
}

#[test]
fn no_source_is_reported() {
    let mut player = ready_player();
    assert_eq!(
        player.source_setup(None),
        Err(PlayerError::Backend("Source setup failed".to_string()))
    );
}

#[test]
fn signals_are_told_to_observers() {
    let mut player = ready_player();
    player.register_event_handler("a");
    player.register_event_handler("b");
    assert_eq!(*player.observers(), vec!["a", "b"]);
    let told = |r: gst_player_backend::player::Reaction| {
        assert!(r.command.is_none());
        assert_eq!(r.deliveries.len(), 2);
        assert_eq!(r.deliveries[0], r.deliveries[1]);
        r.deliveries[0].clone()
    };
    let second = ClockTime::from_nseconds(1_999_999_999);
    assert_eq!(told(player.signalled(Signal::EndOfStream)), PlayerEvent::EndOfStream);
    assert_eq!(told(player.signalled(Signal::Error)), PlayerEvent::Error);
    assert_eq!(
        told(player.signalled(Signal::StateChanged(PipelineState::Playing))),
        PlayerEvent::StateChanged(PlaybackState::Playing)
    );
    assert_eq!(
        told(player.signalled(Signal::PositionUpdated(second))),
        PlayerEvent::PositionChanged(1)
    );
    assert_eq!(told(player.signalled(Signal::SeekDone(second))), PlayerEvent::SeekDone(1));
    let quiet = player.signalled(Signal::StateChanged(PipelineState::Buffering));
    assert!(quiet.deliveries.is_empty());
    let quiet = player.signalled(Signal::PositionUpdated(ClockTime::none()));
    assert!(quiet.deliveries.is_empty());
    let quiet = player.signalled(Signal::DurationChanged(second));
    assert!(quiet.deliveries.is_empty());
}

#[test]
fn a_report_on_the_media_sets_the_rate_and_is_told_once() {
    let mut player = ready_player();
    player.register_event_handler("a");
    let rate = Rate { bits: 4.0f64.to_bits() };
    assert_eq!(player.set_rate(Ok(()), rate), Ok(None));
    let first = player.signalled(Signal::MediaInfoUpdated(media(true)));
    assert_eq!(first.command, Some(Command::SetRate(rate)));
    assert_eq!(first.deliveries.len(), 1);
    let second = player.signalled(Signal::MediaInfoUpdated(media(true)));
    assert_eq!(second.command, None);
    assert!(second.deliveries.is_empty());
    let longer = player.signalled(Signal::DurationChanged(ClockTime::from_nseconds(5)));
    assert_eq!(longer.deliveries.len(), 1);
    let third = player.signalled(Signal::MediaInfoUpdated(media(true)));
    assert_eq!(third.deliveries.len(), 1);
}

#[test]
fn samples_go_to_renderers() {
    let mut player = TestPlayer::new();
    player.register_frame_renderer("r");
    player.register_frame_renderer("s");
    player.register_event_handler("o");
    assert_eq!(*player.renderers(), vec!["r", "s"]);
    assert_eq!(player.new_preroll(), FlowReturn::Accepted);
    let sample = Sample {
        has_buffer: true,
        info: Some(VideoInfo { width: 1, height: 1 }),
        mapping: Mapping::Mapped(Some(vec![1, 2, 3, 4])),
    };
    let shown = player.new_sample(Some(sample));
    assert_eq!(shown.flow, FlowReturn::Accepted);
    assert_eq!(shown.frames.len(), 2);
    assert_eq!(*shown.frames[1].get_data(), vec![1, 2, 3, 4]);
    assert_eq!(shown.deliveries, vec![PlayerEvent::FrameUpdated]);
    let end = player.new_sample(None);
    assert_eq!(end.flow, FlowReturn::Eos);
    assert!(end.frames.is_empty() && end.deliveries.is_empty());
    let empty = Sample { has_buffer: false, info: None, mapping: Mapping::Unmapped };
    let bad = player.new_sample(Some(empty));
    assert_eq!(bad.flow, FlowReturn::Error);
    assert!(bad.frames.is_empty() && bad.deliveries.is_empty());
}

#[test]
fn each_players_first_request_for_data_is_reported() {
    let mut one = ready_player();
    one.register_event_handler("o");
    let mut two = ready_player();
    assert_eq!(one.need_data(), (Some(Ok(())), vec![PlayerEvent::NeedData]));
    assert_eq!(one.need_data(), (None, vec![PlayerEvent::NeedData]));
    assert_eq!(two.need_data(), (Some(Ok(())), vec![]));
    assert_eq!(two.need_data().0, None);
    assert_eq!(one.stop(Ok(())), Ok(Some(Command::Stop)));
    assert_eq!(one.need_data().0, None);
}

/// Sets `player` up with what `meanwhile` reports while the set-up waits; the
/// first report is the one that is awaited.
fn set_up_reporting(
    player: &mut TestPlayer,
    meanwhile: fn(&mut TestPlayer) -> Vec<Outcome>,
) -> Option<Outcome> {
    let mut step = player.setup();
    loop {
        let reply = match step {
            SetupStep::Finished(outcome) => return Some(outcome),
            SetupStep::AwaitReady => match meanwhile(player).into_iter().next() {
                Some(report) => SetupReply::Ready(report),
                None => return None,
            },
            _ => world().reply(&step),
        };
        step = player.setup_next(step, reply);
    }
}

#[test]
fn set_up_waits_for_the_first_request_for_data() {
    let mut earlier = TestPlayer::new();
    let mut later = TestPlayer::new();
    for player in [&mut earlier, &mut later] {
        let outcome = set_up_reporting(player, |p| {
            assert!(p.source_setup(Some('s')).is_ok());
            let mut reports = vec![];
            reports.extend(p.need_data().0);
            reports.extend(p.need_data().0);
            reports.push(setup_error("too late".to_string()).0);
            assert_eq!(reports.len(), 2);
            reports
        });
        assert_eq!(outcome, Some(Ok(())));
    }
    let waiting = set_up_reporting(&mut TestPlayer::new(), |p| {
        assert!(p.source_setup(Some('s')).is_ok());
        vec![]
    });
    assert_eq!(waiting, None);
}

#[test]
fn set_up_ends_with_the_first_report() {
    let failed = set_up_reporting(&mut TestPlayer::new(), |p| {
        let mut reports = vec![setup_error("no codec".to_string()).0];
        reports.extend(p.need_data().0);
        reports
    });
    assert_eq!(failed, Some(backend("no codec")));
    let sourceless = set_up_reporting(&mut TestPlayer::new(), |p| {
        vec![p.source_setup(None).map(|_| ())]
    });
    assert_eq!(sourceless, Some(backend("Source setup failed")));
}

#[test]
fn the_source_is_listened_to() {
    let mut player = ready_player();
    player.register_event_handler("o");
    assert_eq!(player.enough_data(), vec![PlayerEvent::EnoughData]);
    assert_eq!(player.seek_data(512), (vec![PlayerEvent::SeekData(512)], true));
}
