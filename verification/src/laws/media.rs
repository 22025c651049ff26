//! What observers learn of the media, and how it is described.

use vstd::prelude::*;
use vstd::std_specs::cmp::PartialEqSpec;

use crate::cast::{signed_32, signed_64, unsigned_32};
use crate::command::Command;
use crate::event::{PipelineState, PlaybackState, PlayerEventView};
use crate::inner::PlayerInnerView;
use crate::metadata::{MediaInfo, Metadata, MetadataView, StreamInfo};
use crate::player::Signal;
use crate::time::{duration_view, ClockTime, Duration};

verus! {

/// A report on media that is known is silent exactly if it says the same in
/// every respect: duration, width, height, format, seekability, audio and video
/// tracks. A report that differs in any of them is told as it is, and so is the
/// first one.
pub proof fn changed_media_is_told<P, S, K>(player: PlayerInnerView<P, S, K>, n: MetadataView)
    ensures
        player.last_metadata is None ==> player.media_info_event(n) == Some(
            PlayerEventView::MetadataUpdated(n),
        ),
        player.last_metadata matches Some(m) && (m.duration != n.duration || m.width != n.width
            || m.height != n.height || m.format != n.format || m.is_seekable != n.is_seekable
            || m.audio_tracks != n.audio_tracks || m.video_tracks != n.video_tracks)
            ==> player.media_info_event(n) == Some(PlayerEventView::MetadataUpdated(n)),
        player.last_metadata == Some(n) ==> player.media_info_event(n) is None,
{
}

/// The pipeline is asked for the player's rate with each report that is told of
/// media that can be seeked, and with no other.
pub proof fn rate_follows_told_media<P, S, K>(player: PlayerInnerView<P, S, K>, n: MetadataView)
    ensures
        n.is_seekable && player.media_info_event(n) is Some ==> player.media_info_command(n)
            == Some(Command::SetRate(player.rate)),
        n.is_seekable && player.last_metadata != Some(n) ==> player.media_info_command(n) == Some(
            Command::SetRate(player.rate),
        ),
        !n.is_seekable ==> player.media_info_command(n) is None,
        player.media_info_event(n) is None ==> player.media_info_command(n) is None,
{
}

/// A report on the media becomes what is known of it, and nothing else of the
/// player changes.
pub proof fn reports_change_the_media_alone<P, S, K>(
    p: PlayerInnerView<P, S, K>,
    n: MetadataView,
)
    ensures
        ({
            let q = p.with_metadata(n);
            &&& q.last_metadata == Some(n)
            &&& super::requests::agree_on_handles(p, q)
            &&& q.input_size == p.input_size
            &&& q.rate == p.rate
            &&& q.stream_type == p.stream_type
            &&& q.appsrc == p.appsrc
        }),
{
}

/// A new duration of known media replaces the old one and is always told, with
/// all else that is known. It is neither told nor kept before the media is known.
pub proof fn durations_are_told<P, S, K>(p: PlayerInnerView<P, S, K>, duration: Option<nat>)
    ensures
        p.last_metadata is None ==> p.duration_event(duration) is None && p.with_duration(duration)
            == p,
        p.last_metadata matches Some(m) ==> {
            let q = p.with_duration(duration);
            &&& q.last_metadata matches Some(n)
            &&& p.duration_event(duration) == Some(PlayerEventView::MetadataUpdated(n))
            &&& n.duration == duration
            &&& n.width == m.width
            &&& n.height == m.height
            &&& n.format == m.format
            &&& n.is_seekable == m.is_seekable
            &&& n.audio_tracks == m.audio_tracks
            &&& n.video_tracks == m.video_tracks
            &&& super::requests::agree_on_handles(p, q)
            &&& q.input_size == p.input_size
            &&& q.rate == p.rate
            &&& q.stream_type == p.stream_type
            &&& q.appsrc == p.appsrc
        },
{
}

/// What observers are told and what is known afterwards agree: whoever hears
/// every event knows the media as the player does.
pub proof fn told_media_is_known_media<P, S, K>(
    p: PlayerInnerView<P, S, K>,
    n: MetadataView,
    duration: Option<nat>,
    told: MetadataView,
)
    ensures
        p.media_info_event(n) == Some(PlayerEventView::MetadataUpdated(told)) ==> p.with_metadata(
            n,
        ).last_metadata == Some(told),
        p.media_info_event(n) is None ==> p.with_metadata(n).last_metadata == p.last_metadata,
        p.duration_event(duration) == Some(PlayerEventView::MetadataUpdated(told))
            ==> p.with_duration(duration).last_metadata == Some(told),
        p.duration_event(duration) is None ==> p.with_duration(duration).last_metadata
            == p.last_metadata,
{
}

/// The duration, the format and the seekability of the description are those of
/// the report, with an empty format for none.
pub proof fn description_repeats_the_report(info: MediaInfo)
    ensures
        info.duration.nanos is None ==> info.metadata().duration is None,
        info.duration.nanos matches Some(n) ==> (info.metadata().duration matches Some(d) && d
            == n),
        info.container_format matches Some(s) ==> info.metadata().format == s@,
        info.container_format is None ==> info.metadata().format.len() == 0,
        info.metadata().is_seekable == info.is_seekable,
{
}

/// The picture size is that of the first video stream where any is counted, with
/// negative sizes wrapped round, and else zero.
pub proof fn picture_size_is_of_the_first_video_stream(info: MediaInfo)
    ensures
        info.number_of_video_streams == 0 ==> info.metadata().width == 0
            && info.metadata().height == 0,
        info.number_of_video_streams > 0 ==> {
            &&& info.metadata().width == info.video_streams@[0].width as int % 0x1_0000_0000
            &&& info.metadata().height == info.video_streams@[0].height as int % 0x1_0000_0000
        },
{
}

/// A report is taken unless it counts video streams and lists none, and so is
/// every other signal.
pub proof fn reports_are_taken(info: MediaInfo, signal: Signal)
    ensures
        info.number_of_video_streams == 0 ==> info.wf(),
        info.video_streams@.len() > 0 ==> info.wf(),
        Signal::MediaInfoUpdated(info).wf() <==> info.wf(),
        !(signal is MediaInfoUpdated) ==> signal.wf(),
{
}

/// Media without streams has no tracks.
pub proof fn no_streams_no_tracks(info: MediaInfo)
    requires
        info.streams@.len() == 0,
    ensures
        info.metadata().audio_tracks.len() == 0,
        info.metadata().video_tracks.len() == 0,
{
    reveal(Seq::filter);
}

/// One more stream adds the name of its codec, empty where it is unknown, at the
/// end of the audio tracks if it is audio and of the video tracks if it is
/// video. Every other track, and all tracks for any other stream, stay.
pub proof fn each_stream_adds_its_track(info: MediaInfo, longer: MediaInfo, stream: StreamInfo)
    requires
        longer.streams@ == info.streams@.push(stream),
    ensures
        ({
            let name = match stream.codec {
                Some(codec) => codec@,
                None => seq![],
            };
            let a = info.metadata();
            let b = longer.metadata();
            &&& stream.stream_type@ == "audio"@ ==> b.audio_tracks == a.audio_tracks.push(name)
                && b.video_tracks == a.video_tracks
            &&& stream.stream_type@ == "video"@ ==> b.video_tracks == a.video_tracks.push(name)
                && b.audio_tracks == a.audio_tracks
            &&& stream.stream_type@ != "audio"@ && stream.stream_type@ != "video"@
                ==> b.audio_tracks == a.audio_tracks && b.video_tracks == a.video_tracks
        }),
{
    reveal_strlit("audio");
    reveal_strlit("video");
    assert("audio"@[0] != "video"@[0]);
    reveal(Seq::filter);
    assert(longer.streams@.drop_last() =~= info.streams@);
    assert(longer.streams@.last() == stream);
    let a = info.metadata();
    let b = longer.metadata();
    let name = match stream.codec {
        Some(codec) => codec@,
        None => seq![],
    };
    assert(b.audio_tracks =~= if stream.stream_type@ == "audio"@ {
        a.audio_tracks.push(name)
    } else {
        a.audio_tracks
    });
    assert(b.video_tracks =~= if stream.stream_type@ == "video"@ {
        a.video_tracks.push(name)
    } else {
        a.video_tracks
    });
}

/// The model of a description shows every part of it as it is.
pub proof fn descriptions_are_modelled(m: Metadata)
    ensures
        m.duration is None ==> m@.duration is None,
        m.duration matches Some(d) ==> m@.duration == Some(d@),
        m@.width == m.width,
        m@.height == m.height,
        m@.format == m.format@,
        m@.is_seekable == m.is_seekable,
        m@.audio_tracks.len() == m.audio_tracks@.len(),
        forall|i: int|
            0 <= i < m.audio_tracks@.len() ==> #[trigger] m@.audio_tracks[i]
                == m.audio_tracks@[i]@,
        m@.video_tracks.len() == m.video_tracks@.len(),
        forall|i: int|
            0 <= i < m.video_tracks@.len() ==> #[trigger] m@.video_tracks[i]
                == m.video_tracks@[i]@,
{
}

/// Two descriptions are equal exactly if they agree in every part.
pub proof fn descriptions_are_compared_in_every_part(a: Metadata, b: Metadata)
    ensures
        a.eq_spec(&b) <==> {
            &&& a@.duration == b@.duration
            &&& a.width == b.width
            &&& a.height == b.height
            &&& a.format@ == b.format@
            &&& a.is_seekable == b.is_seekable
            &&& a@.audio_tracks == b@.audio_tracks
            &&& a@.video_tracks == b@.video_tracks
        },
{
}

/// Two durations are equal exactly if they are of the same length.
pub proof fn durations_are_compared_by_length(a: Duration, b: Duration)
    ensures
        a.eq_spec(&b) <==> a@ == b@,
        duration_view(Some(a)) == Some(a@),
        duration_view(None) is None,
{
}

/// The whole seconds of a clock reading are the most that fit in it, and its
/// length is the reading itself. Without a reading there is neither.
pub proof fn clock_readings_are_whole_seconds(time: ClockTime)
    ensures
        time.nanos is None ==> time.spec_seconds() is None && time.length() is None,
        time.nanos matches Some(n) ==> {
            &&& time.spec_seconds() matches Some(s)
            &&& s * 1_000_000_000 <= n < (s + 1) * 1_000_000_000
            &&& time.length() matches Some(l)
            &&& l == n
        },
{
}

/// A number cast to the other sign keeps its value where that fits, and is
/// wrapped round where it does not.
pub proof fn casts_wrap_round(a: u64, b: u32, c: i32)
    ensures
        signed_64(a) == a || signed_64(a) == a - 0x1_0000_0000_0000_0000,
        signed_32(b) == b || signed_32(b) == b - 0x1_0000_0000,
        unsigned_32(c) == c || unsigned_32(c) == c + 0x1_0000_0000,
        a <= i64::MAX ==> signed_64(a) == a,
        b <= i32::MAX ==> signed_32(b) == b,
        c >= 0 ==> unsigned_32(c) == c,
        unsigned_32(signed_32(b)) == b,
        signed_32(unsigned_32(c)) == c,
{
}

/// Observers are told of a state under its own name, and of no state that is not
/// one of theirs.
pub proof fn states_are_told_by_name<P, S, K>(
    inner: PlayerInnerView<P, S, K>,
    state: PipelineState,
)
    ensures
        ({
            let event = Signal::StateChanged(state).event(inner);
            &&& event == Some(PlayerEventView::StateChanged(PlaybackState::Stopped)) <==> state
                == PipelineState::Stopped
            &&& event == Some(PlayerEventView::StateChanged(PlaybackState::Paused)) <==> state
                == PipelineState::Paused
            &&& event == Some(PlayerEventView::StateChanged(PlaybackState::Playing)) <==> state
                == PipelineState::Playing
            &&& event is None <==> state is Buffering || state is Unknown
        }),
        state.reported() is None <==> state is Buffering || state is Unknown,
        state.reported() == Some(PlaybackState::Stopped) <==> state == PipelineState::Stopped,
        state.reported() == Some(PlaybackState::Paused) <==> state == PipelineState::Paused,
        state.reported() == Some(PlaybackState::Playing) <==> state == PipelineState::Playing,
{
}

/// Observers are told of a position, and of a seek that is done, by the most
/// whole seconds that fit in it, and not without a reading.
pub proof fn positions_are_told_in_whole_seconds<P, S, K>(
    inner: PlayerInnerView<P, S, K>,
    position: ClockTime,
)
    ensures
        position.nanos is None ==> Signal::PositionUpdated(position).event(inner) is None
            && Signal::SeekDone(position).event(inner) is None,
        position.nanos matches Some(n) ==> {
            &&& Signal::PositionUpdated(position).event(inner) matches Some(
                PlayerEventView::PositionChanged(s),
            )
            &&& Signal::SeekDone(position).event(inner) == Some(PlayerEventView::SeekDone(s))
            &&& s * 1_000_000_000 <= n < (s + 1) * 1_000_000_000
        },
{
}

/// The end of the stream and an error are told as such. Neither they, nor states
/// or positions, change the player or ask anything of the pipeline.
pub proof fn plain_signals_are_told_alone<P, S, K>(
    inner: PlayerInnerView<P, S, K>,
    signal: Signal,
)
    requires
        !(signal is MediaInfoUpdated),
        !(signal is DurationChanged),
    ensures
        signal is EndOfStream ==> signal.event(inner) == Some(PlayerEventView::EndOfStream),
        signal is Error ==> signal.event(inner) == Some(PlayerEventView::Error),
        signal.applied(inner) == inner,
        signal.command(inner) is None,
{
}

/// A report of the pipeline is learnt, told and answered as its description is,
/// and a duration as its reading is. A duration asks nothing of the pipeline.
pub proof fn media_signals_are_learnt<P, S, K>(
    inner: PlayerInnerView<P, S, K>,
    info: MediaInfo,
    duration: ClockTime,
)
    ensures
        ({
            let signal = Signal::MediaInfoUpdated(info);
            &&& signal.applied(inner) == inner.with_metadata(info.metadata())
            &&& signal.event(inner) == inner.media_info_event(info.metadata())
            &&& signal.command(inner) == inner.media_info_command(info.metadata())
        }),
        ({
            let signal = Signal::DurationChanged(duration);
            let length = match duration.nanos {
                Some(n) => Some(n as nat),
                None => None,
            };
            &&& signal.applied(inner) == inner.with_duration(length)
            &&& signal.event(inner) == inner.duration_event(length)
            &&& signal.command(inner) is None
        }),
{
}

} // verus!
