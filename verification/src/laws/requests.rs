//! What each request of a client does, and what it leaves alone.

use vstd::prelude::*;

use crate::command::{
    AppStreamType, Command, FlowReturn, PushReply, QueueLevel, Rate, SourceCommand, StreamType,
};
use crate::error::{Outcome, PlayerError};
use crate::inner::{
    announced_size, end_of_stream_outcome, pending_view, push_outcome, room_answer, Answer,
    PendingPush, PlayerInnerView,
};
use crate::metadata::MetadataView;
use crate::player::{answer_if, GStreamerPlayerView};
use crate::time::ClockTime;

verus! {

/// A seek is refused as one of a stream that cannot be seeked exactly if the
/// client has not declared the stream seekable, whatever is known of the media.
pub proof fn only_seekable_streams_are_seeked<P, S, K>(
    player: PlayerInnerView<P, S, K>,
    seconds: u64,
    nanos: u64,
)
    ensures
        player.stream_type != Some(AppStreamType::Seekable) ==> player.seek_answer(seconds, nanos)
            == Answer::Err(PlayerError::NonSeekableStream),
        player.stream_type == Some(AppStreamType::Seekable) ==> player.seek_answer(seconds, nanos)
            != Answer::Err(PlayerError::NonSeekableStream),
{
}

/// A seek of a seekable stream is out of range exactly if the media is known to
/// last less than that many seconds. Any other goes to the pipeline, with the
/// nanosecond that the client gave.
pub proof fn seeks_stay_in_range<P, S, K>(
    player: PlayerInnerView<P, S, K>,
    seconds: u64,
    nanos: u64,
)
    requires
        player.stream_type == Some(AppStreamType::Seekable),
    ensures
        player.last_metadata is None ==> player.seek_answer(seconds, nanos) is Ok,
        player.last_metadata matches Some(m) && m.duration is None ==> player.seek_answer(
            seconds,
            nanos,
        ) is Ok,
        player.last_metadata matches Some(m) ==> (m.duration matches Some(d) ==> (
        player.seek_answer(seconds, nanos) is Ok <==> seconds * 1_000_000_000 <= d)),
        player.seek_answer(seconds, nanos) matches Err(e) ==> e == PlayerError::SeekOutOfRange,
        player.seek_answer(seconds, nanos) matches Ok(c) ==> c == Some(
            Command::Seek(ClockTime { nanos: Some(nanos) }),
        ),
{
}

/// Where a seek is let through, so is every seek to an earlier second.
pub proof fn earlier_seeks_are_let_through<P, S, K>(
    player: PlayerInnerView<P, S, K>,
    earlier: u64,
    later: u64,
    earlier_nanos: u64,
    later_nanos: u64,
)
    requires
        earlier <= later,
        player.seek_answer(later, later_nanos) is Ok,
    ensures
        player.seek_answer(earlier, earlier_nanos) is Ok,
{
    assert(earlier * 1_000_000_000 <= later * 1_000_000_000);
}

/// Once the media is described, a rate is passed on as it is where the media can
/// be seeked, and refused where it cannot. Before that the pipeline is not asked.
pub proof fn rates_are_passed_on_or_refused<P, S, K>(
    player: PlayerInnerView<P, S, K>,
    rate: Rate,
)
    ensures
        player.last_metadata matches Some(m) && m.is_seekable ==> player.set_rate_answer(rate)
            == Answer::Ok(Some(Command::SetRate(rate))),
        player.last_metadata matches Some(m) && !m.is_seekable ==> player.set_rate_answer(rate)
            == Answer::Err(PlayerError::NonSeekableStream),
        player.last_metadata is None ==> player.set_rate_answer(rate) == Answer::Ok(None),
{
}

/// The pipeline gets to know a rate that is set: at once where the media is
/// known to be seekable, and else with the next report that tells it is. The
/// rate that it gets is the same either way.
pub proof fn rate_is_the_same_now_or_later<P, S, K>(
    player: PlayerInnerView<P, S, K>,
    rate: Rate,
    metadata: MetadataView,
)
    requires
        metadata.is_seekable,
        player.last_metadata != Some(metadata),
    ensures
        player.with_rate(rate).media_info_command(metadata) == Some(Command::SetRate(rate)),
        player.with_metadata(metadata).set_rate_answer(rate) == Answer::Ok(
            player.with_rate(rate).media_info_command(metadata),
        ),
{
}

/// A source is told the size that is set: a positive one as it is, with those
/// beyond the range of signed numbers wrapped round, and -1 for none. Without a
/// source nothing is asked. The request never fails.
pub proof fn sizes_reach_the_source<P, S, K>(player: PlayerInnerView<P, S, K>, size: u64)
    ensures
        player.appsrc is None ==> player.set_input_size_answer(size) == Answer::Ok(None),
        player.appsrc is Some ==> (player.set_input_size_answer(size) matches Ok(
            Some(Command::SetSize(n)),
        ) && {
            &&& size == 0 ==> n == -1
            &&& 0 < size <= 0x7fff_ffff_ffff_ffff ==> n == size
            &&& size > 0x7fff_ffff_ffff_ffff ==> n == size - 0x1_0000_0000_0000_0000
        }),
        size > 0 ==> announced_size(size) as int % 0x1_0000_0000_0000_0000 == size,
{
}

/// A source is told the stream type that is set, under its own name. Without a
/// source nothing is asked. The request never fails.
pub proof fn stream_types_reach_the_source<P, S, K>(
    player: PlayerInnerView<P, S, K>,
    type_: StreamType,
)
    ensures
        player.appsrc is None ==> player.set_stream_type_answer(type_) == Answer::Ok(None),
        player.appsrc is Some ==> (player.set_stream_type_answer(type_) matches Ok(
            Some(Command::SetStreamType(t)),
        ) && {
            &&& t == AppStreamType::Stream <==> type_ == StreamType::Stream
            &&& t == AppStreamType::Seekable <==> type_ == StreamType::Seekable
            &&& t == AppStreamType::RandomAccess <==> type_ == StreamType::RandomAccess
        }),
        player.with_stream_type(type_).stream_type is Some,
        player.with_stream_type(type_).stream_type == Some(AppStreamType::Stream) <==> type_
            == StreamType::Stream,
        player.with_stream_type(type_).stream_type == Some(AppStreamType::Seekable) <==> type_
            == StreamType::Seekable,
        player.with_stream_type(type_).stream_type == Some(AppStreamType::RandomAccess) <==> type_
            == StreamType::RandomAccess,
{
}

/// A source hears the same whether a size or a stream type is set before it is
/// presented or after.
pub proof fn sources_hear_the_same_early_or_late<P, S, K>(
    player: PlayerInnerView<P, S, K>,
    source: S,
    size: u64,
    type_: StreamType,
)
    ensures
        size > 0 ==> (player.with_source(source).set_input_size_answer(size) matches Ok(
            Some(Command::SetSize(n)),
        ) && player.with_input_size(size).source_commands().contains(SourceCommand::SetSize(n))),
        player.with_source(source).set_stream_type_answer(type_) matches Ok(
            Some(Command::SetStreamType(t)),
        ) && player.with_stream_type(type_).source_commands().contains(
            SourceCommand::SetStreamType(t),
        ),
{
    super::source_learns_settings(player.with_input_size(size), seq![]);
    super::source_learns_settings(player.with_stream_type(type_), seq![]);
}

/// A source that is presented is limited to 50 MB without blocking, counts in
/// bytes, is told the size and then the stream type where they are set, and is
/// listened to last.
pub proof fn sources_are_prepared_in_order<P, S, K>(player: PlayerInnerView<P, S, K>)
    ensures
        ({
            let c = player.source_commands();
            let sized: int = if player.input_size > 0 {
                1
            } else {
                0
            };
            let typed: int = if player.stream_type is Some {
                1
            } else {
                0
            };
            &&& c.len() == 4 + sized + typed
            &&& c[0] == SourceCommand::SetMaxBytes(52_428_800)
            &&& c[1] == SourceCommand::SetBlock(false)
            &&& c[2] == SourceCommand::SetFormatBytes
            &&& sized == 1 ==> (c[3] matches SourceCommand::SetSize(n) && n as int
                % 0x1_0000_0000_0000_0000 == player.input_size)
            &&& typed == 1 ==> c[3 + sized] == SourceCommand::SetStreamType(player.stream_type->0)
            &&& c[3 + sized + typed] == SourceCommand::SetCallbacks
        }),
{
}

/// Without a source the end of the stream is refused. With one it is always
/// accepted, and only together with the request to the source.
pub proof fn end_of_stream_asks_the_source<P, S, K>(player: PlayerInnerView<P, S, K>)
    ensures
        player.appsrc is Some ==> player.end_of_stream_answer() == Answer::Ok(
            Some(Command::EndOfStream),
        ),
        player.appsrc is None ==> player.end_of_stream_answer() == Answer::Err(
            PlayerError::EOSFailed,
        ),
{
}

/// The client is told that the end of the stream was signalled exactly if the
/// source has accepted it.
pub proof fn end_of_stream_needs_acceptance(flow: FlowReturn)
    ensures
        end_of_stream_outcome(flow) == Outcome::Ok(()) <==> flow == FlowReturn::Accepted,
        end_of_stream_outcome(flow) matches Err(e) ==> e == PlayerError::EOSFailed,
{
}

/// Data goes through byte for byte: what a source's queue with room for it is
/// handed is all that the client has pushed, in the client's order. Data is
/// refused as a whole where there is no source or no room.
pub proof fn data_goes_through_unchanged<P, S, K>(
    player: PlayerInnerView<P, S, K>,
    queue: QueueLevel,
    data: Seq<u8>,
)
    ensures
        player.appsrc is Some ==> player.push_data_answer(data) == Ok::<Seq<u8>, PlayerError>(
            data,
        ),
        player.appsrc is None ==> player.push_data_answer(data) == Err::<Seq<u8>, PlayerError>(
            PlayerError::BufferPushFailed,
        ),
        queue.current_bytes + data.len() <= queue.max_bytes ==> room_answer(queue, data) == Ok::<
            Seq<u8>,
            PlayerError,
        >(data),
        queue.current_bytes + data.len() > queue.max_bytes ==> room_answer(queue, data) == Err::<
            Seq<u8>,
            PlayerError,
        >(PlayerError::EnoughData),
{
}

/// Data that waits for room is answered as such, and a refusal as it is.
pub proof fn pending_data_is_modelled(pending: PendingPush, error: PlayerError)
    ensures
        pending_view(Ok(pending)) == Ok::<Seq<u8>, PlayerError>(pending@),
        pending_view(Err(error)) == Err::<Seq<u8>, PlayerError>(error),
{
}

/// The client is told that a push has succeeded exactly if a buffer was made of
/// the data and the source has accepted it.
pub proof fn pushes_need_acceptance(reply: PushReply)
    ensures
        push_outcome(reply) == Outcome::Ok(()) <==> reply == PushReply::Flow(FlowReturn::Accepted),
        push_outcome(reply) matches Err(e) ==> e == PlayerError::BufferPushFailed,
{
}

/// Whether two players agree in their handles and in what was reported.
pub open spec fn agree_on_handles<P, S, K>(
    a: PlayerInnerView<P, S, K>,
    b: PlayerInnerView<P, S, K>,
) -> bool {
    a.player == b.player && a.appsink == b.appsink && a.ready_reported == b.ready_reported
}

/// A setting takes the value that it is given, and every other part of the
/// player stays as it was.
pub proof fn settings_change_themselves_alone<P, S, K>(
    p: PlayerInnerView<P, S, K>,
    size: u64,
    rate: Rate,
    type_: StreamType,
)
    ensures
        ({
            let q = p.with_input_size(size);
            &&& agree_on_handles(p, q)
            &&& q.input_size == size
            &&& q.rate == p.rate
            &&& q.stream_type == p.stream_type
            &&& q.appsrc == p.appsrc
            &&& q.last_metadata == p.last_metadata
        }),
        ({
            let q = p.with_rate(rate);
            &&& agree_on_handles(p, q)
            &&& q.input_size == p.input_size
            &&& q.rate == rate
            &&& q.stream_type == p.stream_type
            &&& q.appsrc == p.appsrc
            &&& q.last_metadata == p.last_metadata
        }),
        ({
            let q = p.with_stream_type(type_);
            &&& agree_on_handles(p, q)
            &&& q.input_size == p.input_size
            &&& q.rate == p.rate
            &&& q.appsrc == p.appsrc
            &&& q.last_metadata == p.last_metadata
        }),
{
}

/// A stop takes the source and what is known of the media away, and nothing
/// else. A source that is presented becomes the player's, and nothing else
/// changes. A request for data is remembered, and nothing else changes.
pub proof fn stop_and_source_change_themselves_alone<P, S, K>(
    p: PlayerInnerView<P, S, K>,
    source: S,
)
    ensures
        ({
            let q = p.stopped();
            &&& agree_on_handles(p, q)
            &&& q.input_size == p.input_size
            &&& q.rate == p.rate
            &&& q.stream_type == p.stream_type
            &&& q.appsrc is None
            &&& q.last_metadata is None
        }),
        ({
            let q = p.with_source(source);
            &&& agree_on_handles(p, q)
            &&& q.input_size == p.input_size
            &&& q.rate == p.rate
            &&& q.stream_type == p.stream_type
            &&& q.appsrc == Some(source)
            &&& q.last_metadata == p.last_metadata
        }),
        ({
            let q = p.asked_for_data();
            &&& q.player == p.player
            &&& q.appsink == p.appsink
            &&& q.input_size == p.input_size
            &&& q.rate == p.rate
            &&& q.stream_type == p.stream_type
            &&& q.appsrc == p.appsrc
            &&& q.last_metadata == p.last_metadata
            &&& q.need_data_report() is None
        }),
{
}

/// A request after a set-up that failed is answered with that failure and
/// changes nothing. After a set-up that succeeded it is the player's own answer,
/// and observers and renderers stay as they were.
pub proof fn requests_follow_the_set_up<P, S, K, O, R, T>(
    player: GStreamerPlayerView<P, S, K, O, R>,
    error: PlayerError,
    answer: Result<T, PlayerError>,
    inner: PlayerInnerView<P, S, K>,
)
    ensures
        answer_if(Outcome::Err(error), answer) == Err::<T, PlayerError>(error),
        player.with_inner_if(Outcome::Err(error), inner) == player,
        answer_if(Outcome::Ok(()), answer) == answer,
        player.with_inner_if(Outcome::Ok(()), inner).inner == Some(inner),
        player.with_inner_if(Outcome::Ok(()), inner).observers == player.observers,
        player.with_inner_if(Outcome::Ok(()), inner).renderers == player.renderers,
{
}

} // verus!
