//! The state of a player that is set up, and its answers to requests.

use vstd::prelude::*;

use crate::cast::{signed_64, to_signed_64};
use crate::command::{
    AppStreamType, Command, FlowReturn, PushReply, QueueLevel, Rate, SourceCommand, StreamType,
    Volume, NORMAL_RATE_BITS,
};
use crate::error::{Outcome, PlayerError, PlayerErrorView};
use crate::event::{event_view, PlayerEvent, PlayerEventView};
use crate::metadata::{metadata_from_media_info, MediaInfo, Metadata, MetadataView};
use crate::time::{ClockTime, Duration, NANOS_PER_SEC};

verus! {

/// The most bytes that the source's queue holds: 50 MB.
pub const MAX_SRC_QUEUE_SIZE: u64 = 50 * 1024 * 1024;

/// The size that a live source is told.
pub const LIVE_SOURCE_SIZE: i64 = -1;

/// The answer to a request: what to ask of the pipeline or its source, if
/// anything, or why the request is refused.
pub type Answer = Result<Option<Command>, PlayerError>;

/// A player that is set up. `P`, `S` and `K` are the handles of the pipeline,
/// its source and its video sink; nothing here looks inside them.
pub struct PlayerInner<P, S, K> {
    player: P,
    appsrc: Option<S>,
    appsink: K,
    input_size: u64,
    rate: Rate,
    stream_type: Option<AppStreamType>,
    last_metadata: Option<Metadata>,
    ready_reported: bool,
}

/// The model of a `PlayerInner`.
#[verifier::ext_equal]
pub struct PlayerInnerView<P, S, K> {
    pub player: P,
    pub appsrc: Option<S>,
    pub appsink: K,
    pub input_size: u64,
    pub rate: Rate,
    pub stream_type: Option<AppStreamType>,
    pub last_metadata: Option<MetadataView>,
    /// Whether a request of the source for data was reported already.
    pub ready_reported: bool,
}

/// The model of a description that may not be known yet.
pub open spec fn metadata_view(metadata: Option<Metadata>) -> Option<MetadataView> {
    match metadata {
        Some(m) => Some(m@),
        None => None,
    }
}

impl<P, S, K> View for PlayerInner<P, S, K> {
    type V = PlayerInnerView<P, S, K>;

    closed spec fn view(&self) -> PlayerInnerView<P, S, K> {
        PlayerInnerView {
            player: self.player,
            appsrc: self.appsrc,
            appsink: self.appsink,
            input_size: self.input_size,
            rate: self.rate,
            stream_type: self.stream_type,
            last_metadata: metadata_view(self.last_metadata),
            ready_reported: self.ready_reported,
        }
    }
}

/// The size that the source is told of media of `size` bytes: an unknown size,
/// which is zero, stands for a live source.
pub open spec fn announced_size(size: u64) -> i64 {
    if size > 0 {
        signed_64(size)
    } else {
        LIVE_SOURCE_SIZE
    }
}

impl<P, S, K> PlayerInnerView<P, S, K> {
    /// A player that was just set up.
    pub open spec fn initial(player: P, appsink: K) -> Self {
        PlayerInnerView {
            player,
            appsrc: None,
            appsink,
            input_size: 0,
            rate: Rate { bits: NORMAL_RATE_BITS },
            stream_type: None,
            last_metadata: None,
            ready_reported: false,
        }
    }

    /// The answer to a new input size: the source, where there is one, is told.
    pub open spec fn set_input_size_answer(self, size: u64) -> Answer {
        if self.appsrc is Some {
            Ok(Some(Command::SetSize(announced_size(size))))
        } else {
            Ok(None)
        }
    }

    /// The answer to a new rate: it is passed on once the media is known to be
    /// seekable, and refused once it is known not to be.
    pub open spec fn set_rate_answer(self, rate: Rate) -> Answer {
        match self.last_metadata {
            None => Ok(None),
            Some(metadata) => if metadata.is_seekable {
                Ok(Some(Command::SetRate(rate)))
            } else {
                Err(PlayerError::NonSeekableStream)
            },
        }
    }

    /// The answer to a new stream type: the source, where there is one, is told.
    pub open spec fn set_stream_type_answer(self, type_: StreamType) -> Answer {
        if self.appsrc is Some {
            Ok(Some(Command::SetStreamType(type_.for_source())))
        } else {
            Ok(None)
        }
    }

    /// Whether the media is known to end before `seconds` seconds.
    pub open spec fn ends_before(self, seconds: u64) -> bool {
        self.last_metadata matches Some(metadata) && metadata.duration matches Some(duration)
            && duration < seconds * NANOS_PER_SEC
    }

    /// The answer to a seek to second `seconds`, which is nanosecond `nanos`.
    pub open spec fn seek_answer(self, seconds: u64, nanos: u64) -> Answer {
        if self.stream_type != Some(AppStreamType::Seekable) {
            Err(PlayerError::NonSeekableStream)
        } else if self.ends_before(seconds) {
            Err(PlayerError::SeekOutOfRange)
        } else {
            Ok(Some(Command::Seek(ClockTime { nanos: Some(nanos) })))
        }
    }

    /// The answer to the end of the stream: a source can be told of it.
    pub open spec fn end_of_stream_answer(self) -> Answer {
        if self.appsrc is Some {
            Ok(Some(Command::EndOfStream))
        } else {
            Err(PlayerError::EOSFailed)
        }
    }

    /// The answer to data: it is kept for a source, and refused where there is none.
    pub open spec fn push_data_answer(self, data: Seq<u8>) -> Result<Seq<u8>, PlayerError> {
        if self.appsrc is Some {
            Ok(data)
        } else {
            Err(PlayerError::BufferPushFailed)
        }
    }

    /// The player with another input size.
    pub open spec fn with_input_size(self, size: u64) -> Self {
        PlayerInnerView { input_size: size, ..self }
    }

    /// The player with another rate.
    pub open spec fn with_rate(self, rate: Rate) -> Self {
        PlayerInnerView { rate, ..self }
    }

    /// The player with another stream type.
    pub open spec fn with_stream_type(self, type_: StreamType) -> Self {
        PlayerInnerView { stream_type: Some(type_.for_source()), ..self }
    }

    /// The player with another source.
    pub open spec fn with_source(self, appsrc: S) -> Self {
        PlayerInnerView { appsrc: Some(appsrc), ..self }
    }

    /// The player that knows the media as `metadata`.
    pub open spec fn with_metadata(self, metadata: MetadataView) -> Self {
        PlayerInnerView { last_metadata: Some(metadata), ..self }
    }

    /// The player that knows the media, where it does, to be of this duration.
    pub open spec fn with_duration(self, duration: Option<nat>) -> Self {
        match self.last_metadata {
            Some(metadata) => self.with_metadata(MetadataView { duration, ..metadata }),
            None => self,
        }
    }

    /// The player once its source has asked for data.
    pub open spec fn asked_for_data(self) -> Self {
        PlayerInnerView { ready_reported: true, ..self }
    }

    /// What is reported as the outcome of the set-up when the source asks for
    /// data: success the first time, and nothing later.
    pub open spec fn need_data_report(self) -> Option<Outcome> {
        if self.ready_reported {
            None
        } else {
            Some(Ok(()))
        }
    }

    /// The player once it is told to stop.
    pub open spec fn stopped(self) -> Self {
        PlayerInnerView { last_metadata: None, appsrc: None, ..self }
    }

    /// Whether `metadata` differs from what was known of the media.
    pub open spec fn is_news(self, metadata: MetadataView) -> bool {
        self.last_metadata != Some(metadata)
    }

    /// What the pipeline is asked on learning `metadata`: to play seekable
    /// media at the rate that was set.
    pub open spec fn media_info_command(self, metadata: MetadataView) -> Option<Command> {
        if self.is_news(metadata) && metadata.is_seekable {
            Some(Command::SetRate(self.rate))
        } else {
            None
        }
    }

    /// What observers are told on learning `metadata`.
    pub open spec fn media_info_event(self, metadata: MetadataView) -> Option<PlayerEventView> {
        if self.is_news(metadata) {
            Some(PlayerEventView::MetadataUpdated(metadata))
        } else {
            None
        }
    }

    /// What observers are told on learning the duration of the media.
    pub open spec fn duration_event(self, duration: Option<nat>) -> Option<PlayerEventView> {
        match self.with_duration(duration).last_metadata {
            Some(metadata) => Some(PlayerEventView::MetadataUpdated(metadata)),
            None => None,
        }
    }

    /// How a new source is prepared. What clients have set before the source
    /// was there is told to it now.
    pub open spec fn source_commands(self) -> Seq<SourceCommand> {
        let size = if self.input_size > 0 {
            seq![SourceCommand::SetSize(signed_64(self.input_size))]
        } else {
            seq![]
        };
        let stream_type = match self.stream_type {
            Some(type_) => seq![SourceCommand::SetStreamType(type_)],
            None => seq![],
        };
        seq![
            SourceCommand::SetMaxBytes(MAX_SRC_QUEUE_SIZE),
            SourceCommand::SetBlock(false),
            SourceCommand::SetFormatBytes,
        ] + size + stream_type + seq![SourceCommand::SetCallbacks]
    }
}

/// Data that a source is there for, and that waits for room in its queue.
pub struct PendingPush {
    data: Vec<u8>,
}

impl View for PendingPush {
    type V = Seq<u8>;

    closed spec fn view(&self) -> Seq<u8> {
        self.data@
    }
}

/// The model of the answer to data.
pub open spec fn pending_view(answer: Result<PendingPush, PlayerError>) -> Result<
    Seq<u8>,
    PlayerError,
> {
    match answer {
        Ok(pending) => Ok(pending@),
        Err(e) => Err(e),
    }
}

/// What is pushed of `data`: all of it where the queue has room, else nothing.
pub open spec fn room_answer(queue: QueueLevel, data: Seq<u8>) -> Result<Seq<u8>, PlayerError> {
    if queue.has_room(data.len()) {
        Ok(data)
    } else {
        Err(PlayerError::EnoughData)
    }
}

impl PendingPush {
    /// The data to push, where the queue has room for all of it.
    pub fn check_room(self, queue: QueueLevel) -> (res: Result<Vec<u8>, PlayerError>)
        requires
            queue.current_bytes + self@.len() <= u64::MAX,
        ensures
            match res {
                Ok(data) => room_answer(queue, self@) == Ok::<Seq<u8>, PlayerError>(data@),
                Err(e) => room_answer(queue, self@) == Err::<Seq<u8>, PlayerError>(e),
            },
    {
        if queue.current_bytes + self.data.len() as u64 > queue.max_bytes {
            return Err(PlayerError::EnoughData);
        }
        Ok(self.data)
    }
}

/// What comes of a push that the queue had room for.
pub open spec fn push_outcome(reply: PushReply) -> Outcome {
    if reply == PushReply::Flow(FlowReturn::Accepted) {
        Ok(())
    } else {
        Err(PlayerError::BufferPushFailed)
    }
}

/// What the client is told of a push, by what came of handing over the data.
pub fn push_finished(reply: PushReply) -> (res: Outcome)
    ensures
        res == push_outcome(reply),
{
    match reply {
        PushReply::Flow(FlowReturn::Accepted) => Ok(()),
        _ => Err(PlayerError::BufferPushFailed),
    }
}

/// What comes of telling the source of the end of the stream.
pub open spec fn end_of_stream_outcome(flow: FlowReturn) -> Outcome {
    if flow == FlowReturn::Accepted {
        Ok(())
    } else {
        Err(PlayerError::EOSFailed)
    }
}

/// What the client is told of the end of the stream, by the source's answer.
pub fn end_of_stream_finished(flow: FlowReturn) -> (res: Outcome)
    ensures
        res == end_of_stream_outcome(flow),
{
    if flow == FlowReturn::Accepted {
        return Ok(());
    }
    Err(PlayerError::EOSFailed)
}

/// What is reported as the outcome of the set-up when the pipeline fails.
pub open spec fn error_report(description: Seq<char>) -> Result<(), PlayerErrorView> {
    Err(PlayerErrorView::Backend(description))
}

/// The failure of a pipeline that presents no source.
pub open spec fn source_setup_failed() -> PlayerErrorView {
    PlayerErrorView::Backend("Source setup failed"@)
}

impl<P, S, K> PlayerInner<P, S, K> {
    /// A player that was just set up.
    pub fn new(player: P, appsink: K) -> (res: Self)
        ensures
            res@ == PlayerInnerView::<P, S, K>::initial(player, appsink),
    {
        PlayerInner {
            player,
            appsrc: None,
            appsink,
            input_size: 0,
            rate: Rate { bits: NORMAL_RATE_BITS },
            stream_type: None,
            last_metadata: None,
            ready_reported: false,
        }
    }

    /// The handle of the pipeline.
    pub fn player(&self) -> (res: &P)
        ensures
            *res == self@.player,
    {
        &self.player
    }

    /// The handle of the source, where there is one.
    pub fn appsrc(&self) -> (res: Option<&S>)
        ensures
            res == match self@.appsrc {
                Some(source) => Some(&source),
                None => None,
            },
    {
        self.appsrc.as_ref()
    }

    /// The handle of the video sink.
    pub fn appsink(&self) -> (res: &K)
        ensures
            *res == self@.appsink,
    {
        &self.appsink
    }

    /// Sets the size of the media in bytes. The size is kept, so that it can be
    /// set before there is a source.
    pub fn set_input_size(&mut self, size: u64) -> (res: Answer)
        ensures
            final(self)@ == old(self)@.with_input_size(size),
            res == old(self)@.set_input_size_answer(size),
    {
        self.input_size = size;
        if self.appsrc.is_some() {
            if size > 0 {
                return Ok(Some(Command::SetSize(to_signed_64(size))));
            }
            return Ok(Some(Command::SetSize(LIVE_SOURCE_SIZE)));
        }
        Ok(None)
    }

    /// Sets the playback rate. The rate is kept, so that it can be set before
    /// anything is known of the media.
    pub fn set_rate(&mut self, rate: Rate) -> (res: Answer)
        ensures
            final(self)@ == old(self)@.with_rate(rate),
            res == old(self)@.set_rate_answer(rate),
    {
        self.rate = rate;
        if let Some(metadata) = &self.last_metadata {
            if !metadata.is_seekable {
                return Err(PlayerError::NonSeekableStream);
            }
            return Ok(Some(Command::SetRate(rate)));
        }
        Ok(None)
    }

    /// Sets how the client feeds the media. The stream type is kept, so that it
    /// can be set before there is a source.
    pub fn set_stream_type(&mut self, type_: StreamType) -> (res: Answer)
        ensures
            final(self)@ == old(self)@.with_stream_type(type_),
            res == old(self)@.set_stream_type_answer(type_),
    {
        let type_ = match type_ {
            StreamType::Stream => AppStreamType::Stream,
            StreamType::Seekable => AppStreamType::Seekable,
            StreamType::RandomAccess => AppStreamType::RandomAccess,
        };
        self.stream_type = Some(type_);
        if self.appsrc.is_some() {
            return Ok(Some(Command::SetStreamType(type_)));
        }
        Ok(None)
    }

    pub fn play(&mut self) -> (res: Answer)
        ensures
            *final(self) == *old(self),
            res == Answer::Ok(Some(Command::Play)),
    {
        Ok(Some(Command::Play))
    }

    /// Stops the playback and forgets the media and its source.
    pub fn stop(&mut self) -> (res: Answer)
        ensures
            final(self)@ == old(self)@.stopped(),
            res == Answer::Ok(Some(Command::Stop)),
    {
        self.last_metadata = None;
        self.appsrc = None;
        Ok(Some(Command::Stop))
    }

    pub fn pause(&mut self) -> (res: Answer)
        ensures
            *final(self) == *old(self),
            res == Answer::Ok(Some(Command::Pause)),
    {
        Ok(Some(Command::Pause))
    }

    /// Signals the end of the stream. The source's answer goes to
    /// [`end_of_stream_finished`].
    pub fn end_of_stream(&mut self) -> (res: Answer)
        ensures
            *final(self) == *old(self),
            res == old(self)@.end_of_stream_answer(),
    {
        if self.appsrc.is_some() {
            return Ok(Some(Command::EndOfStream));
        }
        Err(PlayerError::EOSFailed)
    }

    /// Moves the playback to second `seconds`, which is nanosecond `nanos`. Only
    /// a seekable stream can be seeked: one of random access asks for its data
    /// in another way.
    pub fn seek(&mut self, seconds: u64, nanos: u64) -> (res: Answer)
        ensures
            *final(self) == *old(self),
            res == old(self)@.seek_answer(seconds, nanos),
    {
        match self.stream_type {
            Some(AppStreamType::Seekable) => {},
            _ => return Err(PlayerError::NonSeekableStream),
        }
        if let Some(metadata) = &self.last_metadata {
            if let Some(duration) = &metadata.duration {
                if duration.shorter_than(&Duration::new(seconds, 0)) {
                    return Err(PlayerError::SeekOutOfRange);
                }
            }
        }
        Ok(Some(Command::Seek(ClockTime::from_nseconds(nanos))))
    }

    pub fn set_volume(&mut self, value: Volume) -> (res: Answer)
        ensures
            *final(self) == *old(self),
            res == Answer::Ok(Some(Command::SetVolume(value))),
    {
        Ok(Some(Command::SetVolume(value)))
    }

    /// Takes data for the source. [`PendingPush::check_room`] then finds out whether
    /// the queue has room for it, and [`push_finished`] takes the source's answer.
    pub fn push_data(&mut self, data: Vec<u8>) -> (res: Result<PendingPush, PlayerError>)
        ensures
            *final(self) == *old(self),
            pending_view(res) == old(self)@.push_data_answer(data@),
    {
        if self.appsrc.is_some() {
            return Ok(PendingPush { data });
        }
        Err(PlayerError::BufferPushFailed)
    }

    pub fn set_app_src(&mut self, appsrc: S)
        ensures
            final(self)@ == old(self)@.with_source(appsrc),
    {
        self.appsrc = Some(appsrc);
    }

    /// Takes the source that the pipeline presents, and says how to prepare it.
    pub fn source_setup(&mut self, source: Option<S>) -> (res: Result<
        Vec<SourceCommand>,
        PlayerError,
    >)
        ensures
            match source {
                Some(appsrc) => {
                    &&& final(self)@ == old(self)@.with_source(appsrc)
                    &&& res matches Ok(commands) && commands@ == old(self)@.source_commands()
                },
                None => {
                    &&& final(self)@ == old(self)@
                    &&& res matches Err(e) && e@ == source_setup_failed()
                },
            },
    {
        let appsrc = match source {
            Some(appsrc) => appsrc,
            None => return Err(PlayerError::Backend("Source setup failed".to_owned())),
        };
        let mut commands: Vec<SourceCommand> = Vec::new();
        commands.push(SourceCommand::SetMaxBytes(MAX_SRC_QUEUE_SIZE));
        commands.push(SourceCommand::SetBlock(false));
        commands.push(SourceCommand::SetFormatBytes);
        if self.input_size > 0 {
            commands.push(SourceCommand::SetSize(to_signed_64(self.input_size)));
        }
        if let Some(stream_type) = self.stream_type {
            commands.push(SourceCommand::SetStreamType(stream_type));
        }
        commands.push(SourceCommand::SetCallbacks);
        assert(commands@ =~= self@.source_commands());
        self.set_app_src(appsrc);
        Ok(commands)
    }

    /// The source asks for data: what to report as the outcome of the set-up,
    /// if anything.
    pub fn need_data(&mut self) -> (res: Option<Outcome>)
        ensures
            final(self)@ == old(self)@.asked_for_data(),
            res == old(self)@.need_data_report(),
    {
        if self.ready_reported {
            return None;
        }
        self.ready_reported = true;
        Some(Ok(()))
    }

    /// Learns what the pipeline reports of the media: what to ask of the
    /// pipeline, and what to tell observers. What is already known is not told
    /// again.
    pub fn media_info_updated(&mut self, info: &MediaInfo) -> (res: (
        Option<Command>,
        Option<PlayerEvent>,
    ))
        requires
            info.wf(),
        ensures
            final(self)@ == old(self)@.with_metadata(info.metadata()),
            res.0 == old(self)@.media_info_command(info.metadata()),
            event_view(res.1) == old(self)@.media_info_event(info.metadata()),
    {
        let metadata = match metadata_from_media_info(info) {
            Ok(metadata) => metadata,
            Err(()) => return (None, None),
        };
        let known = match &self.last_metadata {
            Some(last) => *last == metadata,
            None => false,
        };
        if known {
            return (None, None);
        }
        let command = if metadata.is_seekable {
            Some(Command::SetRate(self.rate))
        } else {
            None
        };
        self.last_metadata = Some(metadata.clone());
        (command, Some(PlayerEvent::MetadataUpdated(metadata)))
    }

    /// Learns a new duration of the media: what to tell observers. Nothing is
    /// told, nor kept, before the media is described.
    pub fn duration_changed(&mut self, duration: ClockTime) -> (res: Option<PlayerEvent>)
        ensures
            final(self)@ == old(self)@.with_duration(duration.length()),
            event_view(res) == old(self)@.duration_event(duration.length()),
    {
        let duration = duration.to_duration();
        match self.last_metadata.take() {
            Some(mut metadata) => {
                metadata.duration = duration;
                let event = PlayerEvent::MetadataUpdated(metadata.clone());
                self.last_metadata = Some(metadata);
                Some(event)
            },
            None => None,
        }
    }
}

} // verus!
