//! What holds of a player across requests, signals and set-ups.

pub mod media;
pub mod outputs;
pub mod requests;
pub mod steps;

use vstd::prelude::*;

use crate::cast::signed_64;
use crate::command::{
    AppStreamType, Command, FlowReturn, PushReply, QueueLevel, Rate, SourceCommand, StreamType,
};
use crate::error::{outcome_view, Outcome, PlayerError, PlayerErrorView};
use crate::inner::{
    end_of_stream_outcome, error_report, push_outcome, room_answer, source_setup_failed, Answer,
    PlayerInnerView, MAX_SRC_QUEUE_SIZE,
};
use crate::metadata::MetadataView;
use crate::player::GStreamerPlayerView;
use crate::setup::{Element, SetupReplyView, SetupStepView};
use crate::time::{ClockTime, NANOS_PER_SEC};

verus! {

/// What happens to a player that is set up, as far as it changes the player or
/// is reported as the outcome of a set-up.
pub enum Operation<S> {
    SetInputSize(u64),
    SetRate(Rate),
    SetStreamType(StreamType),
    Stop,
    /// The pipeline presents a source, or fails to.
    SourceSetup(Option<S>),
    /// The source asks for data.
    NeedData,
    /// The pipeline fails, for this reason.
    Failure(Seq<char>),
    /// The pipeline describes the media.
    MediaInfo(MetadataView),
    /// The pipeline reports the duration of the media.
    Duration(Option<nat>),
}

impl<P, S, K> PlayerInnerView<P, S, K> {
    /// The player after one operation.
    pub open spec fn after(self, operation: Operation<S>) -> Self {
        match operation {
            Operation::SetInputSize(size) => self.with_input_size(size),
            Operation::SetRate(rate) => self.with_rate(rate),
            Operation::SetStreamType(type_) => self.with_stream_type(type_),
            Operation::Stop => self.stopped(),
            Operation::SourceSetup(Some(source)) => self.with_source(source),
            Operation::SourceSetup(None) => self,
            Operation::NeedData => self.asked_for_data(),
            Operation::Failure(_) => self,
            Operation::MediaInfo(metadata) => self.with_metadata(metadata),
            Operation::Duration(duration) => self.with_duration(duration),
        }
    }

    /// The player after a sequence of operations.
    pub open spec fn after_all(self, operations: Seq<Operation<S>>) -> Self
        decreases operations.len(),
    {
        if operations.len() == 0 {
            self
        } else {
            self.after_all(operations.drop_last()).after(operations.last())
        }
    }
}

/// The input size that was set last, or `before` where none was.
pub open spec fn last_input_size<S>(operations: Seq<Operation<S>>, before: u64) -> u64
    decreases operations.len(),
{
    if operations.len() == 0 {
        before
    } else if operations.last() is SetInputSize {
        operations.last()->SetInputSize_0
    } else {
        last_input_size(operations.drop_last(), before)
    }
}

/// The rate that was set last, or `before` where none was.
pub open spec fn last_rate<S>(operations: Seq<Operation<S>>, before: Rate) -> Rate
    decreases operations.len(),
{
    if operations.len() == 0 {
        before
    } else if operations.last() is SetRate {
        operations.last()->SetRate_0
    } else {
        last_rate(operations.drop_last(), before)
    }
}

/// The stream type that was set last, or `before` where none was.
pub open spec fn last_stream_type<S>(
    operations: Seq<Operation<S>>,
    before: Option<AppStreamType>,
) -> Option<AppStreamType>
    decreases operations.len(),
{
    if operations.len() == 0 {
        before
    } else if operations.last() is SetStreamType {
        Some(operations.last()->SetStreamType_0.for_source())
    } else {
        last_stream_type(operations.drop_last(), before)
    }
}

/// The input size, the rate and the stream type are those that were set last,
/// whatever else happened: in particular, a stop keeps them. The handles of the
/// pipeline and its sink never change.
pub proof fn settings_are_kept<P, S, K>(
    player: PlayerInnerView<P, S, K>,
    operations: Seq<Operation<S>>,
)
    ensures
        player.after_all(operations).input_size == last_input_size(operations, player.input_size),
        player.after_all(operations).rate == last_rate(operations, player.rate),
        player.after_all(operations).stream_type == last_stream_type(
            operations,
            player.stream_type,
        ),
        player.after_all(operations).player == player.player,
        player.after_all(operations).appsink == player.appsink,
    decreases operations.len(),
{
    if operations.len() > 0 {
        settings_are_kept(player, operations.drop_last());
    }
}

/// A source is told, when the pipeline presents it, the input size and the
/// stream type that clients have set last, even if that was before there was a
/// source. It is told no size where none was set, or zero, and no stream type
/// where none was set.
pub proof fn source_learns_settings<P, S, K>(
    player: PlayerInnerView<P, S, K>,
    operations: Seq<Operation<S>>,
)
    ensures
        ({
            let size = last_input_size(operations, player.input_size);
            let stream_type = last_stream_type(operations, player.stream_type);
            let commands = player.after_all(operations).source_commands();
            &&& forall|n: i64|
                commands.contains(SourceCommand::SetSize(n)) <==> size > 0 && n == signed_64(size)
            &&& forall|t: AppStreamType|
                commands.contains(SourceCommand::SetStreamType(t)) <==> stream_type == Some(t)
            &&& commands.contains(SourceCommand::SetMaxBytes(MAX_SRC_QUEUE_SIZE))
        }),
{
    settings_are_kept(player, operations);
    let now = player.after_all(operations);
    let commands = now.source_commands();
    assert(commands[0] == SourceCommand::SetMaxBytes(MAX_SRC_QUEUE_SIZE));
    if now.input_size > 0 {
        assert(commands[3] == SourceCommand::SetSize(signed_64(now.input_size)));
    }
    if now.stream_type is Some {
        let at: int = if now.input_size > 0 {
            4
        } else {
            3
        };
        assert(commands[at] == SourceCommand::SetStreamType(now.stream_type->0));
    }
}

/// A rate that is set takes effect once the media turns out to be seekable: the
/// pipeline is then asked for the rate that was set last, whether that was
/// before anything was known of the media or was refused because other media
/// could not be seeked.
pub proof fn rate_takes_effect<P, S, K>(
    player: PlayerInnerView<P, S, K>,
    operations: Seq<Operation<S>>,
    metadata: MetadataView,
)
    requires
        metadata.is_seekable,
        player.after_all(operations).is_news(metadata),
    ensures
        player.after_all(operations).media_info_command(metadata) == Some(
            Command::SetRate(last_rate(operations, player.rate)),
        ),
{
    settings_are_kept(player, operations);
}

/// A player that is stopped has no source: it takes no data and no end of the
/// stream until the pipeline presents one. It knows nothing of the media: it takes any rate
/// without asking the pipeline, refuses no seek for its range, and any report
/// on the media is news.
pub proof fn stop_forgets<P, S, K>(
    player: PlayerInnerView<P, S, K>,
    data: Seq<u8>,
    rate: Rate,
    seconds: u64,
    metadata: MetadataView,
)
    ensures
        player.stopped().appsrc is None,
        player.stopped().end_of_stream_answer() == Answer::Err(PlayerError::EOSFailed),
        player.stopped().push_data_answer(data) == Err::<Seq<u8>, PlayerError>(
            PlayerError::BufferPushFailed,
        ),
        player.stopped().set_rate_answer(rate) == Answer::Ok(None),
        !player.stopped().ends_before(seconds),
        player.stopped().is_news(metadata),
{
}

/// A report on the media that repeats what is known leads to nothing.
pub proof fn repeated_report_is_silent<P, S, K>(
    player: PlayerInnerView<P, S, K>,
    metadata: MetadataView,
)
    ensures
        ({
            let told = player.with_metadata(metadata);
            &&& told.media_info_command(metadata) is None
            &&& told.media_info_event(metadata) is None
            &&& told.with_metadata(metadata) == told
        }),
{
}

/// Once the media is described, its duration as it was reported last is what
/// limits seeks: one to a second at or before the end of a seekable stream is
/// let through, and one beyond is refused.
pub proof fn reported_duration_limits_seeks<P, S, K>(
    player: PlayerInnerView<P, S, K>,
    duration: nat,
    seconds: u64,
    nanos: u64,
)
    requires
        player.last_metadata is Some,
        player.stream_type == Some(AppStreamType::Seekable),
    ensures
        player.with_duration(Some(duration)).seek_answer(seconds, nanos) == if seconds
            * NANOS_PER_SEC <= duration {
            Answer::Ok(Some(Command::Seek(ClockTime { nanos: Some(nanos) })))
        } else {
            Err(PlayerError::SeekOutOfRange)
        },
{
}

impl<P, S, K> PlayerInnerView<P, S, K> {
    /// What comes of pushing `data`, for the queue that the source has and its
    /// reply to the data.
    pub open spec fn push(self, data: Seq<u8>, queue: QueueLevel, reply: PushReply) -> Outcome {
        match self.push_data_answer(data) {
            Err(e) => Err(e),
            Ok(pending) => match room_answer(queue, pending) {
                Err(e) => Err(e),
                Ok(_) => push_outcome(reply),
            },
        }
    }

    /// What comes of signalling the end of the stream, for the source's reply.
    pub open spec fn finish_stream(self, flow: FlowReturn) -> Outcome {
        match self.end_of_stream_answer() {
            Err(e) => Err(e),
            Ok(_) => end_of_stream_outcome(flow),
        }
    }
}

/// A push succeeds exactly if there is a source, its queue has room for all of
/// the data and the source takes it. The client is told that there is enough
/// data exactly if only the room is missing; every other failure is a failed
/// push.
pub proof fn pushes_are_answered<P, S, K>(
    player: PlayerInnerView<P, S, K>,
    data: Seq<u8>,
    queue: QueueLevel,
    reply: PushReply,
)
    ensures
        player.push(data, queue, reply) is Ok <==> {
            &&& player.appsrc is Some
            &&& queue.current_bytes + data.len() <= queue.max_bytes
            &&& reply == PushReply::Flow(FlowReturn::Accepted)
        },
        player.push(data, queue, reply) == Outcome::Err(PlayerError::EnoughData) <==> {
            &&& player.appsrc is Some
            &&& queue.current_bytes + data.len() > queue.max_bytes
        },
        player.push(data, queue, reply) matches Err(e) ==> e == PlayerError::EnoughData || e
            == PlayerError::BufferPushFailed,
{
}

/// The end of the stream is signalled exactly if there is a source that takes
/// it.
pub proof fn end_of_stream_is_answered<P, S, K>(
    player: PlayerInnerView<P, S, K>,
    flow: FlowReturn,
)
    ensures
        player.finish_stream(flow) == if player.appsrc is Some && flow == FlowReturn::Accepted {
            Outcome::Ok(())
        } else {
            Err(PlayerError::EOSFailed)
        },
{
}

impl QueueLevel {
    /// The queue after a sequence of pushes of these lengths, of which those
    /// that find no room are turned away.
    pub open spec fn after_pushes(self, lengths: Seq<nat>) -> QueueLevel
        decreases lengths.len(),
    {
        if lengths.len() == 0 {
            self
        } else {
            let before = self.after_pushes(lengths.drop_last());
            if before.has_room(lengths.last()) {
                QueueLevel {
                    current_bytes: (before.current_bytes + lengths.last()) as u64,
                    ..before
                }
            } else {
                before
            }
        }
    }
}

/// Pushes never fill a queue beyond its limit.
pub proof fn queue_stays_within_limit(queue: QueueLevel, lengths: Seq<nat>)
    requires
        queue.current_bytes <= queue.max_bytes,
    ensures
        queue.current_bytes <= queue.after_pushes(lengths).current_bytes <= queue.max_bytes,
        queue.after_pushes(lengths).max_bytes == queue.max_bytes,
    decreases lengths.len(),
{
    if lengths.len() > 0 {
        queue_stays_within_limit(queue, lengths.drop_last());
    }
}

/// Several players after a sequence of operations, each on the player at the
/// index that goes with it.
pub open spec fn all_after<P, S, K>(
    players: Seq<PlayerInnerView<P, S, K>>,
    operations: Seq<(int, Operation<S>)>,
) -> Seq<PlayerInnerView<P, S, K>>
    decreases operations.len(),
{
    if operations.len() == 0 {
        players
    } else {
        let before = all_after(players, operations.drop_last());
        let (who, operation) = operations.last();
        before.update(who, before[who].after(operation))
    }
}

/// Whether the source of the player at index `who` was among those that asked
/// for data.
pub open spec fn has_asked<S>(operations: Seq<(int, Operation<S>)>, who: int) -> bool {
    exists|k: int|
        0 <= k < operations.len() && (#[trigger] operations[k]).0 == who && operations[k].1
            is NeedData
}

/// Each player's own first request for data is reported as the success of its
/// set-up, and no later one is, whatever happened to other players.
pub proof fn readiness_is_reported_per_player<P, S, K>(
    players: Seq<PlayerInnerView<P, S, K>>,
    operations: Seq<(int, Operation<S>)>,
    who: int,
)
    requires
        0 <= who < players.len(),
        forall|k: int|
            0 <= k < operations.len() ==> 0 <= (#[trigger] operations[k]).0 < players.len(),
    ensures
        all_after(players, operations).len() == players.len(),
        all_after(players, operations)[who].need_data_report() == if players[who].ready_reported
            || has_asked(operations, who) {
            None::<Outcome>
        } else {
            Some(Ok(()))
        },
    decreases operations.len(),
{
    if operations.len() > 0 {
        let n = operations.len() - 1;
        let shorter = operations.drop_last();
        assert forall|k: int| 0 <= k < shorter.len() implies 0 <= (#[trigger] shorter[k]).0
            < players.len() by {
            assert(shorter[k] == operations[k]);
        }
        readiness_is_reported_per_player(players, shorter, who);
        if has_asked(shorter, who) {
            let k = choose|k: int|
                0 <= k < shorter.len() && (#[trigger] shorter[k]).0 == who && shorter[k].1
                    is NeedData;
            assert(operations[k] == shorter[k]);
        }
        if has_asked(operations, who) && !has_asked(shorter, who) {
            let k = choose|k: int|
                0 <= k < operations.len() && (#[trigger] operations[k]).0 == who
                    && operations[k].1 is NeedData;
            if k < n {
                assert(shorter[k] == operations[k]);
            }
        }
        assert(operations[n] == operations.last());
    }
}

impl<P, S, K> PlayerInnerView<P, S, K> {
    /// What is reported as the outcome of the set-up when `operation` happens.
    pub open spec fn report(self, operation: Operation<S>) -> Option<
        Result<(), PlayerErrorView>,
    > {
        match operation {
            Operation::NeedData => match self.need_data_report() {
                Some(outcome) => Some(outcome_view(outcome)),
                None => None,
            },
            Operation::Failure(description) => Some(error_report(description)),
            Operation::SourceSetup(None) => Some(Err(source_setup_failed())),
            _ => None,
        }
    }

    /// What is reported as the outcome of the set-up over a sequence of
    /// operations, in that order.
    pub open spec fn reports(self, operations: Seq<Operation<S>>) -> Seq<
        Result<(), PlayerErrorView>,
    >
        decreases operations.len(),
    {
        if operations.len() == 0 {
            seq![]
        } else {
            let before = self.reports(operations.drop_last());
            match self.after_all(operations.drop_last()).report(operations.last()) {
                Some(report) => before.push(report),
                None => before,
            }
        }
    }
}

/// A set-up under way: the player, and the step that waits for its reply.
#[verifier::ext_equal]
pub struct SetupRun<P, S, K, O, R> {
    pub player: GStreamerPlayerView<P, S, K, O, R>,
    pub step: SetupStepView,
}

impl<P, S, K, O, R> SetupRun<P, S, K, O, R> {
    /// The set-up of `player` at its start.
    pub open spec fn start(player: GStreamerPlayerView<P, S, K, O, R>) -> Self {
        SetupRun { player, step: player.first_step() }
    }

    /// The set-up after one reply.
    pub open spec fn replied(self, reply: SetupReplyView<P, K>) -> Self {
        SetupRun { player: self.player.after_reply(reply), step: self.step.next(reply) }
    }

    /// The set-up after a sequence of replies.
    pub open spec fn after_replies(self, replies: Seq<SetupReplyView<P, K>>) -> Self
        decreases replies.len(),
    {
        if replies.len() == 0 {
            self
        } else {
            self.after_replies(replies.drop_last()).replied(replies.last())
        }
    }

    /// Whether each reply is of the kind that the step it answers gets.
    pub open spec fn fits(self, replies: Seq<SetupReplyView<P, K>>) -> bool
        decreases replies.len(),
    {
        replies.len() > 0 ==> {
            &&& self.fits(replies.drop_last())
            &&& self.after_replies(replies.drop_last()).step.is_answered_by(replies.last())
        }
    }
}

/// How many steps may still follow a step.
pub open spec fn steps_left(step: SetupStepView) -> nat {
    match step {
        SetupStepView::FindElement(Element::Playbin) => 15,
        SetupStepView::FindElement(_) => 14,
        SetupStepView::CreatePlayer => 13,
        SetupStepView::Configure(_) => 12,
        SetupStepView::MakeVideoSink(_) => 11,
        SetupStepView::AttachVideoSink => 10,
        SetupStepView::RestrictCaps(_) => 9,
        SetupStepView::SetUri(_) => 8,
        SetupStepView::ConnectHandlers => 7,
        SetupStepView::ConnectSourceSetup => 6,
        SetupStepView::Report(_) => 5,
        SetupStepView::WatchErrors => 4,
        SetupStepView::Pause => 3,
        SetupStepView::AwaitReady => 2,
        SetupStepView::UnwatchErrors(_) => 1,
        SetupStepView::Finished(_) => 0,
    }
}

/// Whether the player is set up as far as it should be before `step`.
pub open spec fn set_up_before<P, S, K, O, R>(
    player: GStreamerPlayerView<P, S, K, O, R>,
    step: SetupStepView,
) -> bool {
    if steps_left(step) >= 8 {
        player.inner is None
    } else {
        step matches SetupStepView::Finished(Err(_)) || player.inner is Some
    }
}

/// A set-up ends: no more than this many replies can follow its start.
pub proof fn setup_ends<P, S, K, O, R>(
    player: GStreamerPlayerView<P, S, K, O, R>,
    replies: Seq<SetupReplyView<P, K>>,
)
    requires
        SetupRun::start(player).fits(replies),
    ensures
        replies.len() + steps_left(SetupRun::start(player).after_replies(replies).step)
            <= steps_left(player.first_step()),
    decreases replies.len(),
{
    if replies.len() > 0 {
        setup_ends(player, replies.drop_last());
    }
}

/// A set-up keeps observers and renderers. A player whose set-up ends in
/// success is set up; it is set up as soon as the pipeline and its sink are
/// ready, and not before.
pub proof fn setup_sets_up<P, S, K, O, R>(
    player: GStreamerPlayerView<P, S, K, O, R>,
    replies: Seq<SetupReplyView<P, K>>,
)
    requires
        SetupRun::start(player).fits(replies),
    ensures
        ({
            let run = SetupRun::start(player).after_replies(replies);
            &&& run.player.observers == player.observers
            &&& run.player.renderers == player.renderers
            &&& set_up_before(run.player, run.step)
            &&& run.step == SetupStepView::Finished(Ok(())) ==> run.player.inner is Some
        }),
    decreases replies.len(),
{
    if replies.len() > 0 {
        setup_sets_up(player, replies.drop_last());
    }
}

/// What the pipeline and the outside make of a set-up.
pub struct SetupAnswers<P, S, K> {
    pub has_playbin: bool,
    pub has_queue: bool,
    pub configured: Result<(), Seq<char>>,
    pub sink_made: bool,
    pub sink_attached: Result<(), Seq<char>>,
    pub uri_set: Result<(P, K), Seq<char>>,
    pub source_connected: bool,
    /// What happens to the player once the pipeline is paused.
    pub meanwhile: Seq<Operation<S>>,
}

impl<P, S, K> SetupAnswers<P, S, K> {
    /// The reply to `step`, which is not the one that waits for an outcome.
    pub open spec fn reply(self, step: SetupStepView) -> SetupReplyView<P, K> {
        match step {
            SetupStepView::FindElement(Element::Playbin) => SetupReplyView::Found(
                self.has_playbin,
            ),
            SetupStepView::FindElement(_) => SetupReplyView::Found(self.has_queue),
            SetupStepView::Configure(_) => SetupReplyView::Taken(self.configured),
            SetupStepView::MakeVideoSink(_) => SetupReplyView::Found(self.sink_made),
            SetupStepView::AttachVideoSink => SetupReplyView::Taken(self.sink_attached),
            SetupStepView::SetUri(_) => SetupReplyView::Handles(self.uri_set),
            SetupStepView::ConnectSourceSetup => SetupReplyView::Connected(self.source_connected),
            _ => SetupReplyView::Done,
        }
    }

    /// Whether the pipeline gets ready to be used.
    pub open spec fn gets_ready(self) -> bool {
        &&& self.has_playbin
        &&& self.has_queue
        &&& self.configured is Ok
        &&& self.sink_made
        &&& self.sink_attached is Ok
        &&& self.uri_set is Ok
    }

    /// What the player holds as soon as the pipeline is ready to be used.
    pub open spec fn ready_player(self) -> PlayerInnerView<P, S, K> {
        PlayerInnerView::initial(self.uri_set->Ok_0.0, self.uri_set->Ok_0.1)
    }

    /// What is reported before the pipeline is paused: the set-up's own failure
    /// where it cannot listen to the source.
    pub open spec fn early_reports(self) -> Seq<Result<(), PlayerErrorView>> {
        if self.source_connected {
            seq![]
        } else {
            seq![Err(source_setup_failed())]
        }
    }

    /// All that is reported as the outcome of a set-up whose pipeline gets ready.
    pub open spec fn reports(self) -> Seq<Result<(), PlayerErrorView>> {
        self.early_reports() + self.ready_player().reports(self.meanwhile)
    }

    /// The outcome of the set-up: the first failure before the pipeline is ready,
    /// and else the first report. There is none as long as nothing is reported.
    pub open spec fn outcome(self) -> Option<Result<(), PlayerErrorView>> {
        if !self.has_playbin {
            Some(Err(PlayerErrorView::Backend("Missing dependency: "@ + "playbin"@)))
        } else if !self.has_queue {
            Some(Err(PlayerErrorView::Backend("Missing dependency: "@ + "queue"@)))
        } else if self.configured is Err {
            Some(Err(PlayerErrorView::Backend(self.configured->Err_0)))
        } else if !self.sink_made {
            Some(Err(PlayerErrorView::Backend("appsink creation failed"@)))
        } else if self.sink_attached is Err {
            Some(Err(PlayerErrorView::Backend(self.sink_attached->Err_0)))
        } else if self.uri_set is Err {
            Some(Err(PlayerErrorView::Backend(self.uri_set->Err_0)))
        } else if self.reports().len() > 0 {
            Some(self.reports()[0])
        } else {
            None
        }
    }
}

impl<P, S, K, O, R> SetupRun<P, S, K, O, R> {
    /// The set-up after `operations` have happened to the player.
    pub open spec fn with_operations(self, operations: Seq<Operation<S>>) -> Self {
        SetupRun {
            player: GStreamerPlayerView {
                inner: Some(self.player.inner->0.after_all(operations)),
                ..self.player
            },
            ..self
        }
    }

    /// How far the set-up gets where `reported` was reported as its outcome so
    /// far: a step that reports adds to it, and the step that waits goes on with
    /// the first report, and not before there is one.
    pub open spec fn run(
        self,
        answers: SetupAnswers<P, S, K>,
        reported: Seq<Result<(), PlayerErrorView>>,
    ) -> Self
        decreases steps_left(self.step),
    {
        match self.step {
            SetupStepView::Finished(_) => self,
            SetupStepView::AwaitReady => {
                let all = reported + self.player.inner->0.reports(answers.meanwhile);
                let waited = self.with_operations(answers.meanwhile);
                if all.len() == 0 {
                    waited
                } else {
                    waited.replied(SetupReplyView::Ready(all[0])).run(answers, all)
                }
            },
            SetupStepView::Report(error) => self.replied(answers.reply(self.step)).run(
                answers,
                reported.push(Err(error)),
            ),
            _ => self.replied(answers.reply(self.step)).run(answers, reported),
        }
    }

    /// How far the set-up gets.
    pub open spec fn finish(self, answers: SetupAnswers<P, S, K>) -> Self {
        self.run(answers, seq![])
    }
}

/// The set-up of a player that is not set up ends with the first failure before
/// the pipeline is ready, and else with the first report, be it the set-up's
/// own; until there is one it waits. The player is set up exactly if the
/// pipeline got ready to be used.
pub proof fn setup_outcome<P, S, K, O, R>(
    player: GStreamerPlayerView<P, S, K, O, R>,
    answers: SetupAnswers<P, S, K>,
)
    requires
        player.inner is None,
    ensures
        SetupRun::start(player).finish(answers) == (SetupRun {
            player: if answers.gets_ready() {
                GStreamerPlayerView {
                    inner: Some(answers.ready_player().after_all(answers.meanwhile)),
                    ..player
                }
            } else {
                player
            },
            step: match answers.outcome() {
                Some(outcome) => SetupStepView::Finished(outcome),
                None => SetupStepView::AwaitReady,
            },
        }),
{
    reveal_with_fuel(SetupRun::run, 17);
    let none = Seq::<Result<(), PlayerErrorView>>::empty();
    assert(none.push(Err(source_setup_failed())) =~= seq![Err(source_setup_failed())]);
}

/// Whether `operation` decides a set-up that waits: the source asks for data,
/// the pipeline fails, or it presents no source.
pub open spec fn decides<S>(operation: Operation<S>) -> bool {
    operation is NeedData || operation is Failure || operation == Operation::<S>::SourceSetup(None)
}

/// How a set-up ends that `operation` decides.
pub open spec fn decision<S>(operation: Operation<S>) -> Result<(), PlayerErrorView> {
    match operation {
        Operation::NeedData => Ok(()),
        Operation::Failure(description) => Err(PlayerErrorView::Backend(description)),
        _ => Err(PlayerErrorView::Backend("Source setup failed"@)),
    }
}

/// A set-up whose pipeline got ready, and which listens to the source, does not
/// end before the player's own source has asked for data, unless the pipeline
/// fails or presents no source. It then ends with what came first of these: in
/// success where that is the request for data.
pub proof fn setup_waits_for_data<P, S, K, O, R>(
    player: GStreamerPlayerView<P, S, K, O, R>,
    answers: SetupAnswers<P, S, K>,
    first: int,
)
    requires
        player.inner is None,
        answers.gets_ready(),
        answers.source_connected,
        0 <= first <= answers.meanwhile.len(),
        forall|k: int| 0 <= k < first ==> !decides(#[trigger] answers.meanwhile[k]),
        first < answers.meanwhile.len() ==> decides(answers.meanwhile[first]),
    ensures
        SetupRun::start(player).finish(answers).step == if first < answers.meanwhile.len() {
            SetupStepView::Finished(decision(answers.meanwhile[first]))
        } else {
            SetupStepView::AwaitReady
        },
{
    setup_outcome(player, answers);
    let ready = answers.ready_player();
    lemma_first_report(ready, answers.meanwhile, first);
    assert(answers.reports() =~= ready.reports(answers.meanwhile));
}

/// What is reported first over a sequence of operations whose first that decides
/// stands at `first`, or which has none.
proof fn lemma_first_report<P, S, K>(
    player: PlayerInnerView<P, S, K>,
    operations: Seq<Operation<S>>,
    first: int,
)
    requires
        !player.ready_reported,
        0 <= first <= operations.len(),
        forall|k: int| 0 <= k < first ==> !decides(#[trigger] operations[k]),
        first < operations.len() ==> decides(operations[first]),
    ensures
        first == operations.len() ==> player.reports(operations).len() == 0 && !player.after_all(
            operations,
        ).ready_reported,
        first < operations.len() ==> player.reports(operations).len() > 0 && player.reports(
            operations,
        )[0] == decision(operations[first]),
    decreases operations.len(),
{
    if operations.len() > 0 {
        let n = operations.len() - 1;
        let shorter = operations.drop_last();
        assert forall|k: int| 0 <= k < first && k < n implies !decides(
            #[trigger] shorter[k],
        ) by {
            assert(shorter[k] == operations[k]);
        }
        assert(operations.last() == operations[n]);
        if first <= n {
            lemma_first_report(player, shorter, first);
        } else {
            lemma_first_report(player, shorter, n);
        }
    }
}

/// A player that is set up stays so: a further set-up succeeds at once and does
/// nothing, even where the first one has failed after the pipeline got ready.
/// A set-up that failed before is tried again from its start.
pub proof fn setup_is_done_once<P, S, K, O, R>(
    player: GStreamerPlayerView<P, S, K, O, R>,
    first: SetupAnswers<P, S, K>,
    second: SetupAnswers<P, S, K>,
)
    requires
        player.inner is None,
    ensures
        ({
            let after = SetupRun::start(player).finish(first).player;
            let again = SetupRun::start(after).finish(second);
            if first.gets_ready() {
                again == (SetupRun { player: after, step: SetupStepView::Finished(Ok(())) })
            } else {
                again == SetupRun::start(player).finish(second)
            }
        }),
{
    setup_outcome(player, first);
    reveal_with_fuel(SetupRun::run, 2);
}

/// The replies that lead to the step that points the pipeline at its source.
pub open spec fn replies_before_uri<P, K>() -> Seq<SetupReplyView<P, K>> {
    seq![
        SetupReplyView::Found(true),
        SetupReplyView::Found(true),
        SetupReplyView::Done,
        SetupReplyView::Taken(Ok(())),
        SetupReplyView::Found(true),
        SetupReplyView::Taken(Ok(())),
        SetupReplyView::Done,
    ]
}

/// The pipeline is pointed at the player's source only after it has taken its
/// configuration and its video sink: both depend on the state of the pipeline,
/// which may change when it is pointed there.
pub proof fn uri_comes_after_configuration<P, S, K, O, R>(
    player: GStreamerPlayerView<P, S, K, O, R>,
    replies: Seq<SetupReplyView<P, K>>,
)
    requires
        SetupRun::start(player).fits(replies),
        SetupRun::start(player).after_replies(replies).step is SetUri,
    ensures
        replies == replies_before_uri::<P, K>(),
{
    lemma_replies_up_to_uri(player, replies);
    assert(replies_before_uri::<P, K>().take(7) =~= replies_before_uri::<P, K>());
}

/// The replies before any step up to the one that points the pipeline at its
/// source.
proof fn lemma_replies_up_to_uri<P, S, K, O, R>(
    player: GStreamerPlayerView<P, S, K, O, R>,
    replies: Seq<SetupReplyView<P, K>>,
)
    requires
        SetupRun::start(player).fits(replies),
        steps_left(SetupRun::start(player).after_replies(replies).step) >= 8,
    ensures
        replies.len() == 15 - steps_left(SetupRun::start(player).after_replies(replies).step),
        replies == replies_before_uri::<P, K>().take(replies.len() as int),
    decreases replies.len(),
{
    let all = replies_before_uri::<P, K>();
    if replies.len() > 0 {
        let n = replies.len() - 1;
        lemma_replies_up_to_uri(player, replies.drop_last());
        if replies.last() is Taken {
            assert(replies.last()->Taken_0->Ok_0 == ());
        }
        assert(replies.last() == all[n]);
        assert(all.take(n + 1) =~= all.take(n).push(all[n]));
        assert(replies =~= replies.drop_last().push(replies.last()));
    } else {
        assert(replies =~= all.take(0));
    }
}

} // verus!
