//! The player: its set-up, the requests of its clients and the signals of the
//! pipeline.

use vstd::prelude::*;

use crate::command::{Command, FlowReturn, Rate, SourceCommand, StreamType, Volume};
use crate::error::{outcome_view, Outcome, PlayerError};
use crate::event::{
    event_view, event_views, position_updated, seek_done, state_changed, PipelineState, PlayerEvent,
    PlayerEventView,
};
use crate::frame::{frame_views, Frame, Sample};
use crate::inner::{
    error_report, pending_view, source_setup_failed, Answer, PendingPush, PlayerInner,
    PlayerInnerView,
};
use crate::metadata::MediaInfo;
use crate::observers::{deliveries, PlayerEventObserverList};
use crate::renderers::{copies, FrameRendererList};
use crate::setup::{next_step, Element, SetupReply, SetupReplyView, SetupStep, SetupStepView};
use crate::time::ClockTime;

verus! {

/// A media player. `P`, `S` and `K` are the handles of the pipeline, its source
/// and its video sink; `O` and `R` are those of observers and renderers.
pub struct GStreamerPlayer<P, S, K, O, R> {
    inner: Option<PlayerInner<P, S, K>>,
    observers: PlayerEventObserverList<O>,
    renderers: FrameRendererList<R>,
}

/// The model of a `GStreamerPlayer`.
#[verifier::ext_equal]
pub struct GStreamerPlayerView<P, S, K, O, R> {
    /// What the player holds once it is set up.
    pub inner: Option<PlayerInnerView<P, S, K>>,
    pub observers: Seq<O>,
    pub renderers: Seq<R>,
}

impl<P, S, K, O, R> View for GStreamerPlayer<P, S, K, O, R> {
    type V = GStreamerPlayerView<P, S, K, O, R>;

    closed spec fn view(&self) -> GStreamerPlayerView<P, S, K, O, R> {
        GStreamerPlayerView {
            inner: match self.inner {
                Some(inner) => Some(inner@),
                None => None,
            },
            observers: self.observers@,
            renderers: self.renderers@,
        }
    }
}

/// What the pipeline signals while it plays.
#[derive(Debug)]
pub enum Signal {
    EndOfStream,
    Error,
    StateChanged(PipelineState),
    PositionUpdated(ClockTime),
    SeekDone(ClockTime),
    MediaInfoUpdated(MediaInfo),
    DurationChanged(ClockTime),
}

impl Signal {
    /// A report on the media lists the video streams that it counts.
    pub open spec fn wf(self) -> bool {
        self matches Signal::MediaInfoUpdated(info) ==> info.wf()
    }

    /// What the player becomes by the signal.
    pub open spec fn applied<P, S, K>(self, inner: PlayerInnerView<P, S, K>) -> PlayerInnerView<
        P,
        S,
        K,
    > {
        match self {
            Signal::MediaInfoUpdated(info) => inner.with_metadata(info.metadata()),
            Signal::DurationChanged(duration) => inner.with_duration(duration.length()),
            _ => inner,
        }
    }

    /// What observers are told of the signal.
    pub open spec fn event<P, S, K>(self, inner: PlayerInnerView<P, S, K>) -> Option<
        PlayerEventView,
    > {
        match self {
            Signal::EndOfStream => Some(PlayerEventView::EndOfStream),
            Signal::Error => Some(PlayerEventView::Error),
            Signal::StateChanged(state) => match state.reported() {
                Some(s) => Some(PlayerEventView::StateChanged(s)),
                None => None,
            },
            Signal::PositionUpdated(position) => match position.spec_seconds() {
                Some(seconds) => Some(PlayerEventView::PositionChanged(seconds)),
                None => None,
            },
            Signal::SeekDone(position) => match position.spec_seconds() {
                Some(seconds) => Some(PlayerEventView::SeekDone(seconds)),
                None => None,
            },
            Signal::MediaInfoUpdated(info) => inner.media_info_event(info.metadata()),
            Signal::DurationChanged(duration) => inner.duration_event(duration.length()),
        }
    }

    /// What the pipeline is asked on the signal.
    pub open spec fn command<P, S, K>(self, inner: PlayerInnerView<P, S, K>) -> Option<Command> {
        match self {
            Signal::MediaInfoUpdated(info) => inner.media_info_command(info.metadata()),
            _ => None,
        }
    }
}

/// What a signal leads to: first a request to the pipeline, then the
/// deliveries to observers, the one at an index for the observer at that index.
#[derive(Debug)]
pub struct Reaction {
    pub command: Option<Command>,
    pub deliveries: Vec<PlayerEvent>,
}

/// What a sample leads to: the frames for the renderers, each at its renderer's
/// index, then the deliveries to observers, and the answer to the sink.
#[derive(Debug)]
pub struct SampleReaction {
    pub frames: Vec<Frame>,
    pub deliveries: Vec<PlayerEvent>,
    pub flow: FlowReturn,
}

/// The deliveries of an event that may not come.
pub open spec fn deliveries_of(event: Option<PlayerEventView>, count: nat) -> Seq<
    PlayerEventView,
> {
    match event {
        Some(e) => deliveries(e, count),
        None => Seq::empty(),
    }
}

/// The answer to a request: the player's own once it is set up, and else the
/// failure of the set-up.
pub open spec fn answer_if<T>(
    ready: Outcome,
    answer: Result<T, PlayerError>,
) -> Result<T, PlayerError> {
    match ready {
        Ok(()) => answer,
        Err(e) => Err(e),
    }
}

/// What an error during the set-up leads to: the outcome to report, and a
/// request to the pipeline.
pub fn setup_error(description: String) -> (res: (Outcome, Command))
    ensures
        res.0 == Outcome::Err(PlayerError::Backend(description)),
        outcome_view(res.0) == error_report(description@),
        res.1 == Command::Stop,
{
    (Err(PlayerError::Backend(description)), Command::Stop)
}

impl<P, S, K, O, R> GStreamerPlayerView<P, S, K, O, R> {
    /// The player whose set-up part is `inner`, where the set-up has succeeded.
    pub open spec fn with_inner_if(
        self,
        ready: Outcome,
        inner: PlayerInnerView<P, S, K>,
    ) -> Self {
        match ready {
            Ok(()) => GStreamerPlayerView { inner: Some(inner), ..self },
            Err(_) => self,
        }
    }

    /// The player after `step` has got `reply`: it is set up once the pipeline
    /// and its sink are ready to be used.
    pub open spec fn after_reply(self, reply: SetupReplyView<P, K>) -> Self {
        match reply {
            SetupReplyView::Handles(Ok(handles)) => GStreamerPlayerView {
                inner: Some(PlayerInnerView::initial(handles.0, handles.1)),
                ..self
            },
            _ => self,
        }
    }

    /// The first step of the set-up: a player is set up at most once.
    pub open spec fn first_step(self) -> SetupStepView {
        if self.inner is Some {
            SetupStepView::Finished(Ok(()))
        } else {
            SetupStepView::FindElement(Element::Playbin)
        }
    }
}

impl<P, S, K, O, R> GStreamerPlayer<P, S, K, O, R> {
    pub fn new() -> (res: Self)
        ensures
            res@ == (GStreamerPlayerView::<P, S, K, O, R> {
                inner: None,
                observers: Seq::empty(),
                renderers: Seq::empty(),
            }),
    {
        Self {
            inner: None,
            observers: PlayerEventObserverList::new(),
            renderers: FrameRendererList::new(),
        }
    }

    /// What the player holds once it is set up.
    pub fn inner(&self) -> (res: Option<&PlayerInner<P, S, K>>)
        ensures
            match (res, self@.inner) {
                (Some(inner), Some(view)) => inner@ == view,
                (None, None) => true,
                _ => false,
            },
    {
        self.inner.as_ref()
    }

    /// The observers, in the order in which they registered.
    pub fn observers(&self) -> (res: &Vec<O>)
        ensures
            res@ == self@.observers,
    {
        self.observers.observers()
    }

    /// The renderers, in the order in which they registered.
    pub fn renderers(&self) -> (res: &Vec<R>)
        ensures
            res@ == self@.renderers,
    {
        self.renderers.renderers()
    }

    /// Starts the set-up: the first step. Requests come after the set-up, and
    /// take its outcome.
    pub fn setup(&self) -> (res: SetupStep)
        ensures
            res@ == self@.first_step(),
    {
        if self.inner.is_some() {
            return SetupStep::Finished(Ok(()));
        }
        SetupStep::FindElement(Element::Playbin)
    }

    /// Goes on with the set-up: the step that follows `step` and its `reply`.
    pub fn setup_next(&mut self, step: SetupStep, reply: SetupReply<P, K>) -> (res: SetupStep)
        requires
            step@.is_answered_by(reply@),
        ensures
            res@ == step@.next(reply@),
            final(self)@ == old(self)@.after_reply(reply@),
    {
        let (next, handles) = next_step(step, reply);
        if let Some((player, appsink)) = handles {
            self.inner = Some(PlayerInner::new(player, appsink));
        }
        next
    }

    // Each request takes the outcome of the set-up that preceded it, and asks
    // nothing of the pipeline where the set-up has failed.

    pub fn play(&mut self, ready: Outcome) -> (res: Answer)
        requires
            ready is Ok ==> old(self)@.inner is Some,
        ensures
            final(self)@ == old(self)@,
            res == answer_if(ready, Ok(Some(Command::Play))),
    {
        ready?;
        self.inner.as_mut().unwrap().play()
    }

    pub fn pause(&mut self, ready: Outcome) -> (res: Answer)
        requires
            ready is Ok ==> old(self)@.inner is Some,
        ensures
            final(self)@ == old(self)@,
            res == answer_if(ready, Ok(Some(Command::Pause))),
    {
        ready?;
        self.inner.as_mut().unwrap().pause()
    }

    pub fn stop(&mut self, ready: Outcome) -> (res: Answer)
        requires
            ready is Ok ==> old(self)@.inner is Some,
        ensures
            final(self)@ == old(self)@.with_inner_if(ready, old(self)@.inner->0.stopped()),
            res == answer_if(ready, Ok(Some(Command::Stop))),
    {
        ready?;
        self.inner.as_mut().unwrap().stop()
    }

    pub fn end_of_stream(&mut self, ready: Outcome) -> (res: Answer)
        requires
            ready is Ok ==> old(self)@.inner is Some,
        ensures
            final(self)@ == old(self)@,
            res == answer_if(ready, old(self)@.inner->0.end_of_stream_answer()),
    {
        ready?;
        self.inner.as_mut().unwrap().end_of_stream()
    }

    pub fn set_input_size(&mut self, ready: Outcome, size: u64) -> (res: Answer)
        requires
            ready is Ok ==> old(self)@.inner is Some,
        ensures
            final(self)@ == old(self)@.with_inner_if(
                ready,
                old(self)@.inner->0.with_input_size(size),
            ),
            res == answer_if(ready, old(self)@.inner->0.set_input_size_answer(size)),
    {
        ready?;
        self.inner.as_mut().unwrap().set_input_size(size)
    }

    pub fn set_rate(&mut self, ready: Outcome, rate: Rate) -> (res: Answer)
        requires
            ready is Ok ==> old(self)@.inner is Some,
        ensures
            final(self)@ == old(self)@.with_inner_if(ready, old(self)@.inner->0.with_rate(rate)),
            res == answer_if(ready, old(self)@.inner->0.set_rate_answer(rate)),
    {
        ready?;
        self.inner.as_mut().unwrap().set_rate(rate)
    }

    pub fn set_stream_type(&mut self, ready: Outcome, type_: StreamType) -> (res: Answer)
        requires
            ready is Ok ==> old(self)@.inner is Some,
        ensures
            final(self)@ == old(self)@.with_inner_if(
                ready,
                old(self)@.inner->0.with_stream_type(type_),
            ),
            res == answer_if(ready, old(self)@.inner->0.set_stream_type_answer(type_)),
    {
        ready?;
        self.inner.as_mut().unwrap().set_stream_type(type_)
    }

    pub fn push_data(&mut self, ready: Outcome, data: Vec<u8>) -> (res: Result<
        PendingPush,
        PlayerError,
    >)
        requires
            ready is Ok ==> old(self)@.inner is Some,
        ensures
            final(self)@ == old(self)@,
            pending_view(res) == answer_if(ready, old(self)@.inner->0.push_data_answer(data@)),
    {
        ready?;
        self.inner.as_mut().unwrap().push_data(data)
    }

    pub fn seek(&mut self, ready: Outcome, seconds: u64, nanos: u64) -> (res: Answer)
        requires
            ready is Ok ==> old(self)@.inner is Some,
        ensures
            final(self)@ == old(self)@,
            res == answer_if(ready, old(self)@.inner->0.seek_answer(seconds, nanos)),
    {
        ready?;
        self.inner.as_mut().unwrap().seek(seconds, nanos)
    }

    pub fn set_volume(&mut self, ready: Outcome, value: Volume) -> (res: Answer)
        requires
            ready is Ok ==> old(self)@.inner is Some,
        ensures
            final(self)@ == old(self)@,
            res == answer_if(ready, Ok(Some(Command::SetVolume(value)))),
    {
        ready?;
        self.inner.as_mut().unwrap().set_volume(value)
    }

    pub fn register_event_handler(&mut self, observer: O)
        ensures
            final(self)@ == (GStreamerPlayerView {
                observers: old(self)@.observers.push(observer),
                ..old(self)@
            }),
    {
        self.observers.register(observer);
    }

    pub fn register_frame_renderer(&mut self, renderer: R)
        ensures
            final(self)@ == (GStreamerPlayerView {
                renderers: old(self)@.renderers.push(renderer),
                ..old(self)@
            }),
    {
        self.renderers.register(renderer);
    }

    /// The deliveries of an event that may not come.
    fn notify(&self, event: Option<PlayerEvent>) -> (res: Vec<PlayerEvent>)
        ensures
            event_views(res@) == deliveries_of(event_view(event), self@.observers.len()),
    {
        match event {
            Some(event) => self.observers.notify(event),
            None => {
                let none: Vec<PlayerEvent> = Vec::new();
                assert(event_views(none@) =~= Seq::empty());
                none
            },
        }
    }

    /// Takes a signal of the pipeline.
    pub fn signalled(&mut self, signal: Signal) -> (res: Reaction)
        requires
            old(self)@.inner is Some,
            signal.wf(),
        ensures
            final(self)@ == (GStreamerPlayerView {
                inner: Some(signal.applied(old(self)@.inner->0)),
                ..old(self)@
            }),
            res.command == signal.command(old(self)@.inner->0),
            event_views(res.deliveries@) == deliveries_of(
                signal.event(old(self)@.inner->0),
                old(self)@.observers.len(),
            ),
    {
        let inner = self.inner.as_mut().unwrap();
        let (command, event) = match signal {
            Signal::EndOfStream => (None, Some(PlayerEvent::EndOfStream)),
            Signal::Error => (None, Some(PlayerEvent::Error)),
            Signal::StateChanged(state) => (None, state_changed(state)),
            Signal::PositionUpdated(position) => (None, position_updated(position)),
            Signal::SeekDone(position) => (None, seek_done(position)),
            Signal::MediaInfoUpdated(info) => inner.media_info_updated(&info),
            Signal::DurationChanged(duration) => (None, inner.duration_changed(duration)),
        };
        Reaction { command, deliveries: self.notify(event) }
    }

    /// Answers the sink's first sample of a new position, which is not shown.
    pub fn new_preroll(&self) -> (res: FlowReturn)
        ensures
            res == FlowReturn::Accepted,
    {
        FlowReturn::Accepted
    }

    /// Takes the sample that the sink hands out; none is the end of the stream.
    pub fn new_sample(&self, sample: Option<Sample>) -> (res: SampleReaction)
        ensures
            match sample {
                None => {
                    &&& res.flow == FlowReturn::Eos
                    &&& res.frames@ == Seq::<Frame>::empty()
                    &&& res.deliveries@ == Seq::<PlayerEvent>::empty()
                },
                Some(s) => match s.frame() {
                    Some(frame) => {
                        &&& res.flow == FlowReturn::Accepted
                        &&& frame_views(res.frames@) == copies(frame, self@.renderers.len())
                        &&& event_views(res.deliveries@) == deliveries(
                            PlayerEventView::FrameUpdated,
                            self@.observers.len(),
                        )
                    },
                    None => {
                        &&& res.flow == FlowReturn::Error
                        &&& res.frames@ == Seq::<Frame>::empty()
                        &&& res.deliveries@ == Seq::<PlayerEvent>::empty()
                    },
                },
            },
    {
        let sample = match sample {
            None => return SampleReaction {
                frames: Vec::new(),
                deliveries: Vec::new(),
                flow: FlowReturn::Eos,
            },
            Some(sample) => sample,
        };
        match self.renderers.render(sample) {
            Ok(frames) => SampleReaction {
                frames,
                deliveries: self.observers.notify(PlayerEvent::FrameUpdated),
                flow: FlowReturn::Accepted,
            },
            Err(()) => SampleReaction {
                frames: Vec::new(),
                deliveries: Vec::new(),
                flow: FlowReturn::Error,
            },
        }
    }

    /// Takes the source that the pipeline presents, and says how to prepare it.
    /// A failure is reported as the outcome of the set-up.
    pub fn source_setup(&mut self, source: Option<S>) -> (res: Result<
        Vec<SourceCommand>,
        PlayerError,
    >)
        requires
            old(self)@.inner is Some,
        ensures
            match source {
                Some(appsrc) => {
                    &&& final(self)@ == (GStreamerPlayerView {
                        inner: Some(old(self)@.inner->0.with_source(appsrc)),
                        ..old(self)@
                    })
                    &&& res matches Ok(commands) && commands@
                        == old(self)@.inner->0.source_commands()
                },
                None => {
                    &&& final(self)@ == old(self)@
                    &&& res matches Err(e) && e@ == source_setup_failed()
                },
            },
    {
        self.inner.as_mut().unwrap().source_setup(source)
    }

    /// The source asks for data: what to report as the outcome of the set-up, if
    /// anything, and the deliveries to observers. The set-up waits for the first
    /// such request that this player gets, so that no data is missed between the
    /// set-up and the moment the player can take any.
    pub fn need_data(&mut self) -> (res: (Option<Outcome>, Vec<PlayerEvent>))
        requires
            old(self)@.inner is Some,
        ensures
            res.0 == old(self)@.inner->0.need_data_report(),
            final(self)@ == (GStreamerPlayerView {
                inner: Some(old(self)@.inner->0.asked_for_data()),
                ..old(self)@
            }),
            event_views(res.1@) == deliveries(
                PlayerEventView::NeedData,
                old(self)@.observers.len(),
            ),
    {
        let report = self.inner.as_mut().unwrap().need_data();
        (report, self.observers.notify(PlayerEvent::NeedData))
    }

    /// The source has enough data: the deliveries to observers.
    pub fn enough_data(&self) -> (res: Vec<PlayerEvent>)
        ensures
            event_views(res@) == deliveries(PlayerEventView::EnoughData, self@.observers.len()),
    {
        self.observers.notify(PlayerEvent::EnoughData)
    }

    /// The source asks for the data at `offset`: the deliveries to observers,
    /// and whether the source can seek there.
    pub fn seek_data(&self, offset: u64) -> (res: (Vec<PlayerEvent>, bool))
        ensures
            event_views(res.0@) == deliveries(
                PlayerEventView::SeekData(offset),
                self@.observers.len(),
            ),
            res.1,
    {
        (self.observers.notify(PlayerEvent::SeekData(offset)), true)
    }
}

} // verus!
