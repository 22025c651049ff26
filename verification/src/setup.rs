//! How a player is set up, step by step.
//!
//! Each step is work on the pipeline. Its reply decides the next step.

use vstd::prelude::*;

use crate::error::{outcome_view, Outcome, PlayerError, PlayerErrorView};

verus! {

/// Milliseconds between two reports of the playback position.
pub const POSITION_UPDATE_INTERVAL_MS: u32 = 500;

/// A kind of pipeline element.
#[derive(Clone, Copy, Debug, PartialEq, Eq, Structural)]
pub enum Element {
    Playbin,
    Queue,
    Appsink,
}

impl Element {
    /// The name of the element's factory.
    pub open spec fn spec_name(self) -> Seq<char> {
        match self {
            Element::Playbin => "playbin"@,
            Element::Queue => "queue"@,
            Element::Appsink => "appsink"@,
        }
    }

    /// The name of the element's factory.
    pub fn name(&self) -> (res: &'static str)
        ensures
            res@ == self.spec_name(),
    {
        match self {
            Element::Playbin => "playbin",
            Element::Queue => "queue",
            Element::Appsink => "appsink",
        }
    }
}

/// The video that the sink takes.
#[derive(Clone, Copy, Debug)]
pub struct VideoCaps {
    pub media_type: &'static str,
    pub format: &'static str,
    pub pixel_aspect_ratio: (i32, i32),
}

/// The model of a `VideoCaps`.
#[verifier::ext_equal]
pub struct VideoCapsView {
    pub media_type: Seq<char>,
    pub format: Seq<char>,
    pub pixel_aspect_ratio: (i32, i32),
}

impl View for VideoCaps {
    type V = VideoCapsView;

    open spec fn view(&self) -> VideoCapsView {
        VideoCapsView {
            media_type: self.media_type@,
            format: self.format@,
            pixel_aspect_ratio: self.pixel_aspect_ratio,
        }
    }
}

/// The video that the sink takes: raw pixels of four bytes, as wide as high.
pub open spec fn spec_video_caps() -> VideoCapsView {
    VideoCapsView {
        media_type: "video/x-raw"@,
        format: "BGRA"@,
        pixel_aspect_ratio: (1i32, 1i32),
    }
}

/// The video that the sink takes.
pub fn video_caps() -> (res: VideoCaps)
    ensures
        res@ == spec_video_caps(),
{
    VideoCaps { media_type: "video/x-raw", format: "BGRA", pixel_aspect_ratio: (1, 1) }
}

/// The address under which the pipeline takes its data from the player.
pub fn source_uri() -> (res: &'static str)
    ensures
        res@ == "appsrc://"@,
{
    "appsrc://"
}

/// One step of the set-up.
#[derive(Debug)]
pub enum SetupStep {
    /// Look for an element that the pipeline needs.
    FindElement(Element),
    /// Create the pipeline.
    CreatePlayer,
    /// Have the playback position reported at this interval, in milliseconds.
    Configure(u32),
    /// Create the video sink.
    MakeVideoSink(Element),
    /// Make the sink the pipeline's video sink.
    AttachVideoSink,
    /// Restrict the sink to this video.
    RestrictCaps(VideoCaps),
    /// Have the pipeline take its data from this address.
    SetUri(&'static str),
    /// Listen to the pipeline's signals and the sink's samples.
    ConnectHandlers,
    /// Listen to the source that the pipeline presents.
    ConnectSourceSetup,
    /// Report the failure as the outcome of the set-up.
    Report(PlayerError),
    /// Have errors reported as the outcome of the set-up.
    WatchErrors,
    /// Pause the pipeline, which makes it present its source.
    Pause,
    /// Wait for the first outcome that is reported.
    AwaitReady,
    /// Have errors no longer reported as the outcome, which is this one.
    UnwatchErrors(Outcome),
    /// The set-up is over, with this outcome.
    Finished(Outcome),
}

/// The model of a `SetupStep`.
pub enum SetupStepView {
    FindElement(Element),
    CreatePlayer,
    Configure(u32),
    MakeVideoSink(Element),
    AttachVideoSink,
    RestrictCaps(VideoCapsView),
    SetUri(Seq<char>),
    ConnectHandlers,
    ConnectSourceSetup,
    Report(PlayerErrorView),
    WatchErrors,
    Pause,
    AwaitReady,
    UnwatchErrors(Result<(), PlayerErrorView>),
    Finished(Result<(), PlayerErrorView>),
}

impl View for SetupStep {
    type V = SetupStepView;

    open spec fn view(&self) -> SetupStepView {
        match self {
            SetupStep::FindElement(element) => SetupStepView::FindElement(*element),
            SetupStep::CreatePlayer => SetupStepView::CreatePlayer,
            SetupStep::Configure(interval) => SetupStepView::Configure(*interval),
            SetupStep::MakeVideoSink(element) => SetupStepView::MakeVideoSink(*element),
            SetupStep::AttachVideoSink => SetupStepView::AttachVideoSink,
            SetupStep::RestrictCaps(caps) => SetupStepView::RestrictCaps(caps@),
            SetupStep::SetUri(uri) => SetupStepView::SetUri(uri@),
            SetupStep::ConnectHandlers => SetupStepView::ConnectHandlers,
            SetupStep::ConnectSourceSetup => SetupStepView::ConnectSourceSetup,
            SetupStep::Report(error) => SetupStepView::Report(error@),
            SetupStep::WatchErrors => SetupStepView::WatchErrors,
            SetupStep::Pause => SetupStepView::Pause,
            SetupStep::AwaitReady => SetupStepView::AwaitReady,
            SetupStep::UnwatchErrors(outcome) => SetupStepView::UnwatchErrors(
                outcome_view(*outcome),
            ),
            SetupStep::Finished(outcome) => SetupStepView::Finished(outcome_view(*outcome)),
        }
    }
}

/// What came of a step. `P` and `K` are the handles of the pipeline and its
/// video sink.
#[derive(Debug)]
pub enum SetupReply<P, K> {
    /// The step is done; it cannot fail.
    Done,
    /// Whether the element was found, or made.
    Found(bool),
    /// Whether the setting was taken; the pipeline's words where it was not.
    Taken(Result<(), String>),
    /// The pipeline and its sink, ready to be used; the pipeline's words where
    /// they are not.
    Handles(Result<(P, K), String>),
    /// Whether the listener is connected.
    Connected(bool),
    /// The first outcome that was reported.
    Ready(Outcome),
}

/// The model of a `SetupReply`.
pub enum SetupReplyView<P, K> {
    Done,
    Found(bool),
    Taken(Result<(), Seq<char>>),
    Handles(Result<(P, K), Seq<char>>),
    Connected(bool),
    Ready(Result<(), PlayerErrorView>),
}

impl<P, K> View for SetupReply<P, K> {
    type V = SetupReplyView<P, K>;

    open spec fn view(&self) -> SetupReplyView<P, K> {
        match self {
            SetupReply::Done => SetupReplyView::Done,
            SetupReply::Found(found) => SetupReplyView::Found(*found),
            SetupReply::Taken(Ok(())) => SetupReplyView::Taken(Ok(())),
            SetupReply::Taken(Err(text)) => SetupReplyView::Taken(Err(text@)),
            SetupReply::Handles(Ok(handles)) => SetupReplyView::Handles(Ok(*handles)),
            SetupReply::Handles(Err(text)) => SetupReplyView::Handles(Err(text@)),
            SetupReply::Connected(connected) => SetupReplyView::Connected(*connected),
            SetupReply::Ready(outcome) => SetupReplyView::Ready(outcome_view(*outcome)),
        }
    }
}

/// The set-up that fails in the backend, for the reason `text`.
pub open spec fn failed_with(text: Seq<char>) -> SetupStepView {
    SetupStepView::Finished(Err(PlayerErrorView::Backend(text)))
}

impl SetupStepView {
    /// Whether `reply` is of the kind that the step gets. The last step gets none.
    pub open spec fn is_answered_by<P, K>(self, reply: SetupReplyView<P, K>) -> bool {
        match self {
            SetupStepView::FindElement(_) | SetupStepView::MakeVideoSink(_) => reply is Found,
            SetupStepView::Configure(_) | SetupStepView::AttachVideoSink => reply is Taken,
            SetupStepView::SetUri(_) => reply is Handles,
            SetupStepView::ConnectSourceSetup => reply is Connected,
            SetupStepView::AwaitReady => reply is Ready,
            SetupStepView::Finished(_) => false,
            _ => reply is Done,
        }
    }

    /// The step that follows where the step succeeds.
    pub open spec fn on_success(self) -> SetupStepView {
        match self {
            SetupStepView::FindElement(Element::Playbin) => SetupStepView::FindElement(
                Element::Queue,
            ),
            SetupStepView::FindElement(_) => SetupStepView::CreatePlayer,
            SetupStepView::CreatePlayer => SetupStepView::Configure(POSITION_UPDATE_INTERVAL_MS),
            SetupStepView::Configure(_) => SetupStepView::MakeVideoSink(Element::Appsink),
            SetupStepView::MakeVideoSink(_) => SetupStepView::AttachVideoSink,
            SetupStepView::AttachVideoSink => SetupStepView::RestrictCaps(spec_video_caps()),
            SetupStepView::RestrictCaps(_) => SetupStepView::SetUri("appsrc://"@),
            SetupStepView::SetUri(_) => SetupStepView::ConnectHandlers,
            SetupStepView::ConnectHandlers => SetupStepView::ConnectSourceSetup,
            SetupStepView::ConnectSourceSetup => SetupStepView::WatchErrors,
            SetupStepView::Report(_) => SetupStepView::WatchErrors,
            SetupStepView::WatchErrors => SetupStepView::Pause,
            SetupStepView::Pause => SetupStepView::AwaitReady,
            SetupStepView::AwaitReady => SetupStepView::UnwatchErrors(Ok(())),
            SetupStepView::UnwatchErrors(outcome) => SetupStepView::Finished(outcome),
            SetupStepView::Finished(outcome) => SetupStepView::Finished(outcome),
        }
    }

    /// The step that follows `reply`.
    pub open spec fn next<P, K>(self, reply: SetupReplyView<P, K>) -> SetupStepView {
        match (self, reply) {
            (SetupStepView::FindElement(element), SetupReplyView::Found(false)) => failed_with(
                "Missing dependency: "@ + element.spec_name(),
            ),
            (SetupStepView::MakeVideoSink(_), SetupReplyView::Found(false)) => failed_with(
                "appsink creation failed"@,
            ),
            (_, SetupReplyView::Taken(Err(text))) => failed_with(text),
            (_, SetupReplyView::Handles(Err(text))) => failed_with(text),
            (_, SetupReplyView::Connected(false)) => SetupStepView::Report(
                crate::inner::source_setup_failed(),
            ),
            (_, SetupReplyView::Ready(outcome)) => SetupStepView::UnwatchErrors(outcome),
            _ => self.on_success(),
        }
    }
}

/// The failure with the pipeline's words.
fn backend_failure(text: String) -> (res: SetupStep)
    ensures
        res@ == failed_with(text@),
{
    SetupStep::Finished(Err(PlayerError::Backend(text)))
}

/// The step that follows `step` and `reply`.
pub(crate) fn next_step<P, K>(step: SetupStep, reply: SetupReply<P, K>) -> (res: (
    SetupStep,
    Option<(P, K)>,
))
    requires
        step@.is_answered_by(reply@),
    ensures
        res.0@ == step@.next(reply@),
        res.1 == match reply@ {
            SetupReplyView::Handles(Ok(handles)) => Some(handles),
            _ => None,
        },
{
    let next = match (step, reply) {
        (SetupStep::FindElement(element), SetupReply::Found(found)) => if !found {
            backend_failure("Missing dependency: ".to_owned().concat(element.name()))
        } else {
            match element {
                Element::Playbin => SetupStep::FindElement(Element::Queue),
                _ => SetupStep::CreatePlayer,
            }
        },
        (SetupStep::CreatePlayer, _) => SetupStep::Configure(POSITION_UPDATE_INTERVAL_MS),
        (SetupStep::Configure(_), SetupReply::Taken(taken)) => match taken {
            Ok(()) => SetupStep::MakeVideoSink(Element::Appsink),
            Err(text) => backend_failure(text),
        },
        (SetupStep::MakeVideoSink(_), SetupReply::Found(made)) => if made {
            SetupStep::AttachVideoSink
        } else {
            backend_failure("appsink creation failed".to_owned())
        },
        (SetupStep::AttachVideoSink, SetupReply::Taken(taken)) => match taken {
            Ok(()) => SetupStep::RestrictCaps(video_caps()),
            Err(text) => backend_failure(text),
        },
        (SetupStep::RestrictCaps(_), _) => SetupStep::SetUri(source_uri()),
        (SetupStep::SetUri(_), SetupReply::Handles(handles)) => match handles {
            Ok(handles) => return (SetupStep::ConnectHandlers, Some(handles)),
            Err(text) => backend_failure(text),
        },
        (SetupStep::ConnectHandlers, _) => SetupStep::ConnectSourceSetup,
        (SetupStep::ConnectSourceSetup, SetupReply::Connected(connected)) => if connected {
            SetupStep::WatchErrors
        } else {
            SetupStep::Report(PlayerError::Backend("Source setup failed".to_owned()))
        },
        (SetupStep::Report(_), _) => SetupStep::WatchErrors,
        (SetupStep::WatchErrors, _) => SetupStep::Pause,
        (SetupStep::Pause, _) => SetupStep::AwaitReady,
        (SetupStep::AwaitReady, SetupReply::Ready(outcome)) => SetupStep::UnwatchErrors(outcome),
        (SetupStep::UnwatchErrors(outcome), _) => SetupStep::Finished(outcome),
        (step, _) => step,
    };
    (next, None)
}

} // verus!
