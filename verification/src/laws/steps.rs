//! What a set-up asks of the pipeline, step by step.

use vstd::prelude::*;

use crate::command::Rate;
use crate::error::{outcome_view, Outcome, PlayerError, PlayerErrorView};
use crate::inner::{error_report, source_setup_failed, PlayerInnerView};
use crate::player::GStreamerPlayerView;
use crate::setup::{
    Element, SetupReply, SetupReplyView, SetupStep, SetupStepView, VideoCaps, VideoCapsView,
};

use super::SetupRun;

verus! {

/// Whether `reply` tells that its step has succeeded.
pub open spec fn succeeds<P, K>(reply: SetupReplyView<P, K>) -> bool {
    match reply {
        SetupReplyView::Done => true,
        SetupReplyView::Found(found) => found,
        SetupReplyView::Taken(taken) => taken is Ok,
        SetupReplyView::Handles(handles) => handles is Ok,
        SetupReplyView::Connected(connected) => connected,
        SetupReplyView::Ready(outcome) => outcome is Ok,
    }
}

/// The steps of a set-up in which every step succeeds.
pub open spec fn success_path() -> Seq<SetupStepView> {
    seq![
        SetupStepView::FindElement(Element::Playbin),
        SetupStepView::FindElement(Element::Queue),
        SetupStepView::CreatePlayer,
        SetupStepView::Configure(500),
        SetupStepView::MakeVideoSink(Element::Appsink),
        SetupStepView::AttachVideoSink,
        SetupStepView::RestrictCaps(
            VideoCapsView {
                media_type: "video/x-raw"@,
                format: "BGRA"@,
                pixel_aspect_ratio: (1i32, 1i32),
            },
        ),
        SetupStepView::SetUri("appsrc://"@),
        SetupStepView::ConnectHandlers,
        SetupStepView::ConnectSourceSetup,
        SetupStepView::WatchErrors,
        SetupStepView::Pause,
        SetupStepView::AwaitReady,
        SetupStepView::UnwatchErrors(Ok(())),
        SetupStepView::Finished(Ok(())),
    ]
}

/// As long as every step succeeds, a set-up goes through all of its steps in
/// order, with the interval, the caps and the address that they carry, and ends
/// in success.
pub proof fn setup_goes_through_its_steps<P, S, K, O, R>(
    player: GStreamerPlayerView<P, S, K, O, R>,
    replies: Seq<SetupReplyView<P, K>>,
)
    requires
        player.inner is None,
        SetupRun::start(player).fits(replies),
        forall|i: int| 0 <= i < replies.len() ==> succeeds(#[trigger] replies[i]),
    ensures
        replies.len() < success_path().len(),
        SetupRun::start(player).after_replies(replies).step == success_path()[replies.len() as int],
    decreases replies.len(),
{
    if replies.len() > 0 {
        let shorter = replies.drop_last();
        assert forall|i: int| 0 <= i < shorter.len() implies succeeds(#[trigger] shorter[i]) by {
            assert(shorter[i] == replies[i]);
        }
        setup_goes_through_its_steps(player, shorter);
        assert(succeeds(replies[replies.len() - 1]));
        if replies.last() is Ready {
            assert(replies.last()->Ready_0->Ok_0 == ());
        }
    }
}

/// A step that fails ends the set-up with the words that tell why: the name of
/// the element that is missing, or what the pipeline has said, in full. A source
/// that cannot be listened to is reported instead, and the set-up goes on.
pub proof fn failures_are_told_in_full<P, K>(
    element: Element,
    step: SetupStepView,
    text: Seq<char>,
)
    ensures
        SetupStepView::FindElement(element).next(SetupReplyView::<P, K>::Found(false))
            == SetupStepView::Finished(
            Err(
                PlayerErrorView::Backend(
                    "Missing dependency: "@ + match element {
                        Element::Playbin => "playbin"@,
                        Element::Queue => "queue"@,
                        Element::Appsink => "appsink"@,
                    },
                ),
            ),
        ),
        SetupStepView::MakeVideoSink(element).next(SetupReplyView::<P, K>::Found(false))
            == SetupStepView::Finished(Err(PlayerErrorView::Backend("appsink creation failed"@))),
        step is Configure || step is AttachVideoSink ==> step.next(
            SetupReplyView::<P, K>::Taken(Err(text)),
        ) == SetupStepView::Finished(Err(PlayerErrorView::Backend(text))),
        step is SetUri ==> step.next(SetupReplyView::<P, K>::Handles(Err(text)))
            == SetupStepView::Finished(Err(PlayerErrorView::Backend(text))),
        step is ConnectSourceSetup ==> step.next(SetupReplyView::<P, K>::Connected(false))
            == SetupStepView::Report(PlayerErrorView::Backend("Source setup failed"@)),
        error_report(text) == Err::<(), PlayerErrorView>(PlayerErrorView::Backend(text)),
        source_setup_failed() == PlayerErrorView::Backend("Source setup failed"@),
{
}

/// What a step carries does not decide which step follows its success.
pub proof fn steps_follow_whatever_they_carry<P, K>(
    interval: u32,
    element: Element,
    caps: VideoCapsView,
    uri: Seq<char>,
    handles: (P, K),
)
    ensures
        element != Element::Playbin ==> SetupStepView::FindElement(element).next(
            SetupReplyView::<P, K>::Found(true),
        ) == SetupStepView::CreatePlayer,
        SetupStepView::Configure(interval).next(SetupReplyView::<P, K>::Taken(Ok(())))
            == SetupStepView::MakeVideoSink(Element::Appsink),
        SetupStepView::MakeVideoSink(element).next(SetupReplyView::<P, K>::Found(true))
            == SetupStepView::AttachVideoSink,
        SetupStepView::RestrictCaps(caps).next(SetupReplyView::<P, K>::Done)
            == SetupStepView::SetUri("appsrc://"@),
        SetupStepView::SetUri(uri).next(SetupReplyView::<P, K>::Handles(Ok(handles)))
            == SetupStepView::ConnectHandlers,
{
}

/// The outcome that is awaited is the one that the set-up ends with, once errors
/// are no longer watched.
pub proof fn awaited_outcome_is_the_last_word<P, K>(outcome: Result<(), PlayerErrorView>)
    ensures
        SetupStepView::AwaitReady.next(SetupReplyView::<P, K>::Ready(outcome))
            == SetupStepView::UnwatchErrors(outcome),
        SetupStepView::UnwatchErrors(outcome).next(SetupReplyView::<P, K>::Done)
            == SetupStepView::Finished(outcome),
        outcome matches Err(e) ==> SetupStepView::Report(e).next(SetupReplyView::<P, K>::Done)
            == SetupStepView::WatchErrors,
{
}

/// A player is set up by the reply that hands over the pipeline and its sink,
/// and by no other. It then holds these two and nothing that a client has set:
/// no source, no size, no stream type, no media, and the rate 1.0. Observers and
/// renderers stay.
pub proof fn handles_set_the_player_up<P, S, K, O, R>(
    player: GStreamerPlayerView<P, S, K, O, R>,
    reply: SetupReplyView<P, K>,
)
    ensures
        player.after_reply(reply).observers == player.observers,
        player.after_reply(reply).renderers == player.renderers,
        !(reply is Handles) || reply->Handles_0 is Err ==> player.after_reply(reply).inner
            == player.inner,
        reply matches SetupReplyView::Handles(Ok(handles)) ==> {
            &&& player.after_reply(reply).inner matches Some(inner)
            &&& inner.player == handles.0
            &&& inner.appsink == handles.1
            &&& inner.appsrc is None
            &&& inner.input_size == 0
            &&& inner.rate == Rate { bits: 0x3ff0_0000_0000_0000 }
            &&& inner.stream_type is None
            &&& inner.last_metadata is None
            &&& inner.need_data_report() is Some
        },
        player.first_step() is Finished <==> player.inner is Some,
        player.inner is Some ==> player.first_step() == SetupStepView::Finished(Ok(())),
{
}

/// The kind of reply that each step gets.
pub proof fn replies_fit_their_steps<P, K>(step: SetupStepView, reply: SetupReplyView<P, K>)
    ensures
        step is FindElement || step is MakeVideoSink ==> (step.is_answered_by(reply) <==> reply
            is Found),
        step is Configure || step is AttachVideoSink ==> (step.is_answered_by(reply) <==> reply
            is Taken),
        step is SetUri ==> (step.is_answered_by(reply) <==> reply is Handles),
        step is ConnectSourceSetup ==> (step.is_answered_by(reply) <==> reply is Connected),
        step is AwaitReady ==> (step.is_answered_by(reply) <==> reply is Ready),
        step is CreatePlayer || step is RestrictCaps || step is ConnectHandlers || step is Report
            || step is WatchErrors || step is Pause || step is UnwatchErrors ==> (
        step.is_answered_by(reply) <==> reply is Done),
        step is Finished ==> !step.is_answered_by(reply),
{
}

/// The model of a step is of the same kind and carries the same values.
pub proof fn steps_are_modelled(step: SetupStep, caps: VideoCaps)
    ensures
        step is FindElement <==> step@ is FindElement,
        step is CreatePlayer <==> step@ is CreatePlayer,
        step is Configure <==> step@ is Configure,
        step is MakeVideoSink <==> step@ is MakeVideoSink,
        step is AttachVideoSink <==> step@ is AttachVideoSink,
        step is RestrictCaps <==> step@ is RestrictCaps,
        step is SetUri <==> step@ is SetUri,
        step is ConnectHandlers <==> step@ is ConnectHandlers,
        step is ConnectSourceSetup <==> step@ is ConnectSourceSetup,
        step is Report <==> step@ is Report,
        step is WatchErrors <==> step@ is WatchErrors,
        step is Pause <==> step@ is Pause,
        step is AwaitReady <==> step@ is AwaitReady,
        step is UnwatchErrors <==> step@ is UnwatchErrors,
        step is Finished <==> step@ is Finished,
        step is FindElement ==> step@->FindElement_0 == step->FindElement_0,
        step is Configure ==> step@->Configure_0 == step->Configure_0,
        step is MakeVideoSink ==> step@->MakeVideoSink_0 == step->MakeVideoSink_0,
        step is RestrictCaps ==> step@->RestrictCaps_0 == step->RestrictCaps_0@,
        step is SetUri ==> step@->SetUri_0 == step->SetUri_0@,
        step is Report ==> step@->Report_0 == step->Report_0@,
        step is UnwatchErrors ==> step@->UnwatchErrors_0 == outcome_view(step->UnwatchErrors_0),
        step is Finished ==> step@->Finished_0 == outcome_view(step->Finished_0),
        caps@.media_type == caps.media_type@,
        caps@.format == caps.format@,
        caps@.pixel_aspect_ratio == caps.pixel_aspect_ratio,
        Element::Playbin.spec_name() == "playbin"@,
        Element::Queue.spec_name() == "queue"@,
        Element::Appsink.spec_name() == "appsink"@,
{
}

/// The model of a reply is of the same kind and carries the same values.
pub proof fn replies_are_modelled<P, K>(reply: SetupReply<P, K>)
    ensures
        reply is Done <==> reply@ is Done,
        reply is Found <==> reply@ is Found,
        reply is Taken <==> reply@ is Taken,
        reply is Handles <==> reply@ is Handles,
        reply is Connected <==> reply@ is Connected,
        reply is Ready <==> reply@ is Ready,
        reply is Found ==> reply@->Found_0 == reply->Found_0,
        reply is Connected ==> reply@->Connected_0 == reply->Connected_0,
        reply is Ready ==> reply@->Ready_0 == outcome_view(reply->Ready_0),
        reply is Taken ==> (reply@->Taken_0 is Ok <==> reply->Taken_0 is Ok),
        reply is Taken && reply->Taken_0 is Err ==> reply@->Taken_0->Err_0
            == reply->Taken_0->Err_0@,
        reply is Handles ==> (reply@->Handles_0 is Ok <==> reply->Handles_0 is Ok),
        reply is Handles && reply->Handles_0 is Ok ==> reply@->Handles_0->Ok_0
            == reply->Handles_0->Ok_0,
        reply is Handles && reply->Handles_0 is Err ==> reply@->Handles_0->Err_0
            == reply->Handles_0->Err_0@,
{
}

} // verus!
