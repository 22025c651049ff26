//! What reaches observers, renderers and clients.

use vstd::prelude::*;

use crate::error::{outcome_view, Outcome, PlayerError, PlayerErrorView};
use crate::event::{event_view, event_views, PlayerEvent, PlayerEventView};
use crate::frame::{frame_views, Frame, FrameView, Mapping, Sample};
use crate::observers::deliveries;
use crate::player::deliveries_of;
use crate::renderers::copies;

verus! {

/// A sample holds a frame exactly if it carries a buffer, its picture size is
/// known and the buffer could be mapped and has a first plane. The frame then
/// has that size, with sizes beyond the range of signed numbers wrapped round,
/// and all bytes of that plane.
pub proof fn frames_are_taken_whole(sample: Sample)
    ensures
        sample.frame() is Some <==> {
            &&& sample.has_buffer
            &&& sample.info is Some
            &&& sample.mapping matches Mapping::Mapped(plane)
            &&& plane is Some
        },
        sample.frame() matches Some(frame) ==> {
            &&& frame.width as int % 0x1_0000_0000 == sample.info->0.width
            &&& frame.height as int % 0x1_0000_0000 == sample.info->0.height
            &&& sample.mapping matches Mapping::Mapped(Some(data))
            &&& frame.data == data@
        },
{
}

/// An event is delivered once to each observer, and the same to all. Where there
/// is no event nothing is delivered.
pub proof fn events_reach_each_observer(event: PlayerEventView, count: nat)
    ensures
        deliveries(event, count).len() == count,
        forall|i: int| 0 <= i < count ==> #[trigger] deliveries(event, count)[i] == event,
        deliveries_of(Some(event), count).len() == count,
        forall|i: int| 0 <= i < count ==> #[trigger] deliveries_of(Some(event), count)[i] == event,
        deliveries_of(None, count).len() == 0,
{
}

/// A frame is handed once to each renderer, and the same to all.
pub proof fn frames_reach_each_renderer(frame: FrameView, count: nat)
    ensures
        copies(frame, count).len() == count,
        forall|i: int| 0 <= i < count ==> #[trigger] copies(frame, count)[i] == frame,
{
}

/// Lists of events and of frames are modelled item by item.
pub proof fn lists_are_modelled(events: Seq<PlayerEvent>, frames: Seq<Frame>)
    ensures
        event_views(events).len() == events.len(),
        forall|i: int| 0 <= i < events.len() ==> #[trigger] event_views(events)[i] == events[i]@,
        frame_views(frames).len() == frames.len(),
        forall|i: int| 0 <= i < frames.len() ==> #[trigger] frame_views(frames)[i] == frames[i]@,
{
}

/// The model of an event is of the same kind and carries the same values.
pub proof fn events_are_modelled(event: PlayerEvent)
    ensures
        event is EndOfStream <==> event@ is EndOfStream,
        event is EnoughData <==> event@ is EnoughData,
        event is Error <==> event@ is Error,
        event is FrameUpdated <==> event@ is FrameUpdated,
        event is NeedData <==> event@ is NeedData,
        event is MetadataUpdated <==> event@ is MetadataUpdated,
        event is SeekData <==> event@ is SeekData,
        event is SeekDone <==> event@ is SeekDone,
        event is PositionChanged <==> event@ is PositionChanged,
        event is StateChanged <==> event@ is StateChanged,
        event is MetadataUpdated ==> event@->MetadataUpdated_0 == event->MetadataUpdated_0@,
        event is SeekData ==> event@->SeekData_0 == event->SeekData_0,
        event is SeekDone ==> event@->SeekDone_0 == event->SeekDone_0,
        event is PositionChanged ==> event@->PositionChanged_0 == event->PositionChanged_0,
        event is StateChanged ==> event@->StateChanged_0 == event->StateChanged_0,
        event_view(Some(event)) == Some(event@),
        event_view(None) is None,
{
}

/// The model of an error is of the same kind and carries the same words, and
/// that of an outcome tells success from each error.
pub proof fn errors_are_modelled(error: PlayerError)
    ensures
        error is Backend <==> error@ is Backend,
        error is BufferPushFailed <==> error@ is BufferPushFailed,
        error is EnoughData <==> error@ is EnoughData,
        error is EOSFailed <==> error@ is EOSFailed,
        error is NonSeekableStream <==> error@ is NonSeekableStream,
        error is SeekOutOfRange <==> error@ is SeekOutOfRange,
        error is Backend ==> error@->Backend_0 == error->Backend_0@,
        outcome_view(Outcome::Err(error)) == Err::<(), PlayerErrorView>(error@),
        outcome_view(Outcome::Ok(())) == Ok::<(), PlayerErrorView>(()),
{
}

} // verus!
