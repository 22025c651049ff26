//! What a player tells its observers.

use vstd::prelude::*;

use crate::metadata::{Metadata, MetadataView};
use crate::time::ClockTime;

verus! {

/// Whether the player plays.
#[derive(Clone, Copy, Debug, PartialEq, Eq, Structural)]
pub enum PlaybackState {
    Stopped,
    Paused,
    Playing,
}

/// The playback state as the pipeline reports it.
#[derive(Clone, Copy, Debug, PartialEq, Eq, Structural)]
pub enum PipelineState {
    Stopped,
    Buffering,
    Paused,
    Playing,
    Unknown(i32),
}

impl PipelineState {
    /// The state that observers are told of; none for states that are the
    /// pipeline's own affair.
    pub open spec fn reported(self) -> Option<PlaybackState> {
        match self {
            PipelineState::Stopped => Some(PlaybackState::Stopped),
            PipelineState::Paused => Some(PlaybackState::Paused),
            PipelineState::Playing => Some(PlaybackState::Playing),
            _ => None,
        }
    }
}

/// What observers are told.
#[derive(Debug, PartialEq)]
pub enum PlayerEvent {
    EndOfStream,
    /// The queue is full: stop pushing data.
    EnoughData,
    Error,
    FrameUpdated,
    MetadataUpdated(Metadata),
    /// Push the data from this offset on.
    SeekData(u64),
    /// The player has moved to this second.
    SeekDone(u64),
    /// The queue has room: push data.
    NeedData,
    /// The playback has reached this second.
    PositionChanged(u64),
    StateChanged(PlaybackState),
}

/// The model of a `PlayerEvent`.
pub enum PlayerEventView {
    EndOfStream,
    EnoughData,
    Error,
    FrameUpdated,
    MetadataUpdated(MetadataView),
    SeekData(u64),
    SeekDone(u64),
    NeedData,
    PositionChanged(u64),
    StateChanged(PlaybackState),
}

impl View for PlayerEvent {
    type V = PlayerEventView;

    open spec fn view(&self) -> PlayerEventView {
        match self {
            PlayerEvent::EndOfStream => PlayerEventView::EndOfStream,
            PlayerEvent::EnoughData => PlayerEventView::EnoughData,
            PlayerEvent::Error => PlayerEventView::Error,
            PlayerEvent::FrameUpdated => PlayerEventView::FrameUpdated,
            PlayerEvent::MetadataUpdated(metadata) => PlayerEventView::MetadataUpdated(metadata@),
            PlayerEvent::SeekData(offset) => PlayerEventView::SeekData(*offset),
            PlayerEvent::SeekDone(seconds) => PlayerEventView::SeekDone(*seconds),
            PlayerEvent::NeedData => PlayerEventView::NeedData,
            PlayerEvent::PositionChanged(seconds) => PlayerEventView::PositionChanged(*seconds),
            PlayerEvent::StateChanged(state) => PlayerEventView::StateChanged(*state),
        }
    }
}

impl Clone for PlayerEvent {
    fn clone(&self) -> (res: PlayerEvent)
        ensures
            res@ == self@,
    {
        match self {
            PlayerEvent::EndOfStream => PlayerEvent::EndOfStream,
            PlayerEvent::EnoughData => PlayerEvent::EnoughData,
            PlayerEvent::Error => PlayerEvent::Error,
            PlayerEvent::FrameUpdated => PlayerEvent::FrameUpdated,
            PlayerEvent::MetadataUpdated(metadata) => PlayerEvent::MetadataUpdated(
                metadata.clone(),
            ),
            PlayerEvent::SeekData(offset) => PlayerEvent::SeekData(*offset),
            PlayerEvent::SeekDone(seconds) => PlayerEvent::SeekDone(*seconds),
            PlayerEvent::NeedData => PlayerEvent::NeedData,
            PlayerEvent::PositionChanged(seconds) => PlayerEvent::PositionChanged(*seconds),
            PlayerEvent::StateChanged(state) => PlayerEvent::StateChanged(*state),
        }
    }
}

/// The model of an event that may not come.
pub open spec fn event_view(event: Option<PlayerEvent>) -> Option<PlayerEventView> {
    match event {
        Some(e) => Some(e@),
        None => None,
    }
}

/// The models of a list of events.
pub open spec fn event_views(events: Seq<PlayerEvent>) -> Seq<PlayerEventView> {
    events.map_values(|e: PlayerEvent| e@)
}

/// What observers are told when the pipeline changes its state.
pub fn state_changed(state: PipelineState) -> (res: Option<PlayerEvent>)
    ensures
        event_view(res) == match state.reported() {
            Some(s) => Some(PlayerEventView::StateChanged(s)),
            None => None,
        },
{
    let reported = match state {
        PipelineState::Stopped => Some(PlaybackState::Stopped),
        PipelineState::Paused => Some(PlaybackState::Paused),
        PipelineState::Playing => Some(PlaybackState::Playing),
        _ => None,
    };
    match reported {
        Some(s) => Some(PlayerEvent::StateChanged(s)),
        None => None,
    }
}

/// What observers are told when the playback reaches `position`.
pub fn position_updated(position: ClockTime) -> (res: Option<PlayerEvent>)
    ensures
        event_view(res) == match position.spec_seconds() {
            Some(seconds) => Some(PlayerEventView::PositionChanged(seconds)),
            None => None,
        },
{
    match position.seconds() {
        Some(seconds) => Some(PlayerEvent::PositionChanged(seconds)),
        None => None,
    }
}

/// What observers are told when a seek to `position` is done.
pub fn seek_done(position: ClockTime) -> (res: Option<PlayerEvent>)
    ensures
        event_view(res) == match position.spec_seconds() {
            Some(seconds) => Some(PlayerEventView::SeekDone(seconds)),
            None => None,
        },
{
    match position.seconds() {
        Some(seconds) => Some(PlayerEvent::SeekDone(seconds)),
        None => None,
    }
}

} // verus!
