//! Why a player refuses or fails a request.

use vstd::prelude::*;

verus! {

/// Why a player refuses or fails a request.
#[derive(Debug, PartialEq, Eq)]
pub enum PlayerError {
    /// The backend failed; the text says how.
    Backend(String),
    /// The data could not be handed to the source.
    BufferPushFailed,
    /// The source's queue has no room for the data.
    EnoughData,
    /// The end of the stream could not be signalled.
    EOSFailed,
    /// The media cannot be seeked.
    NonSeekableStream,
    /// The seek goes beyond the end of the media.
    SeekOutOfRange,
}

/// The model of a `PlayerError`.
pub enum PlayerErrorView {
    Backend(Seq<char>),
    BufferPushFailed,
    EnoughData,
    EOSFailed,
    NonSeekableStream,
    SeekOutOfRange,
}

impl View for PlayerError {
    type V = PlayerErrorView;

    open spec fn view(&self) -> PlayerErrorView {
        match self {
            PlayerError::Backend(text) => PlayerErrorView::Backend(text@),
            PlayerError::BufferPushFailed => PlayerErrorView::BufferPushFailed,
            PlayerError::EnoughData => PlayerErrorView::EnoughData,
            PlayerError::EOSFailed => PlayerErrorView::EOSFailed,
            PlayerError::NonSeekableStream => PlayerErrorView::NonSeekableStream,
            PlayerError::SeekOutOfRange => PlayerErrorView::SeekOutOfRange,
        }
    }
}

impl Clone for PlayerError {
    fn clone(&self) -> (res: PlayerError)
        ensures
            res == *self,
    {
        match self {
            PlayerError::Backend(text) => PlayerError::Backend(text.clone()),
            PlayerError::BufferPushFailed => PlayerError::BufferPushFailed,
            PlayerError::EnoughData => PlayerError::EnoughData,
            PlayerError::EOSFailed => PlayerError::EOSFailed,
            PlayerError::NonSeekableStream => PlayerError::NonSeekableStream,
            PlayerError::SeekOutOfRange => PlayerError::SeekOutOfRange,
        }
    }
}

/// What comes of a request or a set-up.
pub type Outcome = Result<(), PlayerError>;

/// The model of an outcome.
pub open spec fn outcome_view(outcome: Outcome) -> Result<(), PlayerErrorView> {
    match outcome {
        Ok(()) => Ok(()),
        Err(e) => Err(e@),
    }
}

} // verus!
