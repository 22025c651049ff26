//! What a player asks of the pipeline, and what the pipeline answers.

use vstd::prelude::*;

use crate::time::ClockTime;

verus! {

/// A playback rate, as the bit pattern of a double-precision number.
#[derive(Clone, Copy, Debug, PartialEq, Eq, Structural)]
pub struct Rate {
    pub bits: u64,
}

/// The bit pattern of the rate 1.0.
pub const NORMAL_RATE_BITS: u64 = 0x3ff0_0000_0000_0000;

/// A volume, as the bit pattern of a double-precision number.
#[derive(Clone, Copy, Debug, PartialEq, Eq, Structural)]
pub struct Volume {
    pub bits: u64,
}

/// How the client feeds the media.
#[derive(Clone, Copy, Debug, PartialEq, Eq, Structural)]
pub enum StreamType {
    /// In one go, without seeking.
    Stream,
    /// In one go, seeking on request.
    Seekable,
    /// In pieces from anywhere.
    RandomAccess,
}

/// The stream type as the pipeline's source knows it.
#[derive(Clone, Copy, Debug, PartialEq, Eq, Structural)]
pub enum AppStreamType {
    Stream,
    Seekable,
    RandomAccess,
}

impl StreamType {
    /// The source's stream type of the same name.
    pub open spec fn for_source(self) -> AppStreamType {
        match self {
            StreamType::Stream => AppStreamType::Stream,
            StreamType::Seekable => AppStreamType::Seekable,
            StreamType::RandomAccess => AppStreamType::RandomAccess,
        }
    }
}

/// One request to the pipeline or its source.
#[derive(Clone, Copy, Debug, PartialEq, Eq, Structural)]
pub enum Command {
    Play,
    Pause,
    Stop,
    SetRate(Rate),
    SetVolume(Volume),
    Seek(ClockTime),
    /// Announce the size of the media to the source; -1 is a live source.
    SetSize(i64),
    SetStreamType(AppStreamType),
    /// Signal the end of the stream to the source.
    EndOfStream,
}

/// One step in preparing a new source.
#[derive(Clone, Copy, Debug, PartialEq, Eq, Structural)]
pub enum SourceCommand {
    /// Limit the queue to this many bytes.
    SetMaxBytes(u64),
    /// Whether a push waits for room in the queue.
    SetBlock(bool),
    /// Count positions in bytes.
    SetFormatBytes,
    SetSize(i64),
    SetStreamType(AppStreamType),
    /// Listen to what the source asks for.
    SetCallbacks,
}

/// How the pipeline answers a transfer of data.
#[derive(Clone, Copy, Debug, PartialEq, Eq, Structural)]
pub enum FlowReturn {
    Accepted,
    Eos,
    Error,
    Other,
}

/// How full the source's queue is, in bytes.
#[derive(Clone, Copy, Debug, PartialEq, Eq, Structural)]
pub struct QueueLevel {
    pub current_bytes: u64,
    pub max_bytes: u64,
}

impl QueueLevel {
    /// Whether `len` more bytes fit in the queue.
    pub open spec fn has_room(self, len: nat) -> bool {
        self.current_bytes + len <= self.max_bytes
    }
}

/// What came of handing data to the source.
#[derive(Clone, Copy, Debug, PartialEq, Eq, Structural)]
pub enum PushReply {
    /// No buffer could be made of the data.
    NoBuffer,
    /// The source's answer to the buffer.
    Flow(FlowReturn),
}

} // verus!
