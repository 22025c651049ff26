//! The decision core of a media player that plays through GStreamer.

pub mod cast;
pub mod command;
pub mod error;
pub mod event;
pub mod frame;
pub mod inner;
pub mod laws;
pub mod metadata;
pub mod observers;
pub mod player;
pub mod renderers;
pub mod setup;
pub mod time;
