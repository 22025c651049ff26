//! Decoded video frames.

use std::sync::Arc;

use vstd::prelude::*;

use crate::cast::{signed_32, to_signed_32};

verus! {

/// A decoded video frame. Copies share the pixels.
#[derive(Debug)]
pub struct Frame {
    width: i32,
    height: i32,
    data: Arc<Vec<u8>>,
}

/// The model of a `Frame`.
#[verifier::ext_equal]
pub struct FrameView {
    pub width: i32,
    pub height: i32,
    pub data: Seq<u8>,
}

impl View for Frame {
    type V = FrameView;

    closed spec fn view(&self) -> FrameView {
        FrameView { width: self.width, height: self.height, data: self.data@ }
    }
}

/// Another handle on the same bytes: `Arc::clone`, which makes a new pointer to
/// the value that the old one points to.
#[verifier::external_body]
fn share(data: &Arc<Vec<u8>>) -> (res: Arc<Vec<u8>>)
    ensures
        res == *data,
{
    Arc::clone(data)
}

impl Clone for Frame {
    fn clone(&self) -> (res: Frame)
        ensures
            res@ == self@,
    {
        Frame { width: self.width, height: self.height, data: share(&self.data) }
    }
}

impl Frame {
    pub fn new(width: i32, height: i32, data: Arc<Vec<u8>>) -> (res: Frame)
        ensures
            res@ == (FrameView { width, height, data: data@ }),
    {
        Frame { width, height, data }
    }

    pub fn get_width(&self) -> (res: i32)
        ensures
            res == self@.width,
    {
        self.width
    }

    pub fn get_height(&self) -> (res: i32)
        ensures
            res == self@.height,
    {
        self.height
    }

    /// The pixels, row by row.
    pub fn get_data(&self) -> (res: Arc<Vec<u8>>)
        ensures
            res@ == self@.data,
    {
        share(&self.data)
    }
}

/// The picture size that a sample's caps describe.
#[derive(Clone, Copy, Debug, PartialEq, Eq, Structural)]
pub struct VideoInfo {
    pub width: u32,
    pub height: u32,
}

/// What came of mapping a sample's buffer for reading.
#[derive(Debug)]
pub enum Mapping {
    /// The buffer is not mapped.
    Unmapped,
    /// The buffer is mapped; its first plane, where it has one.
    Mapped(Option<Vec<u8>>),
}

/// A sample that the video sink hands out.
#[derive(Debug)]
pub struct Sample {
    /// Whether the sample carries a buffer.
    pub has_buffer: bool,
    /// What the caps say of the picture, where there are caps that describe video.
    pub info: Option<VideoInfo>,
    pub mapping: Mapping,
}

impl Sample {
    /// The frame in the sample: there is one where the sample carries a buffer
    /// of a known picture size that could be mapped and has a first plane.
    pub open spec fn frame(self) -> Option<FrameView> {
        match (self.has_buffer, self.info, self.mapping) {
            (true, Some(info), Mapping::Mapped(Some(data))) => Some(
                FrameView {
                    width: signed_32(info.width),
                    height: signed_32(info.height),
                    data: data@,
                },
            ),
            _ => None,
        }
    }
}

/// The frame in `sample`.
pub fn frame_from_sample(sample: Sample) -> (res: Result<Frame, ()>)
    ensures
        match res {
            Ok(frame) => sample.frame() == Some(frame@),
            Err(()) => sample.frame() is None,
        },
{
    if !sample.has_buffer {
        return Err(());
    }
    let info = match sample.info {
        Some(info) => info,
        None => return Err(()),
    };
    let data = match sample.mapping {
        Mapping::Mapped(Some(data)) => data,
        _ => return Err(()),
    };
    Ok(Frame::new(to_signed_32(info.width), to_signed_32(info.height), Arc::new(data)))
}

/// The models of a list of frames.
pub open spec fn frame_views(frames: Seq<Frame>) -> Seq<FrameView> {
    frames.map_values(|f: Frame| f@)
}

} // verus!
