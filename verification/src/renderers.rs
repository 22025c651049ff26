//! Who gets the decoded frames.

use vstd::prelude::*;

use crate::frame::{frame_from_sample, frame_views, Frame, FrameView, Sample};

verus! {

/// The renderers of a player, in the order in which they registered.
#[derive(Debug)]
pub struct FrameRendererList<R> {
    renderers: Vec<R>,
}

impl<R> View for FrameRendererList<R> {
    type V = Seq<R>;

    closed spec fn view(&self) -> Seq<R> {
        self.renderers@
    }
}

/// The copies of `frame` for `count` renderers: one for each.
pub open spec fn copies(frame: FrameView, count: nat) -> Seq<FrameView> {
    Seq::new(count, |i: int| frame)
}

impl<R> FrameRendererList<R> {
    pub fn new() -> (res: Self)
        ensures
            res@ == Seq::<R>::empty(),
    {
        Self { renderers: Vec::new() }
    }

    pub fn register(&mut self, renderer: R)
        ensures
            final(self)@ == old(self)@.push(renderer),
    {
        self.renderers.push(renderer);
    }

    /// The renderers, in the order in which they registered.
    pub fn renderers(&self) -> (res: &Vec<R>)
        ensures
            res@ == self@,
    {
        &self.renderers
    }

    /// A copy of the frame in `sample` for each renderer: the copy at an index
    /// is for the renderer at that index. Fails where the sample holds no frame.
    pub fn render(&self, sample: Sample) -> (res: Result<Vec<Frame>, ()>)
        ensures
            match (res, sample.frame()) {
                (Ok(frames), Some(frame)) => frame_views(frames@) == copies(frame, self@.len()),
                (Err(()), None) => true,
                _ => false,
            },
    {
        let frame = match frame_from_sample(sample) {
            Ok(frame) => frame,
            Err(()) => return Err(()),
        };
        let mut res: Vec<Frame> = Vec::new();
        let mut i: usize = 0;
        while i < self.renderers.len()
            invariant
                i <= self.renderers.len(),
                res.len() == i,
                forall|j: int| 0 <= j < i ==> (#[trigger] res@[j])@ == frame@,
            decreases self.renderers.len() - i,
        {
            res.push(frame.clone());
            i += 1;
        }
        assert(frame_views(res@) =~= copies(frame@, self@.len()));
        Ok(res)
    }
}

} // verus!
