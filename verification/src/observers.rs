//! Who is told of events.

use vstd::prelude::*;

use crate::event::{event_views, PlayerEvent, PlayerEventView};

verus! {

/// The observers of a player, in the order in which they registered.
#[derive(Debug)]
pub struct PlayerEventObserverList<O> {
    observers: Vec<O>,
}

impl<O> View for PlayerEventObserverList<O> {
    type V = Seq<O>;

    closed spec fn view(&self) -> Seq<O> {
        self.observers@
    }
}

/// The deliveries of `event` to `count` observers: one copy for each.
pub open spec fn deliveries(event: PlayerEventView, count: nat) -> Seq<PlayerEventView> {
    Seq::new(count, |i: int| event)
}

impl<O> PlayerEventObserverList<O> {
    pub fn new() -> (res: Self)
        ensures
            res@ == Seq::<O>::empty(),
    {
        Self { observers: Vec::new() }
    }

    pub fn register(&mut self, observer: O)
        ensures
            final(self)@ == old(self)@.push(observer),
    {
        self.observers.push(observer);
    }

    /// The observers, in the order in which they registered.
    pub fn observers(&self) -> (res: &Vec<O>)
        ensures
            res@ == self@,
    {
        &self.observers
    }

    /// A copy of `event` for each observer: the copy at an index is for the
    /// observer at that index.
    pub fn notify(&self, event: PlayerEvent) -> (res: Vec<PlayerEvent>)
        ensures
            event_views(res@) == deliveries(event@, self@.len()),
    {
        let mut res: Vec<PlayerEvent> = Vec::new();
        let mut i: usize = 0;
        while i < self.observers.len()
            invariant
                i <= self.observers.len(),
                res.len() == i,
                forall|j: int| 0 <= j < i ==> (#[trigger] res@[j])@ == event@,
            decreases self.observers.len() - i,
        {
            res.push(event.clone());
            i += 1;
        }
        assert(event_views(res@) =~= deliveries(event@, self@.len()));
        res
    }
}

} // verus!
