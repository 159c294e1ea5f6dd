//! The hand-off queue between the buffers and the output.

use vstd::prelude::*;
use std::collections::VecDeque;
use crossbeam_epoch::Guard;

verus! {

/// An unbounded first-in, first-out queue. Every operation takes the
/// protected window in which it runs, so that none can be made outside one.
pub struct Queue<T> {
    items: VecDeque<T>,
}

impl<T> View for Queue<T> {
    type V = Seq<T>;

    /// The items that wait, the one that leaves next first.
    closed spec fn view(&self) -> Seq<T> {
        self.items@
    }
}

impl<T> Queue<T> {
    /// An empty queue.
    pub fn new() -> (queue: Self)
        ensures
            queue@ == Seq::<T>::empty(),
    {
        Queue { items: VecDeque::new() }
    }

    /// Appends `item` behind every item that waits.
    pub fn push(&mut self, item: T, window: &Guard)
        ensures
            final(self)@ == old(self)@.push(item),
    {
        self.items.push_back(item);
    }

    /// Takes the item that has waited longest, or `None` from an empty
    /// queue. It never waits for an item to arrive.
    pub fn try_pop(&mut self, window: &Guard) -> (item: Option<T>)
        ensures
            match item {
                Some(first) => {
                    &&& old(self)@.len() > 0
                    &&& first == old(self)@.first()
                    &&& final(self)@ == old(self)@.skip(1)
                },
                None => {
                    &&& old(self)@.len() == 0
                    &&& final(self)@ == old(self)@
                },
            },
    {
        let item = self.items.pop_front();
        proof {
            if item.is_some() {
                assert(self.items@ =~= old(self)@.skip(1));
            }
        }
        item
    }
}

} // verus!
