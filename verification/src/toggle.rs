use vstd::prelude::*;

use crate::poll::Poll;

verus! {

/// A future that is pending once and then done. It wakes nobody.
#[derive(Debug, PartialEq, Eq)]
pub struct ToggleFuture {
    pub toggled: bool,
}

impl ToggleFuture {
    /// A future that was not polled.
    pub fn new() -> (future: ToggleFuture)
        ensures
            future == (ToggleFuture { toggled: false }),
    {
        ToggleFuture { toggled: false }
    }

    /// What polling the future does to it, and what it gives.
    pub open spec fn polled(self) -> (ToggleFuture, Poll<()>) {
        (
            ToggleFuture { toggled: true },
            if self.toggled {
                Poll::Ready(())
            } else {
                Poll::Pending
            },
        )
    }

    /// Polls the future.
    pub fn poll(&mut self) -> (poll: Poll<()>)
        ensures
            (*final(self), poll) == old(self).polled(),
    {
        if self.toggled {
            Poll::Ready(())
        } else {
            self.toggled = true;
            Poll::Pending
        }
    }
}

} // verus!
