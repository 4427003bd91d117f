use vstd::prelude::*;

verus! {

/// What polling a future gave.
#[derive(Debug, PartialEq, Eq)]
pub enum Poll<T> {
    /// The future is done, and this is its output.
    Ready(T),
    /// The future is not done; the waker that it was polled with is kept.
    Pending,
}

} // verus!
