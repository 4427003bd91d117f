use vstd::prelude::*;

use crate::task::Waker;

verus! {

/// An operation that was handed to the ring and that a task waits for.
///
/// `result` is `None` until the completion arrives; an error is an OS error
/// number.
#[derive(Clone, Copy, Debug, PartialEq, Eq)]
pub struct Event {
    pub waker: Waker,
    pub result: Option<Result<u32, i32>>,
}

/// A completion queue entry as the kernel wrote it: the user data of the
/// submission that it answers, and the raw result.
#[derive(Clone, Copy, Debug, PartialEq, Eq)]
pub struct Completion {
    pub user_data: u64,
    pub res: i32,
}

impl Completion {
    /// The id of the event that the completion answers.
    pub open spec fn event_id(self) -> usize {
        self.user_data as usize
    }

    /// What the operation gave: the kernel encodes an error as the negated OS
    /// error number.
    pub open spec fn result(self) -> Result<u32, i32> {
        if self.res >= 0 {
            Ok(self.res as u32)
        } else {
            Err((-self.res) as i32)
        }
    }

    /// The raw result has a meaning; the one number without a negation has none.
    pub open spec fn valid(self) -> bool {
        self.res != i32::MIN
    }

    /// Reads the completion: the event that it answers and what came of it.
    pub fn decode(&self) -> (decoded: (usize, Result<u32, i32>))
        requires
            self.valid(),
        ensures
            decoded == (self.event_id(), self.result()),
    {
        (self.user_data as usize, cqe_result(self.res))
    }
}

/// `iou::CQE::result`, on an entry that `iou::CQE::from_raw_parts` makes with the raw
/// result `res`: a result that is not negative is the success value, any other is the
/// negated number of an OS error, which `std::io::Error::raw_os_error` gives back. The
/// one result that has no negation is left out: `iou` negates it and overflows.
#[verifier::external_body]
fn cqe_result(res: i32) -> (result: Result<u32, i32>)
    requires
        res != i32::MIN,
    ensures
        result == (if res >= 0 {
            Ok::<u32, i32>(res as u32)
        } else {
            Err::<u32, i32>((-res) as i32)
        }),
{
    let cqe = iou::CQE::from_raw_parts(0, res, iou::cqe::CompletionFlags::empty());
    match cqe.result() {
        Ok(value) => Ok(value),
        Err(error) => Err(error.raw_os_error().unwrap()),
    }
}

} // verus!
