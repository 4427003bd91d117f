use vstd::prelude::*;

use crate::event::Event;
use crate::poll::Poll;
use crate::runtime::{Runtime, RuntimeState};
use crate::task::Waker;
use crate::timespec::Timespec;

verus! {

/// How many submissions the ring has room for.
pub const RING_ENTRIES: u32 = 16;

/// What a socket is watched for.
#[derive(Clone, Copy, Debug, PartialEq, Eq)]
pub enum Interest {
    Readable,
    Writable,
}

/// The address of a socket.
#[derive(Clone, Debug, PartialEq, Eq)]
pub enum Address {
    V4 { octets: [u8; 4], port: u16 },
    V6 { octets: [u8; 16], port: u16, flow_info: u32, scope_id: u32 },
    /// The bytes of an address of another family, as the kernel reads them.
    Other(Vec<u8>),
}

/// An operation for the ring.
#[derive(Clone, Debug, PartialEq, Eq)]
pub enum Operation {
    /// Complete after that time, or after that many other completions where
    /// `events` is not zero.
    Timeout { timespec: Timespec, events: u32, flags: u32 },
    /// Accept a connection on the listening socket. The peer's address is written
    /// to the caller's storage where there is one.
    Accept { fd: i32, address: bool, sock_flags: i32 },
    /// Connect the socket to the address.
    Connect { fd: i32, address: Address },
    /// Complete when the socket is ready for what it is watched for.
    PollAdd { fd: i32, interest: Interest },
}

/// An operation, and the user data that its completion will carry.
#[derive(Clone, Debug, PartialEq, Eq)]
pub struct Submission {
    pub operation: Operation,
    pub user_data: u64,
}

/// How far an [`EventFuture`] has come.
#[derive(Clone, Copy, Debug, PartialEq, Eq)]
pub enum State {
    /// It has not been polled.
    Waiting,
    /// It is registered as the event with that id.
    Pending(usize),
}

/// Waits for the completion of one operation.
#[derive(Debug, PartialEq, Eq)]
pub struct EventFuture {
    pub event_id: usize,
    pub state: State,
}

impl EventFuture {
    /// The future of an operation that has just been numbered.
    pub open spec fn begun(event_id: usize) -> EventFuture {
        EventFuture { event_id, state: State::Waiting }
    }

    /// The future can be polled: either it was numbered and not polled before, or its
    /// event is still registered. A future that has given its result cannot.
    pub open spec fn pollable(self, runtime: RuntimeState) -> bool {
        match self.state {
            State::Waiting => runtime.issued(self.event_id),
            State::Pending(event_id) => runtime.events.contains_key(event_id),
        }
    }

    /// What polling the future does to it and to the runtime, and what it gives.
    ///
    /// The first poll registers the event, with the waker of that poll; no later
    /// poll changes the waker. When the result has arrived, a poll takes it and the
    /// event is forgotten.
    pub open spec fn polled(self, runtime: RuntimeState, waker: Waker) -> (
        EventFuture,
        RuntimeState,
        Poll<Result<u32, i32>>,
    ) {
        match self.state {
            State::Waiting => (
                EventFuture { state: State::Pending(self.event_id), ..self },
                runtime.event_registered(self.event_id, waker),
                Poll::Pending,
            ),
            State::Pending(event_id) => match runtime.events[event_id].result {
                Some(result) => (self, runtime.event_collected(event_id), Poll::Ready(result)),
                None => (self, runtime, Poll::Pending),
            },
        }
    }

    /// Polls the future on behalf of the waker's task.
    pub fn poll(&mut self, runtime: &mut Runtime, waker: Waker) -> (poll: Poll<Result<u32, i32>>)
        requires
            old(runtime)@.wf(),
            old(self).pollable(old(runtime)@),
        ensures
            (*final(self), final(runtime)@, poll) == old(self).polled(old(runtime)@, waker),
            final(runtime)@.wf(),
            poll is Pending ==> final(self).pollable(final(runtime)@),
    {
        match self.state {
            State::Waiting => {
                runtime.register_event(self.event_id, waker);
                self.state = State::Pending(self.event_id);
                Poll::Pending
            },
            State::Pending(event_id) => {
                match runtime.event(event_id) {
                    Some(Event { result: Some(result), .. }) => {
                        runtime.collect_event(event_id);
                        Poll::Ready(result)
                    },
                    _ => Poll::Pending,
                }
            },
        }
    }

    /// Whether the future can be polled.
    pub fn is_pollable(&self, runtime: &Runtime) -> (pollable: bool)
        ensures
            pollable == self.pollable(runtime@),
    {
        match self.state {
            State::Waiting => runtime.is_issued(self.event_id),
            State::Pending(event_id) => runtime.event(event_id).is_some(),
        }
    }
}

/// Waits for the completion of an operation whose own future was dropped, so that what
/// the kernel still writes to can be kept until then. The result is discarded.
#[derive(Debug, PartialEq, Eq)]
pub struct EventCompletion {
    pub target_event_id: usize,
    pub primed: bool,
}

impl EventCompletion {
    /// The future can be polled: its event was numbered and the future not polled
    /// before, or its event is still registered.
    pub open spec fn pollable(self, runtime: RuntimeState) -> bool {
        if self.primed {
            runtime.events.contains_key(self.target_event_id)
        } else {
            runtime.issued(self.target_event_id)
        }
    }

    /// What polling the future does to it and to the runtime, and what it gives.
    ///
    /// A result that has arrived is taken and the event forgotten. Otherwise the first
    /// poll has its waker wait for the event, whoever waited before.
    pub open spec fn polled(self, runtime: RuntimeState, waker: Waker) -> (
        EventCompletion,
        RuntimeState,
        Poll<()>,
    ) {
        let id = self.target_event_id;
        if runtime.events.contains_key(id) && runtime.events[id].result is Some {
            (self, runtime.event_collected(id), Poll::Ready(()))
        } else if self.primed {
            (self, runtime, Poll::Pending)
        } else {
            (
                EventCompletion { primed: true, ..self },
                runtime.event_collected(id).event_registered(id, waker),
                Poll::Pending,
            )
        }
    }

    /// Polls the future on behalf of the waker's task.
    pub fn poll(&mut self, runtime: &mut Runtime, waker: Waker) -> (poll: Poll<()>)
        requires
            old(runtime)@.wf(),
            old(self).pollable(old(runtime)@),
        ensures
            (*final(self), final(runtime)@, poll) == old(self).polled(old(runtime)@, waker),
            final(runtime)@.wf(),
            poll is Pending ==> final(self).pollable(final(runtime)@),
    {
        let event_id: usize = self.target_event_id;
        if let Some(Event { result: Some(_), .. }) = runtime.event(event_id) {
            runtime.collect_event(event_id);
            return Poll::Ready(());
        }
        if !self.primed {
            runtime.collect_event(event_id);
            runtime.register_event(event_id, waker);
            self.primed = true;
        }
        Poll::Pending
    }

    /// Whether the future can be polled.
    pub fn is_pollable(&self, runtime: &Runtime) -> (pollable: bool)
        ensures
            pollable == self.pollable(runtime@),
    {
        if self.primed {
            runtime.event(self.target_event_id).is_some()
        } else {
            runtime.is_issued(self.target_event_id)
        }
    }
}

/// Numbers an event, and gives the submission and the future that go with it.
fn submit(runtime: &mut Runtime, operation: Operation) -> (submitted: (Submission, EventFuture))
    requires
        old(runtime)@.wf(),
        old(runtime)@.has_id(),
    ensures
        submitted == submission(old(runtime)@, operation),
        submitted.0.user_data != u64::MAX,
        submitted.1.pollable(final(runtime)@),
        final(runtime)@ == old(runtime)@.event_id_issued(),
        final(runtime)@.wf(),
{
    let event_id: usize = runtime.get_event_id();
    (
        Submission { operation, user_data: event_id as u64 },
        EventFuture { event_id, state: State::Waiting },
    )
}

/// The submission that asks for `operation`, and the future of its completion: both
/// go by the next id.
pub open spec fn submission(runtime: RuntimeState, operation: Operation) -> (
    Submission,
    EventFuture,
) {
    (
        Submission { operation, user_data: runtime.next_id as u64 },
        EventFuture::begun(runtime.next_id as usize),
    )
}

/// Asks for a completion after that time.
pub fn timeout_prime(runtime: &mut Runtime, timespec: &Timespec) -> (submitted: (
    Submission,
    EventFuture,
))
    requires
        old(runtime)@.wf(),
        old(runtime)@.has_id(),
    ensures
        submitted == submission(
            old(runtime)@,
            Operation::Timeout { timespec: *timespec, events: 0, flags: 0 },
        ),
        submitted.0.user_data != u64::MAX,
        submitted.1.pollable(final(runtime)@),
        final(runtime)@ == old(runtime)@.event_id_issued(),
        final(runtime)@.wf(),
{
    submit(runtime, Operation::Timeout { timespec: *timespec, events: 0, flags: 0 })
}

/// Asks for a connection on a listening socket, and for its peer's address where
/// `address` says so.
pub fn accept(runtime: &mut Runtime, fd: i32, address: bool) -> (submitted: (
    Submission,
    EventFuture,
))
    requires
        old(runtime)@.wf(),
        old(runtime)@.has_id(),
    ensures
        submitted == submission(old(runtime)@, Operation::Accept { fd, address, sock_flags: 0 }),
        submitted.0.user_data != u64::MAX,
        submitted.1.pollable(final(runtime)@),
        final(runtime)@ == old(runtime)@.event_id_issued(),
        final(runtime)@.wf(),
{
    submit(runtime, Operation::Accept { fd, address, sock_flags: 0 })
}

/// Asks for the socket to be connected to the address.
pub fn connect(runtime: &mut Runtime, fd: i32, address: Address) -> (submitted: (
    Submission,
    EventFuture,
))
    requires
        old(runtime)@.wf(),
        old(runtime)@.has_id(),
    ensures
        submitted == submission(old(runtime)@, Operation::Connect { fd, address }),
        submitted.0.user_data != u64::MAX,
        submitted.1.pollable(final(runtime)@),
        final(runtime)@ == old(runtime)@.event_id_issued(),
        final(runtime)@.wf(),
{
    submit(runtime, Operation::Connect { fd, address })
}

/// Asks for a completion when the socket is ready.
pub fn poll_add(runtime: &mut Runtime, fd: i32, interest: Interest) -> (submitted: (
    Submission,
    EventFuture,
))
    requires
        old(runtime)@.wf(),
        old(runtime)@.has_id(),
    ensures
        submitted == submission(old(runtime)@, Operation::PollAdd { fd, interest }),
        submitted.0.user_data != u64::MAX,
        submitted.1.pollable(final(runtime)@),
        final(runtime)@ == old(runtime)@.event_id_issued(),
        final(runtime)@.wf(),
{
    submit(runtime, Operation::PollAdd { fd, interest })
}

} // verus!
