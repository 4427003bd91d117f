use vstd::prelude::*;

use crate::poll::Poll;
use crate::runtime::{Runtime, RuntimeState};
use crate::system::{
    self, Address, EventCompletion, EventFuture, Interest, Operation, Submission,
};
use crate::task::Waker;

pub mod tcp;

verus! {

/// Whether a socket waits to be ready.
#[derive(Debug, PartialEq, Eq)]
pub enum TcpStreamState {
    Idle,
    /// The ring watches the socket.
    PollRegistered(EventFuture),
}

/// What polling a socket gave.
#[derive(Debug, PartialEq, Eq)]
pub enum SocketPoll {
    /// The socket is to be watched: prepare this submission. The task is ready and will
    /// poll again; for now it is pending.
    Registered(Submission),
    /// The socket is watched and not ready.
    Pending,
    /// The socket is ready, with these poll events: read or write now.
    Ready(u32),
    /// Watching the socket failed with this OS error.
    Failed(i32),
    /// Watching the socket failed in passing: the task is ready and will poll again;
    /// for now it is pending. Only a stream that is polled to write gives this.
    Retry,
}

impl TcpStreamState {
    /// The socket can be polled: an idle one if the watch can be numbered, a watched
    /// one while its event is registered.
    pub open spec fn pollable(self, runtime: RuntimeState) -> bool {
        match self {
            TcpStreamState::Idle => runtime.has_id(),
            TcpStreamState::PollRegistered(event) => event.pollable(runtime),
        }
    }

    /// What polling a socket does to its state and to the runtime, and what it gives.
    ///
    /// An idle socket is watched from then on, and the task polls again right away to
    /// register the event. A watched socket is idle again as soon as the watch has
    /// ended, well or not.
    pub open spec fn polled(
        self,
        fd: i32,
        interest: Interest,
        runtime: RuntimeState,
        waker: Waker,
    ) -> (TcpStreamState, RuntimeState, SocketPoll) {
        match self {
            TcpStreamState::Idle => {
                let (submission, event) = system::submission(
                    runtime,
                    Operation::PollAdd { fd, interest },
                );
                (
                    TcpStreamState::PollRegistered(event),
                    runtime.event_id_issued().made_ready(waker.task_id),
                    SocketPoll::Registered(submission),
                )
            },
            TcpStreamState::PollRegistered(event) => {
                let (next, after, poll) = event.polled(runtime, waker);
                match poll {
                    Poll::Pending => (
                        TcpStreamState::PollRegistered(next),
                        after,
                        SocketPoll::Pending,
                    ),
                    Poll::Ready(Ok(events)) => (
                        TcpStreamState::Idle,
                        after,
                        SocketPoll::Ready(events),
                    ),
                    Poll::Ready(Err(error)) => (
                        TcpStreamState::Idle,
                        after,
                        SocketPoll::Failed(error),
                    ),
                }
            },
        }
    }

    /// What polling a socket to write does to its state and to the runtime, and what it
    /// gives. A watch that fails with an error of a kind that no write may end in is
    /// begun anew: the socket is idle and its task is ready.
    pub open spec fn write_polled(self, fd: i32, runtime: RuntimeState, waker: Waker) -> (
        TcpStreamState,
        RuntimeState,
        SocketPoll,
    ) {
        let (next, after, poll) = self.polled(fd, Interest::Writable, runtime, waker);
        match poll {
            SocketPoll::Failed(error) if ErrorKind::of(error) != ErrorKind::Other => (
                TcpStreamState::Idle,
                after.made_ready(waker.task_id),
                SocketPoll::Retry,
            ),
            _ => (next, after, poll),
        }
    }

    /// Polls the socket with that descriptor on behalf of the waker's task.
    pub fn poll(
        &mut self,
        fd: i32,
        interest: Interest,
        runtime: &mut Runtime,
        waker: Waker,
    ) -> (poll: SocketPoll)
        requires
            old(runtime)@.wf(),
            old(self).pollable(old(runtime)@),
        ensures
            (*final(self), final(runtime)@, poll) == old(self).polled(
                fd,
                interest,
                old(runtime)@,
                waker,
            ),
            final(runtime)@.wf(),
            poll is Registered || poll is Pending ==> final(self).pollable(final(runtime)@),
    {
        match self {
            TcpStreamState::Idle => {
                let (submission, event) = system::poll_add(runtime, fd, interest);
                *self = TcpStreamState::PollRegistered(event);
                runtime.wake_by_ref(&waker);
                SocketPoll::Registered(submission)
            },
            TcpStreamState::PollRegistered(event) => {
                match event.poll(runtime, waker) {
                    Poll::Pending => SocketPoll::Pending,
                    Poll::Ready(Ok(events)) => {
                        *self = TcpStreamState::Idle;
                        SocketPoll::Ready(events)
                    },
                    Poll::Ready(Err(error)) => {
                        *self = TcpStreamState::Idle;
                        SocketPoll::Failed(error)
                    },
                }
            },
        }
    }

    /// Whether the socket can be polled.
    pub fn is_pollable(&self, runtime: &Runtime) -> (pollable: bool)
        ensures
            pollable == self.pollable(runtime@),
    {
        match self {
            TcpStreamState::Idle => runtime.has_id(),
            TcpStreamState::PollRegistered(event) => event.is_pollable(runtime),
        }
    }
}

/// The OS error of an operation that was interrupted by a signal.
pub const EINTR: i32 = 4;

/// The OS error of an operation that would block.
pub const EAGAIN: i32 = 11;

/// The kinds of error that a write is told apart by.
#[derive(Clone, Copy, Debug, PartialEq, Eq)]
pub enum ErrorKind {
    WouldBlock,
    Interrupted,
    Other,
}

impl ErrorKind {
    /// The kind of an OS error.
    pub open spec fn of(error: i32) -> ErrorKind {
        if error == EAGAIN {
            ErrorKind::WouldBlock
        } else if error == EINTR {
            ErrorKind::Interrupted
        } else {
            ErrorKind::Other
        }
    }

    /// The kind of an OS error.
    pub fn from_os_error(error: i32) -> (kind: ErrorKind)
        ensures
            kind == ErrorKind::of(error),
    {
        if error == EAGAIN {
            ErrorKind::WouldBlock
        } else if error == EINTR {
            ErrorKind::Interrupted
        } else {
            ErrorKind::Other
        }
    }
}

/// What a poll gives whose write came to this: a write that would block or was
/// interrupted is tried again.
pub open spec fn write_finished<E>(written: Result<usize, (ErrorKind, E)>) -> Poll<
    Result<usize, E>,
> {
    match written {
        Ok(count) => Poll::Ready(Ok(count)),
        Err((ErrorKind::Other, error)) => Poll::Ready(Err(error)),
        Err(_) => Poll::Pending,
    }
}

/// A connected socket.
#[derive(Debug, PartialEq, Eq)]
pub struct TcpStream {
    pub fd: i32,
    pub state: TcpStreamState,
}

impl TcpStream {
    /// The idle stream of a socket.
    pub fn from_fd(fd: i32) -> (stream: TcpStream)
        ensures
            stream == (TcpStream { fd, state: TcpStreamState::Idle }),
    {
        TcpStream { fd, state: TcpStreamState::Idle }
    }

    /// The stream's socket.
    pub fn as_raw_fd(&self) -> (fd: i32)
        ensures
            fd == self.fd,
    {
        self.fd
    }

    /// Gives up the stream and leaves its socket open.
    pub fn into_raw_fd(self) -> (fd: i32)
        ensures
            fd == self.fd,
    {
        self.fd
    }

    /// Asks for the socket to be connected to the address, and gives the future of that.
    pub fn connect(runtime: &mut Runtime, fd: i32, address: Address) -> (submitted: (
        Submission,
        Connect,
    ))
        requires
            old(runtime)@.wf(),
            old(runtime)@.has_id(),
        ensures
            ({
                let (submission, future) = system::submission(
                    old(runtime)@,
                    Operation::Connect { fd, address },
                );
                submitted == (
                    submission,
                    Connect { event_id: future.event_id, future, completed: false },
                )
            }),
            submitted.1.future.pollable(final(runtime)@),
            final(runtime)@ == old(runtime)@.event_id_issued(),
            final(runtime)@.wf(),
    {
        let (submission, future) = system::connect(runtime, fd, address);
        (submission, Connect { event_id: future.event_id, future, completed: false })
    }

    /// The stream of a socket that was to be connected: what a success says besides is
    /// not looked at.
    pub fn connected<E>(fd: i32, result: Result<u32, E>) -> (stream: Result<TcpStream, E>)
        ensures
            stream == (match result {
                Ok(_) => Ok::<TcpStream, E>(TcpStream { fd, state: TcpStreamState::Idle }),
                Err(error) => Err::<TcpStream, E>(error),
            }),
    {
        match result {
            Ok(_) => Ok(TcpStream::from_fd(fd)),
            Err(error) => Err(error),
        }
    }

    /// Polls for something to read. On [`SocketPoll::Ready`] the caller reads and gives
    /// what came of it.
    pub fn poll_read(&mut self, runtime: &mut Runtime, waker: Waker) -> (poll: SocketPoll)
        requires
            old(runtime)@.wf(),
            old(self).state.pollable(old(runtime)@),
        ensures
            (final(self).state, final(runtime)@, poll) == old(self).state.polled(
                old(self).fd,
                Interest::Readable,
                old(runtime)@,
                waker,
            ),
            final(self).fd == old(self).fd,
            final(runtime)@.wf(),
            poll is Registered || poll is Pending ==> final(self).state.pollable(final(runtime)@),
    {
        self.state.poll(self.fd, Interest::Readable, runtime, waker)
    }

    /// Polls for room to write. On [`SocketPoll::Ready`] the caller writes and hands
    /// what came of it to [`TcpStream::finish_write`]. Whatever came of the watch, no
    /// error of the kinds `WouldBlock` and `Interrupted` is handed on.
    pub fn poll_write(&mut self, runtime: &mut Runtime, waker: Waker) -> (poll: SocketPoll)
        requires
            old(runtime)@.wf(),
            old(self).state.pollable(old(runtime)@),
        ensures
            (final(self).state, final(runtime)@, poll) == old(self).state.write_polled(
                old(self).fd,
                old(runtime)@,
                waker,
            ),
            poll != SocketPoll::Failed(EAGAIN),
            poll != SocketPoll::Failed(EINTR),
            final(self).fd == old(self).fd,
            final(runtime)@.wf(),
            poll is Registered || poll is Pending ==> final(self).state.pollable(final(runtime)@),
    {
        match self.state.poll(self.fd, Interest::Writable, runtime, waker) {
            SocketPoll::Failed(error) => match ErrorKind::from_os_error(error) {
                ErrorKind::Other => SocketPoll::Failed(error),
                _ => {
                    runtime.wake_by_ref(&waker);
                    SocketPoll::Retry
                },
            },
            poll => poll,
        }
    }

    /// Decides what a write gives; the stream is idle afterwards. A write that would
    /// block or was interrupted is tried again: the task is ready, and for now it is
    /// pending. No error of these two kinds is handed on.
    pub fn finish_write<E>(
        &mut self,
        runtime: &mut Runtime,
        waker: Waker,
        written: Result<usize, (ErrorKind, E)>,
    ) -> (poll: Poll<Result<usize, E>>)
        requires
            old(runtime)@.wf(),
        ensures
            *final(self) == (TcpStream { state: TcpStreamState::Idle, ..*old(self) }),
            poll == write_finished(written),
            final(runtime)@ == (if poll is Pending {
                old(runtime)@.made_ready(waker.task_id)
            } else {
                old(runtime)@
            }),
            final(runtime)@.wf(),
    {
        self.state = TcpStreamState::Idle;
        match written {
            Ok(count) => Poll::Ready(Ok(count)),
            Err((ErrorKind::WouldBlock, _)) => {
                runtime.wake_by_ref(&waker);
                Poll::Pending
            },
            Err((ErrorKind::Interrupted, _)) => {
                runtime.wake_by_ref(&waker);
                Poll::Pending
            },
            Err((ErrorKind::Other, error)) => Poll::Ready(Err(error)),
        }
    }
}

/// Waits for a socket to be connected.
#[derive(Debug, PartialEq, Eq)]
pub struct Connect {
    pub event_id: usize,
    pub future: EventFuture,
    pub completed: bool,
}

impl Connect {
    /// Polls the future, and notes when it is done.
    pub fn poll(&mut self, runtime: &mut Runtime, waker: Waker) -> (poll: Poll<Result<u32, i32>>)
        requires
            old(runtime)@.wf(),
            old(self).future.pollable(old(runtime)@),
        ensures
            (final(self).future, final(runtime)@, poll) == old(self).future.polled(
                old(runtime)@,
                waker,
            ),
            final(self).event_id == old(self).event_id,
            final(self).completed == (old(self).completed || poll is Ready),
            final(runtime)@.wf(),
            poll is Pending ==> final(self).future.pollable(final(runtime)@),
    {
        match self.future.poll(runtime, waker) {
            Poll::Pending => Poll::Pending,
            Poll::Ready(result) => {
                self.completed = true;
                Poll::Ready(result)
            },
        }
    }
}

/// A listening socket.
#[derive(Debug, PartialEq, Eq)]
pub struct TcpListener {
    pub fd: i32,
}

impl TcpListener {
    /// The listener of a socket.
    pub fn from_fd(fd: i32) -> (listener: TcpListener)
        ensures
            listener == (TcpListener { fd }),
    {
        TcpListener { fd }
    }

    /// The listener's socket.
    pub fn as_raw_fd(&self) -> (fd: i32)
        ensures
            fd == self.fd,
    {
        self.fd
    }

    /// Gives up the listener and leaves its socket open.
    pub fn into_raw_fd(self) -> (fd: i32)
        ensures
            fd == self.fd,
    {
        self.fd
    }

    /// Asks for a connection and its peer's address, and gives the future of that.
    pub fn accept(&self, runtime: &mut Runtime) -> (submitted: (Submission, Accept))
        requires
            old(runtime)@.wf(),
            old(runtime)@.has_id(),
        ensures
            ({
                let (submission, future) = system::submission(
                    old(runtime)@,
                    Operation::Accept { fd: self.fd, address: true, sock_flags: 0 },
                );
                submitted == (
                    submission,
                    Accept { event_id: future.event_id, future, completed: false },
                )
            }),
            submitted.1.future.pollable(final(runtime)@),
            final(runtime)@ == old(runtime)@.event_id_issued(),
            final(runtime)@.wf(),
    {
        let (submission, future) = system::accept(runtime, self.fd, true);
        (submission, Accept { event_id: future.event_id, future, completed: false })
    }

    /// The stream of a connection that was asked for, and its peer's address. A success
    /// is the stream's socket together with what came of reading the address: without
    /// the address there is no stream.
    pub fn accepted<A, E>(result: Result<(u32, Result<A, E>), E>) -> (accepted: Result<
        (TcpStream, A),
        E,
    >)
        ensures
            accepted == (match result {
                Ok((fd, Ok(address))) => Ok::<(TcpStream, A), E>(
                    (TcpStream { fd: fd as i32, state: TcpStreamState::Idle }, address),
                ),
                Ok((_, Err(error))) => Err::<(TcpStream, A), E>(error),
                Err(error) => Err::<(TcpStream, A), E>(error),
            }),
    {
        match result {
            Ok((fd, Ok(address))) => Ok((TcpStream::from_fd(fd as i32), address)),
            Ok((_, Err(error))) => Err(error),
            Err(error) => Err(error),
        }
    }
}

/// Waits for a connection.
#[derive(Debug, PartialEq, Eq)]
pub struct Accept {
    pub event_id: usize,
    pub future: EventFuture,
    pub completed: bool,
}

impl Accept {
    /// Polls the future, and notes when it is done.
    pub fn poll(&mut self, runtime: &mut Runtime, waker: Waker) -> (poll: Poll<Result<u32, i32>>)
        requires
            old(runtime)@.wf(),
            old(self).future.pollable(old(runtime)@),
        ensures
            (final(self).future, final(runtime)@, poll) == old(self).future.polled(
                old(runtime)@,
                waker,
            ),
            final(self).event_id == old(self).event_id,
            final(self).completed == (old(self).completed || poll is Ready),
            final(runtime)@.wf(),
            poll is Pending ==> final(self).future.pollable(final(runtime)@),
    {
        match self.future.poll(runtime, waker) {
            Poll::Pending => Poll::Pending,
            Poll::Ready(result) => {
                self.completed = true;
                Poll::Ready(result)
            },
        }
    }

    /// What is to be waited for when the future is dropped: the kernel may still write
    /// the peer's address, unless the connection has come.
    pub fn abandon(&self) -> (completion: Option<EventCompletion>)
        ensures
            completion == (if self.completed {
                None
            } else {
                Some(EventCompletion { target_event_id: self.event_id, primed: false })
            }),
    {
        if !self.completed {
            Some(EventCompletion { target_event_id: self.event_id, primed: false })
        } else {
            None
        }
    }
}

/// Stands for accepting a connection.
#[derive(Debug, PartialEq, Eq)]
pub struct TcpAccept {}

} // verus!
