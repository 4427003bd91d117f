use vstd::prelude::*;

use crate::net::{SocketPoll, TcpStream, TcpStreamState};
use crate::runtime::Runtime;
use crate::system::Interest;
use crate::task::Waker;

verus! {

/// The reading half of a stream: it waits on its own, so that the stream can wait to
/// write meanwhile.
pub struct ReadHalf<'a> {
    pub fd: i32,
    pub state: TcpStreamState,
    pub _stream: &'a TcpStream,
}

impl<'a> ReadHalf<'a> {
    /// Polls for something to read. On [`SocketPoll::Ready`] the caller reads and gives
    /// what came of it.
    pub fn poll_read(&mut self, runtime: &mut Runtime, waker: Waker) -> (poll: SocketPoll)
        requires
            old(runtime)@.wf(),
            old(self).state.pollable(old(runtime)@),
        ensures
            (final(self).state, final(runtime)@, poll) == old(self).state.polled(
                old(self).fd,
                Interest::Readable,
                old(runtime)@,
                waker,
            ),
            final(self).fd == old(self).fd,
            final(self)._stream == old(self)._stream,
            final(runtime)@.wf(),
            poll is Registered || poll is Pending ==> final(self).state.pollable(final(runtime)@),
    {
        self.state.poll(self.fd, Interest::Readable, runtime, waker)
    }
}

} // verus!
