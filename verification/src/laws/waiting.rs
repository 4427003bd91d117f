//! What the futures of operations, sockets, handles and toggles give, and when.

use vstd::prelude::*;

use super::{completions_leave_the_last_result, last_answer, one_step};
use crate::event::{Completion, Event};
use crate::net::{write_finished, ErrorKind, SocketPoll, TcpStreamState};
use crate::poll::Poll;
use crate::runtime::RuntimeState;
use crate::system::{submission, EventCompletion, EventFuture, Interest, Operation, State};
use crate::task::{TaskStorage, Waker};
use crate::toggle::ToggleFuture;

verus! {

/// The ring is asked for the very operation, under the number of the event that the future
/// then waits for. The future has not been polled.
pub proof fn submission_carries_its_operation(state: RuntimeState, operation: Operation)
    requires
        state.next_id <= usize::MAX,
    ensures
        ({
            let (asked, future) = submission(state, operation);
            &&& asked.operation == operation
            &&& asked.user_data == state.next_id
            &&& future.event_id == state.next_id
            &&& future.state == State::Waiting
            &&& EventFuture::begun(future.event_id) == future
        }),
{
}

/// A future that was not polled can be polled once it is numbered, one that was polled as
/// long as its event is registered.
pub proof fn future_is_pollable_while_its_event_is_there(
    state: RuntimeState,
    future: EventFuture,
    completion: EventCompletion,
    event_id: usize,
)
    ensures
        future.state == State::Waiting ==> (future.pollable(state) <==> future.event_id
            < state.next_id),
        future.state == State::Pending(event_id) ==> (future.pollable(state)
            <==> state.events.contains_key(event_id)),
        !completion.primed ==> (completion.pollable(state) <==> completion.target_event_id
            < state.next_id),
        completion.primed ==> (completion.pollable(state) <==> state.events.contains_key(
            completion.target_event_id,
        )),
        TcpStreamState::Idle.pollable(state) <==> state.next_id < usize::MAX,
        TcpStreamState::PollRegistered(future).pollable(state) <==> future.pollable(state),
{
}

/// The first poll of a future is pending: it registers the event for the waker that it was
/// polled with, unless somebody waits for it already, and makes nobody ready.
pub proof fn first_poll_registers_the_event(state: RuntimeState, future: EventFuture, waker: Waker)
    requires
        future.state == State::Waiting,
    ensures
        ({
            let (next, after, poll) = future.polled(state, waker);
            let id = future.event_id;
            &&& poll == Poll::<Result<u32, i32>>::Pending
            &&& next.event_id == id
            &&& next.state == State::Pending(id)
            &&& after.events.contains_key(id)
            &&& !state.events.contains_key(id) ==> after.events == state.events.insert(
                id,
                Event { waker, result: None },
            )
            &&& state.events.contains_key(id) ==> after.events == state.events
            &&& after.events_prepared
            &&& after == RuntimeState {
                events: after.events,
                events_prepared: after.events_prepared,
                ..state
            }
        }),
{
}

/// A future gives nothing before its completion: as long as its event has no result, every
/// poll is pending, with whatever waker, and leaves the future and the runtime as they are.
pub proof fn future_gives_nothing_before_its_completion(
    state: RuntimeState,
    future: EventFuture,
    event_id: usize,
    waker: Waker,
)
    requires
        future.state == State::Pending(event_id),
        state.events.contains_key(event_id),
        state.events[event_id].result is None,
    ensures
        future.polled(state, waker) == (future, state, Poll::<Result<u32, i32>>::Pending),
{
}

/// A future whose event has a result gives that very result, with whatever waker, and the
/// event is gone. Nothing else changes.
pub proof fn future_gives_the_result_of_its_event(
    state: RuntimeState,
    future: EventFuture,
    event_id: usize,
    result: Result<u32, i32>,
    waker: Waker,
)
    requires
        future.state == State::Pending(event_id),
        state.events.contains_key(event_id),
        state.events[event_id].result == Some(result),
    ensures
        ({
            let (next, after, poll) = future.polled(state, waker);
            &&& poll == Poll::Ready(result)
            &&& next == future
            &&& after.events == state.events.remove(event_id)
            &&& after == RuntimeState { events: after.events, ..state }
        }),
{
}

/// Where an event without a result has one later, and was registered all the while, a
/// completion has brought it that answers this event and carries this result.
pub proof fn result_comes_of_a_completion(
    trace: Seq<RuntimeState>,
    event_id: usize,
    result: Result<u32, i32>,
)
    requires
        trace.len() > 0,
        forall|k: int|
            #![trigger trace[k]]
            0 <= k < trace.len() - 1 ==> one_step(trace[k], trace[k + 1]),
        forall|k: int|
            0 <= k < trace.len() ==> (#[trigger] trace[k]).events.contains_key(event_id),
        trace[0].events[event_id].result is None,
        trace.last().events[event_id].result == Some(result),
    ensures
        exists|k: int, completed: Seq<Completion>, i: int|
            {
                &&& 0 <= k < trace.len() - 1
                &&& trace[k + 1] == #[trigger] trace[k].ring_completed(completed)
                &&& 0 <= i < completed.len()
                &&& (#[trigger] completed[i]).event_id() == event_id
                &&& completed[i].result() == result
            },
    decreases trace.len(),
{
    if trace.len() > 1 {
        let front = trace.drop_last();
        let k = trace.len() - 2;
        let before = trace[k];
        let after = trace[k + 1];
        assert(front.last() == before);
        assert(one_step(before, after));
        if before.events[event_id].result == Some(result) {
            assert forall|k: int|
                #![trigger front[k]]
                0 <= k < front.len() - 1 implies one_step(front[k], front[k + 1]) by {
                assert(front[k] == trace[k]);
                assert(front[k + 1] == trace[k + 1]);
            }
            assert forall|k: int| 0 <= k < front.len() implies (
            #[trigger] front[k]).events.contains_key(event_id) by {
                assert(front[k] == trace[k]);
            }
            result_comes_of_a_completion(front, event_id, result);
            let (j, completed, i) = choose|j: int, completed: Seq<Completion>, i: int|
                {
                    &&& 0 <= j < front.len() - 1
                    &&& front[j + 1] == #[trigger] front[j].ring_completed(completed)
                    &&& 0 <= i < completed.len()
                    &&& (#[trigger] completed[i]).event_id() == event_id
                    &&& completed[i].result() == result
                };
            assert(trace[j + 1] == trace[j].ring_completed(completed));
        } else {
            assert(exists|completed: Seq<Completion>|
                after == #[trigger] before.ring_completed(completed));
            let completed = choose|completed: Seq<Completion>|
                after == #[trigger] before.ring_completed(completed);
            completions_leave_the_last_result(before, completed, event_id);
            if forall|i: int|
                0 <= i < completed.len() ==> (#[trigger] completed[i]).event_id() != event_id {
            } else {
                last_answer_exists(completed, event_id);
                let i = choose|i: int| #[trigger] last_answer(completed, event_id, i);
                assert(trace[k + 1] == trace[k].ring_completed(completed));
                assert(completed[i].event_id() == event_id);
            }
        }
    }
}

proof fn last_answer_exists(completed: Seq<Completion>, event_id: usize)
    requires
        exists|i: int|
            0 <= i < completed.len() && (#[trigger] completed[i]).event_id() == event_id,
    ensures
        exists|i: int| #[trigger] last_answer(completed, event_id, i),
    decreases completed.len(),
{
    let n = completed.len() - 1;
    if completed[n].event_id() == event_id {
        assert(last_answer(completed, event_id, n));
    } else {
        let front = completed.drop_last();
        let i = choose|i: int|
            0 <= i < completed.len() && (#[trigger] completed[i]).event_id() == event_id;
        assert(front[i].event_id() == event_id);
        last_answer_exists(front, event_id);
        let j = choose|j: int| #[trigger] last_answer(front, event_id, j);
        assert(last_answer(completed, event_id, j)) by {
            assert(completed[j] == front[j]);
            assert forall|m: int| j < m < completed.len() implies (
            #[trigger] completed[m]).event_id() != event_id by {
                if m < n {
                    assert(completed[m] == front[m]);
                }
            }
        }
    }
}

/// What a future gives, a completion has brought: one that answers its operation, that
/// carries the very result, and that arrived after the future was first polled.
pub proof fn future_gives_only_what_a_completion_brought(
    state: RuntimeState,
    future: EventFuture,
    waker: Waker,
    later: Waker,
    trace: Seq<RuntimeState>,
    result: Result<u32, i32>,
)
    requires
        future.state == State::Waiting,
        !state.events.contains_key(future.event_id),
        trace.len() > 0,
        trace[0] == future.polled(state, waker).1,
        forall|k: int|
            #![trigger trace[k]]
            0 <= k < trace.len() - 1 ==> one_step(trace[k], trace[k + 1]),
        forall|k: int|
            0 <= k < trace.len() ==> (#[trigger] trace[k]).events.contains_key(future.event_id),
        future.polled(state, waker).0.polled(trace.last(), later).2 == Poll::Ready(result),
    ensures
        exists|k: int, completed: Seq<Completion>, i: int|
            {
                &&& 0 <= k < trace.len() - 1
                &&& trace[k + 1] == #[trigger] trace[k].ring_completed(completed)
                &&& 0 <= i < completed.len()
                &&& (#[trigger] completed[i]).event_id() == future.event_id
                &&& completed[i].result() == result
            },
{
    first_poll_registers_the_event(state, future, waker);
    let last = trace.last();
    assert(last == trace[trace.len() - 1]);
    assert(last.events.contains_key(future.event_id));
    let pending = future.polled(state, waker).0;
    if last.events[future.event_id].result is None {
        future_gives_nothing_before_its_completion(last, pending, future.event_id, later);
    } else {
        future_gives_the_result_of_its_event(
            last,
            pending,
            future.event_id,
            last.events[future.event_id].result->0,
            later,
        );
    }
    result_comes_of_a_completion(trace, future.event_id, result);
}

/// A future that waits in place of another is done exactly when the event has a result, and
/// takes it away. Otherwise its first poll is the only one that changes anything: from then
/// on its own waker waits, for a result that has not come.
pub proof fn completion_future_is_done_with_its_event(
    state: RuntimeState,
    future: EventCompletion,
    waker: Waker,
)
    ensures
        ({
            let (next, after, poll) = future.polled(state, waker);
            let id = future.target_event_id;
            let arrived = state.events.contains_key(id) && state.events[id].result is Some;
            &&& poll == Poll::Ready(()) <==> arrived
            &&& next.target_event_id == id
            &&& arrived ==> after.events == state.events.remove(id) && next == future
                && after.events_prepared == state.events_prepared
            &&& !arrived && future.primed ==> (next, after) == (future, state)
            &&& !arrived && !future.primed ==> {
                &&& next.primed
                &&& after.events == state.events.insert(id, Event { waker, result: None })
                &&& after.events_prepared
            }
            &&& after == RuntimeState {
                events: after.events,
                events_prepared: after.events_prepared,
                ..state
            }
        }),
{
    let (_, after, _) = future.polled(state, waker);
    let id = future.target_event_id;
    assert(state.events.remove(id).insert(id, Event { waker, result: None })
        =~= state.events.insert(id, Event { waker, result: None }));
}

/// What an idle socket asks of the ring is what it was polled for, in every runtime, under
/// the number of the event that the socket then waits for. Its task is ready, behind all
/// others, and nothing else has happened yet. A write asks for room to write.
pub proof fn idle_socket_asks_for_what_it_was_polled_for(
    fd: i32,
    interest: Interest,
    state: RuntimeState,
    waker: Waker,
)
    requires
        state.next_id <= usize::MAX,
    ensures
        ({
            let (next, after, poll) = TcpStreamState::Idle.polled(fd, interest, state, waker);
            &&& poll matches SocketPoll::Registered(asked)
            &&& asked.operation == (Operation::PollAdd { fd, interest })
            &&& asked.user_data == state.next_id
            &&& next matches TcpStreamState::PollRegistered(event)
            &&& event.event_id == asked.user_data
            &&& event.state == State::Waiting
            &&& after.next_id == state.next_id + 1
            &&& after.event_ids == state.event_ids + 1
            &&& after.ready == state.ready.push(waker.task_id)
            &&& after == RuntimeState {
                next_id: after.next_id,
                event_ids: after.event_ids,
                ready: after.ready,
                ..state
            }
        }),
        TcpStreamState::Idle.write_polled(fd, state, waker) == TcpStreamState::Idle.polled(
            fd,
            Interest::Writable,
            state,
            waker,
        ),
{
}

/// A watched socket waits for its event and for nothing else, whatever it is polled for: it
/// is pending until the watch has ended, and then tells how, with the very poll events or
/// the very error. From then on it is idle. It asks nothing more of the ring.
pub proof fn watched_socket_tells_how_its_watch_ended(
    event: EventFuture,
    fd: i32,
    interest: Interest,
    state: RuntimeState,
    waker: Waker,
)
    ensures
        ({
            let (next, after, poll) = TcpStreamState::PollRegistered(event).polled(
                fd,
                interest,
                state,
                waker,
            );
            let (waiting, polled, result) = event.polled(state, waker);
            &&& after == polled
            &&& result == Poll::<Result<u32, i32>>::Pending <==> poll is Pending
            &&& poll is Pending ==> next == TcpStreamState::PollRegistered(waiting)
            &&& poll !is Pending ==> next == TcpStreamState::Idle
            &&& forall|events: u32|
                poll == SocketPoll::Ready(events) <==> result == Poll::Ready(
                    Ok::<u32, i32>(events),
                )
            &&& forall|error: i32|
                poll == SocketPoll::Failed(error) <==> result == Poll::Ready(
                    Err::<u32, i32>(error),
                )
        }),
{
}

/// A socket that is polled to write differs from one that is polled otherwise only where the
/// watch ended because it would block or was interrupted.
pub proof fn write_tells_how_its_watch_ended(
    event: EventFuture,
    fd: i32,
    state: RuntimeState,
    waker: Waker,
)
    ensures
        ({
            let (next, after, poll) = TcpStreamState::PollRegistered(event).write_polled(
                fd,
                state,
                waker,
            );
            let (waiting, polled, result) = event.polled(state, waker);
            match result {
                Poll::Pending => {
                    &&& poll is Pending
                    &&& next == TcpStreamState::PollRegistered(waiting)
                    &&& after == polled
                },
                Poll::Ready(Ok(events)) => {
                    &&& poll == SocketPoll::Ready(events)
                    &&& next == TcpStreamState::Idle
                    &&& after == polled
                },
                Poll::Ready(Err(error)) => {
                    &&& next == TcpStreamState::Idle
                    &&& error != 4 && error != 11 ==> poll == SocketPoll::Failed(error)
                        && after == polled
                    &&& error == 4 || error == 11 ==> {
                        &&& poll is Retry
                        &&& after.ready == polled.ready.push(waker.task_id)
                        &&& after == RuntimeState { ready: after.ready, ..polled }
                    }
                },
            }
        }),
{
}

/// A write that went through is reported with its own count, and one that failed for good
/// with its own error; one that would block or was interrupted is pending.
pub proof fn write_is_reported_as_it_went<E>(count: usize, error: E)
    ensures
        write_finished(Ok::<usize, (ErrorKind, E)>(count)) == Poll::Ready(Ok::<usize, E>(count)),
        write_finished(Err::<usize, (ErrorKind, E)>((ErrorKind::Other, error))) == Poll::Ready(
            Err::<usize, E>(error),
        ),
        write_finished(Err::<usize, (ErrorKind, E)>((ErrorKind::WouldBlock, error)))
            == Poll::<Result<usize, E>>::Pending,
        write_finished(Err::<usize, (ErrorKind, E)>((ErrorKind::Interrupted, error)))
            == Poll::<Result<usize, E>>::Pending,
{
}

/// Two OS errors are told apart from all others: that of an operation that would block, and
/// that of one that was interrupted.
pub proof fn two_errors_are_told_apart(error: i32)
    ensures
        ErrorKind::of(error) == ErrorKind::WouldBlock <==> error == 11,
        ErrorKind::of(error) == ErrorKind::Interrupted <==> error == 4,
        ErrorKind::of(error) == ErrorKind::Other <==> error != 11 && error != 4,
{
}

/// A handle that is polled takes the output, unchanged, and leaves the waker in place; where
/// there is no output yet, it is pending, and its waker is the one that waits.
pub proof fn handle_takes_the_output_or_waits<T>(storage: TaskStorage<T>, waker: Waker, output: T)
    ensures
        TaskStorage::<T>::empty().result is None,
        TaskStorage::<T>::empty().waker is None,
        ({
            let (next, poll) = storage.polled(waker);
            &&& storage.result == Some(output) ==> poll == Poll::Ready(output)
            &&& storage.result is Some ==> next.waker == storage.waker
            &&& storage.result is None ==> poll == Poll::<T>::Pending && next.waker == Some(waker)
            &&& next.result is None
        }),
{
}

/// A task that is done leaves its output, unchanged, in place of any other, and nobody waits
/// any more; who waited comes last in the queue, once, and nothing else changes.
pub proof fn done_task_wakes_who_waits<T>(
    storage: TaskStorage<T>,
    state: RuntimeState,
    waker: Waker,
    output: T,
)
    ensures
        storage.completed(output).result == Some(output),
        storage.completed(output).waker is None,
        storage.waker is None ==> storage.woken(state) == state,
        storage.waker == Some(waker) ==> {
            let after = storage.woken(state);
            &&& after.ready == state.ready.push(waker.task_id)
            &&& after == RuntimeState { ready: after.ready, ..state }
        },
{
}

/// A toggle is pending exactly when it was not polled before, and was polled afterwards.
pub proof fn toggle_toggles(future: ToggleFuture)
    ensures
        future.polled().1 == Poll::<()>::Pending <==> !future.toggled,
        future.polled().1 == Poll::Ready(()) <==> future.toggled,
        future.polled().0.toggled,
{
}

} // verus!
