//! What each operation does to the runtime, field by field, and what it leaves alone.

use vstd::prelude::*;

use crate::event::{Completion, Event};
use crate::poll::Poll;
use crate::runtime::{woken, RuntimeState};
use crate::task::{Task, Waker};

verus! {

/// A new runtime holds nothing and has given nothing out.
pub proof fn new_runtime_holds_nothing(id: usize)
    ensures
        ({
            let new = RuntimeState::empty();
            &&& !new.events.contains_key(id)
            &&& !new.tasks.contains_key(id)
            &&& !new.wakers.contains_key(id)
            &&& new.ready.len() == 0
            &&& !new.events_prepared
            &&& new.event_ids == 0 && new.task_ids == 0 && new.waker_ids == 0
            &&& new.next_id == 0
        }),
{
}

/// All ids below the next one were given out, none from it on; another can be given out
/// until the last number is reached.
pub proof fn ids_are_given_out_in_order(state: RuntimeState, id: usize)
    ensures
        state.issued(id) <==> id < state.next_id,
        state.has_id() <==> state.next_id < usize::MAX,
{
}

/// Numbering an event, a task or a waker takes one id, counts it for its kind, and makes
/// nobody ready. Only a waker is filed, under its own id and for its task.
pub proof fn numbering_takes_one_id(state: RuntimeState, task_id: usize)
    requires
        state.next_id <= usize::MAX,
    ensures
        ({
            let event = state.event_id_issued();
            let task = state.task_id_issued();
            let waker = state.waker_made(task_id);
            let id = state.next_id as usize;
            &&& event.next_id == state.next_id + 1
            &&& event.event_ids == state.event_ids + 1
            &&& event == RuntimeState {
                next_id: event.next_id,
                event_ids: event.event_ids,
                ..state
            }
            &&& task.next_id == state.next_id + 1
            &&& task.task_ids == state.task_ids + 1
            &&& task == RuntimeState { next_id: task.next_id, task_ids: task.task_ids, ..state }
            &&& waker.next_id == state.next_id + 1
            &&& waker.waker_ids == state.waker_ids + 1
            &&& waker.wakers.contains_key(id)
            &&& waker.wakers[id] == (Waker { id, task_id })
            &&& waker.wakers.remove(id) == state.wakers.remove(id)
            &&& waker == RuntimeState {
                next_id: waker.next_id,
                waker_ids: waker.waker_ids,
                wakers: waker.wakers,
                ..state
            }
        }),
{
    let id = state.next_id as usize;
    assert(state.waker_made(task_id).wakers.remove(id) =~= state.wakers.remove(id));
}

/// Whoever is woken comes last in the queue, once, whether it is queued already or not, and
/// nothing else changes.
pub proof fn waking_appends(state: RuntimeState, task_id: usize)
    ensures
        ({
            let after = state.made_ready(task_id);
            &&& after.ready.len() == state.ready.len() + 1
            &&& after.ready.last() == task_id
            &&& after.ready.drop_last() == state.ready
            &&& after == RuntimeState { ready: after.ready, ..state }
        }),
{
    assert(state.made_ready(task_id).ready.drop_last() =~= state.ready);
}

/// A spawned task is filed under the next id and comes last in the queue. No other task is
/// touched, and no event and no waker.
pub proof fn spawning_files_one_task(state: RuntimeState)
    requires
        state.next_id <= usize::MAX,
    ensures
        ({
            let after = state.task_spawned();
            let id = state.next_id as usize;
            &&& after.next_id == state.next_id + 1
            &&& after.task_ids == state.task_ids + 1
            &&& after.tasks.contains_key(id)
            &&& after.tasks[id].id == id
            &&& after.tasks.remove(id) == state.tasks.remove(id)
            &&& after.ready.len() == state.ready.len() + 1
            &&& after.ready.last() == id
            &&& after.ready.drop_last() == state.ready
            &&& after == RuntimeState {
                next_id: after.next_id,
                task_ids: after.task_ids,
                tasks: after.tasks,
                ready: after.ready,
                ..state
            }
        }),
{
    let id = state.next_id as usize;
    let after = state.task_spawned();
    assert(after.tasks.remove(id) =~= state.tasks.remove(id));
    assert(after.ready.drop_last() =~= state.ready);
}

/// A polled task is filed again exactly when it is pending. Nobody is made ready by it, and
/// no other task is touched; one that is done changes nothing at all.
pub proof fn pending_task_is_filed_again(state: RuntimeState, task: Task)
    ensures
        ({
            let after = state.task_polled(task, Poll::Pending);
            &&& after == state.task_suspended(task)
            &&& after.tasks.contains_key(task.id)
            &&& after.tasks[task.id] == task
            &&& after.tasks.remove(task.id) == state.tasks.remove(task.id)
            &&& after == RuntimeState { tasks: after.tasks, ..state }
            &&& state.task_polled(task, Poll::Ready(())) == state
        }),
{
    assert(state.task_suspended(task).tasks.remove(task.id) =~= state.tasks.remove(task.id));
}

/// Registering an event files it without a result, for the waker that registers it, unless
/// it is registered already; then it is left as it is. Nobody is made ready by it, and no
/// other event is touched.
pub proof fn registering_files_one_event(state: RuntimeState, event_id: usize, waker: Waker)
    ensures
        ({
            let after = state.event_registered(event_id, waker);
            &&& after.events.contains_key(event_id)
            &&& !state.events.contains_key(event_id) ==> after.events[event_id] == (Event {
                waker,
                result: None,
            })
            &&& state.events.contains_key(event_id) ==> after.events == state.events
            &&& after.events.remove(event_id) == state.events.remove(event_id)
            &&& after.events_prepared
            &&& after == RuntimeState {
                events: after.events,
                events_prepared: after.events_prepared,
                ..state
            }
        }),
{
    let after = state.event_registered(event_id, waker);
    assert(after.events.remove(event_id) =~= state.events.remove(event_id));
}

/// Collecting an event forgets it, and touches nothing else.
pub proof fn collecting_forgets_one_event(state: RuntimeState, event_id: usize)
    ensures
        ({
            let after = state.event_collected(event_id);
            &&& !after.events.contains_key(event_id)
            &&& forall|other: usize|
                other != event_id ==> {
                    &&& #[trigger] after.events.contains_key(other)
                        <==> state.events.contains_key(other)
                    &&& state.events.contains_key(other) ==> after.events[other]
                        == state.events[other]
                }
            &&& after == RuntimeState { events: after.events, ..state }
        }),
{
}

/// A completion leaves its own result with the event that it answers, and makes the task
/// ready that waits for it, behind all others; it touches no other event and does not
/// change who waits. A completion that answers no registered event changes nothing.
pub proof fn completing_answers_one_event(
    state: RuntimeState,
    event_id: usize,
    result: Result<u32, i32>,
)
    ensures
        ({
            let after = state.event_completed(event_id, result);
            &&& !state.events.contains_key(event_id) ==> after == state
            &&& state.events.contains_key(event_id) ==> {
                &&& after.events.contains_key(event_id)
                &&& after.events[event_id].result == Some(result)
                &&& after.events[event_id].waker == state.events[event_id].waker
                &&& after.events.remove(event_id) == state.events.remove(event_id)
                &&& after.ready.len() == state.ready.len() + 1
                &&& after.ready.last() == state.events[event_id].waker.task_id
                &&& after.ready.drop_last() == state.ready
                &&& after == RuntimeState { events: after.events, ready: after.ready, ..state }
            }
        }),
{
    let after = state.event_completed(event_id, result);
    if state.events.contains_key(event_id) {
        assert(after.events.remove(event_id) =~= state.events.remove(event_id));
        assert(after.ready.drop_last() =~= state.ready);
    }
}

/// Handing completions over in two parts is handing them over at once, and each of them
/// counts by itself: the event that it names gets the result that it carries.
pub proof fn completions_add_up(state: RuntimeState, first: Seq<Completion>, then: Seq<Completion>)
    ensures
        state.all_completed(Seq::empty()) == state,
        state.all_completed(first + then) == state.all_completed(first).all_completed(then),
        forall|c: Completion|
            state.all_completed(seq![c]) == #[trigger] state.event_completed(
                c.event_id(),
                c.result(),
            ),
    decreases then.len(),
{
    assert forall|c: Completion|
        state.all_completed(seq![c]) == #[trigger] state.event_completed(
            c.event_id(),
            c.result(),
        ) by {
        let one = seq![c];
        assert(one.drop_last() =~= Seq::<Completion>::empty());
        assert(one.last() == c);
        assert(state.all_completed(one.drop_last()) == state);
    }
    if then.len() == 0 {
        assert(first + then =~= first);
    } else {
        let both = first + then;
        assert(both.drop_last() =~= first + then.drop_last());
        assert(both.last() == then.last());
        completions_add_up(state, first, then.drop_last());
    }
}

/// When the ring has been submitted, no event is waiting to be; what its completions do
/// besides is what completions do.
pub proof fn submitting_leaves_nothing_prepared(state: RuntimeState, completed: Seq<Completion>)
    ensures
        !state.ring_completed(completed).events_prepared,
        state.ring_completed(completed) == (RuntimeState {
            events_prepared: false,
            ..state.all_completed(completed)
        }),
{
}

/// Each completion that answers a registered event wakes the task that waits for it, once
/// and in its turn; any other wakes nobody.
pub proof fn each_completion_wakes_once(
    events: Map<usize, Event>,
    completed: Seq<Completion>,
    next: Completion,
)
    ensures
        woken(events, Seq::empty()).len() == 0,
        !events.contains_key(next.event_id()) ==> woken(events, completed.push(next)) == woken(
            events,
            completed,
        ),
        events.contains_key(next.event_id()) ==> woken(events, completed.push(next)) == woken(
            events,
            completed,
        ).push(events[next.event_id()].waker.task_id),
{
    reveal(Seq::filter);
    let known = |c: Completion| events.contains_key(c.event_id());
    let longer = completed.push(next);
    assert(longer.drop_last() =~= completed);
    assert(longer.last() == next);
    assert(woken(events, Seq::empty()) =~= Seq::empty());
    if known(next) {
        assert(longer.filter(known) == completed.filter(known).push(next));
        assert(woken(events, longer) =~= woken(events, completed).push(
            events[next.event_id()].waker.task_id,
        ));
    } else {
        assert(longer.filter(known) == completed.filter(known));
    }
}

/// A completion names its event by its user data. A raw result that is not negative is the
/// success value itself; a negative one is an error, whose number is its absolute value.
/// Every raw result but the smallest number can be read.
pub proof fn completion_is_read_as_it_stands(completion: Completion)
    ensures
        completion.user_data <= usize::MAX ==> completion.event_id() == completion.user_data,
        completion.res >= 0 <==> completion.result() is Ok,
        completion.res >= 0 ==> completion.result()->Ok_0 == completion.res,
        completion.valid() && completion.res < 0 ==> completion.result()->Err_0
            == -completion.res,
        completion.valid() <==> completion.res > -0x8000_0000,
{
}

} // verus!
