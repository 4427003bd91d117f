//! What holds of the runtime as a whole, across the functions of the other modules.

use vstd::prelude::*;

use crate::error::Error;
use crate::event::{Completion, Event};
use crate::net::{write_finished, ErrorKind, SocketPoll, TcpStreamState, EAGAIN, EINTR};
use crate::poll::Poll;
use crate::program::grows;
use crate::run::{Action, RunState, MAX_ITERATIONS};
use crate::runtime::{woken, RuntimeState};
use crate::system::{EventCompletion, EventFuture, Interest, Operation, State};
use crate::task::{Task, TaskStorage, Waker};
use crate::toggle::ToggleFuture;

pub mod bookkeeping;
pub mod rounds;
pub mod waiting;

verus! {

/// `i` is where a row of completions answers the event for the last time.
pub open spec fn last_answer(completed: Seq<Completion>, event_id: usize, i: int) -> bool {
    &&& 0 <= i < completed.len()
    &&& completed[i].event_id() == event_id
    &&& forall|j: int| i < j < completed.len() ==> (#[trigger] completed[j]).event_id() != event_id
}

/// Completions touch nothing but the results of registered events and the ready queue:
/// no event appears or disappears, and each keeps its waker.
pub proof fn completions_keep_the_rest(state: RuntimeState, completed: Seq<Completion>)
    ensures
        ({
            let after = state.all_completed(completed);
            &&& after.events.dom() == state.events.dom()
            &&& forall|id: usize| #[trigger]
                state.events.contains_key(id) ==> after.events[id].waker == state.events[id].waker
            &&& after == RuntimeState { events: after.events, ready: after.ready, ..state }
        }),
    decreases completed.len(),
{
    if completed.len() > 0 {
        completions_keep_the_rest(state, completed.drop_last());
        let before = state.all_completed(completed.drop_last());
        let after = state.all_completed(completed);
        let last = completed.last();
        assert(after == before.event_completed(last.event_id(), last.result()));
        assert(after.events.dom() =~= state.events.dom());
    }
}

/// Completions wake the tasks that wait for them, once each and in their order, behind
/// all tasks that were ready before. Those that nobody waits for wake nobody.
pub proof fn completions_wake_in_order(state: RuntimeState, completed: Seq<Completion>)
    ensures
        state.all_completed(completed).ready == state.ready + woken(state.events, completed),
    decreases completed.len(),
{
    let known = |c: Completion| state.events.contains_key(c.event_id());
    let task = |c: Completion| state.events[c.event_id()].waker.task_id;
    reveal(Seq::filter);
    if completed.len() == 0 {
        assert(woken(state.events, completed) =~= Seq::empty());
        assert(state.ready + woken(state.events, completed) =~= state.ready);
    } else {
        let front = completed.drop_last();
        let last = completed.last();
        completions_wake_in_order(state, front);
        completions_keep_the_rest(state, front);
        if known(last) {
            assert(completed.filter(known) == front.filter(known).push(last));
            assert(woken(state.events, completed) =~= woken(state.events, front).push(task(last)));
            assert(state.ready + woken(state.events, completed) =~= (state.ready + woken(
                state.events,
                front,
            )).push(task(last)));
        } else {
            assert(completed.filter(known) == front.filter(known));
        }
    }
}

/// A registered event keeps the result of the completion that answered it last, and is
/// as it was if none did.
pub proof fn completions_leave_the_last_result(
    state: RuntimeState,
    completed: Seq<Completion>,
    event_id: usize,
)
    requires
        state.events.contains_key(event_id),
    ensures
        forall|i: int| #[trigger]
            last_answer(completed, event_id, i) ==> state.all_completed(completed).events[event_id]
                == (Event {
                waker: state.events[event_id].waker,
                result: Some(completed[i].result()),
            }),
        (forall|i: int|
            0 <= i < completed.len() ==> (#[trigger] completed[i]).event_id() != event_id)
            ==> state.all_completed(completed).events[event_id] == state.events[event_id],
    decreases completed.len(),
{
    if completed.len() > 0 {
        let front = completed.drop_last();
        let last = completed.last();
        let before = state.all_completed(front);
        completions_leave_the_last_result(state, front, event_id);
        completions_keep_the_rest(state, front);
        assert(before.events.contains_key(event_id));
        assert forall|i: int| #[trigger] last_answer(completed, event_id, i) implies
            state.all_completed(completed).events[event_id] == (Event {
            waker: state.events[event_id].waker,
            result: Some(completed[i].result()),
        }) by {
            if i < front.len() {
                assert(completed[front.len() as int].event_id() != event_id);
                assert(last_answer(front, event_id, i)) by {
                    assert forall|j: int| i < j < front.len() implies (
                    #[trigger] front[j]).event_id() != event_id by {
                        assert(front[j] == completed[j]);
                    }
                }
            }
        }
        if forall|i: int|
            0 <= i < completed.len() ==> (#[trigger] completed[i]).event_id() != event_id {
            assert forall|i: int| 0 <= i < front.len() implies (
            #[trigger] front[i]).event_id() != event_id by {
                assert(front[i] == completed[i]);
            }
            assert(completed[front.len() as int].event_id() != event_id);
        }
    }
}

/// The result of a completion goes to the future of its event, and only once: the first
/// poll registers the event, the completion wakes the task that polled, and the next
/// poll takes the result of the last completion and leaves no event behind.
pub proof fn event_gives_back_its_result(
    state: RuntimeState,
    future: EventFuture,
    waker: Waker,
    later: Waker,
    completed: Seq<Completion>,
    i: int,
)
    requires
        future.state == State::Waiting,
        !state.events.contains_key(future.event_id),
        last_answer(completed, future.event_id, i),
    ensures
        ({
            let (pending, registered, first) = future.polled(state, waker);
            let arrived = registered.ring_completed(completed);
            let (done, collected, second) = pending.polled(arrived, later);
            &&& first == Poll::<Result<u32, i32>>::Pending
            &&& arrived.ready == state.ready + woken(registered.events, completed)
            &&& woken(registered.events, completed).contains(waker.task_id)
            &&& pending.pollable(arrived)
            &&& second == Poll::Ready(completed[i].result())
            &&& collected.events.dom() == state.events.dom()
            &&& !done.pollable(collected)
        }),
{
    let id = future.event_id;
    let (pending, registered, first) = future.polled(state, waker);
    let arrived = registered.ring_completed(completed);
    let (done, collected, second) = pending.polled(arrived, later);
    completions_wake_in_order(registered, completed);
    completions_keep_the_rest(registered, completed);
    completions_leave_the_last_result(registered, completed, id);
    assert(collected.events.dom() =~= state.events.dom());
    let known = |c: Completion| registered.events.contains_key(c.event_id());
    completed.lemma_filter_contains(known, i);
    let answers = completed.filter(known);
    let k = choose|k: int| 0 <= k < answers.len() && answers[k] == completed[i];
    assert(woken(registered.events, completed)[k] == waker.task_id);
}

/// The waker of the first poll waits for the event; registering again changes nothing.
pub proof fn first_waker_stays(state: RuntimeState, event_id: usize, waker: Waker, later: Waker)
    ensures
        state.event_registered(event_id, waker).event_registered(event_id, later)
            == state.event_registered(event_id, waker),
        !state.events.contains_key(event_id) ==> state.event_registered(
            event_id,
            waker,
        ).events[event_id].waker == waker,
{
    assert(state.event_registered(event_id, waker).event_registered(event_id, later)
        =~= state.event_registered(event_id, waker));
}

/// A completion that answers a submission answers the event of its future.
pub proof fn submission_leads_to_its_event(state: RuntimeState, operation: Operation, res: i32)
    requires
        state.wf(),
    ensures
        ({
            let (submission, future) = crate::system::submission(state, operation);
            (Completion { user_data: submission.user_data, res }).event_id() == future.event_id
        }),
{
}

/// `after` comes of `before` by one operation of the runtime that a future can call for,
/// or by completions.
pub open spec fn operation(before: RuntimeState, after: RuntimeState) -> bool {
    ||| before.has_id() && after == before.event_id_issued()
    ||| before.has_id() && after == before.task_spawned()
    ||| before.has_id() && after == before.task_id_issued().made_ready(before.next_id as usize)
    ||| exists|task_id: usize| after == #[trigger] before.made_ready(task_id)
    ||| exists|task: Task|
        before.issued(task.id) && after == #[trigger] before.task_suspended(task)
    ||| exists|event_id: usize, waker: Waker|
        before.issued(event_id) && after == #[trigger] before.event_registered(event_id, waker)
    ||| exists|event_id: usize| after == #[trigger] before.event_collected(event_id)
    ||| exists|completed: Seq<Completion>| after == #[trigger] before.ring_completed(completed)
}

/// `after` comes of `before` by one operation of the runtime.
pub open spec fn one_step(before: RuntimeState, after: RuntimeState) -> bool {
    ||| operation(before, after)
    ||| before.has_id() && exists|run: RunState| after == (#[trigger] run.next(before)).1
}

/// `after` comes of `before` by at most two operations of the runtime.
pub open spec fn few_steps(before: RuntimeState, after: RuntimeState) -> bool {
    ||| before == after
    ||| one_step(before, after)
    ||| exists|between: RuntimeState| #[trigger]
        one_step(before, between) && #[trigger] one_step(between, after)
}

/// Whatever a future, a stream or a handle does to the runtime is made of the runtime's
/// operations, so that what these keep is kept.
pub proof fn polls_are_made_of_steps<T>(
    state: RuntimeState,
    waker: Waker,
    event: EventFuture,
    completion: EventCompletion,
    stream: TcpStreamState,
    fd: i32,
    interest: Interest,
    storage: TaskStorage<T>,
)
    requires
        state.wf(),
    ensures
        event.pollable(state) ==> few_steps(state, event.polled(state, waker).1),
        completion.pollable(state) ==> few_steps(state, completion.polled(state, waker).1),
        stream.pollable(state) ==> few_steps(
            state,
            stream.polled(fd, interest, state, waker).1,
        ),
        stream.pollable(state) ==> few_steps(state, stream.write_polled(fd, state, waker).1),
        few_steps(state, storage.woken(state)),
{
    if event.pollable(state) {
        event_poll_is_a_step(state, waker, event);
    }
    if let TcpStreamState::PollRegistered(watch) = stream {
        if watch.pollable(state) {
            event_poll_is_a_step(state, waker, watch);
            if let State::Pending(event_id) = watch.state {
                let collected = state.event_collected(event_id);
                assert(one_step(state, collected));
                assert(one_step(collected, collected.made_ready(waker.task_id)));
            }
        }
    } else {
        let numbered = state.event_id_issued();
        if stream.pollable(state) {
            assert(one_step(state, numbered));
            assert(one_step(numbered, numbered.made_ready(waker.task_id)));
        }
    }
    let id = completion.target_event_id;
    let forgotten = state.event_collected(id);
    assert(one_step(state, forgotten));
    if completion.pollable(state) && !completion.primed {
        assert(forgotten.issued(id));
        assert(one_step(forgotten, forgotten.event_registered(id, waker)));
    }
}

proof fn event_poll_is_a_step(state: RuntimeState, waker: Waker, event: EventFuture)
    requires
        event.pollable(state),
    ensures
        few_steps(state, event.polled(state, waker).1),
{
    match event.state {
        State::Waiting => {
            assert(one_step(state, state.event_registered(event.event_id, waker)));
        },
        State::Pending(event_id) => {
            assert(one_step(state, state.event_collected(event_id)));
        },
    }
}

/// Every operation keeps the bookkeeping in order, never takes back an id, and never
/// changes a waker that was made.
pub proof fn every_step_keeps_the_bookkeeping(before: RuntimeState, after: RuntimeState)
    requires
        before.wf(),
        one_step(before, after),
    ensures
        after.wf(),
        before.next_id <= after.next_id <= before.next_id + 1,
        before.wakers.submap_of(after.wakers),
{
    if exists|completed: Seq<Completion>| after == #[trigger] before.ring_completed(completed) {
        let completed = choose|completed: Seq<Completion>|
            after == #[trigger] before.ring_completed(completed);
        completions_keep_the_rest(before, completed);
    }
}

/// Only a run takes tasks out of the ready queue: whatever else happens, the queue is at
/// most longer.
pub proof fn operations_only_append(before: RuntimeState, after: RuntimeState)
    requires
        before.wf(),
        operation(before, after),
    ensures
        grows(before, after),
{
    every_step_keeps_the_bookkeeping(before, after);
    if exists|completed: Seq<Completion>| after == #[trigger] before.ring_completed(completed) {
        let completed = choose|completed: Seq<Completion>|
            after == #[trigger] before.ring_completed(completed);
        completions_wake_in_order(before, completed);
    }
}

/// An id that was given out is not given out again, whatever happens in between, to an
/// event, a task or a waker.
pub proof fn ids_are_given_out_once(trace: Seq<RuntimeState>, i: int, j: int)
    requires
        0 <= i < j < trace.len(),
        trace[0].wf(),
        forall|k: int|
            #![trigger trace[k]]
            0 <= k < trace.len() - 1 ==> one_step(trace[k], trace[k + 1]),
        trace[i].next_id < trace[i + 1].next_id,
    ensures
        trace[i].next_id < trace[j].next_id,
{
    ids_only_grow(trace, i + 1, j);
}

proof fn trace_is_in_order(trace: Seq<RuntimeState>, i: int)
    requires
        0 <= i < trace.len(),
        trace[0].wf(),
        forall|k: int|
            #![trigger trace[k]]
            0 <= k < trace.len() - 1 ==> one_step(trace[k], trace[k + 1]),
    ensures
        trace[i].wf(),
    decreases i,
{
    if i > 0 {
        trace_is_in_order(trace, i - 1);
        assert(one_step(trace[i - 1], trace[i - 1 + 1]));
        every_step_keeps_the_bookkeeping(trace[i - 1], trace[i]);
    }
}

proof fn ids_only_grow(trace: Seq<RuntimeState>, i: int, j: int)
    requires
        0 <= i <= j < trace.len(),
        trace[0].wf(),
        forall|k: int|
            #![trigger trace[k]]
            0 <= k < trace.len() - 1 ==> one_step(trace[k], trace[k + 1]),
    ensures
        trace[i].next_id <= trace[j].next_id,
    decreases j - i,
{
    if i < j {
        ids_only_grow(trace, i, j - 1);
        trace_is_in_order(trace, j - 1);
        assert(one_step(trace[j - 1], trace[j - 1 + 1]));
        every_step_keeps_the_bookkeeping(trace[j - 1], trace[j]);
    }
}

/// The id that is given out next belongs to no event, no task and no waker.
pub proof fn next_id_is_fresh(state: RuntimeState)
    requires
        state.wf(),
        state.has_id(),
    ensures
        !state.events.contains_key(state.next_id as usize),
        !state.tasks.contains_key(state.next_id as usize),
        !state.wakers.contains_key(state.next_id as usize),
{
}

/// An event is registered until its result is collected, and its waker stays; a result
/// that has arrived does not get lost meanwhile.
pub proof fn event_stays_until_collected(
    before: RuntimeState,
    after: RuntimeState,
    event_id: usize,
)
    requires
        one_step(before, after),
        before.events.contains_key(event_id),
        after != before.event_collected(event_id),
    ensures
        after.events.contains_key(event_id),
        after.events[event_id].waker == before.events[event_id].waker,
        before.events[event_id].result is Some ==> after.events[event_id].result is Some,
{
    if exists|completed: Seq<Completion>| after == #[trigger] before.ring_completed(completed) {
        let completed = choose|completed: Seq<Completion>|
            after == #[trigger] before.ring_completed(completed);
        completions_keep_the_rest(before, completed);
        assert(after.events.dom().contains(event_id));
        if before.events[event_id].result is Some {
            results_stay(before, completed, event_id);
        }
    }
}

proof fn results_stay(state: RuntimeState, completed: Seq<Completion>, event_id: usize)
    requires
        state.events.contains_key(event_id),
        state.events[event_id].result is Some,
    ensures
        state.all_completed(completed).events[event_id].result is Some,
    decreases completed.len(),
{
    if completed.len() > 0 {
        results_stay(state, completed.drop_last(), event_id);
        completions_keep_the_rest(state, completed.drop_last());
    }
}

/// A task that is not being polled is known until it is taken out to be polled.
pub proof fn task_stays_until_polled(before: RuntimeState, after: RuntimeState, task_id: usize)
    requires
        before.wf(),
        one_step(before, after),
        before.tasks.contains_key(task_id),
    ensures
        after.tasks.contains_key(task_id) || exists|run: RunState|
            {
                &&& after == (#[trigger] run.next(before)).1
                &&& run.next(before).2 matches Action::PollTask { task, .. }
                &&& task.id == task_id
            },
{
    if exists|completed: Seq<Completion>| after == #[trigger] before.ring_completed(completed) {
        let completed = choose|completed: Seq<Completion>|
            after == #[trigger] before.ring_completed(completed);
        completions_keep_the_rest(before, completed);
    }
}

/// A task that was taken out to be polled and is pending is as it was; one that is done is
/// gone, and no other is.
pub proof fn suspended_task_is_back(run: RunState, state: RuntimeState)
    requires
        state.wf(),
    ensures
        ({
            let (_, after, action) = run.next(state);
            action matches Action::PollTask { task, .. } ==> {
                &&& !after.tasks.contains_key(task.id)
                &&& after.task_polled(task, Poll::Pending).tasks == state.tasks
                &&& after.task_polled(task, Poll::Ready(())).tasks == state.tasks.remove(task.id)
            }
        }),
{
    let (_, after, action) = run.next(state);
    if let Action::PollTask { task, .. } = action {
        assert(after.task_polled(task, Poll::Pending).tasks =~= state.tasks);
    }
}

/// Tasks are polled in the order in which they became ready: a run takes the first of
/// its queue and nothing else, and whoever becomes ready comes last. The ring is
/// submitted only when the queue is empty and a task waits for an event; a run gives up
/// only when its rounds are used up or there is nothing to do and nothing to wait for. It
/// is over when its main future is done, and only then.
pub proof fn queue_is_first_in_first_out(run: RunState, state: RuntimeState)
    requires
        run.wf(),
    ensures
        ({
            let (next, after, action) = run.next(state);
            let queue = run.queue(state);
            let may_go_on = !run.done && (run.draining || run.iterations <= MAX_ITERATIONS);
            match action {
                Action::PollMain { waker } => {
                    &&& may_go_on
                    &&& queue.len() > 0
                    &&& waker.task_id == queue[0]
                    &&& queue[0] == run.main_task_id
                    &&& next.queue(after) == queue.drop_first()
                },
                Action::PollTask { task, waker } => {
                    &&& may_go_on
                    &&& queue.len() > 0
                    &&& waker.task_id == queue[0]
                    &&& queue[0] != run.main_task_id
                    &&& state.tasks.contains_key(queue[0])
                    &&& task == state.tasks[queue[0]]
                    &&& next.queue(after) == queue.drop_first()
                },
                Action::MissingTask { task_id } => {
                    &&& may_go_on
                    &&& queue.len() > 0
                    &&& task_id == queue[0]
                    &&& queue[0] != run.main_task_id
                    &&& !state.tasks.contains_key(queue[0])
                    &&& next.queue(after) == queue.drop_first()
                },
                Action::Submit { .. } => {
                    &&& may_go_on
                    &&& queue.len() == 0
                    &&& !state.events.is_empty()
                    &&& next.queue(after).len() == 0
                    &&& after == state
                },
                Action::Finished => {
                    &&& run.done
                    &&& next == run
                    &&& after == state
                },
                Action::TooManyIterations => {
                    &&& !run.done
                    &&& !may_go_on || queue.len() == 0 && state.events.is_empty()
                    &&& next.queue(after) == queue
                    &&& after == state
                },
            }
        }),
        forall|task_id: usize|
            run.queue(#[trigger] state.made_ready(task_id)) == run.queue(state).push(task_id),
{
    let (next, after, action) = run.next(state);
    let queue = run.queue(state);
    if run.batch.len() > 0 {
        assert(run.batch.drop_first() + state.ready =~= queue.drop_first());
    } else {
        assert(queue =~= state.ready);
        assert(state.ready.drop_first() + Seq::<usize>::empty() =~= state.ready.drop_first());
    }
    assert forall|task_id: usize| run.queue(#[trigger] state.made_ready(task_id)) == run.queue(
        state,
    ).push(task_id) by {
        assert(run.batch + state.ready.push(task_id) =~= queue.push(task_id));
    }
}

/// Whatever happens between its steps, a run stays in order.
pub proof fn run_stays_in_order(run: RunState, state: RuntimeState)
    requires
        run.wf(),
    ensures
        run.next(state).0.wf(),
        run.next(state).0.main_task_id == run.main_task_id,
        run.iterations <= run.next(state).0.iterations,
        run.next(state).0.done == run.done,
{
}

/// One step of a run: the run and the runtime before it, and what the main future gives
/// if this is the step that polls it.
pub struct Step<T> {
    pub run: RunState,
    pub runtime: RuntimeState,
    pub main: Poll<T>,
}

impl<T> Step<T> {
    /// What is done in this step.
    pub open spec fn action(self) -> Action {
        self.run.next(self.runtime).2
    }

    /// The run after this step.
    pub open spec fn after(self) -> RunState {
        let next = self.run.next(self.runtime).0;
        if self.action() is PollMain {
            next.main_polled(self.main)
        } else {
            next
        }
    }

    /// What the run returns, if it ends with this step.
    pub open spec fn output(self) -> Option<T> {
        if self.action() is PollMain {
            self.run.next(self.runtime).0.output(self.main)
        } else {
            None
        }
    }
}

/// `trace` is the course of one run; the runtime may change in any way between its
/// steps.
pub open spec fn is_course<T>(trace: Seq<Step<T>>) -> bool {
    &&& trace.len() > 0
    &&& trace[0].run == RunState::begun(trace[0].run.main_task_id)
    &&& forall|k: int|
        #![trigger trace[k]]
        0 <= k < trace.len() - 1 ==> trace[k + 1].run == trace[k].after()
}

/// How often a run submits the ring in the course of `trace`.
pub open spec fn submissions<T>(trace: Seq<Step<T>>) -> nat
    decreases trace.len(),
{
    if trace.len() == 0 {
        0
    } else {
        submissions(trace.drop_last()) + if trace.last().action() is Submit {
            1nat
        } else {
            0nat
        }
    }
}

/// A run submits the ring a bounded number of times, however often its tasks are polled
/// in between.
pub proof fn submissions_are_bounded<T>(trace: Seq<Step<T>>)
    requires
        is_course(trace),
    ensures
        submissions(trace) <= MAX_ITERATIONS + 1,
{
    submissions_are_counted(trace);
    let last = trace.last();
    run_stays_in_order(last.run, last.runtime);
}

proof fn submissions_are_counted<T>(trace: Seq<Step<T>>)
    requires
        is_course(trace),
    ensures
        ({
            let after = trace.last().after();
            &&& trace.last().run.wf()
            &&& submissions(trace) <= after.iterations - if after.draining {
                1int
            } else {
                0int
            }
        }),
    decreases trace.len(),
{
    if trace.len() == 1 {
        assert(trace.drop_last().len() == 0);
        assert(submissions(trace.drop_last()) == 0);
    } else {
        let front = trace.drop_last();
        assert(is_course(front)) by {
            assert forall|k: int|
                #![trigger front[k]]
                0 <= k < front.len() - 1 implies front[k + 1].run == front[k].after() by {
                assert(front[k] == trace[k]);
                assert(front[k + 1] == trace[k + 1]);
            }
        }
        submissions_are_counted(front);
        let k = trace.len() - 2;
        assert(front.last() == trace[k]);
        assert(trace[k + 1].run == trace[k].after());
        run_stays_in_order(trace[k].run, trace[k].runtime);
    }
}

/// A run ends with the first output of its main future, and returns it: the main future
/// was not done before, and afterwards nothing is polled, nothing is submitted and the
/// runtime is left as it is.
pub proof fn run_ends_with_its_main_future<T>(trace: Seq<Step<T>>, i: int, output: T)
    requires
        is_course(trace),
        0 <= i < trace.len(),
        trace[i].action() is PollMain,
        trace[i].main == Poll::Ready(output),
    ensures
        trace[i].output() == Some(output),
        forall|j: int|
            0 <= j < i && (#[trigger] trace[j]).action() is PollMain ==> trace[j].main
                == Poll::<T>::Pending,
        forall|j: int|
            i < j < trace.len() ==> {
                &&& (#[trigger] trace[j]).action() == Action::Finished
                &&& trace[j].run.next(trace[j].runtime).1 == trace[j].runtime
                &&& trace[j].output() is None
            },
{
    assert forall|j: int|
        0 <= j < i && (#[trigger] trace[j]).action() is PollMain implies trace[j].main == Poll::<
        T,
    >::Pending by {
        if trace[j].main is Ready {
            assert(trace[j + 1].run == trace[j].after());
            done_stays(trace, j + 1, i);
        }
    }
    assert forall|j: int| i < j < trace.len() implies {
        &&& (#[trigger] trace[j]).action() == Action::Finished
        &&& trace[j].run.next(trace[j].runtime).1 == trace[j].runtime
        &&& trace[j].output() is None
    } by {
        assert(trace[i + 1].run == trace[i].after());
        done_stays(trace, i + 1, j);
    }
}

/// A run is not over before its main future is done.
pub proof fn run_goes_on_until_its_main_future_is_done<T>(trace: Seq<Step<T>>, j: int)
    requires
        is_course(trace),
        0 <= j < trace.len(),
        trace[j].action() is Finished,
    ensures
        exists|i: int|
            0 <= i < j && (#[trigger] trace[i]).action() is PollMain && trace[i].main is Ready,
    decreases j,
{
    if j > 0 {
        assert(trace[j - 1 + 1].run == trace[j - 1].after());
        if trace[j - 1].run.done {
            run_goes_on_until_its_main_future_is_done(trace, j - 1);
        }
    }
}

proof fn done_stays<T>(trace: Seq<Step<T>>, i: int, j: int)
    requires
        is_course(trace),
        0 <= i <= j < trace.len(),
        trace[i].run.done,
    ensures
        trace[j].run.done,
    decreases j - i,
{
    if i < j {
        done_stays(trace, i, j - 1);
        assert(trace[j - 1 + 1].run == trace[j - 1].after());
    }
}

/// A handle gives its task's output, whether it was polled before the task was done or
/// not, and gives it once; a task that waits for the handle is ready when the other is
/// done, and is woken once.
pub proof fn handle_gives_the_output<T>(
    storage: TaskStorage<T>,
    state: RuntimeState,
    waker: Waker,
    later: Waker,
    output: T,
)
    ensures
        storage.completed(output).polled(later).1 == Poll::Ready(output),
        storage.completed(output).polled(later).0 == TaskStorage::<T>::empty(),
        storage.completed(output).polled(later).0.polled(waker).1 == Poll::<T>::Pending,
        storage.completed(output).woken(state) == state,
        TaskStorage::<T>::empty().woken(state) == state,
        storage.result is None ==> {
            let (waiting, poll) = storage.polled(waker);
            &&& poll == Poll::<T>::Pending
            &&& waiting.woken(state) == state.made_ready(waker.task_id)
            &&& waiting.polled(later).0.woken(state) == state.made_ready(later.task_id)
        },
{
}

/// A spawned task is known, comes last in every queue, and nothing else changes but the
/// numbering.
pub proof fn spawned_task_will_be_polled(run: RunState, state: RuntimeState)
    requires
        state.wf(),
        state.has_id(),
    ensures
        ({
            let id = state.next_id as usize;
            let after = state.task_spawned();
            &&& !state.tasks.contains_key(id)
            &&& after.tasks == state.tasks.insert(id, Task { id })
            &&& run.queue(after) == run.queue(state).push(id)
            &&& after.events == state.events
            &&& after.wakers == state.wakers
        }),
{
    assert(run.batch + state.ready.push(state.next_id as usize) =~= run.queue(state).push(
        state.next_id as usize,
    ));
}

/// An error that wraps an error shows what the inner one shows, however often it is
/// wrapped.
pub proof fn wrapping_again_keeps_the_text<E: core::fmt::Display>(e: E, chain: Seq<Error>, i: int)
    requires
        0 <= i < chain.len(),
        chain[0].shows(e),
        forall|k: int|
            #![trigger chain[k]]
            0 <= k < chain.len() - 1 ==> chain[k + 1].msg@ == chain[k].msg@,
    ensures
        chain[i].msg@ == chain[0].msg@,
        chain[i].shows(e),
    decreases i,
{
    if i > 0 {
        wrapping_again_keeps_the_text(e, chain, i - 1);
        assert(chain[i - 1 + 1].msg@ == chain[i - 1].msg@);
    }
}

/// A toggle is pending the first time and done every time after.
pub proof fn toggle_is_pending_once(future: ToggleFuture)
    ensures
        future.polled().0.polled().1 == Poll::Ready(()),
        future.polled().0.polled().0 == future.polled().0,
        !future.toggled ==> future.polled().1 == Poll::<()>::Pending,
{
}

/// An idle stream that is polled waits for the socket, and its task is ready to poll it
/// again at once; the poll after that registers the event; when the watch has ended, the
/// next poll says so, and the stream is idle again.
pub proof fn stream_waits_for_its_socket(
    fd: i32,
    interest: Interest,
    state: RuntimeState,
    waker: Waker,
    second: Waker,
    third: Waker,
    completed: Seq<Completion>,
    i: int,
)
    requires
        state.wf(),
        state.has_id(),
        last_answer(completed, state.next_id as usize, i),
    ensures
        ({
            let (watched, submitted, first_poll) = TcpStreamState::Idle.polled(
                fd,
                interest,
                state,
                waker,
            );
            let (waiting, registered, second_poll) = watched.polled(
                fd,
                interest,
                submitted,
                second,
            );
            let arrived = registered.ring_completed(completed);
            let (after, collected, third_poll) = waiting.polled(fd, interest, arrived, third);
            &&& first_poll is Registered
            &&& submitted.ready == state.ready.push(waker.task_id)
            &&& watched.pollable(submitted)
            &&& second_poll is Pending
            &&& waiting.pollable(arrived)
            &&& third_poll == match completed[i].result() {
                Ok(events) => SocketPoll::Ready(events),
                Err(error) => SocketPoll::Failed(error),
            }
            &&& after == TcpStreamState::Idle
            &&& collected.events.dom() == state.events.dom()
        }),
{
    let (watched, submitted, _) = TcpStreamState::Idle.polled(fd, interest, state, waker);
    event_gives_back_its_result(
        submitted,
        EventFuture::begun(state.next_id as usize),
        second,
        third,
        completed,
        i,
    );
}

/// Whatever came of the watch and whatever came of the write, polling to write ends in no
/// error that would block or was interrupted. Where the watch ended in one, the stream is
/// idle and its task is ready, behind all others. Polling to read is left as it is.
pub proof fn write_ends_in_other_errors_only<E>(
    stream: TcpStreamState,
    fd: i32,
    state: RuntimeState,
    waker: Waker,
    written: Result<usize, (ErrorKind, E)>,
)
    ensures
        ({
            let (watched, after, watch) = stream.polled(fd, Interest::Writable, state, waker);
            let (next, later, poll) = stream.write_polled(fd, state, waker);
            &&& poll != SocketPoll::Failed(EAGAIN)
            &&& poll != SocketPoll::Failed(EINTR)
            &&& poll is Retry <==> watch == SocketPoll::Failed(EAGAIN) || watch
                == SocketPoll::Failed(EINTR)
            &&& poll is Retry ==> next == TcpStreamState::Idle && later == after.made_ready(
                waker.task_id,
            )
            &&& poll !is Retry ==> (next, later, poll) == (watched, after, watch)
        }),
        write_finished(written) matches Poll::Ready(Err(error)) ==> written == Err::<usize, _>(
            (ErrorKind::Other, error),
        ),
        stream.polled(fd, Interest::Readable, state, waker).2 !is Retry,
{
}

/// An idle stream that is polled to write waits for room; when the watch has ended in an
/// error that would block or was interrupted, the next poll does not fail but makes the
/// task ready, and the one after that watches the socket again.
pub proof fn write_watches_again(
    fd: i32,
    state: RuntimeState,
    waker: Waker,
    second: Waker,
    third: Waker,
    fourth: Waker,
    completed: Seq<Completion>,
    i: int,
)
    requires
        state.wf(),
        state.has_id(),
        last_answer(completed, state.next_id as usize, i),
        completed[i].result() == Err::<u32, i32>(EAGAIN) || completed[i].result() == Err::<
            u32,
            i32,
        >(EINTR),
    ensures
        ({
            let (watched, submitted, _) = TcpStreamState::Idle.write_polled(fd, state, waker);
            let (waiting, registered, _) = watched.write_polled(fd, submitted, second);
            let arrived = registered.ring_completed(completed);
            let (idle, collected, poll) = waiting.write_polled(fd, arrived, third);
            &&& waiting.pollable(arrived)
            &&& poll is Retry
            &&& idle == TcpStreamState::Idle
            &&& collected.ready == arrived.ready.push(third.task_id)
            &&& collected.events.dom() == state.events.dom()
            &&& idle.write_polled(fd, collected, fourth).2 is Registered
        }),
{
    stream_waits_for_its_socket(
        fd,
        Interest::Writable,
        state,
        waker,
        second,
        third,
        completed,
        i,
    );
}

/// Whoever waited for an event before, a completion future has its own task woken, and
/// is done when the event has completed.
pub proof fn completion_is_waited_for(
    state: RuntimeState,
    event_id: usize,
    waker: Waker,
    later: Waker,
    result: Result<u32, i32>,
)
    requires
        state.events.contains_key(event_id) ==> state.events[event_id].result is None,
    ensures
        ({
            let future = EventCompletion { target_event_id: event_id, primed: false };
            let (primed, registered, first) = future.polled(state, waker);
            let arrived = registered.event_completed(event_id, result);
            let (_, collected, second) = primed.polled(arrived, later);
            &&& first == Poll::<()>::Pending
            &&& primed.polled(registered, later).2 == Poll::<()>::Pending
            &&& arrived.ready == state.ready.push(waker.task_id)
            &&& second == Poll::Ready(())
            &&& collected.events == state.events.remove(event_id)
        }),
{
    let future = EventCompletion { target_event_id: event_id, primed: false };
    let (primed, registered, _) = future.polled(state, waker);
    let arrived = registered.event_completed(event_id, result);
    let (_, collected, _) = primed.polled(arrived, later);
    assert(collected.events =~= state.events.remove(event_id));
}

} // verus!
