//! What a run does next, and how it counts its rounds.

use vstd::prelude::*;

use super::{is_course, queue_is_first_in_first_out, run_stays_in_order, submissions, Step};
use crate::poll::Poll;
use crate::run::{Action, RunState};
use crate::runtime::RuntimeState;
use crate::task::Waker;

verus! {

/// A run begins with nothing to poll of its own, before its first round, and is not over.
pub proof fn run_begins_before_its_first_round(main_task_id: usize)
    ensures
        ({
            let run = RunState::begun(main_task_id);
            &&& run.main_task_id == main_task_id
            &&& run.iterations == 0
            &&& run.batch.len() == 0
            &&& !run.draining
            &&& !run.done
        }),
{
}

/// The queue of a run is what is left of its batch, and behind that what has become ready
/// since the batch was taken.
pub proof fn queue_is_batch_and_ready(run: RunState, state: RuntimeState, i: int)
    ensures
        run.queue(state).len() == run.batch.len() + state.ready.len(),
        0 <= i < run.batch.len() ==> run.queue(state)[i] == run.batch[i],
        0 <= i < state.ready.len() ==> run.queue(state)[run.batch.len() + i] == state.ready[i],
{
}

/// As long as a task is ready and the run has rounds left, the first task of the queue is
/// polled with a waker of its own, or found missing. That uses up no round: the round goes
/// on, and only where none had begun does one begin. Of the runtime it takes an id for the
/// waker and, unless it is the main task's turn, the task.
pub proof fn ready_task_is_polled_within_the_round(run: RunState, state: RuntimeState)
    requires
        !run.done,
        run.draining || run.iterations <= 30,
        run.batch.len() + state.ready.len() > 0,
        state.next_id <= usize::MAX,
    ensures
        ({
            let (next, after, action) = run.next(state);
            let from_batch = run.batch.len() > 0;
            let task_id = if from_batch {
                run.batch[0]
            } else {
                state.ready[0]
            };
            let waker_id = state.next_id as usize;
            &&& task_id == run.main_task_id ==> {
                &&& action matches Action::PollMain { waker }
                &&& waker.id == waker_id
                &&& waker.task_id == task_id
            }
            &&& task_id != run.main_task_id && state.tasks.contains_key(task_id) ==> {
                &&& action matches Action::PollTask { task, waker }
                &&& waker.id == waker_id
                &&& waker.task_id == task_id
                &&& task == state.tasks[task_id]
            }
            &&& task_id != run.main_task_id && !state.tasks.contains_key(task_id) ==> action
                == Action::MissingTask { task_id }
            &&& run.draining ==> next.iterations == run.iterations
            &&& !run.draining ==> next.iterations == run.iterations + 1
            &&& next.draining
            &&& !next.done
            &&& next.main_task_id == run.main_task_id
            &&& from_batch ==> next.batch == run.batch.subrange(1, run.batch.len() as int)
                && after.ready == state.ready
            &&& !from_batch ==> next.batch == state.ready.subrange(1, state.ready.len() as int)
                && after.ready.len() == 0
            &&& action is PollTask ==> after.tasks == state.tasks.remove(task_id)
            &&& action !is PollTask ==> after.tasks == state.tasks
            &&& after.wakers == state.wakers.insert(waker_id, Waker { id: waker_id, task_id })
            &&& after.waker_ids == state.waker_ids + 1
            &&& after.next_id == state.next_id + 1
            &&& after == RuntimeState {
                ready: after.ready,
                tasks: after.tasks,
                wakers: after.wakers,
                waker_ids: after.waker_ids,
                next_id: after.next_id,
                ..state
            }
        }),
{
}

/// When nothing is ready and somebody waits for an event, the ring is submitted, to wait for
/// one completion. That ends the round, which counts once, and leaves the runtime as it is.
pub proof fn submitting_ends_the_round(run: RunState, state: RuntimeState, event_id: usize)
    requires
        !run.done,
        run.draining || run.iterations <= 30,
        run.batch.len() == 0,
        state.ready.len() == 0,
        state.events.contains_key(event_id),
    ensures
        ({
            let (next, after, action) = run.next(state);
            &&& action == Action::Submit { wait_for: 1 }
            &&& after == state
            &&& run.draining ==> next.iterations == run.iterations
            &&& !run.draining ==> next.iterations == run.iterations + 1
            &&& !next.draining
            &&& !next.done
            &&& next.batch.len() == 0
            &&& next.main_task_id == run.main_task_id
        }),
{
    assert(state.events.dom().contains(event_id));
}

/// When nothing is ready and nobody waits for anything, or when all rounds are used up, the
/// run gives up, and gives up again whenever it is asked; the runtime is left as it is.
pub proof fn run_gives_up_for_good(run: RunState, state: RuntimeState, later: RuntimeState)
    requires
        !run.done,
        ({
            ||| !run.draining && run.iterations > 30
            ||| run.batch.len() == 0 && state.ready.len() == 0 && state.events.dom()
                =~= Set::<usize>::empty()
        }),
    ensures
        ({
            let (next, after, action) = run.next(state);
            &&& action == Action::TooManyIterations
            &&& after == state
            &&& next.next(later) == (next, later, Action::TooManyIterations)
            &&& next.batch == run.batch
            &&& !next.done
            &&& next.main_task_id == run.main_task_id
        }),
{
    assert(state.events.is_empty() || !run.draining && run.iterations > 30);
}

/// A run that is over stays as it is and does nothing, whatever is ready.
pub proof fn finished_run_does_nothing(run: RunState, state: RuntimeState)
    requires
        run.done,
    ensures
        run.next(state) == (run, state, Action::Finished),
{
}

/// A main future that is pending leaves the run as it is. The first output ends the run and
/// is what it returns, unchanged; any later one is none of its own.
pub proof fn main_output_ends_the_run<T>(run: RunState, output: T)
    ensures
        run.main_polled(Poll::<T>::Pending) == run,
        run.output(Poll::<T>::Pending) is None,
        run.main_polled(Poll::Ready(output)).done,
        run.main_polled(Poll::Ready(output)) == (RunState { done: true, ..run }),
        !run.done ==> run.output(Poll::Ready(output)) == Some(output),
        run.done ==> run.output(Poll::Ready(output)) is None,
{
}

/// The rounds of a run are the submissions of its ring, and the round that it is in: however
/// many tasks it polls, that counts for nothing. This is as long as it has not given up.
pub proof fn rounds_are_counted_by_submissions<T>(trace: Seq<Step<T>>)
    requires
        is_course(trace),
        forall|k: int|
            0 <= k < trace.len() - 1 ==> (#[trigger] trace[k]).action() !is TooManyIterations,
    ensures
        trace.last().run.iterations == submissions(trace.drop_last()) + if trace.last().run.draining {
            1nat
        } else {
            0nat
        },
        trace.last().run.wf(),
    decreases trace.len(),
{
    let front = trace.drop_last();
    if trace.len() == 1 {
        assert(submissions(front) == 0);
    } else {
        assert(is_course(front)) by {
            assert forall|k: int|
                #![trigger front[k]]
                0 <= k < front.len() - 1 implies front[k + 1].run == front[k].after() by {
                assert(front[k] == trace[k]);
                assert(front[k + 1] == trace[k + 1]);
            }
        }
        assert forall|k: int| 0 <= k < front.len() - 1 implies (
        #[trigger] front[k]).action() !is TooManyIterations by {
            assert(front[k] == trace[k]);
        }
        rounds_are_counted_by_submissions(front);
        let k = trace.len() - 2;
        assert(front.last() == trace[k]);
        assert(trace[k + 1].run == trace[k].after());
        run_stays_in_order(trace[k].run, trace[k].runtime);
    }
}

/// A run that has something to poll or to wait for gives up only when it has submitted the
/// ring thirty-one times.
pub proof fn run_gives_up_only_after_all_rounds<T>(trace: Seq<Step<T>>)
    requires
        is_course(trace),
        forall|k: int|
            0 <= k < trace.len() - 1 ==> (#[trigger] trace[k]).action() !is TooManyIterations,
        trace.last().action() is TooManyIterations,
        ({
            let last = trace.last();
            ||| last.run.batch.len() > 0
            ||| last.runtime.ready.len() > 0
            ||| exists|event_id: usize| last.runtime.events.contains_key(event_id)
        }),
    ensures
        submissions(trace.drop_last()) == 31,
{
    let last = trace.last();
    rounds_are_counted_by_submissions(trace);
    queue_is_first_in_first_out(last.run, last.runtime);
    if exists|event_id: usize| last.runtime.events.contains_key(event_id) {
        let event_id = choose|event_id: usize| last.runtime.events.contains_key(event_id);
        assert(last.runtime.events.dom().contains(event_id));
    }
}

/// A run that has submitted the ring at most thirty times, and has something to poll or to
/// wait for, goes on.
pub proof fn run_goes_on_while_it_has_rounds<T>(trace: Seq<Step<T>>)
    requires
        is_course(trace),
        forall|k: int|
            0 <= k < trace.len() - 1 ==> (#[trigger] trace[k]).action() !is TooManyIterations,
        submissions(trace.drop_last()) <= 30,
        !trace.last().run.done,
        trace.last().run.batch.len() > 0 || trace.last().runtime.ready.len() > 0,
    ensures
        trace.last().action() is PollMain || trace.last().action() is PollTask
            || trace.last().action() is MissingTask,
{
    rounds_are_counted_by_submissions(trace);
}

} // verus!
