use std::collections::VecDeque;

use vstd::prelude::*;

use crate::poll::Poll;
use crate::runtime::{Runtime, RuntimeState};
use crate::task::{Task, Waker};

verus! {

/// A run gives up when it would begin its next round after more than this many.
pub const MAX_ITERATIONS: u32 = 30;

/// How many completions a submission waits for.
pub const WAIT_FOR: u32 = 1;

/// What the caller of [`Run::next`] has to do before it calls again.
#[derive(Debug, PartialEq, Eq)]
pub enum Action {
    /// Poll the main future with this waker, and hand what it gave to
    /// [`Run::main_polled`].
    PollMain { waker: Waker },
    /// Poll the task's future with this waker, and hand the task back to
    /// [`Runtime::task_polled`] with what it gave.
    PollTask { task: Task, waker: Waker },
    /// Submit the ring, wait for that many completions, and hand all that there are
    /// to [`Runtime::complete_events`].
    Submit { wait_for: u32 },
    /// Return the output of the main future: it is done, and so is the run.
    Finished,
    /// Something was woken that is no task: a task that has finished or never was. Fail,
    /// unless the caller knows what goes by that id and wakes it; the entry has left the
    /// queue, and the run can go on with the next one.
    MissingTask { task_id: usize },
    /// Fail: the main future is not done after too many rounds.
    TooManyIterations,
}

/// How far a run has come, as mathematical values.
#[verifier::ext_equal]
pub struct RunState {
    /// The task that the main future goes by.
    pub main_task_id: usize,
    /// How many rounds have begun.
    pub iterations: nat,
    /// The tasks that are still to be polled before the ready queue is looked at.
    pub batch: Seq<usize>,
    /// Whether the round is still polling, or has come to its end.
    pub draining: bool,
    /// Whether the main future is done.
    pub done: bool,
}

impl RunState {
    /// The state in which a run begins.
    pub open spec fn begun(main_task_id: usize) -> RunState {
        RunState {
            main_task_id,
            iterations: 0,
            batch: Seq::empty(),
            draining: false,
            done: false,
        }
    }

    pub open spec fn wf(self) -> bool {
        &&& self.iterations <= MAX_ITERATIONS + 1
        &&& self.draining ==> self.iterations >= 1
        &&& !self.draining ==> self.batch.len() == 0
    }

    /// All tasks that are to be polled, in that order.
    pub open spec fn queue(self, runtime: RuntimeState) -> Seq<usize> {
        self.batch + runtime.ready
    }

    /// The first task of the batch is taken out and given a waker.
    pub open spec fn dispatched(self, runtime: RuntimeState) -> (RunState, RuntimeState, Action) {
        let task_id = self.batch[0];
        let run = RunState { batch: self.batch.drop_first(), ..self };
        let waker = Waker { id: runtime.next_id as usize, task_id };
        let made = runtime.waker_made(task_id);
        if task_id == self.main_task_id {
            (run, made, Action::PollMain { waker })
        } else if made.tasks.contains_key(task_id) {
            (
                run,
                RuntimeState { tasks: made.tasks.remove(task_id), ..made },
                Action::PollTask { task: made.tasks[task_id], waker },
            )
        } else {
            (run, made, Action::MissingTask { task_id })
        }
    }

    /// The round goes on where it is, or the next one begins.
    pub open spec fn entered(self) -> RunState {
        if self.draining {
            self
        } else {
            RunState { iterations: self.iterations + 1, draining: true, ..self }
        }
    }

    /// What the run does next: it polls the tasks of its batch, then those that have
    /// become ready since, until none is ready; then it submits the ring, which ends
    /// the round. Where there is nothing to submit either, all remaining rounds pass
    /// without effect. A run whose main future is done does nothing more.
    pub open spec fn next(self, runtime: RuntimeState) -> (RunState, RuntimeState, Action) {
        let round = self.entered();
        if self.done {
            (self, runtime, Action::Finished)
        } else if !self.draining && self.iterations > MAX_ITERATIONS {
            (self, runtime, Action::TooManyIterations)
        } else if round.batch.len() > 0 {
            round.dispatched(runtime)
        } else if runtime.ready.len() > 0 {
            RunState { batch: runtime.ready, ..round }.dispatched(
                RuntimeState { ready: Seq::empty(), ..runtime },
            )
        } else if !runtime.events.is_empty() {
            (
                RunState { draining: false, ..round },
                runtime,
                Action::Submit { wait_for: WAIT_FOR },
            )
        } else {
            (
                RunState {
                    iterations: (MAX_ITERATIONS + 1) as nat,
                    draining: false,
                    ..round
                },
                runtime,
                Action::TooManyIterations,
            )
        }
    }

    /// The main future was polled: as soon as it is done, so is the run.
    pub open spec fn main_polled<T>(self, poll: Poll<T>) -> RunState {
        RunState { done: self.done || poll is Ready, ..self }
    }

    /// What the run returns, if it ends when its main future gives this: the first output
    /// of the main future.
    pub open spec fn output<T>(self, poll: Poll<T>) -> Option<T> {
        match poll {
            Poll::Ready(output) if !self.done => Some(output),
            _ => None,
        }
    }
}

/// One run of a main future: it polls what is ready, and waits for the ring when
/// nothing is.
pub struct Run {
    main_task_id: usize,
    iterations: u32,
    ready_tasks: VecDeque<usize>,
    draining: bool,
    done: bool,
}

impl View for Run {
    type V = RunState;

    closed spec fn view(&self) -> RunState {
        RunState {
            main_task_id: self.main_task_id,
            iterations: self.iterations as nat,
            batch: self.ready_tasks@,
            draining: self.draining,
            done: self.done,
        }
    }
}

impl Runtime {
    /// Begins to run a main future: it gets a task id and is ready.
    pub fn run(&mut self) -> (run: Run)
        requires
            old(self)@.wf(),
            old(self)@.has_id(),
        ensures
            run@ == RunState::begun(old(self)@.next_id as usize),
            run@.wf(),
            final(self)@ == old(self)@.task_id_issued().made_ready(old(self)@.next_id as usize),
            final(self)@.wf(),
    {
        let main_task_id: usize = self.get_task_id();
        self.push_ready(main_task_id);
        let run = Run {
            main_task_id,
            iterations: 0,
            ready_tasks: VecDeque::new(),
            draining: false,
            done: false,
        };
        assert(run@ =~= RunState::begun(main_task_id));
        run
    }
}

impl Run {
    /// Decides what to do next.
    pub fn next(&mut self, runtime: &mut Runtime) -> (action: Action)
        requires
            old(self)@.wf(),
            old(runtime)@.wf(),
            !old(self)@.done && old(self)@.queue(old(runtime)@).len() > 0
                ==> old(runtime)@.has_id(),
        ensures
            (final(self)@, final(runtime)@, action) == old(self)@.next(old(runtime)@),
            final(self)@.wf(),
            final(runtime)@.wf(),
    {
        if self.done {
            return Action::Finished;
        }
        loop
            invariant
                self@.wf(),
                !self@.done,
                runtime@.wf(),
                self@.queue(runtime@).len() > 0 ==> runtime@.has_id(),
                self@.next(runtime@) == old(self)@.next(old(runtime)@),
            decreases
                MAX_ITERATIONS + 1 - self@.iterations,
                runtime@.ready.len(),
                if self@.draining { 1int } else { 0int },
        {
            if !self.draining {
                if self.iterations > MAX_ITERATIONS {
                    return Action::TooManyIterations;
                }
                self.iterations = self.iterations + 1;
                self.draining = true;
                runtime.swap_ready(&mut self.ready_tasks);
            }
            match self.ready_tasks.pop_front() {
                Some(task_id) => {
                    return self.dispatch(runtime, task_id);
                },
                None => {
                    if runtime.no_ready_task() {
                        self.draining = false;
                        if !runtime.no_event() {
                            return Action::Submit { wait_for: WAIT_FOR };
                        }
                    } else {
                        runtime.swap_ready(&mut self.ready_tasks);
                    }
                },
            }
        }
    }

    /// Takes what the main future gave when it was polled, and gives its output when it
    /// is done: the run is over then.
    pub fn main_polled<T>(&mut self, poll: Poll<T>) -> (output: Option<T>)
        requires
            old(self)@.wf(),
        ensures
            final(self)@ == old(self)@.main_polled(poll),
            output == old(self)@.output(poll),
            final(self)@.wf(),
    {
        match poll {
            Poll::Ready(output) => {
                if self.done {
                    return None;
                }
                self.done = true;
                Some(output)
            },
            Poll::Pending => None,
        }
    }

    /// Makes the waker for the task's next poll and takes the task out.
    fn dispatch(&mut self, runtime: &mut Runtime, task_id: usize) -> (action: Action)
        requires
            old(runtime)@.wf(),
            old(runtime)@.has_id(),
        ensures
            final(self)@ == old(self)@,
            final(runtime)@.wf(),
            ({
                let batch = seq![task_id] + old(self)@.batch;
                (final(self)@, final(runtime)@, action) == (RunState {
                    batch,
                    ..old(self)@
                }).dispatched(old(runtime)@)
            }),
    {
        assert((seq![task_id] + self@.batch).drop_first() =~= self@.batch);
        let waker = runtime.make_waker(task_id);
        if task_id == self.main_task_id {
            Action::PollMain { waker }
        } else {
            let ghost made = runtime@;
            match runtime.take_task(task_id) {
                Some(task) => Action::PollTask { task, waker },
                None => {
                    assert(runtime@ =~= made) by {
                        assert(made.tasks.remove(task_id) =~= made.tasks);
                    }
                    Action::MissingTask { task_id }
                },
            }
        }
    }
}

} // verus!
