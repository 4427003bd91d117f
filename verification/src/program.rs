use vstd::prelude::*;

use crate::event::Completion;
use crate::poll::Poll;
use crate::run::{Action, RunState};
use crate::runtime::RuntimeState;
use crate::task::{Task, TaskStorage, Waker};

verus! {

/// `after` may come of `before` by operations of the runtime: the bookkeeping is in order,
/// no id is taken back, and the ready queue is at most longer.
pub open spec fn grows(before: RuntimeState, after: RuntimeState) -> bool {
    &&& after.wf()
    &&& before.next_id <= after.next_id
    &&& before.ready.is_prefix_of(after.ready)
}

/// A future as the runtime sees it: it is pending a number of times and then done.
pub struct Script<T> {
    /// How many polls are pending before the one that is done.
    pub pending: nat,
    /// What the future gives.
    pub output: T,
    /// What a poll does to the runtime, by the number of pending polls that are left: it
    /// may wake tasks and spawn them, number, register and collect events.
    pub effect: spec_fn(nat, RunState, RuntimeState, Waker) -> RuntimeState,
}

impl<T> Script<T> {
    /// What the polls do is made of operations of the runtime.
    pub open spec fn keeps_to_operations(self) -> bool {
        forall|left: nat, run: RunState, runtime: RuntimeState, waker: Waker|
            runtime.wf() ==> grows(
                runtime,
                #[trigger] (self.effect)(left, run, runtime, waker),
            )
    }

    /// What polling the future does to it and to the runtime, and what it gives.
    pub open spec fn polled(self, run: RunState, runtime: RuntimeState, waker: Waker) -> (
        Script<T>,
        RuntimeState,
        Poll<T>,
    ) {
        let after = (self.effect)(self.pending, run, runtime, waker);
        if self.pending == 0 {
            (self, after, Poll::Ready(self.output))
        } else {
            (Script { pending: (self.pending - 1) as nat, ..self }, after, Poll::Pending)
        }
    }
}

/// A main future.
pub enum Main<T> {
    /// It is the future itself.
    Runs(Script<T>),
    /// It spawns the future, and awaits the handle.
    Spawns(Script<T>),
    /// It awaits the handle of the future that it has spawned.
    Awaits,
}

/// What a run meets besides its main future and what that spawns. All of it may depend on
/// the number of actions performed so far, on the run and on the runtime.
pub struct Surroundings {
    /// What polling another task does to the runtime, and what it gives.
    pub polled: spec_fn(nat, RunState, RuntimeState, Task, Waker) -> (RuntimeState, Poll<()>),
    /// The completions that a submission of the ring brings.
    pub completed: spec_fn(nat, RunState, RuntimeState) -> Seq<Completion>,
}

impl Surroundings {
    /// What the other tasks do is made of operations of the runtime.
    pub open spec fn keep_to_operations(self) -> bool {
        forall|time: nat, run: RunState, runtime: RuntimeState, task: Task, waker: Waker|
            runtime.wf() ==> grows(
                runtime,
                (#[trigger] (self.polled)(time, run, runtime, task, waker)).0,
            )
    }
}

/// How a run stands.
pub enum Outcome<T> {
    Running,
    /// The run has returned this.
    Returned(T),
    /// The run could not go on, since all ids were given out.
    OutOfIds,
    /// The run has met a missing task, or has given up.
    Failed,
}

/// A run, and all that its actions reach: the runtime, the main future, a spawned future
/// with the storage that it shares with its handle, and the surroundings.
pub struct World<T> {
    pub run: RunState,
    pub runtime: RuntimeState,
    pub main: Main<T>,
    pub spawned: Option<(usize, Script<T>)>,
    pub storage: TaskStorage<T>,
    pub surroundings: Surroundings,
    pub time: nat,
}

impl<T> World<T> {
    /// A run of `main` begins on the runtime.
    pub open spec fn begun(
        runtime: RuntimeState,
        main: Main<T>,
        surroundings: Surroundings,
    ) -> World<T> {
        let main_task_id = runtime.next_id as usize;
        World {
            run: RunState::begun(main_task_id),
            runtime: runtime.task_id_issued().made_ready(main_task_id),
            main,
            spawned: None,
            storage: TaskStorage::empty(),
            surroundings,
            time: 0,
        }
    }

    /// The tasks that are to be polled, in that order.
    pub open spec fn queue(self) -> Seq<usize> {
        self.run.queue(self.runtime)
    }

    /// What polling the main future does, the run left aside, and what it gives.
    pub open spec fn main_polled(self, waker: Waker) -> (World<T>, Poll<T>) {
        match self.main {
            Main::Runs(future) => {
                let (next, runtime, poll) = future.polled(self.run, self.runtime, waker);
                (World { main: Main::Runs(next), runtime, ..self }, poll)
            },
            Main::Spawns(future) => {
                let (storage, poll) = TaskStorage::<T>::empty().polled(waker);
                let task_id = self.runtime.next_id as usize;
                (
                    World {
                        main: Main::Awaits,
                        runtime: self.runtime.task_spawned(),
                        spawned: Some((task_id, future)),
                        storage,
                        ..self
                    },
                    poll,
                )
            },
            Main::Awaits => {
                let (storage, poll) = self.storage.polled(waker);
                (World { storage, ..self }, poll)
            },
        }
    }

    /// What polling the spawned future does, and whether it is done: then it leaves its
    /// output in the storage and wakes whoever waits for it.
    pub open spec fn spawned_polled(self, task_id: usize, future: Script<T>, waker: Waker) -> (
        World<T>,
        Poll<()>,
    ) {
        let (next, runtime, poll) = future.polled(self.run, self.runtime, waker);
        match poll {
            Poll::Pending => (
                World { spawned: Some((task_id, next)), runtime, ..self },
                Poll::Pending,
            ),
            Poll::Ready(output) => (
                World {
                    spawned: None,
                    runtime: self.storage.woken(runtime),
                    storage: self.storage.completed(output),
                    ..self
                },
                Poll::Ready(()),
            ),
        }
    }

    /// There are ids for the waker of the next poll, if there is one, and for the task that
    /// the main future then spawns.
    pub open spec fn has_ids(self) -> bool {
        let (_, runtime, action) = self.run.next(self.runtime);
        &&& self.queue().len() > 0 ==> self.runtime.has_id()
        &&& self.main is Spawns && action is PollMain ==> runtime.has_id()
    }

    /// The next action of the run is performed.
    pub open spec fn step(self) -> (World<T>, Outcome<T>) {
        let (run, runtime, action) = self.run.next(self.runtime);
        let world = World { run, runtime, time: self.time + 1, ..self };
        if !self.has_ids() {
            (self, Outcome::OutOfIds)
        } else {
            match action {
                Action::PollMain { waker } => {
                    let (after, poll) = world.main_polled(waker);
                    (
                        World { run: run.main_polled(poll), ..after },
                        match run.output(poll) {
                            Some(output) => Outcome::Returned(output),
                            None => Outcome::Running,
                        },
                    )
                },
                Action::PollTask { task, waker } => {
                    let (after, poll) = match self.spawned {
                        Some((task_id, future)) if task_id == task.id => world.spawned_polled(
                            task_id,
                            future,
                            waker,
                        ),
                        _ => {
                            let (after, poll) = (self.surroundings.polled)(
                                self.time,
                                run,
                                runtime,
                                task,
                                waker,
                            );
                            (World { runtime: after, ..world }, poll)
                        },
                    };
                    (
                        World { runtime: after.runtime.task_polled(task, poll), ..after },
                        Outcome::Running,
                    )
                },
                Action::Submit { .. } => {
                    let completed = (self.surroundings.completed)(self.time, run, runtime);
                    (
                        World { runtime: runtime.ring_completed(completed), ..world },
                        Outcome::Running,
                    )
                },
                _ => (self, Outcome::Failed),
            }
        }
    }

    /// How the run stands after at most so many actions.
    pub open spec fn outcome(self, actions: nat) -> Outcome<T>
        decreases actions,
    {
        if actions == 0 {
            Outcome::Running
        } else {
            match self.step() {
                (after, Outcome::Running) => after.outcome((actions - 1) as nat),
                (_, outcome) => outcome,
            }
        }
    }

    /// The world after so many actions, if the run is still running then.
    pub open spec fn after(self, actions: nat) -> World<T>
        decreases actions,
    {
        if actions == 0 {
            self
        } else {
            self.step().0.after((actions - 1) as nat)
        }
    }

    /// The task that the future goes by until it is done, whether it is the main future or
    /// was spawned.
    pub open spec fn future_task(self) -> Option<usize> {
        match (self.main, self.spawned) {
            (Main::Runs(_), _) => Some(self.run.main_task_id),
            (Main::Awaits, Some((task_id, _))) => Some(task_id),
            _ => None,
        }
    }

    /// If the run is still running after so many actions, the future is ready to be polled
    /// then, or done.
    pub open spec fn ready_at(self, actions: nat) -> bool {
        self.outcome(actions) is Running ==> match self.after(actions).future_task() {
            Some(task_id) => self.after(actions).queue().contains(task_id),
            None => true,
        }
    }

    /// The run does not fail.
    pub open spec fn goes_well(self) -> bool {
        forall|actions: nat| (#[trigger] self.outcome(actions)) !is Failed
    }

    /// Whenever the future is pending, it is woken, now or later.
    pub open spec fn is_woken_again(self) -> bool {
        forall|actions: nat| #[trigger]
            self.outcome(actions) is Running ==> exists|later: nat|
                actions <= later && #[trigger] self.ready_at(later)
    }

    /// The run returns `output` after a number of actions and returns nothing else, unless
    /// the ids are all given out before.
    pub open spec fn ends_with(self, output: T) -> bool {
        &&& exists|actions: nat| (#[trigger] self.outcome(actions)) !is Running
        &&& forall|actions: nat|
            match #[trigger] self.outcome(actions) {
                Outcome::Running => true,
                Outcome::Returned(returned) => returned == output,
                Outcome::OutOfIds => true,
                Outcome::Failed => false,
            }
    }
}

} // verus!
