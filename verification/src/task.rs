use vstd::prelude::*;

use crate::poll::Poll;
use crate::runtime::{Runtime, RuntimeState};

verus! {

/// A task that the runtime knows: its future is kept elsewhere, under this id.
#[derive(Debug, PartialEq, Eq)]
pub struct Task {
    pub id: usize,
}

/// Stands for the task that is to be polled again when something happens.
///
/// Every poll of a task gets a waker of its own, so `id` differs from poll to
/// poll while `task_id` stays.
#[derive(Clone, Copy, Debug, PartialEq, Eq)]
pub struct Waker {
    pub id: usize,
    pub task_id: usize,
}

/// What a spawned task and the handle to it share: the task leaves its output, the
/// handle leaves the waker of whoever waits for it.
#[derive(Debug, PartialEq, Eq)]
pub struct TaskStorage<T> {
    pub result: Option<T>,
    pub waker: Option<Waker>,
}

impl<T> TaskStorage<T> {
    /// Neither is there yet.
    pub fn new() -> (storage: TaskStorage<T>)
        ensures
            storage == TaskStorage::<T>::empty(),
    {
        TaskStorage { result: None, waker: None }
    }

    /// Nothing was left yet.
    pub open spec fn empty() -> TaskStorage<T> {
        TaskStorage { result: None, waker: None }
    }

    /// The task has left its output.
    pub open spec fn completed(self, output: T) -> TaskStorage<T> {
        TaskStorage { result: Some(output), waker: None }
    }

    /// What polling the handle does to the storage, and what it gives.
    pub open spec fn polled(self, waker: Waker) -> (TaskStorage<T>, Poll<T>) {
        match self.result {
            Some(output) => (TaskStorage { result: None, ..self }, Poll::Ready(output)),
            None => (TaskStorage { waker: Some(waker), ..self }, Poll::Pending),
        }
    }

    /// The state of the runtime when the task is done: whoever waits is ready.
    pub open spec fn woken(self, runtime: RuntimeState) -> RuntimeState {
        match self.waker {
            Some(waker) => runtime.made_ready(waker.task_id),
            None => runtime,
        }
    }

    /// The task is done: leaves its output, and wakes whoever waits for it, once.
    pub fn complete(&mut self, runtime: &mut Runtime, output: T)
        requires
            old(runtime)@.wf(),
        ensures
            *final(self) == old(self).completed(output),
            final(runtime)@ == old(self).woken(old(runtime)@),
            final(runtime)@.wf(),
    {
        self.result = Some(output);
        if let Some(waker) = self.waker.take() {
            runtime.wake(waker);
        }
    }

    /// Polls the handle: takes the output if the task has left it, else leaves the
    /// waker in place of any other.
    pub fn poll(&mut self, waker: Waker) -> (poll: Poll<T>)
        ensures
            (*final(self), poll) == old(self).polled(waker),
    {
        if let Some(output) = self.result.take() {
            return Poll::Ready(output);
        }
        self.waker = Some(waker);
        Poll::Pending
    }
}

/// Makes a task known and ready. Gives the id that its future goes by, and the
/// storage that it shares with its handle.
pub fn spawn<T>(runtime: &mut Runtime) -> (spawned: (usize, TaskStorage<T>))
    requires
        old(runtime)@.wf(),
        old(runtime)@.has_id(),
    ensures
        spawned.0 == old(runtime)@.next_id,
        spawned.1 == TaskStorage::<T>::empty(),
        final(runtime)@ == old(runtime)@.task_spawned(),
        final(runtime)@.wf(),
{
    let task_id: usize = runtime.get_task_id();
    let storage = TaskStorage::new();
    runtime.insert_task(Task { id: task_id });
    runtime.push_ready(task_id);
    (task_id, storage)
}

} // verus!
