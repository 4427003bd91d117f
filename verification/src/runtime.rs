use std::collections::HashMap;
use std::collections::VecDeque;

use vstd::prelude::*;

use crate::event::{Completion, Event};
use crate::poll::Poll;
use crate::task::{Task, Waker};

verus! {

/// What a runtime holds, as mathematical values.
#[verifier::ext_equal]
pub struct RuntimeState {
    /// The operations that were handed to the ring and not yet collected.
    pub events: Map<usize, Event>,
    /// Whether an event was registered since the ring was last submitted.
    pub events_prepared: bool,
    /// The ids of the tasks to poll, in the order in which they became ready.
    pub ready: Seq<usize>,
    /// Every waker that was ever made.
    pub wakers: Map<usize, Waker>,
    /// The tasks that are not being polled, apart from the main task.
    pub tasks: Map<usize, Task>,
    /// How many event ids were given out.
    pub event_ids: nat,
    /// How many task ids were given out.
    pub task_ids: nat,
    /// How many waker ids were given out.
    pub waker_ids: nat,
    /// The id that the next event, task or waker gets.
    pub next_id: nat,
}

impl RuntimeState {
    /// The state of a runtime on which nothing has happened.
    pub open spec fn empty() -> RuntimeState {
        RuntimeState {
            events: Map::empty(),
            events_prepared: false,
            ready: Seq::empty(),
            wakers: Map::empty(),
            tasks: Map::empty(),
            event_ids: 0,
            task_ids: 0,
            waker_ids: 0,
            next_id: 0,
        }
    }

    /// One counter numbers events, tasks and wakers alike, and what is filed under
    /// an id carries that id.
    pub open spec fn wf(self) -> bool {
        &&& self.next_id == self.event_ids + self.task_ids + self.waker_ids
        &&& self.next_id <= usize::MAX
        &&& forall|id: usize| #[trigger] self.events.contains_key(id) ==> id < self.next_id
        &&& forall|id: usize| #[trigger]
            self.wakers.contains_key(id) ==> id < self.next_id && self.wakers[id].id == id
        &&& forall|id: usize| #[trigger]
            self.tasks.contains_key(id) ==> id < self.next_id && self.tasks[id].id == id
    }

    /// The id was given out.
    pub open spec fn issued(self, id: usize) -> bool {
        id < self.next_id
    }

    /// Another id can be given out.
    pub open spec fn has_id(self) -> bool {
        self.next_id < usize::MAX
    }

    /// The next id goes to an event.
    pub open spec fn event_id_issued(self) -> RuntimeState {
        RuntimeState { event_ids: self.event_ids + 1, next_id: self.next_id + 1, ..self }
    }

    /// The next id goes to a task.
    pub open spec fn task_id_issued(self) -> RuntimeState {
        RuntimeState { task_ids: self.task_ids + 1, next_id: self.next_id + 1, ..self }
    }

    /// The next id goes to a waker for `task_id`.
    pub open spec fn waker_made(self, task_id: usize) -> RuntimeState {
        let id = self.next_id as usize;
        RuntimeState {
            wakers: self.wakers.insert(id, Waker { id, task_id }),
            waker_ids: self.waker_ids + 1,
            next_id: self.next_id + 1,
            ..self
        }
    }

    /// The task is at the end of the ready queue.
    pub open spec fn made_ready(self, task_id: usize) -> RuntimeState {
        RuntimeState { ready: self.ready.push(task_id), ..self }
    }

    /// A new task is known and ready.
    pub open spec fn task_spawned(self) -> RuntimeState {
        let id = self.next_id as usize;
        let issued = self.task_id_issued();
        RuntimeState { tasks: issued.tasks.insert(id, Task { id }), ..issued }.made_ready(id)
    }

    /// The task, which was taken out to be polled, is back.
    pub open spec fn task_suspended(self, task: Task) -> RuntimeState {
        RuntimeState { tasks: self.tasks.insert(task.id, task), ..self }
    }

    /// The task, which was taken out to be polled, gave this: it is back unless it is
    /// done.
    pub open spec fn task_polled(self, task: Task, poll: Poll<()>) -> RuntimeState {
        match poll {
            Poll::Pending => self.task_suspended(task),
            Poll::Ready(_) => self,
        }
    }

    /// `waker` waits for the event, unless another waker already does.
    pub open spec fn event_registered(self, event_id: usize, waker: Waker) -> RuntimeState {
        RuntimeState {
            events: if self.events.contains_key(event_id) {
                self.events
            } else {
                self.events.insert(event_id, Event { waker, result: None })
            },
            events_prepared: true,
            ..self
        }
    }

    /// The event is forgotten.
    pub open spec fn event_collected(self, event_id: usize) -> RuntimeState {
        RuntimeState { events: self.events.remove(event_id), ..self }
    }

    /// The result of one event has arrived: it is kept for the task that waits for
    /// it, and that task is ready. A completion that nobody waits for is ignored.
    pub open spec fn event_completed(
        self,
        event_id: usize,
        result: Result<u32, i32>,
    ) -> RuntimeState {
        if self.events.contains_key(event_id) {
            let waker = self.events[event_id].waker;
            RuntimeState {
                events: self.events.insert(event_id, Event { waker, result: Some(result) }),
                ..self
            }.made_ready(waker.task_id)
        } else {
            self
        }
    }

    /// The completions have arrived, one after the other.
    pub open spec fn all_completed(self, completed: Seq<Completion>) -> RuntimeState
        decreases completed.len(),
    {
        if completed.len() == 0 {
            self
        } else {
            let last = completed.last();
            self.all_completed(completed.drop_last()).event_completed(
                last.event_id(),
                last.result(),
            )
        }
    }

    /// The ring was submitted and its completions have arrived.
    pub open spec fn ring_completed(self, completed: Seq<Completion>) -> RuntimeState {
        RuntimeState { events_prepared: false, ..self.all_completed(completed) }
    }
}

/// The tasks that a row of completions wakes, in that order: those that wait for the
/// events among them that are registered.
pub open spec fn woken(events: Map<usize, Event>, completed: Seq<Completion>) -> Seq<usize> {
    completed.filter(|c: Completion| events.contains_key(c.event_id())).map_values(
        |c: Completion| events[c.event_id()].waker.task_id,
    )
}

/// The runtime's bookkeeping: tasks, the queue of those that are ready, wakers, and
/// the events that tasks wait for.
pub struct Runtime {
    events: HashMap<usize, Event>,
    events_prepared: bool,
    ready_tasks: VecDeque<usize>,
    wakers: HashMap<usize, Waker>,
    tasks: HashMap<usize, Task>,
    next_event_id: usize,
    next_task_id: usize,
    next_waker_id: usize,
    next_global_id: usize,
}

impl View for Runtime {
    type V = RuntimeState;

    closed spec fn view(&self) -> RuntimeState {
        RuntimeState {
            events: self.events@,
            events_prepared: self.events_prepared,
            ready: self.ready_tasks@,
            wakers: self.wakers@,
            tasks: self.tasks@,
            event_ids: self.next_event_id as nat,
            task_ids: self.next_task_id as nat,
            waker_ids: self.next_waker_id as nat,
            next_id: self.next_global_id as nat,
        }
    }
}

impl Runtime {
    /// A runtime without tasks or events.
    pub fn new() -> (runtime: Runtime)
        ensures
            runtime@ == RuntimeState::empty(),
            runtime@.wf(),
    {
        let runtime = Runtime {
            events: HashMap::new(),
            events_prepared: false,
            ready_tasks: VecDeque::new(),
            wakers: HashMap::new(),
            tasks: HashMap::new(),
            next_event_id: 0,
            next_task_id: 0,
            next_waker_id: 0,
            next_global_id: 0,
        };
        assert(runtime@ =~= RuntimeState::empty());
        runtime
    }

    /// Whether another event, task or waker can be numbered.
    pub fn has_id(&self) -> (has: bool)
        ensures
            has == self@.has_id(),
    {
        self.next_global_id < usize::MAX
    }

    /// Whether the id was given out to an event, a task or a waker.
    pub fn is_issued(&self, id: usize) -> (issued: bool)
        ensures
            issued == self@.issued(id),
    {
        id < self.next_global_id
    }

    fn next_id(&mut self) -> (id: usize)
        requires
            old(self)@.has_id(),
        ensures
            id == old(self)@.next_id,
            final(self)@ == (RuntimeState { next_id: old(self)@.next_id + 1, ..old(self)@ }),
    {
        let id: usize = self.next_global_id;
        self.next_global_id = id + 1;
        id
    }

    /// Numbers a new event. The number is also the user data of the operation.
    pub fn get_event_id(&mut self) -> (event_id: usize)
        requires
            old(self)@.wf(),
            old(self)@.has_id(),
        ensures
            event_id == old(self)@.next_id,
            final(self)@ == old(self)@.event_id_issued(),
            final(self)@.wf(),
    {
        self.next_event_id = self.next_event_id + 1;
        let id: usize = self.next_id();
        assert(self@ =~= old(self)@.event_id_issued());
        id
    }

    /// Numbers a new task.
    pub(crate) fn get_task_id(&mut self) -> (task_id: usize)
        requires
            old(self)@.wf(),
            old(self)@.has_id(),
        ensures
            task_id == old(self)@.next_id,
            final(self)@ == old(self)@.task_id_issued(),
            final(self)@.wf(),
    {
        self.next_task_id = self.next_task_id + 1;
        let id: usize = self.next_id();
        assert(self@ =~= old(self)@.task_id_issued());
        id
    }

    /// Makes the waker for one poll of the task.
    pub(crate) fn make_waker(&mut self, task_id: usize) -> (waker: Waker)
        requires
            old(self)@.wf(),
            old(self)@.has_id(),
        ensures
            waker == (Waker { id: old(self)@.next_id as usize, task_id }),
            final(self)@ == old(self)@.waker_made(task_id),
            final(self)@.wf(),
    {
        broadcast use vstd::std_specs::hash::group_hash_axioms;

        self.next_waker_id = self.next_waker_id + 1;
        let id: usize = self.next_id();
        let waker = Waker { id, task_id };
        self.wakers.insert(id, waker);
        assert(self@ =~= old(self)@.waker_made(task_id));
        waker
    }

    /// The waker that was made under `waker_id`, if there was one.
    pub fn waker(&self, waker_id: usize) -> (waker: Option<Waker>)
        ensures
            waker == (if self@.wakers.contains_key(waker_id) {
                Some(self@.wakers[waker_id])
            } else {
                None
            }),
    {
        broadcast use vstd::std_specs::hash::group_hash_axioms;

        match self.wakers.get(&waker_id) {
            Some(waker) => Some(*waker),
            None => None,
        }
    }

    /// Makes the waker's task ready. A task that is woken twice is queued twice.
    pub fn wake(&mut self, waker: Waker)
        requires
            old(self)@.wf(),
        ensures
            final(self)@ == old(self)@.made_ready(waker.task_id),
            final(self)@.wf(),
    {
        self.wake_by_ref(&waker);
    }

    /// Makes the waker's task ready, and leaves the waker to the caller.
    pub fn wake_by_ref(&mut self, waker: &Waker)
        requires
            old(self)@.wf(),
        ensures
            final(self)@ == old(self)@.made_ready(waker.task_id),
            final(self)@.wf(),
    {
        self.push_ready(waker.task_id);
    }

    pub(crate) fn push_ready(&mut self, task_id: usize)
        requires
            old(self)@.wf(),
        ensures
            final(self)@ == old(self)@.made_ready(task_id),
            final(self)@.wf(),
    {
        self.ready_tasks.push_back(task_id);
        assert(self@ =~= old(self)@.made_ready(task_id));
    }

    /// Files a task that was numbered before.
    pub(crate) fn insert_task(&mut self, task: Task)
        requires
            old(self)@.wf(),
            old(self)@.issued(task.id),
        ensures
            final(self)@ == old(self)@.task_suspended(task),
            final(self)@.wf(),
    {
        broadcast use vstd::std_specs::hash::group_hash_axioms;

        self.tasks.insert(task.id, task);
        assert(self@ =~= old(self)@.task_suspended(task));
    }

    /// Takes a task out, to poll it.
    pub(crate) fn take_task(&mut self, task_id: usize) -> (task: Option<Task>)
        requires
            old(self)@.wf(),
        ensures
            task == (if old(self)@.tasks.contains_key(task_id) {
                Some(old(self)@.tasks[task_id])
            } else {
                None
            }),
            final(self)@ == (RuntimeState {
                tasks: old(self)@.tasks.remove(task_id),
                ..old(self)@
            }),
            final(self)@.wf(),
    {
        broadcast use vstd::std_specs::hash::group_hash_axioms;

        let task = self.tasks.remove(&task_id);
        assert(self@ =~= (RuntimeState {
            tasks: old(self)@.tasks.remove(task_id),
            ..old(self)@
        }));
        task
    }

    /// Takes what a task gave when it was polled, and takes the task back unless it is
    /// done.
    pub fn task_polled(&mut self, task: Task, poll: Poll<()>)
        requires
            old(self)@.wf(),
            old(self)@.issued(task.id),
        ensures
            final(self)@ == old(self)@.task_polled(task, poll),
            final(self)@.wf(),
    {
        if let Poll::Pending = poll {
            self.insert_task(task);
        }
    }

    /// Exchanges the queue of ready tasks for `batch`.
    pub(crate) fn swap_ready(&mut self, batch: &mut VecDeque<usize>)
        requires
            old(self)@.wf(),
        ensures
            final(batch)@ == old(self)@.ready,
            final(self)@ == (RuntimeState { ready: old(batch)@, ..old(self)@ }),
            final(self)@.wf(),
    {
        std::mem::swap(&mut self.ready_tasks, batch);
        assert(self@ =~= (RuntimeState { ready: old(batch)@, ..old(self)@ }));
    }

    /// Whether no task is ready.
    pub(crate) fn no_ready_task(&self) -> (none: bool)
        ensures
            none == (self@.ready.len() == 0),
    {
        self.ready_tasks.len() == 0
    }

    /// Whether no task waits for an event.
    pub(crate) fn no_event(&self) -> (none: bool)
        ensures
            none == self@.events.is_empty(),
    {
        self.events.is_empty()
    }

    /// The event with that id, while a task waits for it.
    pub fn event(&self, event_id: usize) -> (event: Option<Event>)
        ensures
            event == (if self@.events.contains_key(event_id) {
                Some(self@.events[event_id])
            } else {
                None
            }),
    {
        broadcast use vstd::std_specs::hash::group_hash_axioms;

        match self.events.get(&event_id) {
            Some(event) => Some(*event),
            None => None,
        }
    }

    /// Lets `waker` wait for the event, unless another waker already does.
    pub(crate) fn register_event(&mut self, event_id: usize, waker: Waker)
        requires
            old(self)@.wf(),
            old(self)@.issued(event_id),
        ensures
            final(self)@ == old(self)@.event_registered(event_id, waker),
            final(self)@.wf(),
    {
        broadcast use vstd::std_specs::hash::group_hash_axioms;

        if !self.events.contains_key(&event_id) {
            self.events.insert(event_id, Event { waker, result: None });
        }
        self.events_prepared = true;
        assert(self@ =~= old(self)@.event_registered(event_id, waker));
    }

    /// Forgets the event.
    pub(crate) fn collect_event(&mut self, event_id: usize)
        requires
            old(self)@.wf(),
        ensures
            final(self)@ == old(self)@.event_collected(event_id),
            final(self)@.wf(),
    {
        broadcast use vstd::std_specs::hash::group_hash_axioms;

        self.events.remove(&event_id);
        assert(self@ =~= old(self)@.event_collected(event_id));
    }

    fn complete_event(&mut self, event_id: usize, result: Result<u32, i32>)
        requires
            old(self)@.wf(),
        ensures
            final(self)@ == old(self)@.event_completed(event_id, result),
            final(self)@.wf(),
    {
        broadcast use vstd::std_specs::hash::group_hash_axioms;

        if let Some(event) = self.event(event_id) {
            self.wake_by_ref(&event.waker);
            self.events.insert(event_id, Event { waker: event.waker, result: Some(result) });
        }
        assert(self@ =~= old(self)@.event_completed(event_id, result));
    }

    /// Hands the completions, in their order, to the tasks that wait for them.
    pub fn complete_events(&mut self, completed: &Vec<Completion>)
        requires
            old(self)@.wf(),
            forall|i: int| 0 <= i < completed@.len() ==> (#[trigger] completed@[i]).valid(),
        ensures
            final(self)@ == old(self)@.ring_completed(completed@),
            final(self)@.ready == old(self)@.ready + woken(old(self)@.events, completed@),
            final(self)@.events.dom() == old(self)@.events.dom(),
            final(self)@.wf(),
    {
        assert(completed@.take(0) =~= Seq::empty());
        let mut i: usize = 0;
        while i < completed.len()
            invariant
                i <= completed@.len(),
                self@.wf(),
                self@ == old(self)@.all_completed(completed@.take(i as int)),
                forall|j: int| 0 <= j < completed@.len() ==> (#[trigger] completed@[j]).valid(),
            decreases completed@.len() - i,
        {
            let (event_id, result) = completed[i].decode();
            self.complete_event(event_id, result);
            assert(completed@.take(i + 1).drop_last() =~= completed@.take(i as int));
            i = i + 1;
        }
        assert(completed@.take(i as int) =~= completed@);
        proof {
            crate::laws::completions_wake_in_order(old(self)@, completed@);
            crate::laws::completions_keep_the_rest(old(self)@, completed@);
        }
        self.events_prepared = false;
        assert(self@ =~= old(self)@.ring_completed(completed@));
    }
}

} // verus!
