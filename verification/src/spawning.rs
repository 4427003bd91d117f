//! What spawning a future and awaiting it gives, compared with running it.

use vstd::prelude::*;

use crate::laws::{
    completions_keep_the_rest, completions_wake_in_order, every_step_keeps_the_bookkeeping,
    one_step, operation, operations_only_append, queue_is_first_in_first_out,
};
use crate::poll::Poll;
use crate::program::{grows, Main, Outcome, Script, Surroundings, World};
use crate::run::{Action, RunState, MAX_ITERATIONS};
use crate::runtime::{woken, RuntimeState};
use crate::task::{Task, Waker};

verus! {

/// `main` is the future itself, or spawns it and awaits its handle.
pub open spec fn runs_or_spawns<T>(main: Main<T>, future: Script<T>) -> bool {
    main == Main::Runs(future) || main == Main::Spawns(future)
}

/// Whatever else goes on, a run that spawns a future and awaits it returns nothing but the
/// future's output, as does a run of the future itself.
pub proof fn run_returns_nothing_else<T>(
    state: RuntimeState,
    main: Main<T>,
    future: Script<T>,
    surroundings: Surroundings,
    actions: nat,
)
    requires
        runs_or_spawns(main, future),
    ensures
        World::begun(state, main, surroundings).outcome(actions) matches Outcome::Returned(
            returned,
        ) ==> returned == future.output,
{
    outcome_is_the_output(World::begun(state, main, surroundings), future.output, actions);
}

/// Nothing but `output` can come out of the world.
spec fn holds_only<T>(world: World<T>, output: T) -> bool {
    &&& match world.main {
        Main::Runs(future) => future.output == output,
        Main::Spawns(future) => future.output == output,
        Main::Awaits => true,
    }
    &&& world.spawned matches Some((_, future)) ==> future.output == output
    &&& world.storage.result matches Some(result) ==> result == output
}

proof fn outcome_is_the_output<T>(world: World<T>, output: T, actions: nat)
    requires
        holds_only(world, output),
    ensures
        world.outcome(actions) matches Outcome::Returned(returned) ==> returned == output,
    decreases actions,
{
    if actions > 0 {
        let (next, _) = world.step();
        assert(holds_only(next, output));
        outcome_is_the_output(next, output, (actions - 1) as nat);
    }
}

/// A run that spawns a future and awaits it returns the future's output, as does a run of
/// the future itself, whatever the other tasks do and whenever the ring answers: as long as
/// the run does not fail, and the future, when it is pending, is woken sooner or later.
pub proof fn spawning_keeps_the_output<T>(
    state: RuntimeState,
    main: Main<T>,
    future: Script<T>,
    surroundings: Surroundings,
)
    requires
        state.wf(),
        state.has_id(),
        runs_or_spawns(main, future),
        future.keeps_to_operations(),
        surroundings.keep_to_operations(),
        World::begun(state, main, surroundings).goes_well(),
        World::begun(state, main, surroundings).is_woken_again(),
    ensures
        World::begun(state, main, surroundings).ends_with(future.output),
{
    let world = World::begun(state, main, surroundings);
    let id = state.next_id as usize;
    assert(world.queue() =~= state.ready.push(id));
    assert(world.queue()[state.ready.len() as int] == id);
    assert(world.queue().contains(id));
    assert(one_step(state, world.runtime)) by {
        assert(operation(state, world.runtime));
    }
    every_step_keeps_the_bookkeeping(state, world.runtime);
    assert(underway(world, future.output));
    run_ends(world, future.output, state.ready.len());
    assert forall|actions: nat|
        match #[trigger] world.outcome(actions) {
            Outcome::Running => true,
            Outcome::Returned(returned) => returned == future.output,
            Outcome::OutOfIds => true,
            Outcome::Failed => false,
        } by {
        outcome_is_the_output(world, future.output, actions);
    }
}

/// The task that has to be polled for the run to come closer to its end.
spec fn target<T>(world: World<T>) -> usize {
    match world.future_task() {
        Some(task_id) => task_id,
        None => world.run.main_task_id,
    }
}

/// How far the run is from its end: the future is still to be spawned, is not done, or has
/// left its output.
spec fn phase<T>(world: World<T>) -> nat {
    match (world.main, world.spawned) {
        (Main::Spawns(_), _) => 2,
        (Main::Runs(_), _) => 1,
        (Main::Awaits, Some(_)) => 1,
        (Main::Awaits, None) => 0,
    }
}

spec fn pending<T>(world: World<T>) -> nat {
    match (world.main, world.spawned) {
        (Main::Runs(future), _) => future.pending,
        (Main::Awaits, Some((_, future))) => future.pending,
        _ => 0,
    }
}

/// The run is on its way to return `output`.
spec fn underway<T>(world: World<T>, output: T) -> bool {
    let main_task_id = world.run.main_task_id;
    &&& holds_only(world, output)
    &&& world.runtime.wf()
    &&& world.run.wf()
    &&& !world.run.done
    &&& world.runtime.issued(main_task_id)
    &&& world.surroundings.keep_to_operations()
    &&& match world.main {
        Main::Runs(future) => future.keeps_to_operations() && world.spawned is None,
        Main::Spawns(future) => {
            &&& future.keeps_to_operations()
            &&& world.spawned is None
            &&& world.queue().contains(main_task_id)
        },
        Main::Awaits => match world.spawned {
            Some((task_id, future)) => {
                &&& future.keeps_to_operations()
                &&& task_id != main_task_id
                &&& world.storage.result is None
                &&& world.storage.waker matches Some(waker)
                &&& waker.task_id == main_task_id
            },
            None => {
                &&& world.storage.result == Some(output)
                &&& world.queue().contains(main_task_id)
            },
        },
    }
}

/// `next` comes of `world` by an action that takes the first task out of the queue, if
/// there is one, and lets others become ready behind all that are.
spec fn queue_moves_on<T>(world: World<T>, next: World<T>) -> bool {
    if world.queue().len() > 0 {
        world.queue().drop_first().is_prefix_of(next.queue())
    } else {
        true
    }
}

proof fn queue_grows(run: RunState, before: RuntimeState, after: RuntimeState)
    requires
        before.ready.is_prefix_of(after.ready),
    ensures
        run.queue(before).is_prefix_of(run.queue(after)),
{
    assert(run.queue(before) =~= run.queue(after).subrange(0, run.queue(before).len() as int));
}

/// What a step does to a run that is on its way.
proof fn step_moves_on<T>(world: World<T>, output: T)
    requires
        underway(world, output),
        world.step().1 is Running,
    ensures
        ({
            let next = world.step().0;
            &&& underway(next, output)
            &&& queue_moves_on(world, next)
            &&& next.run.main_task_id == world.run.main_task_id
            &&& phase(next) <= phase(world)
            &&& phase(next) == phase(world) ==> {
                &&& target(next) == target(world)
                &&& pending(next) <= pending(world)
                &&& world.queue().len() > 0 && world.queue()[0] == target(world) ==> pending(next)
                    < pending(world)
            }
        }),
{
    let (run, runtime, action) = world.run.next(world.runtime);
    let next = world.step().0;
    let queue = world.queue();
    queue_is_first_in_first_out(world.run, world.runtime);
    if queue.len() > 0 {
        assert(one_step(world.runtime, runtime));
        every_step_keeps_the_bookkeeping(world.runtime, runtime);
    }
    match action {
        Action::PollMain { waker } => {
            assert(grows(runtime, next.runtime)) by {
                if world.main is Spawns {
                    assert(operation(runtime, next.runtime));
                    operations_only_append(runtime, next.runtime);
                }
            }
            queue_grows(run, runtime, next.runtime);
        },
        Action::PollTask { task, waker } => {
            assert(task.id == queue[0]);
            let mine = world.spawned matches Some((task_id, _)) && task_id == task.id;
            if mine {
                let (_, future) = world.spawned->0;
                let polled = (future.effect)(future.pending, run, runtime, waker);
                assert(grows(runtime, polled));
                if future.pending == 0 {
                    let m = world.run.main_task_id;
                    assert(next.runtime == polled.made_ready(m));
                    assert(next.queue()[next.queue().len() - 1] == m);
                    assert(next.queue().contains(m));
                }
            } else {
                assert(grows(
                    runtime,
                    (world.surroundings.polled)(world.time, run, runtime, task, waker).0,
                ));
            }
            assert(runtime.ready.is_prefix_of(next.runtime.ready));
            queue_grows(run, runtime, next.runtime);
            assert(next.runtime.wf());
            if world.queue().contains(world.run.main_task_id) {
                stays_queued(world, next, world.run.main_task_id);
            }
        },
        Action::Submit { .. } => {
            let completed = (world.surroundings.completed)(world.time, run, runtime);
            assert(operation(runtime, runtime.ring_completed(completed)));
            operations_only_append(runtime, runtime.ring_completed(completed));
            completions_keep_the_rest(runtime, completed);
        },
        _ => {},
    }
}

/// Who is in the queue behind its head is still in it after the next action.
proof fn stays_queued<T>(world: World<T>, next: World<T>, task_id: usize)
    requires
        queue_moves_on(world, next),
        world.queue().contains(task_id),
        world.queue()[0] != task_id,
    ensures
        next.queue().contains(task_id),
{
    let queue = world.queue();
    let i = choose|i: int| 0 <= i < queue.len() && queue[i] == task_id;
    assert(queue.drop_first()[i - 1] == task_id);
    assert(next.queue()[i - 1] == task_id);
}

proof fn shifts<T>(world: World<T>, later: nat)
    requires
        world.step().1 is Running,
    ensures
        world.outcome(later + 1) == world.step().0.outcome(later),
        world.after(later + 1) == world.step().0.after(later),
        world.ready_at(later + 1) == world.step().0.ready_at(later),
{
}

/// The run ends. `i` is the target's place in the queue, or an upper bound on the number of
/// actions until it has one.
proof fn run_ends<T>(world: World<T>, output: T, i: nat)
    requires
        underway(world, output),
        world.goes_well(),
        world.is_woken_again(),
        if world.queue().contains(target(world)) {
            i < world.queue().len() && world.queue()[i as int] == target(world)
        } else {
            world.ready_at(i)
        },
    ensures
        exists|actions: nat| (#[trigger] world.outcome(actions)) !is Running,
    decreases
        phase(world),
        pending(world),
        if world.queue().contains(target(world)) { 0int } else { 1int },
        i,
{
    let (next, outcome) = world.step();
    if outcome is Running {
        step_moves_on(world, output);
        assert(next.goes_well()) by {
            assert forall|n: nat| (#[trigger] next.outcome(n)) !is Failed by {
                shifts(world, n);
                assert(world.outcome(n + 1) !is Failed);
            }
        }
        assert(next.is_woken_again()) by {
            assert forall|n: nat| #[trigger] next.outcome(n) is Running implies exists|later: nat|
                n <= later && #[trigger] next.ready_at(later) by {
                shifts(world, n);
                assert(world.outcome(n + 1) is Running);
                let later = choose|later: nat| n + 1 <= later && #[trigger] world.ready_at(later);
                shifts(world, (later - 1) as nat);
                assert(next.ready_at((later - 1) as nat));
            }
        }
        let queued = world.queue().contains(target(world));
        let same = phase(next) == phase(world) && pending(next) == pending(world);
        if same && queued {
            assert(world.queue().drop_first()[i - 1] == target(world));
            stays_queued(world, next, target(world));
            run_ends(next, output, (i - 1) as nat);
        } else if next.queue().contains(target(next)) {
            let k = choose|k: int| 0 <= k < next.queue().len() && next.queue()[k] == target(next);
            run_ends(next, output, k as nat);
        } else if same {
            assert(!world.ready_at(0));
            shifts(world, (i - 1) as nat);
            run_ends(next, output, (i - 1) as nat);
        } else {
            assert(next.outcome(0) is Running);
            let later = choose|later: nat| 0 <= later && #[trigger] next.ready_at(later);
            run_ends(next, output, later);
        }
        let n = choose|n: nat| (#[trigger] next.outcome(n)) !is Running;
        shifts(world, n);
        assert(world.outcome(n + 1) !is Running);
    } else {
        assert(world.outcome(1) !is Running);
    }
}

/// Everything in the queue but the main task is a known task, and is queued once.
pub open spec fn orderly(run: RunState, runtime: RuntimeState) -> bool {
    let queue = run.queue(runtime);
    &&& forall|i: int|
        0 <= i < queue.len() && #[trigger] queue[i] != run.main_task_id
            ==> runtime.tasks.contains_key(queue[i])
    &&& forall|i: int, j: int|
        0 <= i < j < queue.len() && #[trigger] queue[i] == #[trigger] queue[j] ==> queue[i]
            == run.main_task_id
}

/// The task was taken out of an orderly queue to be polled.
pub open spec fn being_polled(run: RunState, runtime: RuntimeState, task_id: usize) -> bool {
    &&& runtime.wf()
    &&& runtime.issued(task_id)
    &&& orderly(run, runtime)
    &&& task_id != run.main_task_id ==> !run.queue(runtime).contains(task_id)
}

/// The other tasks, when they are polled, wake no task that has finished or is queued
/// already.
pub open spec fn others_are_orderly(surroundings: Surroundings) -> bool {
    forall|time: nat, run: RunState, runtime: RuntimeState, task: Task, waker: Waker|
        being_polled(run, runtime, task.id) && task.id != run.main_task_id && waker.task_id
            == task.id ==> {
            let (after, poll) = #[trigger] (surroundings.polled)(time, run, runtime, task, waker);
            orderly(run, after.task_polled(task, poll))
        }
}

/// The future, whenever it is pending, has woken its own task, once; whatever else it wakes
/// is a task that has not finished and is not queued already.
pub open spec fn wakes_itself<T>(future: Script<T>) -> bool {
    forall|left: nat, run: RunState, runtime: RuntimeState, waker: Waker|
        being_polled(run, runtime, waker.task_id) ==> {
            let after = #[trigger] (future.effect)(left, run, runtime, waker);
            if left == 0 {
                orderly(run, after)
            } else {
                &&& run.queue(after).contains(waker.task_id)
                &&& orderly(
                    run,
                    if waker.task_id == run.main_task_id {
                        after
                    } else {
                        after.task_polled(Task { id: waker.task_id }, Poll::Pending)
                    },
                )
            }
        }
}

/// Spawning a future that wakes itself whenever it is pending, and awaiting it, gives what
/// running the future gives, which is its output: whatever other tasks are ready, however
/// long they go on, and whatever they spawn.
pub proof fn spawning_keeps_the_output_of_a_busy_future<T>(
    state: RuntimeState,
    future: Script<T>,
    surroundings: Surroundings,
)
    requires
        state.wf(),
        state.has_id(),
        orderly(RunState::begun(state.next_id as usize), state),
        future.keeps_to_operations(),
        wakes_itself(future),
        surroundings.keep_to_operations(),
        others_are_orderly(surroundings),
    ensures
        World::begun(state, Main::Runs(future), surroundings).ends_with(future.output),
        World::begun(state, Main::Spawns(future), surroundings).ends_with(future.output),
{
    busy_run_ends(state, Main::Runs(future), future, surroundings);
    busy_run_ends(state, Main::Spawns(future), future, surroundings);
}

proof fn busy_run_ends<T>(
    state: RuntimeState,
    main: Main<T>,
    future: Script<T>,
    surroundings: Surroundings,
)
    requires
        state.wf(),
        state.has_id(),
        orderly(RunState::begun(state.next_id as usize), state),
        runs_or_spawns(main, future),
        future.keeps_to_operations(),
        wakes_itself(future),
        surroundings.keep_to_operations(),
        others_are_orderly(surroundings),
    ensures
        World::begun(state, main, surroundings).ends_with(future.output),
{
    let world = World::begun(state, main, surroundings);
    let id = state.next_id as usize;
    let run = RunState::begun(id);
    assert(run.queue(state) =~= state.ready);
    assert(world.queue() =~= state.ready.push(id));
    assert(world.queue()[state.ready.len() as int] == id);
    assert(operation(state, world.runtime));
    operations_only_append(state, world.runtime);
    assert(orderly(run, world.runtime)) by {
        assert forall|i: int|
            0 <= i < world.queue().len() && #[trigger] world.queue()[i]
                != id implies world.runtime.tasks.contains_key(world.queue()[i]) by {
            assert(world.queue()[i] == run.queue(state)[i]);
        }
        assert forall|i: int, j: int|
            0 <= i < j < world.queue().len() && #[trigger] world.queue()[i]
                == #[trigger] world.queue()[j] implies world.queue()[i] == id by {
            if j < state.ready.len() {
                assert(world.queue()[i] == run.queue(state)[i]);
                assert(world.queue()[j] == run.queue(state)[j]);
            }
        }
    }
    assert(busy(world, future.output));
    assert forall|n: nat| true implies (#[trigger] world.outcome(n)) !is Failed && world.ready_at(
        n,
    ) by {
        busy_stays(world, future.output, n);
    }
    spawning_keeps_the_output(state, main, future, surroundings);
}

/// A run can take the next task of its queue.
spec fn can_poll(run: RunState) -> bool {
    &&& run.wf()
    &&& !run.done
    &&& run.draining || run.iterations <= MAX_ITERATIONS
}

/// The run is on its way, and the task that has to be polled next is ready.
spec fn busy<T>(world: World<T>, output: T) -> bool {
    &&& underway(world, output)
    &&& can_poll(world.run)
    &&& orderly(world.run, world.runtime)
    &&& others_are_orderly(world.surroundings)
    &&& world.main matches Main::Runs(future) ==> wakes_itself(future)
    &&& world.main matches Main::Spawns(future) ==> wakes_itself(future)
    &&& world.spawned matches Some((_, future)) ==> wakes_itself(future)
    &&& world.queue().contains(target(world))
}

proof fn busy_stays<T>(world: World<T>, output: T, n: nat)
    requires
        busy(world, output),
    ensures
        world.outcome(n) !is Failed,
        world.ready_at(n),
    decreases n,
{
    if n > 0 {
        busy_step(world, output);
        if world.step().1 is Running {
            shifts(world, (n - 1) as nat);
            busy_stays(world.step().0, output, (n - 1) as nat);
        }
    }
}

/// Taking the head out of an orderly queue leaves it orderly, without the task.
proof fn dispatch_is_orderly(run: RunState, runtime: RuntimeState)
    requires
        can_poll(run),
        orderly(run, runtime),
        runtime.wf(),
        run.queue(runtime).len() > 0,
        runtime.has_id(),
    ensures
        ({
            let (next, after, action) = run.next(runtime);
            let id = run.queue(runtime)[0];
            &&& can_poll(next)
            &&& next.main_task_id == run.main_task_id
            &&& next.queue(after) == run.queue(runtime).drop_first()
            &&& runtime.issued(id) ==> being_polled(next, after, id)
            &&& id == run.main_task_id ==> {
                &&& action matches Action::PollMain { waker }
                &&& waker.task_id == id
            }
            &&& id != run.main_task_id ==> {
                &&& action matches Action::PollTask { task, waker }
                &&& waker.task_id == id
                &&& task.id == id
                &&& runtime.issued(id)
            }
        }),
{
    let (next, after, action) = run.next(runtime);
    let queue = run.queue(runtime);
    let id = queue[0];
    queue_is_first_in_first_out(run, runtime);
    assert(one_step(runtime, after));
    every_step_keeps_the_bookkeeping(runtime, after);
    let rest = next.queue(after);
    assert(rest == queue.drop_first());
    assert(orderly(next, after)) by {
        assert forall|i: int|
            0 <= i < rest.len() && #[trigger] rest[i]
                != run.main_task_id implies after.tasks.contains_key(rest[i]) by {
            assert(rest[i] == queue[i + 1]);
            assert(queue[0] != queue[i + 1]);
        }
        assert forall|i: int, j: int|
            0 <= i < j < rest.len() && #[trigger] rest[i] == #[trigger] rest[j] implies rest[i]
            == run.main_task_id by {
            assert(rest[i] == queue[i + 1]);
            assert(rest[j] == queue[j + 1]);
        }
    }
    if id != run.main_task_id && rest.contains(id) {
        let i = choose|i: int| 0 <= i < rest.len() && rest[i] == id;
        assert(queue[i + 1] == queue[0]);
    }
}

/// One more entry for the main task, or for a known task that is not queued, leaves the
/// queue orderly.
proof fn waking_is_orderly(run: RunState, runtime: RuntimeState, after: RuntimeState, id: usize)
    requires
        orderly(run, runtime),
        after.ready == runtime.ready.push(id),
        forall|task_id: usize| #[trigger]
            runtime.tasks.contains_key(task_id) ==> after.tasks.contains_key(task_id),
        id == run.main_task_id || (after.tasks.contains_key(id) && !run.queue(runtime).contains(
            id,
        )),
    ensures
        orderly(run, after),
        run.queue(after) == run.queue(runtime).push(id),
        run.queue(after).contains(id),
{
    let queue = run.queue(runtime);
    let longer = run.queue(after);
    assert(longer =~= queue.push(id));
    assert(longer[queue.len() as int] == id);
    assert forall|i: int|
        0 <= i < longer.len() && #[trigger] longer[i]
            != run.main_task_id implies after.tasks.contains_key(longer[i]) by {
        if i < queue.len() {
            assert(longer[i] == queue[i]);
        }
    }
    assert forall|i: int, j: int|
        0 <= i < j < longer.len() && #[trigger] longer[i] == #[trigger] longer[j] implies longer[i]
        == run.main_task_id by {
        assert(longer[i] == queue[i]);
        if j < queue.len() {
            assert(longer[j] == queue[j]);
        } else {
            assert(queue.contains(queue[i]));
        }
    }
}

proof fn busy_step<T>(world: World<T>, output: T)
    requires
        busy(world, output),
    ensures
        world.step().1 !is Failed,
        world.step().1 is Running ==> busy(world.step().0, output),
{
    let (run, runtime, action) = world.run.next(world.runtime);
    let (next, outcome) = world.step();
    let queue = world.queue();
    if world.has_ids() {
        dispatch_is_orderly(world.run, world.runtime);
        if outcome is Running {
            step_moves_on(world, output);
            if queue[0] != target(world) {
                stays_queued(world, next, target(world));
            }
            match action {
                Action::PollMain { waker } => {
                    if world.main is Spawns {
                        let id = runtime.next_id as usize;
                        assert(!run.queue(runtime).contains(id)) by {
                            if run.queue(runtime).contains(id) {
                                let i = choose|i: int|
                                    0 <= i < run.queue(runtime).len() && run.queue(runtime)[i]
                                        == id;
                                assert(runtime.tasks.contains_key(run.queue(runtime)[i]));
                            }
                        }
                        waking_is_orderly(run, runtime, next.runtime, id);
                    }
                },
                Action::PollTask { task, waker } => {
                    assert(task == Task { id: waker.task_id });
                    if world.spawned matches Some((task_id, _)) && task_id == task.id {
                        let (_, future) = world.spawned->0;
                        let polled = (future.effect)(future.pending, run, runtime, waker);
                        if future.pending == 0 {
                            assert(orderly(run, polled));
                            waking_is_orderly(
                                run,
                                polled,
                                next.runtime,
                                world.run.main_task_id,
                            );
                        }
                    }
                },
                _ => {},
            }
        }
    }
}

/// All events are waited for by the task.
pub open spec fn owned(runtime: RuntimeState, task_id: usize) -> bool {
    forall|event_id: usize| #[trigger]
        runtime.events.contains_key(event_id) ==> runtime.events[event_id].waker.task_id
            == task_id
}

/// The future, whenever it is pending, waits for an event of the ring. It wakes nobody and
/// spawns nothing.
pub open spec fn waits_for_the_ring<T>(future: Script<T>) -> bool {
    forall|left: nat, run: RunState, runtime: RuntimeState, waker: Waker|
        runtime.wf() && owned(runtime, waker.task_id) ==> {
            let after = #[trigger] (future.effect)(left, run, runtime, waker);
            &&& after.ready == runtime.ready
            &&& after.tasks == runtime.tasks
            &&& owned(after, waker.task_id)
            &&& left > 0 ==> !after.events.is_empty()
        }
}

/// A submission brings the completion of one of the events that are waited for.
pub open spec fn ring_answers(surroundings: Surroundings) -> bool {
    forall|time: nat, run: RunState, runtime: RuntimeState|
        runtime.wf() && !runtime.events.is_empty() ==> {
            let completed = #[trigger] (surroundings.completed)(time, run, runtime);
            exists|event_id: usize|
                runtime.events.contains_key(event_id) && woken(runtime.events, completed)
                    == seq![(#[trigger] runtime.events[event_id]).waker.task_id]
        }
}

/// Spawning a future that waits for the ring whenever it is pending, and awaiting it, gives
/// what running the future gives, which is its output. This is on a runtime where nothing
/// else is ready or waited for, and for as many waits as a run has rounds.
pub proof fn spawning_keeps_the_output_of_a_waiting_future<T>(
    state: RuntimeState,
    future: Script<T>,
    surroundings: Surroundings,
)
    requires
        state.wf(),
        state.has_id(),
        state.ready.len() == 0,
        state.events.is_empty(),
        future.pending <= MAX_ITERATIONS,
        future.keeps_to_operations(),
        waits_for_the_ring(future),
        surroundings.keep_to_operations(),
        ring_answers(surroundings),
    ensures
        World::begun(state, Main::Runs(future), surroundings).ends_with(future.output),
        World::begun(state, Main::Spawns(future), surroundings).ends_with(future.output),
{
    waiting_run_ends(state, Main::Runs(future), future, surroundings);
    waiting_run_ends(state, Main::Spawns(future), future, surroundings);
}

proof fn waiting_run_ends<T>(
    state: RuntimeState,
    main: Main<T>,
    future: Script<T>,
    surroundings: Surroundings,
)
    requires
        state.wf(),
        state.has_id(),
        state.ready.len() == 0,
        state.events.is_empty(),
        future.pending <= MAX_ITERATIONS,
        runs_or_spawns(main, future),
        future.keeps_to_operations(),
        waits_for_the_ring(future),
        surroundings.keep_to_operations(),
        ring_answers(surroundings),
    ensures
        World::begun(state, main, surroundings).ends_with(future.output),
{
    let world = World::begun(state, main, surroundings);
    let id = state.next_id as usize;
    assert(world.queue() =~= seq![id]);
    assert(world.queue()[0] == id);
    assert(operation(state, world.runtime));
    operations_only_append(state, world.runtime);
    assert(waiting(world, future.output));
    assert forall|n: nat| #[trigger] world.outcome(n) is Running implies exists|later: nat|
        n <= later && #[trigger] world.ready_at(later) by {
        waiting_stays(world, future.output, n);
        waiting_stays(world, future.output, n + 1);
        assert(world.ready_at(n) || world.ready_at(n + 1));
    }
    assert forall|n: nat| (#[trigger] world.outcome(n)) !is Failed by {
        waiting_stays(world, future.output, n);
    }
    spawning_keeps_the_output(state, main, future, surroundings);
}

/// The run is on its way: the task that has to be polled next is alone in the queue, or the
/// queue is empty and the task waits for an event. There are rounds enough.
spec fn waiting<T>(world: World<T>, output: T) -> bool {
    let rounds = world.run.entered().iterations;
    &&& underway(world, output)
    &&& can_poll(world.run)
    &&& ring_answers(world.surroundings)
    &&& world.main matches Main::Runs(future) ==> waits_for_the_ring(future)
    &&& world.main matches Main::Spawns(future) ==> waits_for_the_ring(future)
        && future.pending <= MAX_ITERATIONS && rounds == 1
    &&& world.spawned matches Some((task_id, future)) ==> {
        &&& waits_for_the_ring(future)
        &&& world.runtime.tasks.contains_key(task_id)
    }
    &&& phase(world) == 2 ==> world.runtime.events.is_empty()
    &&& phase(world) == 1 ==> owned(world.runtime, target(world))
    &&& if world.queue().len() == 0 {
        &&& phase(world) == 1
        &&& world.run.draining
        &&& !world.runtime.events.is_empty()
        &&& rounds + pending(world) <= MAX_ITERATIONS
    } else {
        &&& world.queue() == seq![target(world)]
        &&& rounds + pending(world) <= MAX_ITERATIONS + 1
    }
}

proof fn waiting_stays<T>(world: World<T>, output: T, n: nat)
    requires
        waiting(world, output),
    ensures
        world.outcome(n) !is Failed,
        world.outcome(n) is Running ==> waiting(world.after(n), output),
        world.ready_at(n) || world.ready_at(n + 1),
    decreases n,
{
    waiting_step(world, output);
    if n > 0 {
        if world.step().1 is Running {
            shifts(world, (n - 1) as nat);
            shifts(world, n);
            waiting_stays(world.step().0, output, (n - 1) as nat);
        }
    } else if world.queue().len() == 0 {
        if world.step().1 is Running {
            shifts(world, 0);
            assert(world.step().0.queue()[0] == target(world.step().0));
        } else {
            assert(world.outcome(1) !is Running);
        }
    } else {
        assert(world.queue()[0] == target(world));
    }
}

proof fn waiting_step<T>(world: World<T>, output: T)
    requires
        waiting(world, output),
    ensures
        world.step().1 !is Failed,
        world.step().1 is Running ==> waiting(world.step().0, output),
        world.step().1 is Running && world.queue().len() == 0 ==> world.step().0.queue().len() > 0,
{
    let (run, runtime, action) = world.run.next(world.runtime);
    let (next, outcome) = world.step();
    let queue = world.queue();
    if queue.len() == 0 {
        let completed = (world.surroundings.completed)(world.time, run, runtime);
        assert(runtime == world.runtime);
        completions_wake_in_order(runtime, completed);
        completions_keep_the_rest(runtime, completed);
        assert(next.queue() =~= seq![target(world)]);
        step_moves_on(world, output);
    } else if world.has_ids() {
        queue_is_first_in_first_out(world.run, world.runtime);
        assert(queue[0] == target(world));
        assert(one_step(world.runtime, runtime));
        every_step_keeps_the_bookkeeping(world.runtime, runtime);
        assert(run.queue(runtime).len() == 0);
        if outcome is Running {
            step_moves_on(world, output);
            assert(next.run.queue(next.runtime) =~= next.runtime.ready);
            assert(run.draining);
            match action {
                Action::PollMain { waker } => {
                    if world.main is Spawns {
                        assert(next.queue() =~= seq![target(next)]);
                    }
                },
                Action::PollTask { task, waker } => {
                    let (_, future) = world.spawned->0;
                    let polled = (future.effect)(future.pending, run, runtime, waker);
                    assert(owned(runtime, waker.task_id));
                    if future.pending == 0 {
                        assert(next.queue() =~= seq![target(next)]);
                    }
                },
                _ => {},
            }
        }
    }
}

} // verus!
