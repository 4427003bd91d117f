//! Futures run to their end on a ring that is only a list of deadlines.

use std::cell::{Cell, RefCell};
use std::collections::HashMap;
use std::future::Future;
use std::pin::Pin;
use std::rc::Rc;
use std::task::{Context, Poll};
use std::time::Duration;

use futures::future::FutureExt;

use ringloop::system::{self, EventFuture, Operation, Submission};
use ringloop::{make_timespec, Action, Completion, Runtime, TaskStorage, Timespec, Waker};

type BoxFuture = Pin<Box<dyn Future<Output = ()>>>;

const ETIME: i32 = 62;

struct World {
    runtime: RefCell<Runtime>,
    futures: RefCell<HashMap<usize, BoxFuture>>,
    ring: RefCell<Vec<(u64, u64)>>,
    now: Cell<u64>,
    current: Cell<Waker>,
    polls: RefCell<Vec<usize>>,
}

fn world() -> Rc<World> {
    Rc::new(World {
        runtime: RefCell::new(Runtime::new()),
        futures: RefCell::new(HashMap::new()),
        ring: RefCell::new(Vec::new()),
        now: Cell::new(0),
        current: Cell::new(Waker { id: 0, task_id: 0 }),
        polls: RefCell::new(Vec::new()),
    })
}

fn timespec(duration: Duration) -> Timespec {
    make_timespec(duration.as_secs(), duration.subsec_nanos())
}

fn prepare(world: &World, submission: Submission) {
    match submission.operation {
        Operation::Timeout { timespec, events, flags } => {
            assert_eq!((0, 0), (events, flags));
            let length = timespec.tv_sec as u64 * 1_000_000_000 + timespec.tv_nsec as u64;
            world.ring.borrow_mut().push((world.now.get() + length, submission.user_data));
        }
        other => panic!("unexpected operation: {:?}", other),
    }
}

/// Moves the clock to the earliest deadline and gives all completions up to then.
fn wait(world: &World) -> Vec<Completion> {
    let mut ring = world.ring.borrow_mut();
    let earliest = ring.iter().map(|entry| entry.0).min().unwrap();
    world.now.set(earliest);
    let mut completed = Vec::new();
    ring.retain(|entry| {
        if entry.0 <= earliest {
            completed.push(Completion { user_data: entry.1, res: -ETIME });
        }
        entry.0 > earliest
    });
    completed
}

struct Wait {
    world: Rc<World>,
    future: EventFuture,
}

impl Future for Wait {
    type Output = Result<u32, i32>;

    fn poll(mut self: Pin<&mut Self>, _cx: &mut Context<'_>) -> Poll<Self::Output> {
        let world = self.world.clone();
        let mut runtime = world.runtime.borrow_mut();
        assert!(self.future.is_pollable(&runtime));
        match self.future.poll(&mut runtime, world.current.get()) {
            ringloop::Poll::Ready(result) => Poll::Ready(result),
            ringloop::Poll::Pending => Poll::Pending,
        }
    }
}

async fn timeout_prime(world: &Rc<World>, timespec: &Timespec) -> Result<u32, i32> {
    let (submission, future) =
        system::timeout_prime(&mut world.runtime.borrow_mut(), timespec);
    prepare(world, submission);
    Wait { world: world.clone(), future }.await
}

struct Handle<T> {
    world: Rc<World>,
    storage: Rc<RefCell<TaskStorage<T>>>,
}

impl<T> Future for Handle<T> {
    type Output = T;

    fn poll(self: Pin<&mut Self>, _cx: &mut Context<'_>) -> Poll<T> {
        match self.storage.borrow_mut().poll(self.world.current.get()) {
            ringloop::Poll::Ready(output) => Poll::Ready(output),
            ringloop::Poll::Pending => Poll::Pending,
        }
    }
}

fn spawn<T: 'static>(world: &Rc<World>, f: impl Future<Output = T> + 'static) -> Handle<T> {
    let (task_id, storage) = ringloop::spawn(&mut world.runtime.borrow_mut());
    let storage = Rc::new(RefCell::new(storage));
    let (here, shared) = (world.clone(), storage.clone());
    let future: BoxFuture = Box::pin(async move {
        let output = f.await;
        shared.borrow_mut().complete(&mut here.runtime.borrow_mut(), output);
    });
    world.futures.borrow_mut().insert(task_id, future);
    Handle { world: world.clone(), storage }
}

fn run<T>(world: &Rc<World>, main: impl Future<Output = T>) -> T {
    let mut main = Box::pin(main);
    let waker = futures::task::noop_waker();
    let mut cx = Context::from_waker(&waker);
    let mut run = world.runtime.borrow_mut().run();
    let mut output = None;
    loop {
        let action = run.next(&mut world.runtime.borrow_mut());
        match action {
            Action::PollMain { waker } => {
                world.current.set(waker);
                world.polls.borrow_mut().push(waker.task_id);
                output = run.main_polled(match main.as_mut().poll(&mut cx) {
                    Poll::Ready(output) => ringloop::Poll::Ready(output),
                    Poll::Pending => ringloop::Poll::Pending,
                });
            }
            Action::PollTask { task, waker } => {
                world.current.set(waker);
                world.polls.borrow_mut().push(waker.task_id);
                let mut future = world.futures.borrow_mut().remove(&task.id).unwrap();
                let poll = if future.as_mut().poll(&mut cx).is_pending() {
                    world.futures.borrow_mut().insert(task.id, future);
                    ringloop::Poll::Pending
                } else {
                    ringloop::Poll::Ready(())
                };
                world.runtime.borrow_mut().task_polled(task, poll);
            }
            Action::Submit { wait_for } => {
                assert_eq!(1, wait_for);
                let completed = wait(world);
                world.runtime.borrow_mut().complete_events(&completed);
            }
            Action::Finished => return output.unwrap(),
            Action::MissingTask { task_id } => panic!("missing task: {}", task_id),
            Action::TooManyIterations => panic!("too many iterations!"),
        }
    }
}

#[test]
fn ready() {
    let world = world();
    let ret = run(
        &world,
        async {
            println!("entered future");
        }
        .then(|_| async {
            println!("entered second future");
        })
        .then(|_| async {
            println!("returning 42");
            42
        }),
    );
    assert_eq!(42, ret);
}

#[test]
fn timeout() {
    let world = world();
    let timespec = timespec(Duration::from_secs(1));
    let ret = run(&world, async {
        let result = timeout_prime(&world, &timespec).await;
        assert_eq!(Err(ETIME), result);
        42
    });
    assert_eq!(42, ret);
    assert_eq!(1_000_000_000, world.now.get());
}

#[test]
fn spawn_ready() {
    let world = world();
    let ret = run(&world, async { spawn(&world, async { 42usize }).await });
    assert_eq!(42, ret);
}

#[test]
fn spawn_sleep() {
    let world = world();
    let duration = run(&world, async {
        let start = world.now.get();
        let here = world.clone();
        let t = spawn(&world, async move {
            println!("long sleep");
            let timespec = timespec(Duration::from_secs(3));
            let _ = timeout_prime(&here, &timespec).await;
            println!("long sleep finished");
        });
        println!("short sleep");
        let timespec = timespec(Duration::from_secs(2));
        let _ = timeout_prime(&world, &timespec).await;
        println!("short sleep finished");
        println!("waiting for long sleep");
        t.await;
        Duration::from_nanos(world.now.get() - start)
    });
    println!("Slept {} ms", duration.as_millis());
    assert_eq!(true, duration < Duration::from_secs(5));
    assert_eq!(Duration::from_secs(3), duration);
}

#[test]
fn spawned_tasks_run_in_the_order_of_their_spawning() {
    let world = world();
    let order = Rc::new(RefCell::new(Vec::new()));
    run(&world, async {
        let mut handles = Vec::new();
        for name in ["first", "second", "third"] {
            let order = order.clone();
            handles.push(spawn(&world, async move { order.borrow_mut().push(name) }));
        }
        for handle in handles {
            handle.await;
        }
    });
    assert_eq!(vec!["first", "second", "third"], *order.borrow());
}

#[test]
fn a_run_takes_over_what_another_left() {
    let world = world();
    let seen = Rc::new(Cell::new(0));
    let (early, late) = (seen.clone(), seen.clone());
    let first = run(&world, async {
        spawn(&world, async move { early.set(early.get() + 1) });
        1
    });
    assert_eq!((1, 0), (first, seen.get()));
    run(&world, async { spawn(&world, async move { late.set(late.get() + 10) }).await });
    assert_eq!(11, seen.get());
}

/// Pending a number of times, each time after it has woken its task, and then done.
struct Stubborn {
    world: Rc<World>,
    pending: u32,
    output: &'static str,
}

impl Future for Stubborn {
    type Output = &'static str;

    fn poll(mut self: Pin<&mut Self>, _cx: &mut Context<'_>) -> Poll<Self::Output> {
        if self.pending == 0 {
            return Poll::Ready(self.output);
        }
        self.pending -= 1;
        let waker = self.world.current.get();
        self.world.runtime.borrow_mut().wake_by_ref(&waker);
        Poll::Pending
    }
}

#[test]
fn spawning_and_awaiting_gives_what_running_gives() {
    for pending in [0, 1, 5] {
        let direct = world();
        let future = Stubborn { world: direct.clone(), pending, output: "done" };
        assert_eq!("done", run(&direct, future));
        assert_eq!(pending as usize + 1, direct.polls.borrow().len());

        let spawning = world();
        let future = Stubborn { world: spawning.clone(), pending, output: "done" };
        assert_eq!("done", run(&spawning, async { spawn(&spawning, future).await }));
        assert_eq!(pending as usize + 3, spawning.polls.borrow().len());
    }
}

#[test]
fn a_run_does_not_wait_for_spawned_tasks() {
    let world = world();
    let future = Stubborn { world: world.clone(), pending: 1, output: "late" };
    let ret = run(&world, async {
        spawn(&world, future);
        "early"
    });
    assert_eq!("early", ret);
    assert_eq!(vec![0], *world.polls.borrow());
}

#[test]
fn spawning_beside_other_tasks_gives_what_running_gives() {
    for spawned in [false, true] {
        let world = world();
        for output in ["other", "another"] {
            spawn(&world, Stubborn { world: world.clone(), pending: 1000, output });
        }
        let future = Stubborn { world: world.clone(), pending: 3, output: "done" };
        let ret = if spawned {
            run(&world, async { spawn(&world, future).await })
        } else {
            run(&world, future)
        };
        assert_eq!("done", ret);
    }
}

async fn sleeps(world: Rc<World>, times: u64) -> u64 {
    for _ in 0..times {
        let _ = timeout_prime(&world, &timespec(Duration::from_secs(1))).await;
    }
    world.now.get() / 1_000_000_000
}

#[test]
fn spawning_a_sleep_gives_what_sleeping_gives() {
    for times in [0, 1, 7, 30] {
        let direct = world();
        assert_eq!(times, run(&direct, sleeps(direct.clone(), times)));
        let spawning = world();
        let future = sleeps(spawning.clone(), times);
        assert_eq!(times, run(&spawning, async { spawn(&spawning, future).await }));
    }
}
