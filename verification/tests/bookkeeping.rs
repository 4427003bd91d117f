use ringloop::net::tcp::ReadHalf;
use ringloop::net::{
    Accept, ErrorKind, SocketPoll, TcpAccept, TcpListener, TcpStream, TcpStreamState, EAGAIN, EINTR,
};
use ringloop::run::MAX_ITERATIONS;
use ringloop::system::{
    self, Address, EventFuture, Interest, Operation, State, Submission, RING_ENTRIES,
};
use ringloop::{
    make_timespec, spawn, Action, Completion, Error, Event, EventCompletion, Poll, Runtime, Task,
    TaskStorage, Timespec, ToggleFuture, Waker,
};

fn waker(task_id: usize) -> Waker {
    Waker { id: 1000 + task_id, task_id }
}

fn localhost() -> Address {
    Address::V4 { octets: [127, 0, 0, 1], port: 12345 }
}

fn completion(submission: &Submission, res: i32) -> Completion {
    Completion { user_data: submission.user_data, res }
}

#[test]
fn events_tasks_and_wakers_share_one_numbering() {
    let mut runtime = Runtime::new();
    assert!(runtime.has_id());
    assert!(!runtime.is_issued(0));
    assert_eq!(0, runtime.get_event_id());
    assert_eq!(1, spawn::<()>(&mut runtime).0);
    let mut run = runtime.run();
    assert_eq!(
        Action::PollTask { task: Task { id: 1 }, waker: Waker { id: 3, task_id: 1 } },
        run.next(&mut runtime)
    );
    assert_eq!(
        Action::PollMain { waker: Waker { id: 4, task_id: 2 } },
        run.next(&mut runtime)
    );
    assert_eq!(5, runtime.get_event_id());
    assert!(runtime.is_issued(5));
    assert!(!runtime.is_issued(6));
}

#[test]
fn wakers_stay() {
    let mut runtime = Runtime::new();
    let mut run = runtime.run();
    run.next(&mut runtime);
    assert_eq!(Some(Waker { id: 1, task_id: 0 }), runtime.waker(1));
    assert_eq!(None, runtime.waker(0));
    runtime.wake(Waker { id: 1, task_id: 0 });
    run.next(&mut runtime);
    assert_eq!(Some(Waker { id: 1, task_id: 0 }), runtime.waker(1));
    assert_eq!(Some(Waker { id: 2, task_id: 0 }), runtime.waker(2));
}

#[test]
fn a_suspended_task_is_polled_again_when_it_is_woken() {
    let mut runtime = Runtime::new();
    let (task_id, _) = spawn::<u8>(&mut runtime);
    let mut run = runtime.run();
    let (task, waker) = match run.next(&mut runtime) {
        Action::PollTask { task, waker } => (task, waker),
        other => panic!("{:?}", other),
    };
    assert_eq!(task_id, task.id);
    runtime.task_polled(task, Poll::Pending);
    assert!(matches!(run.next(&mut runtime), Action::PollMain { .. }));
    runtime.wake_by_ref(&waker);
    assert_eq!(
        Action::PollTask { task: Task { id: task_id }, waker: Waker { id: 4, task_id } },
        run.next(&mut runtime)
    );
}

#[test]
fn a_task_that_is_woken_after_its_end_is_missing() {
    let mut runtime = Runtime::new();
    let (task_id, _) = spawn::<u8>(&mut runtime);
    runtime.wake(waker(task_id));
    let mut run = runtime.run();
    match run.next(&mut runtime) {
        Action::PollTask { task, .. } => runtime.task_polled(task, Poll::Ready(())),
        other => panic!("{:?}", other),
    }
    assert_eq!(Action::MissingTask { task_id }, run.next(&mut runtime));
}

#[test]
fn ready_tasks_come_first_in_first_out() {
    let mut runtime = Runtime::new();
    let mut run = runtime.run();
    assert_eq!(
        Action::PollMain { waker: Waker { id: 1, task_id: 0 } },
        run.next(&mut runtime)
    );
    let (a, _) = spawn::<u8>(&mut runtime);
    let (b, _) = spawn::<u8>(&mut runtime);
    runtime.wake(waker(0));
    let mut order = Vec::new();
    for _ in 0..3 {
        match run.next(&mut runtime) {
            Action::PollMain { waker } => order.push(waker.task_id),
            Action::PollTask { task, waker } => {
                assert_eq!(task.id, waker.task_id);
                order.push(task.id);
                if task.id == a {
                    runtime.wake(waker);
                    runtime.task_polled(task, Poll::Pending);
                }
            }
            other => panic!("{:?}", other),
        }
    }
    assert_eq!(vec![a, b, 0], order);
    assert!(matches!(run.next(&mut runtime), Action::PollTask { task: Task { id }, .. } if id == a));
}

#[test]
fn a_run_ends_with_the_first_output_of_its_main_future() {
    let mut runtime = Runtime::new();
    let mut run = runtime.run();
    let first = match run.next(&mut runtime) {
        Action::PollMain { waker } => waker,
        other => panic!("{:?}", other),
    };
    assert_eq!(None, run.main_polled::<&str>(Poll::Pending));
    runtime.wake(first);
    assert!(matches!(run.next(&mut runtime), Action::PollMain { .. }));
    let (task_id, _) = spawn::<u8>(&mut runtime);
    assert_eq!(Some("first"), run.main_polled(Poll::Ready("first")));
    runtime.wake(first);
    assert_eq!(Action::Finished, run.next(&mut runtime));
    assert_eq!(Action::Finished, run.next(&mut runtime));
    assert_eq!(None, run.main_polled(Poll::Ready("second")));

    let mut later = runtime.run();
    assert!(
        matches!(later.next(&mut runtime), Action::PollTask { task: Task { id }, .. } if id == task_id)
    );
}

#[test]
fn a_run_without_anything_to_wait_for_gives_up() {
    let mut runtime = Runtime::new();
    let mut run = runtime.run();
    assert!(matches!(run.next(&mut runtime), Action::PollMain { .. }));
    assert_eq!(Action::TooManyIterations, run.next(&mut runtime));
    runtime.wake(waker(0));
    assert_eq!(Action::TooManyIterations, run.next(&mut runtime));
}

#[test]
fn a_run_submits_a_bounded_number_of_times() {
    let mut runtime = Runtime::new();
    let mut run = runtime.run();
    assert!(matches!(run.next(&mut runtime), Action::PollMain { .. }));
    let (_, mut future) = system::timeout_prime(&mut runtime, &make_timespec(1, 0));
    assert_eq!(Poll::Pending, future.poll(&mut runtime, waker(0)));
    let mut submissions = 0;
    loop {
        match run.next(&mut runtime) {
            Action::Submit { wait_for } => {
                assert_eq!(1, wait_for);
                submissions += 1;
                runtime.complete_events(&Vec::new());
            }
            other => {
                assert_eq!(Action::TooManyIterations, other);
                break;
            }
        }
    }
    assert_eq!(30, MAX_ITERATIONS);
    assert_eq!(31, submissions);
}

#[test]
fn polling_does_not_use_up_rounds() {
    let mut runtime = Runtime::new();
    let mut run = runtime.run();
    for _ in 0..100 {
        match run.next(&mut runtime) {
            Action::PollMain { waker } => runtime.wake(waker),
            other => panic!("{:?}", other),
        }
    }
}

#[test]
fn an_event_gives_its_result_once() {
    let mut runtime = Runtime::new();
    let (submission, mut future) = system::connect(&mut runtime, 7, localhost());
    assert_eq!(
        Submission {
            operation: Operation::Connect { fd: 7, address: localhost() },
            user_data: 0
        },
        submission
    );
    assert_eq!(EventFuture { event_id: 0, state: State::Waiting }, future);
    assert_eq!(None, runtime.event(0));
    assert_eq!(Poll::Pending, future.poll(&mut runtime, waker(5)));
    assert_eq!(State::Pending(0), future.state);
    assert_eq!(Some(Event { waker: waker(5), result: None }), runtime.event(0));
    assert_eq!(Poll::Pending, future.poll(&mut runtime, waker(6)));
    assert_eq!(Some(Event { waker: waker(5), result: None }), runtime.event(0));

    runtime.complete_events(&vec![completion(&submission, 0)]);
    assert_eq!(Some(Event { waker: waker(5), result: Some(Ok(0)) }), runtime.event(0));
    assert_eq!(Poll::Ready(Ok(0)), future.poll(&mut runtime, waker(5)));
    assert_eq!(None, runtime.event(0));
    assert!(!future.is_pollable(&runtime));
}

#[test]
fn completions_wake_in_order_and_only_who_waits() {
    let mut runtime = Runtime::new();
    let mut submissions = Vec::new();
    let mut futures = Vec::new();
    for task_id in [70, 71, 72] {
        let (submission, mut future) =
            system::poll_add(&mut runtime, 9, Interest::Readable);
        assert_eq!(Poll::Pending, future.poll(&mut runtime, waker(task_id)));
        submissions.push(submission);
        futures.push(future);
    }
    let mut run = runtime.run();
    assert!(matches!(run.next(&mut runtime), Action::PollMain { .. }));
    assert_eq!(Action::Submit { wait_for: 1 }, run.next(&mut runtime));
    runtime.complete_events(&vec![
        completion(&submissions[2], 4),
        Completion { user_data: 999, res: 1 },
        completion(&submissions[0], -104),
        completion(&submissions[2], 5),
    ]);
    assert_eq!(Action::MissingTask { task_id: 72 }, run.next(&mut runtime));
    assert_eq!(Action::MissingTask { task_id: 70 }, run.next(&mut runtime));
    assert_eq!(Action::MissingTask { task_id: 72 }, run.next(&mut runtime));
    assert_eq!(Action::Submit { wait_for: 1 }, run.next(&mut runtime));
    assert_eq!(Poll::Ready(Err(104)), futures[0].poll(&mut runtime, waker(70)));
    assert_eq!(Poll::Pending, futures[1].poll(&mut runtime, waker(71)));
    assert_eq!(Poll::Ready(Ok(5)), futures[2].poll(&mut runtime, waker(72)));
    assert_eq!(None, runtime.event(999));
}

#[test]
fn raw_results_are_decoded() {
    let decode = |res| Completion { user_data: 12, res }.decode();
    assert_eq!((12, Ok(0)), decode(0));
    assert_eq!((12, Ok(8)), decode(8));
    assert_eq!((12, Ok(i32::MAX as u32)), decode(i32::MAX));
    assert_eq!((12, Err(1)), decode(-1));
    assert_eq!((12, Err(62)), decode(-62));
    assert_eq!((12, Err(i32::MAX)), decode(-i32::MAX));
}

#[test]
fn operations_are_submitted_with_their_parameters() {
    let mut runtime = Runtime::new();
    let timespec = make_timespec(3, 5);
    let (timeout, _) = system::timeout_prime(&mut runtime, &timespec);
    assert_eq!(Operation::Timeout { timespec, events: 0, flags: 0 }, timeout.operation);
    assert_eq!(0, timeout.user_data);
    let (accept, future) = system::accept(&mut runtime, 4, false);
    assert_eq!(Operation::Accept { fd: 4, address: false, sock_flags: 0 }, accept.operation);
    assert_eq!(1, accept.user_data);
    assert_eq!(1, future.event_id);
    assert!(future.is_pollable(&runtime));
    assert!(!future.is_pollable(&Runtime::new()));
    let (poll, _) = system::poll_add(&mut runtime, 4, Interest::Writable);
    assert_eq!(Operation::PollAdd { fd: 4, interest: Interest::Writable }, poll.operation);
    assert_eq!(2, poll.user_data);
    let other = Address::Other(vec![1, 0, 47]);
    let (connect, _) = system::connect(&mut runtime, 4, other.clone());
    assert_eq!(Operation::Connect { fd: 4, address: other }, connect.operation);
    assert_eq!(3, connect.user_data);
    assert_eq!(16, RING_ENTRIES);
}

#[test]
fn timespecs() {
    assert_eq!(Timespec { tv_sec: 1, tv_nsec: 0 }, make_timespec(1, 0));
    assert_eq!(Timespec { tv_sec: 2, tv_nsec: 999_999_999 }, make_timespec(2, 999_999_999));
    assert_eq!(Timespec { tv_sec: i64::MAX, tv_nsec: 7 }, make_timespec(i64::MAX as u64, 7));
    assert_eq!(Timespec { tv_sec: i64::MIN, tv_nsec: 0 }, make_timespec(1 << 63, 0));
    assert_eq!(Timespec { tv_sec: -1, tv_nsec: 0 }, make_timespec(u64::MAX, 0));
}

#[test]
fn a_handle_gives_the_output_once() {
    let mut runtime = Runtime::new();
    let (_, mut storage) = spawn::<&str>(&mut runtime);
    assert_eq!(TaskStorage::new(), storage);
    assert_eq!(Poll::Pending, storage.poll(waker(8)));
    assert_eq!(Poll::Pending, storage.poll(waker(9)));
    storage.complete(&mut runtime, "done");
    assert_eq!(TaskStorage { result: Some("done"), waker: None }, storage);
    assert_eq!(Poll::Ready("done"), storage.poll(waker(9)));
    assert_eq!(Poll::Pending, storage.poll(waker(9)));

    let mut run = runtime.run();
    assert!(matches!(run.next(&mut runtime), Action::PollTask { .. }));
    assert_eq!(Action::MissingTask { task_id: 9 }, run.next(&mut runtime));
    assert!(matches!(run.next(&mut runtime), Action::PollMain { .. }));
}

#[test]
fn a_handle_that_nobody_polled_wakes_nobody() {
    let mut runtime = Runtime::new();
    let mut storage = TaskStorage::new();
    storage.complete(&mut runtime, 3);
    let mut run = runtime.run();
    assert!(matches!(run.next(&mut runtime), Action::PollMain { .. }));
    assert_eq!(Poll::Ready(3), storage.poll(waker(1)));
}

#[test]
fn a_toggle_is_pending_once() {
    let mut toggle = ToggleFuture::new();
    assert_eq!(Poll::Pending, toggle.poll());
    assert_eq!(Poll::Ready(()), toggle.poll());
    assert_eq!(Poll::Ready(()), toggle.poll());
}

#[test]
fn errors_keep_the_text() {
    let error = "x".parse::<u8>().unwrap_err();
    assert_eq!("invalid digit found in string", Error::new(error).to_string());
    let error = "x".parse::<u8>().unwrap_err();
    let wrapped = Error::wrap(&Error::wrap(&Error::new(error)));
    assert_eq!("invalid digit found in string", wrapped.to_string());
    assert_eq!("broken", Error::from_message(String::from("broken")).msg);
}

#[test]
fn a_stream_waits_until_it_can_read() {
    let mut runtime = Runtime::new();
    let mut stream = TcpStream::from_fd(5);
    assert!(stream.state.is_pollable(&runtime));
    let submission = match stream.poll_read(&mut runtime, waker(3)) {
        SocketPoll::Registered(submission) => submission,
        other => panic!("{:?}", other),
    };
    assert_eq!(
        Operation::PollAdd { fd: 5, interest: Interest::Readable },
        submission.operation
    );
    assert_eq!(None, runtime.event(0));
    assert_eq!(SocketPoll::Pending, stream.poll_read(&mut runtime, waker(3)));
    assert_eq!(Some(Event { waker: waker(3), result: None }), runtime.event(0));
    assert_eq!(SocketPoll::Pending, stream.poll_read(&mut runtime, waker(3)));
    runtime.complete_events(&vec![completion(&submission, 1)]);
    assert_eq!(SocketPoll::Ready(1), stream.poll_read(&mut runtime, waker(3)));
    assert_eq!(TcpStream::from_fd(5), stream);

    let mut run = runtime.run();
    assert_eq!(Action::MissingTask { task_id: 3 }, run.next(&mut runtime));
    assert_eq!(Action::MissingTask { task_id: 3 }, run.next(&mut runtime));
    assert!(matches!(run.next(&mut runtime), Action::PollMain { .. }));
}

#[test]
fn a_failed_watch_is_reported() {
    let mut runtime = Runtime::new();
    let mut stream = TcpStream::from_fd(6);
    let submission = match stream.poll_write(&mut runtime, waker(3)) {
        SocketPoll::Registered(submission) => submission,
        other => panic!("{:?}", other),
    };
    assert_eq!(
        Operation::PollAdd { fd: 6, interest: Interest::Writable },
        submission.operation
    );
    assert_eq!(SocketPoll::Pending, stream.poll_write(&mut runtime, waker(3)));
    runtime.complete_events(&vec![completion(&submission, -9)]);
    assert_eq!(SocketPoll::Failed(9), stream.poll_write(&mut runtime, waker(3)));
    assert_eq!(TcpStreamState::Idle, stream.state);
}

/// What a stream gives whose watch has ended with this raw result.
fn watched(runtime: &mut Runtime, stream: &mut TcpStream, write: bool, res: i32) -> SocketPoll {
    let mut poll = |runtime: &mut Runtime| {
        if write {
            stream.poll_write(runtime, waker(3))
        } else {
            stream.poll_read(runtime, waker(3))
        }
    };
    let submission = match poll(runtime) {
        SocketPoll::Registered(submission) => submission,
        other => panic!("{:?}", other),
    };
    assert_eq!(SocketPoll::Pending, poll(runtime));
    runtime.complete_events(&vec![completion(&submission, res)]);
    poll(runtime)
}

#[test]
fn a_write_whose_watch_would_block_is_watched_again() {
    assert_eq!((11, 4), (EAGAIN, EINTR));
    for res in [-11, -4] {
        let mut runtime = Runtime::new();
        let mut stream = TcpStream::from_fd(6);
        assert_eq!(SocketPoll::Retry, watched(&mut runtime, &mut stream, true, res));
        assert_eq!(TcpStream::from_fd(6), stream);
        assert_eq!(None, runtime.event(0));

        let mut run = runtime.run();
        for _ in 0..3 {
            assert_eq!(Action::MissingTask { task_id: 3 }, run.next(&mut runtime));
        }
        assert!(matches!(run.next(&mut runtime), Action::PollMain { .. }));
        assert_eq!(SocketPoll::Ready(4), watched(&mut runtime, &mut stream, true, 4));
    }
}

#[test]
fn a_read_whose_watch_would_block_fails() {
    for (res, error) in [(-11, 11), (-4, 4)] {
        let mut runtime = Runtime::new();
        let mut stream = TcpStream::from_fd(6);
        assert_eq!(SocketPoll::Failed(error), watched(&mut runtime, &mut stream, false, res));
    }
}

#[test]
fn os_errors_have_kinds() {
    assert_eq!(ErrorKind::WouldBlock, ErrorKind::from_os_error(11));
    assert_eq!(ErrorKind::Interrupted, ErrorKind::from_os_error(4));
    for error in [0, 1, 5, 9, 10, 12, 104, -11, -4] {
        assert_eq!(ErrorKind::Other, ErrorKind::from_os_error(error));
    }
    for error in 1..200 {
        let kind = match std::io::Error::from_raw_os_error(error).kind() {
            std::io::ErrorKind::WouldBlock => ErrorKind::WouldBlock,
            std::io::ErrorKind::Interrupted => ErrorKind::Interrupted,
            _ => ErrorKind::Other,
        };
        assert_eq!(kind, ErrorKind::from_os_error(error));
    }
}

#[test]
fn a_write_that_would_block_is_tried_again() {
    for kind in [ErrorKind::WouldBlock, ErrorKind::Interrupted] {
        let mut runtime = Runtime::new();
        let mut stream = TcpStream::from_fd(6);
        assert_eq!(
            Poll::Pending,
            stream.finish_write(&mut runtime, waker(4), Err((kind, "error")))
        );
        assert_eq!(TcpStreamState::Idle, stream.state);
        let mut run = runtime.run();
        assert_eq!(Action::MissingTask { task_id: 4 }, run.next(&mut runtime));
    }
    let mut runtime = Runtime::new();
    let mut stream = TcpStream::from_fd(6);
    assert_eq!(
        Poll::Ready(Err("error")),
        stream.finish_write(&mut runtime, waker(4), Err((ErrorKind::Other, "error")))
    );
    assert_eq!(
        Poll::Ready(Ok(12)),
        stream.finish_write::<&str>(&mut runtime, waker(4), Ok(12))
    );
    let mut run = runtime.run();
    assert!(matches!(run.next(&mut runtime), Action::PollMain { .. }));
}

#[test]
fn a_reading_half_waits_on_its_own() {
    let mut runtime = Runtime::new();
    let stream = TcpStream::from_fd(5);
    let mut half = ReadHalf { fd: stream.as_raw_fd(), state: TcpStreamState::Idle, _stream: &stream };
    let submission = match half.poll_read(&mut runtime, waker(3)) {
        SocketPoll::Registered(submission) => submission,
        other => panic!("{:?}", other),
    };
    assert_eq!(SocketPoll::Pending, half.poll_read(&mut runtime, waker(3)));
    assert_eq!(TcpStreamState::Idle, stream.state);
    runtime.complete_events(&vec![completion(&submission, 1)]);
    assert_eq!(SocketPoll::Ready(1), half.poll_read(&mut runtime, waker(3)));
    assert_eq!(TcpStreamState::Idle, half.state);
}

#[test]
fn a_connection_is_made() {
    let mut runtime = Runtime::new();
    let address = Address::V6 { octets: [9; 16], port: 80, flow_info: 1, scope_id: 2 };
    let (submission, mut connect) = TcpStream::connect(&mut runtime, 11, address.clone());
    assert_eq!(Operation::Connect { fd: 11, address }, submission.operation);
    assert_eq!(0, connect.event_id);
    assert_eq!(Poll::Pending, connect.poll(&mut runtime, waker(1)));
    assert!(!connect.completed);
    runtime.complete_events(&vec![completion(&submission, 0)]);
    let result = match connect.poll(&mut runtime, waker(1)) {
        Poll::Ready(result) => result,
        Poll::Pending => panic!("still pending"),
    };
    assert!(connect.completed);
    assert_eq!(Ok(TcpStream::from_fd(11)), TcpStream::connected(11, result));
    assert_eq!(Err(111), TcpStream::connected(11, Err(111)));
    assert_eq!(11, TcpStream::from_fd(11).into_raw_fd());
}

#[test]
fn a_connection_is_accepted() {
    let mut runtime = Runtime::new();
    let listener = TcpListener::from_fd(3);
    let (submission, mut accept) = listener.accept(&mut runtime);
    assert_eq!(
        Operation::Accept { fd: 3, address: true, sock_flags: 0 },
        submission.operation
    );
    assert_eq!(
        Some(EventCompletion { target_event_id: 0, primed: false }),
        accept.abandon()
    );
    assert_eq!(Poll::Pending, accept.poll(&mut runtime, waker(1)));
    assert!(accept.abandon().is_some());
    runtime.complete_events(&vec![completion(&submission, 12)]);
    assert_eq!(Poll::Ready(Ok(12)), accept.poll(&mut runtime, waker(1)));
    assert_eq!(None, accept.abandon());
    assert_eq!(
        Ok((TcpStream::from_fd(12), localhost())),
        TcpListener::accepted::<_, i32>(Ok((12, Ok(localhost()))))
    );
    assert_eq!(Err(22), TcpListener::accepted::<Address, i32>(Ok((12, Err(22)))));
    assert_eq!(Err(4), TcpListener::accepted::<Address, i32>(Err(4)));
    assert_eq!(3, listener.as_raw_fd());
    assert_eq!(3, listener.into_raw_fd());
    assert_eq!(TcpAccept {}, TcpAccept {});
}

fn dropped_accept(runtime: &mut Runtime, polled: bool) -> (Submission, EventCompletion) {
    let (submission, mut accept): (Submission, Accept) = TcpListener::from_fd(3).accept(runtime);
    if polled {
        assert_eq!(Poll::Pending, accept.poll(runtime, waker(1)));
    }
    (submission, accept.abandon().unwrap())
}

#[test]
fn an_abandoned_operation_is_waited_for() {
    for polled in [false, true] {
        let mut runtime = Runtime::new();
        let (submission, mut completion_future) = dropped_accept(&mut runtime, polled);
        assert!(completion_future.is_pollable(&runtime));
        assert_eq!(Poll::Pending, completion_future.poll(&mut runtime, waker(2)));
        assert!(completion_future.primed);
        assert_eq!(Some(Event { waker: waker(2), result: None }), runtime.event(0));
        assert_eq!(Poll::Pending, completion_future.poll(&mut runtime, waker(3)));
        runtime.complete_events(&vec![completion(&submission, 12)]);
        assert_eq!(Poll::Ready(()), completion_future.poll(&mut runtime, waker(2)));
        assert_eq!(None, runtime.event(0));
        assert!(!completion_future.is_pollable(&runtime));
        let mut run = runtime.run();
        assert_eq!(Action::MissingTask { task_id: 2 }, run.next(&mut runtime));
        assert!(matches!(run.next(&mut runtime), Action::PollMain { .. }));
    }
}

#[test]
fn an_abandoned_operation_that_has_completed_is_done_at_once() {
    let mut runtime = Runtime::new();
    let (submission, mut completion_future) = dropped_accept(&mut runtime, true);
    runtime.complete_events(&vec![completion(&submission, 12)]);
    assert_eq!(Poll::Ready(()), completion_future.poll(&mut runtime, waker(2)));
}
