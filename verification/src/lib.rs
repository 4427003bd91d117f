//! The decisions of a single-threaded `io_uring` runtime: which task is polled
//! next, which ring operation an event stands for, whom a completion wakes.
//! Nothing here touches the ring, a socket or a future; the caller performs the
//! actions that the functions of this crate hand out.

pub mod error;
pub mod event;
pub mod laws;
pub mod net;
pub mod poll;
pub mod program;
pub mod run;
pub mod runtime;
pub mod spawning;
pub mod system;
pub mod task;
pub mod timespec;
pub mod toggle;

pub use crate::error::Error;
pub use crate::event::{Completion, Event};
pub use crate::poll::Poll;
pub use crate::run::{Action, Run};
pub use crate::runtime::Runtime;
pub use crate::system::EventCompletion;
pub use crate::task::{spawn, Task, TaskStorage, Waker};
pub use crate::timespec::{make_timespec, Timespec};
pub use crate::toggle::ToggleFuture;
