//! A single-threaded, cooperative coroutine runtime in which every task has
//! process-like semantics: creation with arguments, voluntary yielding
//! (immediate or timed), signal delivery, an exit status and a `waitpid`-style
//! reaping protocol, while all tasks share one stack.
//!
//! # The shape of the runtime
//!
//! The runtime is an explicit state machine. A [`scheduler::Scheduler`] owns
//! the task table, the shared stack and the clock, and every scheduling
//! operation is a method on it. It never runs a task body and never reads a
//! time source itself. A driver loop around it does: it reads the clock,
//! asks [`scheduler::Scheduler::step`] for the task to run, runs the body of
//! that task from the point that the scheduler names until the body calls an
//! operation that suspends or ends the task, and asks again.
//!
//! Because there is one stack only, a task that is suspended keeps the
//! bytes of the stack that it was using in a snapshot buffer of fixed
//! capacity, and finds them at the same addresses when it is resumed. A task
//! whose live stack does not fit its buffer cannot be suspended: it is
//! aborted, and no other task is harmed.
//!
//! # The modules
//!
//! - [`error`], [`jump`], [`signal`]: errors, names for code and for points
//!   of execution, signal kinds, pending signals and handlers.
//! - [`stack`], [`frame`]: the shared stack and the snapshot buffer.
//! - [`context`]: the context of one task.
//! - [`model`]: the mathematical model of a scheduler, and each operation as
//!   a function on it. The contracts of the operations are stated over it.
//! - [`scheduler`], [`engine`], [`sched`], [`timed`], [`wait`], [`running`],
//!   [`delivery`]: the scheduler and its operations.
//! - [`codes`]: return codes for a boundary that speaks in integers.
//! - [`ops`], [`preserve`], [`laws`]: the operations as values, the
//!   invariant that all of them keep, and the laws of the runtime.

pub mod error;
pub mod jump;
pub mod signal;
pub mod stack;
pub mod frame;
pub mod context;
pub mod model;
pub mod scheduler;
pub mod engine;
pub mod sched;
pub mod timed;
pub mod wait;
pub mod running;
pub mod delivery;
pub mod codes;
pub mod ops;
pub mod preserve;
pub mod laws;
