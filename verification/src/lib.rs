//! The execution harness of a consensus engine, written without I/O.
//!
//! A consensus engine keeps a DAG of blocks in memory and is not safe to share
//! between threads. This crate holds the rules under which such an engine is
//! driven: requests from any number of callers are put on one bounded queue,
//! a single worker takes them off in the order in which they were put there,
//! hands each to the engine on its own, and gives the engine's answer to the
//! reply slot that came with the request. Shutdown closes the queue for new
//! requests and lets the worker finish those already on it.
//!
//! Nothing here blocks, spawns or awaits. Every step is a function from the
//! state of the harness to its next state and to what has to happen next, so
//! that an embedding can run the worker on a thread of its own and a
//! simulation can run it step by step.
//!
//! - [`command`] is the vocabulary: commands, operations, outcomes, replies.
//! - [`engine`] is the engine as the worker sees it: three operations, and
//!   a record of what it was invoked with and what it returned, by which the
//!   worker's functions say that they called it.
//! - [`queue`] is the bounded queue, and [`core_thread`] the worker, the
//!   dispatchers and the handle around it.
//! - [`model`] says what their functions do, as a state machine, and
//!   [`laws`] proves what holds of every execution of that machine.
//! - [`reply`] makes reply slots of tokio's one-shot channels, for an
//!   embedding on threads and tasks; it also holds what the worker does with
//!   one command, for an embedding that brings the commands to the worker
//!   over a channel of its own. [`error`] is what a caller gets whose slot
//!   was dropped.

pub mod block;
pub mod command;
pub mod core_thread;
pub mod engine;
pub mod error;
pub mod laws;
pub mod model;
pub mod queue;
pub mod reply;
