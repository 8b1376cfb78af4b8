//! Client-side supervision of a dataflow.
//!
//! A supervisor hands commands to a worker and reads events and a running
//! flag back. The worker owns the dataflow's dispatcher for as long as a
//! dataflow is up. This module is the worker's mind: it decides how the
//! worker's state changes, which events the user interface gets to see, when
//! the dataflow's health is looked after and how long a prompt is retried.
//! The hands belong to the host program: it runs the worker's thread, moves
//! commands and events through its queues, talks to the dispatcher and tells
//! the worker what came of it.

pub mod command;
pub mod delivery;
pub mod event;
pub mod history;
pub mod worker;

pub use command::DoraCommand;
pub use event::DoraEvent;
pub use worker::Worker;
