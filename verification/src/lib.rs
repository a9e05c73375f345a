//! A cooperative, poll-driven task library.
//!
//! The heart of the crate is a small task model: a [`task::Task`] is a unit
//! of deferred work that is driven by repeated polling against an explicit
//! [`clock::Clock`], together with the combinators that compose tasks
//! (concurrent join, retry with exponential backoff, a deadline wrapper and a
//! sequential pipeline) and an explicit state-machine task.  Around that core
//! the crate collects a set of small verified utilities on numbers, text and
//! collections.

pub mod clock;
pub mod container;
pub mod deadline;
pub mod join;
pub mod machine;
pub mod math;
pub mod pipeline;
pub mod poll;
pub mod probe;
pub mod retry;
pub mod signals;
pub mod stream;
pub mod task;
pub mod text;
pub mod timer;
pub mod vecs;
