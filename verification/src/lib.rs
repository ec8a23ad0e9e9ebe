//! The asynchronous fetch/cache/dedup core of a match-history viewer.
//!
//! A single frame-driven presentation thread issues network work as
//! [`Payload`](protocol::Payload) requests on an unbounded queue; a fixed pool
//! of workers executes each request and reports a [`Results`](protocol::Results)
//! message back.  This crate holds everything with an invariant worth proving:
//! the message protocol, the write-once shared caches, the per-resource
//! dedup guards, the worker-side response handlers, and the non-blocking
//! drain step that applies at most one response per frame.  The actual I/O
//! (HTTP, image decoding, texture upload) stays outside, reached only through
//! narrow interfaces.

pub mod apply;
pub mod catalog;
pub mod domain;
pub mod frame;
pub mod laws;
pub mod protocol;
pub mod queries;
pub mod queue;
pub mod shared;
pub mod view;
pub mod worker;

pub use protocol::{Errors, Payload, Results};
