//! The request and response queues between presentation and workers.
//!
//! Both directions run over unbounded multi-producer/multi-consumer
//! channels, so neither side ever blocks on the other: the presentation
//! layer enqueues a request and polls for responses without waiting, and a
//! worker that is busy delays only itself.  The channel type is an
//! implementation detail of an outside crate; the core touches it through
//! the two non-blocking calls below and nothing else.

use vstd::prelude::*;

use crate::protocol::{Payload, Results};

verus! {

#[verifier::external_type_specification]
#[verifier::external_body]
#[verifier::reject_recursive_types(T)]
pub struct ExSender<T>(async_channel::Sender<T>);

#[verifier::external_type_specification]
#[verifier::external_body]
#[verifier::reject_recursive_types(T)]
pub struct ExReceiver<T>(async_channel::Receiver<T>);

/// Hand a request to the worker pool without waiting.  Relies on
/// `async_channel::Sender::try_send`: on an unbounded channel it never
/// blocks and fails only once the channel is closed, which happens only
/// during shutdown; the report says whether the request was accepted.
#[verifier::external_body]
pub fn enqueue(tx: &async_channel::Sender<Payload>, request: Payload) -> (accepted: bool) {
    tx.try_send(request).is_ok()
}

/// A single non-blocking poll of the response queue.  Relies on
/// `async_channel::Receiver::try_recv`: it returns a pending message if one
/// exists and returns immediately either way, never waiting for a worker.
#[verifier::external_body]
pub(crate) fn drain_raw(rx: &async_channel::Receiver<Results>) -> (r: Option<Results>) {
    rx.try_recv().ok()
}

} // verus!
