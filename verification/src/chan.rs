//! Trusted boundary around the per-subscription output channels.
//!
//! Each subscription owns the sending half of an unbounded channel from the
//! `futures` crate; the caller holds the receiving half. Nothing can be
//! promised about a send: whether it lands depends on whether the receiver
//! is still alive, so the wrappers state only how the outcome is reported
//! and the routing logic is verified for every outcome.

use vstd::prelude::*;

verus! {

use crate::error::WsResult;

/// How a send into a subscription channel ended.
#[derive(Clone, Copy, Debug, PartialEq, Eq, Structural)]
pub enum SendOutcome {
    /// The message was queued for the receiver.
    Delivered,
    /// The receiver was dropped; nothing will read the channel again.
    Disconnected,
}

#[verifier::external_type_specification]
#[verifier::external_body]
#[verifier::reject_recursive_types(T)]
pub struct ExUnboundedSender<T>(futures::channel::mpsc::UnboundedSender<T>);

/// Relies on `UnboundedSender::unbounded_send` of the futures crate: on an
/// unbounded channel the only failure its source produces is a dropped
/// receiver (`is_disconnected`), never a full queue.
#[verifier::external_body]
pub(crate) fn sink_send(
    sink: &futures::channel::mpsc::UnboundedSender<WsResult>,
    msg: WsResult,
) -> (r: SendOutcome) {
    match sink.unbounded_send(msg) {
        Ok(()) => SendOutcome::Delivered,
        Err(_) => SendOutcome::Disconnected,
    }
}

/// Relies on `UnboundedSender::close_channel` of the futures crate: closes
/// the channel so the receiver sees the end of the stream.
#[verifier::external_body]
pub(crate) fn sink_close(sink: &futures::channel::mpsc::UnboundedSender<WsResult>) {
    sink.close_channel()
}

} // verus!
