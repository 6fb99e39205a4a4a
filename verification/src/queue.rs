//! The unbounded queue through which callers hand bytes to the protocol loop.
//!
//! The queue is a channel of the `tokio` crate. Whether a send is accepted
//! depends on whether the receiving half is still alive, which the verifier
//! cannot know: the wrappers below promise nothing about it.

use vstd::prelude::*;

verus! {

/// The sending half of a `tokio` unbounded channel, opaque to the verifier.
#[verifier::external_type_specification]
#[verifier::external_body]
#[verifier::reject_recursive_types(T)]
pub struct ExUnboundedSender<T>(tokio::sync::mpsc::UnboundedSender<T>);

/// The receiving half of a `tokio` unbounded channel, opaque to the verifier.
#[verifier::external_type_specification]
#[verifier::external_body]
#[verifier::reject_recursive_types(T)]
pub struct ExUnboundedReceiver<T>(tokio::sync::mpsc::UnboundedReceiver<T>);

/// `tokio::sync::mpsc::unbounded_channel`: a fresh queue of byte strings.
#[verifier::external_body]
pub(crate) fn open_queue() -> (halves: (
    tokio::sync::mpsc::UnboundedSender<Vec<u8>>,
    tokio::sync::mpsc::UnboundedReceiver<Vec<u8>>,
)) {
    tokio::sync::mpsc::unbounded_channel()
}

/// `tokio::sync::mpsc::UnboundedSender::send`: tells whether the queue took
/// `bytes`, which it does unless its receiving half is closed or dropped.
#[verifier::external_body]
pub(crate) fn queue_send(
    sender: &tokio::sync::mpsc::UnboundedSender<Vec<u8>>,
    bytes: Vec<u8>,
) -> (accepted: bool) {
    sender.send(bytes).is_ok()
}

/// Where the write queue of a session stands.
#[derive(Debug, Clone, Copy, PartialEq, Eq, Structural)]
pub enum QueueState {
    /// The protocol loop has not started: there is no queue yet.
    Idle,
    /// The protocol loop runs and takes writes.
    Open,
    /// The protocol loop has ended: the queue is gone for good.
    TornDown,
}

/// The sender cell of a session: the sending half of the write queue while the
/// protocol loop runs.
pub enum Outbound {
    /// No queue yet.
    Idle,
    /// The queue of the running loop.
    Open(tokio::sync::mpsc::UnboundedSender<Vec<u8>>),
    /// The loop has ended.
    TornDown,
}

impl View for Outbound {
    type V = QueueState;

    open spec fn view(&self) -> QueueState {
        match self {
            Outbound::Idle => QueueState::Idle,
            Outbound::Open(_) => QueueState::Open,
            Outbound::TornDown => QueueState::TornDown,
        }
    }
}

} // verus!
