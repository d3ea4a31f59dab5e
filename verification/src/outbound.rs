use vstd::prelude::*;

verus! {

/// tokio's bounded channel sender, declared so that the registry can hold
/// the sending half of each connection's outbound channel. Its contents are
/// opaque here: the channel is shared with the receiving task, so nothing
/// stable can be said about what it holds at any moment.
#[verifier::external_type_specification]
#[verifier::external_body]
#[verifier::reject_recursive_types(T)]
pub struct ExSender<T>(tokio::sync::mpsc::Sender<T>);

/// tokio's bounded channel receiver: the half handed back to the caller at
/// attach time, from which the connection's writer path drains messages.
#[verifier::external_type_specification]
#[verifier::external_body]
#[verifier::reject_recursive_types(T)]
pub struct ExReceiver<T>(tokio::sync::mpsc::Receiver<T>);

/// The outcome of one delivery attempt to one recipient's outbound channel.
#[derive(Clone, Copy, PartialEq, Eq, Structural, Debug)]
pub enum SendOutcome {
    /// The message was enqueued on the recipient's channel.
    Delivered,
    /// The recipient's channel was at capacity; the message was dropped for
    /// this recipient (backpressure).
    ChannelFull,
    /// The recipient's channel was closed (its worker is shutting down); the
    /// message was dropped for this recipient.
    ChannelClosed,
}

/// Relies on tokio::sync::mpsc::channel: creates a bounded channel buffering
/// up to `capacity` messages. It panics when the capacity is zero or above
/// tokio's semaphore limit; the precondition rules both out.
#[verifier::external_body]
pub(crate) fn new_outbound_channel(capacity: usize) -> (r: (
    tokio::sync::mpsc::Sender<String>,
    tokio::sync::mpsc::Receiver<String>,
))
    requires
        1 <= capacity <= 0x1000_0000,
{
    tokio::sync::mpsc::channel(capacity)
}

/// Relies on tokio's Sender::try_send: enqueues the message unless the
/// channel is full or closed, reporting which of the three happened; it
/// never blocks and never panics. Which outcome comes back depends on the
/// receiving task, so no more is promised.
#[verifier::external_body]
pub(crate) fn try_send_text(
    tx: &tokio::sync::mpsc::Sender<String>,
    msg: &str,
) -> (r: SendOutcome) {
    match tx.try_send(msg.to_string()) {
        Ok(()) => SendOutcome::Delivered,
        Err(tokio::sync::mpsc::error::TrySendError::Full(_)) => SendOutcome::ChannelFull,
        Err(tokio::sync::mpsc::error::TrySendError::Closed(_)) => SendOutcome::ChannelClosed,
    }
}

} // verus!
