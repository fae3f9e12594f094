//! The progress channel: a sink for progress events that is either attached
//! to a consumer's queue or disabled.

use tokio::sync::mpsc::Sender;
use vstd::prelude::*;

verus! {

/// The sending half of a bounded queue.
#[verifier::external_type_specification]
#[verifier::external_body]
#[verifier::reject_recursive_types(T)]
pub struct ExSender<T>(Sender<T>);

/// Calls `Sender::try_send`, which never waits, and reports whether the
/// queue took the message. Whether it does depends on the consumer, so
/// nothing is claimed of the answer.
#[verifier::external_body]
fn sender_try_send<T>(sender: &Sender<T>, msg: T) -> (queued: bool) {
    sender.try_send(msg).is_ok()
}

/// Calls `Sender::clone`: one more handle on the same queue.
#[verifier::external_body]
fn sender_clone<T>(sender: &Sender<T>) -> (copy: Sender<T>) {
    sender.clone()
}

/// Where progress events go: into a consumer's queue, or nowhere.
#[verifier::reject_recursive_types(T)]
pub struct Progress<T> {
    sender: Option<Sender<T>>,
}

impl<T> Progress<T> {
    /// The consumer's queue that is attached, if one is.
    pub closed spec fn queue(&self) -> Option<Sender<T>> {
        self.sender
    }

    /// Whether a consumer's queue is attached.
    pub open spec fn is_active(&self) -> bool {
        self.queue() is Some
    }

    /// A channel that forwards to the given queue.
    pub fn new(sender: Sender<T>) -> (channel: Self)
        ensures
            channel.queue() == Some(sender),
    {
        Progress { sender: Some(sender) }
    }

    /// The disabled channel: every event handed to it is dropped.
    pub fn none() -> (channel: Self)
        ensures
            channel.queue() is None,
    {
        Progress { sender: None }
    }

    /// Whether a consumer's queue is attached.
    pub fn active(&self) -> (active: bool)
        ensures
            active == self.is_active(),
    {
        self.sender.is_some()
    }

    /// Offers the message to the consumer without ever waiting: where the
    /// queue is full or closed the message is dropped. Returns whether the
    /// queue took it; a disabled channel takes nothing.
    pub fn try_send(&self, msg: T) -> (queued: bool)
        ensures
            queued ==> self.is_active(),
    {
        match &self.sender {
            Some(sender) => sender_try_send(sender, msg),
            None => false,
        }
    }

    /// The attached queue, for a caller that can wait for room in it.
    pub fn sender(&self) -> (sender: Option<&Sender<T>>)
        ensures
            match self.queue() {
                Some(queue) => sender == Some(&queue),
                None => sender is None,
            },
    {
        self.sender.as_ref()
    }
}

impl<T> Clone for Progress<T> {
    /// A second handle on the same queue, or a second disabled channel.
    fn clone(&self) -> (copy: Self)
        ensures
            copy.is_active() == self.is_active(),
    {
        match &self.sender {
            Some(sender) => Progress { sender: Some(sender_clone(sender)) },
            None => Progress { sender: None },
        }
    }
}

} // verus!
