//! The reference in-process transport: a multi-producer queue over an
//! unbounded channel. Each event is delivered to exactly one receiving
//! handle (work-queue semantics), not broadcast; callers needing fan-out
//! must run a single dedicated dispatcher.

use vstd::prelude::*;

use crate::ports::EventBus;

verus! {

/// `crossbeam_channel::Sender`, the sending half of the channel; opaque.
#[verifier::external_type_specification]
#[verifier::external_body]
#[verifier::reject_recursive_types(T)]
pub struct ExSender<T>(crossbeam_channel::Sender<T>);

/// `crossbeam_channel::Receiver`, the receiving half of the channel; opaque.
#[verifier::external_type_specification]
#[verifier::external_body]
#[verifier::reject_recursive_types(T)]
pub struct ExReceiver<T>(crossbeam_channel::Receiver<T>);

/// Relies on `crossbeam_channel::unbounded`: a fresh channel pair with an
/// empty queue.
#[verifier::external_body]
fn make_channel<T>() -> (r: (crossbeam_channel::Sender<T>, crossbeam_channel::Receiver<T>)) {
    crossbeam_channel::unbounded()
}

/// Relies on `crossbeam_channel::Sender::try_send`: on an unbounded channel
/// it enqueues the message unless every receiver is gone, and enqueues
/// nothing when it reports failure.
#[verifier::external_body]
fn try_send_raw<T>(sender: &crossbeam_channel::Sender<T>, event: T) -> (r: Result<
    (),
    anyhow::Error,
>) {
    sender.try_send(event).map_err(|_e| anyhow::Error::msg("Unknown"))
}

/// Relies on `crossbeam_channel::Receiver::try_recv`: the next queued event
/// of the channel, or `None` when the queue is currently empty.
#[verifier::external_body]
fn try_recv_raw<T>(receiver: &crossbeam_channel::Receiver<T>) -> (r: Option<T>) {
    match receiver.try_recv() {
        Ok(event) => Some(event),
        Err(_) => None,
    }
}

/// An in-process bus holding both halves of one unbounded channel.
#[verifier::reject_recursive_types(T)]
pub struct ChannelBus<T> {
    sender: crossbeam_channel::Sender<T>,
    receiver: crossbeam_channel::Receiver<T>,
    /// Model of what this handle has published, in order.
    history: Ghost<Seq<T>>,
}

impl<T> ChannelBus<T> {
    pub fn new() -> (r: Self)
        ensures
            r.sent() == Seq::<T>::empty(),
    {
        let (tx, rx) = make_channel();
        ChannelBus { sender: tx, receiver: rx, history: Ghost(Seq::empty()) }
    }

    /// Pull one queued event, without blocking.
    pub fn try_receive(&self) -> (r: Option<T>) {
        try_recv_raw(&self.receiver)
    }
}

impl<T> EventBus<T> for ChannelBus<T> {
    closed spec fn sent(self) -> Seq<T> {
        self.history@
    }

    fn send_event(&mut self, event: T) -> (r: Result<(), anyhow::Error>) {
        let ghost pre = self.history@;
        let ghost sent_event = event;
        let result = try_send_raw(&self.sender, event);
        match result {
            Ok(_) => {
                proof {
                    self.history@ = pre.push(sent_event);
                }
                Ok(())
            },
            Err(e) => Err(e),
        }
    }
}

} // verus!
