use vstd::prelude::*;

use crate::protocol::Event;

verus! {

#[verifier::external_type_specification]
#[verifier::external_body]
#[verifier::reject_recursive_types(T)]
pub struct ExSender<T>(std::sync::mpsc::Sender<T>);

#[verifier::external_type_specification]
#[verifier::external_body]
#[verifier::reject_recursive_types(T)]
pub struct ExReceiver<T>(std::sync::mpsc::Receiver<T>);

/// Relies on std::sync::mpsc::channel: a fresh channel, its two ends linked
/// to each other and to nothing else.
#[verifier::external_body]
fn channel() -> (std::sync::mpsc::Sender<()>, std::sync::mpsc::Receiver<()>) {
    std::sync::mpsc::channel()
}

/// Relies on std::sync::mpsc::Sender::send; an error only means that the
/// receiving end is gone, which nobody here needs to know.
#[verifier::external_body]
fn send_unit(s: &std::sync::mpsc::Sender<()>) {
    let _ = s.send(());
}

/// Relies on std::sync::mpsc::Receiver::recv: it blocks until a message
/// arrives or every sender is dropped, and returns in both cases.
#[verifier::external_body]
fn recv_unit(r: &std::sync::mpsc::Receiver<()>) {
    let _ = r.recv();
}

/// The producing end of a one-shot rendezvous signal.
pub struct Producer {
    sender: std::sync::mpsc::Sender<()>,
}

/// The consuming end of a one-shot rendezvous signal.
pub struct Consumer {
    receiver: std::sync::mpsc::Receiver<()>,
}

/// A fresh signal: one producer and one consumer, linked to no other.
pub fn rendezvous() -> (Producer, Consumer) {
    let (sender, receiver) = channel();
    (Producer { sender }, Consumer { receiver })
}

impl Producer {
    /// Delivers the notification; a consumer that is already gone is no error.
    pub fn signal(&self) {
        send_unit(&self.sender);
    }
}

impl Consumer {
    /// Blocks until the producer signals or is dropped; both mean that the
    /// phase it guards is over, so both give the creator the same event.
    pub fn wait(self) -> (r: Event<()>)
        ensures
            r is SignalReceived,
    {
        recv_unit(&self.receiver);
        Event::SignalReceived
    }
}

} // verus!
