//! The channel that carries signal updates into a renderer's update loop.
//!
//! The channel is unbounded: a writer never blocks, and a send to a channel
//! whose reader is gone fails quietly. The reader polls without blocking and
//! takes the updates in the order in which they were sent.
//!
//! The queue itself is `crossbeam_channel`'s. Writers on other threads change
//! it between any two calls, so the contracts here say only what holds of every
//! answer; that the queue keeps the order of sending is the channel's promise.

use crossbeam_channel::{Receiver, Sender};
use vstd::prelude::*;
use crate::renderer::BevyMessage;
use crate::signal::SignalUpdate;

verus! {

/// `crossbeam_channel::Sender`, carried as it is: nothing is known of what is
/// in the channel behind it.
#[verifier::external_type_specification]
#[verifier::external_body]
#[verifier::reject_recursive_types(T)]
pub struct ExSender<T>(Sender<T>);

/// `crossbeam_channel::Receiver`, carried as it is: nothing is known of what is
/// in the channel behind it.
#[verifier::external_type_specification]
#[verifier::external_body]
#[verifier::reject_recursive_types(T)]
pub struct ExReceiver<T>(Receiver<T>);

/// The writing end of the channel. It can be cloned and handed to any thread.
#[derive(Clone)]
pub struct SignalSender {
    sender: Sender<SignalUpdate>,
}

/// The reading end of the channel, for the renderer's update loop.
pub struct SignalReceiver {
    receiver: Receiver<SignalUpdate>,
}

/// How the forwarding of a message ended.
pub enum Forwarded<P> {
    /// The update is in the channel.
    Queued,
    /// The reader is gone; the update comes back.
    Closed(SignalUpdate),
    /// The message was no signal update; the payload comes back.
    Ignored(P),
}

/// The two ends of a new unbounded channel, by `crossbeam_channel::unbounded`.
/// Nothing is claimed of them.
#[verifier::external_body]
fn unbounded_pair() -> (ends: (Sender<SignalUpdate>, Receiver<SignalUpdate>)) {
    crossbeam_channel::unbounded()
}

/// `Sender::send`. On an unbounded channel it does not block. It fails only
/// where every receiver is gone, and then the error holds the message that was
/// given: that is all the contract claims.
#[verifier::external_body]
fn channel_send(sender: &Sender<SignalUpdate>, update: SignalUpdate) -> (refused: Option<
    SignalUpdate,
>)
    ensures
        refused matches Some(back) ==> back == update,
{
    match sender.send(update) {
        Ok(()) => None,
        Err(crossbeam_channel::SendError(back)) => Some(back),
    }
}

/// `Receiver::try_recv`: the oldest waiting message, or nothing where the
/// channel is empty or closed. What comes depends on the writers; nothing is
/// claimed of it.
#[verifier::external_body]
fn channel_try_recv(receiver: &Receiver<SignalUpdate>) -> (update: Option<SignalUpdate>) {
    match receiver.try_recv() {
        Ok(update) => Some(update),
        Err(_) => None,
    }
}

/// `Receiver::len`: the number of messages that wait at the moment of the call.
/// Nothing is claimed of it.
#[verifier::external_body]
fn channel_len(receiver: &Receiver<SignalUpdate>) -> (waiting: usize) {
    receiver.len()
}

/// `Sender::clone`: another handle to the same channel. Nothing is claimed of it.
pub assume_specification<T>[ <Sender<T> as Clone>::clone ](sender: &Sender<T>) -> (other: Sender<
    T,
>)
;

/// Opens a channel for signal updates.
pub fn signal_channel() -> (ends: (SignalSender, SignalReceiver)) {
    let (sender, receiver) = unbounded_pair();
    (SignalSender { sender }, SignalReceiver { receiver })
}

impl SignalSender {
    /// Puts `update` into the channel. Never blocks. Where the reader is gone
    /// the update is handed back, unchanged; a caller may drop it.
    pub fn send(&self, update: SignalUpdate) -> (refused: Option<SignalUpdate>)
        ensures
            refused matches Some(back) ==> back == update,
    {
        channel_send(&self.sender, update)
    }

    /// What a renderer that feeds the channel does with a message: a signal
    /// update goes into the channel, any other payload is ignored and comes
    /// back. Where the reader is gone, the update comes back instead.
    pub fn forward<P>(&self, msg: BevyMessage<P>) -> (outcome: Forwarded<P>)
        ensures
            match msg {
                BevyMessage::Payload(payload) => outcome == Forwarded::Ignored(payload),
                BevyMessage::Signal(update) => outcome is Queued || outcome == Forwarded::<
                    P,
                >::Closed(update),
            },
    {
        match msg {
            BevyMessage::Signal(update) => {
                let refused = self.send(update);
                Forwarded::after_send(refused)
            },
            BevyMessage::Payload(payload) => Forwarded::Ignored(payload),
        }
    }
}

impl<P> Forwarded<P> {
    /// The outcome of forwarding a signal update, from what the channel
    /// answered to the send: the update that came back, if one did.
    pub fn after_send(refused: Option<SignalUpdate>) -> (outcome: Self)
        ensures
            outcome == match refused {
                Some(back) => Forwarded::<P>::Closed(back),
                None => Forwarded::<P>::Queued,
            },
    {
        match refused {
            Some(back) => Forwarded::Closed(back),
            None => Forwarded::Queued,
        }
    }
}

impl SignalReceiver {
    /// Number of updates that wait in the channel right now. Writers may add to
    /// it at any moment.
    pub fn waiting(&self) -> (waiting: usize) {
        channel_len(&self.receiver)
    }

    /// Takes the oldest waiting update, without blocking.
    pub fn try_recv(&self) -> (update: Option<SignalUpdate>) {
        channel_try_recv(&self.receiver)
    }

    /// Takes the waiting updates, oldest first, until the channel is empty or
    /// `limit` updates are taken. Never blocks. What is done with each answer
    /// of the channel is `keep_answer`.
    pub fn drain(&self, limit: usize) -> (updates: Vec<SignalUpdate>)
        ensures
            updates@.len() <= limit,
    {
        let mut updates: Vec<SignalUpdate> = Vec::new();
        while updates.len() < limit
            invariant
                updates@.len() <= limit,
            decreases limit - updates@.len(),
        {
            let answer = channel_try_recv(&self.receiver);
            if !keep_answer(&mut updates, answer) {
                return updates;
            }
        }
        updates
    }
}

/// The updates taken so far, after one more answer of the channel: an update
/// goes behind them, an empty answer changes nothing.
pub open spec fn kept_after(taken: Seq<SignalUpdate>, answer: Option<SignalUpdate>) -> Seq<
    SignalUpdate,
> {
    match answer {
        Some(update) => taken.push(update),
        None => taken,
    }
}

/// What a drain does with one answer of the channel: an update is put behind
/// those taken so far and the drain may go on; an empty answer leaves them as
/// they are and ends the drain.
pub fn keep_answer(taken: &mut Vec<SignalUpdate>, answer: Option<SignalUpdate>) -> (more: bool)
    ensures
        final(taken)@ == kept_after(old(taken)@, answer),
        more == answer is Some,
{
    match answer {
        Some(update) => {
            taken.push(update);
            true
        },
        None => false,
    }
}

} // verus!
