//! Single-slot, non-blocking handoff between a producer thread and the
//! control loop.
//!
//! Each sensor publishes through a bounded channel of capacity one and
//! the consumer polls it without ever blocking.  The publish policies
//! differ on purpose: the inertial sensor evicts the unread sample so
//! the freshest one wins, while the input device skips publishing on a
//! full slot so a just-triggered button edge is never discarded.
//!
//! The channel itself is outside code and which outcome a call yields
//! depends on the other thread, so the two wrappers promise nothing
//! about it; every decision taken on an outcome stands in a verified
//! function with an exact contract over that outcome.

use vstd::prelude::*;

verus! {

#[verifier::external_type_specification]
#[verifier::external_body]
#[verifier::reject_recursive_types(T)]
pub struct ExSender<T>(crossbeam_channel::Sender<T>);

#[verifier::external_type_specification]
#[verifier::external_body]
#[verifier::reject_recursive_types(T)]
pub struct ExReceiver<T>(crossbeam_channel::Receiver<T>);

/// What became of a non-blocking send.
pub enum SendOutcome<T> {
    /// The message is in the slot.
    Sent,
    /// The slot still holds an unread message; the rejected message is
    /// returned.
    SlotFull(T),
    /// The receiving side is gone; the rejected message is returned.
    Closed(T),
}

/// What a non-blocking poll of the slot yielded.
pub enum RecvOutcome<T> {
    /// A message was waiting.
    Value(T),
    /// The slot is empty.
    Empty,
    /// The slot is empty and the sending side is gone.
    Disconnected,
}

/// How a publish attempt ended, as the producer loops report it.
#[derive(Clone, Copy, Debug, PartialEq, Eq, Structural)]
pub enum PublishOutcome {
    /// The new sample is in the slot.
    Published,
    /// The slot kept an unread sample; the new one was dropped.
    SlotOccupied,
    /// The consumer is gone; the producer loop should end.
    ReceiverGone,
}

/// Relies on crossbeam_channel::Sender::try_send: it never blocks, and
/// on failure it hands the message back inside the error.  Which
/// outcome occurs depends on the other thread, so nothing more is
/// stated.
#[verifier::external_body]
fn channel_try_send<T>(tx: &crossbeam_channel::Sender<T>, msg: T) -> SendOutcome<T> {
    match tx.try_send(msg) {
        Ok(()) => SendOutcome::Sent,
        Err(crossbeam_channel::TrySendError::Full(m)) => SendOutcome::SlotFull(m),
        Err(crossbeam_channel::TrySendError::Disconnected(m)) => SendOutcome::Closed(m),
    }
}

/// Relies on crossbeam_channel::Receiver::try_recv: it never blocks and
/// returns a waiting message if there is one.  Which outcome occurs
/// depends on the other thread, so nothing more is stated.
#[verifier::external_body]
fn channel_try_recv<T>(rx: &crossbeam_channel::Receiver<T>) -> RecvOutcome<T> {
    match rx.try_recv() {
        Ok(v) => RecvOutcome::Value(v),
        Err(crossbeam_channel::TryRecvError::Empty) => RecvOutcome::Empty,
        Err(crossbeam_channel::TryRecvError::Disconnected) => RecvOutcome::Disconnected,
    }
}

/// How a send outcome reads as a publish result: sent means published,
/// a full slot means the sample was dropped, a closed channel means the
/// consumer is gone.
pub fn send_disposition<T>(o: SendOutcome<T>) -> (r: PublishOutcome)
    ensures
        o is Sent ==> r == PublishOutcome::Published,
        o is SlotFull ==> r == PublishOutcome::SlotOccupied,
        o is Closed ==> r == PublishOutcome::ReceiverGone,
{
    match o {
        SendOutcome::Sent => PublishOutcome::Published,
        SendOutcome::SlotFull(_) => PublishOutcome::SlotOccupied,
        SendOutcome::Closed(_) => PublishOutcome::ReceiverGone,
    }
}

/// What the latest-wins policy does next after a send outcome.
pub enum LatestPolicyStep<T> {
    /// The attempt is settled with this result.
    Settled(PublishOutcome),
    /// The slot held an unread sample: evict it and offer this message
    /// again.
    EvictAndResend(T),
}

/// The latest-wins policy's reaction to the first send outcome: done on
/// success or a closed channel, evict-and-resend on a full slot, so the
/// freshest sample wins.
pub fn latest_policy_step<T>(o: SendOutcome<T>) -> (r: LatestPolicyStep<T>)
    ensures
        o is Sent ==> r == LatestPolicyStep::<T>::Settled(PublishOutcome::Published),
        o is Closed ==> r == LatestPolicyStep::<T>::Settled(PublishOutcome::ReceiverGone),
        o is SlotFull ==> r == LatestPolicyStep::EvictAndResend(o->SlotFull_0),
{
    match o {
        SendOutcome::Sent => LatestPolicyStep::Settled(PublishOutcome::Published),
        SendOutcome::SlotFull(m) => LatestPolicyStep::EvictAndResend(m),
        SendOutcome::Closed(_) => LatestPolicyStep::Settled(PublishOutcome::ReceiverGone),
    }
}

/// Publish favouring recency: if the slot still holds an unread sample,
/// evict it and offer the new one again, so the consumer always finds
/// the freshest sample.  The channel's outcomes are outside knowledge;
/// the policy applied to each outcome is [`latest_policy_step`] and
/// [`send_disposition`], whose contracts are exact.
pub fn publish_latest<T>(
    tx: &crossbeam_channel::Sender<T>,
    rx: &crossbeam_channel::Receiver<T>,
    data: T,
) -> PublishOutcome {
    match latest_policy_step(channel_try_send(tx, data)) {
        LatestPolicyStep::Settled(p) => p,
        LatestPolicyStep::EvictAndResend(again) => {
            let _ = channel_try_recv(rx);
            send_disposition(channel_try_send(tx, again))
        },
    }
}

/// Publish favouring unread state: if the slot still holds an unread
/// sample, keep it and drop the new one, so an edge the consumer has
/// not seen yet survives.  The result is the send outcome's disposition
/// under [`send_disposition`].
pub fn publish_keep_unread<T>(tx: &crossbeam_channel::Sender<T>, data: T) -> PublishOutcome {
    send_disposition(channel_try_send(tx, data))
}

/// Signal a producer thread to stop.  The signal slot has capacity one,
/// so repeated calls are harmless: the first unread signal stays, later
/// ones are dropped.  Returns whether this call placed the signal.
pub fn send_stop(tx: &crossbeam_channel::Sender<()>) -> bool {
    match publish_keep_unread(tx, ()) {
        PublishOutcome::Published => true,
        PublishOutcome::SlotOccupied => false,
        PublishOutcome::ReceiverGone => false,
    }
}

/// Take one poll outcome into the retained sample: a published value
/// replaces it, an empty or disconnected slot leaves it untouched.
pub fn absorb_outcome<T>(last: &mut T, o: RecvOutcome<T>)
    ensures
        o is Value ==> *final(last) == o->Value_0,
        !(o is Value) ==> *final(last) == *old(last),
{
    match o {
        RecvOutcome::Value(v) => {
            *last = v;
        },
        RecvOutcome::Empty => {},
        RecvOutcome::Disconnected => {},
    }
}

/// Consumer side of a single-slot handoff: polls without blocking and
/// keeps the last sample seen, so a reading is always available even
/// before the first publish or after the producer dies.
#[verifier::reject_recursive_types(T)]
pub struct LatestReceiver<T> {
    /// The polled slot.
    pub receiver: crossbeam_channel::Receiver<T>,
    /// The most recent sample, or the startup default.
    pub last: T,
}

impl<T> LatestReceiver<T> {
    /// Wrap a slot with a startup default to hand out until the first
    /// sample arrives.
    pub fn new(receiver: crossbeam_channel::Receiver<T>, initial: T) -> (r: Self)
        ensures
            r.last == initial,
    {
        LatestReceiver { receiver, last: initial }
    }

    /// Fetch the freshest sample without blocking: take a newly
    /// published sample if one is waiting, else keep the previous one.
    /// What a poll yields is outside knowledge; how its outcome becomes
    /// the retained sample is [`absorb_outcome`], whose contract is
    /// exact.
    pub fn get_latest(&mut self) -> (r: &T)
        ensures
            *r == final(self).last,
            final(self).receiver == old(self).receiver,
    {
        let o = channel_try_recv(&self.receiver);
        absorb_outcome(&mut self.last, o);
        &self.last
    }
}

} // verus!
