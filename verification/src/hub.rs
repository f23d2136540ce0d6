//! The distribution hub: a single publisher fanning messages out over a
//! bounded broadcast channel to a dynamic set of independently paced
//! subscribers. The channel itself is tokio's broadcast channel; this
//! module wraps the calls the library relies on and carries the
//! per-subscriber decisions — delivery, lag, end-of-stream — as
//! verified code.

use vstd::prelude::*;

use tokio::sync::broadcast::error::TryRecvError;
use tokio::sync::broadcast::{Receiver, Sender};

use crate::Message;

verus! {

#[verifier::external_type_specification]
#[verifier::external_body]
#[verifier::reject_recursive_types(T)]
pub struct ExSender<T>(Sender<T>);

#[verifier::external_type_specification]
#[verifier::external_body]
#[verifier::reject_recursive_types(T)]
pub struct ExReceiver<T>(Receiver<T>);

/// What one non-blocking receive attempt on a subscription yields.
pub enum RecvOutcome {
    /// The next message, in publish order.
    Msg(Message),
    /// Nothing is pending right now; more may yet be published.
    Empty,
    /// The hub is closed: no further message will ever arrive.
    Closed,
    /// The subscriber lagged: this many unconsumed messages were
    /// dropped for it alone, and consumption resumes at the next
    /// retained message.
    Lagged(u64),
}

/// Relies on tokio's `broadcast::Sender::send`: it hands the message to
/// every current receiver, fails exactly when no receiver exists, and
/// an error carries the undelivered message back.
#[verifier::external_body]
fn hub_send(tx: &Sender<Message>, message: Message) -> (r: Result<usize, Message>)
    ensures
        r matches Ok(n) ==> n >= 1,
        r matches Err(m) ==> m == message,
{
    match tx.send(message) {
        Ok(n) => Ok(n),
        Err(tokio::sync::broadcast::error::SendError(m)) => Err(m),
    }
}

/// Relies on tokio's `broadcast::Sender::subscribe`: the new receiver
/// observes exactly the messages published after this call, in publish
/// order.
#[verifier::external_body]
fn hub_subscribe(tx: &Sender<Message>) -> (r: Receiver<Message>) {
    tx.subscribe()
}

/// Relies on tokio's `broadcast::Receiver::try_recv`: it returns the
/// next pending message, or reports an empty backlog, a closed channel,
/// or how many messages this lagging receiver missed.
#[verifier::external_body]
fn hub_try_recv(rx: &mut Receiver<Message>) -> (r: RecvOutcome) {
    match rx.try_recv() {
        Ok(m) => RecvOutcome::Msg(m),
        Err(TryRecvError::Empty) => RecvOutcome::Empty,
        Err(TryRecvError::Closed) => RecvOutcome::Closed,
        Err(TryRecvError::Lagged(n)) => RecvOutcome::Lagged(n),
    }
}

/// Sends one message to every currently attached subscriber and returns
/// how many there were. Publishing never blocks and never fails: with
/// zero subscribers the message is simply discarded and the result is
/// zero.
pub fn publish(tx: &Sender<Message>, message: Message) -> (receivers: usize) {
    match hub_send(tx, message) {
        Ok(n) => n,
        Err(_) => 0,
    }
}

/// What a subscriber does with one receive attempt.
pub enum SubscriberStep {
    /// Forward this message to the consumer.
    Deliver(Message),
    /// The subscriber fell behind and this many messages were dropped
    /// for it; it resumes with the next retained message.
    Skipped(u64),
    /// Nothing to forward right now; try again later.
    Idle,
    /// End of stream: the hub is closed and no message will follow.
    End,
}

/// The subscriber's decision for each receive outcome, exactly: a
/// received message is delivered as it came, a lag surfaces as its
/// skipped count rather than an error, an empty backlog waits, and a
/// closed hub ends the stream.
pub fn subscriber_step(outcome: RecvOutcome) -> (r: SubscriberStep)
    ensures
        outcome matches RecvOutcome::Msg(m) ==> r == SubscriberStep::Deliver(m),
        outcome is Empty ==> r == SubscriberStep::Idle,
        outcome matches RecvOutcome::Lagged(n) ==> r == SubscriberStep::Skipped(n),
        outcome is Closed ==> r == SubscriberStep::End,
{
    match outcome {
        RecvOutcome::Msg(m) => SubscriberStep::Deliver(m),
        RecvOutcome::Empty => SubscriberStep::Idle,
        RecvOutcome::Lagged(n) => SubscriberStep::Skipped(n),
        RecvOutcome::Closed => SubscriberStep::End,
    }
}

/// One subscriber's handle on the hub. It receives every message
/// published after it attached, in publish order; cancelling it is
/// dropping it, which never affects the publisher or any other
/// subscription.
pub struct Subscription {
    rx: Receiver<Message>,
    ended: bool,
}

impl Subscription {
    /// Whether this subscription has observed end-of-stream.
    pub closed spec fn is_ended(&self) -> bool {
        self.ended
    }

    /// Attaches a new subscription to the hub behind `tx`. It will
    /// observe exactly the messages published from now on.
    pub fn attach(tx: &Sender<Message>) -> (r: Subscription)
        ensures
            !r.is_ended(),
    {
        Subscription { rx: hub_subscribe(tx), ended: false }
    }

    /// One non-blocking receive attempt, reduced to the subscriber's
    /// decision: deliver the message, surface a skipped-messages
    /// indication, stay idle, or end. End-of-stream is terminal: once
    /// observed, every later attempt ends at once without touching the
    /// channel.
    pub fn next(&mut self) -> (r: SubscriberStep)
        ensures
            old(self).is_ended() ==> r is End,
            r is End <==> final (self).is_ended(),
    {
        if self.ended {
            return SubscriberStep::End;
        }
        let step = subscriber_step(hub_try_recv(&mut self.rx));
        match step {
            SubscriberStep::End => {
                self.ended = true;
                SubscriberStep::End
            },
            other => other,
        }
    }
}

} // verus!
