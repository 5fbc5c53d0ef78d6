//! Sending on channels, as far as it does not wait.
use vstd::prelude::*;

verus! {

/// The sending end of a channel whose values go to every receiver.
#[verifier::external_type_specification]
#[verifier::external_body]
#[verifier::reject_recursive_types(T)]
pub struct ExBroadcastSender<T>(tokio::sync::broadcast::Sender<T>);

/// The sending end of a channel for one value.
#[verifier::external_type_specification]
#[verifier::external_body]
#[verifier::reject_recursive_types(T)]
pub struct ExOneshotSender<T>(tokio::sync::oneshot::Sender<T>);

/// The sending end of a queue.
#[verifier::external_type_specification]
#[verifier::external_body]
#[verifier::reject_recursive_types(T)]
pub struct ExQueueSender<T>(tokio::sync::mpsc::Sender<T>);

/// The end of a watched value at which it is set.
#[verifier::external_type_specification]
#[verifier::external_body]
#[verifier::reject_recursive_types(T)]
pub struct ExWatchSender<T>(tokio::sync::watch::Sender<T>);

/// The end of a watched value at which it is read.
#[verifier::external_type_specification]
#[verifier::external_body]
#[verifier::reject_recursive_types(T)]
pub struct ExWatchReceiver<T>(tokio::sync::watch::Receiver<T>);

/// `tokio::sync::mpsc::Sender::clone`. A sender holds a reference to its queue and nothing else, and
/// a clone refers to the same queue: it is claimed that, as values, the two are the same.
pub assume_specification<T>[ <tokio::sync::mpsc::Sender<T> as Clone>::clone ](
    tx: &tokio::sync::mpsc::Sender<T>,
) -> (r: tokio::sync::mpsc::Sender<T>)
    ensures
        r == *tx,
;

/// Calls `tokio::sync::broadcast::Sender::send`. It is claimed that the value goes to at least
/// one receiver, whose number is returned, or else comes back unchanged. Whether there is a
/// receiver is up to other tasks, and what the receivers make of the value is left unsaid.
#[verifier::external_body]
fn send_to_all<T>(tx: &tokio::sync::broadcast::Sender<T>, value: T) -> (r: Result<usize, T>)
    ensures
        r matches Ok(receivers) ==> receivers > 0,
        r matches Err(returned) ==> returned == value,
{
    tx.send(value).map_err(|error| error.0)
}

/// `r` is what came of handing `value` to `tokio::sync::broadcast::Sender::send` on `tx`: the number
/// of receivers, or the value if there is none.
pub closed spec fn is_sent<T>(
    tx: tokio::sync::broadcast::Sender<T>,
    value: T,
    r: Result<usize, T>,
) -> bool {
    call_ensures(send_to_all::<T>, (&tx, value), r)
}

/// The sending end of a channel whose values go to every receiver, with a record of what was sent
/// through it. The sender cannot be taken out again, so nothing is sent past the record.
#[verifier::reject_recursive_types(T)]
pub struct Publisher<T> {
    tx: tokio::sync::broadcast::Sender<T>,
    log: Ghost<Seq<T>>,
}

impl<T> Publisher<T> {
    /// The sender that values are sent on.
    pub closed spec fn sender(&self) -> tokio::sync::broadcast::Sender<T> {
        self.tx
    }

    /// What was sent so far, in order, whether or not anyone received it.
    pub closed spec fn sent(&self) -> Seq<T> {
        self.log@
    }

    /// A publisher that has sent nothing yet.
    pub fn new(tx: tokio::sync::broadcast::Sender<T>) -> (publisher: Self)
        ensures
            publisher.sender() == tx,
            publisher.sent() == Seq::<T>::empty(),
    {
        Publisher { tx, log: Ghost(Seq::empty()) }
    }

    /// Sends a value to every receiver, once.
    pub fn publish(&mut self, value: T) -> (r: Result<usize, T>)
        ensures
            final(self).sender() == old(self).sender(),
            final(self).sent() == old(self).sent().push(value),
            is_sent(old(self).sender(), value, r),
            r matches Ok(receivers) ==> receivers > 0,
            r matches Err(returned) ==> returned == value,
    {
        proof {
            self.log@ = self.log@.push(value);
        }
        send_to_all(&self.tx, value)
    }
}

/// `tokio::sync::oneshot::Sender::send`. It is claimed that the value, if it is not taken over for
/// the receiver, comes back unchanged. Whether the receiver is still there is up to other tasks.
pub assume_specification<T>[ tokio::sync::oneshot::Sender::<T>::send ](
    tx: tokio::sync::oneshot::Sender<T>,
    value: T,
) -> (r: Result<(), T>)
    ensures
        r matches Err(returned) ==> returned == value,
;

/// What came of answering a requester, with a record of the answer that was sent. The only way to
/// a reply is to send one, so the record holds what really went to the requester.
#[verifier::reject_recursive_types(T)]
pub struct Reply<T> {
    outcome: Result<(), T>,
    requester: Ghost<tokio::sync::oneshot::Sender<T>>,
    answer: Ghost<T>,
}

impl<T> Reply<T> {
    /// The requester that was answered.
    pub closed spec fn requester(&self) -> tokio::sync::oneshot::Sender<T> {
        self.requester@
    }

    /// The answer that was sent.
    pub closed spec fn sent(&self) -> T {
        self.answer@
    }

    /// What came of sending it: whether it was taken over for the requester.
    pub closed spec fn outcome(&self) -> Result<(), T> {
        self.outcome
    }

    /// What reaches a requester that waits: the answer that was sent, if it was taken over.
    pub open spec fn received(&self) -> Option<T> {
        match self.outcome() {
            Ok(_) => Some(self.sent()),
            Err(_) => None,
        }
    }

    /// Answers a requester.
    pub fn send(requester: tokio::sync::oneshot::Sender<T>, answer: T) -> (reply: Self)
        ensures
            reply.requester() == requester,
            reply.sent() == answer,
            call_ensures(
                tokio::sync::oneshot::Sender::<T>::send,
                (requester, answer),
                reply.outcome(),
            ),
            reply.outcome() matches Err(returned) ==> returned == answer,
    {
        let ghost to = requester;
        let ghost sent = answer;
        let outcome = requester.send(answer);
        Reply { outcome, requester: Ghost(to), answer: Ghost(sent) }
    }

    /// What came of sending the answer.
    pub fn into_outcome(self) -> (r: Result<(), T>)
        ensures
            r == self.outcome(),
    {
        self.outcome
    }
}

} // verus!
