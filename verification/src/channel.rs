//! The sending end of a broadcast channel.
use tokio::sync::broadcast::{Receiver, Sender};
use tokio_stream::wrappers::BroadcastStream;
use vstd::prelude::*;

verus! {

/// The type `tokio::sync::broadcast::Sender`. Nothing is assumed of its representation.
#[verifier::external_type_specification]
#[verifier::external_body]
#[verifier::reject_recursive_types(T)]
pub struct ExSender<T>(Sender<T>);

/// The type `tokio::sync::broadcast::Receiver`. Nothing is assumed of its representation.
#[verifier::external_type_specification]
#[verifier::external_body]
#[verifier::reject_recursive_types(T)]
pub struct ExReceiver<T>(Receiver<T>);

/// The type `tokio_stream::wrappers::BroadcastStream`. Nothing is assumed of its
/// representation.
#[verifier::external_type_specification]
#[verifier::external_body]
#[verifier::reject_recursive_types(T)]
pub struct ExBroadcastStream<T>(BroadcastStream<T>);

/// `tokio::sync::broadcast::channel`: the sending end of a channel that keeps at least
/// `capacity` values for receivers that lag. `channel` panics on the capacities that are left
/// out here; that there is memory for the others is taken for granted. The receiver that it
/// makes is dropped at once.
#[verifier::external_body]
fn open<T: Clone>(capacity: usize) -> (sender: Sender<T>)
    requires
        0 < capacity <= usize::MAX / 2,
{
    tokio::sync::broadcast::channel(capacity).0
}

/// `Sender::send`: hands the value to the receivers and returns how many there are, or gives
/// the value back where there is none. How many there are is up to whoever holds them, so
/// nothing is said of that number but that it is not zero.
#[verifier::external_body]
fn send_value<T>(sender: &Sender<T>, value: T) -> (sent: Result<usize, T>)
    ensures
        sent matches Ok(receivers) ==> receivers > 0,
        sent matches Err(refused) ==> refused == value,
{
    sender.send(value).map_err(|e| e.0)
}

/// `Sender::subscribe`: a receiver of the values sent from now on. What it will receive is up
/// to all the senders of the channel, so nothing is said of it. A channel with `MAX_RECEIVERS`
/// receivers would take no other; there is no memory for that many.
pub assume_specification<T>[ Sender::<T>::subscribe ](sender: &Sender<T>) -> (receiver: Receiver<
    T,
>)
;

/// `Sender::receiver_count`: the number of receivers at this moment, which is never above
/// `MAX_RECEIVERS`. It is up to whoever holds them.
pub assume_specification<T>[ Sender::<T>::receiver_count ](sender: &Sender<T>) -> (count: usize)
    ensures
        count <= MAX_RECEIVERS,
;

/// `Sender::clone`: another sending end of the same channel. That it is the same channel is
/// not stated, because a sender is opaque.
pub assume_specification<T>[ <Sender<T> as Clone>::clone ](sender: &Sender<T>) -> (copy: Sender<T>)
;

/// `BroadcastStream::new`: the values of a receiver as a stream. Which values those are is up
/// to the senders of the channel, so nothing is said of it.
pub assume_specification<T: 'static + Clone + Send>[ BroadcastStream::<T>::new ](
    rx: Receiver<T>,
) -> (stream: BroadcastStream<T>)
;

/// The most receivers that a channel has at a time.
pub const MAX_RECEIVERS: usize = usize::MAX >> 2;

/// The sender is the sending end of a channel that was made with this capacity.
pub closed spec fn opened<T: Clone>(capacity: usize, sender: Sender<T>) -> bool {
    call_ensures(open::<T>, (capacity,), sender)
}

/// The value was handed to this sender, which answered `sent`.
pub closed spec fn handed<T>(sender: Sender<T>, value: T, sent: Result<usize, T>) -> bool {
    call_ensures(send_value::<T>, (&sender, value), sent)
}

/// How many receivers an answer of a sender speaks of.
pub open spec fn receivers_of<T>(sent: Result<usize, T>) -> nat {
    match sent {
        Ok(receivers) => receivers as nat,
        Err(_) => 0,
    }
}

/// The receiver is one that this sender hands out to a new subscriber.
pub open spec fn subscribed<T>(sender: Sender<T>, receiver: Receiver<T>) -> bool {
    call_ensures(Sender::<T>::subscribe, (&sender,), receiver)
}

/// The stream is made of a receiver that this sender hands out to a new subscriber.
pub open spec fn streams<T: 'static + Clone + Send>(
    sender: Sender<T>,
    stream: BroadcastStream<T>,
) -> bool {
    exists|receiver: Receiver<T>| #[trigger]
        subscribed(sender, receiver) && call_ensures(
            BroadcastStream::<T>::new,
            (receiver,),
            stream,
        )
}

/// The count is one that this sender reports of its channel's receivers.
pub open spec fn counted<T>(sender: Sender<T>, count: usize) -> bool {
    call_ensures(Sender::<T>::receiver_count, (&sender,), count)
}

/// A value that was handed to a channel, and how many receivers were subscribed then.
/// Where there were none, the channel refused the value.
pub struct Delivery<T> {
    pub value: T,
    pub receivers: nat,
}

/// The delivery went through this sender, which reported this number of receivers.
pub open spec fn went_through<T>(sender: Sender<T>, delivery: Delivery<T>) -> bool {
    exists|sent: Result<usize, T>| #[trigger]
        handed(sender, delivery.value, sent) && delivery.receivers == receivers_of(sent)
}

/// The sending end of a channel that hands every value to all receivers subscribed at the
/// time.
///
/// For specifications it keeps a record of the values handed to the channel through this end,
/// in order, each with the number of receivers that the channel reported.
#[verifier::reject_recursive_types(T)]
pub struct Channel<T> {
    sender: Sender<T>,
    record: Ghost<Seq<Delivery<T>>>,
}

impl<T> Channel<T> {
    /// What was handed to the channel through this end.
    pub closed spec fn deliveries(self) -> Seq<Delivery<T>> {
        self.record@
    }

    /// The tokio sender behind this end. It is the same one for as long as the channel lives.
    pub closed spec fn endpoint(self) -> Sender<T> {
        self.sender
    }

    /// A channel of this capacity that nothing was handed to.
    pub fn new(capacity: usize) -> (channel: Self) where T: Clone
        requires
            0 < capacity <= usize::MAX / 2,
        ensures
            opened(capacity, channel.endpoint()),
            channel.deliveries() == Seq::<Delivery<T>>::empty(),
    {
        Channel { sender: open(capacity), record: Ghost(Seq::empty()) }
    }

    /// Hands a value to all receivers. Returns how many there are, or gives the value back
    /// where there is none.
    pub fn send(&mut self, value: T) -> (sent: Result<usize, T>)
        ensures
            handed(old(self).endpoint(), value, sent),
            sent matches Ok(receivers) ==> receivers > 0,
            sent matches Err(refused) ==> refused == value,
            final(self).deliveries() == old(self).deliveries().push(
                Delivery { value, receivers: receivers_of(sent) },
            ),
            went_through(old(self).endpoint(), final(self).deliveries().last()),
            final(self).endpoint() == old(self).endpoint(),
    {
        let sent = send_value(&self.sender, value);
        proof {
            self.record@ = self.record@.push(Delivery { value, receivers: receivers_of(sent) });
            assert(handed(self.endpoint(), self.deliveries().last().value, sent));
        }
        sent
    }

    /// A receiver of the values sent from now on.
    pub fn subscribe(&self) -> (receiver: Receiver<T>)
        ensures
            subscribed(self.endpoint(), receiver),
    {
        self.sender.subscribe()
    }

    /// The number of receivers at this moment.
    pub fn receiver_count(&self) -> (count: usize)
        ensures
            count <= MAX_RECEIVERS,
            counted(self.endpoint(), count),
    {
        self.sender.receiver_count()
    }

    /// Another sending end of the same channel. What is sent through it does not count as
    /// handed over through this one.
    pub fn sender(&self) -> (copy: Sender<T>)
        ensures
            cloned(self.endpoint(), copy),
    {
        self.sender.clone()
    }
}

/// A channel is made with the capacity that was asked for, and a value that is sent goes to
/// the sender of just that channel, as it is.
proof fn law_a_channel_is_what_was_asked_for<T: Clone>(
    capacity: usize,
    new: Channel<T>,
    sender: Sender<T>,
    before: Channel<T>,
    value: T,
    sent: Result<usize, T>,
    after: Channel<T>,
)
    requires
        call_ensures(Channel::<T>::new, (capacity,), new),
        exists|c: &mut Channel<T>|
            *c == before && *final(c) == after && #[trigger] call_ensures(
                Channel::<T>::send,
                (c, value),
                sent,
            ),
    ensures
        call_ensures(open::<T>, (capacity,), new.endpoint()),
        opened(capacity, sender) ==> call_ensures(open::<T>, (capacity,), sender),
        call_ensures(send_value::<T>, (&before.endpoint(), value), sent),
        handed(sender, value, sent) ==> call_ensures(send_value::<T>, (&sender, value), sent),
        after.endpoint() == before.endpoint(),
{
}

/// A sender that takes a value has a receiver for it.
pub(crate) proof fn lemma_taken_by_some<T>(sender: Sender<T>, value: T, sent: Result<usize, T>)
    requires
        handed(sender, value, sent),
    ensures
        sent matches Ok(receivers) ==> receivers > 0,
        sent matches Err(refused) ==> refused == value,
{
}

} // verus!
