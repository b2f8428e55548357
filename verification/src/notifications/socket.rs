//! What a WebSocket connection does next.
//!
//! A connection has two halves. One forwards events to the client: it takes an event from
//! the hub's channel, serializes it and writes it to the socket. The other reads what the
//! client sends. The connection is over as soon as one of them is.
use vstd::prelude::*;

verus! {

/// What the channel gave the forwarding half.
#[derive(Debug, Clone, Copy, PartialEq, Eq, Structural)]
pub enum ChannelItem {
    /// An event.
    Event,
    /// Word that events were missed.
    Lagged,
    /// Word that no more events will come.
    Closed,
}

/// What became of writing an event to the socket.
#[derive(Debug, Clone, Copy, PartialEq, Eq, Structural)]
pub enum WriteOutcome {
    /// It was written.
    Written,
    /// The socket reported a failure in time.
    Failed,
    /// The socket did not answer in time.
    TimedOut,
}

/// What the client sent.
#[derive(Debug, Clone, Copy, PartialEq, Eq, Structural)]
pub enum ClientMessage {
    /// A request to close the connection.
    Close,
    /// A ping, which the socket answers by itself.
    Ping,
    /// Any other message.
    Other,
    /// A message that could not be read.
    Unreadable,
    /// Nothing more.
    Ended,
}

/// What the forwarding half does next.
#[derive(Debug, Clone, Copy, PartialEq, Eq, Structural)]
pub enum ForwardStep {
    /// Serialize the event.
    Serialize,
    /// Write the serialized event to the socket.
    Write,
    /// Wait for the next event.
    AwaitEvent,
    /// End.
    Stop,
}

/// What the reading half does next.
#[derive(Debug, Clone, Copy, PartialEq, Eq, Structural)]
pub enum ReadStep {
    /// Wait for the next message.
    AwaitMessage,
    /// End.
    Stop,
}

/// What follows an item from the channel.
pub open spec fn after_item(item: ChannelItem) -> ForwardStep {
    if item == ChannelItem::Event {
        ForwardStep::Serialize
    } else {
        ForwardStep::Stop
    }
}

/// What follows an attempt to serialize an event.
pub open spec fn after_serializing(serialized: bool) -> ForwardStep {
    if serialized {
        ForwardStep::Write
    } else {
        ForwardStep::AwaitEvent
    }
}

/// What follows an attempt to write to the socket.
pub open spec fn after_write(outcome: WriteOutcome) -> ForwardStep {
    if outcome == WriteOutcome::TimedOut {
        ForwardStep::Stop
    } else {
        ForwardStep::AwaitEvent
    }
}

/// What follows a message from the client.
pub open spec fn after_message(message: ClientMessage) -> ReadStep {
    if message == ClientMessage::Ping || message == ClientMessage::Other {
        ReadStep::AwaitMessage
    } else {
        ReadStep::Stop
    }
}

/// An event is serialized. A receiver that lagged or has nothing left ends the half.
pub fn on_channel_item(item: ChannelItem) -> (step: ForwardStep)
    ensures
        step == after_item(item),
{
    match item {
        ChannelItem::Event => ForwardStep::Serialize,
        ChannelItem::Lagged => ForwardStep::Stop,
        ChannelItem::Closed => ForwardStep::Stop,
    }
}

/// A serialized event is written. One that cannot be serialized is skipped.
pub fn on_serialized(serialized: bool) -> (step: ForwardStep)
    ensures
        step == after_serializing(serialized),
{
    if serialized {
        ForwardStep::Write
    } else {
        ForwardStep::AwaitEvent
    }
}

/// Only a timeout ends the half. A failure that the socket reports is passed over: the
/// reading half will see that the connection is gone.
pub fn on_write(outcome: WriteOutcome) -> (step: ForwardStep)
    ensures
        step == after_write(outcome),
{
    match outcome {
        WriteOutcome::TimedOut => ForwardStep::Stop,
        WriteOutcome::Written => ForwardStep::AwaitEvent,
        WriteOutcome::Failed => ForwardStep::AwaitEvent,
    }
}

/// Pings and other messages are read and passed over. Anything else ends the half.
pub fn on_client_message(message: ClientMessage) -> (step: ReadStep)
    ensures
        step == after_message(message),
{
    match message {
        ClientMessage::Ping => ReadStep::AwaitMessage,
        ClientMessage::Other => ReadStep::AwaitMessage,
        ClientMessage::Close => ReadStep::Stop,
        ClientMessage::Unreadable => ReadStep::Stop,
        ClientMessage::Ended => ReadStep::Stop,
    }
}

/// Something that happens in the forwarding half, for events `E` and frames `F`.
pub enum Happening<E, F> {
    /// The channel gave this item; `event` is the event, where it is one.
    Item { item: ChannelItem, event: E },
    /// The event was serialized into this frame, or could not be.
    Serializing { made: Option<F> },
    /// The frame was handed to the socket, with this outcome.
    Write { frame: F, outcome: WriteOutcome },
}

/// What follows after a happening.
pub open spec fn next_step<E, F>(happening: Happening<E, F>) -> ForwardStep {
    match happening {
        Happening::Item { item, .. } => after_item(item),
        Happening::Serializing { made } => after_serializing(made is Some),
        Happening::Write { outcome, .. } => after_write(outcome),
    }
}

/// What the forwarding half does after these happenings. It begins by waiting for an event.
pub open spec fn step_after<E, F>(run: Seq<Happening<E, F>>) -> ForwardStep {
    if run.len() == 0 {
        ForwardStep::AwaitEvent
    } else {
        next_step(run.last())
    }
}

/// After `run`, `happening` is what is done next, where `form` says into which frame each
/// event is serialized, if it can be.
pub open spec fn goes_on<E, F>(
    run: Seq<Happening<E, F>>,
    happening: Happening<E, F>,
    form: spec_fn(E) -> Option<F>,
) -> bool {
    match step_after(run) {
        ForwardStep::AwaitEvent => happening is Item,
        ForwardStep::Serialize => {
            &&& happening is Serializing
            &&& run.last() is Item
            &&& happening->made == form(run.last()->event)
        },
        ForwardStep::Write => {
            &&& happening is Write
            &&& run.last() is Serializing
            &&& run.last()->made == Some(happening->Write_frame)
        },
        ForwardStep::Stop => false,
    }
}

/// The happenings are a run of the forwarding half, in which each step does what the one
/// before it called for.
pub open spec fn is_run<E, F>(run: Seq<Happening<E, F>>, form: spec_fn(E) -> Option<F>) -> bool
    decreases run.len(),
{
    run.len() > 0 ==> is_run(run.drop_last(), form) && goes_on(run.drop_last(), run.last(), form)
}

/// The events that the channel gave, in order.
pub open spec fn events_given<E, F>(run: Seq<Happening<E, F>>) -> Seq<E>
    decreases run.len(),
{
    if run.len() == 0 {
        Seq::empty()
    } else {
        match run.last() {
            Happening::Item { item: ChannelItem::Event, event } => events_given(
                run.drop_last(),
            ).push(event),
            _ => events_given(run.drop_last()),
        }
    }
}

/// The frames that were handed to the socket, in order.
pub open spec fn frames_handed<E, F>(run: Seq<Happening<E, F>>) -> Seq<F>
    decreases run.len(),
{
    if run.len() == 0 {
        Seq::empty()
    } else {
        match run.last() {
            Happening::Write { frame, .. } => frames_handed(run.drop_last()).push(frame),
            _ => frames_handed(run.drop_last()),
        }
    }
}

/// The frames of some events, in their order, without those that cannot be serialized.
pub open spec fn frames_of<E, F>(events: Seq<E>, form: spec_fn(E) -> Option<F>) -> Seq<F>
    decreases events.len(),
{
    if events.len() == 0 {
        Seq::empty()
    } else {
        match form(events.last()) {
            Some(frame) => frames_of(events.drop_last(), form).push(frame),
            None => frames_of(events.drop_last(), form),
        }
    }
}

/// Whenever the forwarding half waits for an event or has ended, the frames that were handed
/// to the socket are those of the events that the channel gave: in the same order, once each,
/// without the events that could not be serialized. In between it is one event behind.
pub proof fn law_events_are_forwarded_in_order<E, F>(
    run: Seq<Happening<E, F>>,
    form: spec_fn(E) -> Option<F>,
)
    requires
        is_run(run, form),
    ensures
        match step_after(run) {
            ForwardStep::AwaitEvent | ForwardStep::Stop => frames_handed(run) == frames_of(
                events_given(run),
                form,
            ),
            ForwardStep::Serialize => {
                &&& run.last() is Item
                &&& events_given(run) == events_given(run).drop_last().push(run.last()->event)
                &&& frames_handed(run) == frames_of(events_given(run).drop_last(), form)
            },
            ForwardStep::Write => {
                &&& run.last() is Serializing
                &&& run.last()->made is Some
                &&& frames_handed(run).push(run.last()->made->Some_0) == frames_of(
                    events_given(run),
                    form,
                )
            },
        },
    decreases run.len(),
{
    if run.len() > 0 {
        let shorter = run.drop_last();
        law_events_are_forwarded_in_order(shorter, form);
        if let Happening::Item { item: ChannelItem::Event, event } = run.last() {
            assert(events_given(run).drop_last() =~= events_given(shorter));
        }
    }
}

/// Once the forwarding half has ended, nothing happens in it any more: no event is taken and
/// nothing is written.
pub proof fn law_nothing_happens_after_a_stop<E, F>(
    run: Seq<Happening<E, F>>,
    form: spec_fn(E) -> Option<F>,
    n: int,
)
    requires
        is_run(run, form),
        0 < n < run.len(),
    ensures
        next_step(run[n - 1]) != ForwardStep::Stop,
    decreases run.len(),
{
    if n == run.len() - 1 {
        assert(run.drop_last().last() == run[n - 1]);
    } else {
        law_nothing_happens_after_a_stop(run.drop_last(), form, n);
    }
}

} // verus!
