//! The frame delivery pipeline: a queue between the display dispatcher and
//! an asynchronous consumer, with one wake handle.
//!
//! The queue is a `flume` channel and the wake handle an `AtomicWaker` of
//! `futures`. What the channel answers depends on the other end, so nothing
//! is claimed of it; what this module does with each answer is verified.

use std::sync::Arc;
use std::task::Waker;
use vstd::prelude::*;
use crate::error::NVCodecError;
use crate::packet::PacketData;

verus! {

/// A decoded picture: the buffer that holds it, and the record of the
/// packet it came from where one was pending under its timestamp.
pub struct DecodedFrame<B> {
    pub buf: B,
    pub packet_data: Option<PacketData>,
}

/// What travels through the delivery queue: a frame or the error that ends
/// the stream.
pub type Delivery<B> = Result<DecodedFrame<B>, NVCodecError>;

/// `flume::Sender`, a sending end of a channel; opaque here.
#[verifier::external_type_specification]
#[verifier::external_body]
#[verifier::reject_recursive_types(T)]
pub struct ExSender<T>(flume::Sender<T>);

/// `flume::Receiver`, a receiving end of a channel; opaque here.
#[verifier::external_type_specification]
#[verifier::external_body]
#[verifier::reject_recursive_types(T)]
pub struct ExReceiver<T>(flume::Receiver<T>);

/// `futures::task::AtomicWaker`, a slot for one task's waker; opaque here.
#[verifier::external_type_specification]
#[verifier::external_body]
pub struct ExAtomicWaker(futures::task::AtomicWaker);

/// `std::task::Waker`, the handle that wakes a task; opaque here.
#[verifier::external_type_specification]
#[verifier::external_body]
pub struct ExWaker(Waker);

/// What a non-blocking receive found.
pub enum Received<T> {
    /// An item was waiting.
    Item(T),
    /// Nothing is waiting, and the producer is still there.
    Empty,
    /// Nothing is waiting, and the producer is gone.
    Disconnected,
}

/// What a poll of the delivery queue yields.
pub enum Polled<T> {
    /// The next item of the sequence.
    Item(T),
    /// Nothing yet: the consumer is woken when there is.
    Pending,
    /// The sequence is over.
    Finished,
}

/// `flume::unbounded`: a new channel without a capacity limit. Nothing is
/// claimed of the two ends.
#[verifier::external_body]
fn unbounded_channel<T>() -> (ends: (flume::Sender<T>, flume::Receiver<T>)) {
    flume::unbounded()
}

/// `flume::Sender::send`: hands `item` to the channel; the result says
/// whether the channel took it, which it does unless every receiver is
/// gone. Nothing is claimed of the result.
#[verifier::external_body]
fn channel_send<T>(sender: &flume::Sender<T>, item: T) -> (taken: bool) {
    sender.send(item).is_ok()
}

/// `flume::Sender::is_disconnected`: whether every receiver of the channel
/// is gone. Nothing is claimed of the result.
#[verifier::external_body]
fn channel_is_disconnected<T>(sender: &flume::Sender<T>) -> (gone: bool) {
    sender.is_disconnected()
}

/// `flume::Receiver::try_recv`: takes the next item off the channel without
/// waiting. Nothing is claimed of the result.
#[verifier::external_body]
fn channel_try_recv<T>(receiver: &flume::Receiver<T>) -> (received: Received<T>) {
    match receiver.try_recv() {
        Ok(item) => Received::Item(item),
        Err(flume::TryRecvError::Empty) => Received::Empty,
        Err(flume::TryRecvError::Disconnected) => Received::Disconnected,
    }
}

/// `AtomicWaker::new`: a wake handle with nothing registered.
#[verifier::external_body]
fn new_wake_handle() -> (handle: futures::task::AtomicWaker) {
    futures::task::AtomicWaker::new()
}

/// `AtomicWaker::register`: makes `waker` the one that the next `wake`
/// notifies, in place of any registered before.
#[verifier::external_body]
fn wake_handle_register(handle: &futures::task::AtomicWaker, waker: &Waker) {
    handle.register(waker)
}

/// `AtomicWaker::wake`: notifies the waker registered last, if any.
#[verifier::external_body]
fn wake_handle_wake(handle: &futures::task::AtomicWaker) {
    handle.wake()
}

/// What a poll yields for what the receive found.
/// - An item is yielded.
/// - An empty queue suspends the consumer, unless end-of-stream has been
///   submitted: then the sequence is over.
/// - A queue whose producer is gone ends the sequence.
pub open spec fn spec_poll_step<T>(received: Received<T>, eos: bool) -> Polled<T> {
    match received {
        Received::Item(item) => Polled::Item(item),
        Received::Empty => if eos {
            Polled::Finished
        } else {
            Polled::Pending
        },
        Received::Disconnected => Polled::Finished,
    }
}

/// Decides what a poll yields from what the receive found and from whether
/// end-of-stream has been submitted.
pub fn poll_step<T>(received: Received<T>, eos: bool) -> (polled: Polled<T>)
    ensures
        polled == spec_poll_step(received, eos),
{
    match received {
        Received::Item(item) => Polled::Item(item),
        Received::Empty => if eos {
            Polled::Finished
        } else {
            Polled::Pending
        },
        Received::Disconnected => Polled::Finished,
    }
}

/// One thing a dispatcher does with the producer: it offers an item, which
/// the channel takes or refuses, or it closes the producer.
pub enum Offer<B> {
    Item { item: Delivery<B>, taken: bool },
    End,
}

/// The producer after one offer, as whether it is open and what the queue
/// has taken from it: an item joins the log where the producer is open and
/// the channel takes it, and the end closes the producer.
pub open spec fn spec_offer<B>(open: bool, log: Seq<Delivery<B>>, offer: Offer<B>) -> (
    bool,
    Seq<Delivery<B>>,
) {
    match offer {
        Offer::Item { item, taken } => (
            open,
            if open && taken {
                log.push(item)
            } else {
                log
            },
        ),
        Offer::End => (false, log),
    }
}

/// What a callback answers the parser to make it stop.
pub const ABORT: i32 = 0;

/// What a callback answers the parser to make it go on.
pub const PROCEED: i32 = 1;

/// The producing end of the delivery queue, with the consumer's wake
/// handle. It keeps a ghost record of what the queue took and of how often
/// the consumer was woken.
#[verifier::reject_recursive_types(B)]
pub struct Producer<B> {
    sender: Option<flume::Sender<Delivery<B>>>,
    handle: Arc<futures::task::AtomicWaker>,
    taken: Ghost<Seq<Delivery<B>>>,
    wakes: Ghost<nat>,
}

/// The consuming end of the delivery queue, with the wake handle it shares
/// with the producer.
#[verifier::reject_recursive_types(B)]
pub struct Consumer<B> {
    receiver: flume::Receiver<Delivery<B>>,
    handle: Arc<futures::task::AtomicWaker>,
}

/// A new delivery queue: its producer is open and has delivered nothing.
pub fn delivery_channel<B>() -> (ends: (Producer<B>, Consumer<B>))
    ensures
        ends.0.is_open(),
        ends.0.delivered() == Seq::<Delivery<B>>::empty(),
        ends.0.wake_count() == 0,
{
    let (sender, receiver) = unbounded_channel();
    let handle = Arc::new(new_wake_handle());
    let producer = Producer {
        sender: Some(sender),
        handle: handle.clone(),
        taken: Ghost(Seq::empty()),
        wakes: Ghost(0),
    };
    (producer, Consumer { receiver, handle })
}

impl<B> Producer<B> {
    /// Whether the producer has not been closed.
    pub closed spec fn is_open(&self) -> bool {
        self.sender.is_some()
    }

    /// The items the queue has taken from this producer, oldest first.
    pub closed spec fn delivered(&self) -> Seq<Delivery<B>> {
        self.taken@
    }

    /// How often this producer has woken the consumer.
    pub closed spec fn wake_count(&self) -> nat {
        self.wakes@
    }

    /// Whether the producer has not been closed.
    pub fn open(&self) -> (b: bool)
        ensures
            b == self.is_open(),
    {
        self.sender.is_some()
    }

    /// Whether there is nobody left to deliver to: the producer is closed,
    /// or every consumer is gone. An open producer asks the channel, so
    /// only a closed one has a known answer.
    pub fn abandoned(&self) -> (b: bool)
        ensures
            !self.is_open() ==> b,
    {
        match &self.sender {
            None => true,
            Some(sender) => channel_is_disconnected(sender),
        }
    }

    /// Offers `item` to the queue, and wakes the consumer if the queue took
    /// it. A closed producer offers nothing; an open one is refused only
    /// when every consumer is gone, and the item is then dropped.
    pub fn deliver(&mut self, item: Delivery<B>) -> (taken: bool)
        ensures
            final(self).is_open() == old(self).is_open(),
            taken ==> old(self).is_open(),
            (final(self).is_open(), final(self).delivered()) == spec_offer(
                old(self).is_open(),
                old(self).delivered(),
                (Offer::Item { item, taken }),
            ),
            final(self).delivered() == (if taken {
                old(self).delivered().push(item)
            } else {
                old(self).delivered()
            }),
            final(self).wake_count() == (if taken {
                old(self).wake_count() + 1
            } else {
                old(self).wake_count()
            }),
    {
        let ghost offered = item;
        let taken = match &self.sender {
            None => false,
            Some(sender) => channel_send(sender, item),
        };
        if taken {
            wake_handle_wake(&self.handle);
            self.taken = Ghost(self.taken@.push(offered));
            self.wakes = Ghost(self.wakes@ + 1);
        }
        taken
    }

    /// Closes the producer and wakes the consumer, so that it sees the end
    /// of the sequence. Only the first call does anything; the result says
    /// whether this call was the one.
    pub fn close(&mut self) -> (closed_now: bool)
        ensures
            !final(self).is_open(),
            closed_now == old(self).is_open(),
            final(self).delivered() == old(self).delivered(),
            (final(self).is_open(), final(self).delivered()) == spec_offer(
                old(self).is_open(),
                old(self).delivered(),
                Offer::End,
            ),
            final(self).wake_count() == (if closed_now {
                old(self).wake_count() + 1
            } else {
                old(self).wake_count()
            }),
    {
        match self.sender.take() {
            None => false,
            Some(sender) => {
                {
                    // The sending end goes away here, before the consumer is woken.
                    let _last_sender = sender;
                }
                wake_handle_wake(&self.handle);
                self.wakes = Ghost(self.wakes@ + 1);
                true
            },
        }
    }

    /// Ends a callback. A callback that succeeded answers the parser with
    /// its own value. One that failed offers its error to the queue, which
    /// drops it if every consumer is gone, and answers `ABORT`, so that no
    /// failure travels further than the callback.
    pub fn settle(&mut self, outcome: Result<i32, NVCodecError>) -> (answer: i32)
        ensures
            final(self).is_open() == old(self).is_open(),
            match outcome {
                Ok(value) => {
                    &&& answer == value
                    &&& final(self).delivered() == old(self).delivered()
                    &&& final(self).wake_count() == old(self).wake_count()
                },
                Err(error) => {
                    &&& answer == ABORT
                    &&& {
                        ||| {
                            &&& old(self).is_open()
                            &&& final(self).delivered() == old(self).delivered().push(
                                Err(error),
                            )
                            &&& final(self).wake_count() == old(self).wake_count() + 1
                        }
                        ||| {
                            &&& final(self).delivered() == old(self).delivered()
                            &&& final(self).wake_count() == old(self).wake_count()
                        }
                    }
                    &&& !old(self).is_open() ==> final(self).delivered() == old(
                        self,
                    ).delivered()
                },
            },
    {
        match outcome {
            Ok(value) => value,
            Err(error) => {
                self.deliver(Err(error));
                ABORT
            },
        }
    }
}

impl<B> Consumer<B> {
    /// Polls the queue on behalf of the task behind `waker`: registers the
    /// waker in place of any registered before, then takes what is waiting
    /// without blocking. What is waiting is for the channel to say; with
    /// end-of-stream submitted, the consumer is never suspended.
    pub fn poll_next(&self, waker: &Waker, eos: bool) -> (polled: Polled<Delivery<B>>)
        ensures
            eos ==> !(polled is Pending),
    {
        wake_handle_register(&self.handle, waker);
        poll_step(channel_try_recv(&self.receiver), eos)
    }
}

} // verus!
