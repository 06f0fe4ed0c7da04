use nvcodec::delivery::{
    delivery_channel, poll_step, Consumer, DecodedFrame, Delivery, Polled, Producer, Received,
    ABORT, PROCEED,
};
use nvcodec::error::NVCodecError;
use std::sync::atomic::{AtomicUsize, Ordering};
use std::sync::Arc;
use std::task::{Wake, Waker};

struct CountingWake {
    wakes: AtomicUsize,
}

impl Wake for CountingWake {
    fn wake(self: Arc<Self>) {
        self.wakes.fetch_add(1, Ordering::SeqCst);
    }
}

fn counting_waker() -> (Arc<CountingWake>, Waker) {
    let counter = Arc::new(CountingWake { wakes: AtomicUsize::new(0) });
    (counter.clone(), Waker::from(counter))
}

fn frame(buf: u32) -> Delivery<u32> {
    Ok(DecodedFrame { buf, packet_data: None })
}

fn buf_of(polled: Polled<Delivery<u32>>) -> u32 {
    match polled {
        Polled::Item(Ok(frame)) => frame.buf,
        Polled::Item(Err(e)) => panic!("unexpected error {:?}", e),
        Polled::Pending => panic!("unexpected suspension"),
        Polled::Finished => panic!("unexpected end"),
    }
}

#[test]
fn poll_step_table() {
    assert!(matches!(poll_step(Received::Item(7u8), false), Polled::Item(7)));
    assert!(matches!(poll_step(Received::Item(7u8), true), Polled::Item(7)));
    assert!(matches!(poll_step(Received::<u8>::Empty, false), Polled::Pending));
    assert!(matches!(poll_step(Received::<u8>::Empty, true), Polled::Finished));
    assert!(matches!(poll_step(Received::<u8>::Disconnected, false), Polled::Finished));
    assert!(matches!(poll_step(Received::<u8>::Disconnected, true), Polled::Finished));
}

#[test]
fn sentinels() {
    assert_eq!(ABORT, 0);
    assert_eq!(PROCEED, 1);
}

#[test]
fn an_empty_queue_suspends_until_end_of_stream() {
    let (producer, consumer): (Producer<u32>, Consumer<u32>) = delivery_channel();
    let (_, waker) = counting_waker();
    assert!(producer.open());
    assert!(!producer.abandoned());
    assert!(matches!(consumer.poll_next(&waker, false), Polled::Pending));
    assert!(matches!(consumer.poll_next(&waker, true), Polled::Finished));
}

#[test]
fn items_come_out_in_the_order_they_went_in() {
    let (mut producer, consumer) = delivery_channel();
    let (_, waker) = counting_waker();
    for i in 0..5u32 {
        assert!(producer.deliver(frame(i)));
    }
    for i in 0..5u32 {
        assert_eq!(buf_of(consumer.poll_next(&waker, false)), i);
    }
    assert!(matches!(consumer.poll_next(&waker, false), Polled::Pending));
}

#[test]
fn a_taken_item_wakes_the_registered_consumer() {
    let (mut producer, consumer) = delivery_channel();
    let (counter, waker) = counting_waker();
    assert!(matches!(consumer.poll_next(&waker, false), Polled::Pending));
    assert_eq!(counter.wakes.load(Ordering::SeqCst), 0);
    assert!(producer.deliver(frame(1)));
    assert_eq!(counter.wakes.load(Ordering::SeqCst), 1);
    assert_eq!(buf_of(consumer.poll_next(&waker, false)), 1);
}

#[test]
fn the_last_registered_waker_is_the_one_woken() {
    let (mut producer, consumer) = delivery_channel();
    let (first, first_waker) = counting_waker();
    let (second, second_waker) = counting_waker();
    assert!(matches!(consumer.poll_next(&first_waker, false), Polled::Pending));
    assert!(matches!(consumer.poll_next(&second_waker, false), Polled::Pending));
    assert!(producer.deliver(frame(1)));
    assert_eq!(first.wakes.load(Ordering::SeqCst), 0);
    assert_eq!(second.wakes.load(Ordering::SeqCst), 1);
}

#[test]
fn closing_ends_the_sequence_after_what_is_queued() {
    let (mut producer, consumer) = delivery_channel();
    let (counter, waker) = counting_waker();
    assert!(producer.deliver(frame(1)));
    assert!(matches!(consumer.poll_next(&waker, false), Polled::Item(_)));
    assert!(matches!(consumer.poll_next(&waker, false), Polled::Pending));
    assert!(producer.deliver(frame(2)));
    assert_eq!(counter.wakes.load(Ordering::SeqCst), 1);
    assert!(matches!(consumer.poll_next(&waker, false), Polled::Item(_)));
    assert!(matches!(consumer.poll_next(&waker, false), Polled::Pending));
    assert!(producer.close());
    assert_eq!(counter.wakes.load(Ordering::SeqCst), 2);
    assert!(!producer.open());
    assert!(producer.abandoned());
    assert!(matches!(consumer.poll_next(&waker, false), Polled::Finished));
    assert!(matches!(consumer.poll_next(&waker, false), Polled::Finished));
}

#[test]
fn closing_twice_closes_once() {
    let (mut producer, consumer): (Producer<u32>, Consumer<u32>) = delivery_channel();
    let (counter, waker) = counting_waker();
    assert!(matches!(consumer.poll_next(&waker, false), Polled::Pending));
    assert!(producer.close());
    assert_eq!(counter.wakes.load(Ordering::SeqCst), 1);
    assert!(matches!(consumer.poll_next(&waker, false), Polled::Finished));
    assert!(!producer.close());
    assert!(!producer.close());
    assert_eq!(counter.wakes.load(Ordering::SeqCst), 1);
}

#[test]
fn a_closed_producer_delivers_nothing() {
    let (mut producer, consumer) = delivery_channel();
    let (_, waker) = counting_waker();
    producer.close();
    assert!(!producer.deliver(frame(1)));
    assert_eq!(producer.settle(Err(NVCodecError::DecodeError)), ABORT);
    assert!(matches!(consumer.poll_next(&waker, true), Polled::Finished));
}

#[test]
fn items_for_a_consumer_that_is_gone_are_dropped() {
    let (mut producer, consumer) = delivery_channel();
    assert!(producer.deliver(frame(1)));
    drop(consumer);
    assert!(producer.open());
    assert!(producer.abandoned());
    assert!(!producer.deliver(frame(2)));
    assert_eq!(producer.settle(Err(NVCodecError::DecodeError)), ABORT);
    assert_eq!(producer.settle(Ok(1)), 1);
}

#[test]
fn settle_passes_success_through() {
    let (mut producer, consumer): (Producer<u32>, Consumer<u32>) = delivery_channel();
    let (_, waker) = counting_waker();
    assert_eq!(producer.settle(Ok(9)), 9);
    assert_eq!(producer.settle(Ok(PROCEED)), 1);
    assert_eq!(producer.settle(Ok(-3)), -3);
    assert!(matches!(consumer.poll_next(&waker, false), Polled::Pending));
}

#[test]
fn settle_delivers_the_error_and_aborts() {
    let (mut producer, consumer): (Producer<u32>, Consumer<u32>) = delivery_channel();
    let (counter, waker) = counting_waker();
    assert!(matches!(consumer.poll_next(&waker, false), Polled::Pending));
    assert_eq!(producer.settle(Err(NVCodecError::DecoderNotInitialized)), 0);
    assert_eq!(counter.wakes.load(Ordering::SeqCst), 1);
    match consumer.poll_next(&waker, false) {
        Polled::Item(Err(e)) => assert_eq!(e, NVCodecError::DecoderNotInitialized),
        _ => panic!("the error was not delivered"),
    }
    assert!(matches!(consumer.poll_next(&waker, false), Polled::Pending));
}

#[test]
fn frames_then_one_error_then_the_end() {
    let (mut producer, consumer) = delivery_channel();
    let (_, waker) = counting_waker();
    for i in 0..3u32 {
        assert!(producer.deliver(frame(i)));
    }
    assert_eq!(producer.settle(Err(NVCodecError::DecodeError)), ABORT);
    assert!(producer.close());
    for i in 0..3u32 {
        assert_eq!(buf_of(consumer.poll_next(&waker, true)), i);
    }
    match consumer.poll_next(&waker, true) {
        Polled::Item(Err(e)) => assert_eq!(e, NVCodecError::DecodeError),
        _ => panic!("the error was not delivered"),
    }
    assert!(matches!(consumer.poll_next(&waker, true), Polled::Finished));
    assert!(matches!(consumer.poll_next(&waker, true), Polled::Finished));
    assert!(!producer.deliver(frame(9)));
    assert!(matches!(consumer.poll_next(&waker, true), Polled::Finished));
}
