//! The claim algorithm: lazy pair creation, exclusive and cloneable halves,
//! capacity ordering, and the resource lifecycle, observed through concrete
//! channel capabilities.

use tab_service::bus::{Channel, Exclusive, Shared};
use tab_service::channels::MAX_QUEUE_CAPACITY;
use tab_service::channels::{FanInChannel, QueueChannel};
use tab_service::errors::Link;
use tab_service::errors::TakeResourceError;
use tab_service::row::{ChannelRow, ResourceRow};

fn channel_row<C: Channel>(message: &str) -> ChannelRow<C> {
    ChannelRow::new("B".to_owned(), message.to_owned())
}

#[test]
fn exclusive_sender_taken_once() {
    let mut row = channel_row::<QueueChannel<u64>>("M");
    assert!(row.tx().is_ok());
    let err = match row.tx() {
        Err(e) => e,
        Ok(_) => panic!("expected the second sender claim to fail"),
    };
    assert!(matches!(err.link, Link::Tx));
    assert_eq!(err.bus, "B");
    assert_eq!(err.message, "M");
}

#[test]
fn exclusive_receiver_taken_once() {
    let mut row = channel_row::<QueueChannel<u64>>("M");
    assert!(row.tx().is_ok());
    assert!(row.rx().is_ok());
    let err = match row.rx() {
        Err(e) => e,
        Ok(_) => panic!("expected the second receiver claim to fail"),
    };
    assert!(matches!(err.link, Link::Rx));
    assert_eq!(err.bus, "B");
    assert_eq!(err.message, "M");
}

#[test]
fn cloneable_sender_claimed_many_times() {
    let mut row = channel_row::<FanInChannel<u64>>("M");
    let tx1 = row.tx().expect("first claim");
    let tx2 = row.tx().expect("second claim");
    let tx3 = row.tx().expect("third claim");
    let mut rx = row.rx().expect("receiver");
    tx1.try_send(1).ok().expect("send from first sender");
    tx2.try_send(2).ok().expect("send from second sender");
    tx3.try_send(3).ok().expect("send from third sender");
    assert_eq!(rx.try_recv(), Ok(1));
    assert_eq!(rx.try_recv(), Ok(2));
    assert_eq!(rx.try_recv(), Ok(3));
}

#[test]
fn capacity_bounds_queue_then_is_fixed() {
    let mut row = channel_row::<QueueChannel<u64>>("M");
    assert!(row.capacity(2).is_ok());
    let tx = row.tx().expect("sender");
    assert!(tx.try_send(10).is_ok());
    assert!(tx.try_send(11).is_ok());
    // The queue holds exactly two: the third delivery is the backpressure
    // signal and hands the message back.
    match tx.try_send(12) {
        Err(tab_service::channels::SendFault::Full(m)) => assert_eq!(m, 12),
        _ => panic!("expected backpressure"),
    }
    let err = row.capacity(2).unwrap_err();
    assert_eq!(err.bus, "B");
    assert_eq!(err.message, "M");
}

#[test]
fn default_capacity_bounds_queue() {
    let mut row = channel_row::<QueueChannel<u64>>("M");
    let tx = row.tx().expect("sender");
    for i in 0..8 {
        assert!(tx.try_send(i).is_ok());
    }
    assert!(matches!(
        tx.try_send(8),
        Err(tab_service::channels::SendFault::Full(8))
    ));
}

#[test]
fn capacity_accepted_only_before_first_claim() {
    let mut row = channel_row::<FanInChannel<u64>>("M");
    assert!(row.capacity(1).is_ok());
    assert!(row.capacity(5).is_ok());
    assert!(row.rx().is_ok());
    assert!(row.capacity(5).is_err());
}

#[test]
fn single_consumer_scenario() {
    let mut row = channel_row::<QueueChannel<u64>>("M");
    assert!(row.tx().is_ok());
    assert!(row.rx().is_ok());
    let err = match row.rx() {
        Err(e) => e,
        Ok(_) => panic!("expected the second receiver claim to fail"),
    };
    assert_eq!(err.bus, "B");
    assert_eq!(err.message, "M");
    assert!(matches!(err.link, Link::Rx));
}

#[test]
fn round_trip_through_claimed_pair() {
    let mut row = channel_row::<QueueChannel<u64>>("M");
    let tx = row.tx().expect("sender");
    let mut rx = row.rx().expect("receiver");
    tx.try_send(42).ok().expect("send");
    assert_eq!(rx.try_recv(), Ok(42));
}

#[test]
fn unprovisioned_resource_is_uninitialized() {
    let mut row: ResourceRow<Exclusive<u64>> = ResourceRow::new("B".to_owned(), "R".to_owned());
    match row.take() {
        Err(TakeResourceError::Uninitialized(e)) => {
            assert_eq!(e.bus, "B");
            assert_eq!(e.resource, "R");
        }
        _ => panic!("expected an uninitialized failure"),
    }
}

#[test]
fn exclusive_resource_taken_exactly_once() {
    let mut row: ResourceRow<Exclusive<u64>> = ResourceRow::new("B".to_owned(), "R".to_owned());
    assert!(matches!(row.take(), Err(TakeResourceError::Uninitialized(_))));
    assert!(row.provide(Exclusive(7)).is_ok());
    let value = row.take().expect("the provisioned value");
    assert_eq!(value.0, 7);
    match row.take() {
        Err(TakeResourceError::Taken(e)) => {
            assert_eq!(e.bus, "B");
            assert_eq!(e.resource, "R");
        }
        _ => panic!("expected a taken failure"),
    }
}

#[test]
fn resource_provisioned_at_most_once() {
    let mut row: ResourceRow<Exclusive<u64>> = ResourceRow::new("B".to_owned(), "R".to_owned());
    assert!(row.provide(Exclusive(1)).is_ok());
    let err = row.provide(Exclusive(2)).unwrap_err();
    assert_eq!(err.bus, "B");
    assert_eq!(err.resource, "R");
    // The first value is still the one handed out.
    assert_eq!(row.take().expect("stored value").0, 1);
}

#[test]
fn cloneable_resource_claimed_many_times() {
    let mut row: ResourceRow<Shared<u64>> = ResourceRow::new("B".to_owned(), "R".to_owned());
    assert!(row.provide(Shared(9)).is_ok());
    assert_eq!(row.take().expect("first claim").0, 9);
    assert_eq!(row.take().expect("second claim").0, 9);
    assert_eq!(row.take().expect("third claim").0, 9);
}

#[test]
fn closed_channel_hands_the_message_back() {
    let mut row = channel_row::<QueueChannel<u64>>("M");
    let tx = row.tx().expect("sender");
    let rx = row.rx().expect("receiver");
    drop(rx);
    match tx.try_send(5) {
        Err(tab_service::channels::SendFault::Closed(m)) => assert_eq!(m, 5),
        _ => panic!("expected the closed-channel failure"),
    }
}

#[test]
fn receive_reports_empty_and_closed_apart() {
    let mut row = channel_row::<QueueChannel<u64>>("M");
    let tx = row.tx().expect("sender");
    let mut rx = row.rx().expect("receiver");
    assert_eq!(rx.try_recv(), Err(tab_service::channels::RecvFault::Empty));
    tx.try_send(1).ok().expect("send");
    drop(tx);
    assert_eq!(rx.try_recv(), Ok(1));
    assert_eq!(rx.try_recv(), Err(tab_service::channels::RecvFault::Closed));
}

#[test]
fn capacity_check_matches_the_transport_bound() {
    assert!(!QueueChannel::<u64>::check_capacity(0));
    assert!(QueueChannel::<u64>::check_capacity(1));
    assert!(QueueChannel::<u64>::check_capacity(MAX_QUEUE_CAPACITY));
    assert!(!QueueChannel::<u64>::check_capacity(MAX_QUEUE_CAPACITY + 1));
    assert!(FanInChannel::<u64>::check_capacity(8));
}
