use readycheck::bus::{Bus, Handler, BUS_CAPACITY};
use tokio::sync::broadcast::{channel, error::TryRecvError};

#[test]
fn the_handler_opens_with_nothing_pending() {
    let handler = Handler::new();
    let mut first = handler.subscribe_to_component_interactions();
    let mut second = handler.subscribe_to_component_interactions();
    assert!(matches!(first.try_recv(), Err(TryRecvError::Empty)));
    assert!(matches!(second.try_recv(), Err(TryRecvError::Empty)));
}

#[test]
fn a_dropped_handler_closes_its_receivers() {
    let handler = Handler::new();
    let mut receiver = handler.subscribe_to_component_interactions();
    assert!(matches!(receiver.try_recv(), Err(TryRecvError::Empty)));
    drop(handler);
    assert!(matches!(receiver.try_recv(), Err(TryRecvError::Closed)));
}

#[test]
fn a_receiver_belongs_to_the_handler_that_gave_it() {
    let first = Handler::new();
    let second = Handler::new();
    let mut of_first = first.subscribe_to_component_interactions();
    let mut of_second = second.subscribe_to_component_interactions();
    drop(first);
    assert!(matches!(of_first.try_recv(), Err(TryRecvError::Closed)));
    assert!(matches!(of_second.try_recv(), Err(TryRecvError::Empty)));
    drop(second);
    assert!(matches!(of_second.try_recv(), Err(TryRecvError::Closed)));
}

#[test]
fn a_bus_opens_with_nothing_pending_and_closes_when_dropped() {
    let bus = Bus::new();
    let mut receiver = bus.subscribe();
    let mut another = bus.subscribe();
    assert!(matches!(receiver.try_recv(), Err(TryRecvError::Empty)));
    assert!(matches!(another.try_recv(), Err(TryRecvError::Empty)));
    drop(bus);
    assert!(matches!(receiver.try_recv(), Err(TryRecvError::Closed)));
    assert!(matches!(another.try_recv(), Err(TryRecvError::Closed)));
}

#[test]
fn the_bus_keeps_sixteen_values() {
    assert_eq!(BUS_CAPACITY, 16);
}

#[test]
fn a_channel_of_the_bus_capacity_hands_every_value_to_every_receiver() {
    let (sender, mut first) = channel::<u32>(BUS_CAPACITY);
    let mut second = sender.subscribe();
    assert_eq!(sender.send(10).ok(), Some(2));
    assert_eq!(sender.send(20).ok(), Some(2));
    assert_eq!(first.try_recv(), Ok(10));
    assert_eq!(second.try_recv(), Ok(10));
    assert_eq!(first.try_recv(), Ok(20));
    assert_eq!(second.try_recv(), Ok(20));
    assert_eq!(first.try_recv(), Err(TryRecvError::Empty));
}

#[test]
fn a_channel_without_receivers_loses_what_is_sent() {
    let sender = channel::<u32>(BUS_CAPACITY).0;
    assert_eq!(sender.send(1).ok(), None);
    let mut late = sender.subscribe();
    assert_eq!(sender.send(2).ok(), Some(1));
    assert_eq!(late.try_recv(), Ok(2));
    assert_eq!(late.try_recv(), Err(TryRecvError::Empty));
}

#[test]
fn a_channel_of_the_bus_capacity_tells_a_slow_receiver_what_it_missed() {
    let (sender, mut slow) = channel::<u32>(BUS_CAPACITY);
    for value in 0..(BUS_CAPACITY as u32 + 4) {
        assert_eq!(sender.send(value).ok(), Some(1));
    }
    assert_eq!(slow.try_recv(), Err(TryRecvError::Lagged(4)));
    assert_eq!(slow.try_recv(), Ok(4));
}

#[test]
fn a_channel_of_the_bus_capacity_keeps_that_many_values() {
    let (sender, mut receiver) = channel::<u32>(BUS_CAPACITY);
    for value in 0..(BUS_CAPACITY as u32) {
        assert_eq!(sender.send(value).ok(), Some(1));
    }
    assert_eq!(receiver.try_recv(), Ok(0));
}
