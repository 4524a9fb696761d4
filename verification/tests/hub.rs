use lamprey::clients::Clients;
use lamprey::event::SalvageEvent;
use lamprey::hub::{publish_outcome, Hub, PublishError, Received, HUB_CAPACITY};
use lamprey::state::LedgerState;
use tokio::sync::broadcast::error::TryRecvError;
use tokio::sync::broadcast::Receiver;

fn shared_between_tasks<T: Send + Sync>() {}

fn numbered(n: u32) -> SalvageEvent {
    SalvageEvent::WelcomeEvent { msg: n.to_string() }
}

fn publish(hub: &Hub, n: u32) -> Result<(), PublishError> {
    hub.publish(numbered(n))
}

fn receive(receiver: &mut Receiver<SalvageEvent>) -> Received<u32> {
    match receiver.try_recv() {
        Ok(SalvageEvent::WelcomeEvent { msg }) => Received::Event(msg.parse().unwrap()),
        Ok(other) => panic!("{:?}", other),
        Err(TryRecvError::Lagged(missed)) => Received::Lagged(missed),
        Err(TryRecvError::Closed) => Received::Closed,
        Err(TryRecvError::Empty) => Received::Empty,
    }
}

#[test]
fn the_relay_hub_retains_512_events() {
    assert_eq!(HUB_CAPACITY, 512);
    let hub: Hub = Hub::new();
    assert!(!hub.is_closed());
    let mut reader = hub.subscribe().unwrap();
    for n in 0..513u32 {
        assert_eq!(publish(&hub, n), Ok(()));
    }
    assert_eq!(receive(&mut reader), Received::Lagged(1));
    assert_eq!(receive(&mut reader), Received::Event(1));
}

#[test]
fn prompt_reader_gets_every_event_in_order() {
    let hub: Hub = Hub::new();
    let mut reader = hub.subscribe().unwrap();
    for n in 0..2000u32 {
        assert_eq!(publish(&hub, n), Ok(()));
        assert_eq!(receive(&mut reader), Received::Event(n));
        assert_eq!(receive(&mut reader), Received::Empty);
    }
}

#[test]
fn reader_within_capacity_loses_nothing() {
    let hub: Hub = Hub::new();
    let mut reader = hub.subscribe().unwrap();
    for n in 0..512u32 {
        publish(&hub, n).unwrap();
    }
    for n in 0..512u32 {
        assert_eq!(receive(&mut reader), Received::Event(n));
    }
    assert_eq!(receive(&mut reader), Received::Empty);
}

#[test]
fn stalled_reader_is_told_its_loss_and_resumes() {
    let hub: Hub = Hub::new();
    let mut reader = hub.subscribe().unwrap();
    for n in 0..600u32 {
        publish(&hub, n).unwrap();
    }
    assert_eq!(receive(&mut reader), Received::Lagged(88));
    for n in 88..600u32 {
        assert_eq!(receive(&mut reader), Received::Event(n));
    }
    assert_eq!(receive(&mut reader), Received::Empty);
    publish(&hub, 600).unwrap();
    assert_eq!(receive(&mut reader), Received::Event(600));
}

#[test]
fn one_event_more_than_the_capacity_costs_one_event() {
    let hub: Hub = Hub::with_capacity(4);
    let mut reader = hub.subscribe().unwrap();
    for n in 0..5u32 {
        publish(&hub, n).unwrap();
    }
    assert_eq!(receive(&mut reader), Received::Lagged(1));
    for n in 1..5u32 {
        assert_eq!(receive(&mut reader), Received::Event(n));
    }
    assert_eq!(receive(&mut reader), Received::Empty);
}

#[test]
fn subscription_starts_at_now() {
    let hub: Hub = Hub::with_capacity(4);
    let mut first = hub.subscribe().unwrap();
    publish(&hub, 1).unwrap();
    publish(&hub, 2).unwrap();
    let mut late = hub.subscribe().unwrap();
    assert_eq!(receive(&mut late), Received::Empty);
    publish(&hub, 3).unwrap();
    assert_eq!(receive(&mut late), Received::Event(3));
    assert_eq!(receive(&mut first), Received::Event(1));
}

#[test]
fn two_readers_see_the_same_order() {
    let hub: Hub = Hub::with_capacity(8);
    let mut fast = hub.subscribe().unwrap();
    let mut slow = hub.subscribe().unwrap();
    let mut seen_fast = Vec::new();
    let mut seen_slow = Vec::new();
    for n in 0..40u32 {
        publish(&hub, n).unwrap();
        if let Received::Event(event) = receive(&mut fast) {
            seen_fast.push(event);
        }
        if n % 13 == 12 {
            loop {
                match receive(&mut slow) {
                    Received::Event(event) => seen_slow.push(event),
                    Received::Lagged(_) => {}
                    _ => break,
                }
            }
        }
    }
    assert_eq!(seen_fast, (0..40).collect::<Vec<u32>>());
    assert_eq!(seen_slow, vec![5, 6, 7, 8, 9, 10, 11, 12, 18, 19, 20, 21, 22, 23, 24, 25, 31, 32, 33, 34, 35, 36, 37, 38]);
    for pair in seen_slow.windows(2) {
        let first = seen_fast.iter().position(|x| *x == pair[0]).unwrap();
        let second = seen_fast.iter().position(|x| *x == pair[1]).unwrap();
        assert!(first < second);
    }
}

#[test]
fn closed_hub_hands_out_what_is_left_and_then_closed() {
    let mut hub: Hub = Hub::with_capacity(4);
    let mut reader = hub.subscribe().unwrap();
    publish(&hub, 9).unwrap();
    hub.close();
    assert!(hub.is_closed());
    assert_eq!(publish(&hub, 10), Err(PublishError::Closed));
    assert!(hub.subscribe().is_none());
    assert_eq!(receive(&mut reader), Received::Event(9));
    assert_eq!(receive(&mut reader), Received::Closed);
    assert_eq!(receive(&mut reader), Received::Closed);
}

#[test]
fn event_for_nobody_is_not_taken() {
    let hub: Hub = Hub::new();
    assert_eq!(publish(&hub, 1), Err(PublishError::NoReaders));
    let mut reader = hub.subscribe().unwrap();
    assert_eq!(publish(&hub, 2), Ok(()));
    assert_eq!(receive(&mut reader), Received::Event(2));
    drop(reader);
    assert_eq!(publish(&hub, 3), Err(PublishError::NoReaders));
    assert_eq!(publish_outcome(true), Ok(()));
    assert_eq!(publish_outcome(false), Err(PublishError::NoReaders));
}

#[test]
fn hub_registry_and_state_can_be_shared_between_tasks() {
    shared_between_tasks::<Hub>();
    shared_between_tasks::<Clients>();
    shared_between_tasks::<LedgerState>();
}

#[test]
fn capacity_is_rounded_up_to_a_power_of_two() {
    let hub: Hub = Hub::with_capacity(5);
    let mut reader = hub.subscribe().unwrap();
    for n in 0..8u32 {
        publish(&hub, n).unwrap();
    }
    assert_eq!(receive(&mut reader), Received::Event(0));
    publish(&hub, 8).unwrap();
    publish(&hub, 9).unwrap();
    assert_eq!(receive(&mut reader), Received::Lagged(1));
    assert_eq!(receive(&mut reader), Received::Event(2));
}
