use rendezvous::{Channel, Received};

#[test]
fn consumer_first_parks_then_gets_the_value() {
    let mut channel: Channel<u32> = Channel::new();
    let (sender, receiver) = channel.split(4);

    let receiver = match receiver.receive(&mut channel, 4) {
        Received::Park(handle) => handle,
        _ => panic!("an empty cell must ask the consumer to park"),
    };
    assert!(!receiver.is_ready(&channel));

    let wake = sender.send(&mut channel, 1234);
    assert_eq!(wake.thread, 4);
    assert!(receiver.is_ready(&channel));

    match receiver.receive(&mut channel, 4) {
        Received::Value(value) => assert_eq!(value, 1234),
        _ => panic!("the value was published before this step"),
    }
    assert_eq!(channel.teardown(), None);
}

#[test]
fn producer_first_never_parks() {
    let mut channel: Channel<u32> = Channel::new();
    let (sender, receiver) = channel.split(4);
    sender.send(&mut channel, 8);
    assert!(matches!(receiver.receive(&mut channel, 4), Received::Value(8)));
}

#[test]
fn early_wakes_change_nothing() {
    let mut channel: Channel<u32> = Channel::new();
    let (sender, mut receiver) = channel.split(2);
    for _ in 0..50 {
        receiver = match receiver.receive(&mut channel, 2) {
            Received::Park(handle) => handle,
            _ => panic!("nothing was sent yet"),
        };
        assert!(!receiver.is_ready(&channel));
    }
    sender.send(&mut channel, 6);
    assert!(matches!(receiver.receive(&mut channel, 2), Received::Value(6)));
}

#[test]
fn many_cycles_in_both_orders_complete() {
    let mut channel: Channel<usize> = Channel::new();
    for round in 0..1000usize {
        let thread = (round % 7) as u64;
        let (sender, receiver) = channel.split(thread);
        let receiver = if round % 2 == 0 {
            match receiver.receive(&mut channel, thread) {
                Received::Park(handle) => handle,
                _ => panic!("nothing was sent yet"),
            }
        } else {
            receiver
        };
        let wake = sender.send(&mut channel, round);
        assert_eq!(wake.thread, thread);
        match receiver.receive(&mut channel, thread) {
            Received::Value(value) => assert_eq!(value, round),
            _ => panic!("cycle {} did not complete", round),
        }
    }
}

#[test]
fn foreign_thread_is_turned_away() {
    let mut channel: Channel<u32> = Channel::new();
    let (sender, receiver) = channel.split(10);
    sender.send(&mut channel, 99);

    let receiver = match receiver.receive(&mut channel, 11) {
        Received::WrongThread(handle) => handle,
        _ => panic!("a foreign thread must be rejected"),
    };
    assert!(receiver.is_ready(&channel));

    assert!(matches!(receiver.receive(&mut channel, 10), Received::Value(99)));
}

#[test]
fn foreign_thread_is_turned_away_from_an_empty_cell() {
    let mut channel: Channel<u32> = Channel::new();
    let (_sender, receiver) = channel.split(0);
    let receiver = match receiver.receive(&mut channel, u64::MAX) {
        Received::WrongThread(handle) => handle,
        _ => panic!("a foreign thread must be rejected"),
    };
    assert!(matches!(receiver.receive(&mut channel, 0), Received::Park(_)));
}

#[test]
fn teardown_hands_back_what_was_never_received() {
    let mut channel: Channel<String> = Channel::new();
    let (sender, _receiver) = channel.split(1);
    sender.send(&mut channel, String::from("left behind"));
    assert_eq!(channel.teardown(), Some(String::from("left behind")));
}

#[test]
fn a_later_send_replaces_the_value_in_the_slot() {
    let mut channel: Channel<u32> = Channel::new();
    let (first, _receiver) = channel.split(1);
    let (second, receiver) = channel.split(1);
    first.send(&mut channel, 1);
    second.send(&mut channel, 2);
    assert!(matches!(receiver.receive(&mut channel, 1), Received::Value(2)));
}
