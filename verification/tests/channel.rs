use spsc_cell::channel::Channel;
use spsc_cell::channel::ChannelError;
use spsc_cell::channel::RecvStatus;

#[test]
fn send_then_receive_returns_the_value() {
    let mut c = Channel::new();
    assert!(c.send(String::from("hello")).is_ok());
    match c.try_recv() {
        RecvStatus::Received(v) => assert_eq!(v, "hello"),
        _ => panic!("expected a delivered message"),
    }
}

#[test]
fn delivery_is_fifo_and_exactly_once() {
    let mut c = Channel::new();
    assert!(c.send(String::from("first")).is_ok());
    assert!(c.send(String::from("second")).is_ok());
    assert!(c.send(String::from("third")).is_ok());
    for expected in ["first", "second", "third"] {
        match c.try_recv() {
            RecvStatus::Received(v) => assert_eq!(v, expected),
            _ => panic!("expected a delivered message"),
        }
    }
    assert!(matches!(c.try_recv(), RecvStatus::WouldBlock));
}

#[test]
fn order_is_kept_across_interleaved_sends_and_receives() {
    let mut c = Channel::new();
    assert!(c.send(String::from("a")).is_ok());
    assert!(c.send(String::from("b")).is_ok());
    match c.try_recv() {
        RecvStatus::Received(v) => assert_eq!(v, "a"),
        _ => panic!("expected a delivered message"),
    }
    assert!(c.send(String::from("c")).is_ok());
    match c.try_recv() {
        RecvStatus::Received(v) => assert_eq!(v, "b"),
        _ => panic!("expected a delivered message"),
    }
    match c.try_recv() {
        RecvStatus::Received(v) => assert_eq!(v, "c"),
        _ => panic!("expected a delivered message"),
    }
    assert!(matches!(c.try_recv(), RecvStatus::WouldBlock));
}

#[test]
fn receive_before_any_send_would_block() {
    let mut c = Channel::new();
    assert!(matches!(c.try_recv(), RecvStatus::WouldBlock));
    assert!(matches!(c.try_recv(), RecvStatus::WouldBlock));
}

#[test]
fn receive_after_silent_producer_is_disconnected() {
    let mut c = Channel::new();
    c.drop_sender();
    assert!(matches!(c.try_recv(), RecvStatus::Disconnected));
    assert!(matches!(c.try_recv(), RecvStatus::Disconnected));
}

#[test]
fn buffered_messages_outlive_the_producer() {
    let mut c = Channel::new();
    assert!(c.send(String::from("parting")).is_ok());
    c.drop_sender();
    match c.try_recv() {
        RecvStatus::Received(v) => assert_eq!(v, "parting"),
        _ => panic!("expected the buffered message"),
    }
    assert!(matches!(c.try_recv(), RecvStatus::Disconnected));
}

#[test]
fn send_to_departed_consumer_fails() {
    let mut c = Channel::new();
    c.drop_receiver();
    assert_eq!(c.send(String::from("lost")), Err(ChannelError::Disconnected));
}

#[test]
fn empty_message_is_delivered_unchanged() {
    let mut c = Channel::new();
    assert!(c.send(String::new()).is_ok());
    match c.try_recv() {
        RecvStatus::Received(v) => assert_eq!(v, ""),
        _ => panic!("expected a delivered message"),
    }
}

#[test]
fn producer_hands_over_hi() {
    let mut c = Channel::new();
    assert!(c.send(String::from("hi")).is_ok());
    match c.try_recv() {
        RecvStatus::Received(v) => {
            assert_eq!(format!("Got: {}", v), "Got: hi");
        },
        _ => panic!("expected the producer's message"),
    }
}
