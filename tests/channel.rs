use std::cell::Cell;
use std::rc::Rc;

use oneshot::borrowed_channel;
use oneshot::checked_channel;
use oneshot::error::ProtocolError;
use oneshot::parked_channel;
use oneshot::shared_channel;
use oneshot::slot::Slot;

/// Counts how many times a value was dropped.
struct DropCounter {
    drops: Rc<Cell<usize>>,
}

impl Drop for DropCounter {
    fn drop(&mut self) {
        self.drops.set(self.drops.get() + 1);
    }
}

#[test]
fn checked_round_trip_returns_the_value_once() {
    let mut c = checked_channel::Channel::new();
    assert_eq!(c.send(String::from("hello world")), Ok(()));
    assert_eq!(c.receive(), Ok(String::from("hello world")));
    assert_eq!(c.receive(), Err(ProtocolError::NothingSent));
}

#[test]
fn checked_second_send_is_rejected_and_keeps_first() {
    let mut c = checked_channel::Channel::new();
    assert_eq!(c.send(1u32), Ok(()));
    assert_eq!(c.send(2u32), Err(ProtocolError::AlreadySent));
    assert_eq!(c.receive(), Ok(1u32));
    assert_eq!(c.send(3u32), Err(ProtocolError::AlreadySent));
    assert_eq!(c.receive(), Err(ProtocolError::NothingSent));
}

#[test]
fn checked_receive_before_send_fails() {
    let mut c = checked_channel::Channel::<u64>::new();
    assert_eq!(c.receive(), Err(ProtocolError::NothingSent));
    assert!(!c.is_ready());
    assert_eq!(c.send(9), Ok(()));
    assert_eq!(c.receive(), Ok(9));
}

#[test]
fn checked_is_ready_follows_send_and_receive() {
    let mut c = checked_channel::Channel::new();
    assert!(!c.is_ready());
    assert_eq!(c.send('x'), Ok(()));
    assert!(c.is_ready());
    assert!(c.is_ready());
    assert_eq!(c.receive(), Ok('x'));
    assert!(!c.is_ready());
}

#[test]
fn teardown_after_send_drops_value_once() {
    let drops = Rc::new(Cell::new(0usize));
    {
        let mut c = checked_channel::Channel::new();
        assert_eq!(c.send(DropCounter { drops: drops.clone() }).is_ok(), true);
        assert_eq!(drops.get(), 0);
    }
    assert_eq!(drops.get(), 1);
}

#[test]
fn teardown_before_send_drops_nothing() {
    let drops = Rc::new(Cell::new(0usize));
    {
        let _c = checked_channel::Channel::<DropCounter>::new();
    }
    assert_eq!(drops.get(), 0);
    let mut b = borrowed_channel::Channel::<DropCounter>::new();
    let (_s, _r) = b.split();
    drop(b);
    assert_eq!(drops.get(), 0);
}

#[test]
fn teardown_after_receive_drops_only_the_received_value() {
    let drops = Rc::new(Cell::new(0usize));
    {
        let mut c = checked_channel::Channel::new();
        assert!(c.send(DropCounter { drops: drops.clone() }).is_ok());
        let v = c.receive();
        assert!(v.is_ok());
        assert_eq!(drops.get(), 0);
        drop(v);
        assert_eq!(drops.get(), 1);
    }
    assert_eq!(drops.get(), 1);
}

#[test]
fn split_drops_an_unreceived_value_once() {
    let drops = Rc::new(Cell::new(0usize));
    let mut b = borrowed_channel::Channel::new();
    let (s, _r) = b.split();
    s.send(&mut b, DropCounter { drops: drops.clone() });
    assert_eq!(drops.get(), 0);
    let (_s, _r) = b.split();
    assert_eq!(drops.get(), 1);
    drop(b);
    assert_eq!(drops.get(), 1);
}

#[test]
fn shared_hello_world_scenario() {
    let (mut c, sender, receiver) = shared_channel::channel();
    assert!(!receiver.is_ready(&c));
    sender.send(&mut c, "hello world");
    assert!(receiver.is_ready(&c));
    assert_eq!(receiver.receive(&mut c), Ok("hello world"));
    assert!(!receiver_of(&mut c).is_ready(&c));
}

/// A fresh round's receiver, to look at the channel after a round trip.
fn receiver_of<T>(c: &mut borrowed_channel::Channel<T>) -> borrowed_channel::Receiver<T> {
    c.split().1
}

#[test]
fn shared_receive_before_send_fails() {
    let (mut c, sender, receiver) = shared_channel::channel::<u8>();
    assert_eq!(receiver.receive(&mut c), Err(ProtocolError::NothingSent));
    sender.send(&mut c, 4);
}

#[test]
fn borrowed_second_round_is_fresh() {
    let mut b = borrowed_channel::Channel::new();
    let (s, r) = b.split();
    s.send(&mut b, String::from("round one"));
    assert_eq!(r.receive(&mut b), Ok(String::from("round one")));
    let (s, r) = b.split();
    assert!(!r.is_ready(&b));
    s.send(&mut b, String::from("round two"));
    assert!(r.is_ready(&b));
    assert_eq!(r.receive(&mut b), Ok(String::from("round two")));
}

#[test]
fn borrowed_split_discards_unreceived_value() {
    let mut b = borrowed_channel::Channel::new();
    let (s, _r) = b.split();
    s.send(&mut b, 11u32);
    let (_s, r) = b.split();
    assert!(!r.is_ready(&b));
    assert_eq!(r.receive(&mut b), Err(ProtocolError::NothingSent));
}

#[test]
fn parked_receiver_waiting_before_send_gets_value() {
    let mut p = parked_channel::Channel::new();
    let (s, r) = p.split();
    let r = match r.receive(&mut p) {
        Ok(_) => panic!("a value before the send"),
        Err(back) => back,
    };
    assert!(!r.take_wake(&mut p));
    assert!(!r.is_ready(&p));
    s.send(&mut p, "hello world!");
    assert!(r.is_ready(&p));
    assert!(r.take_wake(&mut p));
    assert!(!r.take_wake(&mut p));
    match r.receive(&mut p) {
        Ok(v) => assert_eq!(v, "hello world!"),
        Err(_) => panic!("the value was lost"),
    }
}

#[test]
fn parked_send_before_receive_gets_value() {
    let mut p = parked_channel::Channel::new();
    let (s, r) = p.split();
    s.send(&mut p, 42i64);
    match r.receive(&mut p) {
        Ok(v) => assert_eq!(v, 42),
        Err(_) => panic!("the value was lost"),
    }
}

#[test]
fn parked_new_round_clears_wake_and_value() {
    let mut p = parked_channel::Channel::new();
    let (s, _r) = p.split();
    s.send(&mut p, 1u8);
    let (_s, r) = p.split();
    assert!(!r.is_ready(&p));
    assert!(!r.take_wake(&mut p));
    assert!(r.receive(&mut p).is_err());
}

#[test]
fn slot_lifecycle() {
    let mut s = Slot::new();
    assert!(!s.is_written());
    s.write(vec![1u8, 2, 3]);
    assert!(s.is_written());
    assert_eq!(s.read(), vec![1u8, 2, 3]);
    assert!(!s.is_written());
    assert!(matches!(s, Slot::Consumed));
}
