use std::sync::mpsc::channel;
use virtual_circus::{
    absorb, take_outcome, MessageData, Polled, RequestError, RequestPart, ResourceRequest, SlotTake,
};

#[test]
fn polling_before_send_is_not_ready_and_harmless() {
    let (bs, br) = channel::<Vec<u32>>();
    let (is, ir) = channel::<Vec<u8>>();
    let mut request = ResourceRequest::new(br, ir);
    for _ in 0..5 {
        assert_eq!(request.can_be_finalized(), Err(RequestError::NotReady));
    }
    bs.send(vec![1, 2]).unwrap();
    assert_eq!(request.can_be_finalized(), Err(RequestError::NotReady));
    is.send(vec![9]).unwrap();
    assert_eq!(request.can_be_finalized(), Ok(()));
    assert_eq!(request.can_be_finalized(), Ok(()));
    drop(bs);
    drop(is);
    assert_eq!(request.can_be_finalized(), Ok(()));
    assert_eq!(request.finalize(), Ok((vec![1, 2], vec![9])));
}

#[test]
fn finalize_before_ready_fails() {
    let (bs, br) = channel::<u32>();
    let (_is, ir) = channel::<u32>();
    let mut request = ResourceRequest::new(br, ir);
    bs.send(3).unwrap();
    assert_eq!(request.can_be_finalized(), Err(RequestError::NotReady));
    assert_eq!(request.finalize(), Err(RequestError::NotReady));
}

#[test]
fn producer_gone_is_reported_as_failure() {
    let (bs, br) = channel::<u32>();
    let (is, ir) = channel::<u32>();
    drop(bs);
    let mut request = ResourceRequest::new(br, ir);
    assert_eq!(request.can_be_finalized(), Err(RequestError::Disconnected(RequestPart::Buffers)));
    drop(is);
    let (bs2, br2) = channel::<u32>();
    let (is2, ir2) = channel::<u32>();
    bs2.send(1).unwrap();
    drop(is2);
    let mut second = ResourceRequest::new(br2, ir2);
    assert_eq!(second.can_be_finalized(), Err(RequestError::Disconnected(RequestPart::Images)));
}

#[test]
fn absorb_stores_exactly_what_arrived() {
    let mut slot: Option<u32> = None;
    assert_eq!(absorb(&mut slot, Polled::Empty, RequestPart::Images), Err(RequestError::NotReady));
    assert_eq!(slot, None);
    assert_eq!(absorb(&mut slot, Polled::Item(5), RequestPart::Images), Ok(()));
    assert_eq!(slot, Some(5));
    let mut other: Option<u32> = None;
    assert_eq!(
        absorb(&mut other, Polled::Disconnected, RequestPart::Buffers),
        Err(RequestError::Disconnected(RequestPart::Buffers))
    );
}

#[test]
fn payload_is_taken_at_most_once() {
    let message = MessageData::new(String::from("model"));
    let copy = message.clone();
    let third = message.clone();
    assert_eq!(message.take(), Some(String::from("model")));
    assert_eq!(copy.take(), None);
    assert_eq!(third.take(), None);
}

#[test]
fn payload_taken_once_among_many_subscribers() {
    let message = MessageData::new(42u32);
    let subscribers: Vec<MessageData<u32>> = (0..8).map(|_| message.clone()).collect();
    drop(message);
    let got: Vec<Option<u32>> = subscribers.into_iter().map(|m| m.take()).collect();
    assert_eq!(got[0], Some(42));
    assert_eq!(got.iter().filter(|g| g.is_some()).count(), 1);
}

#[test]
fn fresh_payload_take_returns_value() {
    let m = MessageData::new(42u32);
    assert_eq!(m.take(), Some(42));
}

#[test]
fn contended_or_empty_slot_gives_nothing() {
    assert_eq!(take_outcome(SlotTake::<u32>::Busy), None);
    assert_eq!(take_outcome(SlotTake::<u32>::Poisoned), None);
    assert_eq!(take_outcome(SlotTake::<u32>::Empty), None);
    assert_eq!(take_outcome(SlotTake::Taken(9u32)), Some(9));
}
