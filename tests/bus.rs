use virtual_circus::{
    manager_step, ManagerAction, Message, MessageBox, MessageBus, MessageData, Polled,
};

type Msg = Message<u8, u16, u32>;

fn is_request_asset(m: &Option<Msg>, path: &str) -> bool {
    matches!(m, Some(Message::RequestAsset(p)) if p == path)
}

#[test]
fn posted_message_reaches_every_system() {
    let mut bus: MessageBus<u8, u16, u32> = MessageBus::new();
    let mut sender_box = bus.get_message_box();
    let mut a = bus.get_message_box();
    let mut b = bus.get_message_box();
    assert!(sender_box.post_message(Message::RequestAsset(String::from("scene.ast"))));
    let posted = bus.receiver().try_recv().unwrap();
    assert_eq!(bus.broadcast(&posted), 0);
    assert!(is_request_asset(&a.check_messages(), "scene.ast"));
    assert!(is_request_asset(&b.check_messages(), "scene.ast"));
    assert!(a.check_messages().is_none());
    assert!(!a.should_close());
}

#[test]
fn stop_closes_box_without_delivery() {
    let mut bus: MessageBus<u8, u16, u32> = MessageBus::new();
    let mut a = bus.get_message_box();
    assert_eq!(bus.broadcast(&Message::Stop), 0);
    assert!(a.check_messages().is_none());
    assert!(a.should_close());
}

#[test]
fn gone_bus_closes_box() {
    let mut bus: MessageBus<u8, u16, u32> = MessageBus::new();
    let mut a: MessageBox<u8, u16, u32> = bus.get_message_box();
    drop(bus);
    assert!(a.check_messages().is_none());
    assert!(a.should_close());
}

#[test]
fn broadcast_counts_gone_systems() {
    let mut bus: MessageBus<u8, u16, u32> = MessageBus::new();
    let a = bus.get_message_box();
    let _b = bus.get_message_box();
    drop(a);
    assert_eq!(bus.broadcast(&Message::RequestWindowResources), 1);
}

#[test]
fn closed_box_stays_closed() {
    let mut bus: MessageBus<u8, u16, u32> = MessageBus::new();
    let mut a = bus.get_message_box();
    assert!(a.on_message(Polled::Item(Message::Stop)).is_none());
    assert!(a.should_close());
    assert!(a.on_message(Polled::Empty).is_none());
    let delivered = a.on_message(Polled::Item(Message::ModelReady(MessageData::new(5u16))));
    assert!(a.should_close());
    match delivered {
        Some(Message::ModelReady(d)) => assert_eq!(d.take(), Some(5)),
        _ => panic!("model message not delivered"),
    }
    drop(bus);
}

#[test]
fn payload_shared_by_broadcast_copies() {
    let mut bus: MessageBus<u8, u16, u32> = MessageBus::new();
    let mut a = bus.get_message_box();
    let mut b = bus.get_message_box();
    assert_eq!(bus.broadcast(&Message::SceneReady(MessageData::new(77u32))), 0);
    let first = match a.check_messages() {
        Some(Message::SceneReady(d)) => d.take(),
        _ => None,
    };
    let second = match b.check_messages() {
        Some(Message::SceneReady(d)) => d.take(),
        _ => None,
    };
    assert_eq!(first, Some(77));
    assert_eq!(second, None);
}

#[test]
fn route_forwards_then_stops_after_stop() {
    let mut bus: MessageBus<u8, u16, u32> = MessageBus::new();
    let mut a = bus.get_message_box();
    let mut b = bus.get_message_box();
    assert_eq!(bus.route(Some(Message::RequestAsset(String::from("a.ast")))), (true, 0));
    assert_eq!(bus.route(Some(Message::Stop)), (false, 0));
    assert!(is_request_asset(&a.check_messages(), "a.ast"));
    assert!(is_request_asset(&b.check_messages(), "a.ast"));
    assert!(a.check_messages().is_none());
    assert!(a.should_close());
    assert!(b.check_messages().is_none());
    assert!(b.should_close());
}

#[test]
fn route_ends_when_bus_closed() {
    let mut bus: MessageBus<u8, u16, u32> = MessageBus::new();
    let mut a = bus.get_message_box();
    assert_eq!(bus.route(None), (false, 0));
    assert!(a.check_messages().is_none());
    assert!(!a.should_close());
}

#[test]
fn route_counts_gone_systems() {
    let mut bus: MessageBus<u8, u16, u32> = MessageBus::new();
    let a = bus.get_message_box();
    let _b = bus.get_message_box();
    drop(a);
    assert_eq!(bus.route(Some(Message::RequestWindowResources)), (true, 1));
}

#[test]
fn manager_stops_when_deallocations_closed() {
    let step = manager_step::<u8, u16, u32>(true, Some(Message::RequestAsset(String::from("x"))));
    assert!(matches!(step, ManagerAction::StopAll));
}

#[test]
fn manager_loads_requested_asset() {
    let step = manager_step::<u8, u16, u32>(false, Some(Message::RequestAsset(String::from("x.ast"))));
    assert!(matches!(step, ManagerAction::LoadAsset(p) if p == "x.ast"));
}

#[test]
fn manager_prepares_window_resources() {
    let step = manager_step::<u8, u16, u32>(false, Some(Message::RequestWindowResources));
    assert!(matches!(step, ManagerAction::PrepareWindowResources));
}

#[test]
fn manager_ignores_other_messages() {
    assert!(matches!(manager_step::<u8, u16, u32>(false, None), ManagerAction::Idle));
    let other = manager_step::<u8, u16, u32>(false, Some(Message::ModelReady(MessageData::new(3u16))));
    assert!(matches!(other, ManagerAction::Idle));
}
