use exista_lib::frame::{FrameKind, ModbusMsg};
use exista_lib::link::{ComStatus, LinkError, Modbus};
use exista_lib::requests::{Request, RequestsStack};
use exista_lib::services::{heartbeat, heartbeat_msg, listener, Job, ListenerOutcome, Service};

fn reply(bytes: &[u8]) -> ModbusMsg {
    ModbusMsg::from(bytes, bytes.len(), FrameKind::Reply)
}

fn event(bytes: &[u8]) -> ModbusMsg {
    ModbusMsg::from(bytes, bytes.len(), FrameKind::Event)
}

#[test]
fn new_link_is_disconnected() {
    let bus = Modbus::new();
    assert_eq!(bus.get_status(), ComStatus::Disconnected);
}

#[test]
fn status_follows_most_recent_probe() {
    let mut bus = Modbus::new();
    let outcomes = [true, true, false, true, false, false, true];
    for ok in outcomes {
        let probe: Result<ModbusMsg, LinkError> = if ok {
            Ok(reply(&[1, 3, 2, 0, 1]))
        } else {
            Err(LinkError::NoReply)
        };
        heartbeat(&mut bus, &probe);
        let expected = if ok { ComStatus::Connected } else { ComStatus::Disconnected };
        assert_eq!(bus.get_status(), expected);
    }
}

#[test]
fn single_failure_after_success_disconnects() {
    let mut bus = Modbus::new();
    heartbeat(&mut bus, &Ok(reply(&[1])));
    assert_eq!(bus.get_status(), ComStatus::Connected);
    heartbeat(&mut bus, &Err(LinkError::Port));
    assert_eq!(bus.get_status(), ComStatus::Disconnected);
}

#[test]
fn status_names() {
    assert_eq!(ComStatus::Connected.name(), "connected");
    assert_eq!(ComStatus::Disconnected.name(), "disconnected");
}

#[test]
fn heartbeat_probe_bytes() {
    let msg = heartbeat_msg();
    assert_eq!(msg.data().as_slice(), &[0x01, 0x03, 0x00, 0x00, 0x00, 0x01, 0x84, 0x0a]);
    assert!(!msg.is_event());
}

#[test]
fn service_list_is_heartbeat_then_listener() {
    let list = Service::new_list();
    assert_eq!(list.len(), 2);
    assert_eq!(list[0].job(), Job::Heartbeat);
    assert_eq!(list[1].job(), Job::Listener);
    assert_eq!(Service::new(Job::Listener).job(), Job::Listener);
}

#[test]
fn listener_queues_event_frame_unchanged() {
    let mut queue = RequestsStack::new();
    let bytes = [0x01u8, 0x41, 0x02, 0x00, 0x07, 0xaa, 0x55];
    let outcome = listener(Ok(event(&bytes)), &mut queue);
    assert_eq!(outcome, ListenerOutcome::Queued);
    assert_eq!(queue.len(), 1);
    let items = queue.drain();
    assert_eq!(items.len(), 1);
    match &items[0] {
        Request::DeviceEvent(msg) => {
            assert_eq!(msg.data().as_slice(), &bytes);
            assert!(msg.is_event());
        }
    }
    assert_eq!(queue.len(), 0);
}

#[test]
fn listener_discards_reply_frame() {
    let mut queue = RequestsStack::new();
    let outcome = listener(Ok(reply(&[1, 3, 2, 0, 5])), &mut queue);
    assert_eq!(outcome, ListenerOutcome::Discarded);
    assert_eq!(queue.len(), 0);
}

#[test]
fn listener_read_failure_leaves_queue() {
    let mut queue = RequestsStack::new();
    queue.push(Request::battery_event(event(&[9])));
    let outcome = listener(Err(LinkError::BadFrame), &mut queue);
    assert_eq!(outcome, ListenerOutcome::ReadFailed);
    assert_eq!(queue.len(), 1);
}

#[test]
fn pushes_from_many_producers_are_all_kept_in_order() {
    let mut queue = RequestsStack::new();
    let producers: u8 = 8;
    for p in 0..producers {
        queue.push(Request::battery_event(event(&[p, p.wrapping_mul(3)])));
    }
    assert_eq!(queue.len(), producers as usize);
    let items = queue.drain();
    assert_eq!(items.len(), producers as usize);
    for (i, item) in items.iter().enumerate() {
        match item {
            Request::DeviceEvent(msg) => {
                assert_eq!(msg.data()[0], i as u8);
            }
        }
    }
}

#[test]
fn pop_takes_oldest_first() {
    let mut queue = RequestsStack::new();
    assert!(queue.pop().is_none());
    queue.push(Request::battery_event(event(&[1])));
    queue.push(Request::battery_event(event(&[2])));
    match queue.pop() {
        Some(Request::DeviceEvent(msg)) => assert_eq!(msg.data().as_slice(), &[1]),
        None => panic!("queue should not be empty"),
    }
    assert_eq!(queue.len(), 1);
}

#[test]
fn frame_from_takes_prefix() {
    let buf = [5u8, 6, 7, 8, 0, 0, 0, 0];
    let msg = ModbusMsg::from(&buf, 4, FrameKind::Event);
    assert_eq!(msg.len(), 4);
    assert_eq!(msg.data().as_slice(), &[5, 6, 7, 8]);
    assert_eq!(msg.kind(), FrameKind::Event);
}


#[test]
fn listener_cycles_queue_every_event_once() {
    let mut queue = RequestsStack::new();
    let frames: Vec<Vec<u8>> = (0u8..12).map(|i| vec![0x01, 0x41, i, i ^ 0x5a]).collect();
    for f in &frames {
        assert_eq!(listener(Ok(event(f)), &mut queue), ListenerOutcome::Queued);
    }
    let items = queue.drain();
    assert_eq!(items.len(), frames.len());
    for (item, f) in items.iter().zip(frames.iter()) {
        match item {
            Request::DeviceEvent(msg) => assert_eq!(msg.data(), f),
        }
    }
}
