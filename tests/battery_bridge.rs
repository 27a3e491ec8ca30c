use exista_lib::battery_info::{BatteryInfo, InsertError};
use exista_lib::bridge::{subscriptions, BridgeAction, BridgeState, Callbacks, MqttEvent};
use exista_lib::constants::QOS;
use exista_lib::frame::{FrameKind, ModbusMsg, Reading};
use exista_lib::link::{LinkError, Modbus};
use exista_lib::services::heartbeat;

const EMPTY_DOC: &str = "{\"serialNumber\":null,\"batteryInfo\":{\"comStatus\":null,\"dcStatus\":null,\"batteryStatus\":null,\"batteryVoltage\":null,\"batteryCurrent\":null,\"soc\":null,\"soh\":null,\"timeLeft\":null}}";

fn register_reply(value: u16) -> ModbusMsg {
    let bytes = [0x01u8, 0x03, 0x02, (value >> 8) as u8, (value & 0xff) as u8, 0x00, 0x00];
    ModbusMsg::from(&bytes, bytes.len(), FrameKind::Reply)
}

fn connected_bus() -> Modbus {
    let mut bus = Modbus::new();
    heartbeat(&mut bus, &Ok(register_reply(0)));
    bus
}

fn good_replies() -> Vec<Result<ModbusMsg, LinkError>> {
    [1u16, 2, 532, 12, 650, 987, 3600].iter().map(|v| Ok(register_reply(*v))).collect()
}

#[test]
fn new_document_is_all_null() {
    let info = BatteryInfo::new();
    assert_eq!(info.serialize(), EMPTY_DOC);
    assert_eq!(info.topic(), "exista/battery/rep");
    assert_eq!(info.qos(), 0);
    assert!(!info.bat_ic_low());
}

#[test]
fn request_list_is_seven_fixed_reads() {
    let info = BatteryInfo::new();
    let list = info.requests_list();
    assert_eq!(list.len(), 7);
    assert_eq!(list[0].data().as_slice(), &[0x01, 0x03, 0x00, 0x10, 0x00, 0x01, 0x85, 0xcf]);
    assert_eq!(list[4].data().as_slice(), &[0x01, 0x03, 0x00, 0x14, 0x00, 0x01, 0xc4, 0x0e]);
    assert_eq!(list[6].data().as_slice(), &[0x01, 0x03, 0x00, 0x16, 0x00, 0x01, 0x65, 0xce]);
    for msg in list {
        assert!(!msg.is_event());
    }
}

#[test]
fn decode_uses_percent_rule_for_charge_and_health() {
    let msg = register_reply(650);
    assert_eq!(BatteryInfo::decode(&msg, 4), Some(Reading::PercentTenths(650)));
    assert_eq!(BatteryInfo::decode(&msg, 5), Some(Reading::PercentTenths(650)));
    for i in [0usize, 1, 2, 3, 6] {
        assert_eq!(BatteryInfo::decode(&msg, i), Some(Reading::Value(650)));
    }
}

#[test]
fn decode_reads_big_endian_register() {
    let bytes = [0x01u8, 0x03, 0x02, 0x0d, 0x2a];
    let msg = ModbusMsg::from(&bytes, bytes.len(), FrameKind::Reply);
    assert_eq!(ModbusMsg::registers_value(msg.data()), Some(Reading::Value(3370)));
    assert_eq!(ModbusMsg::registers_value_percent(msg.data()), Some(Reading::PercentTenths(3370)));
}

#[test]
fn decode_short_reply_is_none() {
    let bytes = [0x01u8, 0x03, 0x02, 0x0d];
    let msg = ModbusMsg::from(&bytes, bytes.len(), FrameKind::Reply);
    assert_eq!(BatteryInfo::decode(&msg, 4), None);
    assert_eq!(BatteryInfo::decode(&msg, 0), None);
}

#[test]
fn insert_data_fills_every_field() {
    let mut info = BatteryInfo::new();
    let bus = connected_bus();
    assert_eq!(info.insert_data("SN-42", &bus, &good_replies()), Ok(()));
    assert_eq!(
        info.serialize(),
        "{\"serialNumber\":\"SN-42\",\"batteryInfo\":{\"comStatus\":\"connected\",\"dcStatus\":1,\"batteryStatus\":2,\"batteryVoltage\":532,\"batteryCurrent\":12,\"soc\":65.0,\"soh\":98.7,\"timeLeft\":3600}}"
    );
    assert!(!info.serialize().contains("null"));
}

#[test]
fn serial_number_is_escaped_as_json_string() {
    let mut info = BatteryInfo::new();
    let bus = Modbus::new();
    assert_eq!(info.insert_data("a\"b", &bus, &good_replies()), Ok(()));
    let text = info.serialize();
    assert!(text.starts_with("{\"serialNumber\":\"a\\\"b\",\"batteryInfo\":{\"comStatus\":\"disconnected\","));
}

#[test]
fn parse_modbus_data_decodes_by_position() {
    let info = BatteryInfo::new();
    let raw: Vec<ModbusMsg> = [10u16, 20, 30, 40, 50, 60, 70].iter().map(|v| register_reply(*v)).collect();
    let parsed = info.parse_modbus_data(&raw);
    assert_eq!(
        parsed,
        vec![
            Some(Reading::Value(10)),
            Some(Reading::Value(20)),
            Some(Reading::Value(30)),
            Some(Reading::Value(40)),
            Some(Reading::PercentTenths(50)),
            Some(Reading::PercentTenths(60)),
            Some(Reading::Value(70)),
        ]
    );
}

#[test]
fn failed_exchange_leaves_document_unchanged() {
    for k in 0..7usize {
        let mut info = BatteryInfo::new();
        let bus = connected_bus();
        assert_eq!(info.insert_data("first", &bus, &good_replies()), Ok(()));
        let before = info.serialize();
        let mut replies = good_replies();
        replies.truncate(k);
        replies.push(Err(LinkError::NoReply));
        assert_eq!(info.insert_data("second", &bus, &replies), Err(InsertError::Exchange(k, LinkError::NoReply)));
        assert_eq!(info.serialize(), before);
    }
}

#[test]
fn failed_exchange_on_empty_document() {
    let mut info = BatteryInfo::new();
    let bus = connected_bus();
    let mut replies = good_replies();
    replies[3] = Err(LinkError::BadFrame);
    assert_eq!(info.insert_data("x", &bus, &replies), Err(InsertError::Exchange(3, LinkError::BadFrame)));
    assert_eq!(info.serialize(), EMPTY_DOC);
}

#[test]
fn missing_reply_is_reported() {
    let mut info = BatteryInfo::new();
    let bus = connected_bus();
    let mut replies = good_replies();
    replies.truncate(5);
    assert_eq!(info.insert_data("x", &bus, &replies), Err(InsertError::MissingReply(5)));
    assert_eq!(info.serialize(), EMPTY_DOC);
}

#[test]
fn short_reply_fails_build_and_keeps_document() {
    let mut info = BatteryInfo::new();
    let bus = connected_bus();
    let mut replies = good_replies();
    replies[6] = Ok(ModbusMsg::from(&[1u8, 3], 2, FrameKind::Reply));
    assert_eq!(info.insert_data("S", &bus, &replies), Err(InsertError::NoRegister(6)));
    assert_eq!(info.serialize(), EMPTY_DOC);
}

#[test]
fn parse_modbus_data_keeps_every_reply() {
    let info = BatteryInfo::new();
    let raw: Vec<ModbusMsg> = [1u16, 2, 3, 4, 5, 6, 7, 8].iter().map(|v| register_reply(*v)).collect();
    let parsed = info.parse_modbus_data(&raw);
    assert_eq!(parsed.len(), 8);
    assert_eq!(parsed[7], Some(Reading::Value(8)));
    let short: Vec<ModbusMsg> = [9u16, 10].iter().map(|v| register_reply(*v)).collect();
    assert_eq!(info.parse_modbus_data(&short), vec![Some(Reading::Value(9)), Some(Reading::Value(10))]);
    assert!(info.parse_modbus_data(&Vec::new()).is_empty());
}

#[test]
fn reconnect_then_subscribe_once() {
    let mut bridge = Callbacks::new();
    assert_eq!(bridge.state(), BridgeState::Disconnected);
    assert_eq!(bridge.on_connect_success(), BridgeAction::Subscribe);
    assert_eq!(bridge.state(), BridgeState::Connected);
    let events = vec![MqttEvent::ConnectionLost, MqttEvent::ConnectFailure(5), MqttEvent::ConnectSuccess];
    let actions = bridge.run(&events);
    assert_eq!(
        actions,
        vec![
            BridgeAction::Reconnect { delay_ms: 1000 },
            BridgeAction::Reconnect { delay_ms: 1000 },
            BridgeAction::Subscribe,
        ]
    );
    assert_eq!(actions.iter().filter(|a| **a == BridgeAction::Subscribe).count(), 1);
    assert_eq!(bridge.state(), BridgeState::Connected);
}

#[test]
fn lost_and_failed_states() {
    let mut bridge = Callbacks::new();
    bridge.on_connect_success();
    assert_eq!(bridge.connection_lost(), BridgeAction::Reconnect { delay_ms: 1000 });
    assert_eq!(bridge.state(), BridgeState::ReconnectPending);
    assert_eq!(bridge.on_connect_failure(-1), BridgeAction::Reconnect { delay_ms: 1000 });
    assert_eq!(bridge.state(), BridgeState::ReconnectPending);
    assert_eq!(bridge.connected(), BridgeAction::Continue);
    assert_eq!(bridge.state(), BridgeState::ReconnectPending);
}

#[test]
fn message_failure_exits() {
    let mut bridge = Callbacks::new();
    assert_eq!(bridge.message_callback(true), BridgeAction::Continue);
    assert_eq!(bridge.message_callback(false), BridgeAction::Exit { code: 1 });
    assert_eq!(bridge.state(), BridgeState::Disconnected);
}

#[test]
fn subscription_topic_set() {
    let (topics, qos) = subscriptions();
    assert_eq!(topics, vec!["exista/battery/req".to_string(), "exista/device".to_string()]);
    assert_eq!(qos, vec![QOS, QOS]);
}
