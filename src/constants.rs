use vstd::prelude::*;

verus! {

/// Seconds between two heartbeat probes.
pub const HEARTBEAT_FREQ: u64 = 5;

/// Milliseconds to wait before each reconnect attempt to the broker.
pub const RECONNECT_DELAY_MS: u64 = 1000;

/// Quality of service of the request subscriptions.
pub const QOS: i32 = 1;

/// Quality of service of battery-info replies.
pub const BATTERY_INFO_QOS: i32 = 0;

/// Number of register reads that make up a battery-info document.
pub const BATTERY_COMMANDS: usize = 7;

/// Topic on which battery-info requests arrive.
pub open spec fn topic_battery_info_req() -> Seq<char> {
    seq!['e', 'x', 'i', 's', 't', 'a', '/', 'b', 'a', 't', 't', 'e', 'r', 'y', '/', 'r', 'e', 'q']
}

/// Topic on which device-info requests arrive.
pub open spec fn topic_device_info() -> Seq<char> {
    seq!['e', 'x', 'i', 's', 't', 'a', '/', 'd', 'e', 'v', 'i', 'c', 'e']
}

/// Topic on which battery-info replies are published.
pub open spec fn topic_battery_info_rep() -> Seq<char> {
    seq!['e', 'x', 'i', 's', 't', 'a', '/', 'b', 'a', 't', 't', 'e', 'r', 'y', '/', 'r', 'e', 'p']
}

pub fn topic_battery_info_req_str() -> (r: &'static str)
    ensures
        r@ == topic_battery_info_req(),
{
    proof {
        reveal_strlit("exista/battery/req");
    }
    "exista/battery/req"
}

pub fn topic_device_info_str() -> (r: &'static str)
    ensures
        r@ == topic_device_info(),
{
    proof {
        reveal_strlit("exista/device");
    }
    "exista/device"
}

pub fn topic_battery_info_rep_str() -> (r: &'static str)
    ensures
        r@ == topic_battery_info_rep(),
{
    proof {
        reveal_strlit("exista/battery/rep");
    }
    "exista/battery/rep"
}

/// The register read behind each position of a battery-info document:
/// 0 DC status, 1 battery status, 2 voltage, 3 current, 4 state of charge,
/// 5 state of health, 6 backup time left. Each is a Modbus RTU read of one
/// holding register of unit 1, with its CRC.
pub open spec fn battery_command(i: int) -> Seq<u8> {
    if i == 0 {
        seq![0x01u8, 0x03, 0x00, 0x10, 0x00, 0x01, 0x85, 0xcf]
    } else if i == 1 {
        seq![0x01u8, 0x03, 0x00, 0x11, 0x00, 0x01, 0xd4, 0x0f]
    } else if i == 2 {
        seq![0x01u8, 0x03, 0x00, 0x12, 0x00, 0x01, 0x24, 0x0f]
    } else if i == 3 {
        seq![0x01u8, 0x03, 0x00, 0x13, 0x00, 0x01, 0x75, 0xcf]
    } else if i == 4 {
        seq![0x01u8, 0x03, 0x00, 0x14, 0x00, 0x01, 0xc4, 0x0e]
    } else if i == 5 {
        seq![0x01u8, 0x03, 0x00, 0x15, 0x00, 0x01, 0x95, 0xce]
    } else {
        seq![0x01u8, 0x03, 0x00, 0x16, 0x00, 0x01, 0x65, 0xce]
    }
}

/// The heartbeat probe: a read of holding register 0 of unit 1.
pub open spec fn heartbeat_command() -> Seq<u8> {
    seq![0x01u8, 0x03, 0x00, 0x00, 0x00, 0x01, 0x84, 0x0a]
}

pub fn heartbeat_bytes() -> (r: Vec<u8>)
    ensures
        r@ == heartbeat_command(),
{
    let r: Vec<u8> = vec![0x01u8, 0x03, 0x00, 0x00, 0x00, 0x01, 0x84, 0x0a];
    assert(r@ =~= heartbeat_command());
    r
}

pub fn battery_command_bytes(i: usize) -> (r: Vec<u8>)
    requires
        i < BATTERY_COMMANDS,
    ensures
        r@ == battery_command(i as int),
{
    let r: Vec<u8> = if i == 0 {
        vec![0x01u8, 0x03, 0x00, 0x10, 0x00, 0x01, 0x85, 0xcf]
    } else if i == 1 {
        vec![0x01u8, 0x03, 0x00, 0x11, 0x00, 0x01, 0xd4, 0x0f]
    } else if i == 2 {
        vec![0x01u8, 0x03, 0x00, 0x12, 0x00, 0x01, 0x24, 0x0f]
    } else if i == 3 {
        vec![0x01u8, 0x03, 0x00, 0x13, 0x00, 0x01, 0x75, 0xcf]
    } else if i == 4 {
        vec![0x01u8, 0x03, 0x00, 0x14, 0x00, 0x01, 0xc4, 0x0e]
    } else if i == 5 {
        vec![0x01u8, 0x03, 0x00, 0x15, 0x00, 0x01, 0x95, 0xce]
    } else {
        vec![0x01u8, 0x03, 0x00, 0x16, 0x00, 0x01, 0x65, 0xce]
    };
    assert(r@ =~= battery_command(i as int));
    r
}

} // verus!
