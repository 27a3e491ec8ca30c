use vstd::prelude::*;

use crate::constants::{
    battery_command, battery_command_bytes, topic_battery_info_rep, topic_battery_info_rep_str,
    BATTERY_COMMANDS, BATTERY_INFO_QOS,
};
use crate::document::{doc_text, empty_doc, BatteryDoc, DocView, READINGS};
use crate::frame::{percent_value, plain_value, register_of, FrameKind, ModbusMsg, Reading};
use crate::link::{ComStatus, LinkError, Modbus};

verus! {

/// Why a battery-info document could not be built.
#[derive(Clone, Copy, Debug, PartialEq, Eq, Structural)]
pub enum InsertError {
    /// The exchange for the command at this position failed.
    Exchange(usize, LinkError),
    /// No reply was given for the command at this position.
    MissingReply(usize),
    /// The reply at this position came back but holds no register.
    NoRegister(usize),
}

/// How the reply at position `i` is read: state of charge and state of
/// health under the percent rule, every other position as a plain value.
pub open spec fn decode_rule(data: Seq<u8>, i: int) -> Option<Reading> {
    if i == 4 || i == 5 {
        percent_value(data)
    } else {
        plain_value(data)
    }
}

/// The readings decoded from replies, each by the rule of its position.
pub open spec fn decoded(replies: Seq<ModbusMsg>) -> Seq<Option<Reading>> {
    Seq::new(replies.len(), |i: int| decode_rule(replies[i].bytes(), i))
}

/// The first position, from `i` on, whose exchange failed, has no reply, or
/// whose reply holds no register.
pub open spec fn first_failure(replies: Seq<Result<ModbusMsg, LinkError>>, i: int) -> Option<InsertError>
    decreases READINGS - i,
{
    if i < 0 || i >= READINGS {
        None
    } else if i >= replies.len() {
        Some(InsertError::MissingReply(i as usize))
    } else {
        match replies[i] {
            Err(e) => Some(InsertError::Exchange(i as usize, e)),
            Ok(m) => if register_of(m.bytes()) is None {
                Some(InsertError::NoRegister(i as usize))
            } else {
                first_failure(replies, i + 1)
            },
        }
    }
}

/// The reply messages of a run of exchanges that all succeeded.
pub open spec fn reply_msgs(replies: Seq<Result<ModbusMsg, LinkError>>) -> Seq<ModbusMsg> {
    replies.map_values(|r: Result<ModbusMsg, LinkError>| r->Ok_0)
}

/// A battery-info request: the document, the reads that fill it, and where
/// it is published.
pub struct BatteryInfo {
    json: BatteryDoc,
    modbus_requests: Vec<ModbusMsg>,
    publish_topic: String,
    qos: i32,
}

impl BatteryInfo {
    pub closed spec fn doc(&self) -> DocView {
        self.json@
    }

    pub closed spec fn commands(&self) -> Seq<ModbusMsg> {
        self.modbus_requests@
    }

    pub closed spec fn topic_spec(&self) -> Seq<char> {
        self.publish_topic@
    }

    pub closed spec fn qos_spec(&self) -> i32 {
        self.qos
    }

    pub closed spec fn wf(&self) -> bool {
        &&& self.json.wf()
        &&& self.modbus_requests@.len() == BATTERY_COMMANDS
        &&& forall|i: int|
            0 <= i < BATTERY_COMMANDS ==> (#[trigger] self.modbus_requests@[i]).bytes() == battery_command(i)
        &&& forall|i: int|
            0 <= i < BATTERY_COMMANDS ==> (#[trigger] self.modbus_requests@[i]).kind_spec() == FrameKind::Reply
    }

    /// A request with every document field null, the seven fixed reads, the
    /// battery-info reply topic and QoS 0.
    pub fn new() -> (r: Self)
        ensures
            r.wf(),
            r.doc() == empty_doc(),
            r.commands().len() == BATTERY_COMMANDS,
            forall|i: int| 0 <= i < BATTERY_COMMANDS ==> (#[trigger] r.commands()[i]).bytes() == battery_command(i),
            forall|i: int| 0 <= i < BATTERY_COMMANDS ==> (#[trigger] r.commands()[i]).kind_spec() == FrameKind::Reply,
            r.topic_spec() == topic_battery_info_rep(),
            r.qos_spec() == BATTERY_INFO_QOS,
    {
        BatteryInfo {
            json: Self::build_json(),
            modbus_requests: Self::build_request_list(),
            publish_topic: String::from_str(topic_battery_info_rep_str()),
            qos: BATTERY_INFO_QOS,
        }
    }

    pub fn json(&self) -> (r: &BatteryDoc)
        ensures
            r@ == self.doc(),
    {
        &self.json
    }

    /// The reads to issue, in order.
    pub fn requests_list(&self) -> (r: &Vec<ModbusMsg>)
        ensures
            r@ == self.commands(),
    {
        &self.modbus_requests
    }

    /// The seven fixed reads: DC status, battery status, voltage, current,
    /// state of charge, state of health, backup time left.
    pub fn build_request_list() -> (r: Vec<ModbusMsg>)
        ensures
            r@.len() == BATTERY_COMMANDS,
            forall|i: int| 0 <= i < BATTERY_COMMANDS ==> (#[trigger] r@[i]).bytes() == battery_command(i),
            forall|i: int| 0 <= i < BATTERY_COMMANDS ==> (#[trigger] r@[i]).kind_spec() == FrameKind::Reply,
    {
        let mut list: Vec<ModbusMsg> = Vec::new();
        let mut i: usize = 0;
        while i < BATTERY_COMMANDS
            invariant
                i <= BATTERY_COMMANDS,
                list@.len() == i,
                forall|j: int| 0 <= j < i ==> (#[trigger] list@[j]).bytes() == battery_command(j),
                forall|j: int| 0 <= j < i ==> (#[trigger] list@[j]).kind_spec() == FrameKind::Reply,
            decreases BATTERY_COMMANDS - i,
        {
            let bytes = battery_command_bytes(i);
            let msg = ModbusMsg::from(bytes.as_slice(), bytes.len(), FrameKind::Reply);
            assert(bytes@.subrange(0, bytes@.len() as int) =~= bytes@);
            list.push(msg);
            assert(list@[i as int].bytes() == battery_command(i as int));
            i = i + 1;
        }
        list
    }

    /// Reads the reply at position `i` by the rule of that position.
    pub fn decode(msg: &ModbusMsg, i: usize) -> (r: Option<Reading>)
        ensures
            r == decode_rule(msg.bytes(), i as int),
    {
        if i == 4 || i == 5 {
            ModbusMsg::registers_value_percent(msg.data())
        } else {
            ModbusMsg::registers_value(msg.data())
        }
    }

    /// The document with every field null.
    pub fn build_json() -> (r: BatteryDoc)
        ensures
            r@ == empty_doc(),
            r.wf(),
    {
        BatteryDoc::new()
    }

    /// The document as compact JSON text.
    pub fn serialize(&self) -> (r: String)
        requires
            self.wf(),
        ensures
            r@ == doc_text(self.doc()),
    {
        self.json.dump()
    }

    pub fn topic(&self) -> (r: &str)
        ensures
            r@ == self.topic_spec(),
    {
        self.publish_topic.as_str()
    }

    pub fn qos(&self) -> (r: i32)
        ensures
            r == self.qos_spec(),
    {
        self.qos
    }

    /// Battery info never raises the low-battery flag.
    pub fn bat_ic_low(&self) -> (r: bool)
        ensures
            !r,
    {
        false
    }

    /// Decodes every reply, each by the rule of its position.
    pub fn parse_modbus_data(&self, raw_data: &Vec<ModbusMsg>) -> (r: Vec<Option<Reading>>)
        ensures
            r@ == decoded(raw_data@),
            r@.len() == raw_data@.len(),
            forall|i: int| 0 <= i < raw_data@.len() ==> #[trigger] r@[i] == decode_rule(raw_data@[i].bytes(), i),
    {
        let mut out: Vec<Option<Reading>> = Vec::new();
        let mut i: usize = 0;
        while i < raw_data.len()
            invariant
                i <= raw_data@.len(),
                out@ == decoded(raw_data@).subrange(0, i as int),
            decreases raw_data@.len() - i,
        {
            out.push(Self::decode(&raw_data[i], i));
            i = i + 1;
            assert(out@ =~= decoded(raw_data@).subrange(0, i as int));
        }
        assert(out@ =~= decoded(raw_data@));
        out
    }

    /// Fills the document from the serial number, the link's status and the
    /// replies to the seven reads, given in command order. All fields are set
    /// together, and each of them is set. When an exchange failed, a reply is
    /// missing or a reply holds no register, the error names the first such
    /// position and the document is left as it was.
    pub fn insert_data(
        &mut self,
        serial_number: &str,
        bus: &Modbus,
        replies: &Vec<Result<ModbusMsg, LinkError>>,
    ) -> (r: Result<(), InsertError>)
        requires
            old(self).wf(),
        ensures
            final(self).wf(),
            final(self).commands() == old(self).commands(),
            final(self).topic_spec() == old(self).topic_spec(),
            final(self).qos_spec() == old(self).qos_spec(),
            match first_failure(replies@, 0) {
                Some(e) => r == Err::<(), InsertError>(e) && final(self).doc() == old(self).doc(),
                None => r is Ok && final(self).doc() == (DocView {
                    serial_number: Some(serial_number@),
                    com_status: Some(bus.status_spec()),
                    readings: decoded(reply_msgs(replies@).take(READINGS as int)),
                }),
            },
            r is Ok ==> forall|j: int| 0 <= j < READINGS ==> (#[trigger] final(self).doc().readings[j]) is Some,
    {
        let com_status = bus.get_status();
        let ghost msgs = reply_msgs(replies@);
        let mut readings: Vec<Option<Reading>> = Vec::new();
        let mut i: usize = 0;
        while i < READINGS
            invariant
                i <= READINGS,
                i <= replies@.len(),
                msgs == reply_msgs(replies@),
                forall|j: int| 0 <= j < i ==> (#[trigger] readings@[j]) is Some,
                self.wf(),
                self.doc() == old(self).doc(),
                self.commands() == old(self).commands(),
                self.topic_spec() == old(self).topic_spec(),
                self.qos_spec() == old(self).qos_spec(),
                readings@ == decoded(msgs.take(i as int)),
                first_failure(replies@, i as int) == first_failure(replies@, 0),
            decreases READINGS - i,
        {
            if i >= replies.len() {
                return Err(InsertError::MissingReply(i));
            }
            match &replies[i] {
                Err(e) => {
                    return Err(InsertError::Exchange(i, *e));
                },
                Ok(msg) => {
                    assert(msgs[i as int] == *msg);
                    match Self::decode(msg, i) {
                        None => {
                            return Err(InsertError::NoRegister(i));
                        },
                        Some(reading) => {
                            readings.push(Some(reading));
                        },
                    }
                },
            }
            i = i + 1;
            assert(readings@ =~= decoded(msgs.take(i as int)));
        }

        self.json = BatteryDoc::filled(serial_number, com_status, readings);
        Ok(())
    }
}

/// The reply at position `j` came back and holds a register.
pub open spec fn reply_ok(replies: Seq<Result<ModbusMsg, LinkError>>, j: int) -> bool {
    &&& 0 <= j < replies.len()
    &&& replies[j] is Ok
    &&& register_of(replies[j]->Ok_0.bytes()) is Some
}

/// The first failure found from `i` on, when every reply from `i` up to `k`
/// is good and position `k` failed or has no reply, is that of `k`.
proof fn lemma_first_failure_position(replies: Seq<Result<ModbusMsg, LinkError>>, i: int, k: int)
    requires
        0 <= i <= k < READINGS,
        forall|j: int| i <= j < k ==> #[trigger] reply_ok(replies, j),
        k >= replies.len() || replies[k] is Err,
    ensures
        k >= replies.len() ==> first_failure(replies, i) == Some(InsertError::MissingReply(k as usize)),
        k < replies.len() ==> first_failure(replies, i) == Some(
            InsertError::Exchange(k as usize, replies[k]->Err_0),
        ),
    decreases k - i,
{
    if i < k {
        assert(reply_ok(replies, i));
        lemma_first_failure_position(replies, i + 1, k);
    }
}

/// A failed exchange at any position `k` below seven makes the build fail,
/// and the contract of `insert_data` then leaves the document unchanged.
pub proof fn lemma_failed_exchange_fails_build(replies: Seq<Result<ModbusMsg, LinkError>>, k: int)
    requires
        0 <= k < READINGS,
        k < replies.len(),
        replies[k] is Err,
    ensures
        first_failure(replies, 0) is Some,
{
    lemma_failure_found_from(replies, 0, k);
}

proof fn lemma_failure_found_from(replies: Seq<Result<ModbusMsg, LinkError>>, i: int, k: int)
    requires
        0 <= i <= k < READINGS,
        k < replies.len(),
        replies[k] is Err,
    ensures
        first_failure(replies, i) is Some,
    decreases k - i,
{
    if i < k {
        lemma_failure_found_from(replies, i + 1, k);
    }
}

/// When the exchange for command `k` fails after every earlier one
/// succeeded, building the document fails with that exchange's error.
pub proof fn lemma_failed_exchange_is_reported(replies: Seq<Result<ModbusMsg, LinkError>>, k: int)
    requires
        0 <= k < READINGS,
        k < replies.len(),
        replies[k] is Err,
        forall|j: int| 0 <= j < k ==> #[trigger] reply_ok(replies, j),
    ensures
        first_failure(replies, 0) == Some(InsertError::Exchange(k as usize, replies[k]->Err_0)),
{
    lemma_first_failure_position(replies, 0, k);
}

/// When all seven exchanges succeed with a reply that holds a register,
/// building the document succeeds, and the new document has its serial
/// number, its status and every reading set.
pub proof fn lemma_successful_exchanges_fill_doc(
    serial_number: Seq<char>,
    com_status: ComStatus,
    replies: Seq<Result<ModbusMsg, LinkError>>,
)
    requires
        forall|j: int| 0 <= j < READINGS ==> #[trigger] reply_ok(replies, j),
    ensures
        first_failure(replies, 0) is None,
        ({
            let d = DocView {
                serial_number: Some(serial_number),
                com_status: Some(com_status),
                readings: decoded(reply_msgs(replies).take(READINGS as int)),
            };
            &&& d.serial_number is Some
            &&& d.com_status is Some
            &&& d.readings.len() == READINGS
            &&& forall|j: int| 0 <= j < READINGS ==> (#[trigger] d.readings[j]) is Some
        }),
{
    assert(reply_ok(replies, READINGS - 1));
    lemma_first_failure_none(replies, 0);
    let d = decoded(reply_msgs(replies).take(READINGS as int));
    assert forall|j: int| 0 <= j < READINGS implies (#[trigger] d[j]) is Some by {
        assert(reply_ok(replies, j));
    }
}

proof fn lemma_first_failure_none(replies: Seq<Result<ModbusMsg, LinkError>>, i: int)
    requires
        0 <= i,
        forall|j: int| 0 <= j < READINGS ==> #[trigger] reply_ok(replies, j),
    ensures
        first_failure(replies, i) is None,
    decreases READINGS - i,
{
    if i < READINGS {
        assert(reply_ok(replies, i));
        lemma_first_failure_none(replies, i + 1);
    }
}

} // verus!
