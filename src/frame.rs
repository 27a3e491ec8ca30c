use vstd::prelude::*;

verus! {

/// Whether a frame answers a command or was sent by the device on its own.
#[derive(Clone, Copy, Debug, PartialEq, Eq, Structural)]
pub enum FrameKind {
    Reply,
    Event,
}

/// A raw Modbus frame: its bytes, and whether it is a reply or an event.
#[derive(Clone, Debug)]
pub struct ModbusMsg {
    data: Vec<u8>,
    kind: FrameKind,
}

/// A value read from the device's registers. A percentage is kept in tenths
/// of a percent.
#[derive(Clone, Copy, Debug, PartialEq, Eq, Structural)]
pub enum Reading {
    Value(u16),
    PercentTenths(u16),
}

/// Offset of the first register byte in a read reply
/// (address, function code and byte count come before it).
pub const REGISTER_OFFSET: usize = 3;

/// The first register of a reply as a big-endian 16-bit value, when the reply
/// is long enough to hold one.
pub open spec fn register_of(data: Seq<u8>) -> Option<u16> {
    if data.len() >= REGISTER_OFFSET + 2 {
        Some((data[REGISTER_OFFSET as int] as int * 256 + data[REGISTER_OFFSET + 1] as int) as u16)
    } else {
        None
    }
}

/// The plain-value rule: the register as it stands.
pub open spec fn plain_value(data: Seq<u8>) -> Option<Reading> {
    match register_of(data) {
        Some(v) => Some(Reading::Value(v)),
        None => None,
    }
}

/// The percent rule: the register counts tenths of a percent.
pub open spec fn percent_value(data: Seq<u8>) -> Option<Reading> {
    match register_of(data) {
        Some(v) => Some(Reading::PercentTenths(v)),
        None => None,
    }
}

impl ModbusMsg {
    pub closed spec fn bytes(&self) -> Seq<u8> {
        self.data@
    }

    pub closed spec fn kind_spec(&self) -> FrameKind {
        self.kind
    }

    /// The first `len` bytes of `data` as a frame of the given kind.
    pub fn from(data: &[u8], len: usize, kind: FrameKind) -> (r: Self)
        requires
            len <= data@.len(),
        ensures
            r.bytes() == data@.subrange(0, len as int),
            r.kind_spec() == kind,
    {
        let mut v: Vec<u8> = Vec::new();
        let mut i: usize = 0;
        while i < len
            invariant
                i <= len,
                len <= data@.len(),
                v@ == data@.subrange(0, i as int),
            decreases len - i,
        {
            v.push(data[i]);
            i = i + 1;
            assert(v@ =~= data@.subrange(0, i as int));
        }
        ModbusMsg { data: v, kind }
    }

    pub fn data(&self) -> (r: &Vec<u8>)
        ensures
            r@ == self.bytes(),
    {
        &self.data
    }

    pub fn len(&self) -> (r: usize)
        ensures
            r == self.bytes().len(),
    {
        self.data.len()
    }

    pub fn kind(&self) -> (r: FrameKind)
        ensures
            r == self.kind_spec(),
    {
        self.kind
    }

    pub fn is_event(&self) -> (r: bool)
        ensures
            r == (self.kind_spec() == FrameKind::Event),
    {
        match self.kind {
            FrameKind::Event => true,
            FrameKind::Reply => false,
        }
    }

    /// The first register of a reply, under the plain-value rule.
    pub fn registers_value(data: &Vec<u8>) -> (r: Option<Reading>)
        ensures
            r == plain_value(data@),
    {
        if data.len() >= REGISTER_OFFSET + 2 {
            let hi = data[REGISTER_OFFSET] as u16;
            let lo = data[REGISTER_OFFSET + 1] as u16;
            Some(Reading::Value(hi * 256 + lo))
        } else {
            None
        }
    }

    /// The first register of a reply, under the percent rule.
    pub fn registers_value_percent(data: &Vec<u8>) -> (r: Option<Reading>)
        ensures
            r == percent_value(data@),
    {
        if data.len() >= REGISTER_OFFSET + 2 {
            let hi = data[REGISTER_OFFSET] as u16;
            let lo = data[REGISTER_OFFSET + 1] as u16;
            Some(Reading::PercentTenths(hi * 256 + lo))
        } else {
            None
        }
    }
}

} // verus!
