use vstd::prelude::*;

use crate::frame::Reading;
use crate::link::{status_name, ComStatus};

verus! {

/// The JSON text of one decimal digit.
pub open spec fn digit_text(d: nat) -> Seq<char> {
    if d == 0 {
        "0"@
    } else if d == 1 {
        "1"@
    } else if d == 2 {
        "2"@
    } else if d == 3 {
        "3"@
    } else if d == 4 {
        "4"@
    } else if d == 5 {
        "5"@
    } else if d == 6 {
        "6"@
    } else if d == 7 {
        "7"@
    } else if d == 8 {
        "8"@
    } else {
        "9"@
    }
}

/// The decimal digits of `n`, without leading zeros.
pub open spec fn dec_text(n: nat) -> Seq<char>
    decreases n,
{
    if n < 10 {
        digit_text(n)
    } else {
        dec_text(n / 10) + digit_text(n % 10)
    }
}

fn digit_str(d: u16) -> (r: &'static str)
    requires
        d < 10,
    ensures
        r@ == digit_text(d as nat),
{
    if d == 0 {
        "0"
    } else if d == 1 {
        "1"
    } else if d == 2 {
        "2"
    } else if d == 3 {
        "3"
    } else if d == 4 {
        "4"
    } else if d == 5 {
        "5"
    } else if d == 6 {
        "6"
    } else if d == 7 {
        "7"
    } else if d == 8 {
        "8"
    } else {
        "9"
    }
}

/// Appends the decimal digits of `n`.
pub fn append_decimal(out: &mut String, n: u16)
    ensures
        final(out)@ == old(out)@ + dec_text(n as nat),
    decreases n,
{
    if n >= 10 {
        append_decimal(out, n / 10);
    }
    out.append(digit_str(n % 10));
}


/// The name of the JSON text of a string: the string quoted, with the
/// characters that JSON reserves escaped.
pub uninterp spec fn json_string_of(s: Seq<char>) -> Seq<char>;

/// No character of `s` is one that a JSON string escapes: a quote, a
/// backslash or a control character below the space.
pub open spec fn needs_no_escape(s: Seq<char>) -> bool {
    forall|i: int| 0 <= i < s.len() ==> #[trigger] s[i] != '"' && s[i] != '\\' && (s[i] as u32) >= 0x20
}

/// Relies on `json::stringify` of a `&str`: the value is a JSON string, and
/// its dump is the quoted, escaped text, which depends on the characters alone;
/// a string with nothing to escape is only quoted.
#[verifier::external_body]
fn json_string(s: &str) -> (r: String)
    ensures
        r@ == json_string_of(s@),
        needs_no_escape(s@) ==> r@ == seq!['"'] + s@ + seq!['"'],
{
    json::stringify(s)
}

/// The telemetry document of battery info. Every field starts null; a
/// successful build fills the serial number, the status and the readings
/// together. Reading positions: 0 DC status, 1 battery status, 2 voltage,
/// 3 current, 4 state of charge, 5 state of health, 6 time left.
#[derive(Clone, Debug)]
pub struct BatteryDoc {
    serial_number: Option<String>,
    com_status: Option<ComStatus>,
    readings: Vec<Option<Reading>>,
}

/// What a battery-info document holds.
pub struct DocView {
    pub serial_number: Option<Seq<char>>,
    pub com_status: Option<ComStatus>,
    pub readings: Seq<Option<Reading>>,
}

/// Number of readings in a battery-info document.
pub const READINGS: usize = 7;

/// The document with every field null.
pub open spec fn empty_doc() -> DocView {
    DocView {
        serial_number: None,
        com_status: None,
        readings: Seq::new(READINGS as nat, |i: int| None::<Reading>),
    }
}

impl View for BatteryDoc {
    type V = DocView;

    closed spec fn view(&self) -> DocView {
        DocView {
            serial_number: match self.serial_number {
                Some(s) => Some(s@),
                None => None,
            },
            com_status: self.com_status,
            readings: self.readings@,
        }
    }
}

/// The key that introduces reading `i` in the document text.
pub open spec fn reading_key(i: int) -> Seq<char> {
    if i == 0 {
        ",\"dcStatus\":"@
    } else if i == 1 {
        ",\"batteryStatus\":"@
    } else if i == 2 {
        ",\"batteryVoltage\":"@
    } else if i == 3 {
        ",\"batteryCurrent\":"@
    } else if i == 4 {
        ",\"soc\":"@
    } else if i == 5 {
        ",\"soh\":"@
    } else {
        ",\"timeLeft\":"@
    }
}

/// JSON text of a reading: a plain value as an integer, a percentage with
/// one decimal, a missing reading as null.
pub open spec fn reading_text(r: Option<Reading>) -> Seq<char> {
    match r {
        None => "null"@,
        Some(Reading::Value(v)) => dec_text(v as nat),
        Some(Reading::PercentTenths(t)) => dec_text((t / 10) as nat) + "."@ + dec_text((t % 10) as nat),
    }
}

/// The text of the first `n` readings, each behind its key.
pub open spec fn readings_text(rs: Seq<Option<Reading>>, n: nat) -> Seq<char>
    decreases n,
{
    if n == 0 {
        Seq::empty()
    } else {
        readings_text(rs, (n - 1) as nat) + reading_key(n - 1) + reading_text(rs[n - 1])
    }
}

pub open spec fn serial_text(s: Option<Seq<char>>) -> Seq<char> {
    match s {
        Some(s) => json_string_of(s),
        None => "null"@,
    }
}

pub open spec fn status_text(s: Option<ComStatus>) -> Seq<char> {
    match s {
        Some(s) => json_string_of(status_name(s)),
        None => "null"@,
    }
}

/// The compact JSON text of a document: keys in schema order, no spaces.
pub open spec fn doc_text(d: DocView) -> Seq<char> {
    "{\"serialNumber\":"@ + serial_text(d.serial_number) + ",\"batteryInfo\":{\"comStatus\":"@
        + status_text(d.com_status) + readings_text(d.readings, READINGS as nat) + "}}"@
}

fn reading_key_str(i: usize) -> (r: &'static str)
    ensures
        r@ == reading_key(i as int),
{
    if i == 0 {
        ",\"dcStatus\":"
    } else if i == 1 {
        ",\"batteryStatus\":"
    } else if i == 2 {
        ",\"batteryVoltage\":"
    } else if i == 3 {
        ",\"batteryCurrent\":"
    } else if i == 4 {
        ",\"soc\":"
    } else if i == 5 {
        ",\"soh\":"
    } else {
        ",\"timeLeft\":"
    }
}

/// Appends the JSON text of a reading.
pub fn append_reading(out: &mut String, r: Option<Reading>)
    ensures
        final(out)@ == old(out)@ + reading_text(r),
{
    match r {
        None => out.append("null"),
        Some(Reading::Value(v)) => append_decimal(out, v),
        Some(Reading::PercentTenths(t)) => {
            append_decimal(out, t / 10);
            out.append(".");
            append_decimal(out, t % 10);
            assert(out@ =~= old(out)@ + reading_text(r));
        },
    }
}

impl BatteryDoc {
    pub open spec fn wf(&self) -> bool {
        self@.readings.len() == READINGS
    }

    /// The document with every field null.
    pub fn new() -> (r: Self)
        ensures
            r@ == empty_doc(),
            r.wf(),
    {
        let mut readings: Vec<Option<Reading>> = Vec::new();
        let mut i: usize = 0;
        while i < READINGS
            invariant
                i <= READINGS,
                readings@ == Seq::new(i as nat, |j: int| None::<Reading>),
            decreases READINGS - i,
        {
            readings.push(None);
            i = i + 1;
            assert(readings@ =~= Seq::new(i as nat, |j: int| None::<Reading>));
        }
        BatteryDoc { serial_number: None, com_status: None, readings }
    }

    /// A document filled with a serial number, a status and seven readings.
    pub fn filled(serial_number: &str, com_status: ComStatus, readings: Vec<Option<Reading>>) -> (r: Self)
        requires
            readings@.len() == READINGS,
        ensures
            r@ == (DocView {
                serial_number: Some(serial_number@),
                com_status: Some(com_status),
                readings: readings@,
            }),
            r.wf(),
    {
        BatteryDoc {
            serial_number: Some(String::from_str(serial_number)),
            com_status: Some(com_status),
            readings,
        }
    }

    /// The compact JSON text of the document.
    pub fn dump(&self) -> (r: String)
        requires
            self.wf(),
        ensures
            r@ == doc_text(self@),
    {
        let mut out = String::from_str("{\"serialNumber\":");
        match &self.serial_number {
            Some(s) => {
                let q = json_string(s.as_str());
                out.append(q.as_str());
            },
            None => out.append("null"),
        }
        out.append(",\"batteryInfo\":{\"comStatus\":");
        match self.com_status {
            Some(c) => {
                let q = json_string(c.name());
                out.append(q.as_str());
            },
            None => out.append("null"),
        }
        let ghost head = out@;
        let mut i: usize = 0;
        while i < READINGS
            invariant
                i <= READINGS,
                self.wf(),
                out@ == head + readings_text(self@.readings, i as nat),
            decreases READINGS - i,
        {
            out.append(reading_key_str(i));
            append_reading(&mut out, self.readings[i]);
            i = i + 1;
            assert(out@ =~= head + readings_text(self@.readings, i as nat));
        }
        out.append("}}");
        assert(out@ =~= doc_text(self@));
        out
    }
}

} // verus!
