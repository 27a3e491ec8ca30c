use vstd::prelude::*;

verus! {

/// Connectivity of the Modbus link, as the heartbeat last observed it.
#[derive(Clone, Copy, Debug, PartialEq, Eq, Structural)]
pub enum ComStatus {
    Connected,
    Disconnected,
}

/// The status that one heartbeat probe leaves behind.
pub open spec fn status_of_probe(probe_ok: bool) -> ComStatus {
    if probe_ok {
        ComStatus::Connected
    } else {
        ComStatus::Disconnected
    }
}

/// The status a heartbeat probe moves to from `prev`: the outcome of the
/// probe alone decides it.
pub open spec fn next_status(prev: ComStatus, probe_ok: bool) -> ComStatus {
    status_of_probe(probe_ok)
}

/// The status after a run of heartbeat probes, applied one after another.
pub open spec fn status_after(init: ComStatus, probes: Seq<bool>) -> ComStatus
    decreases probes.len(),
{
    if probes.len() == 0 {
        init
    } else {
        next_status(status_after(init, probes.drop_last()), probes.last())
    }
}

/// The name under which a status appears in a telemetry document.
pub open spec fn status_name(s: ComStatus) -> Seq<char> {
    match s {
        ComStatus::Connected => seq!['c', 'o', 'n', 'n', 'e', 'c', 't', 'e', 'd'],
        ComStatus::Disconnected => seq!['d', 'i', 's', 'c', 'o', 'n', 'n', 'e', 'c', 't', 'e', 'd'],
    }
}

impl ComStatus {
    /// The status name as text.
    pub fn name(&self) -> (r: &'static str)
        ensures
            r@ == status_name(*self),
    {
        match self {
            ComStatus::Connected => {
                proof {
                    reveal_strlit("connected");
                }
                "connected"
            },
            ComStatus::Disconnected => {
                proof {
                    reveal_strlit("disconnected");
                }
                "disconnected"
            },
        }
    }
}

/// Why an exchange on the Modbus link failed.
#[derive(Clone, Copy, Debug, PartialEq, Eq, Structural)]
pub enum LinkError {
    /// The device did not answer in time.
    NoReply,
    /// An answer came but was not a valid frame.
    BadFrame,
    /// The serial port itself failed.
    Port,
}

/// The state of the Modbus link that the library keeps: its connectivity flag.
/// Written by the heartbeat, read when a telemetry document is built.
pub struct Modbus {
    status: ComStatus,
}

impl Modbus {
    pub closed spec fn status_spec(&self) -> ComStatus {
        self.status
    }

    /// A link that no heartbeat has probed yet counts as disconnected.
    pub fn new() -> (r: Self)
        ensures
            r.status_spec() == ComStatus::Disconnected,
    {
        Modbus { status: ComStatus::Disconnected }
    }

    pub fn get_status(&self) -> (r: ComStatus)
        ensures
            r == self.status_spec(),
    {
        self.status
    }

    pub fn set_connect(&mut self)
        ensures
            final(self).status_spec() == ComStatus::Connected,
    {
        self.status = ComStatus::Connected;
    }

    pub fn set_disconnect(&mut self)
        ensures
            final(self).status_spec() == ComStatus::Disconnected,
    {
        self.status = ComStatus::Disconnected;
    }
}

/// Whatever the status was, a run of probes leaves `Connected` exactly when
/// the most recent probe succeeded; with no probe the status is unchanged.
pub proof fn lemma_status_follows_last_probe(init: ComStatus, probes: Seq<bool>)
    ensures
        probes.len() == 0 ==> status_after(init, probes) == init,
        probes.len() > 0 ==> (status_after(init, probes) == ComStatus::Connected <==> probes.last()),
        probes.len() > 0 ==> status_after(init, probes) == status_of_probe(probes.last()),
{
}

} // verus!
