use vstd::prelude::*;

use crate::constants::{heartbeat_bytes, heartbeat_command};
use crate::frame::{FrameKind, ModbusMsg};
use crate::link::{next_status, LinkError, Modbus};
use crate::requests::{Request, RequestsStack};

verus! {

/// The long-running jobs that share the Modbus link.
#[derive(Clone, Copy, Debug, PartialEq, Eq, Structural)]
pub enum Job {
    /// Probes the link and keeps its connectivity flag.
    Heartbeat,
    /// Reads frames the device sends on its own and queues the events.
    Listener,
}

/// A Modbus service: one job, run forever on a worker of its own.
#[derive(Clone, Copy, Debug)]
pub struct Service {
    job: Job,
}

impl Service {
    pub closed spec fn job_spec(&self) -> Job {
        self.job
    }

    /// Every service that the link needs: the heartbeat, then the listener.
    pub fn new_list() -> (r: Vec<Self>)
        ensures
            r@.len() == 2,
            r@[0].job_spec() == Job::Heartbeat,
            r@[1].job_spec() == Job::Listener,
    {
        let heartbeat = Service::new(Job::Heartbeat);
        let listener = Service::new(Job::Listener);
        vec![heartbeat, listener]
    }

    pub fn new(job: Job) -> (r: Self)
        ensures
            r.job_spec() == job,
    {
        Service { job }
    }

    pub fn job(&self) -> (r: Job)
        ensures
            r == self.job_spec(),
    {
        self.job
    }
}

/// The frame that each heartbeat cycle sends.
pub fn heartbeat_msg() -> (r: ModbusMsg)
    ensures
        r.bytes() == heartbeat_command(),
        r.kind_spec() == FrameKind::Reply,
{
    let bytes = heartbeat_bytes();
    let r = ModbusMsg::from(bytes.as_slice(), bytes.len(), FrameKind::Reply);
    assert(bytes@.subrange(0, bytes@.len() as int) =~= bytes@);
    r
}

/// One heartbeat cycle, after the probe was sent: a reply marks the link
/// connected, any error marks it disconnected.
pub fn heartbeat(bus: &mut Modbus, probe: &Result<ModbusMsg, LinkError>)
    ensures
        final(bus).status_spec() == next_status(old(bus).status_spec(), probe.is_ok()),
{
    match probe {
        Ok(_) => bus.set_connect(),
        Err(_) => bus.set_disconnect(),
    }
}

/// What one listener cycle did with what it read.
#[derive(Clone, Copy, Debug, PartialEq, Eq, Structural)]
pub enum ListenerOutcome {
    /// An event frame was queued as a device event.
    Queued,
    /// A frame that is not an event was dropped.
    Discarded,
    /// The read failed; the next cycle reads again.
    ReadFailed,
}

/// The pending requests after one listener cycle on `read`.
pub open spec fn queue_after_read(items: Seq<Request>, read: Result<ModbusMsg, LinkError>) -> Seq<Request> {
    match read {
        Ok(msg) => if msg.kind_spec() == FrameKind::Event {
            items.push(Request::DeviceEvent(msg))
        } else {
            items
        },
        Err(_) => items,
    }
}

/// The pending requests after listener cycles on `reads`, one after another.
pub open spec fn queue_after_reads(items: Seq<Request>, reads: Seq<Result<ModbusMsg, LinkError>>) -> Seq<Request>
    decreases reads.len(),
{
    if reads.len() == 0 {
        items
    } else {
        queue_after_read(queue_after_reads(items, reads.drop_last()), reads.last())
    }
}

/// The device events that successful reads of event frames become.
pub open spec fn events_of(reads: Seq<Result<ModbusMsg, LinkError>>) -> Seq<Request> {
    reads.map_values(|r: Result<ModbusMsg, LinkError>| Request::DeviceEvent(r->Ok_0))
}

/// Listener cycles that each read an event frame add one device event per
/// read, holding that frame unchanged, in the order read: nothing is lost or
/// duplicated, and what was pending stays in front.
pub proof fn lemma_listener_cycles_queue_each_event(
    items: Seq<Request>,
    reads: Seq<Result<ModbusMsg, LinkError>>,
)
    requires
        forall|i: int|
            0 <= i < reads.len() ==> (#[trigger] reads[i]) is Ok && reads[i]->Ok_0.kind_spec()
                == FrameKind::Event,
    ensures
        queue_after_reads(items, reads) == items + events_of(reads),
        queue_after_reads(items, reads).len() == items.len() + reads.len(),
        forall|r: Request|
            #[trigger] queue_after_reads(items, reads).to_multiset().count(r)
                == items.to_multiset().count(r) + events_of(reads).to_multiset().count(r),
    decreases reads.len(),
{
    if reads.len() > 0 {
        let front = reads.drop_last();
        assert forall|i: int| 0 <= i < front.len() implies (#[trigger] front[i]) is Ok
            && front[i]->Ok_0.kind_spec() == FrameKind::Event by {
            assert(front[i] == reads[i]);
        }
        lemma_listener_cycles_queue_each_event(items, front);
        assert(reads[reads.len() - 1] is Ok);
        assert(events_of(reads) =~= events_of(front).push(Request::DeviceEvent(reads.last()->Ok_0)));
        assert(items + events_of(reads) =~= (items + events_of(front)).push(
            Request::DeviceEvent(reads.last()->Ok_0),
        ));
    } else {
        assert(items + events_of(reads) =~= items);
    }
    vstd::seq_lib::lemma_multiset_commutative(items, events_of(reads));
}

/// One listener cycle, after the read: an event frame is queued unchanged as
/// a device event; anything else leaves the queue as it was.
pub fn listener(read: Result<ModbusMsg, LinkError>, queue: &mut RequestsStack) -> (r: ListenerOutcome)
    ensures
        final(queue).items_spec() == queue_after_read(old(queue).items_spec(), read),
        match read {
            Ok(msg) => if msg.kind_spec() == FrameKind::Event {
                r == ListenerOutcome::Queued
                    && final(queue).items_spec() == old(queue).items_spec().push(Request::DeviceEvent(msg))
            } else {
                r == ListenerOutcome::Discarded
                    && final(queue).items_spec() == old(queue).items_spec()
            },
            Err(_) => r == ListenerOutcome::ReadFailed
                && final(queue).items_spec() == old(queue).items_spec(),
        },
{
    match read {
        Ok(msg) => {
            if msg.is_event() {
                queue.push(Request::battery_event(msg));
                ListenerOutcome::Queued
            } else {
                ListenerOutcome::Discarded
            }
        },
        Err(_) => ListenerOutcome::ReadFailed,
    }
}

} // verus!
