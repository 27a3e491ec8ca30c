use vstd::prelude::*;

use crate::frame::ModbusMsg;

verus! {

/// A unit of work waiting for a consumer.
#[derive(Clone, Debug)]
pub enum Request {
    /// A frame that the device sent on its own.
    DeviceEvent(ModbusMsg),
}

impl Request {
    /// A device event carrying the frame as it was read.
    pub fn battery_event(msg: ModbusMsg) -> (r: Self)
        ensures
            r == Request::DeviceEvent(msg),
    {
        Request::DeviceEvent(msg)
    }
}

/// The queue of pending requests. Items leave in the order they were pushed:
/// the oldest first.
pub struct RequestsStack {
    items: Vec<Request>,
}

impl RequestsStack {
    /// The pending requests, oldest first.
    pub closed spec fn items_spec(&self) -> Seq<Request> {
        self.items@
    }

    pub fn new() -> (r: Self)
        ensures
            r.items_spec() == Seq::<Request>::empty(),
    {
        RequestsStack { items: Vec::new() }
    }

    pub fn len(&self) -> (r: usize)
        ensures
            r == self.items_spec().len(),
    {
        self.items.len()
    }

    /// Appends a request behind every pending one.
    pub fn push(&mut self, req: Request)
        ensures
            final(self).items_spec() == old(self).items_spec().push(req),
    {
        self.items.push(req);
    }

    /// Takes out the oldest pending request, if any.
    pub fn pop(&mut self) -> (r: Option<Request>)
        ensures
            old(self).items_spec().len() == 0 ==> r.is_none()
                && final(self).items_spec() == old(self).items_spec(),
            old(self).items_spec().len() > 0 ==> r == Some(old(self).items_spec()[0])
                && final(self).items_spec() == old(self).items_spec().drop_first(),
    {
        if self.items.len() == 0 {
            None
        } else {
            Some(self.items.remove(0))
        }
    }

    /// Takes out every pending request, oldest first, and leaves the queue empty.
    pub fn drain(&mut self) -> (r: Vec<Request>)
        ensures
            r@ == old(self).items_spec(),
            final(self).items_spec() == Seq::<Request>::empty(),
    {
        let mut out: Vec<Request> = Vec::new();
        std::mem::swap(&mut out, &mut self.items);
        out
    }
}

/// Pushing requests one after another appends each of them exactly once, in
/// the order pushed, behind what was already pending.
pub proof fn lemma_pushes_append(pending: Seq<Request>, pushed: Seq<Request>)
    ensures
        pushes_applied(pending, pushed) == pending + pushed,
        pushes_applied(pending, pushed).len() == pending.len() + pushed.len(),
        forall|r: Request|
            #[trigger] pushes_applied(pending, pushed).to_multiset().count(r)
                == pending.to_multiset().count(r) + pushed.to_multiset().count(r),
    decreases pushed.len(),
{
    if pushed.len() > 0 {
        lemma_pushes_append(pending, pushed.drop_last());
        assert(pending + pushed =~= (pending + pushed.drop_last()).push(pushed.last()));
    }
    vstd::seq_lib::lemma_multiset_commutative(pending, pushed);
}

/// The pending items after `pushed` went through `RequestsStack::push`, one by one.
pub open spec fn pushes_applied(pending: Seq<Request>, pushed: Seq<Request>) -> Seq<Request>
    decreases pushed.len(),
{
    if pushed.len() == 0 {
        pending
    } else {
        pushes_applied(pending, pushed.drop_last()).push(pushed.last())
    }
}

} // verus!
