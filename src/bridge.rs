use vstd::prelude::*;

use crate::constants::{
    topic_battery_info_req, topic_battery_info_req_str, topic_device_info, topic_device_info_str,
    QOS, RECONNECT_DELAY_MS,
};

verus! {

/// Where the connection to the broker stands.
#[derive(Clone, Copy, Debug, PartialEq, Eq, Structural)]
pub enum BridgeState {
    Disconnected,
    Connected,
    ReconnectPending,
}

/// What the MQTT engine reports to the bridge.
#[derive(Clone, Copy, Debug, PartialEq, Eq, Structural)]
pub enum MqttEvent {
    /// The engine announces an established connection.
    Connected,
    /// The connection to the broker was lost.
    ConnectionLost,
    /// A connect or reconnect attempt succeeded.
    ConnectSuccess,
    /// A connect or reconnect attempt failed with this return code.
    ConnectFailure(i32),
    /// An inbound message went to the request handler, which succeeded or not.
    MessageHandled(bool),
}

/// What the bridge asks of the engine after an event.
#[derive(Clone, Copy, Debug, PartialEq, Eq, Structural)]
pub enum BridgeAction {
    /// Nothing beyond a log line.
    Continue,
    /// Subscribe to the request topics, each at the subscription QoS.
    Subscribe,
    /// Wait this many milliseconds, then attempt to reconnect with the same
    /// success and failure handling.
    Reconnect { delay_ms: u64 },
    /// Stop the process with this exit code.
    Exit { code: i32 },
}

/// The state and the action that one event leads to.
pub open spec fn step_spec(s: BridgeState, e: MqttEvent) -> (BridgeState, BridgeAction) {
    match e {
        MqttEvent::Connected => (s, BridgeAction::Continue),
        MqttEvent::ConnectSuccess => (BridgeState::Connected, BridgeAction::Subscribe),
        MqttEvent::ConnectionLost => (
            BridgeState::ReconnectPending,
            BridgeAction::Reconnect { delay_ms: RECONNECT_DELAY_MS },
        ),
        MqttEvent::ConnectFailure(_) => (
            BridgeState::ReconnectPending,
            BridgeAction::Reconnect { delay_ms: RECONNECT_DELAY_MS },
        ),
        MqttEvent::MessageHandled(ok) => if ok {
            (s, BridgeAction::Continue)
        } else {
            (s, BridgeAction::Exit { code: 1 })
        },
    }
}

/// The state after a run of events.
pub open spec fn state_after(s: BridgeState, es: Seq<MqttEvent>) -> BridgeState
    decreases es.len(),
{
    if es.len() == 0 {
        s
    } else {
        step_spec(state_after(s, es.drop_last()), es.last()).0
    }
}

/// The actions that a run of events leads to, one per event.
pub open spec fn actions_of(s: BridgeState, es: Seq<MqttEvent>) -> Seq<BridgeAction>
    decreases es.len(),
{
    if es.len() == 0 {
        Seq::empty()
    } else {
        actions_of(s, es.drop_last()).push(step_spec(state_after(s, es.drop_last()), es.last()).1)
    }
}

/// The request topics that the bridge subscribes to after connecting.
pub open spec fn subscription_topics() -> Seq<Seq<char>> {
    seq![topic_battery_info_req(), topic_device_info()]
}

/// The topics and QoS levels of the subscription that follows a successful
/// connection: the battery-info and device-info request topics, both at the
/// subscription QoS.
pub fn subscriptions() -> (r: (Vec<String>, Vec<i32>))
    ensures
        r.0@.len() == 2,
        r.0@[0]@ == subscription_topics()[0],
        r.0@[1]@ == subscription_topics()[1],
        r.1@ == seq![QOS, QOS],
{
    let topics = vec![
        String::from_str(topic_battery_info_req_str()),
        String::from_str(topic_device_info_str()),
    ];
    let qos = vec![QOS, QOS];
    assert(qos@ =~= seq![QOS, QOS]);
    (topics, qos)
}

/// The connection state machine between the MQTT engine and the request
/// handling. Retries never stop: each loss or failed attempt leads to another
/// attempt after a fixed delay.
pub struct Callbacks {
    state: BridgeState,
}

impl Callbacks {
    pub closed spec fn state_spec(&self) -> BridgeState {
        self.state
    }

    /// A bridge that has not connected yet.
    pub fn new() -> (r: Self)
        ensures
            r.state_spec() == BridgeState::Disconnected,
    {
        Callbacks { state: BridgeState::Disconnected }
    }

    pub fn state(&self) -> (r: BridgeState)
        ensures
            r == self.state_spec(),
    {
        self.state
    }

    /// Takes one event and returns the action it calls for.
    pub fn step(&mut self, e: MqttEvent) -> (r: BridgeAction)
        ensures
            (final(self).state_spec(), r) == step_spec(old(self).state_spec(), e),
    {
        match e {
            MqttEvent::Connected => BridgeAction::Continue,
            MqttEvent::ConnectSuccess => {
                self.state = BridgeState::Connected;
                BridgeAction::Subscribe
            },
            MqttEvent::ConnectionLost => {
                self.state = BridgeState::ReconnectPending;
                BridgeAction::Reconnect { delay_ms: RECONNECT_DELAY_MS }
            },
            MqttEvent::ConnectFailure(_) => {
                self.state = BridgeState::ReconnectPending;
                BridgeAction::Reconnect { delay_ms: RECONNECT_DELAY_MS }
            },
            MqttEvent::MessageHandled(ok) => {
                if ok {
                    BridgeAction::Continue
                } else {
                    BridgeAction::Exit { code: 1 }
                }
            },
        }
    }

    /// An inbound message was handled: a failure ends the process.
    pub fn message_callback(&mut self, handled: bool) -> (r: BridgeAction)
        ensures
            (final(self).state_spec(), r) == step_spec(old(self).state_spec(), MqttEvent::MessageHandled(handled)),
    {
        self.step(MqttEvent::MessageHandled(handled))
    }

    /// The engine announced a connection: nothing to do beyond logging it.
    pub fn connected(&mut self) -> (r: BridgeAction)
        ensures
            (final(self).state_spec(), r) == step_spec(old(self).state_spec(), MqttEvent::Connected),
    {
        self.step(MqttEvent::Connected)
    }

    /// The connection was lost: wait, then try to reconnect.
    pub fn connection_lost(&mut self) -> (r: BridgeAction)
        ensures
            (final(self).state_spec(), r) == step_spec(old(self).state_spec(), MqttEvent::ConnectionLost),
    {
        self.step(MqttEvent::ConnectionLost)
    }

    /// An attempt succeeded: subscribe to the request topics.
    pub fn on_connect_success(&mut self) -> (r: BridgeAction)
        ensures
            (final(self).state_spec(), r) == step_spec(old(self).state_spec(), MqttEvent::ConnectSuccess),
    {
        self.step(MqttEvent::ConnectSuccess)
    }

    /// An attempt failed: wait, then try again.
    pub fn on_connect_failure(&mut self, rc: i32) -> (r: BridgeAction)
        ensures
            (final(self).state_spec(), r) == step_spec(old(self).state_spec(), MqttEvent::ConnectFailure(rc)),
    {
        self.step(MqttEvent::ConnectFailure(rc))
    }

    /// Takes a run of events in order and returns the action for each.
    pub fn run(&mut self, events: &Vec<MqttEvent>) -> (r: Vec<BridgeAction>)
        ensures
            r@ == actions_of(old(self).state_spec(), events@),
            final(self).state_spec() == state_after(old(self).state_spec(), events@),
    {
        let ghost s0 = self.state_spec();
        let mut out: Vec<BridgeAction> = Vec::new();
        let mut i: usize = 0;
        while i < events.len()
            invariant
                i <= events@.len(),
                out@ == actions_of(s0, events@.subrange(0, i as int)),
                self.state_spec() == state_after(s0, events@.subrange(0, i as int)),
            decreases events@.len() - i,
        {
            let a = self.step(events[i]);
            out.push(a);
            let ghost pre = events@.subrange(0, i as int);
            i = i + 1;
            assert(events@.subrange(0, i as int).drop_last() =~= pre);
        }
        assert(events@.subrange(0, events@.len() as int) =~= events@);
        out
    }
}

/// In any run of events, from any state, the bridge asks to subscribe
/// exactly at the successful connection attempts and nowhere else, and asks
/// to reconnect after exactly the losses and failed attempts, always after
/// the same fixed delay.
pub proof fn lemma_subscribe_only_on_success(s: BridgeState, es: Seq<MqttEvent>)
    ensures
        actions_of(s, es).len() == es.len(),
        forall|i: int|
            0 <= i < es.len() ==> ((#[trigger] actions_of(s, es)[i]) == BridgeAction::Subscribe
                <==> es[i] == MqttEvent::ConnectSuccess),
        forall|i: int|
            0 <= i < es.len() ==> ((#[trigger] actions_of(s, es)[i]) is Reconnect
                <==> (es[i] == MqttEvent::ConnectionLost || es[i] is ConnectFailure)),
        forall|i: int|
            0 <= i < es.len() && (#[trigger] actions_of(s, es)[i]) is Reconnect
                ==> actions_of(s, es)[i]->delay_ms == RECONNECT_DELAY_MS,
    decreases es.len(),
{
    if es.len() > 0 {
        lemma_subscribe_only_on_success(s, es.drop_last());
        let prev = actions_of(s, es.drop_last());
        assert forall|i: int| 0 <= i < es.len() - 1 implies actions_of(s, es)[i] == prev[i]
            && es[i] == es.drop_last()[i] by {}
    }
}

/// A run of events that ends with a successful attempt leaves the bridge
/// connected, whatever came before.
pub proof fn lemma_connected_after_success(s: BridgeState, es: Seq<MqttEvent>)
    requires
        es.len() > 0,
        es.last() == MqttEvent::ConnectSuccess,
    ensures
        state_after(s, es) == BridgeState::Connected,
{
}

} // verus!
