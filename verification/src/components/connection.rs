//! Connection to a server: create MQTT discovery message and state messages
use crate::utils::mqtt::{
    discovery, discovery_message, retained_message, BinarySensor, MessageView, MqttMessage,
    MqttMessages,
};
use vstd::prelude::*;

verus! {

/// The connection struct checks and signals connection to a remote server
pub struct Connection {
    config_topic: &'static str,
    config: &'static BinarySensor,
    state_sent: Option<bool>,
}

/// The payload of a connection state: `ON` when connected, else `OFF`.
pub open spec fn state_payload(state: bool) -> Seq<char> {
    if state { "ON"@ } else { "OFF"@ }
}

impl Connection {
    /// The state last published, if any.
    pub closed spec fn sent(&self) -> Option<bool> {
        self.state_sent
    }

    /// The topic of the discovery message.
    pub closed spec fn config_topic_spec(&self) -> Seq<char> {
        self.config_topic@
    }

    /// The topic the state is published on.
    pub closed spec fn state_topic(&self) -> Seq<char> {
        self.config.state_topic@
    }

    /// The state the connection reports: the last state published, or
    /// disconnected before the first one.
    pub open spec fn reported(&self) -> bool {
        self.sent() == Some(true)
    }

    /// The connection after `set_state(state)`.
    pub closed spec fn after_set_state(self, state: bool) -> Connection {
        Connection { state_sent: Some(state), ..self }
    }

    /// What `set_state(state)` publishes: the new state, retained, unless it
    /// equals the state published last.
    pub open spec fn set_state_msgs(&self, state: bool) -> Seq<MessageView> {
        if self.sent() == Some(state) {
            Seq::empty()
        } else {
            seq![retained_message(self.state_topic(), state_payload(state))]
        }
    }

    /// Create a connection struct
    pub fn new(config_topic: &'static str, config: &'static BinarySensor) -> (r: Self)
        ensures
            r.sent() == None::<bool>,
            r.config_topic_spec() == config_topic@,
            r.state_topic() == config.state_topic@,
    {
        Connection { config_topic, config, state_sent: None }
    }

    /// Create discovery message; `payload` is the serialized description of
    /// the binary sensor.
    pub fn power_up_msgs(&self, payload: &str) -> (r: MqttMessages)
        ensures
            r@ == seq![discovery_message(self.config_topic_spec(), payload@)],
    {
        MqttMessages::from_msg(discovery(self.config_topic, payload))
    }

    /// Set state of the connection. It is usually checked whether data is being received from
    /// the server on a regular basis
    pub fn set_state(&mut self, state: bool) -> (r: MqttMessages)
        ensures
            *final(self) == old(self).after_set_state(state),
            r@ == old(self).set_state_msgs(state),
    {
        match self.state_sent {
            Some(state_sent) => {
                if state != state_sent {
                    self.state_sent = Some(state);
                    self.create_message()
                } else {
                    MqttMessages::new()
                }
            },
            None => {
                // This ensures that the current status is actually sent after the power-up
                self.state_sent = Some(state);
                self.create_message()
            },
        }
    }

    /// Get the state of the connection
    pub fn state(&self) -> (r: bool)
        ensures
            r == self.reported(),
    {
        if let Some(state) = self.state_sent {
            state
        } else {
            false
        }
    }

    fn create_message(&self) -> (r: MqttMessages)
        ensures
            r@ == seq![retained_message(self.state_topic(), state_payload(self.reported()))],
    {
        let topic = self.config.state_topic;
        let payload = if self.state() {
            "ON"
        } else {
            "OFF"
        };
        MqttMessages::from_msg(MqttMessage::new(topic, payload).set_retain(true))
    }
}

/// After `set_state(state)` the connection reports `state`.
pub proof fn lemma_state_after_set_state(c: Connection, state: bool)
    ensures
        c.after_set_state(state).reported() == state,
        c.after_set_state(state).sent() == Some(state),
{
}

/// Setting the same state twice publishes it at most once: the second call
/// publishes nothing and changes nothing.
pub proof fn lemma_set_state_idempotent(c: Connection, state: bool)
    ensures
        c.after_set_state(state).set_state_msgs(state) == Seq::<MessageView>::empty(),
        c.after_set_state(state).after_set_state(state) == c.after_set_state(state),
{
}

/// A state is published exactly when it differs from the last one published;
/// the first state after power-up is always published.
pub proof fn lemma_publish_on_change(c: Connection, state: bool)
    ensures
        c.set_state_msgs(state).len() == 1 <==> c.sent() != Some(state),
        c.sent() is None ==> c.set_state_msgs(state).len() == 1,
        c.set_state_msgs(state).len() <= 1,
{
}

/// Setting a state keeps the topics of the connection.
pub proof fn lemma_set_state_keeps_topics(c: Connection, state: bool)
    ensures
        c.after_set_state(state).state_topic() == c.state_topic(),
        c.after_set_state(state).config_topic_spec() == c.config_topic_spec(),
{
}

} // verus!
