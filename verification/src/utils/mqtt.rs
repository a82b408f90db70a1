//! MQTT messages and the Home Assistant discovery descriptions.
use vstd::prelude::*;

verus! {

/// Defines the maximum age of the values in seconds before they are discarded
pub const TIMEOUT: usize = 10;

/// Quality of service of an MQTT publication.
#[derive(PartialEq, Eq, Structural, Clone, Copy, Debug)]
pub enum QoS {
    AtMostOnce,
    AtLeastOnce,
    ExactlyOnce,
}

/// What a message is: topic, payload, quality of service and retain flag.
pub struct MessageView {
    pub topic: Seq<char>,
    pub payload: Seq<char>,
    pub qos: QoS,
    pub retain: bool,
}

/// A message to be published on the MQTT broker.
#[derive(Debug)]
pub struct MqttMessage {
    topic: String,
    payload: String,
    qos: QoS,
    retain: bool,
}

impl View for MqttMessage {
    type V = MessageView;

    closed spec fn view(&self) -> MessageView {
        MessageView {
            topic: self.topic@,
            payload: self.payload@,
            qos: self.qos,
            retain: self.retain,
        }
    }
}

/// A plain message: delivered at most once and not retained.
pub open spec fn plain_message(topic: Seq<char>, payload: Seq<char>) -> MessageView {
    MessageView { topic, payload, qos: QoS::AtMostOnce, retain: false }
}

/// A retained message (quality of service "at most once").
pub open spec fn retained_message(topic: Seq<char>, payload: Seq<char>) -> MessageView {
    MessageView { topic, payload, qos: QoS::AtMostOnce, retain: true }
}

/// A discovery message: delivered at least once and retained by the broker.
pub open spec fn discovery_message(topic: Seq<char>, payload: Seq<char>) -> MessageView {
    MessageView { topic, payload, qos: QoS::AtLeastOnce, retain: true }
}

impl MqttMessage {
    /// A message with the given topic and payload, quality of service
    /// "at most once", not retained.
    pub fn new(topic: &str, payload: &str) -> (r: MqttMessage)
        ensures
            r@ == plain_message(topic@, payload@),
    {
        MqttMessage {
            topic: String::from_str(topic),
            payload: String::from_str(payload),
            qos: QoS::AtMostOnce,
            retain: false,
        }
    }

    pub fn set_retain(self, retain: bool) -> (r: MqttMessage)
        ensures
            r@ == (MessageView { retain, ..self@ }),
    {
        MqttMessage { retain, ..self }
    }

    pub fn set_qos(self, qos: QoS) -> (r: MqttMessage)
        ensures
            r@ == (MessageView { qos, ..self@ }),
    {
        MqttMessage { qos, ..self }
    }

    pub fn payload(&self) -> (r: String)
        ensures
            r@ == self@.payload,
    {
        self.payload.clone()
    }

    pub fn topic(&self) -> (r: String)
        ensures
            r@ == self@.topic,
    {
        self.topic.clone()
    }

    pub fn qos(&self) -> (r: QoS)
        ensures
            r == self@.qos,
    {
        self.qos
    }

    pub fn retain(&self) -> (r: bool)
        ensures
            r == self@.retain,
    {
        self.retain
    }
}

/// A discovery message for Home Assistant: the serialized description
/// `payload` published on `topic`, at least once and retained.
pub fn discovery(topic: &str, payload: &str) -> (r: MqttMessage)
    ensures
        r@ == discovery_message(topic@, payload@),
{
    MqttMessage::new(topic, payload).set_qos(QoS::AtLeastOnce).set_retain(true)
}

/// An ordered batch of messages to publish.
#[derive(Debug)]
pub struct MqttMessages(Vec<MqttMessage>);

impl View for MqttMessages {
    type V = Seq<MessageView>;

    closed spec fn view(&self) -> Seq<MessageView> {
        self.0@.map_values(|m: MqttMessage| m@)
    }
}

impl MqttMessages {
    pub fn new() -> (r: MqttMessages)
        ensures
            r@ == Seq::<MessageView>::empty(),
    {
        let r = MqttMessages(Vec::new());
        assert(r@ =~= Seq::<MessageView>::empty());
        r
    }

    pub fn from_msg(msg: MqttMessage) -> (r: MqttMessages)
        ensures
            r@ == seq![msg@],
    {
        let mut v = Vec::new();
        v.push(msg);
        let r = MqttMessages(v);
        assert(r@ =~= seq![msg@]);
        r
    }

    pub fn is_empty(&self) -> (r: bool)
        ensures
            r == (self@.len() == 0),
    {
        self.0.len() == 0
    }

    pub fn len(&self) -> (r: usize)
        ensures
            r == self@.len(),
    {
        self.0.len()
    }

    /// Appends one message at the end.
    pub fn push(&mut self, msg: MqttMessage)
        ensures
            final(self)@ == old(self)@.push(msg@),
    {
        self.0.push(msg);
        assert(self@ =~= old(self)@.push(msg@));
    }

    /// Appends all messages of `other`, keeping their order.
    pub fn append(&mut self, other: MqttMessages)
        ensures
            final(self)@ == old(self)@ + other@,
    {
        let ghost added = other@;
        let mut other = other;
        self.0.append(&mut other.0);
        assert(self@ =~= old(self)@ + added);
    }

    /// The messages, in order.
    pub fn into_vec(self) -> (r: Vec<MqttMessage>)
        ensures
            r@.map_values(|m: MqttMessage| m@) == self@,
    {
        self.0
    }
}

impl std::ops::AddAssign<MqttMessage> for MqttMessages {
    fn add_assign(&mut self, rhs: MqttMessage)
        ensures
            final(self)@ == old(self)@.push(rhs@),
    {
        self.push(rhs);
    }
}

impl std::ops::AddAssign<MqttMessages> for MqttMessages {
    fn add_assign(&mut self, rhs: MqttMessages)
        ensures
            final(self)@ == old(self)@ + rhs@,
    {
        self.append(rhs);
    }
}

/// Connection parameters of the MQTT broker.
#[derive(Debug)]
pub struct MqttConfig {
    pub id: String,
    pub host: String,
    pub username: String,
    pub password: String,
}

// ------------------------------------- MQTT Elements ----------------------------------------

/// Fixed details for the discovery messages
#[derive(Debug)]
pub struct Device {
    pub identifiers: [&'static str; 1],
    pub name: &'static str,
    pub manufacturer: &'static str,
}

/// Discovery description of a switch.
#[derive(Debug)]
pub struct Switch {
    pub name: &'static str,
    pub platform: &'static str,
    pub unique_id: &'static str,
    pub command_topic: &'static str,
    pub state_topic: &'static str,
    pub payload_off: &'static str,
    pub payload_on: &'static str,
    pub device: &'static Device,
}

#[derive(Debug)]
pub struct SwitchConfig {
    pub topic: &'static str,
    pub payload: &'static Switch,
}

/// Discovery description of a sensor.
#[derive(Debug)]
pub struct Sensor {
    pub name: &'static str,
    pub platform: &'static str,
    pub unique_id: &'static str,
    pub enabled_by_default: bool,
    pub state_topic: &'static str,
    pub availability_topic: &'static str,
    pub unit_of_measurement: &'static str,
    pub device_class: &'static str,
    pub state_class: &'static str,
    pub value_template: &'static str,
    pub suggested_display_precision: u8,
    pub device: &'static Device,
}

#[derive(Debug)]
pub struct SensorConfig {
    pub topic: &'static str,
    pub payload: &'static Sensor,
}

/// Discovery description of a binary sensor.
#[derive(Debug)]
pub struct BinarySensor {
    pub name: &'static str,
    pub platform: &'static str,
    pub unique_id: &'static str,
    pub state_topic: &'static str,
    pub device_class: &'static str,
    pub device: &'static Device,
}

#[derive(Debug)]
pub struct BinarySensorConfig {
    pub topic: &'static str,
    pub payload: &'static BinarySensor,
}

} // verus!
