//! Tasmota / infrared readers of the electricity meters: connection and data
//! timeout. The JSON readings themselves are decoded by the caller.
use crate::components::connection::Connection;
use crate::utils::mqtt::{discovery_message, BinarySensor, MqttMessages, TIMEOUT};
use crate::utils::ticks::{ReceiveTimer, timer_after_tick, timer_online};
use vstd::prelude::*;

verus! {

/// The abstract state of a meter reader.
pub struct TasmotaMeterView {
    pub connection: Connection,
    pub timer: nat,
}

/// A helper struct to handle tasmota mqtt messages
///
/// A 1 Hz tick function helps to check for active connections.
pub struct TasmotaMeter {
    connection: Connection,
    tick_cnt: ReceiveTimer,
}

impl View for TasmotaMeter {
    type V = TasmotaMeterView;

    closed spec fn view(&self) -> TasmotaMeterView {
        TasmotaMeterView { connection: self.connection, timer: self.tick_cnt@ }
    }
}

impl TasmotaMeter {
    /// Create a new meter
    pub fn new(conn_topic: &'static str, conn_config: &'static BinarySensor) -> (r: Self)
        ensures
            r@.timer == TIMEOUT,
            r@.connection.sent() == None::<bool>,
            r@.connection.config_topic_spec() == conn_topic@,
            r@.connection.state_topic() == conn_config.state_topic@,
    {
        TasmotaMeter { connection: Connection::new(conn_topic, conn_config), tick_cnt: ReceiveTimer::new() }
    }

    /// The discovery message of the connection (`payload` is its serialized
    /// description).
    pub fn power_up_msgs(&self, payload: &str) -> (r: MqttMessages)
        ensures
            r@ == seq![discovery_message(self@.connection.config_topic_spec(), payload@)],
    {
        self.connection.power_up_msgs(payload)
    }

    pub fn get_conn_state_sent(&self) -> (r: bool)
        ensures
            r == self@.connection.reported(),
    {
        self.connection.state()
    }

    /// A reading arrived from the meter.
    pub fn data_received(&mut self)
        ensures
            final(self)@ == (TasmotaMeterView { timer: 0, ..old(self)@ }),
    {
        self.tick_cnt.received();
    }

    /// Has to be called once a second: whether the meter counts as
    /// connected, and the connection message.
    pub fn tick_1hz(&mut self) -> (r: (bool, MqttMessages))
        ensures
            r.0 == timer_online(old(self)@.timer),
            r.1@ == old(self)@.connection.set_state_msgs(r.0),
            final(self)@ == (TasmotaMeterView {
                timer: timer_after_tick(old(self)@.timer),
                connection: old(self)@.connection.after_set_state(r.0),
            }),
    {
        let state = self.tick_cnt.tick();
        let msgs = self.connection.set_state(state);
        (state, msgs)
    }
}

} // verus!
