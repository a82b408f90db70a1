//! The Victron Multiplus 2 inverter with its home battery: connection, data
//! timeout and battery. The Modbus access and the power controller are the
//! caller's.
use crate::components::battery::{Battery, BatteryView};
use crate::components::connection::Connection;
use crate::utils::mqtt::{discovery_message, BinarySensor, MqttMessages, SensorConfig, TIMEOUT, MessageView};
use crate::utils::ticks::{ReceiveTimer, timer_after_tick, timer_online};
use vstd::prelude::*;

verus! {

/// The state of charge, tenths of a percent, held by the 16-bit register
/// (the register is a signed number).
pub open spec fn register_soc(raw: u16) -> int {
    if raw < 32768 { raw as int } else { raw as int - 65536 }
}

/// The state of charge in tenths of a percent from its Modbus register.
pub fn soc_from_register(raw: u16) -> (r: i32)
    ensures
        r as int == register_soc(raw),
{
    if raw < 32768 {
        raw as i32
    } else {
        raw as i32 - 65536
    }
}

/// The abstract state of the inverter.
pub struct MultiplusView {
    pub connection: Connection,
    pub timer: nat,
    pub battery: BatteryView,
}

/// The inverter: connection, data timeout and home battery.
pub struct Multiplus {
    tick_cnt: ReceiveTimer,
    connection: Connection,
    battery: Battery,
}

impl View for Multiplus {
    type V = MultiplusView;

    closed spec fn view(&self) -> MultiplusView {
        MultiplusView { connection: self.connection, timer: self.tick_cnt@, battery: self.battery@ }
    }
}

impl Multiplus {
    pub fn new(
        conn_topic: &'static str,
        conn_config: &'static BinarySensor,
        battery_config: &'static SensorConfig,
    ) -> (r: Self)
        ensures
            r@.timer == TIMEOUT,
            r@.connection.sent() == None::<bool>,
            r@.connection.config_topic_spec() == conn_topic@,
            r@.connection.state_topic() == conn_config.state_topic@,
            r@.battery == Battery::new_spec(battery_config),
    {
        Multiplus {
            tick_cnt: ReceiveTimer::new(),
            connection: Connection::new(conn_topic, conn_config),
            battery: Battery::new(battery_config),
        }
    }

    /// The discovery message of the connection (`payload` is its serialized
    /// description).
    pub fn power_up_msgs(&self, payload: &str) -> (r: MqttMessages)
        ensures
            r@ == seq![discovery_message(self@.connection.config_topic_spec(), payload@)],
    {
        self.connection.power_up_msgs(payload)
    }

    /// The power-up of the battery (see `Battery::power_up_msgs`).
    pub fn battery_power_up_msgs(&mut self, payload: &str, stored_soc: Option<i32>) -> (r: MqttMessages)
        ensures
            final(self)@ == (MultiplusView {
                battery: old(self)@.battery.after_power_up(stored_soc),
                ..old(self)@
            }),
            r@ == old(self)@.battery.power_up_msgs_spec(payload@, stored_soc),
    {
        self.battery.power_up_msgs(payload, stored_soc)
    }

    pub fn get_conn_state_sent(&self) -> (r: bool)
        ensures
            r == self@.connection.reported(),
    {
        self.connection.state()
    }

    pub fn battery(&self) -> (r: &Battery)
        ensures
            r@ == self@.battery,
    {
        &self.battery
    }

    /// Has to be called once a second: whether the inverter counts as
    /// connected, and the connection message.
    pub fn tick_1hz(&mut self) -> (r: (bool, MqttMessages))
        ensures
            r.0 == timer_online(old(self)@.timer),
            r.1@ == old(self)@.connection.set_state_msgs(r.0),
            final(self)@ == (MultiplusView {
                timer: timer_after_tick(old(self)@.timer),
                connection: old(self)@.connection.after_set_state(r.0),
                ..old(self)@
            }),
    {
        let state = self.tick_cnt.tick();
        let msgs = self.connection.set_state(state);
        (state, msgs)
    }

    /// The inverter answered.
    pub fn data_received(&mut self)
        ensures
            final(self)@ == (MultiplusView { timer: 0, ..old(self)@ }),
    {
        self.tick_cnt.received();
    }

    /// A state of charge was read from the battery register.
    pub fn set_state_of_charge(&mut self, raw: u16) -> (r: MqttMessages)
        ensures
            final(self)@ == (MultiplusView {
                battery: old(self)@.battery.after_measure(register_soc(raw)),
                ..old(self)@
            }),
            r@ == old(self)@.battery.measure_msgs(register_soc(raw)),
    {
        let soc = soc_from_register(raw);
        self.battery.set_state_of_charge(soc)
    }

    /// Whether the battery counts as full (see `Battery::is_full`).
    pub fn battery_is_full(&mut self) -> (r: bool)
        ensures
            r == old(self)@.battery.full(),
            final(self)@ == (MultiplusView { battery: old(self)@.battery.after_is_full(), ..old(self)@ }),
    {
        self.battery.is_full()
    }

    /// Whether the battery holds enough for the car (see
    /// `Battery::enough_for_car`).
    pub fn battery_enough_for_car(&mut self) -> (r: bool)
        ensures
            r == old(self)@.battery.enough(),
            final(self)@ == (MultiplusView {
                battery: old(self)@.battery.after_enough_for_car(),
                ..old(self)@
            }),
    {
        self.battery.enough_for_car()
    }

    /// The daily check of the charge target at the given local time (see
    /// `Battery::update_target`).
    pub fn battery_update_target(&mut self, weekday: u32, seconds: u32, nanos: u32)
        ensures
            final(self)@ == (MultiplusView {
                battery: BatteryView {
                    target: old(self)@.battery.target_at(weekday as nat, seconds as nat, nanos as nat),
                    ..old(self)@.battery
                },
                ..old(self)@
            }),
    {
        self.battery.update_target(weekday, seconds, nanos);
    }

    /// The room temperature, tenths of a degree Celsius, rounded down (see
    /// `Battery::set_room_temp`).
    pub fn set_room_temp(&mut self, temperature: i32) -> (r: MqttMessages)
        ensures
            final(self)@ == (MultiplusView {
                battery: BatteryView { room_temperature: temperature as int, ..old(self)@.battery },
                ..old(self)@
            }),
            r@ == Seq::<MessageView>::empty(),
    {
        self.battery.set_room_temp(temperature)
    }
}

} // verus!
