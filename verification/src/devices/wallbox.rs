//! The go-e wallbox: car state, the "no solar" switch and the bookkeeping of
//! the charge controller. The measured power and the averaging of the
//! available power are kept by the caller.
use crate::components::connection::Connection;
use crate::utils::mqtt::{
    discovery, discovery_message, plain_message, BinarySensor, MessageView, MqttMessage,
    MqttMessages,
};
use crate::utils::text::{decimal, decimal_string, digit_char, str_eq};
use crate::utils::ticks::{ReceiveTimer, TickDivider, timer_after_tick, timer_online, divider_after};
use vstd::prelude::*;

verus! {

/// The state the wallbox reports for the car.
#[derive(Debug, Clone, Copy, PartialEq, Eq, Structural)]
pub enum CarState {
    Unknown,
    Idle,
    Charging,
    WaitCar,
    Complete,
    Error,
    Intialisiing,
}

impl Default for CarState {
    fn default() -> (r: Self)
        ensures
            r == CarState::Unknown,
    {
        CarState::Unknown
    }
}

/// The car state of a wallbox code: 1 idle, 2 charging, 3 waiting for the
/// car, 4 complete, 5 error, 6 initialising, anything else unknown.
pub open spec fn car_state_of(value: u64) -> CarState {
    if value == 1 {
        CarState::Idle
    } else if value == 2 {
        CarState::Charging
    } else if value == 3 {
        CarState::WaitCar
    } else if value == 4 {
        CarState::Complete
    } else if value == 5 {
        CarState::Error
    } else if value == 6 {
        CarState::Intialisiing
    } else {
        CarState::Unknown
    }
}

impl From<u64> for CarState {
    fn from(value: u64) -> (r: Self) {
        match value {
            1 => CarState::Idle,
            2 => CarState::Charging,
            3 => CarState::WaitCar,
            4 => CarState::Complete,
            5 => CarState::Error,
            6 => CarState::Intialisiing,
            _ => CarState::Unknown,
        }
    }
}

impl vstd::std_specs::convert::FromSpecImpl<u64> for CarState {
    open spec fn obeys_from_spec() -> bool {
        true
    }

    open spec fn from_spec(v: u64) -> Self {
        car_state_of(v)
    }
}

impl CarState {
    /// Whether a car is plugged in: every state after `Idle`.
    pub open spec fn connected(self) -> bool {
        !(self == CarState::Unknown || self == CarState::Idle)
    }

    pub fn is_connected(&self) -> (r: bool)
        ensures
            r == self.connected(),
    {
        match self {
            CarState::Unknown | CarState::Idle => false,
            _ => true,
        }
    }
}

/// The number a JSON document holds, read as an unsigned 64-bit integer.
pub uninterp spec fn json_u64(payload: Seq<u8>) -> Option<u64>;

/// Parses `payload` with `serde_json::from_slice` into a `serde_json::Value`
/// and reads it with `serde_json::Value::as_u64`; a parse error gives
/// `None`. Claimed: the result depends on the bytes alone (it is named
/// `json_u64`); which number a document holds is left to serde_json.
#[verifier::external_body]
fn parse_json_u64(payload: &[u8]) -> (r: Option<u64>)
    ensures
        r == json_u64(payload@),
{
    match serde_json::from_slice::<serde_json::Value>(payload) {
        Ok(value) => value.as_u64(),
        Err(_) => None,
    }
}

/// Number of seconds over which the available power is averaged.
pub const MEAN_CNT: u32 = 60;

/// What a controller tick asks of the caller.
#[derive(Debug, Clone, Copy, PartialEq, Eq, Structural)]
pub struct CarTick {
    /// The "no solar" switch changed since the last tick.
    pub no_solar_changed: bool,
    /// The sum holds `MEAN_CNT` samples: take the mean and clear the sum.
    pub mean: bool,
}

/// The abstract state of the charge controller.
pub struct CarControlView {
    pub tick_cnt: nat,
    /// The charge power set on the wallbox, W.
    pub set_power: nat,
    pub no_solar: bool,
}

/// Bookkeeping of the charge controller: the averaging period, the switch
/// and the power set on the wallbox.
pub struct CarControl {
    tick_cnt: u32,
    set_power: u32,
    no_solar: bool,
}

impl View for CarControl {
    type V = CarControlView;

    closed spec fn view(&self) -> CarControlView {
        CarControlView {
            tick_cnt: self.tick_cnt as nat,
            set_power: self.set_power as nat,
            no_solar: self.no_solar,
        }
    }
}

/// The charge power of a setting: none when charging is stopped
/// (`frc == 1`), else the current times 230 V times the number of phases.
pub open spec fn setting_power(amp: u8, psm: u8, frc: u8) -> nat {
    if frc == 1 { 0 } else { (amp * 230 * psm) as nat }
}

/// The commands that put a setting on the wallbox: current, phases, and
/// the force state.
pub open spec fn setting_msgs(amp: u8, psm: u8, frc: u8) -> Seq<MessageView> {
    seq![
        plain_message("go-eCharger/083205/amp/set"@, decimal(amp as nat)),
        plain_message("go-eCharger/083205/psm/set"@, decimal(psm as nat)),
        plain_message("go-eCharger/083205/frc/set"@, decimal(frc as nat)),
    ]
}

impl CarControlView {
    /// The controller after the first half of an update, and what it asks.
    pub open spec fn begin_step(self, no_solar: bool) -> (CarControlView, CarTick) {
        let count = self.tick_cnt + 1;
        let mean = count == MEAN_CNT;
        (CarControlView {
            tick_cnt: if mean { 0 } else { count },
            no_solar,
            ..self
        }, CarTick { no_solar_changed: no_solar != self.no_solar, mean })
    }
}

impl CarControl {
    #[verifier::type_invariant]
    closed spec fn inv(self) -> bool {
        self.tick_cnt < MEAN_CNT
    }

    pub fn new() -> (r: Self)
        ensures
            r@ == (CarControlView { tick_cnt: 0, set_power: 0, no_solar: false }),
    {
        CarControl { tick_cnt: 0, set_power: 0, no_solar: false }
    }

    /// First half of the once-a-second update: note the switch and advance
    /// the averaging period.
    pub fn begin_update(&mut self, no_solar: bool) -> (r: CarTick)
        ensures
            old(self)@.tick_cnt < MEAN_CNT,
            final(self)@.tick_cnt < MEAN_CNT,
            (final(self)@, r) == old(self)@.begin_step(no_solar),
    {
        proof {
            use_type_invariant(&*self);
        }
        let no_solar_changed = no_solar != self.no_solar;
        self.no_solar = no_solar;
        let mut mean = false;
        // calc mean value of power
        if self.tick_cnt + 1 == MEAN_CNT {
            self.tick_cnt = 0;
            mean = true;
        } else {
            self.tick_cnt = self.tick_cnt + 1;
        }
        CarTick { no_solar_changed, mean }
    }

    /// Second half of the update, with the setting chosen for the mean
    /// power: record its power, and send it to the wallbox when the switch
    /// changed or a new mean was taken.
    pub fn finish_update(&mut self, tick: CarTick, amp: u8, psm: u8, frc: u8) -> (r: MqttMessages)
        ensures
            final(self)@ == (CarControlView { set_power: setting_power(amp, psm, frc), ..old(self)@ }),
            r@ == if tick.no_solar_changed || old(self)@.tick_cnt == 0 {
                setting_msgs(amp, psm, frc)
            } else {
                Seq::<MessageView>::empty()
            },
    {
        proof {
            use_type_invariant(&*self);
        }
        // calc set power
        if frc == 1 {
            self.set_power = 0;
        } else {
            assert(amp * 230 * psm <= 255 * 230 * 255) by (nonlinear_arith)
                requires
                    amp <= 255,
                    psm <= 255,
            ;
            self.set_power = (amp as u32) * 230 * (psm as u32);
        }
        // if no_solar or new set power value: push it to MQTT
        let mut r = MqttMessages::new();
        if tick.no_solar_changed || self.tick_cnt == 0 {
            let a = decimal_string(amp as u64);
            let p = decimal_string(psm as u64);
            let f = decimal_string(frc as u64);
            r.push(MqttMessage::new("go-eCharger/083205/amp/set", a.as_str()));
            r.push(MqttMessage::new("go-eCharger/083205/psm/set", p.as_str()));
            r.push(MqttMessage::new("go-eCharger/083205/frc/set", f.as_str()));
        }
        r
    }

    /// The charge power set on the wallbox, W.
    pub fn get_set_power(&self) -> (r: u32)
        ensures
            r == self@.set_power,
    {
        self.set_power
    }
}

/// The abstract state of the wallbox.
pub struct WallboxView {
    pub timer: nat,
    pub eto: nat,
    pub no_solar: bool,
    pub car_state: CarState,
    pub connection: Connection,
    pub car_control: CarControlView,
}

/// The wallbox: data timeout, car state, "no solar" switch, connection and
/// charge controller.
pub struct Wallbox {
    tick_cnt: ReceiveTimer,
    eto_cnt: TickDivider,
    no_solar: bool,
    car_state: CarState,
    connection: Connection,
    car_control: CarControl,
}

impl View for Wallbox {
    type V = WallboxView;

    closed spec fn view(&self) -> WallboxView {
        WallboxView {
            timer: self.tick_cnt@,
            eto: self.eto_cnt@,
            no_solar: self.no_solar,
            car_state: self.car_state,
            connection: self.connection,
            car_control: self.car_control@,
        }
    }
}

impl Wallbox {
    /// Create a new wallbox; `conn_topic` and `conn_config` describe its
    /// connection sensor.
    pub fn new(conn_topic: &'static str, conn_config: &'static BinarySensor) -> (r: Self)
        ensures
            r@.timer == crate::utils::mqtt::TIMEOUT,
            r@.eto == 0,
            !r@.no_solar,
            r@.car_state == CarState::Unknown,
            r@.connection.sent() == None::<bool>,
            r@.connection.config_topic_spec() == conn_topic@,
            r@.connection.state_topic() == conn_config.state_topic@,
            r@.car_control == (CarControlView { tick_cnt: 0, set_power: 0, no_solar: false }),
    {
        Wallbox {
            tick_cnt: ReceiveTimer::new(),
            eto_cnt: TickDivider::new(),
            no_solar: false,
            car_state: CarState::Unknown,
            connection: Connection::new(conn_topic, conn_config),
            car_control: CarControl::new(),
        }
    }

    /// The discovery messages of the connection and of the "no solar"
    /// switch (`conn_payload` and `switch_payload` are their serialized
    /// descriptions).
    pub fn power_up_msgs(&self, conn_payload: &str, switch_payload: &str) -> (r: MqttMessages)
        ensures
            r@ == seq![
                discovery_message(self@.connection.config_topic_spec(), conn_payload@),
                discovery_message("homeassistant/switch/simsys/no_solar_wallbox/config"@, switch_payload@),
            ],
    {
        let mut msgs = self.connection.power_up_msgs(conn_payload);
        msgs.push(discovery("homeassistant/switch/simsys/no_solar_wallbox/config", switch_payload));
        msgs
    }

    pub fn get_car_state(&self) -> (r: CarState)
        ensures
            r == self@.car_state,
    {
        self.car_state
    }

    pub fn get_conn_state_sent(&self) -> (r: bool)
        ensures
            r == self@.connection.reported(),
    {
        self.connection.state()
    }

    /// Whether the "no solar" switch is on: charge at full power.
    pub fn get_no_solar(&self) -> (r: bool)
        ensures
            r == self@.no_solar,
    {
        self.no_solar
    }

    /// Has to be called once a second: whether the wallbox counts as
    /// connected, and the connection message.
    pub fn tick_1hz(&mut self) -> (r: (bool, MqttMessages))
        ensures
            r.0 == timer_online(old(self)@.timer),
            r.1@ == old(self)@.connection.set_state_msgs(r.0),
            final(self)@ == (WallboxView {
                timer: timer_after_tick(old(self)@.timer),
                connection: old(self)@.connection.after_set_state(r.0),
                ..old(self)@
            }),
    {
        let state = self.tick_cnt.tick();
        let msgs = self.connection.set_state(state);
        (state, msgs)
    }

    /// First half of the control step: advance the charge controller with
    /// the current "no solar" switch.
    pub fn begin_control(&mut self) -> (r: CarTick)
        ensures
            (final(self)@.car_control, r) == old(self)@.car_control.begin_step(old(self)@.no_solar),
            final(self)@ == (WallboxView { car_control: final(self)@.car_control, ..old(self)@ }),
    {
        self.car_control.begin_update(self.no_solar)
    }

    /// Second half of the control step, with the chosen setting.
    pub fn finish_control(&mut self, tick: CarTick, amp: u8, psm: u8, frc: u8) -> (r: (u32, MqttMessages))
        ensures
            final(self)@ == (WallboxView {
                car_control: CarControlView {
                    set_power: setting_power(amp, psm, frc),
                    ..old(self)@.car_control
                },
                ..old(self)@
            }),
            r.0 == setting_power(amp, psm, frc),
            r.1@ == if tick.no_solar_changed || old(self)@.car_control.tick_cnt == 0 {
                setting_msgs(amp, psm, frc)
            } else {
                Seq::<MessageView>::empty()
            },
    {
        let msgs = self.car_control.finish_update(tick, amp, psm, frc);
        (self.car_control.get_set_power(), msgs)
    }

    /// The "no solar" switch was set: on for `on`, off for anything else.
    /// The payload is echoed on the switch's state topic.
    pub fn no_solar_switch(&mut self, payload: &str) -> (r: MqttMessages)
        ensures
            final(self)@ == (WallboxView { no_solar: payload@ == "on"@, ..old(self)@ }),
            r@ == seq![plain_message("simsys/e_meter/wallbox/no_solar_state"@, payload@)],
    {
        let mut msgs = MqttMessages::new();
        self.no_solar = str_eq(payload, "on");
        let msg = MqttMessage::new("simsys/e_meter/wallbox/no_solar_state", payload);
        msgs.push(msg);
        msgs
    }

    /// Get plug state from wallbox mqtt interface: a JSON number that is a
    /// car state code; any other payload leaves the state as it is.
    pub fn value_from_car(&mut self, payload: &[u8]) -> (r: MqttMessages)
        ensures
            final(self)@ == (WallboxView {
                car_state: match json_u64(payload@) {
                    Some(id) => car_state_of(id),
                    None => old(self)@.car_state,
                },
                ..old(self)@
            }),
            r@ == Seq::<MessageView>::empty(),
    {
        let value = parse_json_u64(payload);
        self.set_car_value(value)
    }

    /// The car state part of `value_from_car`, given the number read from
    /// the payload, if any.
    pub fn set_car_value(&mut self, value: Option<u64>) -> (r: MqttMessages)
        ensures
            final(self)@ == (WallboxView {
                car_state: match value {
                    Some(id) => car_state_of(id),
                    None => old(self)@.car_state,
                },
                ..old(self)@
            }),
            r@ == Seq::<MessageView>::empty(),
    {
        if let Some(id) = value {
            // 0: unknown 1: idle 2: charging 3: wait car 4: complete 5: error 6: initialising
            self.car_state = CarState::from(id);
        }
        MqttMessages::new()
    }

    /// The energy counter is reported every second; only every sixtieth
    /// report is taken over.
    pub fn eto_due(&mut self) -> (r: bool)
        ensures
            final(self)@ == (WallboxView { eto: divider_after(old(self)@.eto, 1), ..old(self)@ }),
            r == (divider_after(old(self)@.eto, 1) == 0),
    {
        self.eto_cnt.step()
    }

    /// A value arrived from the wallbox.
    pub fn data_received(&mut self)
        ensures
            final(self)@ == (WallboxView { timer: 0, ..old(self)@ }),
    {
        self.tick_cnt.received();
    }
}

/// The car state follows the code the wallbox sends; only codes 2 to 6 mean
/// that a car is plugged in.
pub proof fn lemma_car_state_codes(value: u64)
    ensures
        car_state_of(value).connected() <==> (2 <= value <= 6),
        value == 0 || value > 6 ==> car_state_of(value) == CarState::Unknown,
{
}

/// Stopping the charge sets no power; otherwise the power is current times
/// 230 V times phases.
pub proof fn lemma_setting_power(amp: u8, psm: u8, frc: u8)
    ensures
        frc == 1 ==> setting_power(amp, psm, frc) == 0,
        frc != 1 ==> setting_power(amp, psm, frc) == amp * 230 * psm,
{
}

/// A new setting is sent once per averaging period, and at once when the
/// "no solar" switch changes.
pub proof fn lemma_settings_sent(c: CarControlView, no_solar: bool)
    requires
        c.tick_cnt < MEAN_CNT,
    ensures
        c.begin_step(no_solar).1.no_solar_changed <==> no_solar != c.no_solar,
        c.begin_step(no_solar).1.mean <==> c.tick_cnt == MEAN_CNT - 1,
        c.begin_step(no_solar).0.tick_cnt == 0 <==> c.begin_step(no_solar).1.mean,
        c.begin_step(no_solar).0.no_solar == no_solar,
{
}

/// The digit of a number below ten names that number.
proof fn lemma_digit_char_injective(a: nat, b: nat)
    requires
        a < 10,
        b < 10,
        digit_char(a) == digit_char(b),
    ensures
        a == b,
{
}

/// A decimal representation has one digit below ten and more from ten on.
proof fn lemma_decimal_len(n: nat)
    ensures
        decimal(n).len() >= 1,
        n < 10 ==> decimal(n).len() == 1,
        n >= 10 ==> decimal(n).len() >= 2,
    decreases n,
{
    if n >= 10 {
        lemma_decimal_len(n / 10);
    }
}

/// A decimal representation names one number only.
pub proof fn lemma_decimal_injective(n: nat, m: nat)
    requires
        decimal(n) == decimal(m),
    ensures
        n == m,
    decreases n,
{
    lemma_decimal_len(n);
    lemma_decimal_len(m);
    if n < 10 && m < 10 {
        assert(decimal(n) == seq![digit_char(n)]);
        assert(decimal(m) == seq![digit_char(m)]);
        assert(decimal(n)[0] == digit_char(n));
        assert(decimal(m)[0] == digit_char(m));
        lemma_digit_char_injective(n, m);
    } else if n >= 10 && m >= 10 {
        assert(decimal(n) == decimal(n / 10).push(digit_char(n % 10)));
        assert(decimal(m) == decimal(m / 10).push(digit_char(m % 10)));
        assert(decimal(n).drop_last() == decimal(n / 10));
        assert(decimal(m).drop_last() == decimal(m / 10));
        assert(decimal(n).last() == digit_char(n % 10));
        assert(decimal(m).last() == digit_char(m % 10));
        lemma_digit_char_injective(n % 10, m % 10);
        lemma_decimal_injective(n / 10, m / 10);
    }
}

/// The three commands carry the setting itself: the current on `amp/set`,
/// the phases on `psm/set` and the force state on `frc/set`, each in
/// decimal, in that order.
pub proof fn lemma_setting_msgs_carry_setting(amp: u8, psm: u8, frc: u8)
    ensures
        setting_msgs(amp, psm, frc).len() == 3,
        setting_msgs(amp, psm, frc)[0] == plain_message("go-eCharger/083205/amp/set"@, decimal(amp as nat)),
        setting_msgs(amp, psm, frc)[1] == plain_message("go-eCharger/083205/psm/set"@, decimal(psm as nat)),
        setting_msgs(amp, psm, frc)[2] == plain_message("go-eCharger/083205/frc/set"@, decimal(frc as nat)),
{
}

/// Different settings send different commands: the commands determine the
/// current, the phases and the force state.
pub proof fn lemma_setting_msgs_determine_setting(
    amp: u8,
    psm: u8,
    frc: u8,
    amp2: u8,
    psm2: u8,
    frc2: u8,
)
    requires
        setting_msgs(amp, psm, frc) == setting_msgs(amp2, psm2, frc2),
    ensures
        amp == amp2,
        psm == psm2,
        frc == frc2,
{
    assert(setting_msgs(amp, psm, frc)[0] == setting_msgs(amp2, psm2, frc2)[0]);
    assert(setting_msgs(amp, psm, frc)[1] == setting_msgs(amp2, psm2, frc2)[1]);
    assert(setting_msgs(amp, psm, frc)[2] == setting_msgs(amp2, psm2, frc2)[2]);
    assert(decimal(amp as nat) == decimal(amp2 as nat));
    assert(decimal(psm as nat) == decimal(psm2 as nat));
    assert(decimal(frc as nat) == decimal(frc2 as nat));
    lemma_decimal_injective(amp as nat, amp2 as nat);
    lemma_decimal_injective(psm as nat, psm2 as nat);
    lemma_decimal_injective(frc as nat, frc2 as nat);
}

} // verus!
