//! The home battery: state of charge, charge target and the charge-level
//! rules with hysteresis.
//!
//! The state of charge is kept in tenths of a percent, the unit in which the
//! inverter reports it, and the room temperature in tenths of a degree Celsius,
//! rounded down.
use crate::utils::mqtt::{
    discovery, discovery_message, plain_message, MessageView, MqttMessage, MqttMessages,
    SensorConfig,
};
use crate::utils::text::{decimal, push_decimal};
use vstd::prelude::*;

verus! {

const MAX_TICK: u32 = 60;

#[derive(PartialEq, Eq, Structural, Debug, Clone, Copy)]
pub enum BatteryState {
    IsFull,
    EnoughForCar,
    NotEnoughForCar,
    IsEmpty,
}

#[derive(PartialEq, Eq, Structural, Debug, Clone, Copy)]
pub enum Target {
    ChargeLevel85,
    ChargeLevel100PeekThan85,
    ChargeLevel100,
}

/// The abstract state of a battery.
pub struct BatteryView {
    /// State of charge, tenths of a percent.
    pub soc: int,
    pub tick: nat,
    pub was_full: bool,
    pub was_enough: bool,
    pub target: Target,
    /// Room temperature, tenths of a degree Celsius.
    pub room_temperature: int,
    pub config_topic: Seq<char>,
    pub state_topic: Seq<char>,
}

pub struct Battery {
    soc: i32,
    tick: u32,
    was_full: bool,
    was_enough: bool,
    target: Target,
    room_temperature: i32,
    config: &'static SensorConfig,
}

impl View for Battery {
    type V = BatteryView;

    closed spec fn view(&self) -> BatteryView {
        BatteryView {
            soc: self.soc as int,
            tick: self.tick as nat,
            was_full: self.was_full,
            was_enough: self.was_enough,
            target: self.target,
            room_temperature: self.room_temperature as int,
            config_topic: self.config.topic@,
            state_topic: self.config.payload.state_topic@,
        }
    }
}

/// `m / 10` rounded to the nearest integer, ties to even.
pub open spec fn round_tenths(m: nat) -> nat {
    let q = m / 10;
    let r = m % 10;
    if r < 5 {
        q
    } else if r > 5 {
        q + 1
    } else if q % 2 == 0 {
        q
    } else {
        q + 1
    }
}

/// A state of charge in whole percent, as `{:.0}` prints `soc / 10`:
/// rounded to the nearest integer, ties to even, with the sign of `soc`.
pub open spec fn percent_text(soc: int) -> Seq<char> {
    if soc < 0 {
        seq!['-'] + decimal(round_tenths((-soc) as nat))
    } else {
        decimal(round_tenths(soc as nat))
    }
}

/// The JSON state payload of a state of charge.
pub open spec fn soc_payload(soc: int) -> Seq<char> {
    "{\"soc\": "@ + percent_text(soc) + "}"@
}

/// 04:00:00 to 04:00:03 local time, both included (`nanos` counts the
/// nanoseconds within the second).
pub open spec fn in_target_window(seconds: nat, nanos: nat) -> bool {
    &&& seconds >= 4 * 3600
    &&& (seconds < 4 * 3600 + 3 || (seconds == 4 * 3600 + 3 && nanos == 0))
}

impl BatteryView {
    /// Invariant of a battery.
    pub open spec fn wf(self) -> bool {
        self.tick < 60
    }

    /// What `is_full` answers.
    pub open spec fn full(self) -> bool {
        match self.target {
            Target::ChargeLevel100PeekThan85 => self.soc > 995,
            Target::ChargeLevel85 => if self.was_full {
                self.soc > 845
            } else {
                self.soc > 855
            },
            Target::ChargeLevel100 => self.soc > 995,
        }
    }

    /// The battery after `is_full`.
    pub open spec fn after_is_full(self) -> BatteryView {
        let target = if self.target == Target::ChargeLevel100PeekThan85 && self.soc > 995 {
            Target::ChargeLevel85
        } else {
            self.target
        };
        BatteryView { was_full: self.full(), target, ..self }
    }

    /// The threshold above which the energy suffices for the car.
    pub open spec fn car_limit(self) -> int {
        match self.target {
            Target::ChargeLevel100 => 645,
            _ => 495,
        }
    }

    /// What `enough_for_car` answers: above the limit, with one percent
    /// of hysteresis.
    pub open spec fn enough(self) -> bool {
        if self.was_enough {
            self.soc > self.car_limit()
        } else {
            self.soc > self.car_limit() + 10
        }
    }

    /// The battery after `enough_for_car`.
    pub open spec fn after_enough_for_car(self) -> BatteryView {
        BatteryView { was_enough: self.enough(), ..self }
    }

    /// What `is_empty` answers.
    pub open spec fn empty(self) -> bool {
        self.soc < 51
    }

    /// What `state` answers, and the battery after it.
    pub open spec fn state_step(self) -> (BatteryState, BatteryView) {
        if self.full() {
            (BatteryState::IsFull, self.after_is_full())
        } else if self.after_is_full().empty() {
            (BatteryState::IsEmpty, self.after_is_full())
        } else if self.after_is_full().enough() {
            (BatteryState::EnoughForCar, self.after_is_full().after_enough_for_car())
        } else {
            (BatteryState::NotEnoughForCar, self.after_is_full().after_enough_for_car())
        }
    }

    /// The target after the daily check at the given local time.
    pub open spec fn target_at(self, weekday: nat, seconds: nat, nanos: nat) -> Target {
        if in_target_window(seconds, nanos) {
            if self.room_temperature < 225 {
                Target::ChargeLevel100
            } else if weekday == 0 || self.target == Target::ChargeLevel100PeekThan85 {
                Target::ChargeLevel100PeekThan85
            } else {
                Target::ChargeLevel85
            }
        } else {
            self.target
        }
    }

    /// The battery after a new state of charge was measured.
    pub open spec fn after_measure(self, soc: int) -> BatteryView {
        let tick = ((self.tick + 1) % 60) as nat;
        BatteryView { tick, soc: if soc != self.soc || tick == 0 { soc } else { self.soc }, ..self }
    }

    /// What a new measurement publishes: the state of charge, when it
    /// changed or once a minute.
    pub open spec fn measure_msgs(self, soc: int) -> Seq<MessageView> {
        let tick = (self.tick + 1) % 60;
        if soc != self.soc || tick == 0 {
            seq![plain_message(self.state_topic, soc_payload(soc))]
        } else {
            Seq::empty()
        }
    }
}

fn rounded_percent(soc_tenths: u64) -> (r: u64)
    ensures
        r == round_tenths(soc_tenths as nat),
{
    let q = soc_tenths / 10;
    let rem = soc_tenths % 10;
    if rem < 5 {
        q
    } else if rem > 5 {
        q + 1
    } else if q % 2 == 0 {
        q
    } else {
        q + 1
    }
}

/// The JSON state payload of a state of charge (tenths of a percent).
pub fn soc_json(soc: i32) -> (r: String)
    ensures
        r@ == soc_payload(soc as int),
{
    proof {
        reveal_strlit("-");
    }
    let mut s = String::from_str("{\"soc\": ");
    let ghost prefix = s@;
    if soc < 0 {
        s.append("-");
        let magnitude: u64 = (0 - (soc as i64)) as u64;
        push_decimal(&mut s, rounded_percent(magnitude));
    } else {
        push_decimal(&mut s, rounded_percent(soc as u64));
    }
    assert(s@ == prefix + percent_text(soc as int));
    s.append("}");
    s
}

impl BatteryView {
    /// The battery after power-up with a stored state of charge, if any.
    pub open spec fn after_power_up(self, stored_soc: Option<i32>) -> BatteryView {
        match stored_soc {
            Some(soc) => BatteryView { soc: soc as int, ..self },
            None => self,
        }
    }

    /// What power-up publishes: the discovery message with the serialized
    /// description `payload`, then the stored state of charge, if any.
    pub open spec fn power_up_msgs_spec(self, payload: Seq<char>, stored_soc: Option<i32>) -> Seq<MessageView> {
        match stored_soc {
            Some(soc) => seq![
                discovery_message(self.config_topic, payload),
                plain_message(self.state_topic, soc_payload(soc as int)),
            ],
            None => seq![discovery_message(self.config_topic, payload)],
        }
    }
}

impl Battery {
    /// A new battery: empty, 85 % target, room at 20 °C.
    pub open spec fn new_spec(config: &'static SensorConfig) -> BatteryView {
        BatteryView {
            soc: 0,
            tick: 0,
            was_full: false,
            was_enough: false,
            target: Target::ChargeLevel85,
            room_temperature: 200,
            config_topic: config.topic@,
            state_topic: config.payload.state_topic@,
        }
    }

    #[verifier::type_invariant]
    closed spec fn inv(self) -> bool {
        self.tick < MAX_TICK
    }

    pub fn new(config: &'static SensorConfig) -> (r: Self)
        ensures
            r@ == Battery::new_spec(config),
    {
        Battery {
            soc: 0,
            tick: 0,
            was_full: false,
            was_enough: false,
            target: Target::ChargeLevel85,
            room_temperature: 200,
            config,
        }
    }

    /// The discovery message (`payload` is the serialized sensor description)
    /// and, when a state of charge was stored before, that value and its
    /// state message.
    pub fn power_up_msgs(&mut self, payload: &str, stored_soc: Option<i32>) -> (r: MqttMessages)
        ensures
            final(self)@ == old(self)@.after_power_up(stored_soc),
            r@ == old(self)@.power_up_msgs_spec(payload@, stored_soc),
    {
        proof {
            use_type_invariant(&*self);
        }
        let mut msgs = MqttMessages::from_msg(discovery(self.config.topic, payload));
        if let Some(soc) = stored_soc {
            msgs.push(self.set_soc(soc));
        }
        msgs
    }

    /// The state of charge, tenths of a percent.
    pub fn get_state_of_charge(&self) -> (r: i32)
        ensures
            r as int == self@.soc,
    {
        self.soc
    }

    /// Record a measured state of charge (tenths of a percent). It is
    /// published when it changed, and once a minute in any case; the caller
    /// stores a published value in the database.
    pub fn set_state_of_charge(&mut self, soc: i32) -> (r: MqttMessages)
        ensures
            old(self)@.wf(),
            final(self)@ == old(self)@.after_measure(soc as int),
            r@ == old(self)@.measure_msgs(soc as int),
    {
        proof {
            use_type_invariant(&*self);
        }
        self.tick = (self.tick + 1) % MAX_TICK;
        if soc != self.soc || self.tick == 0 {
            MqttMessages::from_msg(self.set_soc(soc))
        } else {
            MqttMessages::new()
        }
    }

    /// The daily check of the charge target, given the local time as the
    /// weekday (days from Monday), the seconds since midnight and the
    /// nanoseconds within the second. Once a day, between 04:00:00 and
    /// 04:00:03, choose the charge target: full charge when the room is
    /// colder than 22.5 °C, else a peak to 100 % on Mondays (kept until it is
    /// reached), else 85 %.
    pub fn update_target(&mut self, weekday: u32, seconds: u32, nanos: u32)
        ensures
            final(self)@ == (BatteryView {
                target: old(self)@.target_at(weekday as nat, seconds as nat, nanos as nat),
                ..old(self)@
            }),
    {
        proof {
            use_type_invariant(&*self);
        }
        let start: u32 = 4 * 3600;
        let end: u32 = 4 * 3600 + 3;
        if seconds >= start && (seconds < end || (seconds == end && nanos == 0)) {
            self.target = if weekday == 0 || self.target == Target::ChargeLevel100PeekThan85 {
                Target::ChargeLevel100PeekThan85
            } else {
                Target::ChargeLevel85
            };
            if self.room_temperature < 225 {
                self.target = Target::ChargeLevel100;
            }
        }
    }

    /// Record the room temperature (tenths of a degree Celsius, rounded down).
    pub fn set_room_temp(&mut self, temperature: i32) -> (r: MqttMessages)
        ensures
            final(self)@ == (BatteryView { room_temperature: temperature as int, ..old(self)@ }),
            r@ == Seq::<MessageView>::empty(),
    {
        proof {
            use_type_invariant(&*self);
        }
        self.room_temperature = temperature;
        MqttMessages::new()
    }

    /// Whether the battery counts as full for its target.
    pub fn is_full(&mut self) -> (r: bool)
        ensures
            r == old(self)@.full(),
            final(self)@ == old(self)@.after_is_full(),
    {
        proof {
            use_type_invariant(&*self);
        }
        let is_full = match self.target {
            Target::ChargeLevel100PeekThan85 => {
                if self.soc > 995 {
                    self.target = Target::ChargeLevel85;
                    true
                } else {
                    false
                }
            },
            Target::ChargeLevel85 => {
                if self.was_full {
                    // 1% hysteresis
                    self.soc > 845
                } else {
                    self.soc > 855
                }
            },
            Target::ChargeLevel100 => self.soc > 995,
        };
        self.was_full = is_full;
        is_full
    }

    /// Whether the stored energy suffices to charge the car.
    pub fn enough_for_car(&mut self) -> (r: bool)
        ensures
            r == old(self)@.enough(),
            final(self)@ == old(self)@.after_enough_for_car(),
    {
        proof {
            use_type_invariant(&*self);
        }
        let limit: i32 = match self.target {
            Target::ChargeLevel100 => 645,
            Target::ChargeLevel100PeekThan85 | Target::ChargeLevel85 => 495,
        };
        let is_enough = if self.was_enough {
            self.soc > limit
        } else {
            self.soc > limit + 10
        };
        self.was_enough = is_enough;
        is_enough
    }

    pub fn is_empty(&self) -> (r: bool)
        ensures
            r == self@.empty(),
    {
        self.soc < 51
    }

    pub fn state(&mut self) -> (r: BatteryState)
        ensures
            (r, final(self)@) == old(self)@.state_step(),
    {
        proof {
            use_type_invariant(&*self);
        }
        if self.is_full() {
            BatteryState::IsFull
        } else if self.is_empty() {
            BatteryState::IsEmpty
        } else if self.enough_for_car() {
            BatteryState::EnoughForCar
        } else {
            BatteryState::NotEnoughForCar
        }
    }

    fn set_soc(&mut self, soc: i32) -> (r: MqttMessage)
        ensures
            final(self)@ == (BatteryView { soc: soc as int, ..old(self)@ }),
            r@ == plain_message(old(self)@.state_topic, soc_payload(soc as int)),
    {
        proof {
            use_type_invariant(&*self);
        }
        self.soc = soc;
        let payload = soc_json(soc);
        MqttMessage::new(self.config.payload.state_topic, payload.as_str())
    }
}

/// Asking twice whether the battery is full gives the same answer and
/// leaves it as the first question did.
pub proof fn lemma_is_full_stable(b: BatteryView)
    ensures
        b.after_is_full().full() == b.full(),
        b.after_is_full().after_is_full() == b.after_is_full(),
{
}

/// At the 85 % target the battery is full above 85.5 %, not full up to
/// 84.5 %, and in between keeps the previous answer (one percent of
/// hysteresis).
pub proof fn lemma_full_hysteresis_85(b: BatteryView)
    requires
        b.target == Target::ChargeLevel85,
    ensures
        b.soc > 855 ==> b.full(),
        b.soc <= 845 ==> !b.full(),
        845 < b.soc <= 855 ==> b.full() == b.was_full,
{
}

/// A peak charge ends once reached: the target falls back to 85 %.
pub proof fn lemma_peak_ends_when_full(b: BatteryView)
    requires
        b.target == Target::ChargeLevel100PeekThan85,
    ensures
        b.full() <==> b.soc > 995,
        b.full() ==> b.after_is_full().target == Target::ChargeLevel85,
        !b.full() ==> b.after_is_full().target == Target::ChargeLevel100PeekThan85,
{
}

/// Asking twice whether the energy suffices for the car gives the same
/// answer; above the limit plus one percent it suffices, at or below the
/// limit it does not, and in between the previous answer is kept.
pub proof fn lemma_enough_for_car_hysteresis(b: BatteryView)
    ensures
        b.after_enough_for_car().enough() == b.enough(),
        b.after_enough_for_car().after_enough_for_car() == b.after_enough_for_car(),
        b.soc > b.car_limit() + 10 ==> b.enough(),
        b.soc <= b.car_limit() ==> !b.enough(),
        b.car_limit() < b.soc <= b.car_limit() + 10 ==> b.enough() == b.was_enough,
{
}

/// The battery state names exactly one of: full, empty, enough for the car,
/// not enough; a full battery is never reported empty.
pub proof fn lemma_state_classification(b: BatteryView)
    ensures
        b.state_step().0 == BatteryState::IsFull <==> b.full(),
        b.state_step().0 == BatteryState::IsEmpty ==> !b.full() && b.soc < 51,
        b.state_step().0 == BatteryState::EnoughForCar ==> !b.full() && b.soc >= 51,
        b.state_step().0 == BatteryState::NotEnoughForCar ==> !b.full() && b.soc >= 51,
{
}

/// Outside 04:00:00–04:00:03 the target never changes; inside, a room
/// colder than 22.5 °C always asks for a full charge.
pub proof fn lemma_target_window(b: BatteryView, weekday: nat, seconds: nat, nanos: nat)
    ensures
        !in_target_window(seconds, nanos) ==> b.target_at(weekday, seconds, nanos) == b.target,
        in_target_window(seconds, nanos) && b.room_temperature < 225 ==> b.target_at(
            weekday,
            seconds,
            nanos,
        ) == Target::ChargeLevel100,
        in_target_window(seconds, nanos) && b.room_temperature >= 225 && weekday == 0
            ==> b.target_at(weekday, seconds, nanos) == Target::ChargeLevel100PeekThan85,
{
}

/// A measured state of charge is published at least once every minute, and
/// whenever it changed; the last measurement is always the stored one.
pub proof fn lemma_measure_published(b: BatteryView, soc: int)
    requires
        b.wf(),
    ensures
        b.after_measure(soc).wf(),
        b.after_measure(soc).soc == soc,
        soc != b.soc ==> b.measure_msgs(soc).len() == 1,
        b.tick == 59 ==> b.measure_msgs(soc).len() == 1,
        b.measure_msgs(soc).len() <= 1,
{
}

/// At the 100 % target the battery is full exactly above 99.5 %, and
/// asking never changes that target: only a peak charge falls back to 85 %.
pub proof fn lemma_full_at_100_keeps_target(b: BatteryView)
    requires
        b.target == Target::ChargeLevel100,
    ensures
        b.full() <==> b.soc > 995,
        b.after_is_full().target == Target::ChargeLevel100,
        b.after_is_full().soc == b.soc,
        b.after_is_full().was_full == (b.soc > 995),
{
}

/// Asking whether the battery is full changes the target only when a peak
/// charge is reached; an 85 % target stays 85 %.
pub proof fn lemma_is_full_target_change(b: BatteryView)
    ensures
        b.after_is_full().target != b.target <==> (b.target == Target::ChargeLevel100PeekThan85
            && b.soc > 995),
        b.after_is_full().target != b.target ==> b.after_is_full().target == Target::ChargeLevel85,
{
}

/// The car limit is 49.5 % for the 85 % target and for a peak charge, and
/// 64.5 % only at the 100 % target, each with one percent of hysteresis.
pub proof fn lemma_car_limit_by_target(b: BatteryView)
    ensures
        b.target != Target::ChargeLevel100 ==> (b.soc > 505 ==> b.enough()),
        b.target != Target::ChargeLevel100 ==> (b.soc <= 495 ==> !b.enough()),
        b.target != Target::ChargeLevel100 && 495 < b.soc <= 505 ==> b.enough() == b.was_enough,
        b.target == Target::ChargeLevel100 ==> (b.soc > 655 ==> b.enough()),
        b.target == Target::ChargeLevel100 ==> (b.soc <= 645 ==> !b.enough()),
        b.target == Target::ChargeLevel100 && 645 < b.soc <= 655 ==> b.enough() == b.was_enough,
        b.after_enough_for_car().target == b.target,
        b.after_enough_for_car().soc == b.soc,
{
}

/// The daily choice in the window, case by case: a room below 22.5 °C asks
/// for 100 %; otherwise a Monday or a peak not yet reached asks for a peak
/// charge, and any other day gives 85 %, whatever the target was (a 100 %
/// target does not persist into a warm day).
pub proof fn lemma_target_choice(b: BatteryView, weekday: nat, seconds: nat, nanos: nat)
    requires
        in_target_window(seconds, nanos),
    ensures
        b.room_temperature < 225 ==> b.target_at(weekday, seconds, nanos) == Target::ChargeLevel100,
        b.room_temperature >= 225 && (weekday == 0 || b.target == Target::ChargeLevel100PeekThan85)
            ==> b.target_at(weekday, seconds, nanos) == Target::ChargeLevel100PeekThan85,
        b.room_temperature >= 225 && weekday != 0 && b.target != Target::ChargeLevel100PeekThan85
            ==> b.target_at(weekday, seconds, nanos) == Target::ChargeLevel85,
{
}

} // verus!
