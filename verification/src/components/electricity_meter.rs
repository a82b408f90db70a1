//! Bookkeeping of an electricity meter that is displayed via MQTT: its
//! availability, which of its values are known, and the one-minute period
//! over which the mean power is taken. The measured values themselves are
//! kept by the caller.
use crate::utils::mqtt::{retained_message, MessageView, MqttMessage, SensorConfig};
use crate::utils::Availability;
use vstd::prelude::*;

verus! {

/// The period over which the average is calculated
pub const EMETER_MEAN_TIME: i32 = 60;

/// Which values of a meter a state message reports as new.
#[derive(PartialEq, Eq, Structural, Clone, Copy, Debug)]
pub struct EmeterTask {
    pub e_in: bool,
    pub e_out: bool,
    pub power: bool,
    pub sec_power: bool,
}

impl Default for EmeterTask {
    fn default() -> (r: Self)
        ensures
            r == (EmeterTask { e_in: false, e_out: false, power: false, sec_power: false }),
    {
        EmeterTask { e_in: false, e_out: false, power: false, sec_power: false }
    }
}

impl EmeterTask {
    /// Only the mean power is new.
    pub fn activate_power() -> (r: Self)
        ensures
            r == (EmeterTask { e_in: false, e_out: false, power: true, sec_power: false }),
    {
        EmeterTask { power: true, ..Default::default() }
    }
}

/// Details for the discovery message
#[derive(Debug)]
pub struct ConstEMeter {
    pub e_in: &'static SensorConfig,
    pub e_out: &'static SensorConfig,
    pub power: &'static SensorConfig,
    pub sec_power: &'static SensorConfig,
}

/// `availability == avail` as `Availability` compares with `bool`.
pub open spec fn availability_is(availability: Availability, avail: bool) -> bool {
    match availability {
        Availability::FirstRun => false,
        Availability::True => avail,
        Availability::False => !avail,
    }
}

/// The availability payload: `online` or `offline`.
pub open spec fn availability_payload(avail: bool) -> Seq<char> {
    if avail { "online"@ } else { "offline"@ }
}

/// The retained availability message of a meter.
pub fn availability_message(topic: &str, avail: bool) -> (r: MqttMessage)
    ensures
        r@ == retained_message(topic@, availability_payload(avail)),
{
    let payload = if avail {
        "online"
    } else {
        "offline"
    };
    MqttMessage::new(topic, payload).set_retain(true)
}

/// What a one-second tick asks the caller to do with the meter's values.
#[derive(PartialEq, Eq, Structural, Clone, Copy, Debug)]
pub struct MeterTick {
    /// Publish the new availability (`online` / `offline`).
    pub availability: Option<bool>,
    /// The meter just came online: restart the mean at the instantaneous
    /// power and publish the values named by the task.
    pub restart: Option<EmeterTask>,
    /// Add the instantaneous power to the running sum.
    pub accumulate: bool,
    /// The running sum now holds `EMETER_MEAN_TIME` samples: take the mean,
    /// clear the sum, publish the mean power and store it.
    pub mean: bool,
}

/// The abstract state of the bookkeeping.
pub struct MeterStatusView {
    pub avail: Availability,
    pub avail_e_in: bool,
    pub avail_e_out: bool,
    pub tick_count: int,
}

/// Availability, known values and position in the averaging period of an
/// electricity meter.
pub struct MeterStatus {
    avail: Availability,
    avail_e_in: bool,
    avail_e_out: bool,
    tick_count: i32,
}

impl View for MeterStatus {
    type V = MeterStatusView;

    closed spec fn view(&self) -> MeterStatusView {
        MeterStatusView {
            avail: self.avail,
            avail_e_in: self.avail_e_in,
            avail_e_out: self.avail_e_out,
            tick_count: self.tick_count as int,
        }
    }
}

impl MeterStatusView {
    /// Invariant: the position in the averaging period.
    pub open spec fn wf(self) -> bool {
        0 <= self.tick_count < EMETER_MEAN_TIME
    }

    /// Whether the instantaneous and the mean power can be read.
    pub open spec fn available(self) -> bool {
        self.avail == Availability::True
    }

    /// The state after a one-second tick, and what the tick asks for.
    pub open spec fn tick_step(self, avail: bool) -> (MeterStatusView, MeterTick) {
        let changed = !availability_is(self.avail, avail);
        let restarted = if changed {
            MeterStatusView {
                avail: if avail { Availability::True } else { Availability::False },
                tick_count: if avail { 0 } else { self.tick_count },
                ..self
            }
        } else {
            self
        };
        let count = restarted.tick_count + 1;
        let mean = avail && count >= EMETER_MEAN_TIME;
        let next = if !avail {
            restarted
        } else if mean {
            MeterStatusView { tick_count: 0, ..restarted }
        } else {
            MeterStatusView { tick_count: count, ..restarted }
        };
        (next, MeterTick {
            availability: if changed { Some(avail) } else { None },
            restart: if changed && avail {
                Some(
                    EmeterTask {
                        e_in: self.avail_e_in,
                        e_out: self.avail_e_out,
                        power: true,
                        sec_power: false,
                    },
                )
            } else {
                None
            },
            accumulate: avail,
            mean,
        })
    }

    /// The state after `n` ticks while the meter stays online.
    pub open spec fn online_ticks(self, n: nat) -> MeterStatusView
        decreases n,
    {
        if n == 0 {
            self
        } else {
            self.online_ticks((n - 1) as nat).tick_step(true).0
        }
    }
}

impl MeterStatus {
    #[verifier::type_invariant]
    closed spec fn inv(self) -> bool {
        0 <= self.tick_count < EMETER_MEAN_TIME
    }

    pub fn new() -> (r: Self)
        ensures
            r@ == (MeterStatusView {
                avail: Availability::FirstRun,
                avail_e_in: false,
                avail_e_out: false,
                tick_count: 0,
            }),
            r@.wf(),
    {
        MeterStatus {
            avail: Availability::FirstRun,
            avail_e_in: false,
            avail_e_out: false,
            tick_count: 0,
        }
    }

    /// Values read back from the database at power-up: each value that was
    /// found becomes known and is published.
    pub fn restore(&mut self, e_in: bool, e_out: bool, power: bool) -> (r: EmeterTask)
        ensures
            final(self)@ == (MeterStatusView {
                avail_e_in: old(self)@.avail_e_in || e_in,
                avail_e_out: old(self)@.avail_e_out || e_out,
                ..old(self)@
            }),
            r == (EmeterTask { e_in, e_out, power, sec_power: false }),
    {
        proof {
            use_type_invariant(&*self);
        }
        let mut task = EmeterTask::default();
        if e_in {
            self.avail_e_in = true;
            task.e_in = true;
        }
        if e_out {
            self.avail_e_out = true;
            task.e_out = true;
        }
        if power {
            task.power = true;
        }
        task
    }

    /// Call this routine every second with the availability of the device
    /// to maintain the connection state and the averaging period.
    pub fn tick_1hz(&mut self, avail: bool) -> (r: MeterTick)
        ensures
            old(self)@.wf(),
            final(self)@.wf(),
            (final(self)@, r) == old(self)@.tick_step(avail),
    {
        proof {
            use_type_invariant(&*self);
        }
        let mut availability = None;
        let mut restart = None;
        let mut accumulate = false;
        let mut mean = false;
        // check changes in availability
        if self.avail != avail {
            availability = Some(avail);
            // after being offline we are now first time online
            if avail {
                self.tick_count = 0;
                restart = Some(
                    EmeterTask {
                        e_in: self.avail_e_in,
                        e_out: self.avail_e_out,
                        power: true,
                        sec_power: false,
                    },
                );
            }
            self.avail = Availability::from(avail);
        }
        if self.avail == true {
            accumulate = true;
            if self.tick_count + 1 >= EMETER_MEAN_TIME {
                self.tick_count = 0;
                mean = true;
            } else {
                self.tick_count = self.tick_count + 1;
            }
        }
        proof {
            use_type_invariant(&*self);
        }
        MeterTick { availability, restart, accumulate, mean }
    }

    /// Whether the instantaneous and the mean power can be read.
    pub fn values_available(&self) -> (r: bool)
        ensures
            r == self@.available(),
    {
        self.avail == true
    }

    /// Whether the mean power has just been calculated.
    pub fn new_power_available(&self) -> (r: bool)
        ensures
            r == (self@.available() && self@.tick_count == 0),
    {
        self.avail == true && self.tick_count == 0
    }

    /// Whether the energy consumption is known.
    pub fn e_in_available(&self) -> (r: bool)
        ensures
            r == self@.avail_e_in,
    {
        self.avail_e_in
    }

    /// Whether the energy production is known.
    pub fn e_out_available(&self) -> (r: bool)
        ensures
            r == self@.avail_e_out,
    {
        self.avail_e_out
    }

    /// Whether a new instantaneous power is taken over and published: when
    /// it changed, and at the start of every averaging period in any case.
    pub fn sec_power_due(&self, changed: bool) -> (r: bool)
        ensures
            r == (changed || self@.tick_count == 0),
    {
        changed || self.tick_count == 0
    }
}

/// A tick keeps the position in the averaging period in range.
pub proof fn lemma_tick_wf(s: MeterStatusView, avail: bool)
    requires
        s.wf(),
    ensures
        s.tick_step(avail).0.wf(),
{
}

/// The availability is published exactly when it changes; the first tick
/// always publishes it. After the tick the values can be read exactly when
/// the device is available.
pub proof fn lemma_availability_published_on_change(s: MeterStatusView, avail: bool)
    ensures
        s.tick_step(avail).1.availability == (if availability_is(s.avail, avail) {
            None
        } else {
            Some(avail)
        }),
        s.avail == Availability::FirstRun ==> s.tick_step(avail).1.availability == Some(avail),
        s.tick_step(avail).0.available() == avail,
        s.tick_step(avail).1.restart is Some <==> (avail && !s.available()),
{
}

/// While the device stays online, the mean is taken on exactly every
/// `EMETER_MEAN_TIME`-th tick: `n` ticks after the start of a period the
/// position is `n % EMETER_MEAN_TIME`, and the next tick takes the mean
/// exactly when the position is `EMETER_MEAN_TIME - 1`.
pub proof fn lemma_mean_period(s: MeterStatusView, n: nat)
    requires
        s.available(),
        s.tick_count == 0,
    ensures
        s.online_ticks(n).available(),
        s.online_ticks(n).tick_count == n % 60,
        s.online_ticks(n).tick_step(true).1.mean <==> n % 60 == 59,
    decreases n,
{
    if n > 0 {
        lemma_mean_period(s, (n - 1) as nat);
    }
}

/// After an online tick, a fresh mean is available exactly when the tick
/// took it; after an offline tick no value is available.
pub proof fn lemma_new_power_after_mean(s: MeterStatusView, avail: bool)
    requires
        s.wf(),
    ensures
        avail ==> (s.tick_step(avail).0.tick_count == 0 <==> s.tick_step(avail).1.mean),
        !avail ==> !s.tick_step(avail).0.available(),
{
}

/// While the device stays online, the position in the averaging period
/// advances by one per tick, modulo `EMETER_MEAN_TIME`, and the mean is
/// taken exactly when the position wraps to zero.
pub proof fn lemma_online_ticks_count(s: MeterStatusView, n: nat)
    requires
        s.available(),
        s.wf(),
    ensures
        s.online_ticks(n).available(),
        s.online_ticks(n).tick_count == (s.tick_count + n) % 60,
        s.online_ticks(n).tick_step(true).1.mean <==> (s.tick_count + n) % 60 == 59,
    decreases n,
{
    if n > 0 {
        lemma_online_ticks_count(s, (n - 1) as nat);
    }
}

/// A tick that brings the meter online restarts the averaging period: it
/// counts as the first sample, takes no mean, and from there the mean is
/// taken exactly on every sixtieth online tick, the first one on the
/// sixtieth tick counting the one that brought the meter online.
pub proof fn lemma_reconnect_restarts_period(s: MeterStatusView, n: nat)
    requires
        s.wf(),
        !s.available(),
    ensures
        s.tick_step(true).0.available(),
        s.tick_step(true).0.tick_count == 1,
        !s.tick_step(true).1.mean,
        s.tick_step(true).1.restart is Some,
        s.tick_step(true).0.online_ticks(n).tick_step(true).1.mean <==> (n + 2) % 60 == 0,
        n + 2 < 60 ==> !s.tick_step(true).0.online_ticks(n).tick_step(true).1.mean,
{
    lemma_online_ticks_count(s.tick_step(true).0, n);
}

} // verus!
