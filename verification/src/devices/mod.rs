//! The devices of the installation: which MQTT topics feed which device, and
//! the periodic report of which devices are online.
//!
//! Signs used by the meters: consumption is negative for the heat pump, the
//! household and the wallbox; the inverter is positive when the battery
//! discharges; the grid meter is positive when energy flows to the grid; the
//! solar meter is positive when producing.
pub mod multiplus;
pub mod tasmota_meters;
pub mod wallbox;

use crate::utils::text::str_eq;
use vstd::prelude::*;

verus! {

/// The handler of an incoming MQTT message.
#[derive(Debug, Clone, Copy, PartialEq, Eq, Structural)]
pub enum Route {
    /// Reading of meter z1 (home consumption).
    Z1,
    /// Reading of meter z2 (grid).
    Z2,
    /// Reading of meter z3 (solar).
    Z3,
    /// Energy counter of the wallbox.
    WallboxEto,
    /// Power readings of the wallbox.
    WallboxNrg,
    /// Car state of the wallbox.
    WallboxCar,
    /// Command of the "no solar" switch.
    WallboxNoSolar,
}

/// The handler of a topic, if any.
pub open spec fn route_of(topic: Seq<char>) -> Option<Route> {
    if topic == "tasmota/electricity-meter/z1/SENSOR"@ {
        Some(Route::Z1)
    } else if topic == "tasmota/electricity-meter/z2/SENSOR"@ {
        Some(Route::Z2)
    } else if topic == "tasmota/electricity-meter/z3/SENSOR"@ {
        Some(Route::Z3)
    } else if topic == "go-eCharger/083205/eto"@ {
        Some(Route::WallboxEto)
    } else if topic == "go-eCharger/083205/nrg"@ {
        Some(Route::WallboxNrg)
    } else if topic == "go-eCharger/083205/car"@ {
        Some(Route::WallboxCar)
    } else if topic == "simsys/e_meter/wallbox/no_solar_cmd"@ {
        Some(Route::WallboxNoSolar)
    } else {
        None
    }
}

/// The topics the devices listen to.
pub open spec fn subscribed_topics() -> Seq<Seq<char>> {
    seq![
        "go-eCharger/083205/car"@,
        "go-eCharger/083205/eto"@,
        "go-eCharger/083205/nrg"@,
        "tasmota/electricity-meter/+/SENSOR"@,
        "simsys/e_meter/wallbox/no_solar_cmd"@,
    ]
}

/// `name` if `cond` holds, else nothing.
pub open spec fn pick(cond: bool, name: Seq<char>) -> Seq<Seq<char>> {
    if cond { seq![name] } else { Seq::empty() }
}

/// The names of the devices whose connection state is `want`, in the order
/// z1, z2, z3, multiplus, wallbox.
pub open spec fn names_with(states: (bool, bool, bool, bool, bool), want: bool) -> Seq<Seq<char>> {
    pick(states.0 == want, "z1"@) + pick(states.1 == want, "z2"@) + pick(states.2 == want, "z3"@)
        + pick(states.3 == want, "multiplus"@) + pick(states.4 == want, "wallbox"@)
}

/// What the periodic connection report says.
pub enum OnlineReport {
    /// Nothing to report.
    Quiet,
    /// All devices are online again.
    AllOnline,
    /// Some devices are offline: their names, and those of the others.
    Offline { offline: Vec<&'static str>, online: Vec<&'static str> },
}

/// The names in a list, as text.
pub open spec fn name_views(names: Seq<&'static str>) -> Seq<Seq<char>> {
    names.map_values(|s: &'static str| s@)
}

/// The abstract state of the device report.
pub struct DevicesView {
    pub cnt: nat,
    pub info_online: bool,
}

impl DevicesView {
    /// The report after a tick with the given connection states.
    pub open spec fn after_report(self, states: (bool, bool, bool, bool, bool)) -> DevicesView {
        let cnt = (self.cnt + 1) % 8;
        let all = states.0 && states.1 && states.2 && states.3 && states.4;
        DevicesView {
            cnt: cnt as nat,
            info_online: if cnt == 7 { all } else { self.info_online },
        }
    }

    /// Whether the tick reports that all devices are online.
    pub open spec fn reports_all_online(self, states: (bool, bool, bool, bool, bool)) -> bool {
        let all = states.0 && states.1 && states.2 && states.3 && states.4;
        (self.cnt + 1) % 8 == 7 && all && !self.info_online
    }

    /// Whether the tick reports offline devices.
    pub open spec fn reports_offline(self, states: (bool, bool, bool, bool, bool)) -> bool {
        let all = states.0 && states.1 && states.2 && states.3 && states.4;
        (self.cnt + 1) % 8 == 7 && !all
    }
}

/// The installation-wide state: the report counter and whether "all devices
/// are online" has been said since the last outage.
pub struct Devices {
    cnt: u32,
    info_online: bool,
}

impl View for Devices {
    type V = DevicesView;

    closed spec fn view(&self) -> DevicesView {
        DevicesView { cnt: self.cnt as nat, info_online: self.info_online }
    }
}

/// The handler of an incoming message's topic, if any.
pub fn route_topic(topic: &str) -> (r: Option<Route>)
    ensures
        r == route_of(topic@),
{
    if str_eq(topic, "tasmota/electricity-meter/z1/SENSOR") {
        Some(Route::Z1)
    } else if str_eq(topic, "tasmota/electricity-meter/z2/SENSOR") {
        Some(Route::Z2)
    } else if str_eq(topic, "tasmota/electricity-meter/z3/SENSOR") {
        Some(Route::Z3)
    } else if str_eq(topic, "go-eCharger/083205/eto") {
        Some(Route::WallboxEto)
    } else if str_eq(topic, "go-eCharger/083205/nrg") {
        Some(Route::WallboxNrg)
    } else if str_eq(topic, "go-eCharger/083205/car") {
        Some(Route::WallboxCar)
    } else if str_eq(topic, "simsys/e_meter/wallbox/no_solar_cmd") {
        Some(Route::WallboxNoSolar)
    } else {
        None
    }
}

impl Devices {
    #[verifier::type_invariant]
    closed spec fn inv(self) -> bool {
        self.cnt < 8
    }

    pub fn new() -> (r: Self)
        ensures
            r@ == (DevicesView { cnt: 0, info_online: false }),
    {
        Devices { cnt: 0, info_online: false }
    }

    /// The topics the devices listen to.
    pub fn subscribe_topics(&self) -> (r: Vec<&'static str>)
        ensures
            name_views(r@) == subscribed_topics(),
    {
        let mut v: Vec<&'static str> = Vec::new();
        v.push("go-eCharger/083205/car");
        v.push("go-eCharger/083205/eto");
        v.push("go-eCharger/083205/nrg");
        v.push("tasmota/electricity-meter/+/SENSOR");
        v.push("simsys/e_meter/wallbox/no_solar_cmd");
        assert(name_views(v@) =~= subscribed_topics());
        v
    }

    /// Which device an incoming message is for.
    pub fn process_msgs(&self, topic: &str) -> (r: Option<Route>)
        ensures
            r == route_of(topic@),
    {
        route_topic(topic)
    }

    /// Once a second, with the connection states of z1, z2, z3, the
    /// inverter and the wallbox: every eighth second, report the devices
    /// that are offline, or, once after an outage, that all are online.
    pub fn connection_report(
        &mut self,
        z1: bool,
        z2: bool,
        z3: bool,
        multiplus: bool,
        wallbox: bool,
    ) -> (r: OnlineReport)
        ensures
            final(self)@ == old(self)@.after_report((z1, z2, z3, multiplus, wallbox)),
            r matches OnlineReport::AllOnline <==> old(self)@.reports_all_online(
                (z1, z2, z3, multiplus, wallbox),
            ),
            r matches OnlineReport::Offline { .. } <==> old(self)@.reports_offline(
                (z1, z2, z3, multiplus, wallbox),
            ),
            r matches OnlineReport::Offline { offline, online } ==> name_views(offline@)
                == names_with((z1, z2, z3, multiplus, wallbox), false) && name_views(online@)
                == names_with((z1, z2, z3, multiplus, wallbox), true),
    {
        proof {
            use_type_invariant(&*self);
        }
        let ghost states = (z1, z2, z3, multiplus, wallbox);
        let mut ok_conns: Vec<&'static str> = Vec::new();
        let mut error_cons: Vec<&'static str> = Vec::new();
        let ghost empty: Seq<Seq<char>> = Seq::empty();
        assert(name_views(ok_conns@) =~= empty);
        assert(name_views(error_cons@) =~= empty);
        if z1 {
            ok_conns.push("z1");
        } else {
            error_cons.push("z1");
        }
        assert(name_views(ok_conns@) =~= pick(z1, "z1"@));
        assert(name_views(error_cons@) =~= pick(!z1, "z1"@));
        if z2 {
            ok_conns.push("z2");
        } else {
            error_cons.push("z2");
        }
        assert(name_views(ok_conns@) =~= pick(z1, "z1"@) + pick(z2, "z2"@));
        assert(name_views(error_cons@) =~= pick(!z1, "z1"@) + pick(!z2, "z2"@));
        if z3 {
            ok_conns.push("z3");
        } else {
            error_cons.push("z3");
        }
        assert(name_views(ok_conns@) =~= pick(z1, "z1"@) + pick(z2, "z2"@) + pick(z3, "z3"@));
        assert(name_views(error_cons@) =~= pick(!z1, "z1"@) + pick(!z2, "z2"@) + pick(!z3, "z3"@));
        if multiplus {
            ok_conns.push("multiplus");
        } else {
            error_cons.push("multiplus");
        }
        assert(name_views(ok_conns@) =~= pick(z1, "z1"@) + pick(z2, "z2"@) + pick(z3, "z3"@)
            + pick(multiplus, "multiplus"@));
        assert(name_views(error_cons@) =~= pick(!z1, "z1"@) + pick(!z2, "z2"@) + pick(!z3, "z3"@)
            + pick(!multiplus, "multiplus"@));
        if wallbox {
            ok_conns.push("wallbox");
        } else {
            error_cons.push("wallbox");
        }
        assert(name_views(ok_conns@) =~= names_with(states, true));
        assert(name_views(error_cons@) =~= names_with(states, false));

        let next = self.cnt + 1;
        assert((next & 0x07u32) == next % 8) by (bit_vector);
        self.cnt = next & 0x07;
        let n = self.cnt;
        assert((n & 0x07u32) == n % 8) by (bit_vector);
        if self.cnt & 0x07 == 0x07 {
            if error_cons.len() == 0 {
                if !self.info_online {
                    self.info_online = true;
                    OnlineReport::AllOnline
                } else {
                    OnlineReport::Quiet
                }
            } else {
                self.info_online = false;
                OnlineReport::Offline { offline: error_cons, online: ok_conns }
            }
        } else {
            OnlineReport::Quiet
        }
    }
}

/// Reports come at most every eighth tick: after a report the next seven
/// ticks are quiet.
pub proof fn lemma_report_period(d: DevicesView, states: (bool, bool, bool, bool, bool))
    requires
        d.cnt < 8,
    ensures
        d.after_report(states).cnt < 8,
        d.reports_all_online(states) || d.reports_offline(states) ==> d.after_report(states).cnt
            == 7,
        d.cnt != 6 ==> !d.reports_all_online(states) && !d.reports_offline(states),
{
}

/// "All devices are online" is said once after an outage: a report that
/// says it sets the flag, and with the flag set it is not said again until
/// a report of offline devices clears it.
pub proof fn lemma_all_online_once(d: DevicesView, states: (bool, bool, bool, bool, bool))
    ensures
        d.reports_all_online(states) ==> d.after_report(states).info_online,
        d.info_online ==> !d.reports_all_online(states),
        d.reports_offline(states) ==> !d.after_report(states).info_online,
        !d.reports_offline(states) && d.info_online ==> d.after_report(states).info_online,
{
}

/// Every device is named exactly once: among the offline or the online ones.
pub proof fn lemma_names_partition(states: (bool, bool, bool, bool, bool))
    ensures
        names_with(states, false).len() + names_with(states, true).len() == 5,
        (states.0 && states.1 && states.2 && states.3 && states.4) <==> names_with(
            states,
            false,
        ).len() == 0,
{
}

} // verus!
