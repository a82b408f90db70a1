use solar_control::components::battery::{soc_json, Battery, BatteryState};
use solar_control::components::connection::Connection;
use solar_control::components::electricity_meter::{
    availability_message, EmeterTask, MeterStatus, EMETER_MEAN_TIME,
};
use solar_control::utils::mqtt::{BinarySensor, Device, MqttMessages, QoS, Sensor, SensorConfig};

const DEVICE: &Device = &Device {
    identifiers: ["ElectricitySensor"],
    name: "Electricity Sensors",
    manufacturer: "SimSys",
};

const CONN: &BinarySensor = &BinarySensor {
    name: "Z1 Connection",
    platform: "binary_sensor",
    unique_id: "connection-z1",
    state_topic: "simsys/connections/z1/state",
    device_class: "connectivity",
    device: DEVICE,
};

const BATTERY: &SensorConfig = &SensorConfig {
    topic: "homeassistant/sensor/simsys/battery_multiplus/config",
    payload: &Sensor {
        name: "Multiplus State of Charge",
        platform: "sensor",
        unique_id: "multiplus-soc",
        enabled_by_default: true,
        state_topic: "simsys/battery/multiplus/state",
        availability_topic: "simsys/e_meter/multiplus/avail",
        unit_of_measurement: "%",
        device_class: "battery",
        state_class: "measurement",
        value_template: "{{ value_json.soc }}",
        suggested_display_precision: 0,
        device: DEVICE,
    },
};

fn topics_payloads(msgs: MqttMessages) -> Vec<(String, String)> {
    msgs.into_vec().iter().map(|m| (m.topic(), m.payload())).collect()
}

#[test]
fn connection_publishes_first_state_and_changes() {
    let mut c = Connection::new("homeassistant/binary_sensor/simsys/connection_z1/config", CONN);
    assert!(!c.state());
    let msgs = c.set_state(false).into_vec();
    assert_eq!(msgs.len(), 1);
    assert_eq!(msgs[0].topic(), "simsys/connections/z1/state");
    assert_eq!(msgs[0].payload(), "OFF");
    assert!(msgs[0].retain());
    assert_eq!(msgs[0].qos(), QoS::AtMostOnce);
    assert!(c.set_state(false).is_empty());
    let msgs = c.set_state(true).into_vec();
    assert_eq!(msgs[0].payload(), "ON");
    assert!(c.state());
    assert!(c.set_state(true).is_empty());
}

#[test]
fn connection_discovery() {
    let c = Connection::new("homeassistant/binary_sensor/simsys/connection_z1/config", CONN);
    let msgs = c.power_up_msgs("{\"name\":\"Z1 Connection\"}").into_vec();
    assert_eq!(msgs.len(), 1);
    assert_eq!(msgs[0].topic(), "homeassistant/binary_sensor/simsys/connection_z1/config");
    assert_eq!(msgs[0].payload(), "{\"name\":\"Z1 Connection\"}");
    assert_eq!(msgs[0].qos(), QoS::AtLeastOnce);
    assert!(msgs[0].retain());
}

#[test]
fn soc_payload_matches_float_formatting() {
    for t in -1200i32..=1200 {
        let expected = format!(r#"{{"soc": {:.0}}}"#, t as f64 / 10.0);
        assert_eq!(soc_json(t), expected, "soc tenths {}", t);
    }
    assert_eq!(soc_json(855), "{\"soc\": 86}");
    assert_eq!(soc_json(845), "{\"soc\": 84}");
}

#[test]
fn battery_full_hysteresis_at_85() {
    let mut b = Battery::new(BATTERY);
    b.set_state_of_charge(855);
    assert!(!b.is_full());
    b.set_state_of_charge(856);
    assert!(b.is_full());
    b.set_state_of_charge(846);
    assert!(b.is_full());
    b.set_state_of_charge(845);
    assert!(!b.is_full());
    b.set_state_of_charge(850);
    assert!(!b.is_full());
}

#[test]
fn battery_peak_target_falls_back() {
    let mut b = Battery::new(BATTERY);
    b.set_room_temp(230);
    // Monday 04:00:01
    b.update_target(0, 4 * 3600 + 1, 0);
    b.set_state_of_charge(990);
    assert!(!b.is_full());
    b.set_state_of_charge(996);
    assert!(b.is_full());
    // now at the 85 % target, with the battery full
    b.set_state_of_charge(900);
    assert!(b.is_full());
    b.set_state_of_charge(845);
    assert!(!b.is_full());
}

#[test]
fn battery_target_window() {
    let mut b = Battery::new(BATTERY);
    // the room is at 20 °C: cold, full charge
    b.update_target(3, 4 * 3600, 0);
    b.set_state_of_charge(990);
    assert!(!b.is_full());
    b.set_state_of_charge(996);
    assert!(b.is_full());
    // at the 100 % target the car limit is 64.5 %
    let mut c = Battery::new(BATTERY);
    c.update_target(3, 4 * 3600 + 3, 0);
    c.set_state_of_charge(650);
    assert!(!c.enough_for_car());
    c.set_state_of_charge(656);
    assert!(c.enough_for_car());
    // outside the window nothing changes
    let mut d = Battery::new(BATTERY);
    d.update_target(3, 4 * 3600 + 3, 1);
    d.update_target(3, 4 * 3600 - 1, 0);
    d.set_state_of_charge(856);
    assert!(d.is_full());
    // warm room, not Monday: 85 %
    let mut e = Battery::new(BATTERY);
    e.set_room_temp(225);
    e.update_target(2, 4 * 3600 + 2, 500);
    e.set_state_of_charge(856);
    assert!(e.is_full());
}

#[test]
fn battery_enough_for_car_hysteresis() {
    let mut b = Battery::new(BATTERY);
    b.set_state_of_charge(505);
    assert!(!b.enough_for_car());
    b.set_state_of_charge(506);
    assert!(b.enough_for_car());
    b.set_state_of_charge(496);
    assert!(b.enough_for_car());
    b.set_state_of_charge(495);
    assert!(!b.enough_for_car());
}

#[test]
fn battery_state_and_empty() {
    let mut b = Battery::new(BATTERY);
    b.set_state_of_charge(50);
    assert!(b.is_empty());
    assert_eq!(b.state(), BatteryState::IsEmpty);
    b.set_state_of_charge(51);
    assert!(!b.is_empty());
    assert_eq!(b.state(), BatteryState::NotEnoughForCar);
    b.set_state_of_charge(600);
    assert_eq!(b.state(), BatteryState::EnoughForCar);
    b.set_state_of_charge(900);
    assert_eq!(b.state(), BatteryState::IsFull);
    assert_eq!(b.get_state_of_charge(), 900);
}

#[test]
fn battery_publishes_on_change_and_every_minute() {
    let mut b = Battery::new(BATTERY);
    let msgs = topics_payloads(b.set_state_of_charge(500));
    assert_eq!(msgs, vec![("simsys/battery/multiplus/state".to_string(), "{\"soc\": 50}".to_string())]);
    let mut published = 0;
    for _ in 0..58 {
        published += b.set_state_of_charge(500).len();
    }
    assert_eq!(published, 0);
    // the sixtieth measurement is published in any case
    assert_eq!(b.set_state_of_charge(500).len(), 1);
    assert_eq!(b.set_state_of_charge(501).len(), 1);
}

#[test]
fn battery_power_up_restores_stored_soc() {
    let mut b = Battery::new(BATTERY);
    let msgs = topics_payloads(b.power_up_msgs("{}", Some(723)));
    assert_eq!(
        msgs,
        vec![
            ("homeassistant/sensor/simsys/battery_multiplus/config".to_string(), "{}".to_string()),
            ("simsys/battery/multiplus/state".to_string(), "{\"soc\": 72}".to_string()),
        ]
    );
    assert_eq!(b.get_state_of_charge(), 723);
    let mut c = Battery::new(BATTERY);
    assert_eq!(c.power_up_msgs("{}", None).len(), 1);
    assert_eq!(c.get_state_of_charge(), 0);
}

#[test]
fn battery_target_kept_outside_the_window() {
    let mut b = Battery::new(BATTERY);
    b.set_room_temp(250);
    b.update_target(0, 12 * 3600, 0);
    b.set_state_of_charge(856);
    assert!(b.is_full());
    b.set_state_of_charge(1000);
    assert!(b.is_full());
    assert!(b.set_room_temp(100).is_empty());
}

#[test]
fn emeter_task_constructors() {
    let t = EmeterTask::default();
    assert_eq!(t, EmeterTask { e_in: false, e_out: false, power: false, sec_power: false });
    let t = EmeterTask::activate_power();
    assert_eq!(t, EmeterTask { e_in: false, e_out: false, power: true, sec_power: false });
}

#[test]
fn meter_first_tick_publishes_availability() {
    let mut m = MeterStatus::new();
    assert!(!m.values_available());
    let t = m.tick_1hz(false);
    assert_eq!(t.availability, Some(false));
    assert_eq!(t.restart, None);
    assert!(!t.accumulate);
    assert!(!t.mean);
    let t = m.tick_1hz(false);
    assert_eq!(t.availability, None);
    let t = m.tick_1hz(true);
    assert_eq!(t.availability, Some(true));
    assert_eq!(t.restart, Some(EmeterTask { e_in: false, e_out: false, power: true, sec_power: false }));
    assert!(t.accumulate);
    assert!(m.values_available());
    assert!(!m.new_power_available());
}

#[test]
fn meter_takes_mean_every_minute() {
    let mut m = MeterStatus::new();
    m.restore(true, false, true);
    assert!(m.e_in_available());
    assert!(!m.e_out_available());
    let t = m.tick_1hz(true);
    assert_eq!(t.restart, Some(EmeterTask { e_in: true, e_out: false, power: true, sec_power: false }));
    let mut means = Vec::new();
    for i in 2..=(3 * EMETER_MEAN_TIME) {
        let t = m.tick_1hz(true);
        if t.mean {
            means.push(i);
            assert!(m.new_power_available());
        } else {
            assert!(!m.new_power_available());
        }
    }
    assert_eq!(means, vec![60, 120, 180]);
    let t = m.tick_1hz(false);
    assert_eq!(t.availability, Some(false));
    assert!(!m.values_available());
}

#[test]
fn meter_restore_and_sec_power() {
    let mut m = MeterStatus::new();
    let task = m.restore(false, true, false);
    assert_eq!(task, EmeterTask { e_in: false, e_out: true, power: false, sec_power: false });
    assert!(m.e_out_available());
    assert!(!m.e_in_available());
    assert!(m.sec_power_due(false));
    m.tick_1hz(true);
    assert!(!m.sec_power_due(false));
    assert!(m.sec_power_due(true));
}

#[test]
fn meter_availability_message() {
    let m = availability_message("simsys/e_meter/z1/avail", true);
    assert_eq!(m.topic(), "simsys/e_meter/z1/avail");
    assert_eq!(m.payload(), "online");
    assert!(m.retain());
    let m = availability_message("simsys/e_meter/z1/avail", false);
    assert_eq!(m.payload(), "offline");
}

#[test]
fn battery_answers_are_stable() {
    for soc in [0, 500, 845, 846, 850, 855, 856, 995, 996, 1000] {
        let mut b = Battery::new(BATTERY);
        b.set_state_of_charge(soc);
        let first = b.is_full();
        assert_eq!(b.is_full(), first);
        let first = b.enough_for_car();
        assert_eq!(b.enough_for_car(), first);
    }
    // a peak target that is reached stays full at the 85 % target
    let mut b = Battery::new(BATTERY);
    b.set_room_temp(300);
    b.update_target(0, 4 * 3600, 0);
    b.set_state_of_charge(1000);
    assert!(b.is_full());
    assert!(b.is_full());
}
