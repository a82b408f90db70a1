use solar_control::devices::multiplus::{soc_from_register, Multiplus};
use solar_control::devices::tasmota_meters::TasmotaMeter;
use solar_control::devices::wallbox::{CarControl, CarState, Wallbox};
use solar_control::devices::{route_topic, Devices, OnlineReport, Route};
use solar_control::utils::mqtt::{BinarySensor, Device, MqttMessages, QoS, Sensor, SensorConfig};

const DEVICE: &Device = &Device {
    identifiers: ["ElectricitySensor"],
    name: "Electricity Sensors",
    manufacturer: "SimSys",
};

const WALLBOX_CONN: &BinarySensor = &BinarySensor {
    name: "Wallbox Connection",
    platform: "binary_sensor",
    unique_id: "connection-wallbox",
    state_topic: "simsys/connections/wallbox/state",
    device_class: "connectivity",
    device: DEVICE,
};

const MULTIPLUS_CONN: &BinarySensor = &BinarySensor {
    name: "Multiplus Connection",
    platform: "binary_sensor",
    unique_id: "connection-multiplus",
    state_topic: "simsys/connections/multiplus/state",
    device_class: "connectivity",
    device: DEVICE,
};

const BATTERY: &SensorConfig = &SensorConfig {
    topic: "homeassistant/sensor/simsys/battery_multiplus/config",
    payload: &Sensor {
        name: "Multiplus State of Charge",
        platform: "sensor",
        unique_id: "multiplus-soc",
        enabled_by_default: true,
        state_topic: "simsys/battery/multiplus/state",
        availability_topic: "simsys/e_meter/multiplus/avail",
        unit_of_measurement: "%",
        device_class: "battery",
        state_class: "measurement",
        value_template: "{{ value_json.soc }}",
        suggested_display_precision: 0,
        device: DEVICE,
    },
};

fn topics_payloads(msgs: MqttMessages) -> Vec<(String, String)> {
    msgs.into_vec().iter().map(|m| (m.topic(), m.payload())).collect()
}

fn wallbox() -> Wallbox {
    Wallbox::new("homeassistant/binary_sensor/simsys/connection_wallbox/config", WALLBOX_CONN)
}

#[test]
fn car_state_codes() {
    assert_eq!(CarState::from(0), CarState::Unknown);
    assert_eq!(CarState::from(1), CarState::Idle);
    assert_eq!(CarState::from(2), CarState::Charging);
    assert_eq!(CarState::from(3), CarState::WaitCar);
    assert_eq!(CarState::from(4), CarState::Complete);
    assert_eq!(CarState::from(5), CarState::Error);
    assert_eq!(CarState::from(6), CarState::Intialisiing);
    assert_eq!(CarState::from(7), CarState::Unknown);
    assert_eq!(CarState::default(), CarState::Unknown);
    assert!(!CarState::Unknown.is_connected());
    assert!(!CarState::Idle.is_connected());
    assert!(CarState::Charging.is_connected());
    assert!(CarState::Intialisiing.is_connected());
}

#[test]
fn car_value_from_json() {
    let mut w = wallbox();
    assert!(w.value_from_car(b"2").is_empty());
    assert_eq!(w.get_car_state(), CarState::Charging);
    w.value_from_car(b"not json");
    assert_eq!(w.get_car_state(), CarState::Charging);
    w.value_from_car(b"-3");
    assert_eq!(w.get_car_state(), CarState::Charging);
    w.value_from_car(b"4");
    assert_eq!(w.get_car_state(), CarState::Complete);
    w.value_from_car(b"9");
    assert_eq!(w.get_car_state(), CarState::Unknown);
    w.set_car_value(Some(1));
    assert_eq!(w.get_car_state(), CarState::Idle);
    w.set_car_value(None);
    assert_eq!(w.get_car_state(), CarState::Idle);
}

#[test]
fn no_solar_switch_echoes_payload() {
    let mut w = wallbox();
    let msgs = topics_payloads(w.no_solar_switch("on"));
    assert_eq!(msgs, vec![("simsys/e_meter/wallbox/no_solar_state".to_string(), "on".to_string())]);
    // the switch now forces a setting message on the next control step
    let t = w.begin_control();
    assert!(t.no_solar_changed);
    let (power, msgs) = w.finish_control(t, 16, 2, 0);
    assert_eq!(power, 16 * 230 * 2);
    assert_eq!(msgs.len(), 3);
    w.no_solar_switch("off");
    let t = w.begin_control();
    assert!(t.no_solar_changed);
}

#[test]
fn car_control_sends_settings_once_a_minute() {
    let mut c = CarControl::new();
    let mut sent = Vec::new();
    for i in 1..=120u32 {
        let t = c.begin_update(false);
        let msgs = c.finish_update(t, 6, 1, 1);
        if !msgs.is_empty() {
            sent.push(i);
            assert_eq!(
                topics_payloads(msgs),
                vec![
                    ("go-eCharger/083205/amp/set".to_string(), "6".to_string()),
                    ("go-eCharger/083205/psm/set".to_string(), "1".to_string()),
                    ("go-eCharger/083205/frc/set".to_string(), "1".to_string()),
                ]
            );
        }
        assert_eq!(t.mean, i % 60 == 0);
    }
    assert_eq!(sent, vec![60, 120]);
    assert_eq!(c.get_set_power(), 0);
    let t = c.begin_update(false);
    c.finish_update(t, 10, 1, 0);
    assert_eq!(c.get_set_power(), 2300);
}

#[test]
fn wallbox_energy_counter_every_sixtieth_report() {
    let mut w = wallbox();
    let due: Vec<u32> = (1..=120u32).filter(|_| w.eto_due()).collect();
    assert_eq!(due, vec![60, 120]);
}

#[test]
fn wallbox_connection_follows_data() {
    let mut w = wallbox();
    let (state, msgs) = w.tick_1hz();
    assert!(!state);
    assert_eq!(
        topics_payloads(msgs),
        vec![("simsys/connections/wallbox/state".to_string(), "OFF".to_string())]
    );
    assert!(!w.get_conn_state_sent());
    w.data_received();
    let (state, msgs) = w.tick_1hz();
    assert!(state);
    assert_eq!(topics_payloads(msgs)[0].1, "ON");
    assert!(w.get_conn_state_sent());
    let msgs = w.power_up_msgs("{\"c\":1}", "{\"s\":1}").into_vec();
    assert_eq!(msgs.len(), 2);
    assert_eq!(msgs[0].topic(), "homeassistant/binary_sensor/simsys/connection_wallbox/config");
    assert_eq!(msgs[1].topic(), "homeassistant/switch/simsys/no_solar_wallbox/config");
    assert_eq!(msgs[1].payload(), "{\"s\":1}");
    assert_eq!(msgs[1].qos(), QoS::AtLeastOnce);
    assert!(msgs[1].retain());
}

#[test]
fn tasmota_meter_times_out() {
    let mut z = TasmotaMeter::new("homeassistant/binary_sensor/simsys/connection_z1/config", WALLBOX_CONN);
    z.data_received();
    for _ in 0..10 {
        assert!(z.tick_1hz().0);
    }
    let (state, msgs) = z.tick_1hz();
    assert!(!state);
    assert_eq!(topics_payloads(msgs)[0].1, "OFF");
    assert!(!z.get_conn_state_sent());
    assert_eq!(z.power_up_msgs("{}").len(), 1);
}

#[test]
fn register_soc_is_signed_tenths() {
    assert_eq!(soc_from_register(0), 0);
    assert_eq!(soc_from_register(855), 855);
    assert_eq!(soc_from_register(0x7fff), 32767);
    assert_eq!(soc_from_register(0xffff), -1);
    assert_eq!(soc_from_register(0x8000), -32768);
}

#[test]
fn multiplus_battery() {
    let mut m = Multiplus::new(
        "homeassistant/binary_sensor/simsys/connection_multiplus/config",
        MULTIPLUS_CONN,
        BATTERY,
    );
    assert_eq!(m.power_up_msgs("{\"c\":1}").len(), 1);
    let msgs = topics_payloads(m.battery_power_up_msgs("{\"b\":1}", Some(400)));
    assert_eq!(msgs.len(), 2);
    assert_eq!(msgs[1], ("simsys/battery/multiplus/state".to_string(), "{\"soc\": 40}".to_string()));
    assert_eq!(m.battery().get_state_of_charge(), 400);
    assert!(!m.battery_enough_for_car());
    let msgs = topics_payloads(m.set_state_of_charge(862));
    assert_eq!(msgs, vec![("simsys/battery/multiplus/state".to_string(), "{\"soc\": 86}".to_string())]);
    assert!(m.battery_is_full());
    assert!(m.battery_enough_for_car());
    m.set_room_temp(300);
    // Monday, 04:00:00: a peak charge; the battery at 86.2 % is not full then
    m.battery_update_target(0, 4 * 3600, 0);
    assert!(!m.battery_is_full());
    let (state, _) = m.tick_1hz();
    assert!(!state);
    m.data_received();
    assert!(m.tick_1hz().0);
    assert!(m.get_conn_state_sent());
}

#[test]
fn topics_are_routed() {
    assert_eq!(route_topic("tasmota/electricity-meter/z1/SENSOR"), Some(Route::Z1));
    assert_eq!(route_topic("tasmota/electricity-meter/z2/SENSOR"), Some(Route::Z2));
    assert_eq!(route_topic("tasmota/electricity-meter/z3/SENSOR"), Some(Route::Z3));
    assert_eq!(route_topic("go-eCharger/083205/eto"), Some(Route::WallboxEto));
    assert_eq!(route_topic("go-eCharger/083205/nrg"), Some(Route::WallboxNrg));
    assert_eq!(route_topic("go-eCharger/083205/car"), Some(Route::WallboxCar));
    assert_eq!(route_topic("simsys/e_meter/wallbox/no_solar_cmd"), Some(Route::WallboxNoSolar));
    assert_eq!(route_topic("homeassistant/status"), None);
    assert_eq!(route_topic("tasmota/electricity-meter/z4/SENSOR"), None);
    let d = Devices::new();
    assert_eq!(d.process_msgs("go-eCharger/083205/car"), Some(Route::WallboxCar));
}

#[test]
fn subscribed_topics() {
    let d = Devices::new();
    assert_eq!(
        d.subscribe_topics(),
        vec![
            "go-eCharger/083205/car",
            "go-eCharger/083205/eto",
            "go-eCharger/083205/nrg",
            "tasmota/electricity-meter/+/SENSOR",
            "simsys/e_meter/wallbox/no_solar_cmd",
        ]
    );
}

#[test]
fn connection_report_every_eighth_second() {
    let mut d = Devices::new();
    let mut reports = Vec::new();
    for i in 1..=24 {
        match d.connection_report(true, false, true, false, true) {
            OnlineReport::Quiet => {}
            OnlineReport::AllOnline => panic!("not all online"),
            OnlineReport::Offline { offline, online } => {
                assert_eq!(offline, vec!["z2", "multiplus"]);
                assert_eq!(online, vec!["z1", "z3", "wallbox"]);
                reports.push(i);
            }
        }
    }
    assert_eq!(reports, vec![7, 15, 23]);
    // all online: said once, then quiet
    let mut said = Vec::new();
    for i in 25..=48 {
        if let OnlineReport::AllOnline = d.connection_report(true, true, true, true, true) {
            said.push(i);
        }
    }
    assert_eq!(said, vec![31]);
}
