use solar_control::components::influxdb::{InfluxDbConfig, PhysicalQuantity};
use solar_control::utils::config::{config_from_options, Options};
use solar_control::utils::mqtt::{discovery, MqttMessage, MqttMessages, QoS, TIMEOUT};
use solar_control::utils::text::{decimal_string, signed_decimal_string, str_eq};
use solar_control::utils::ticks::{ReceiveTimer, TickDivider, MAX_TICK};
use solar_control::utils::Availability;

#[test]
fn decimal_renders_like_to_string() {
    for n in [0u64, 1, 9, 10, 99, 100, 12345, 4000000000, u64::MAX] {
        assert_eq!(decimal_string(n), n.to_string());
    }
    for n in [0i64, -1, -42, 17, i64::MIN, i64::MAX] {
        assert_eq!(signed_decimal_string(n), n.to_string());
    }
}

#[test]
fn str_eq_compares_contents() {
    assert!(str_eq("on", "on"));
    assert!(!str_eq("on", "off"));
    assert!(!str_eq("", "x"));
}

#[test]
fn message_defaults_and_setters() {
    let m = MqttMessage::new("a/b", "payload");
    assert_eq!(m.topic(), "a/b");
    assert_eq!(m.payload(), "payload");
    assert_eq!(m.qos(), QoS::AtMostOnce);
    assert!(!m.retain());
    let m = m.set_retain(true).set_qos(QoS::ExactlyOnce);
    assert!(m.retain());
    assert_eq!(m.qos(), QoS::ExactlyOnce);
    assert_eq!(m.topic(), "a/b");
}

#[test]
fn discovery_is_retained_at_least_once() {
    let m = discovery("homeassistant/x/config", "{}");
    assert_eq!(m.topic(), "homeassistant/x/config");
    assert_eq!(m.payload(), "{}");
    assert_eq!(m.qos(), QoS::AtLeastOnce);
    assert!(m.retain());
}

#[test]
fn messages_keep_order() {
    let mut msgs = MqttMessages::new();
    assert!(msgs.is_empty());
    msgs.push(MqttMessage::new("t1", "1"));
    let mut more = MqttMessages::from_msg(MqttMessage::new("t2", "2"));
    more += MqttMessage::new("t3", "3");
    msgs += more;
    assert_eq!(msgs.len(), 3);
    assert!(!msgs.is_empty());
    let v = msgs.into_vec();
    let topics: Vec<String> = v.iter().map(|m| m.topic()).collect();
    assert_eq!(topics, vec!["t1", "t2", "t3"]);
}

#[test]
fn availability_compares_with_bool() {
    assert!(!(Availability::FirstRun == true));
    assert!(!(Availability::FirstRun == false));
    assert!(Availability::True == true);
    assert!(!(Availability::True == false));
    assert!(Availability::False == false);
    assert!(Availability::from(true) == true);
    assert!(Availability::from(false) == false);
}

#[test]
fn config_maps_options() {
    let options = Options {
        log_level: "trace".to_string(),
        indb_host: "http://db:8086".to_string(),
        indb_user: "u".to_string(),
        indb_password: "p".to_string(),
        mqtt_host: "broker:1883".to_string(),
        mqtt_user: "mu".to_string(),
        mqtt_password: "mp".to_string(),
    };
    let c = config_from_options(options);
    assert_eq!(c.log_level, "trace");
    assert_eq!(c.influx_db_config.host, "http://db:8086");
    assert_eq!(c.influx_db_config.user, "u");
    assert_eq!(c.influx_db_config.pass, "p");
    assert_eq!(c.influx_db_config.db, "e_meters");
    assert_eq!(c.influx_db_config.table, "sensor_data");
    assert_eq!(c.mqtt_config.id, "solar_control");
    assert_eq!(c.mqtt_config.host, "broker:1883");
    assert_eq!(c.mqtt_config.username, "mu");
    assert_eq!(c.mqtt_config.password, "mp");
}

fn db() -> InfluxDbConfig {
    InfluxDbConfig {
        host: "http://db:8086".to_string(),
        db: "e_meters".to_string(),
        user: "u".to_string(),
        pass: "p".to_string(),
        table: "sensor_data".to_string(),
    }
}

#[test]
fn quantities_have_units_and_kinds() {
    assert_eq!(PhysicalQuantity::Energy.unit(), "kWh");
    assert_eq!(PhysicalQuantity::Power.unit(), "W");
    assert_eq!(PhysicalQuantity::Battery.unit(), "%");
    assert_eq!(PhysicalQuantity::Energy.kind(), "energy");
    assert_eq!(PhysicalQuantity::Power.kind(), "power");
    assert_eq!(PhysicalQuantity::Battery.kind(), "battery");
}

#[test]
fn select_query_text() {
    let q = db().select_query("heatpump-power", PhysicalQuantity::Power, 1);
    assert_eq!(
        q,
        "SELECT time,value,unit FROM sensor_data WHERE sensor_id='heatpump-power' AND data='power' ORDER BY DESC LIMIT 1"
    );
    let q = db().select_query("z1-energy-in", PhysicalQuantity::Energy, 250);
    assert!(q.ends_with("data='energy' ORDER BY DESC LIMIT 250"));
}

#[test]
fn urls_and_write_line() {
    let c = db();
    assert_eq!(c.query_url("SELECT 1"), "http://db:8086/query?db=e_meters&q=SELECT 1");
    assert_eq!(c.write_url(), "http://db:8086/write?db=e_meters");
    let prefix = c.write_line_prefix("multiplus-soc", PhysicalQuantity::Battery);
    assert_eq!(prefix, "sensor_data,sensor_id=multiplus-soc,unit=%,data=battery value=");
    let value = 85.5f64;
    assert_eq!(
        format!("{}{}", prefix, value),
        format!("{},sensor_id={},unit={},data={} value={}", "sensor_data", "multiplus-soc", "%", "battery", value)
    );
}

#[test]
fn receive_timer_runs_out_after_timeout() {
    let mut t = ReceiveTimer::new();
    assert!(!t.tick());
    t.received();
    for _ in 0..TIMEOUT {
        assert!(t.tick());
    }
    assert!(!t.tick());
    assert!(!t.tick());
    t.received();
    assert!(t.tick());
}

#[test]
fn tick_divider_signals_every_sixtieth_step() {
    let mut d = TickDivider::new();
    let mut hits = Vec::new();
    for i in 1..=180u32 {
        if d.step() {
            hits.push(i);
        }
    }
    assert_eq!(hits, vec![MAX_TICK, 2 * MAX_TICK, 3 * MAX_TICK]);
}
