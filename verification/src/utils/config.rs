//! Application configuration, built from the options file of the add-on.
use crate::components::influxdb::InfluxDbConfig;
use crate::utils::mqtt::MqttConfig;
use vstd::prelude::*;

verus! {

/// The settings read from the options file.
pub struct Options {
    pub log_level: String,
    pub indb_host: String,
    pub indb_user: String,
    pub indb_password: String,
    pub mqtt_host: String,
    pub mqtt_user: String,
    pub mqtt_password: String,
}

pub struct Config {
    pub log_level: String,
    pub influx_db_config: InfluxDbConfig,
    pub mqtt_config: MqttConfig,
}

/// Builds the configuration from the options.
pub fn config_from_options(options: Options) -> (r: Config)
    ensures
        r.log_level@ == options.log_level@,
        r.influx_db_config.host@ == options.indb_host@,
        r.influx_db_config.user@ == options.indb_user@,
        r.influx_db_config.pass@ == options.indb_password@,
        r.influx_db_config.db@ == "e_meters"@,
        r.influx_db_config.table@ == "sensor_data"@,
        r.mqtt_config.id@ == "solar_control"@,
        r.mqtt_config.host@ == options.mqtt_host@,
        r.mqtt_config.username@ == options.mqtt_user@,
        r.mqtt_config.password@ == options.mqtt_password@,
{
    let influx_db_config = InfluxDbConfig {
        host: options.indb_host,
        user: options.indb_user,
        pass: options.indb_password,
        db: String::from_str("e_meters"),
        table: String::from_str("sensor_data"),
    };
    let mqtt_config = MqttConfig {
        id: String::from_str("solar_control"),
        host: options.mqtt_host,
        username: options.mqtt_user,
        password: options.mqtt_password,
    };
    Config { log_level: options.log_level, influx_db_config, mqtt_config }
}

} // verus!
