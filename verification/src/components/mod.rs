pub mod influxdb;
pub mod connection;
pub mod battery;
pub mod electricity_meter;
