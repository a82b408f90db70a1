//! Verified core of a home energy controller: MQTT message construction for
//! Home Assistant, connection and data-timeout tracking, electricity meter
//! bookkeeping, home battery charge-level rules and wallbox charge control.

pub mod components;
pub mod devices;
pub mod utils;
