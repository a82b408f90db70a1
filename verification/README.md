# solar_control

Controller for a home energy installation: electricity meters read over MQTT
(Tasmota readers, a go-e wallbox), a Victron Multiplus inverter with its home
battery reached over Modbus TCP, and an InfluxDB for history. All values are
published to Home Assistant with MQTT discovery.

- `src/` is the library, verified with Verus: MQTT messages and discovery
  framing, connection and data-timeout tracking, the electricity meter's
  availability and averaging period, the battery's charge-level rules with
  hysteresis and daily charge target, the wallbox's car state, switch and
  charge-setting bookkeeping, topic routing and the periodic online report,
  and the InfluxDB query texts.
- `app/` is the program around it: the MQTT client, the InfluxDB and Modbus
  access, the floating-point power and energy arithmetic, and the main loop.
- `tests/` exercises the library on concrete values.
