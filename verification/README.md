# edge-camera

Verified core of an MQTT-driven edge camera node (Raspberry Pi hosts that
publish an RTSP stream through GStreamer and MediaMTX, announce themselves and
publish timestamped metadata over MQTT), written in Verus.

## Layout

- `src/` — the library, every function verified:
  - `text` — Unicode trimming, single-character trimming, decimal rendering;
  - `calendar` — proleptic Gregorian day numbers, the day-to-date conversion
    and its correctness lemmas;
  - `config` — node configuration, defaults, validation, stream presets,
    stream URL and MQTT topics;
  - `camera` — the GStreamer publisher command line;
  - `state` — streaming state machine and metadata sequence;
  - `metadata` — metadata messages and RFC 3339 timestamps (via `time`);
  - `mqtt` — commands, outgoing messages with topic and retain flag, QoS,
    broker settings and client setup (via `rumqttc`);
  - `processor` — the WebAssembly metadata processor's stamping logic;
  - `pi4` — the Pi 4 + C922 host variant.
- `tests/` — tests on concrete values.
- `app/` — the programs: configuration files, MQTT I/O, process handling,
  the processor's C ABI entry points.
