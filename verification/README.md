# esmart_mqtt

A bridge between an eSmart home controller (reached over XMPP) and an MQTT
broker, with Home Assistant auto-discovery and control entities.

The library (`src/`) holds the bridge's logic, specified and proved with Verus:

- `commands` — the controller's SET messages (headers, body, byte size) and the
  conversion of Home Assistant commands `esmart/<entity>/set` into them;
- `data`, `stats` — the controller's data messages and the statistics published
  for meters, nodes and switches;
- `discovery` — Home Assistant discovery configurations and state updates, as
  MQTT topics and JSON text;
- `bridge` — which entities to announce and when to publish a statistic
  (throttling, with the values received in between gathered together);
- `time` — the timestamps of the controller's messages;
- `text`, `json` — trimming, number parsing and printing, JSON string literals;
- `laws` — properties that tie these together.

`app/` is the program around it: command line, XMPP and MQTT connections, serde
parsing of the controller's messages, and the floating-point parts (reading a
command's number, scaling actuator positions, averaging readings).
