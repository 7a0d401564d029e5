# embedded-web-ui

A remote web UI for embedded devices: the device describes its widgets
(buttons, sliders, charts) over a serial line, a bridge relays the messages
to browsers over websockets, and user inputs travel back the same way.

- `src/` is the verified library: the message types (`protocol`), their
  bounded storage (`bounded`), the framing on the serial line and in USB
  packets (`framing`), the device's decisions (`device`), the bridge's
  decisions (`bridge`), the browser's state and drawing decisions
  (`dashboard`) and its log handling (`logs`).
- `app/` is the websocket bridge that stands in for a device, with the
  serde copies of the message types, the serial port handling, the
  development websocket server and the browser's log decoder.
- `tests/` runs the library on concrete values.
