# automagic

A small client for the Home Assistant websocket API, for writing home automations.

- `src/` is the verified library: the client's state machine (`hass`), a leaner
  client that only passes events on (`automagic`), the messages of the API (`model`),
  the configuration (`config`), the decisions of the websocket connection
  (`hass_client`) and the clock arithmetic of the schedulers (`time`).
- `app/` runs the library: it owns the tasks, channels and sockets, turns messages
  into and out of JSON, and carries out the actions that the library decides on.
- `tests/` exercises the library on concrete values.
