# Tinker

Tinker is a browser for testing web pages: it keeps tabs with their
histories, records and replays browser events, watches the page's network
traffic, performance and console, compares screenshots against baselines, and
takes commands over an HTTP API, an MQTT broker and the Model Context Protocol.

## Layout

- `src/` is the library, written in Verus. Every function there carries a
  contract that Verus proves: the tab manager and its history, the session
  format, the event recorder, player and editor, the monitors, the screenshot
  comparison, the JSON model, the MCP request handling and the browser engine,
  which decides what each command, page message and window event does and
  queues what the window and the broker are to carry out. Laws that relate
  several operations stand as public proof functions named `law_*`.
- Calls into other crates (`url`, `urlencoding`, `serde_json`, `base64`,
  `image`, `tokio`) stand behind small trusted items whose doc comments say
  what is assumed of them.
- `app/` is the program around the library: arguments, logging, files, the
  MQTT connection, the HTTP and MCP servers and the headless run loop.
- `tests/` runs the library on concrete cases.
