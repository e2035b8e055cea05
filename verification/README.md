# tauri-runtime-cef

The logic of a webview runtime over the Chromium Embedded Framework, written in Rust and verified
with Verus, and the runtime around it.

- `src/` is the library: which windows and webviews there are, what each message to them changes,
  what the system and the browser engine are then asked or told, and what comes back to whoever
  asked. Every function has a contract that Verus proves. Windows, browsers, overlays and functions
  of the application stand in it as numbers, and floating point numbers as their bit patterns.
- `app/` is the runtime: it opens windows, creates browsers, runs the event loop, calls the
  functions of the application and scales coordinates, as the library says.
- `tests/` runs the library on concrete values.

What is not proved are the contracts of the few functions that call other crates: the check of an
icon's pixels (`winit`), the line endings of a script (`tauri-utils`), digests (`sha2`), base64
(`base64`) and the parsing of addresses (`url`). Each says above its header what it claims.

## Modules

| Module | What it holds |
| --- | --- |
| `context` | the state of a runtime, its ids, and the messages of the event loop |
| `invariants` | what holds in every state of a runtime |
| `window`, `window_message`, `window_event` | the open windows, their messages and their events |
| `webview`, `webview_message`, `placement` | webviews, their messages, and where they stand |
| `webview_create` | how webviews and windows come into being |
| `window_builder` | windows that are still to be opened |
| `window_dispatcher`, `webview_dispatcher` | the messages by which windows and webviews are spoken to |
| `client`, `load_handler` | what a browser asks of the application, and what follows a page load |
| `script`, `page_url`, `color`, `geometry`, `monitor` | scripts, addresses, colors, places, monitors |
| `process`, `nsapplication` | how a process starts, and what macOS tells it |
