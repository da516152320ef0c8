# Stacco

Stacco is a small autoclicker for Windows: it clicks at a set interval, with a
chosen button, at the cursor or at a fixed point, optionally with jitter, until
stopped or for a fixed count. It lives in the tray and answers a global hotkey.

This crate holds its logic as a library verified with Verus:

* `src/` — the verified library: configuration and its validation, the
  engine's control requests and the worker's state machine (with proofs that a
  counted session clicks exactly the requested number of times, that stop and
  shutdown are honoured, and that only a start raises the running flag), the
  click plan, the jitter generator, accelerator parsing, close behaviour and
  the tray's labels.
* `app/` — the Tauri shell: the worker thread and its channel, the Win32 input
  backend, persistence, the tray, the global shortcut and the IPC commands. The
  floating-point jitter arithmetic stays here.
* `tests/` — tests of the library, including a synchronous simulation of the
  worker thread.
