//! Stacco: the decision logic of a small autoclicker.
//!
//! * [`config`]      — the click settings and their validation.
//! * [`text`]        — decimal rendering and whitespace tests for messages.
//! * [`input`]       — screen points, the input backend interface, button flags.
//! * [`engine`]      — the control requests and the worker's state machine.
//! * [`rng`]         — the jitter generator.
//! * [`hotkey`]      — accelerator parsing.
//! * [`window`]      — what closing the window does.
//! * [`tray`]        — the tray menu's labels and item ids.
//! * [`persistence`] — checking a configuration read back from disk.
//! * [`error`]       — the crate-wide error type.

pub mod config;
pub mod engine;
pub mod error;
pub mod hotkey;
pub mod input;
pub mod persistence;
pub mod rng;
pub mod text;
pub mod tray;
pub mod window;
