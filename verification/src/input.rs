//! The input side: screen points, the backend interface the engine clicks
//! through, and the event flags a Win32 backend sends for each button.

use crate::config::MouseButton;
use crate::error::Error;
use vstd::prelude::*;

verus! {

/// A screen coordinate in physical pixels, origin at the top-left.
#[derive(Debug, Clone, Copy, PartialEq, Eq, Structural)]
pub struct Point {
    pub x: i32,
    pub y: i32,
}

/// Synthesizes mouse input and queries the cursor. Implementors are shared
/// between the worker thread and the UI thread.
pub trait InputBackend: Send + Sync {
    /// Presses and releases `button` once at the current cursor location.
    fn click(&self, button: MouseButton) -> Result<(), Error>;

    /// Moves the cursor to `point`.
    fn move_cursor(&self, point: Point) -> Result<(), Error>;

    /// Returns the current cursor position.
    fn cursor_position(&self) -> Result<Point, Error>;
}

/// A backend that does nothing, for hosts without a native one.
#[derive(Debug, Default)]
pub struct NullBackend;

impl InputBackend for NullBackend {
    fn click(&self, _button: MouseButton) -> (r: Result<(), Error>)
        ensures
            r is Ok,
    {
        Ok(())
    }

    fn move_cursor(&self, _point: Point) -> (r: Result<(), Error>)
        ensures
            r is Ok,
    {
        Ok(())
    }

    fn cursor_position(&self) -> (r: Result<Point, Error>)
        ensures
            r matches Ok(p) && p == (Point { x: 0, y: 0 }),
    {
        Ok(Point { x: 0, y: 0 })
    }
}

/// `MOUSEEVENTF_LEFTDOWN`.
pub const MOUSEEVENTF_LEFTDOWN: u32 = 0x0002;
/// `MOUSEEVENTF_LEFTUP`.
pub const MOUSEEVENTF_LEFTUP: u32 = 0x0004;
/// `MOUSEEVENTF_RIGHTDOWN`.
pub const MOUSEEVENTF_RIGHTDOWN: u32 = 0x0008;
/// `MOUSEEVENTF_RIGHTUP`.
pub const MOUSEEVENTF_RIGHTUP: u32 = 0x0010;
/// `MOUSEEVENTF_MIDDLEDOWN`.
pub const MOUSEEVENTF_MIDDLEDOWN: u32 = 0x0020;
/// `MOUSEEVENTF_MIDDLEUP`.
pub const MOUSEEVENTF_MIDDLEUP: u32 = 0x0040;

/// The (button-down, button-up) event flags for `button`.
pub open spec fn spec_button_flags(button: MouseButton) -> (u32, u32) {
    match button {
        MouseButton::Left => (MOUSEEVENTF_LEFTDOWN, MOUSEEVENTF_LEFTUP),
        MouseButton::Right => (MOUSEEVENTF_RIGHTDOWN, MOUSEEVENTF_RIGHTUP),
        MouseButton::Middle => (MOUSEEVENTF_MIDDLEDOWN, MOUSEEVENTF_MIDDLEUP),
    }
}

/// Maps a logical button to its (button-down, button-up) event flags.
pub fn button_flags(button: MouseButton) -> (r: (u32, u32))
    ensures
        r == spec_button_flags(button),
{
    match button {
        MouseButton::Left => (MOUSEEVENTF_LEFTDOWN, MOUSEEVENTF_LEFTUP),
        MouseButton::Right => (MOUSEEVENTF_RIGHTDOWN, MOUSEEVENTF_RIGHTUP),
        MouseButton::Middle => (MOUSEEVENTF_MIDDLEDOWN, MOUSEEVENTF_MIDDLEUP),
    }
}

/// A press-and-release pair: distinct flags, one bit each, and the release
/// bit is the press bit shifted up by one.
pub proof fn lemma_button_flags_pair(button: MouseButton)
    ensures
        spec_button_flags(button).0 != spec_button_flags(button).1,
        spec_button_flags(button).1 == spec_button_flags(button).0 * 2,
{
}

} // verus!
