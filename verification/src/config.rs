//! Click configuration: every option is an enum or a bounded integer, and
//! [`ClickConfig::validate`] says which combinations may run.

use crate::error::Error;
use crate::text::{decimal, decimal_string, is_blank, is_blank_str};
use vstd::prelude::*;

verus! {

/// Lower bound for the click interval, in milliseconds.
pub const MIN_INTERVAL_MS: u64 = 1;

/// Upper bound for the click interval (one hour), in milliseconds.
pub const MAX_INTERVAL_MS: u64 = 60 * 60 * 1000;

/// Which mouse button to actuate.
#[derive(Debug, Clone, Copy, PartialEq, Eq, Structural)]
pub enum MouseButton {
    Left,
    Right,
    Middle,
}

impl Default for MouseButton {
    fn default() -> (r: Self)
        ensures
            r == MouseButton::Left,
    {
        MouseButton::Left
    }
}

/// Whether each actuation is a single or a double click.
#[derive(Debug, Clone, Copy, PartialEq, Eq, Structural)]
pub enum ClickType {
    Single,
    Double,
}

impl Default for ClickType {
    fn default() -> (r: Self)
        ensures
            r == ClickType::Single,
    {
        ClickType::Single
    }
}

/// Where the click lands.
#[derive(Debug, Clone, Copy, PartialEq, Eq, Structural)]
pub enum Position {
    /// Click wherever the cursor currently is.
    Current,
    /// Move the cursor to a fixed screen coordinate before each click.
    Fixed { x: i32, y: i32 },
}

impl Default for Position {
    fn default() -> (r: Self)
        ensures
            r == Position::Current,
    {
        Position::Current
    }
}

/// How many times to click before stopping.
#[derive(Debug, Clone, Copy, PartialEq, Eq, Structural)]
pub enum Repeat {
    /// Keep clicking until the user stops it.
    UntilStopped,
    /// Click exactly `times` times, then stop automatically.
    Count { times: u64 },
}

impl Default for Repeat {
    fn default() -> (r: Self)
        ensures
            r == Repeat::UntilStopped,
    {
        Repeat::UntilStopped
    }
}

/// Optional per-click randomization; all zero means no jitter.
#[derive(Debug, Clone, Copy, PartialEq, Eq, Structural)]
pub struct Jitter {
    /// Random variation of the interval, as a percentage of it (0 to 100).
    pub interval_pct: u8,
    /// Random variation of the click position in pixels (fixed point only).
    pub position_px: u32,
}

impl Default for Jitter {
    fn default() -> (r: Self)
        ensures
            r.interval_pct == 0,
            r.position_px == 0,
    {
        Jitter { interval_pct: 0, position_px: 0 }
    }
}

/// What closing the main window does.
#[derive(Debug, Clone, Copy, PartialEq, Eq, Structural)]
pub enum CloseBehavior {
    /// Ask the user each time (until they remember a choice).
    Ask,
    /// Hide the window to the tray and keep running.
    Tray,
    /// Quit the application.
    Quit,
}

impl Default for CloseBehavior {
    fn default() -> (r: Self)
        ensures
            r == CloseBehavior::Ask,
    {
        CloseBehavior::Ask
    }
}

/// A complete description of an autoclick session.
#[derive(Debug, Clone, PartialEq, Eq)]
pub struct ClickConfig {
    /// Delay between clicks, in milliseconds.
    pub interval_ms: u64,
    /// Which button to click.
    pub button: MouseButton,
    /// Single or double click.
    pub click_type: ClickType,
    /// Cursor position strategy.
    pub position: Position,
    /// Stop condition.
    pub repeat: Repeat,
    /// Per-click randomization (off by default).
    pub jitter: Jitter,
    /// The global toggle hotkey, e.g. `"F6"` or `"CmdOrCtrl+Shift+K"`.
    pub hotkey: String,
    /// What closing the window does.
    pub close_behavior: CloseBehavior,
}

/// The message for an interval outside the allowed range.
pub open spec fn interval_message(ms: u64) -> Seq<char> {
    "interval "@ + decimal(ms as nat) + " ms is outside the allowed range 1..=3600000 ms"@
}

impl ClickConfig {
    /// The default settings: 100 ms, left button, single click at the cursor,
    /// until stopped, no jitter, hotkey `F6`, ask on close.
    pub open spec fn is_default(self) -> bool {
        &&& self.interval_ms == 100
        &&& self.button == MouseButton::Left
        &&& self.click_type == ClickType::Single
        &&& self.position == Position::Current
        &&& self.repeat == Repeat::UntilStopped
        &&& self.jitter == Jitter { interval_pct: 0, position_px: 0 }
        &&& self.hotkey@ == "F6"@
        &&& self.close_behavior == CloseBehavior::Ask
    }

    /// The message describing the first invalid field, or `None` when every
    /// field is within its allowed range.
    pub open spec fn invalid_reason(self) -> Option<Seq<char>> {
        if !(MIN_INTERVAL_MS <= self.interval_ms <= MAX_INTERVAL_MS) {
            Some(interval_message(self.interval_ms))
        } else if self.repeat == (Repeat::Count { times: 0 }) {
            Some("click count must be at least 1"@)
        } else if self.jitter.interval_pct > 100 {
            Some("interval jitter must be between 0 and 100 percent"@)
        } else if is_blank(self.hotkey@) {
            Some("hotkey must not be empty"@)
        } else {
            None
        }
    }

    /// Every field is within its allowed range.
    pub open spec fn is_valid(self) -> bool {
        self.invalid_reason() is None
    }

    /// Returns `Ok(())` if every field is within its allowed range, else
    /// [`Error::InvalidConfig`] describing the first invalid field.
    pub fn validate(&self) -> (r: Result<(), Error>)
        ensures
            r is Ok <==> self.is_valid(),
            r matches Err(e) ==> (e matches Error::InvalidConfig(m) && Some(m@)
                == self.invalid_reason()),
    {
        if !(MIN_INTERVAL_MS <= self.interval_ms && self.interval_ms <= MAX_INTERVAL_MS) {
            let m = String::from_str("interval ").concat(
                decimal_string(self.interval_ms).as_str(),
            ).concat(" ms is outside the allowed range 1..=3600000 ms");
            return Err(Error::InvalidConfig(m));
        }
        if let Repeat::Count { times } = self.repeat {
            if times == 0 {
                return Err(
                    Error::InvalidConfig(String::from_str("click count must be at least 1")),
                );
            }
        }
        if self.jitter.interval_pct > 100 {
            return Err(
                Error::InvalidConfig(
                    String::from_str("interval jitter must be between 0 and 100 percent"),
                ),
            );
        }
        if is_blank_str(self.hotkey.as_str()) {
            return Err(Error::InvalidConfig(String::from_str("hotkey must not be empty")));
        }
        Ok(())
    }

    /// The configured interval as a [`std::time::Duration`].
    pub fn interval(&self) -> (d: std::time::Duration)
        ensures
            d == duration_from_millis(self.interval_ms),
    {
        millis_duration(self.interval_ms)
    }
}

impl Default for ClickConfig {
    fn default() -> (r: Self)
        ensures
            r.is_default(),
    {
        ClickConfig {
            interval_ms: 100,
            button: MouseButton::Left,
            click_type: ClickType::Single,
            position: Position::Current,
            repeat: Repeat::UntilStopped,
            jitter: Jitter { interval_pct: 0, position_px: 0 },
            hotkey: String::from_str("F6"),
            close_behavior: CloseBehavior::Ask,
        }
    }
}

/// The value of `std::time::Duration::from_millis(ms)`.
pub uninterp spec fn duration_from_millis(ms: u64) -> std::time::Duration;

/// Calls `std::time::Duration::from_millis`; the contract only names its
/// result, which depends on `ms` alone.
#[verifier::external_body]
fn millis_duration(ms: u64) -> (d: std::time::Duration)
    ensures
        d == duration_from_millis(ms),
{
    std::time::Duration::from_millis(ms)
}

/// The default configuration passes validation.
pub proof fn lemma_default_config_is_valid(c: ClickConfig)
    requires
        c.is_default(),
    ensures
        c.is_valid(),
{
    reveal_strlit("F6");
    assert(!crate::text::is_white_space(c.hotkey@[0]));
}

/// The click count is rejected only when it is zero: with every other field
/// in range, a counted configuration is valid exactly when it asks for at
/// least one click, and an until-stopped one is always valid.
pub proof fn law_count_is_rejected_only_at_zero(c: ClickConfig)
    requires
        MIN_INTERVAL_MS <= c.interval_ms <= MAX_INTERVAL_MS,
        c.jitter.interval_pct <= 100,
        !is_blank(c.hotkey@),
    ensures
        c.repeat matches Repeat::Count { times } ==> (c.is_valid() <==> times >= 1),
        c.repeat == Repeat::UntilStopped ==> c.is_valid(),
{
}

/// Each rule of validation stands on its own: a configuration is valid
/// exactly when its interval is within 1..=3600000 ms, its click count (if
/// counted) is nonzero, its interval jitter is at most 100 percent and its
/// hotkey is not blank.
pub proof fn law_validity_is_the_field_ranges(c: ClickConfig)
    ensures
        c.is_valid() <==> {
            &&& 1 <= c.interval_ms <= 3600000
            &&& !(c.repeat matches Repeat::Count { times } && times == 0)
            &&& c.jitter.interval_pct <= 100
            &&& !is_blank(c.hotkey@)
        },
{
}

} // verus!
