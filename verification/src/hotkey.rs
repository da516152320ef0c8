//! Parsing of the global toggle accelerator, such as `"F6"` or
//! `"CmdOrCtrl+Shift+K"`.

use crate::error::Error;
use global_hotkey::hotkey::{HotKey, HotKeyParseError};
use vstd::prelude::*;

verus! {

/// A parsed accelerator (the global shortcut plugin's `Shortcut`).
#[verifier::external_type_specification]
#[verifier::external_body]
pub struct ExHotKey(HotKey);

/// Why an accelerator string was not accepted.
#[verifier::external_type_specification]
#[verifier::external_body]
pub struct ExHotKeyParseError(HotKeyParseError);

/// The key `HotKey::from_str` yields for the accelerator text `s`, or `None`
/// when it rejects the text. It depends on the text alone within a build: the
/// one platform-dependent token, `CmdOrCtrl`, is resolved when the build is
/// compiled (Command on macOS, Control elsewhere).
pub uninterp spec fn accelerator_of(s: Seq<char>) -> Option<HotKey>;

/// Whether `HotKey::from_str` accepts the accelerator text `s`.
pub open spec fn accepts_accelerator(s: Seq<char>) -> bool {
    accelerator_of(s) is Some
}

/// The message prefix of a rejected accelerator `s`.
pub open spec fn rejection_prefix(s: Seq<char>) -> Seq<char> {
    "invalid hotkey '"@ + s + "': "@
}

/// Calls `HotKey::from_str` (`str::parse`): it accepts or rejects the text
/// and yields the key named by [`accelerator_of`].
#[verifier::external_body]
fn parse_accelerator(s: &str) -> (r: Result<HotKey, HotKeyParseError>)
    ensures
        r is Ok <==> accepts_accelerator(s@),
        r matches Ok(k) ==> accelerator_of(s@) == Some(k),
{
    s.parse::<HotKey>()
}

/// Calls `HotKeyParseError`'s `Display` (through `to_string`); its text is not
/// stated.
#[verifier::external_body]
fn parse_error_text(e: &HotKeyParseError) -> String {
    e.to_string()
}

/// The error for an accelerator `hotkey` that the parser rejected for
/// `reason`.
pub fn hotkey_rejection(hotkey: &str, reason: &str) -> (e: Error)
    ensures
        e matches Error::Hotkey(m) && m@ == rejection_prefix(hotkey@) + reason@,
{
    let m = String::from_str("invalid hotkey '").concat(hotkey).concat("': ").concat(reason);
    Error::Hotkey(m)
}

/// Parses a human-readable accelerator into the key `HotKey::from_str`
/// yields for it, which is the key that gets registered.
///
/// Returns [`Error::Hotkey`] when the string is not a valid accelerator; its
/// message names the input and then gives the parser's reason.
pub fn parse_hotkey(hotkey: &str) -> (r: Result<HotKey, Error>)
    ensures
        r is Ok <==> accepts_accelerator(hotkey@),
        r matches Ok(k) ==> accelerator_of(hotkey@) == Some(k),
        r matches Err(e) ==> (e matches Error::Hotkey(m) && exists|reason: Seq<char>|
            m@ == rejection_prefix(hotkey@) + reason),
{
    match parse_accelerator(hotkey) {
        Ok(k) => Ok(k),
        Err(e) => {
            let reason = parse_error_text(&e);
            Err(hotkey_rejection(hotkey, reason.as_str()))
        },
    }
}

} // verus!
