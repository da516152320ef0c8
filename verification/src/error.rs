//! The crate-wide error type.

use serde_json::Error as JsonError;
use vstd::prelude::*;

verus! {

/// The standard library's I/O error, carried opaquely by [`Error::Io`].
#[verifier::external_type_specification]
#[verifier::external_body]
pub struct ExIoError(std::io::Error);

/// `serde_json`'s error, carried opaquely by [`Error::Serde`].
#[verifier::external_type_specification]
#[verifier::external_body]
pub struct ExJsonError(JsonError);

/// Every failure mode of the autoclicker backend.
#[derive(Debug)]
pub enum Error {
    /// The supplied click configuration failed validation.
    InvalidConfig(String),
    /// The OS rejected or dropped a synthesized input event.
    Input(String),
    /// A command could not reach the background worker (it has shut down).
    WorkerUnavailable,
    /// Registering or parsing a global hotkey failed.
    Hotkey(String),
    /// A filesystem path could not be resolved.
    Path(String),
    /// An I/O error while reading or writing the config file.
    Io(std::io::Error),
    /// A (de)serialization error for the persisted config.
    Serde(JsonError),
    /// The tray menu could not be rebuilt or swapped.
    Tray(String),
}

/// The user-facing text of an error, given the text of a wrapped I/O or JSON
/// error where there is one.
pub open spec fn message_with(e: Error, inner: Seq<char>) -> Seq<char> {
    match e {
        Error::InvalidConfig(m) => "invalid configuration: "@ + m@,
        Error::Input(m) => "input synthesis failed: "@ + m@,
        Error::WorkerUnavailable => "the clicker worker is unavailable"@,
        Error::Hotkey(m) => "hotkey error: "@ + m@,
        Error::Path(m) => "path error: "@ + m@,
        Error::Io(_) => "i/o error: "@ + inner,
        Error::Serde(_) => "serialization error: "@ + inner,
        Error::Tray(m) => "tray error: "@ + m@,
    }
}

impl Error {
    /// The text delivered to the user interface for this error.
    pub fn message(&self) -> (r: String)
        ensures
            exists|inner: Seq<char>| r@ == message_with(*self, inner),
            !(*self is Io || *self is Serde) ==> r@ == message_with(*self, Seq::empty()),
    {
        let r = match self {
            Error::InvalidConfig(m) => String::from_str("invalid configuration: ").concat(
                m.as_str(),
            ),
            Error::Input(m) => String::from_str("input synthesis failed: ").concat(m.as_str()),
            Error::WorkerUnavailable => String::from_str("the clicker worker is unavailable"),
            Error::Hotkey(m) => String::from_str("hotkey error: ").concat(m.as_str()),
            Error::Path(m) => String::from_str("path error: ").concat(m.as_str()),
            Error::Io(e) => {
                let t = io_error_text(e);
                let r = String::from_str("i/o error: ").concat(t.as_str());
                assert(r@ == message_with(*self, t@));
                return r;
            },
            Error::Serde(e) => {
                let t = json_error_text(e);
                let r = String::from_str("serialization error: ").concat(t.as_str());
                assert(r@ == message_with(*self, t@));
                return r;
            },
            Error::Tray(m) => String::from_str("tray error: ").concat(m.as_str()),
        };
        assert(r@ == message_with(*self, Seq::empty()));
        r
    }
}

/// Calls `std::io::Error`'s `Display` (through `to_string`); its text is not
/// stated.
#[verifier::external_body]
fn io_error_text(e: &std::io::Error) -> String {
    e.to_string()
}

/// Calls `serde_json::Error`'s `Display` (through `to_string`); its text is
/// not stated.
#[verifier::external_body]
fn json_error_text(e: &JsonError) -> String {
    e.to_string()
}

} // verus!
