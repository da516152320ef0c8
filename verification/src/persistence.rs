//! The decision in loading a saved configuration: a stored configuration is
//! used only when it parsed and passes validation.

use crate::config::ClickConfig;
use crate::error::Error;
use vstd::prelude::*;

verus! {

/// Checks a configuration read back from disk: a read or parse failure is
/// passed on, and a parsed configuration must pass validation. The caller
/// falls back to the default configuration on any error.
pub fn check_loaded(parsed: Result<ClickConfig, Error>) -> (r: Result<ClickConfig, Error>)
    ensures
        r is Ok <==> (parsed matches Ok(c) && c.is_valid()),
        r matches Ok(c) ==> parsed == Ok::<ClickConfig, Error>(c),
        parsed matches Ok(c) ==> (r matches Err(e) ==> (e matches Error::InvalidConfig(m) && Some(
            m@,
        ) == c.invalid_reason())),
{
    match parsed {
        Ok(c) => match c.validate() {
            Ok(()) => Ok(c),
            Err(e) => Err(e),
        },
        Err(e) => Err(e),
    }
}

} // verus!
