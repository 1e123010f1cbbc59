//! The one environment variable the whole approach depends on.
//!
//! With the parameter-buffer lock at its default (`1`), the replay device's
//! command-queue creation returns nil in an unentitled process and every
//! fetch fails. The library verifies the variable and never sets it.

use vstd::prelude::*;
use vstd::string::*;

verus! {

/// The variable that must read exactly `"0"` before any replay bootstrap.
pub const UNLOCK_ENV: &'static str = "MTLREPLAYER_LOCK_PARAM_BUFFER_SIZE_TO_MAX";

/// The variable was not the literal `"0"`. `found` is what was there.
#[derive(Debug, Clone, PartialEq, Eq)]
pub struct UnlockEnvError {
    /// The variable's value, if it was set.
    pub found: Option<String>,
}

/// What `format!("{:?}", s)` writes for a string `s`: the string quoted,
/// with the characters `Debug` escapes escaped.
pub uninterp spec fn str_debug(s: Seq<char>) -> Seq<char>;

/// Writes a string's `Debug` form with `format!("{:?}", ..)`. The contract
/// names the text and claims nothing more of it: that it depends on the
/// string alone.
#[verifier::external_body]
fn debug_text(s: &str) -> (r: String)
    ensures
        r@ == str_debug(s@),
{
    format!("{:?}", s)
}

/// The `Debug` form of an optional string: `None`, or `Some(..)` around
/// the string's own `Debug` form.
pub open spec fn option_debug(found: Option<String>) -> Seq<char> {
    match found {
        None => "None"@,
        Some(s) => "Some("@ + str_debug(s@) + ")"@,
    }
}

/// The unlock error's text, around the `Debug` form of what was found: it
/// names the variable and the required value.
pub open spec fn spec_unlock_message(found: Seq<char>) -> Seq<char> {
    UNLOCK_ENV@ + " must be set to \"0\" before any replay bootstrap (found "@ + found
        + "); without it the replayer cannot create its command queue in an unentitled process"@
}

/// The unlock error's text for `found`, the `Debug` form of what was found
/// (see [`spec_unlock_message`]).
pub fn unlock_message(found: &str) -> (r: String)
    ensures
        r@ == spec_unlock_message(found@),
{
    String::from_str(UNLOCK_ENV).concat(" must be set to \"0\" before any replay bootstrap (found ").concat(
        found,
    ).concat(
        "); without it the replayer cannot create its command queue in an unentitled process",
    )
}

impl UnlockEnvError {
    /// The text this error reports: it names the variable, the required
    /// value and what was found.
    pub open spec fn spec_message(&self) -> Seq<char> {
        spec_unlock_message(option_debug(self.found))
    }

    /// The text this error reports.
    pub fn message(&self) -> (r: String)
        ensures
            r@ == self.spec_message(),
    {
        let found = match &self.found {
            None => String::from_str("None"),
            Some(s) => String::from_str("Some(").concat(debug_text(s.as_str()).as_str()).concat(
                ")",
            ),
        };
        unlock_message(found.as_str())
    }
}

/// Whether text `s` is exactly `lit`.
pub fn text_is(s: &str, lit: &str) -> (r: bool)
    ensures
        r == (s@ == lit@),
{
    String::from_str(s) == String::from_str(lit)
}

/// The check on the variable's value, apart from reading it: only the
/// literal `"0"` passes; nothing merely falsy is waved through.
pub fn check_unlock_env(found: Option<&str>) -> (r: Result<(), UnlockEnvError>)
    ensures
        match found {
            Some(s) => if s@ == "0"@ {
                r is Ok
            } else {
                r matches Err(e) && e.found matches Some(f) && f@ == s@
            },
            None => r matches Err(e) && e.found is None,
        },
{
    match found {
        Some(s) => if text_is(s, "0") {
            Ok(())
        } else {
            Err(UnlockEnvError { found: Some(String::from_str(s)) })
        },
        None => Err(UnlockEnvError { found: None }),
    }
}

} // verus!
