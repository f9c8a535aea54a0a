//! The wall clock and the notation of a moment, both taken from `chrono`.

use std::fmt::Write;
use vstd::prelude::*;

verus! {

/// The text that `chrono` writes for the moment `secs` whole seconds after
/// the Unix epoch, in UTC, under the `strftime`-like pattern `format`; `None`
/// where `chrono` cannot represent the moment or rejects the pattern.
pub uninterp spec fn utc_text(secs: i64, format: Seq<char>) -> Option<Seq<char>>;

/// Reads the clock: `chrono::Utc::now()`, as the whole seconds since the
/// Unix epoch that `DateTime::timestamp` gives for it. Nothing is claimed of
/// the number. `chrono` itself gives up on a system clock that stands before
/// the year 1970.
#[verifier::external_body]
pub(crate) fn utc_now_secs() -> i64 {
    chrono::Utc::now().timestamp()
}

/// Writes a moment as text: `chrono::DateTime::from_timestamp(secs, 0)`,
/// then `DateTime::format` with the given pattern. The text depends on
/// the two arguments alone, and that is all that is claimed of it: it is the
/// one that `utc_text` names. A moment out of `chrono`'s range and a pattern
/// that `chrono` rejects give `None`.
#[verifier::external_body]
pub(crate) fn format_utc(secs: i64, format: &str) -> (text: Option<String>)
    ensures
        match text {
            Some(written) => utc_text(secs, format@) == Some(written@),
            None => utc_text(secs, format@).is_none(),
        },
{
    let moment = chrono::DateTime::from_timestamp(secs, 0)?;
    let mut text = String::new();
    match write!(text, "{}", moment.format(format)) {
        Ok(()) => Some(text),
        Err(_) => None,
    }
}

} // verus!
