//! The clock and calendar boundary: readings and renderings that only the
//! system clock and the chrono crate can produce.

use vstd::prelude::*;
use crate::utils::{spec_dec_digits, u64_to_string};

verus! {

/// The text chrono renders for an instant given as whole seconds since the
/// Unix epoch, in UTC: a fixed function of the seconds.
pub uninterp spec fn utc_string_of(secs: u64) -> Seq<char>;

/// Relies on `std::time::SystemTime::now` and `duration_since`: the wall
/// clock, read as whole seconds since the Unix epoch, zero when the clock
/// reads earlier than the epoch.  Nothing is promised of the clock's value.
#[verifier::external_body]
pub(crate) fn now_epoch() -> (r: u64) {
    match std::time::SystemTime::now().duration_since(std::time::UNIX_EPOCH) {
        Ok(d) => d.as_secs(),
        Err(_) => 0,
    }
}

/// Relies on chrono's `DateTime::<Utc>::from_timestamp` and the `Display`
/// rendering of the result (for example `2015-05-15 00:00:00 UTC`): both are
/// fixed functions of the seconds, named `utc_string_of`.  `None` exactly for
/// the seconds chrono cannot place in a date; no input panics.
#[verifier::external_body]
fn render_utc(secs: u64) -> (r: Option<String>)
    ensures
        r matches Some(s) ==> s@ == utc_string_of(secs) && s@.len() > 0,
{
    chrono::DateTime::<chrono::Utc>::from_timestamp(secs as i64, 0).map(|d| d.to_string())
}

/// Relies on chrono: the same instant rendered in the machine's local time
/// zone, for the seconds chrono can place in a date.  The text depends on
/// the time zone, so only its nonemptiness is stated; no input panics.
#[verifier::external_body]
fn render_local(secs: u64) -> (r: Option<String>)
    ensures
        r matches Some(s) ==> s@.len() > 0,
{
    chrono::DateTime::<chrono::Utc>::from_timestamp(secs as i64, 0)
        .map(|d| chrono::DateTime::<chrono::Local>::from(d).to_string())
}

/// The UTC text of an instant: chrono's rendering where the seconds fit a
/// date, the bare decimal seconds otherwise.  Nonempty either way.
pub open spec fn spec_utc_text(secs: u64, s: Seq<char>) -> bool {
    (s == utc_string_of(secs) || s == spec_dec_digits(secs as nat)) && s.len() > 0
}

/// Renders an instant in UTC, falling back to the bare seconds for an
/// instant outside chrono's calendar.
pub fn format_utc(secs: u64) -> (r: String)
    ensures
        spec_utc_text(secs, r@),
{
    match render_utc(secs) {
        Some(s) => s,
        None => {
            proof {
                assert(spec_dec_digits(secs as nat).len() > 0);
            }
            u64_to_string(secs)
        },
    }
}

/// Renders an instant in the machine's local time zone, falling back to the
/// bare seconds for an instant outside chrono's calendar.  The text is
/// nonempty; it depends on the time zone, so nothing more is stated.
pub fn format_local(secs: u64) -> (r: String)
    ensures
        r@.len() > 0,
{
    match render_local(secs) {
        Some(s) => s,
        None => {
            proof {
                assert(spec_dec_digits(secs as nat).len() > 0);
            }
            u64_to_string(secs)
        },
    }
}

} // verus!
