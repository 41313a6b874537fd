//! What the library takes from the machine it runs on: the time, the
//! calendar and fresh identifiers.

use vstd::prelude::*;

verus! {

/// The text that `chrono` writes for the time `millis` milliseconds after
/// the Unix epoch, in UTC and in the form that `form` describes; nothing
/// for a time beyond its calendar, and nothing for a form that it does
/// not take.
pub uninterp spec fn timestamp_text(millis: int, form: Seq<char>) -> Option<Seq<char>>;

/// Calls `chrono::Utc::now` and `chrono::DateTime::timestamp_millis`: the
/// time of the call in milliseconds since the Unix epoch. Nothing is
/// claimed of the value. `Utc::now` gives up where the clock of the machine
/// stands before the Unix epoch.
#[verifier::external_body]
pub(crate) fn current_time_millis() -> i64 {
    chrono::Utc::now().timestamp_millis()
}

/// Calls `chrono::Utc::now` and `chrono::DateTime::to_rfc3339`: the time
/// of the call as text. Nothing is claimed of the text. `Utc::now` gives up
/// where the clock of the machine stands before the Unix epoch.
#[verifier::external_body]
pub(crate) fn current_time_rfc3339() -> String {
    chrono::Utc::now().to_rfc3339()
}

/// Calls `chrono::DateTime::from_timestamp_millis`, which gives nothing
/// for a time beyond the calendar, then `chrono::DateTime::format` and
/// `DelayedFormat::write_to`, which reports an error for a form that it
/// does not take. The result depends on `millis` and `form` alone: the
/// time zone is UTC.
#[verifier::external_body]
pub(crate) fn format_timestamp(millis: i64, form: &str) -> (r: Option<String>)
    ensures
        match r {
            Some(text) => timestamp_text(millis as int, form@) == Some(text@),
            None => timestamp_text(millis as int, form@) is None,
        },
{
    let time = chrono::DateTime::from_timestamp_millis(millis)?;
    let mut out = String::new();
    time.format(form).write_to(&mut out).ok()?;
    Some(out)
}

/// Calls `uuid::Uuid::new_v4` and `uuid::Uuid::as_u128`: a random
/// identifier as a number. Nothing is claimed of the value. `new_v4` gives
/// up where the machine hands out no random bytes.
#[verifier::external_body]
pub(crate) fn fresh_id() -> u128 {
    uuid::Uuid::new_v4().as_u128()
}

} // verus!
