use vstd::prelude::*;

verus! {

/// Relies on `chrono::Utc::now` and `DateTime::to_rfc3339`: the current time, in RFC 3339.
#[verifier::external_body]
pub(crate) fn now_rfc3339() -> (r: String) {
    chrono::Utc::now().to_rfc3339()
}

/// Relies on `chrono::Utc::now` and `DateTime::timestamp`: the current Unix time in seconds,
/// written in decimal.
#[verifier::external_body]
pub(crate) fn now_unix_seconds_text() -> (r: String) {
    chrono::Utc::now().timestamp().to_string()
}

/// Relies on `chrono::Utc::now` and `DateTime::format`: the current time written as
/// `YYYYMMDDTHHMMSSZ`; only this pattern is admitted, as chrono panics on a malformed one.
#[verifier::external_body]
pub(crate) fn now_formatted(pattern: &str) -> (r: String)
    requires
        pattern@ == "%Y%m%dT%H%M%SZ"@,
{
    chrono::Utc::now().format(pattern).to_string()
}

/// Relies on `uuid::Uuid::new_v4` and its `Display`: a random identifier in the hyphenated
/// form, 36 characters long.
#[verifier::external_body]
pub(crate) fn new_id() -> (r: String)
    ensures
        r@.len() == 36,
{
    uuid::Uuid::new_v4().to_string()
}

} // verus!
