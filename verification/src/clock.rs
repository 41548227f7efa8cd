//! Trusted entry points to the wall clock and to timestamp parsing.
//! Values read from the clock carry no promises; parsed timestamps are
//! functions of their text and are named as such.

use vstd::prelude::*;

verus! {

/// Relies on `chrono::Utc::now`: the current UTC time rendered as
/// `%Y-%m-%dT%H:%M:%SZ`.
#[verifier::external_body]
pub fn utc_now_iso8601z() -> String {
    chrono::Utc::now().format("%Y-%m-%dT%H:%M:%SZ").to_string()
}

/// Relies on `chrono::Utc::now`: seconds since the Unix epoch.
#[verifier::external_body]
pub fn utc_now_unix() -> i64 {
    chrono::Utc::now().timestamp()
}

/// Relies on `chrono::Utc::now`: the epoch seconds and the UTC date as
/// `%Y-%m-%d`, both read from the same instant, as the derived-key
/// signing scheme requires.
#[verifier::external_body]
pub fn utc_now_unix_and_date() -> (i64, String) {
    let now = chrono::Utc::now();
    (now.timestamp(), now.format("%Y-%m-%d").to_string())
}

/// Relies on `chrono::Utc::now`: the current UTC time in RFC 3339 form.
#[verifier::external_body]
pub fn utc_now_rfc3339() -> String {
    chrono::Utc::now().to_rfc3339()
}

pub uninterp spec fn rfc3339_norm_of(s: Seq<char>) -> Option<Seq<char>>;

/// Relies on `chrono::DateTime::parse_from_rfc3339`: the parsed instant
/// re-rendered in UTC RFC 3339 form, a function of the text alone;
/// `None` exactly where the text does not parse.
#[verifier::external_body]
pub fn normalize_rfc3339(value: &str) -> (r: Option<String>)
    ensures
        (r is Some) == (rfc3339_norm_of(value@) is Some),
        r matches Some(a) ==> Some(a@) == rfc3339_norm_of(value@),
{
    match chrono::DateTime::parse_from_rfc3339(value) {
        Ok(dt) => Some(dt.with_timezone(&chrono::Utc).to_rfc3339()),
        Err(_) => None,
    }
}

pub uninterp spec fn ymd_hms_norm_of(s: Seq<char>) -> Option<Seq<char>>;

/// Relies on `chrono::NaiveDateTime::parse_from_str` with
/// `"%Y-%m-%d %H:%M:%S"`: the instant taken as UTC and re-rendered in
/// RFC 3339 form, a function of the text alone; `None` exactly where
/// the text does not parse.
#[verifier::external_body]
pub fn normalize_ymd_hms(value: &str) -> (r: Option<String>)
    ensures
        (r is Some) == (ymd_hms_norm_of(value@) is Some),
        r matches Some(a) ==> Some(a@) == ymd_hms_norm_of(value@),
{
    match chrono::NaiveDateTime::parse_from_str(value, "%Y-%m-%d %H:%M:%S") {
        Ok(dt) => Some(
            chrono::DateTime::<chrono::Utc>::from_naive_utc_and_offset(dt, chrono::Utc)
                .to_rfc3339(),
        ),
        Err(_) => None,
    }
}

} // verus!
