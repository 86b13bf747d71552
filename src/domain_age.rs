use vstd::prelude::*;
use chrono::Datelike;
use crate::error::Error;
use crate::verdict::SignalResult;
use crate::error::ErrorCategory;

verus! {

/// Where the earliest-seen DNS A-record date sits in the intelligence service's answer.
pub const FIRST_SEEN_POINTER: &'static str = "/current_dns/a/first_seen";

/// The layout of that date.
pub const FIRST_SEEN_FORMAT: &'static str = "%Y-%m-%d";

/// Domains younger than this many days are flagged.
pub const YOUNG_DOMAIN_DAYS: i64 = 30;

/// The string that serde_json finds at JSON pointer `pointer` in the document `body`.
pub uninterp spec fn json_text_at(body: Seq<char>, pointer: Seq<char>) -> Option<Seq<char>>;

/// The day number (days from the common era, January 1 of year 1 being day 1)
/// of the date that chrono's `NaiveDate::parse_from_str(text, fmt)` reads.
pub uninterp spec fn day_number_of(text: Seq<char>, fmt: Seq<char>) -> Option<i32>;

/// Relies on serde_json's `from_str` into a `Value`, `Value::pointer` and
/// `Value::as_str`: the string found at `pointer`, or nothing when `body` is no
/// JSON document or holds no string there.
#[verifier::external_body]
fn json_string_at(body: &str, pointer: &str) -> (r: Option<String>)
    ensures
        r is Some <==> json_text_at(body@, pointer@) is Some,
        r is Some ==> r->0@ == json_text_at(body@, pointer@)->0,
{
    let doc: serde_json::Value = serde_json::from_str(body).ok()?;
    doc.pointer(pointer)?.as_str().map(|s| s.to_string())
}

/// Relies on chrono's `NaiveDate::parse_from_str` and `Datelike::num_days_from_ce`.
#[verifier::external_body]
fn parse_day(text: &str, fmt: &str) -> (r: Option<i32>)
    ensures
        r == day_number_of(text@, fmt@),
{
    chrono::NaiveDate::parse_from_str(text, fmt).ok().map(|d| d.num_days_from_ce())
}

/// The first-seen day that the intelligence service's answer reports.
pub open spec fn first_seen_day(body: Seq<char>) -> Option<i32> {
    match json_text_at(body, FIRST_SEEN_POINTER@) {
        Some(text) => day_number_of(text, FIRST_SEEN_FORMAT@),
        None => None,
    }
}

/// Age in days of a domain first seen on day `first_seen`, on day `today`.
pub fn age_days(first_seen: i32, today: i32) -> (r: i64)
    ensures
        r == today - first_seen,
{
    today as i64 - first_seen as i64
}

/// The age, on day `today`, of the domain that the service's answer `body` describes.
pub fn domain_age_days(body: &str, today: i32) -> (r: Result<i64, Error>)
    ensures
        match first_seen_day(body@) {
            Some(d) => r is Ok && r->Ok_0 == today - d,
            None => r matches Err(Error::ParseError(m)) && (if json_text_at(
                body@,
                FIRST_SEEN_POINTER@,
            ) is None {
                m@ == "Missing `first_seen` date"@
            } else {
                m@ == "Invalid `first_seen` date format"@
            }),
        },
{
    match json_string_at(body, FIRST_SEEN_POINTER) {
        None => Err(Error::ParseError(String::from_str("Missing `first_seen` date"))),
        Some(text) => match parse_day(text.as_str(), FIRST_SEEN_FORMAT) {
            None => Err(Error::ParseError(String::from_str("Invalid `first_seen` date format"))),
            Some(d) => Ok(age_days(d, today)),
        },
    }
}

/// The domain-age signal: young domains are flagged, a negative age is a data or
/// clock anomaly and cannot be judged, and a failed lookup cannot be judged either.
pub open spec fn domain_signal_of(age: Result<i64, Error>) -> SignalResult {
    match age {
        Ok(a) => if a < 0 {
            SignalResult::Indeterminate(ErrorCategory::ClockAnomaly)
        } else if a < YOUNG_DOMAIN_DAYS {
            SignalResult::Detected
        } else {
            SignalResult::NotDetected
        },
        Err(e) => SignalResult::Indeterminate(e.category_spec()),
    }
}

pub fn domain_signal(age: &Result<i64, Error>) -> (r: SignalResult)
    ensures
        r == domain_signal_of(*age),
{
    match age {
        Ok(a) => if *a < 0 {
            SignalResult::Indeterminate(ErrorCategory::ClockAnomaly)
        } else if *a < YOUNG_DOMAIN_DAYS {
            SignalResult::Detected
        } else {
            SignalResult::NotDetected
        },
        Err(e) => SignalResult::Indeterminate(e.category()),
    }
}

/// A domain first seen today is flagged; one first seen thirty days ago is not,
/// the threshold being strict.
pub proof fn lemma_domain_age_threshold(today: i32)
    requires
        today >= i32::MIN + YOUNG_DOMAIN_DAYS,
    ensures
        domain_signal_of(Ok((today - today) as i64)) == SignalResult::Detected,
        domain_signal_of(Ok((today - (today - YOUNG_DOMAIN_DAYS)) as i64))
            == SignalResult::NotDetected,
{
}

} // verus!
