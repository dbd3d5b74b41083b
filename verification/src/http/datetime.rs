//! The current-date system message prepended to chat requests, so that
//! models without a time signal do not fall back to their training cutoff.

use vstd::prelude::*;
use vstd::string::*;

verus! {

/// `chrono::DateTime::<Utc>::from_timestamp(secs, 0)` formatted with `fmt`
/// (empty when the instant is out of chrono's range).
pub uninterp spec fn utc_text(secs: i64, fmt: Seq<char>) -> Seq<char>;

/// `chrono::Utc::now().timestamp()`: the current Unix time in seconds.
#[verifier::external_body]
pub(crate) fn now_unix_secs() -> (r: i64) {
    chrono::Utc::now().timestamp()
}

/// `secs` is a value that reading the clock (`now_unix_secs`) can give: the
/// Unix time, in seconds, at the moment of some read.
pub closed spec fn clock_reading(secs: i64) -> bool {
    call_ensures(now_unix_secs, (), secs)
}

/// The format strings used here, all of which chrono accepts.
pub open spec fn known_format(fmt: Seq<char>) -> bool {
    fmt == "%A"@ || fmt == "%Y-%m-%d"@ || fmt == "%Y-%m-%dT%H:%M:%SZ"@ || fmt == "%Y"@
}

/// `DateTime::<Utc>::from_timestamp(secs, 0)` then `format(fmt).to_string()`.
/// Rendering panics on a malformed format string, so only the known ones
/// are passed.
#[verifier::external_body]
fn format_utc(secs: i64, fmt: &str) -> (r: String)
    requires
        known_format(fmt@),
    ensures
        r@ == utc_text(secs, fmt@),
{
    match chrono::DateTime::from_timestamp(secs, 0) {
        Some(d) => d.format(fmt).to_string(),
        None => String::new(),
    }
}

/// The directive text for a date, weekday name, ISO timestamp and year.
pub open spec fn datetime_directive(date: Seq<char>, weekday: Seq<char>, iso: Seq<char>, year: Seq<char>) -> Seq<
    char,
> {
    "**Today is "@ + date + " ("@ + weekday + ", UTC).** Current ISO timestamp: "@ + iso
        + ". Treat this as the absolute current date for the entire response.\n- All relative-time references (\"today\", \"now\", \"recent\", \"latest\", \"오늘\", \"금일\", \"현재\", \"최근\") resolve to "@
        + date
        + ".\n- Do NOT frame, organize, or timestamp information using any year before "@
        + year
        + " as the \"current\" or \"recent\" period — those are HISTORICAL only.\n- When discussing prices, events, trends, or market conditions: "@
        + year + " is the present.\n- If your training data lacks "@ + year
        + " information for a topic, state that explicitly rather than substituting an earlier year as if it were now."@
}

/// The directive text for the instant `secs` (Unix seconds, UTC).
pub open spec fn datetime_directive_at(secs: i64) -> Seq<char> {
    datetime_directive(
        utc_text(secs, "%Y-%m-%d"@),
        utc_text(secs, "%A"@),
        utc_text(secs, "%Y-%m-%dT%H:%M:%SZ"@),
        utc_text(secs, "%Y"@),
    )
}

/// Builds the directive text from its parts.
pub fn datetime_directive_text(date: &str, weekday: &str, iso: &str, year: &str) -> (r: String)
    ensures
        r@ == datetime_directive(date@, weekday@, iso@, year@),
{
    let mut r = "**Today is ".to_owned();
    r.append(date);
    r.append(" (");
    r.append(weekday);
    r.append(", UTC).** Current ISO timestamp: ");
    r.append(iso);
    r.append(
        ". Treat this as the absolute current date for the entire response.\n- All relative-time references (\"today\", \"now\", \"recent\", \"latest\", \"오늘\", \"금일\", \"현재\", \"최근\") resolve to ",
    );
    r.append(date);
    r.append(".\n- Do NOT frame, organize, or timestamp information using any year before ");
    r.append(year);
    r.append(
        " as the \"current\" or \"recent\" period — those are HISTORICAL only.\n- When discussing prices, events, trends, or market conditions: ",
    );
    r.append(year);
    r.append(" is the present.\n- If your training data lacks ");
    r.append(year);
    r.append(
        " information for a topic, state that explicitly rather than substituting an earlier year as if it were now.",
    );
    r
}

/// The directive text for the instant `secs`.
pub fn datetime_directive_for(secs: i64) -> (r: String)
    ensures
        r@ == datetime_directive_at(secs),
{
    let date = format_utc(secs, "%Y-%m-%d");
    let weekday = format_utc(secs, "%A");
    let iso = format_utc(secs, "%Y-%m-%dT%H:%M:%SZ");
    let year = format_utc(secs, "%Y");
    datetime_directive_text(date.as_str(), weekday.as_str(), iso.as_str(), year.as_str())
}

/// The directive text for the current instant: the absolute date, relative
/// time anchors, and a rule against treating earlier years as current. The
/// instant is the one the clock read gave, unchanged.
pub fn build_current_datetime_system_text() -> (r: String)
    ensures
        exists|secs: i64| clock_reading(secs) && r@ == datetime_directive_at(secs),
{
    let now = now_unix_secs();
    datetime_directive_for(now)
}

} // verus!
