//! Timestamps: parsing observation datetimes and converting them to and from
//! the unix timestamps that the journal persists.
use time::error::ComponentRange;
use time::error::Parse;
use time::format_description::well_known::Iso8601;
use time::OffsetDateTime;
use vstd::prelude::*;

verus! {

/// `time::OffsetDateTime`, carried through messages as an opaque value.
#[verifier::external_type_specification]
#[verifier::external_body]
pub struct ExOffsetDateTime(OffsetDateTime);

/// `Clone` of `OffsetDateTime`, which is `Copy`: the clone is the same datetime.
pub assume_specification[ <OffsetDateTime as Clone>::clone ](dt: &OffsetDateTime) -> (r: OffsetDateTime)
    ensures
        r == *dt,
;

/// `time::error::Parse`, the error of a failed datetime parse.
#[verifier::external_type_specification]
#[verifier::external_body]
pub struct ExParse(Parse);

/// `time::error::ComponentRange`, the error of an out-of-range timestamp.
#[verifier::external_type_specification]
#[verifier::external_body]
pub struct ExComponentRange(ComponentRange);

/// The earliest unix timestamp that `OffsetDateTime` represents: -9999-01-01T00:00:00Z.
pub const UNIX_TIMESTAMP_MIN: i64 = -377705116800i64;

/// The latest unix timestamp that `OffsetDateTime` represents: 9999-12-31T23:59:59Z.
pub const UNIX_TIMESTAMP_MAX: i64 = 253402300799i64;

/// What `OffsetDateTime::unix_timestamp` returns for a datetime.
pub uninterp spec fn unix_timestamp_of(dt: OffsetDateTime) -> i64;

/// What `OffsetDateTime::parse` with the ISO 8601 default description gives for a text:
/// the datetime, or the error that rejects the text.
pub uninterp spec fn iso8601_parse(text: Seq<char>) -> Result<OffsetDateTime, Parse>;

/// The text the `Display` impl of `time::error::Parse` writes for an error.
pub uninterp spec fn parse_error_display(e: Parse) -> Seq<char>;

/// The offset of a datetime from UTC, in whole seconds: what `OffsetDateTime::offset`
/// returns, as `UtcOffset::whole_seconds` counts it.
pub uninterp spec fn offset_seconds_of(dt: OffsetDateTime) -> i32;

/// What `OffsetDateTime::nanosecond` returns for a datetime.
pub uninterp spec fn nanosecond_of(dt: OffsetDateTime) -> u32;

/// What `OffsetDateTime::from_unix_timestamp` gives for a timestamp.
pub uninterp spec fn from_unix_timestamp_of(timestamp: i64) -> Result<OffsetDateTime, ComponentRange>;

/// The text the `Display` impl of `time::error::ComponentRange` writes for an error.
pub uninterp spec fn component_range_display(e: ComponentRange) -> Seq<char>;

/// Calls `OffsetDateTime::unix_timestamp`; the result is `unix_timestamp_of(dt)`.
#[verifier::external_body]
fn unix_timestamp(dt: OffsetDateTime) -> (r: i64)
    ensures
        r == unix_timestamp_of(dt),
{
    dt.unix_timestamp()
}

/// Calls `OffsetDateTime::from_unix_timestamp`; the outcome is the name
/// `from_unix_timestamp_of` applied to the timestamp.  Exactly the timestamps from
/// `UNIX_TIMESTAMP_MIN` through `UNIX_TIMESTAMP_MAX` are accepted (the range of `Date::MIN`
/// and `Date::MAX` in UTC, years -9999 through 9999, with `time`'s `large-dates` feature
/// off, as no dependency of this crate turns it on), and
/// that an accepted timestamp gives a datetime in UTC (its offset is `UtcOffset::UTC`, zero
/// seconds), with zero nanoseconds, whose `unix_timestamp` is that timestamp.
#[verifier::external_body]
fn from_unix_timestamp(timestamp: i64) -> (r: Result<OffsetDateTime, ComponentRange>)
    ensures
        r == from_unix_timestamp_of(timestamp),
        r is Ok <==> UNIX_TIMESTAMP_MIN <= timestamp <= UNIX_TIMESTAMP_MAX,
        r matches Ok(dt) ==> unix_timestamp_of(dt) == timestamp,
        r matches Ok(dt) ==> offset_seconds_of(dt) == 0 && nanosecond_of(dt) == 0,
{
    OffsetDateTime::from_unix_timestamp(timestamp)
}

/// Calls `OffsetDateTime::parse` with `Iso8601::DEFAULT`; the outcome is the name
/// `iso8601_parse` applied to the text.
#[verifier::external_body]
fn parse_iso8601(text: &str) -> (r: Result<OffsetDateTime, Parse>)
    ensures
        r == iso8601_parse(text@),
{
    OffsetDateTime::parse(text, &Iso8601::DEFAULT)
}

/// Calls `OffsetDateTime::now_utc`: the current time, of which nothing is stated.
#[verifier::external_body]
pub(crate) fn now_utc() -> OffsetDateTime {
    OffsetDateTime::now_utc()
}

/// Calls the `Display` impl of `time::error::Parse`; the text is the name
/// `parse_error_display` applied to the error.
#[verifier::external_body]
fn parse_error_text(e: &Parse) -> (r: String)
    ensures
        r@ == parse_error_display(*e),
{
    e.to_string()
}

/// Calls the `Display` impl of `time::error::ComponentRange`; the text is the name
/// `component_range_display` applied to the error.
#[verifier::external_body]
fn component_range_text(e: &ComponentRange) -> (r: String)
    ensures
        r@ == component_range_display(*e),
{
    e.to_string()
}

/// Returned when a datetime cannot be read or built.
pub struct TimeError {
    pub reason: String,
}

impl TimeError {
    /// The text the error displays: its reason.
    pub fn to_display_string(&self) -> (r: String)
        ensures
            r@ == self.reason@,
    {
        self.reason.clone()
    }
}

/// extract a datetime from an ISO8601 string
///
/// Succeeds exactly when the text parses as ISO 8601, with the parsed datetime; a failure's
/// reason is the parse error's text.
pub fn extract_datetime(datetime_str: &str) -> (r: Result<OffsetDateTime, TimeError>)
    ensures
        match iso8601_parse(datetime_str@) {
            Ok(dt) => r == Ok::<OffsetDateTime, TimeError>(dt),
            Err(e) => r matches Err(te) && te.reason@ == parse_error_display(e),
        },
{
    match parse_iso8601(datetime_str) {
        Ok(d) => Ok(d),
        Err(e) => Err(TimeError { reason: parse_error_text(&e) }),
    }
}

/// The record that persisting a datetime gives.
pub open spec fn persisted_form(dt: OffsetDateTime) -> OffsetDateTimeWrapper {
    OffsetDateTimeWrapper { datetime_num: unix_timestamp_of(dt) }
}

/// What reading a persisted timestamp back gives: the datetime `from_unix_timestamp` gives,
/// which exists exactly for the timestamps in range, is in UTC with zero nanoseconds, and
/// persists to the same record; for any other timestamp an error with the text of the
/// range error.
pub open spec fn restored(w: OffsetDateTimeWrapper, r: Result<OffsetDateTime, TimeError>) -> bool {
    &&& (r is Ok <==> UNIX_TIMESTAMP_MIN <= w.datetime_num <= UNIX_TIMESTAMP_MAX)
    &&& (r matches Ok(dt) ==> persisted_form(dt) == w && from_unix_timestamp_of(w.datetime_num)
        == Ok::<OffsetDateTime, ComponentRange>(dt) && offset_seconds_of(dt) == 0 && nanosecond_of(dt) == 0)
    &&& (r matches Err(te) ==> from_unix_timestamp_of(w.datetime_num) matches Err(e)
        && te.reason@ == component_range_display(e))
}

/// Persisting a datetime and reading it back gives a datetime with the same unix timestamp,
/// for every datetime whose timestamp lies in `UNIX_TIMESTAMP_MIN..=UNIX_TIMESTAMP_MAX`;
/// `r` is what `to_ts` returned on the persisted form.
pub proof fn lemma_persisted_timestamp_roundtrip(dt: OffsetDateTime, r: Result<OffsetDateTime, TimeError>)
    requires
        UNIX_TIMESTAMP_MIN <= unix_timestamp_of(dt) <= UNIX_TIMESTAMP_MAX,
        restored(persisted_form(dt), r),
    ensures
        r matches Ok(back) && unix_timestamp_of(back) == unix_timestamp_of(dt),
{
}

/// A persistable form of a datetime: whole seconds since the unix epoch.
pub struct OffsetDateTimeWrapper {
    pub datetime_num: i64,
}

impl OffsetDateTimeWrapper {
    /// The datetime back from the persisted timestamp.
    ///
    /// Succeeds exactly on the timestamps in `UNIX_TIMESTAMP_MIN..=UNIX_TIMESTAMP_MAX`, and a
    /// datetime it gives has exactly the persisted unix timestamp.
    pub fn to_ts(&self) -> (r: Result<OffsetDateTime, TimeError>)
        ensures
            restored(*self, r),
    {
        match from_unix_timestamp(self.datetime_num) {
            Ok(ts) => Ok(ts),
            Err(e) => Err(TimeError { reason: component_range_text(&e) }),
        }
    }

    /// The persistable form of a datetime: its unix timestamp.
    pub fn new(timestamp: OffsetDateTime) -> (r: Self)
        ensures
            r == persisted_form(timestamp),
    {
        Self { datetime_num: unix_timestamp(timestamp) }
    }
}

} // verus!
