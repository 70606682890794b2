//! Points in time with a UTC offset, and their RFC 3339 text, through the
//! `time` crate.
use ::time::format_description::well_known::Rfc3339;
use ::time::{OffsetDateTime, UtcOffset};
use vstd::prelude::*;

verus! {

/// Nanoseconds in a second.
pub open spec fn nanos_per_sec() -> int {
    1_000_000_000
}

/// The first second that the `time` crate can hold: -9999-01-01T00:00:00.
pub open spec fn min_unix_secs() -> int {
    -377705203200
}

/// The last second that the `time` crate can hold: 9999-12-31T23:59:59.
pub open spec fn max_unix_secs() -> int {
    253402300799
}

/// The first second of year 0: 0000-01-01T00:00:00.
pub open spec fn year_zero_unix_secs() -> int {
    -62167219200
}

/// The largest UTC offset, in seconds, that the `time` crate holds
/// (25:59:59).
pub open spec fn max_offset_secs() -> int {
    93599
}

/// The wall-clock time at the offset, as nanoseconds since the epoch.
pub open spec fn local_nanos(v: (int, int)) -> int {
    v.0 + v.1 * nanos_per_sec()
}

/// An instant (nanoseconds since the Unix epoch) with an offset (seconds)
/// that the `time` crate can hold: the offset is within ±25:59:59 and the
/// wall-clock time at that offset lies in years -9999 to 9999.
pub open spec fn valid_instant(v: (int, int)) -> bool {
    &&& -max_offset_secs() <= v.1 <= max_offset_secs()
    &&& min_unix_secs() * nanos_per_sec() <= local_nanos(v)
    &&& local_nanos(v) < (max_unix_secs() + 1) * nanos_per_sec()
}

/// Whether RFC 3339 can write the instant: the wall-clock year lies in 0 to
/// 9999, the offset is less than 24 hours and has no seconds part.
pub open spec fn rfc3339_formattable(v: (int, int)) -> bool {
    &&& year_zero_unix_secs() * nanos_per_sec() <= local_nanos(v)
    &&& -86400 < v.1 < 86400
    &&& v.1 % 60 == 0
}

/// A point in time: an instant and the UTC offset it is shown in.
#[derive(Clone, Copy, Debug)]
pub struct DateTime {
    unix_nanos: i128,
    offset_secs: i32,
}

impl View for DateTime {
    type V = (int, int);

    /// Nanoseconds since the Unix epoch, and the offset in seconds.
    closed spec fn view(&self) -> (int, int) {
        (self.unix_nanos as int, self.offset_secs as int)
    }
}

impl DateTime {
    /// Nanoseconds since the Unix epoch.
    pub fn unix_timestamp_nanos(&self) -> (res: i128)
        ensures
            res == self@.0,
    {
        self.unix_nanos
    }

    /// The UTC offset, in seconds.
    pub fn offset_seconds(&self) -> (res: i32)
        ensures
            res == self@.1,
    {
        self.offset_secs
    }
}

/// What `OffsetDateTime::format(&Rfc3339)` writes for the wall-clock time
/// `local` (nanoseconds since the epoch, read as a calendar time) shown at
/// the offset `offset` (seconds).
pub uninterp spec fn rfc3339_text(local: int, offset: int) -> Seq<char>;

/// The RFC 3339 text of a point in time.
pub open spec fn text_of(v: (int, int)) -> Seq<char> {
    rfc3339_text(local_nanos(v), v.1)
}

/// Whether a text ends with the UTC designator `Z`.
pub open spec fn ends_in_z(s: Seq<char>) -> bool {
    s.len() > 0 && s.last() == 'Z'
}

/// What `OffsetDateTime::parse(_, &Rfc3339)` reads from `s`: the instant
/// and offset, or `None` on a parse error.
pub uninterp spec fn rfc3339_parse(s: Seq<char>) -> Option<(int, int)>;

/// Wraps `OffsetDateTime::now_utc` of the `time` crate. The result depends on
/// the clock: the contract says only that it is an instant the crate holds,
/// at offset zero.
#[verifier::external_body]
fn clock_now_utc() -> (res: DateTime)
    ensures
        valid_instant(res@),
        res@.1 == 0,
{
    let now = OffsetDateTime::now_utc();
    DateTime { unix_nanos: now.unix_timestamp_nanos(), offset_secs: now.offset().whole_seconds() }
}

/// Wraps `OffsetDateTime::format(&Rfc3339)` of the `time` crate, with the
/// conversion of the wall-clock time and offset to an `OffsetDateTime`
/// (`from_unix_timestamp_nanos` of the wall-clock time, `from_whole_seconds`
/// of the offset, joined by `replace_offset`). From the crate's source: the
/// conversion succeeds for a wall-clock time in years -9999 to 9999 and an
/// offset within ±25:59:59; formatting succeeds for a year in 0 to 9999 and
/// an offset under 24 hours without seconds; the text holds every component
/// (date, time, nanoseconds without trailing zeros, then `Z` for offset zero
/// or `±hh:mm`), so parsing it gives the point in time back.
#[verifier::external_body]
fn rfc3339_format(local: i128, offset: i32) -> (res: String)
    requires
        year_zero_unix_secs() * nanos_per_sec() <= local < (max_unix_secs() + 1) * nanos_per_sec(),
        -86400 < offset < 86400,
        offset % 60 == 0,
    ensures
        res@ == rfc3339_text(local as int, offset as int),
        rfc3339_parse(res@) == Some((local - offset * nanos_per_sec(), offset as int)),
        offset == 0 ==> ends_in_z(res@),
{
    let off = UtcOffset::from_whole_seconds(offset).unwrap();
    OffsetDateTime::from_unix_timestamp_nanos(local).unwrap().replace_offset(off).format(&Rfc3339).unwrap()
}

/// Wraps `OffsetDateTime::parse(_, &Rfc3339)` of the `time` crate; the
/// parsed value is read back with `unix_timestamp_nanos` and
/// `offset().whole_seconds()`. Every value the crate holds is valid.
#[verifier::external_body]
fn rfc3339_read(s: &str) -> (res: Option<DateTime>)
    ensures
        res matches Some(t) ==> rfc3339_parse(s@) == Some(t@) && valid_instant(t@),
        res is None <==> rfc3339_parse(s@) is None,
{
    match OffsetDateTime::parse(s, &Rfc3339) {
        Ok(odt) => Some(DateTime { unix_nanos: odt.unix_timestamp_nanos(), offset_secs: odt.offset().whole_seconds() }),
        Err(_) => None,
    }
}

/// Errors of time handling.
#[derive(Debug)]
pub enum TimeError {
    FailToDateParse(String),
}

/// Whether `t` is a time that a reading of the clock gave: a value that a
/// call of `OffsetDateTime::now_utc` returned. Nothing else satisfies it,
/// since the clock's answers are known only through its calls.
pub closed spec fn is_clock_reading(t: DateTime) -> bool {
    call_ensures(clock_now_utc, (), t)
}

/// A reading of the clock is an instant the `time` crate holds, at offset
/// zero.
pub proof fn lemma_clock_reading_is_utc(t: DateTime)
    requires
        is_clock_reading(t),
    ensures
        valid_instant(t@),
        t@.1 == 0,
{
}

/// The current time, in UTC: the clock's reading during the call.
pub fn now_utc() -> (res: DateTime)
    ensures
        valid_instant(res@),
        res@.1 == 0,
        is_clock_reading(res),
{
    let read = clock_now_utc;
    read()
}

/// The RFC 3339 text of `time` (for example `2002-10-02T10:00:00-05:00`),
/// ending in `Z` at offset zero. Parsing the text gives `time` back.
pub fn format_time(time: DateTime) -> (res: String)
    requires
        valid_instant(time@),
        rfc3339_formattable(time@),
    ensures
        res@ == text_of(time@),
        rfc3339_parse(res@) == Some(time@),
        time@.1 == 0 ==> ends_in_z(res@),
{
    let local: i128 = time.unix_nanos + (time.offset_secs as i128) * 1_000_000_000;
    rfc3339_format(local, time.offset_secs)
}

/// The point in time `sec` seconds after `time`, in the same offset.
pub open spec fn plus_seconds(v: (int, int), sec: int) -> (int, int) {
    (v.0 + sec * nanos_per_sec(), v.1)
}

/// `time` moved by `sec` seconds, as `time + Duration::seconds(sec)`.
pub fn add_seconds(time: DateTime, sec: i64) -> (res: DateTime)
    requires
        valid_instant(time@),
        valid_instant(plus_seconds(time@, sec as int)),
    ensures
        res@ == plus_seconds(time@, sec as int),
{
    proof {
        assert(-9223372036854775808 * 1_000_000_000 <= sec * 1_000_000_000 <= 9223372036854775807 * 1_000_000_000)
            by (nonlinear_arith) requires -9223372036854775808 <= sec <= 9223372036854775807;
    }
    DateTime { unix_nanos: time.unix_nanos + (sec as i128) * 1_000_000_000, offset_secs: time.offset_secs }
}

/// The RFC 3339 text of `now` moved by `sec` seconds.
pub fn time_plus_sec_str(now: DateTime, sec: i64) -> (res: String)
    requires
        valid_instant(now@),
        valid_instant(plus_seconds(now@, sec as int)),
        rfc3339_formattable(plus_seconds(now@, sec as int)),
    ensures
        res@ == text_of(plus_seconds(now@, sec as int)),
        rfc3339_parse(res@) == Some(plus_seconds(now@, sec as int)),
        now@.1 == 0 ==> ends_in_z(res@),
{
    let future = add_seconds(now, sec);
    format_time(future)
}

/// Whether `now` moved by `sec` seconds can be held and written as RFC 3339
/// text: its wall-clock year lies in 0 to 9999 and its offset can be written.
pub open spec fn plus_sec_writable(now: (int, int), sec: int) -> bool {
    valid_instant(plus_seconds(now, sec)) && rfc3339_formattable(plus_seconds(now, sec))
}

/// The RFC 3339 text of `now` moved by `sec` seconds, or `None` when that
/// point in time cannot be held or written.
pub fn plus_sec_str_at(now: DateTime, sec: i64) -> (res: Option<String>)
    requires
        valid_instant(now@),
    ensures
        plus_sec_writable(now@, sec as int) ==> (res matches Some(s)
            && s@ == text_of(plus_seconds(now@, sec as int))
            && rfc3339_parse(s@) == Some(plus_seconds(now@, sec as int))
            && (now@.1 == 0 ==> ends_in_z(s@))),
        !plus_sec_writable(now@, sec as int) ==> res is None,
{
    proof {
        assert(-9223372036854775808 * 1_000_000_000 <= sec * 1_000_000_000 <= 9223372036854775807 * 1_000_000_000)
            by (nonlinear_arith) requires -9223372036854775808 <= sec <= 9223372036854775807;
    }
    let local: i128 = now.unix_nanos + (now.offset_secs as i128) * 1_000_000_000;
    let shifted: i128 = local + (sec as i128) * 1_000_000_000;
    let off = now.offset_secs;
    if -62167219200000000000 <= shifted && shifted < 253402300800000000000 && -86400 < off && off < 86400
        && off % 60 == 0 {
        Some(time_plus_sec_str(now, sec))
    } else {
        None
    }
}

/// The RFC 3339 text of the current time (in UTC, so ending in `Z`) moved by
/// `sec` seconds; `None` when that time lies outside years 0 to 9999. The
/// text parses back to that time.
pub fn now_utc_plus_sec_str(sec: i64) -> (res: Option<String>)
    ensures
        exists|now: (int, int)| #![trigger plus_seconds(now, sec as int)]
            valid_instant(now) && now.1 == 0 && (if plus_sec_writable(now, sec as int) {
                res matches Some(s) && s@ == text_of(plus_seconds(now, sec as int))
                    && rfc3339_parse(s@) == Some(plus_seconds(now, sec as int)) && ends_in_z(s@)
            } else {
                res is None
            }),
        exists|now: DateTime| #![trigger is_clock_reading(now)]
            is_clock_reading(now) && (if plus_sec_writable(now@, sec as int) {
                res matches Some(s) && s@ == text_of(plus_seconds(now@, sec as int))
                    && rfc3339_parse(s@) == Some(plus_seconds(now@, sec as int)) && ends_in_z(s@)
            } else {
                res is None
            }),
{
    let now = now_utc();
    let res = plus_sec_str_at(now, sec);
    assert(is_clock_reading(now));
    res
}

/// The expiry text is the clock's reading during the call moved forward by
/// `sec` seconds: it parses to that reading plus `sec` seconds, in UTC, and
/// it is missing exactly when that time falls outside years 0 to 9999.
pub proof fn lemma_expiry_is_clock_plus_sec(sec: i64, res: Option<String>)
    requires
        call_ensures(now_utc_plus_sec_str, (sec,), res),
    ensures
        exists|now: DateTime| #![trigger is_clock_reading(now)]
            is_clock_reading(now) && match res {
                Some(s) => rfc3339_parse(s@) == Some((now@.0 + sec * 1_000_000_000, 0int)) && ends_in_z(s@),
                None => !(year_zero_unix_secs() * 1_000_000_000 <= now@.0 + sec * 1_000_000_000
                    < (max_unix_secs() + 1) * 1_000_000_000),
            },
{
    let now = choose|now: DateTime| #![trigger is_clock_reading(now)]
        is_clock_reading(now) && (if plus_sec_writable(now@, sec as int) {
            res matches Some(s) && s@ == text_of(plus_seconds(now@, sec as int))
                && rfc3339_parse(s@) == Some(plus_seconds(now@, sec as int)) && ends_in_z(s@)
        } else {
            res is None
        });
    lemma_clock_reading_is_utc(now);
    assert(is_clock_reading(now));
}

/// The text for a given reading names the instant `sec` seconds after it,
/// in the reading's offset; it is missing exactly when the wall-clock time
/// then falls outside years 0 to 9999 or the offset cannot be written.
pub proof fn lemma_plus_sec_text_at(now: DateTime, sec: i64, res: Option<String>)
    requires
        valid_instant(now@),
        call_ensures(plus_sec_str_at, (now, sec), res),
    ensures
        match res {
            Some(s) => rfc3339_parse(s@) == Some((now@.0 + sec * 1_000_000_000, now@.1)),
            None => !(year_zero_unix_secs() * 1_000_000_000 <= now@.0 + now@.1 * 1_000_000_000 + sec * 1_000_000_000
                < (max_unix_secs() + 1) * 1_000_000_000 && -86400 < now@.1 < 86400 && now@.1 % 60 == 0),
        },
{
}

/// The point in time `v` shown in UTC: the same instant at offset zero.
pub open spec fn in_utc(v: (int, int)) -> (int, int) {
    (v.0, 0)
}

/// Reads an RFC 3339 text as a UTC time: the instant that the text names,
/// at offset zero (`2002-10-02T10:00:00-05:00` gives 15:00 UTC). A text that
/// does not parse, or whose instant lies after 9999-12-31T23:59:59 UTC and
/// so has no UTC form, is `FailToDateParse` with the text.
pub fn parse_utc(moment: &str) -> (res: Result<DateTime, TimeError>)
    ensures
        match rfc3339_parse(moment@) {
            Some(v) => if valid_instant(in_utc(v)) {
                res matches Ok(t) && t@ == in_utc(v)
            } else {
                res matches Err(TimeError::FailToDateParse(m)) && m@ == moment@
            },
            None => (res matches Err(TimeError::FailToDateParse(m)) && m@ == moment@),
        },
{
    match rfc3339_read(moment) {
        Some(t) => {
            let nanos: i128 = t.unix_nanos;
            if -377705203200000000000 <= nanos && nanos < 253402300800000000000 {
                Ok(DateTime { unix_nanos: nanos, offset_secs: 0 })
            } else {
                Err(TimeError::FailToDateParse(String::from_str(moment)))
            }
        },
        None => Err(TimeError::FailToDateParse(String::from_str(moment))),
    }
}

} // verus!
