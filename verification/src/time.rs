//! Points in time as chrono holds them (seconds and nanoseconds), and
//! the calls into chrono that parse, shift and print them.
use vstd::prelude::*;

verus! {

/// The earliest second chrono's `NaiveDateTime` can hold: -262143-01-01 00:00:00.
pub const MIN_TIMESTAMP: i64 = -8334601228800;

/// The latest whole second chrono's `NaiveDateTime` can hold: +262142-12-31 23:59:59.
pub const MAX_TIMESTAMP: i64 = 8210266876799;

/// The largest number of seconds chrono's `TimeDelta` can hold (`i64::MAX` milliseconds).
pub const MAX_DELTA_SECONDS: i64 = 9223372036854775;

/// The naive date and time 3141-05-09 02:06:53, as seconds after 1970-01-01
/// 00:00:00: the due date of tasks that name none.
pub const DEFAULT_DUE: i64 = 36964260413;

/// Nanoseconds in a second.
pub const NANOS_PER_SECOND: u32 = 1_000_000_000;

/// A point in time as chrono holds it: whole seconds after 1970-01-01
/// 00:00:00 and the nanoseconds past them (one second more than usual
/// during a leap second).
#[derive(Clone, Copy, Debug, PartialEq, Eq, Structural)]
pub struct Moment {
    pub secs: i64,
    pub nanos: u32,
}

/// The moment at the start of the second `secs`.
pub open spec fn at_second(secs: int) -> Moment {
    Moment { secs: secs as i64, nanos: 0 }
}

/// The default due date as a moment.
pub open spec fn default_due() -> Moment {
    at_second(DEFAULT_DUE as int)
}

/// Whether `t` seconds after 1970-01-01 00:00:00 is a point chrono can represent.
pub open spec fn in_range(t: int) -> bool {
    MIN_TIMESTAMP <= t <= MAX_TIMESTAMP
}

/// Whether chrono can hold the moment: its second is in range, and its
/// nanoseconds stay below a second, or below two in the last second of a
/// minute (a leap second).
pub open spec fn valid_moment(m: Moment) -> bool {
    &&& in_range(m.secs as int)
    &&& (m.nanos < NANOS_PER_SECOND || (m.nanos < 2 * NANOS_PER_SECOND && m.secs % 60 == 59))
}

/// Whether a shift by `d` seconds is a duration chrono can represent.
pub open spec fn delta_ok(d: int) -> bool {
    -MAX_DELTA_SECONDS <= d <= MAX_DELTA_SECONDS
}

/// What shifting the point `t` by `d` seconds gives, where chrono can do it.
pub open spec fn shifted(t: int, d: int) -> Option<int> {
    if in_range(t) && delta_ok(d) && in_range(t + d) {
        Some(t + d)
    } else {
        None
    }
}

/// What shifting the moment `m` by `d` whole seconds gives, where chrono
/// can do it: the nanoseconds stay as they are.
pub open spec fn shifted_moment(m: Moment, d: int) -> Option<Moment> {
    match shifted(m.secs as int, d) {
        Some(t) => Some(Moment { secs: t as i64, nanos: m.nanos }),
        None => None,
    }
}

/// The moment (seconds and nanoseconds) that chrono reads from `text` with
/// the format `%Y-%m-%d %H:%M:%S`, or `None` where it refuses the text.
pub uninterp spec fn parsed_datetime(text: Seq<char>) -> Option<(int, int)>;

/// What chrono prints for the moment `secs`, `nanos` with the format `%Y-%m-%d %H:%M:%S`.
pub uninterp spec fn formatted_datetime(secs: int, nanos: int) -> Seq<char>;

/// What chrono's `Display` prints for the moment `secs`, `nanos` taken as a UTC date and time.
pub uninterp spec fn utc_display(secs: int, nanos: int) -> Seq<char>;

#[verifier::external_type_specification]
#[verifier::external_body]
pub struct ExParseError(chrono::ParseError);

/// Calls chrono's `NaiveDateTime::parse_from_str` with the format
/// `%Y-%m-%d %H:%M:%S` and takes the result as a moment. The contract claims
/// that the outcome depends on the text alone, and that a parsed moment is
/// one chrono can hold. Which error comes back is not stated.
#[verifier::external_body]
pub(crate) fn parse_datetime(text: &str) -> (r: Result<Moment, chrono::ParseError>)
    ensures
        r is Ok <==> parsed_datetime(text@) is Some,
        r matches Ok(m) ==> parsed_datetime(text@) == Some((m.secs as int, m.nanos as int))
            && valid_moment(m),
{
    match chrono::NaiveDateTime::parse_from_str(text, "%Y-%m-%d %H:%M:%S") {
        Ok(dt) => Ok(Moment { secs: dt.and_utc().timestamp(), nanos: dt.and_utc().timestamp_subsec_nanos() }),
        Err(e) => Err(e),
    }
}

/// Calls chrono's `NaiveDateTime::checked_add_signed` with `TimeDelta::try_seconds(d)`
/// on the moment `m`, outside a leap second. The contract claims what
/// chrono's source shows: the second shifted by `d` with the nanoseconds
/// kept, where the moment, the shift and the sum are in range, and `None`
/// otherwise.
#[verifier::external_body]
pub(crate) fn add_seconds(m: Moment, d: i64) -> (r: Option<Moment>)
    requires
        m.nanos < NANOS_PER_SECOND,
    ensures
        r == shifted_moment(m, d as int),
{
    let base = chrono::DateTime::from_timestamp(m.secs, m.nanos)?.naive_utc();
    let delta = chrono::TimeDelta::try_seconds(d)?;
    let sum = base.checked_add_signed(delta)?.and_utc();
    Some(Moment { secs: sum.timestamp(), nanos: sum.timestamp_subsec_nanos() })
}

/// Calls chrono's `NaiveDateTime::format` with `%Y-%m-%d %H:%M:%S` on the
/// moment `m`; the contract names the text, a function of `m` alone.
#[verifier::external_body]
pub(crate) fn format_datetime(m: Moment) -> (r: String)
    requires
        valid_moment(m),
    ensures
        r@ == formatted_datetime(m.secs as int, m.nanos as int),
{
    chrono::DateTime::from_timestamp(m.secs, m.nanos).unwrap_or_default().naive_utc().format(
        "%Y-%m-%d %H:%M:%S",
    ).to_string()
}

/// Calls `to_string` on chrono's `DateTime<Utc>` for the moment `m`; the
/// contract names the text, a function of `m` alone.
#[verifier::external_body]
pub(crate) fn display_utc(m: Moment) -> (r: String)
    requires
        valid_moment(m),
    ensures
        r@ == utc_display(m.secs as int, m.nanos as int),
{
    chrono::DateTime::from_timestamp(m.secs, m.nanos).unwrap_or_default().to_string()
}

/// Calls chrono's `Local::now().naive_local()`. The outcome rests on the
/// clock; the contract claims only that chrono can hold it and that it is
/// not within a leap second, as a time read from the system clock never is.
#[verifier::external_body]
pub(crate) fn local_now() -> (m: Moment)
    ensures
        valid_moment(m),
        m.nanos < NANOS_PER_SECOND,
{
    let now = chrono::Local::now().naive_local().and_utc();
    Moment { secs: now.timestamp(), nanos: now.timestamp_subsec_nanos() }
}

/// Calls chrono's `Utc::now()`. The outcome rests on the clock; the
/// contract claims only that chrono can hold it and that it is not within a
/// leap second, as a time read from the system clock never is.
#[verifier::external_body]
pub(crate) fn utc_now() -> (m: Moment)
    ensures
        valid_moment(m),
        m.nanos < NANOS_PER_SECOND,
{
    let now = chrono::Utc::now();
    Moment { secs: now.timestamp(), nanos: now.timestamp_subsec_nanos() }
}

/// Calls chrono's `Local::now().offset().local_minus_utc()`: the seconds
/// that the machine's time zone is ahead of UTC. The outcome rests on the
/// machine; the contract claims only the range that chrono's `FixedOffset`
/// keeps, less than a day either way.
#[verifier::external_body]
pub(crate) fn local_offset() -> (r: i32)
    ensures
        -86400 < r < 86400,
{
    chrono::Local::now().offset().local_minus_utc()
}

/// Whether chrono can hold the moment.
pub fn valid_chrono_moment(m: Moment) -> (r: bool)
    ensures
        r == valid_moment(m),
{
    let rem = m.secs % 60;
    let second_of_minute = if rem < 0 {
        rem + 60
    } else {
        rem
    };
    MIN_TIMESTAMP <= m.secs && m.secs <= MAX_TIMESTAMP && (m.nanos < NANOS_PER_SECOND || (m.nanos
        < 2 * NANOS_PER_SECOND && second_of_minute == 59))
}

/// 3141-05-09 02:06:53 in the time zone `offset` seconds ahead of UTC, as a
/// UTC moment.
pub open spec fn local_default(offset: int) -> Moment {
    at_second(DEFAULT_DUE - offset)
}

/// The default due date of the due helper: 3141-05-09 02:06:53 in the time
/// zone `offset` seconds ahead of UTC, as a UTC moment.
pub fn local_default_due(offset: i32) -> (r: Moment)
    requires
        -86400 < offset < 86400,
    ensures
        r == local_default(offset as int),
        valid_moment(r),
{
    Moment { secs: DEFAULT_DUE - offset as i64, nanos: 0 }
}

} // verus!
