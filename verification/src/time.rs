//! Instants on the UTC time line, and the calendar questions that are put
//! to `chrono`.

use vstd::prelude::*;

use chrono::Datelike;

verus! {

/// Seconds since the epoch of the first instant of the calendar: midnight
/// that begins the year -262143.
pub const MIN_SECONDS: i64 = -8_334_601_228_800;

/// Seconds since the epoch of the last second of the calendar: the one that
/// ends the year 262142.
pub const MAX_SECONDS: i64 = 8_210_266_876_799;

/// The first year of the calendar.
pub const MIN_YEAR: i32 = -262_143;

/// The last year of the calendar.
pub const MAX_YEAR: i32 = 262_142;

/// Whether a count of seconds since the epoch, with the nanoseconds into
/// that second, is an instant of the calendar. A nanosecond count of a
/// thousand million or more stands for a leap second, which can only follow
/// the last second of a minute.
pub open spec fn valid_instant(secs: i64, nanos: u32) -> bool {
    &&& MIN_SECONDS <= secs <= MAX_SECONDS
    &&& (nanos < 1_000_000_000 || (nanos < 2_000_000_000 && secs as int % 60 == 59))
}

/// The calendar year in which a second since the epoch falls, in UTC.
pub uninterp spec fn utc_year(secs: i64) -> i32;

/// The day of the year, counted from 1, on which a second since the epoch
/// falls, in UTC.
pub uninterp spec fn utc_ordinal(secs: i64) -> u32;

/// Seconds since the epoch of the first second after midnight that begins
/// a year, where the calendar holds that year.
pub uninterp spec fn utc_year_start(year: i32) -> Option<i64>;

/// Whole minutes from the second instant to the first, each given as
/// seconds since the epoch and nanoseconds; negative when the first is the
/// earlier one. Outside a leap second they are `whole_minutes`.
pub uninterp spec fn utc_minutes_between(
    later_secs: i64,
    later_nanos: u32,
    earlier_secs: i64,
    earlier_nanos: u32,
) -> i64;

/// The whole minutes in the nanoseconds from the second instant to the
/// first: the quotient by a minute, cut off towards zero.
pub open spec fn whole_minutes(
    later_secs: i64,
    later_nanos: u32,
    earlier_secs: i64,
    earlier_nanos: u32,
) -> int {
    let nanoseconds = (later_secs - earlier_secs) * 1_000_000_000 + (later_nanos - earlier_nanos);
    if nanoseconds >= 0 {
        nanoseconds / 60_000_000_000
    } else {
        -((-nanoseconds) / 60_000_000_000)
    }
}

/// The seconds of the instant that lies a number of whole seconds before
/// an instant, or after it for a negative number. An instant inside a leap
/// second first steps out of it: back to the second it follows when going
/// back, on to the next second when going on.
pub open spec fn shifted_secs(secs: i64, nanos: u32, seconds: int) -> int {
    if nanos >= 1_000_000_000 && seconds > 0 {
        secs + 1 - seconds
    } else {
        secs - seconds
    }
}

/// The nanoseconds of the instant that lies a number of whole seconds
/// before or after an instant: those of the instant, less the thousand
/// million of a leap second that it steps out of.
pub open spec fn shifted_nanos(nanos: u32, seconds: int) -> int {
    if nanos >= 1_000_000_000 && seconds != 0 {
        nanos - 1_000_000_000
    } else {
        nanos as int
    }
}

/// An instant in UTC: whole seconds since the epoch and the nanoseconds
/// into that second. Every value is an instant of the calendar.
#[derive(Debug, Clone, Copy, PartialEq, Eq, PartialOrd, Ord, Hash)]
pub struct Timestamp {
    secs: i64,
    nanos: u32,
}

impl Timestamp {
    #[verifier::type_invariant]
    closed spec fn well_formed(self) -> bool {
        valid_instant(self.secs, self.nanos)
    }

    /// Whole seconds since the epoch.
    pub closed spec fn spec_secs(&self) -> i64 {
        self.secs
    }

    /// Nanoseconds into the second.
    pub closed spec fn spec_nanos(&self) -> u32 {
        self.nanos
    }

    /// Whether this instant is the other one or comes before it.
    pub open spec fn at_or_before(self, other: Timestamp) -> bool {
        self.lags(other, 0)
    }

    /// Whether this instant lies at least `seconds` before `now`: at the
    /// instant that many seconds before `now`, or before it.
    pub open spec fn lags(self, now: Timestamp, seconds: int) -> bool {
        let bound_secs = shifted_secs(now.spec_secs(), now.spec_nanos(), seconds);
        let bound_nanos = shifted_nanos(now.spec_nanos(), seconds);
        self.spec_secs() < bound_secs || (self.spec_secs() == bound_secs && self.spec_nanos()
            <= bound_nanos)
    }

    /// Whether this instant lies at most `seconds` before `now`, or after
    /// it: at the instant that many seconds before `now`, or after it.
    pub open spec fn within(self, now: Timestamp, seconds: int) -> bool {
        let bound_secs = shifted_secs(now.spec_secs(), now.spec_nanos(), seconds);
        let bound_nanos = shifted_nanos(now.spec_nanos(), seconds);
        self.spec_secs() > bound_secs || (self.spec_secs() == bound_secs && self.spec_nanos()
            >= bound_nanos)
    }

    /// Whether this is the instant a number of whole seconds before
    /// `other`, where the calendar holds that instant, and nothing where it
    /// does not.
    pub open spec fn is_shifted(earlier: Option<Timestamp>, other: Timestamp, seconds: int) -> bool {
        let secs = shifted_secs(other.spec_secs(), other.spec_nanos(), seconds);
        &&& earlier is Some <==> MIN_SECONDS <= secs <= MAX_SECONDS
        &&& earlier matches Some(t) ==> t.spec_secs() == secs && t.spec_nanos() == shifted_nanos(
            other.spec_nanos(),
            seconds,
        )
    }

    /// The instant with these seconds and nanoseconds, if the calendar
    /// holds it.
    pub fn new(secs: i64, nanos: u32) -> (instant: Option<Timestamp>)
        ensures
            instant is Some <==> valid_instant(secs, nanos),
            instant matches Some(t) ==> t.spec_secs() == secs && t.spec_nanos() == nanos,
    {
        if secs < MIN_SECONDS || secs > MAX_SECONDS {
            return None;
        }
        let since_first: i64 = secs - MIN_SECONDS;
        let last_of_minute = since_first % 60 == 59;
        assert(last_of_minute <==> secs as int % 60 == 59) by {
            assert(MIN_SECONDS as int == -138_910_020_480 * 60);
        }
        if nanos < 1_000_000_000 || (nanos < 2_000_000_000 && last_of_minute) {
            Some(Timestamp { secs, nanos })
        } else {
            None
        }
    }

    /// Whole seconds since the epoch.
    #[verifier::when_used_as_spec(spec_secs)]
    pub fn secs(&self) -> (secs: i64)
        ensures
            secs == self.spec_secs(),
            MIN_SECONDS <= secs <= MAX_SECONDS,
    {
        proof {
            use_type_invariant(self);
        }
        self.secs
    }

    /// Nanoseconds into the second.
    #[verifier::when_used_as_spec(spec_nanos)]
    pub fn nanos(&self) -> (nanos: u32)
        ensures
            nanos == self.spec_nanos(),
            valid_instant(self.spec_secs(), nanos),
    {
        proof {
            use_type_invariant(self);
        }
        self.nanos
    }

    /// The instant a number of whole seconds before this one, or after it
    /// for a negative number, where the calendar holds it.
    pub fn minus_seconds(&self, seconds: i64) -> (earlier: Option<Timestamp>)
        ensures
            Self::is_shifted(earlier, *self, seconds as int),
    {
        checked_minus_seconds(self, seconds)
    }

    /// Whether this instant lies at least `seconds` before `now`.
    pub fn is_at_least_before(&self, now: &Timestamp, seconds: u64) -> (settled: bool)
        ensures
            settled == self.lags(*now, seconds as int),
    {
        proof {
            use_type_invariant(self);
            use_type_invariant(now);
        }
        if seconds > 20_000_000_000_000 {
            return false;
        }
        match now.minus_seconds(seconds as i64) {
            Some(bound) => self.is_at_or_before(&bound),
            None => false,
        }
    }

    /// Whether this instant lies at most `seconds` before `now`, or after
    /// it.
    pub fn is_at_most_before(&self, now: &Timestamp, seconds: u64) -> (recent: bool)
        ensures
            recent == self.within(*now, seconds as int),
    {
        proof {
            use_type_invariant(self);
            use_type_invariant(now);
        }
        if seconds > 20_000_000_000_000 {
            return true;
        }
        match now.minus_seconds(seconds as i64) {
            Some(bound) => bound.is_at_or_before(self),
            None => true,
        }
    }

    /// The hour of a year in which the instant falls: the calendar year,
    /// the day of the year counted from 1, and the hour of the day counted
    /// from 0, all in UTC. A year before the year 0 is held as the 32 bits
    /// of its two's complement.
    pub open spec fn hour_of_year(self) -> (u32, u32, u32) {
        (
            utc_year(self.spec_secs()) as u32,
            utc_ordinal(self.spec_secs()),
            ((self.spec_secs() as int % 86_400) / 3_600) as u32,
        )
    }

    /// The hour of a year in which the instant falls.
    pub fn to_hour_of_year(&self) -> (key: (u32, u32, u32))
        ensures
            key == self.hour_of_year(),
            1 <= key.1 <= 366,
            key.2 <= 23,
    {
        proof {
            use_type_invariant(self);
        }
        let year = year_of(self);
        let day = ordinal_of(self);
        let since_first: i64 = self.secs - MIN_SECONDS;
        let hour: i64 = (since_first % 86_400) / 3_600;
        assert(since_first as int % 86_400 == self.secs as int % 86_400) by {
            assert(since_first as int == 86_400 * 96_465_292 + self.secs as int);
            vstd::arithmetic::div_mod::lemma_mod_multiples_vanish(
                96_465_292,
                self.secs as int,
                86_400,
            );
        }
        (year as u32, day, hour as u32)
    }

    /// The instant a number of whole days before this one, or after it for
    /// a negative number, where the calendar holds it.
    pub fn minus_days(&self, days: i64) -> (earlier: Option<Timestamp>)
        ensures
            Self::is_shifted(earlier, *self, days * 86_400),
    {
        proof {
            use_type_invariant(self);
        }
        if days < -200_000_000 || days > 200_000_000 {
            return None;
        }
        self.minus_seconds(days * 86_400)
    }

    /// Two instants with the same seconds and nanoseconds are the same
    /// instant.
    pub proof fn lemma_same_instant(a: Timestamp, b: Timestamp)
        requires
            a.spec_secs() == b.spec_secs(),
            a.spec_nanos() == b.spec_nanos(),
        ensures
            a == b,
    {
    }

    /// Whether this instant is the other one or comes before it.
    pub fn is_at_or_before(&self, other: &Timestamp) -> (before: bool)
        ensures
            before == self.at_or_before(*other),
    {
        self.secs < other.secs || (self.secs == other.secs && self.nanos <= other.nanos)
    }
}

/// `chrono::Utc::now`: the current instant. Nothing is known of it but
/// that the calendar holds it. `chrono` gives up where the clock of the
/// machine stands before the epoch.
#[verifier::external_body]
pub(crate) fn now() -> (instant: Timestamp) {
    let current = chrono::Utc::now();
    Timestamp { secs: current.timestamp(), nanos: current.timestamp_subsec_nanos() }
}

/// `chrono::DateTime::checked_sub_signed` with the `chrono::TimeDelta` that
/// `try_seconds` makes of the seconds: the instant that many whole seconds
/// before the given one, or `None` where the calendar does not hold it.
/// `chrono` takes an instant inside a leap second out of it before it
/// steps, as `shifted_secs` and `shifted_nanos` say.
#[verifier::external_body]
pub(crate) fn checked_minus_seconds(instant: &Timestamp, seconds: i64) -> (earlier: Option<
    Timestamp,
>)
    ensures
        Timestamp::is_shifted(earlier, *instant, seconds as int),
{
    let at = chrono::DateTime::from_timestamp(instant.secs, instant.nanos).unwrap();
    let earlier = at.checked_sub_signed(chrono::TimeDelta::try_seconds(seconds)?)?;
    Some(Timestamp { secs: earlier.timestamp(), nanos: earlier.timestamp_subsec_nanos() })
}

/// `chrono::Datelike::year` of the `chrono::DateTime` at the instant's
/// second: the calendar year, which is one of the years of the calendar.
#[verifier::external_body]
pub(crate) fn year_of(instant: &Timestamp) -> (year: i32)
    ensures
        year == utc_year(instant.spec_secs()),
        MIN_YEAR <= year <= MAX_YEAR,
{
    chrono::DateTime::from_timestamp(instant.secs, 0).unwrap().year()
}

/// `chrono::Datelike::ordinal` of the `chrono::DateTime` at the instant's
/// second: the day of the year, which `chrono` counts from 1 to 366.
#[verifier::external_body]
pub(crate) fn ordinal_of(instant: &Timestamp) -> (day: u32)
    ensures
        day == utc_ordinal(instant.spec_secs()),
        1 <= day <= 366,
{
    chrono::DateTime::from_timestamp(instant.secs, 0).unwrap().ordinal()
}

/// `chrono::NaiveDate::from_ymd_opt` for the first of January, then
/// `and_hms_opt` for one second past midnight, read in UTC: `None` exactly
/// where the year is none of the years of the calendar.
#[verifier::external_body]
pub(crate) fn start_of_year(year: i32) -> (start: Option<Timestamp>)
    ensures
        match start {
            Some(t) => utc_year_start(year) == Some(t.spec_secs()) && t.spec_nanos() == 0,
            None => utc_year_start(year) is None,
        },
        start is Some <==> MIN_YEAR <= year <= MAX_YEAR,
{
    let first = chrono::NaiveDate::from_ymd_opt(year, 1, 1)?.and_hms_opt(0, 0, 1)?;
    Some(Timestamp { secs: first.and_utc().timestamp(), nanos: 0 })
}

/// `chrono::TimeDelta::num_minutes` of the difference of two
/// `chrono::DateTime`: the whole minutes from `earlier` to `later`. Where
/// neither instant lies inside a leap second, the difference is the exact
/// one and its minutes are cut off towards zero.
#[verifier::external_body]
pub(crate) fn minutes_between(later: &Timestamp, earlier: &Timestamp) -> (minutes: i64)
    ensures
        minutes == utc_minutes_between(
            later.spec_secs(),
            later.spec_nanos(),
            earlier.spec_secs(),
            earlier.spec_nanos(),
        ),
        later.spec_nanos() < 1_000_000_000 && earlier.spec_nanos() < 1_000_000_000 ==> minutes
            == whole_minutes(
            later.spec_secs(),
            later.spec_nanos(),
            earlier.spec_secs(),
            earlier.spec_nanos(),
        ),
{
    let a = chrono::DateTime::from_timestamp(later.secs, later.nanos).unwrap();
    let b = chrono::DateTime::from_timestamp(earlier.secs, earlier.nanos).unwrap();
    (a - b).num_minutes()
}

} // verus!
