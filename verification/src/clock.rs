//! Calendar and instant model used by the scheduler.
//!
//! An instant is a count of nanoseconds since 1970-01-01T00:00:00Z. A date is
//! the number of days from the common era (0001-01-01 is day 1), the numbering
//! chrono uses, within chrono's supported range. A time of day is seconds from
//! midnight plus a fraction that may exceed one second only inside a leap
//! second, as in chrono's `NaiveTime`.
use vstd::prelude::*;
use chrono::{Datelike, TimeZone, Timelike};

verus! {

pub const NANOS_PER_SECOND: i128 = 1_000_000_000;
pub const NANOS_PER_DAY: i128 = 86_400_000_000_000;
pub const SECONDS_PER_DAY: u32 = 86_400;
/// Day number of 1970-01-01.
pub const EPOCH_DAY: i32 = 719_163;
/// Day number of chrono's earliest date, -262143-01-01.
pub const MIN_DAY: i32 = -95_746_129;
/// Day number of chrono's latest date, 262142-12-31.
pub const MAX_DAY: i32 = 95_745_399;

#[derive(Clone, Copy, Debug, PartialEq, Eq, Structural)]
pub struct Date {
    pub days: i32,
}

#[derive(Clone, Copy, Debug, PartialEq, Eq, Structural)]
pub struct TimeOfDay {
    pub secs: u32,
    pub frac: u32,
}

#[derive(Clone, Copy, Debug, PartialEq, Eq, Structural)]
pub struct LocalDateTime {
    pub date: Date,
    pub time: TimeOfDay,
}

/// How a zone maps one local date and time to instants (chrono's
/// `LocalResult`).
#[derive(Clone, Copy, Debug, PartialEq, Eq, Structural)]
pub enum LocalResolution {
    Single(i128),
    Ambiguous(i128, i128),
    Nonexistent,
}

#[derive(Clone, Copy, Debug, PartialEq, Eq, Structural)]
pub enum Weekday {
    Mon,
    Tue,
    Wed,
    Thu,
    Fri,
    Sat,
    Sun,
}

pub open spec fn date_valid(d: Date) -> bool {
    MIN_DAY <= d.days <= MAX_DAY
}

pub open spec fn time_valid(t: TimeOfDay) -> bool {
    &&& t.secs < SECONDS_PER_DAY
    &&& t.frac < 2_000_000_000
    &&& (t.frac >= 1_000_000_000 ==> t.secs % 60 == 59)
}

pub open spec fn local_valid(l: LocalDateTime) -> bool {
    date_valid(l.date) && time_valid(l.time)
}

/// Instants that chrono can represent.
pub open spec fn instant_valid(ns: int) -> bool {
    (MIN_DAY - EPOCH_DAY) * NANOS_PER_DAY <= ns < (MAX_DAY - EPOCH_DAY + 1) * NANOS_PER_DAY
}

/// Instants whose local date in any zone is still a chrono date.
pub open spec fn instant_in_zone_range(ns: int) -> bool {
    (MIN_DAY + 2 - EPOCH_DAY) * NANOS_PER_DAY <= ns < (MAX_DAY - 1 - EPOCH_DAY) * NANOS_PER_DAY
}

pub open spec fn time_lt(a: TimeOfDay, b: TimeOfDay) -> bool {
    a.secs < b.secs || (a.secs == b.secs && a.frac < b.frac)
}

pub open spec fn time_le(a: TimeOfDay, b: TimeOfDay) -> bool {
    !time_lt(b, a)
}

pub fn time_less(a: TimeOfDay, b: TimeOfDay) -> (r: bool)
    ensures
        r == time_lt(a, b),
{
    a.secs < b.secs || (a.secs == b.secs && a.frac < b.frac)
}

pub open spec fn weekday_from_index(i: int) -> Weekday {
    if i == 0 {
        Weekday::Mon
    } else if i == 1 {
        Weekday::Tue
    } else if i == 2 {
        Weekday::Wed
    } else if i == 3 {
        Weekday::Thu
    } else if i == 4 {
        Weekday::Fri
    } else if i == 5 {
        Weekday::Sat
    } else {
        Weekday::Sun
    }
}

pub open spec fn weekday_index(w: Weekday) -> int {
    match w {
        Weekday::Mon => 0,
        Weekday::Tue => 1,
        Weekday::Wed => 2,
        Weekday::Thu => 3,
        Weekday::Fri => 4,
        Weekday::Sat => 5,
        Weekday::Sun => 6,
    }
}

/// Day 1 (0001-01-01) is a Monday.
pub open spec fn weekday_of(days: int) -> Weekday {
    weekday_from_index((days - 1) % 7)
}

/// The day before (`Weekday::pred`).
pub open spec fn weekday_before(w: Weekday) -> Weekday {
    weekday_from_index((weekday_index(w) + 6) % 7)
}

pub fn weekday_of_index(i: u32) -> (w: Weekday)
    requires
        i < 7,
    ensures
        w == weekday_from_index(i as int),
{
    if i == 0 {
        Weekday::Mon
    } else if i == 1 {
        Weekday::Tue
    } else if i == 2 {
        Weekday::Wed
    } else if i == 3 {
        Weekday::Thu
    } else if i == 4 {
        Weekday::Fri
    } else if i == 5 {
        Weekday::Sat
    } else {
        Weekday::Sun
    }
}

pub fn index_of_weekday(w: Weekday) -> (i: u32)
    ensures
        i as int == weekday_index(w),
        i < 7,
{
    match w {
        Weekday::Mon => 0,
        Weekday::Tue => 1,
        Weekday::Wed => 2,
        Weekday::Thu => 3,
        Weekday::Fri => 4,
        Weekday::Sat => 5,
        Weekday::Sun => 6,
    }
}

/// Day of the week of a date (`Datelike::weekday`).
pub fn weekday(d: Date) -> (w: Weekday)
    requires
        date_valid(d),
    ensures
        w == weekday_of(d.days as int),
{
    let shifted: u32 = (d.days as i64 - MIN_DAY as i64) as u32;
    let i: u32 = (shifted + 3) % 7;
    assert((d.days - 1) % 7 == (shifted + 3) % 7) by (nonlinear_arith)
        requires
            shifted == d.days - (-95_746_129int),
    ;
    weekday_of_index(i)
}

pub fn weekday_pred(w: Weekday) -> (r: Weekday)
    ensures
        r == weekday_before(w),
{
    let i = index_of_weekday(w);
    weekday_of_index((i + 6) % 7)
}

pub open spec fn day_after_in_range(days: int, delta: int) -> Option<Date> {
    if MIN_DAY <= days + delta <= MAX_DAY {
        Some(Date { days: (days + delta) as i32 })
    } else {
        None
    }
}

/// The date `delta` days from `d`, if chrono can represent it
/// (`NaiveDate::checked_add_signed` with a whole number of days).
#[verifier::external_body]
pub(crate) fn date_add_days(d: Date, delta: i64) -> (r: Option<Date>)
    requires
        date_valid(d),
        -1_000_000 <= delta <= 1_000_000,
    ensures
        r == day_after_in_range(d.days as int, delta as int),
{
    let date = chrono::NaiveDate::from_num_days_from_ce_opt(d.days).expect("valid date");
    match date.checked_add_signed(chrono::TimeDelta::days(delta)) {
        Some(next) => Some(Date { days: next.num_days_from_ce() }),
        None => None,
    }
}

/// Local date and time of an instant in UTC.
pub open spec fn utc_local(ns: int) -> LocalDateTime {
    let day = ns / (NANOS_PER_DAY as int);
    let within = ns % (NANOS_PER_DAY as int);
    LocalDateTime {
        date: Date { days: (day + EPOCH_DAY) as i32 },
        time: TimeOfDay {
            secs: (within / (NANOS_PER_SECOND as int)) as u32,
            frac: (within % (NANOS_PER_SECOND as int)) as u32,
        },
    }
}

/// The instant at which a local date and time falls when read as UTC.
pub open spec fn naive_instant(l: LocalDateTime) -> int {
    (l.date.days - EPOCH_DAY) * NANOS_PER_DAY + l.time.secs * NANOS_PER_SECOND + l.time.frac
}

pub fn utc_local_of(ns: i128) -> (l: LocalDateTime)
    requires
        instant_valid(ns as int),
    ensures
        l == utc_local(ns as int),
        local_valid(l),
        l.time.frac < NANOS_PER_SECOND,
{
    let base: i128 = (MIN_DAY as i128 - EPOCH_DAY as i128) * NANOS_PER_DAY;
    let shifted: i128 = ns - base;
    let day_index: i128 = shifted / NANOS_PER_DAY;
    let within: i128 = shifted % NANOS_PER_DAY;
    proof {
        assert((ns as int) / (NANOS_PER_DAY as int) == day_index + (MIN_DAY - EPOCH_DAY)) by (nonlinear_arith)
            requires
                shifted == ns - base,
                base == (MIN_DAY - EPOCH_DAY) * NANOS_PER_DAY,
                day_index == shifted / NANOS_PER_DAY,
                shifted >= 0,
        ;
        assert((ns as int) % (NANOS_PER_DAY as int) == within) by (nonlinear_arith)
            requires
                shifted == ns - base,
                base == (MIN_DAY - EPOCH_DAY) * NANOS_PER_DAY,
                within == shifted % NANOS_PER_DAY,
                shifted >= 0,
        ;
        assert(day_index < MAX_DAY - MIN_DAY + 1) by (nonlinear_arith)
            requires
                shifted < (MAX_DAY - MIN_DAY + 1) * NANOS_PER_DAY,
                day_index == shifted / NANOS_PER_DAY,
                shifted >= 0,
        ;
    }
    let days: i32 = (day_index + MIN_DAY as i128) as i32;
    let secs: u32 = (within / NANOS_PER_SECOND) as u32;
    let frac: u32 = (within % NANOS_PER_SECOND) as u32;
    LocalDateTime { date: Date { days }, time: TimeOfDay { secs, frac } }
}

/// UTC has exactly one instant for every local date and time.
pub fn utc_resolve(l: LocalDateTime) -> (r: LocalResolution)
    requires
        local_valid(l),
    ensures
        r == LocalResolution::Single(naive_instant(l) as i128),
{
    let d: i128 = l.date.days as i128 - EPOCH_DAY as i128;
    LocalResolution::Single(d * NANOS_PER_DAY + l.time.secs as i128 * NANOS_PER_SECOND
        + l.time.frac as i128)
}

/// An instant split into whole seconds since the epoch and nanoseconds
/// within that second (Euclidean division, so the nanoseconds are never
/// negative), the form chrono takes and gives.
pub open spec fn instant_of_parts(secs: int, nanos: int) -> int {
    secs * NANOS_PER_SECOND + nanos
}

pub fn split_instant(ns: i128) -> (r: (i64, u32))
    requires
        instant_valid(ns as int),
    ensures
        instant_of_parts(r.0 as int, r.1 as int) == ns,
        r.1 < NANOS_PER_SECOND,
        r.0 == (ns as int) / (NANOS_PER_SECOND as int),
        r.1 == (ns as int) % (NANOS_PER_SECOND as int),
{
    let base: i128 = (MIN_DAY as i128 - EPOCH_DAY as i128) * NANOS_PER_DAY;
    let shifted: i128 = ns - base;
    let q: i128 = shifted / NANOS_PER_SECOND;
    let rem: i128 = shifted % NANOS_PER_SECOND;
    let base_secs: i128 = (MIN_DAY as i128 - EPOCH_DAY as i128) * 86_400;
    proof {
        assert(base == base_secs * NANOS_PER_SECOND);
        assert(shifted == q * NANOS_PER_SECOND + rem) by (nonlinear_arith)
            requires
                q == shifted / NANOS_PER_SECOND,
                rem == shifted % NANOS_PER_SECOND,
                shifted >= 0,
        ;
        assert((ns as int) / (NANOS_PER_SECOND as int) == q + base_secs) by (nonlinear_arith)
            requires
                ns == shifted + base_secs * NANOS_PER_SECOND,
                shifted == q * NANOS_PER_SECOND + rem,
                0 <= rem < NANOS_PER_SECOND,
        ;
        assert((ns as int) % (NANOS_PER_SECOND as int) == rem) by (nonlinear_arith)
            requires
                ns == shifted + base_secs * NANOS_PER_SECOND,
                shifted == q * NANOS_PER_SECOND + rem,
                0 <= rem < NANOS_PER_SECOND,
        ;
        assert(q < 100_000_000_000_000) by (nonlinear_arith)
            requires
                q == shifted / NANOS_PER_SECOND,
                shifted >= 0,
                shifted < (MAX_DAY - MIN_DAY + 1) * NANOS_PER_DAY,
        ;
    }
    ((q + base_secs) as i64, rem as u32)
}

/// The local date and time of instant `ns` under some zone offset: the
/// instant shifted by a whole number of seconds less than a day either way
/// (chrono's `FixedOffset` range).
pub open spec fn zone_shifted(ns: int, l: LocalDateTime) -> bool {
    exists|off: int| -86400 < off < 86400 && naive_instant(l) == ns + #[trigger] offset_nanos(off)
}

/// A zone offset of `off` seconds, in nanoseconds.
pub open spec fn offset_nanos(off: int) -> int {
    off * NANOS_PER_SECOND
}

/// Local date and time of an instant, given as seconds and nanoseconds, in
/// the machine's time zone (`DateTime::from_timestamp` then
/// `with_timezone(&Local)`): the instant shifted by the zone's offset at
/// it, a `FixedOffset` of under a day. Which offset the machine's zone
/// gives is not claimed.
#[verifier::external_body]
fn machine_local_parts(secs: i64, nanos: u32) -> (l: LocalDateTime)
    requires
        instant_in_zone_range(instant_of_parts(secs as int, nanos as int)),
        nanos < NANOS_PER_SECOND,
    ensures
        local_valid(l),
        utc_local(instant_of_parts(secs as int, nanos as int)).date.days - 1 <= l.date.days
            <= utc_local(instant_of_parts(secs as int, nanos as int)).date.days + 1,
        zone_shifted(instant_of_parts(secs as int, nanos as int), l),
{
    let local = chrono::DateTime::from_timestamp(secs, nanos)
        .expect("instant in range")
        .with_timezone(&chrono::Local);
    LocalDateTime {
        date: Date { days: local.date_naive().num_days_from_ce() },
        time: TimeOfDay {
            secs: local.time().num_seconds_from_midnight(),
            frac: local.time().nanosecond(),
        },
    }
}

/// Local date and time of an instant in the machine's time zone.
pub fn machine_local_of(ns: i128) -> (l: LocalDateTime)
    requires
        instant_in_zone_range(ns as int),
    ensures
        local_valid(l),
        utc_local(ns as int).date.days - 1 <= l.date.days <= utc_local(ns as int).date.days + 1,
        zone_shifted(ns as int, l),
{
    let (secs, nanos) = split_instant(ns);
    machine_local_parts(secs, nanos)
}

/// How the machine's zone maps a local date and time, with each instant
/// as seconds and nanoseconds.
pub enum ZoneAnswer {
    Single(i64, u32),
    Ambiguous(i64, u32, i64, u32),
    Nonexistent,
}

pub open spec fn near(l: LocalDateTime, secs: i64, nanos: u32) -> bool {
    &&& naive_instant(l) - NANOS_PER_DAY < instant_of_parts(secs as int, nanos as int)
        < naive_instant(l) + NANOS_PER_DAY
    &&& nanos < NANOS_PER_SECOND
}

/// Instants at which a local date and time occurs in the machine's time zone
/// (`Local.from_local_datetime`). The zone is the machine's, so nothing is
/// claimed of the instants beyond their being within a day of the local time
/// read as UTC.
#[verifier::external_body]
fn machine_resolve_parts(l: LocalDateTime) -> (r: ZoneAnswer)
    requires
        local_valid(l),
        MIN_DAY + 1 <= l.date.days <= MAX_DAY - 1,
    ensures
        r matches ZoneAnswer::Single(s, n) ==> near(l, s, n),
        r matches ZoneAnswer::Ambiguous(s1, n1, s2, n2) ==> near(l, s1, n1) && near(l, s2, n2),
{
    let date = chrono::NaiveDate::from_num_days_from_ce_opt(l.date.days).expect("valid date");
    let time = chrono::NaiveTime::from_num_seconds_from_midnight_opt(l.time.secs, l.time.frac)
        .expect("valid time");
    match chrono::Local.from_local_datetime(&date.and_time(time)) {
        chrono::LocalResult::Single(a) => ZoneAnswer::Single(a.timestamp(), a.timestamp_subsec_nanos()),
        chrono::LocalResult::Ambiguous(a, b) => ZoneAnswer::Ambiguous(
            a.timestamp(),
            a.timestamp_subsec_nanos(),
            b.timestamp(),
            b.timestamp_subsec_nanos(),
        ),
        chrono::LocalResult::None => ZoneAnswer::Nonexistent,
    }
}

fn joined(secs: i64, nanos: u32) -> (r: i128)
    ensures
        r == instant_of_parts(secs as int, nanos as int),
{
    secs as i128 * NANOS_PER_SECOND + nanos as i128
}

/// An instant within a day of a local date and time read as UTC.
pub open spec fn near_local(l: LocalDateTime, a: int) -> bool {
    naive_instant(l) - NANOS_PER_DAY < a < naive_instant(l) + NANOS_PER_DAY
}

/// A reading of a local date and time whose instants are each within a
/// day of it read as UTC.
pub open spec fn resolves_near(l: LocalDateTime, r: LocalResolution) -> bool {
    match r {
        LocalResolution::Single(a) => near_local(l, a as int),
        LocalResolution::Ambiguous(a, b) => near_local(l, a as int) && near_local(l, b as int),
        LocalResolution::Nonexistent => true,
    }
}

/// Instants at which a local date and time occurs in the machine's time
/// zone, each within a day of the local time read as UTC.
pub fn machine_resolve(l: LocalDateTime) -> (r: LocalResolution)
    requires
        local_valid(l),
        MIN_DAY + 1 <= l.date.days <= MAX_DAY - 1,
    ensures
        r matches LocalResolution::Single(a) ==> naive_instant(l) - NANOS_PER_DAY < a
            < naive_instant(l) + NANOS_PER_DAY,
        r matches LocalResolution::Ambiguous(a, b) ==> naive_instant(l) - NANOS_PER_DAY < a
            < naive_instant(l) + NANOS_PER_DAY && naive_instant(l) - NANOS_PER_DAY < b
            < naive_instant(l) + NANOS_PER_DAY,
{
    match machine_resolve_parts(l) {
        ZoneAnswer::Single(s, n) => LocalResolution::Single(joined(s, n)),
        ZoneAnswer::Ambiguous(s1, n1, s2, n2) => LocalResolution::Ambiguous(joined(s1, n1), joined(s2, n2)),
        ZoneAnswer::Nonexistent => LocalResolution::Nonexistent,
    }
}

} // verus!
