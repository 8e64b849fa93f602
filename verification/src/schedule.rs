//! Schedule windows of a queue: when the current run stops, which window
//! occurrence is open, and how the stored control state and a user's pause
//! decide what the queue does.
use vstd::prelude::*;
use crate::clock::{
    Date, LocalDateTime, LocalResolution, TimeOfDay, Weekday, EPOCH_DAY, MAX_DAY, MIN_DAY,
    NANOS_PER_DAY, NANOS_PER_SECOND, date_add_days, date_valid, day_after_in_range, instant_valid, local_valid,
    machine_local_of, machine_resolve, naive_instant, resolves_near, time_le, time_less, time_lt, time_valid,
    utc_local, utc_local_of, utc_resolve, weekday, weekday_before, weekday_of, weekday_pred, zone_shifted,
};
use crate::enums::QueueStatus;

verus! {

/// When a scheduled queue may run. Once: a single window between two
/// instants. Weekly: on the listed days from `start_time` to `end_time`, local
/// time; a window whose end is earlier than its start ends the next day.
#[derive(Clone, Debug, PartialEq)]
pub enum Recurrence {
    Once { start: i128, end: i128 },
    Weekly { days: Vec<Weekday>, start_time: TimeOfDay, end_time: TimeOfDay },
}

pub open spec fn recurrence_valid(r: Recurrence) -> bool {
    match r {
        Recurrence::Once { start, end } => instant_valid(start as int) && instant_valid(end as int),
        Recurrence::Weekly { days, start_time, end_time } => time_valid(start_time) && time_valid(
            end_time,
        ),
    }
}

fn time_in_range(t: TimeOfDay) -> (b: bool)
    ensures
        b == time_valid(t),
{
    t.secs < crate::clock::SECONDS_PER_DAY && t.frac < 2_000_000_000 && (t.frac < 1_000_000_000 || t.secs % 60
        == 59)
}

fn instant_in_range(ns: i128) -> (b: bool)
    ensures
        b == instant_valid(ns as int),
{
    let low: i128 = (MIN_DAY as i128 - EPOCH_DAY as i128) * NANOS_PER_DAY;
    let high: i128 = (MAX_DAY as i128 - EPOCH_DAY as i128 + 1) * NANOS_PER_DAY;
    low <= ns && ns < high
}

/// Whether the scheduler's calendar can take this schedule at this instant:
/// its times and instants are ones chrono can hold, and `now` is far enough
/// from chrono's limits for every date the scheduler looks at.
pub fn schedule_in_range(recurrence: &Recurrence, now: i128) -> (b: bool)
    ensures
        b == (recurrence_valid(*recurrence) && instant_schedulable(now as int)),
{
    let valid = match recurrence {
        Recurrence::Once { start, end } => instant_in_range(*start) && instant_in_range(*end),
        Recurrence::Weekly { start_time, end_time, .. } => time_in_range(*start_time) && time_in_range(*end_time),
    };
    let low: i128 = (MIN_DAY as i128 + 20 - EPOCH_DAY as i128) * NANOS_PER_DAY;
    let high: i128 = (MAX_DAY as i128 - 20 - EPOCH_DAY as i128) * NANOS_PER_DAY;
    valid && low <= now && now < high
}

/// Instants far enough from chrono's limits that every date the scheduler
/// looks at, two weeks either side in any zone, is a chrono date.
pub open spec fn instant_schedulable(ns: int) -> bool {
    (MIN_DAY + 20 - EPOCH_DAY) * NANOS_PER_DAY <= ns < (MAX_DAY - 20 - EPOCH_DAY) * NANOS_PER_DAY
}

pub fn weekday_in(days: &Vec<Weekday>, w: Weekday) -> (r: bool)
    ensures
        r == days@.contains(w),
{
    let mut i: usize = 0;
    while i < days.len()
        invariant
            i <= days.len(),
            forall|k: int| 0 <= k < i ==> days@[k] != w,
        decreases days.len() - i,
    {
        if days[i] == w {
            assert(days@[i as int] == w);
            return true;
        }
        i = i + 1;
    }
    false
}

/// The start date of the weekly window open at local date `today` and local
/// time `now`, if any. A window that crosses midnight belongs to the day on
/// which it started.
pub open spec fn occurrence_date(
    days: Seq<Weekday>,
    start: TimeOfDay,
    end: TimeOfDay,
    today: Date,
    now: TimeOfDay,
) -> Option<Date> {
    let wd = weekday_of(today.days as int);
    if time_le(start, end) {
        if days.contains(wd) && time_le(start, now) && time_lt(now, end) {
            Some(today)
        } else {
            None
        }
    } else {
        if days.contains(wd) && time_le(start, now) {
            Some(today)
        } else if days.contains(weekday_before(wd)) && time_lt(now, end) {
            day_after_in_range(today.days as int, -1)
        } else {
            None
        }
    }
}

pub fn weekly_occurrence_date(
    days: &Vec<Weekday>,
    start: TimeOfDay,
    end: TimeOfDay,
    today: Date,
    time_now: TimeOfDay,
) -> (r: Option<Date>)
    requires
        date_valid(today),
    ensures
        r == occurrence_date(days@, start, end, today, time_now),
        time_le(start, end) && (time_lt(time_now, start) || !time_lt(time_now, end)) ==> r is None,
        time_le(start, end) && days@.contains(weekday_of(today.days as int)) && time_le(start, time_now)
            && time_lt(time_now, end) ==> r == Some(today),
{
    let wd = weekday(today);
    if !time_less(end, start) {
        if weekday_in(days, wd) && !time_less(time_now, start) && time_less(time_now, end) {
            Some(today)
        } else {
            None
        }
    } else {
        if weekday_in(days, wd) && !time_less(time_now, start) {
            Some(today)
        } else if weekday_in(days, weekday_pred(wd)) && time_less(time_now, end) {
            date_add_days(today, -1)
        } else {
            None
        }
    }
}

/// The local end of the weekly window that starts on `date`, if that date is
/// one of the window's days.
pub open spec fn window_end_on(
    days: Seq<Weekday>,
    start: TimeOfDay,
    end: TimeOfDay,
    date: Date,
) -> Option<LocalDateTime> {
    if !days.contains(weekday_of(date.days as int)) {
        None
    } else if time_lt(end, start) {
        match day_after_in_range(date.days as int, 1) {
            Some(next) => Some(LocalDateTime { date: next, time: end }),
            None => None,
        }
    } else {
        Some(LocalDateTime { date, time: end })
    }
}

pub open spec fn window_end_at_offset(
    days: Seq<Weekday>,
    start: TimeOfDay,
    end: TimeOfDay,
    today: Date,
    offset: int,
) -> Option<LocalDateTime> {
    match day_after_in_range(today.days as int, offset) {
        Some(date) => window_end_on(days, start, end, date),
        None => None,
    }
}

/// Local ends of the windows that start from the day before `today` through
/// `n - 2` days after it, in that order.
pub open spec fn window_ends(
    days: Seq<Weekday>,
    start: TimeOfDay,
    end: TimeOfDay,
    today: Date,
    n: nat,
) -> Seq<LocalDateTime>
    decreases n,
{
    if n == 0 {
        Seq::empty()
    } else {
        let earlier = window_ends(days, start, end, today, (n - 1) as nat);
        match window_end_at_offset(days, start, end, today, n - 2) {
            Some(l) => earlier.push(l),
            None => earlier,
        }
    }
}

/// The offsets that the scheduler searches: from yesterday to two weeks ahead.
pub open spec fn stop_search_ends(
    days: Seq<Weekday>,
    start: TimeOfDay,
    end: TimeOfDay,
    today: Date,
) -> Seq<LocalDateTime> {
    window_ends(days, start, end, today, 16)
}

pub fn window_end_for(days: &Vec<Weekday>, start: TimeOfDay, end: TimeOfDay, date: Date) -> (r:
    Option<LocalDateTime>)
    requires
        date_valid(date),
    ensures
        r == window_end_on(days@, start, end, date),
{
    if !weekday_in(days, weekday(date)) {
        None
    } else if time_less(end, start) {
        match date_add_days(date, 1) {
            Some(next) => Some(LocalDateTime { date: next, time: end }),
            None => None,
        }
    } else {
        Some(LocalDateTime { date, time: end })
    }
}

/// Local end times of every weekly window that starts between yesterday and
/// two weeks from `today`.
pub fn stop_candidates(days: &Vec<Weekday>, start: TimeOfDay, end: TimeOfDay, today: Date) -> (r:
    Vec<LocalDateTime>)
    requires
        date_valid(today),
    ensures
        r@ == stop_search_ends(days@, start, end, today),
{
    let mut out: Vec<LocalDateTime> = Vec::new();
    let mut k: i64 = 0;
    while k < 16
        invariant
            0 <= k <= 16,
            date_valid(today),
            out@ == window_ends(days@, start, end, today, k as nat),
        decreases 16 - k,
    {
        let offset: i64 = k - 1;
        match date_add_days(today, offset) {
            Some(date) => {
                match window_end_for(days, start, end, date) {
                    Some(l) => out.push(l),
                    None => {},
                }
            },
            None => {},
        }
        k = k + 1;
    }
    out
}

pub open spec fn earlier(a: Option<int>, b: Option<int>) -> Option<int> {
    match (a, b) {
        (Some(x), Some(y)) => Some(if x <= y { x } else { y }),
        (Some(x), None) => Some(x),
        (None, _) => b,
    }
}

/// The earliest instant of a resolution that lies after `now`.
pub open spec fn resolution_after(r: LocalResolution, now: int) -> Option<int> {
    match r {
        LocalResolution::Single(a) => if a > now { Some(a as int) } else { None },
        LocalResolution::Ambiguous(a, b) => earlier(
            if a > now { Some(a as int) } else { None },
            if b > now { Some(b as int) } else { None },
        ),
        LocalResolution::Nonexistent => None,
    }
}

/// The earliest instant after `now` among all resolutions.
pub open spec fn earliest_after(now: int, rs: Seq<LocalResolution>) -> Option<int>
    decreases rs.len(),
{
    if rs.len() == 0 {
        None
    } else {
        earlier(earliest_after(now, rs.drop_last()), resolution_after(rs.last(), now))
    }
}

fn earlier_of(a: Option<i128>, b: Option<i128>) -> (r: Option<i128>)
    ensures
        r == (match earlier(
            match a { Some(x) => Some(x as int), None => None },
            match b { Some(x) => Some(x as int), None => None },
        ) {
            Some(v) => Some(v as i128),
            None => None,
        }),
        r matches Some(v) ==> (a == Some(v) || b == Some(v)),
{
    match (a, b) {
        (Some(x), Some(y)) => Some(if x <= y { x } else { y }),
        (Some(x), None) => Some(x),
        (None, _) => b,
    }
}

pub open spec fn opt_int(o: Option<i128>) -> Option<int> {
    match o {
        Some(x) => Some(x as int),
        None => None,
    }
}

fn after_of(r: LocalResolution, now: i128) -> (out: Option<i128>)
    ensures
        opt_int(out) == resolution_after(r, now as int),
{
    match r {
        LocalResolution::Single(a) => if a > now { Some(a) } else { None },
        LocalResolution::Ambiguous(a, b) => earlier_of(
            if a > now { Some(a) } else { None },
            if b > now { Some(b) } else { None },
        ),
        LocalResolution::Nonexistent => None,
    }
}

/// The earliest instant after `now` that any of the resolutions gives.
pub fn earliest_stop_after(now: i128, rs: &Vec<LocalResolution>) -> (r: Option<i128>)
    ensures
        opt_int(r) == earliest_after(now as int, rs@),
{
    let mut best: Option<i128> = None;
    let mut i: usize = 0;
    while i < rs.len()
        invariant
            i <= rs.len(),
            opt_int(best) == earliest_after(now as int, rs@.take(i as int)),
        decreases rs.len() - i,
    {
        assert(rs@.take(i + 1).drop_last() =~= rs@.take(i as int));
        best = earlier_of(best, after_of(rs[i], now));
        i = i + 1;
    }
    assert(rs@.take(rs.len() as int) =~= rs@);
    best
}

pub open spec fn utc_resolutions(ls: Seq<LocalDateTime>) -> Seq<LocalResolution> {
    ls.map_values(|l: LocalDateTime| LocalResolution::Single(naive_instant(l) as i128))
}

/// When the run of a schedule that is open at `now` stops, with local time
/// read as UTC.
pub open spec fn next_stop_in_utc(r: Recurrence, now: int) -> Option<int> {
    match r {
        Recurrence::Once { start, end } => if end > now { Some(end as int) } else { None },
        Recurrence::Weekly { days, start_time, end_time } => {
            if days@.len() == 0 || start_time == end_time {
                None
            } else {
                earliest_after(
                    now,
                    utc_resolutions(stop_search_ends(days@, start_time, end_time, utc_local(now).date)),
                )
            }
        },
    }
}

fn resolve_all_utc(ls: &Vec<LocalDateTime>) -> (r: Vec<LocalResolution>)
    requires
        forall|i: int| 0 <= i < ls@.len() ==> local_valid(#[trigger] ls@[i]),
    ensures
        r@ == utc_resolutions(ls@),
{
    let mut out: Vec<LocalResolution> = Vec::new();
    let mut i: usize = 0;
    while i < ls.len()
        invariant
            i <= ls.len(),
            forall|k: int| 0 <= k < ls@.len() ==> local_valid(#[trigger] ls@[k]),
            out@ == utc_resolutions(ls@.take(i as int)),
        decreases ls.len() - i,
    {
        out.push(utc_resolve(ls[i]));
        assert(utc_resolutions(ls@.take(i + 1)) =~= utc_resolutions(ls@.take(i as int)).push(
            LocalResolution::Single(naive_instant(ls@[i as int]) as i128),
        ));
        i = i + 1;
    }
    assert(ls@.take(ls.len() as int) =~= ls@);
    out
}

proof fn lemma_window_ends_valid(
    days: Seq<Weekday>,
    start: TimeOfDay,
    end: TimeOfDay,
    today: Date,
    n: nat,
)
    requires
        time_valid(end),
    ensures
        forall|i: int|
            0 <= i < window_ends(days, start, end, today, n).len() ==> local_valid(
                #[trigger] window_ends(days, start, end, today, n)[i],
            ) && today.days - 1 <= window_ends(days, start, end, today, n)[i].date.days <= today.days
                + n,
    decreases n,
{
    if n > 0 {
        lemma_window_ends_valid(days, start, end, today, (n - 1) as nat);
        let earlier = window_ends(days, start, end, today, (n - 1) as nat);
        match window_end_at_offset(days, start, end, today, n - 2) {
            Some(l) => {
                assert(window_ends(days, start, end, today, n) == earlier.push(l));
                assert(local_valid(l) && today.days - 1 <= l.date.days <= today.days + n);
                assert forall|i: int|
                    0 <= i < earlier.push(l).len() implies local_valid(
                    #[trigger] earlier.push(l)[i],
                ) && today.days - 1 <= earlier.push(l)[i].date.days <= today.days + n by {
                    if i < earlier.len() {
                        assert(earlier.push(l)[i] == earlier[i]);
                    }
                }
            },
            None => {},
        }
    }
}

/// When the current run stops for a schedule in UTC: the end of a one-time
/// window if it is still ahead, else the earliest weekly window end after
/// `now` among the windows starting from yesterday to two weeks ahead.
pub fn next_stop_utc(recurrence: &Recurrence, now: i128) -> (r: Option<i128>)
    requires
        recurrence_valid(*recurrence),
        instant_valid(now as int),
    ensures
        opt_int(r) == next_stop_in_utc(*recurrence, now as int),
{
    match recurrence {
        Recurrence::Once { start, end } => if *end > now { Some(*end) } else { None },
        Recurrence::Weekly { days, start_time, end_time } => {
            if days.len() == 0 || *start_time == *end_time {
                return None;
            }
            let today = utc_local_of(now).date;
            let ends = stop_candidates(days, *start_time, *end_time, today);
            proof {
                lemma_window_ends_valid(days@, *start_time, *end_time, today, 16);
            }
            let resolved = resolve_all_utc(&ends);
            earliest_stop_after(now, &resolved)
        },
    }
}

fn resolve_all_machine(ls: &Vec<LocalDateTime>) -> (r: Vec<LocalResolution>)
    requires
        forall|i: int|
            0 <= i < ls@.len() ==> local_valid(#[trigger] ls@[i]) && MIN_DAY + 1 <= ls@[i].date.days
                <= MAX_DAY - 1,
    ensures
        r@.len() == ls@.len(),
        forall|i: int| 0 <= i < ls@.len() ==> resolves_near(ls@[i], #[trigger] r@[i]),
{
    let mut out: Vec<LocalResolution> = Vec::new();
    let mut i: usize = 0;
    while i < ls.len()
        invariant
            i <= ls.len(),
            out@.len() == i,
            forall|k: int|
                0 <= k < ls@.len() ==> local_valid(#[trigger] ls@[k]) && MIN_DAY + 1
                    <= ls@[k].date.days <= MAX_DAY - 1,
            forall|k: int| 0 <= k < i ==> resolves_near(ls@[k], #[trigger] out@[k]),
        decreases ls.len() - i,
    {
        let one = machine_resolve(ls[i]);
        out.push(one);
        i = i + 1;
    }
    out
}

/// A search for a weekly stop in the machine's time zone: the local date
/// of `now` there (within a day of the UTC date), and the zone's reading of
/// each candidate window end from it (each instant within a day of the end
/// read as UTC).
pub open spec fn machine_stop_search(
    days: Seq<Weekday>,
    start: TimeOfDay,
    end: TimeOfDay,
    now: int,
    today: Date,
    rs: Seq<LocalResolution>,
) -> bool {
    let ends = stop_search_ends(days, start, end, today);
    &&& date_valid(today)
    &&& utc_local(now).date.days - 1 <= today.days <= utc_local(now).date.days + 1
    &&& rs.len() == ends.len()
    &&& forall|i: int| 0 <= i < ends.len() ==> resolves_near(ends[i], #[trigger] rs[i])
}

/// When the current run stops for a schedule in the machine's time zone.
/// A one-time window is zone-free; a weekly stop is searched as in UTC but
/// through the machine zone: the earliest instant after `now` among the
/// zone's readings of the candidate window ends.
pub fn next_stop(recurrence: &Recurrence, now: i128) -> (r: Option<i128>)
    requires
        recurrence_valid(*recurrence),
        instant_schedulable(now as int),
    ensures
        recurrence is Once ==> opt_int(r) == next_stop_in_utc(*recurrence, now as int),
        recurrence matches Recurrence::Weekly { days, start_time, end_time } ==> (days@.len() == 0
            || start_time == end_time ==> r is None),
        recurrence matches Recurrence::Weekly { days, start_time, end_time } ==> (days@.len() > 0
            && start_time != end_time ==> exists|today: Date, rs: Seq<LocalResolution>|
            #[trigger] machine_stop_search(days@, *start_time, *end_time, now as int, today, rs) && opt_int(r)
                == earliest_after(now as int, rs)),
        r matches Some(t) ==> t > now,
{
    match recurrence {
        Recurrence::Once { start, end } => if *end > now { Some(*end) } else { None },
        Recurrence::Weekly { days, start_time, end_time } => {
            if days.len() == 0 || *start_time == *end_time {
                return None;
            }
            let today = machine_local_of(now).date;
            let ends = stop_candidates(days, *start_time, *end_time, today);
            proof {
                lemma_window_ends_valid(days@, *start_time, *end_time, today, 16);
            }
            let resolved = resolve_all_machine(&ends);
            let r = earliest_stop_after(now, &resolved);
            proof {
                lemma_earliest_after_is_after(now as int, resolved@);
                assert(machine_stop_search(days@, *start_time, *end_time, now as int, today, resolved@));
            }
            r
        },
    }
}

proof fn lemma_earliest_after_is_after(now: int, rs: Seq<LocalResolution>)
    ensures
        earliest_after(now, rs) matches Some(t) ==> t > now,
    decreases rs.len(),
{
    if rs.len() > 0 {
        lemma_earliest_after_is_after(now, rs.drop_last());
    }
}



/// The proleptic Gregorian year, month and day of a day counted from the
/// common era (day 1 is 0001-01-01), by whole-era arithmetic on 400-year
/// cycles counted from 0000-03-01.
pub open spec fn civil_date(days: int) -> (int, int, int) {
    let z = days - EPOCH_DAY + 719468;
    let era = z / 146097;
    let doe = z - era * 146097;
    let yoe = (doe - doe / 1460 + doe / 36524 - doe / 146096) / 365;
    let doy = doe - (365 * yoe + yoe / 4 - yoe / 100);
    let mp = (5 * doy + 2) / 153;
    let d = doy - (153 * mp + 2) / 5 + 1;
    let m = if mp < 10 { mp + 3 } else { mp - 9 };
    let y = yoe + era * 400 + (if m <= 2 { 1int } else { 0int });
    (y, m, d)
}

/// chrono's text of a year: four digits from 0 to 9999, else a sign and at
/// least four digits.
pub open spec fn year_text(y: int) -> Seq<char> {
    if 0 <= y <= 9999 {
        padded_digits(y as nat, 4)
    } else {
        let mag = if y < 0 { -y } else { y };
        (if y < 0 { "-"@ } else { "+"@ }) + (if mag < 10000 { padded_digits(mag as nat, 4) } else { crate::text::decimal(mag as nat) })
    }
}

/// chrono's text of a date (`NaiveDate`'s `Display`): year, month and day
/// joined by `-`, month and day in two digits.
pub open spec fn date_text(days: int) -> Seq<char> {
    let (y, m, d) = civil_date(days);
    year_text(y) + "-"@ + padded_digits(m as nat, 2) + "-"@ + padded_digits(d as nat, 2)
}

/// The decimal digits of `n`, the last `width` of them, zero-padded.
pub open spec fn padded_digits(n: nat, width: nat) -> Seq<char>
    decreases width,
{
    if width == 0 {
        Seq::empty()
    } else {
        padded_digits(n / 10, (width - 1) as nat).push(((48 + n % 10) as u32) as char)
    }
}

/// The fraction part of chrono's time text: nothing for whole seconds,
/// else milliseconds, microseconds or nanoseconds, whichever is exact.
pub open spec fn fraction_text(nano: nat) -> Seq<char> {
    if nano == 0 {
        Seq::empty()
    } else if nano % 1_000_000 == 0 {
        "."@ + padded_digits(nano / 1_000_000, 3)
    } else if nano % 1_000 == 0 {
        "."@ + padded_digits(nano / 1_000, 6)
    } else {
        "."@ + padded_digits(nano, 9)
    }
}

/// chrono's text of a time of day (`NaiveTime`'s `Display`): `HH:MM:SS`
/// and the fraction; inside a leap second the seconds read 60.
pub open spec fn time_text(secs: nat, frac: nat) -> Seq<char> {
    let (extra, nano) = if frac >= 1_000_000_000 {
        (1nat, (frac - 1_000_000_000) as nat)
    } else {
        (0nat, frac)
    };
    padded_digits(secs / 3600, 2) + ":"@ + padded_digits((secs % 3600) / 60, 2) + ":"@ + padded_digits(
        secs % 60 + extra,
        2,
    ) + fraction_text(nano)
}

/// chrono's RFC 3339 text of a UTC instant (`DateTime::<Utc>::to_rfc3339`):
/// the date, `T`, the time of day with its fraction, and the `+00:00`
/// offset.
pub open spec fn rfc3339_text(secs: int, nanos: int) -> Seq<char> {
    date_text(EPOCH_DAY + secs / 86400) + "T"@ + time_text((secs % 86400) as nat, nanos as nat) + "+00:00"@
}

/// Display text of a date, by chrono.
#[verifier::external_body]
fn format_date(d: Date) -> (r: String)
    requires
        date_valid(d),
    ensures
        r@ == date_text(d.days as int),
{
    chrono::NaiveDate::from_num_days_from_ce_opt(d.days).expect("valid date").to_string()
}

/// Display text of a time of day, by chrono.
#[verifier::external_body]
fn format_time(t: TimeOfDay) -> (r: String)
    requires
        time_valid(t),
    ensures
        r@ == time_text(t.secs as nat, t.frac as nat),
{
    chrono::NaiveTime::from_num_seconds_from_midnight_opt(t.secs, t.frac).expect("valid time")
        .to_string()
}

/// RFC 3339 text of an instant, by chrono.
#[verifier::external_body]
fn rfc3339_of_parts(secs: i64, nanos: u32) -> (r: String)
    requires
        instant_valid(crate::clock::instant_of_parts(secs as int, nanos as int)),
        nanos < NANOS_PER_SECOND,
    ensures
        r@ == rfc3339_text(secs as int, nanos as int),
{
    chrono::DateTime::from_timestamp(secs, nanos).expect("instant in range").to_rfc3339()
}

fn format_rfc3339(ns: i128) -> (r: String)
    requires
        instant_valid(ns as int),
    ensures
        r@ == rfc3339_text((ns as int) / (NANOS_PER_SECOND as int), (ns as int) % (NANOS_PER_SECOND as int)),
{
    let (secs, nanos) = crate::clock::split_instant(ns);
    rfc3339_of_parts(secs, nanos)
}

/// Key of the weekly occurrence that starts on `date`.
pub open spec fn weekly_key(date: Date, start: TimeOfDay) -> Seq<char> {
    "weekly:"@ + date_text(date.days as int) + ":"@ + time_text(start.secs as nat, start.frac as nat)
}

/// Key of a one-time window.
pub open spec fn once_key(start: int) -> Seq<char> {
    "once:"@ + rfc3339_text(start / (NANOS_PER_SECOND as int), start % (NANOS_PER_SECOND as int))
}

pub fn weekly_occurrence_key(date: Date, start: TimeOfDay) -> (r: String)
    requires
        date_valid(date),
        time_valid(start),
    ensures
        r@ == weekly_key(date, start),
{
    let mut key = String::from_str("weekly:");
    key.append(format_date(date).as_str());
    key.append(":");
    key.append(format_time(start).as_str());
    key
}

pub fn once_occurrence_key(start: i128) -> (r: String)
    requires
        instant_valid(start as int),
    ensures
        r@ == once_key(start as int),
{
    let mut key = String::from_str("once:");
    key.append(format_rfc3339(start).as_str());
    key
}

/// The start date and local end of the weekly window open at local `now`.
pub open spec fn open_window(
    days: Seq<Weekday>,
    start: TimeOfDay,
    end: TimeOfDay,
    now: LocalDateTime,
) -> Option<(Date, LocalDateTime)> {
    match occurrence_date(days, start, end, now.date, now.time) {
        None => None,
        Some(date) => {
            let end_date = if time_lt(end, start) {
                day_after_in_range(date.days as int, 1)
            } else {
                Some(date)
            };
            match end_date {
                None => None,
                Some(ed) => Some((date, LocalDateTime { date: ed, time: end })),
            }
        },
    }
}

pub fn open_window_of(days: &Vec<Weekday>, start: TimeOfDay, end: TimeOfDay, now: LocalDateTime) -> (r:
    Option<(Date, LocalDateTime)>)
    requires
        date_valid(now.date),
    ensures
        r == open_window(days@, start, end, now),
        r matches Some((d, l)) ==> date_valid(d) && date_valid(l.date) && now.date.days - 1
            <= d.days <= now.date.days && d.days <= l.date.days <= d.days + 1 && l.time == end,
{
    match weekly_occurrence_date(days, start, end, now.date, now.time) {
        None => None,
        Some(date) => {
            let end_date = if time_less(end, start) {
                date_add_days(date, 1)
            } else {
                Some(date)
            };
            match end_date {
                None => None,
                Some(ed) => Some((date, LocalDateTime { date: ed, time: end })),
            }
        },
    }
}

/// Whether `now` is before the end of a window whose local end resolved to
/// `r`; of two instants the earlier ends the window, and a local end that
/// does not exist closes it.
pub open spec fn before_end(r: LocalResolution, now: int) -> bool {
    match r {
        LocalResolution::Single(e) => now < e,
        LocalResolution::Ambiguous(a, b) => now < a && now < b,
        LocalResolution::Nonexistent => false,
    }
}

pub fn still_before_end(r: LocalResolution, now: i128) -> (b: bool)
    ensures
        b == before_end(r, now as int),
{
    match r {
        LocalResolution::Single(e) => now < e,
        LocalResolution::Ambiguous(a, b) => now < a && now < b,
        LocalResolution::Nonexistent => false,
    }
}

/// The open occurrence of a schedule at `now`, with local time read as UTC.
/// Stops are exclusive: at the end instant the window is closed.
pub open spec fn occurrence_in_utc(r: Recurrence, now: int) -> Option<Seq<char>> {
    match r {
        Recurrence::Once { start, end } => if start <= now && now < end {
            Some(once_key(start as int))
        } else {
            None
        },
        Recurrence::Weekly { days, start_time, end_time } => match open_window(
            days@,
            start_time,
            end_time,
            utc_local(now),
        ) {
            None => None,
            Some((date, end_local)) => if now < naive_instant(end_local) {
                Some(weekly_key(date, start_time))
            } else {
                None
            },
        },
    }
}

pub open spec fn opt_text(o: Option<String>) -> Option<Seq<char>> {
    match o {
        Some(s) => Some(s@),
        None => None,
    }
}

/// The open occurrence of a schedule in UTC.
pub fn schedule_occurrence_utc(recurrence: &Recurrence, now: i128) -> (r: Option<String>)
    requires
        recurrence_valid(*recurrence),
        instant_schedulable(now as int),
    ensures
        opt_text(r) == occurrence_in_utc(*recurrence, now as int),
{
    match recurrence {
        Recurrence::Once { start, end } => {
            if *start <= now && now < *end {
                Some(once_occurrence_key(*start))
            } else {
                None
            }
        },
        Recurrence::Weekly { days, start_time, end_time } => {
            let local = utc_local_of(now);
            match open_window_of(days, *start_time, *end_time, local) {
                None => None,
                Some((date, end_local)) => {
                    if still_before_end(utc_resolve(end_local), now) {
                        Some(weekly_occurrence_key(date, *start_time))
                    } else {
                        None
                    }
                },
            }
        },
    }
}

/// The open occurrence of a schedule in the machine's time zone. A one-time
/// window is zone-free; a weekly occurrence is keyed by the local start date
/// of the window and its start time.
/// A reading of `now` in the machine's zone for a weekly schedule: the
/// local date and time (the instant shifted by an offset under a day), and
/// the zone's reading of the end of the window open then, if one is.
pub open spec fn weekly_reading(
    days: Seq<Weekday>,
    start: TimeOfDay,
    end: TimeOfDay,
    now: int,
    local: LocalDateTime,
    end_reading: LocalResolution,
) -> bool {
    &&& local_valid(local)
    &&& zone_shifted(now, local)
    &&& utc_local(now).date.days - 1 <= local.date.days <= utc_local(now).date.days + 1
    &&& open_window(days, start, end, local) matches Some((_, end_local)) ==> resolves_near(end_local, end_reading)
}

/// The weekly occurrence open at `now` under such a reading: the window
/// open at the local time, keyed by its start, while its end (as the zone
/// reads it) is still ahead.
pub open spec fn weekly_occurrence_at(
    days: Seq<Weekday>,
    start: TimeOfDay,
    end: TimeOfDay,
    now: int,
    local: LocalDateTime,
    end_reading: LocalResolution,
) -> Option<Seq<char>> {
    match open_window(days, start, end, local) {
        None => None,
        Some((date, _)) => if before_end(end_reading, now) {
            Some(weekly_key(date, start))
        } else {
            None
        },
    }
}

pub fn current_schedule_occurrence(recurrence: &Recurrence, now: i128) -> (r: Option<String>)
    requires
        recurrence_valid(*recurrence),
        instant_schedulable(now as int),
    ensures
        recurrence is Once ==> opt_text(r) == occurrence_in_utc(*recurrence, now as int),
        recurrence matches Recurrence::Weekly { days, start_time, end_time } ==> (r matches Some(k)
            ==> exists|d: Date| #[trigger] weekly_key(d, *start_time) == k@),
        recurrence matches Recurrence::Weekly { days, start_time, end_time } ==> exists|
            local: LocalDateTime,
            end_reading: LocalResolution,
        |
            #[trigger] weekly_reading(days@, *start_time, *end_time, now as int, local, end_reading) && opt_text(r)
                == weekly_occurrence_at(days@, *start_time, *end_time, now as int, local, end_reading),
{
    match recurrence {
        Recurrence::Once { start, end } => {
            if *start <= now && now < *end {
                Some(once_occurrence_key(*start))
            } else {
                None
            }
        },
        Recurrence::Weekly { days, start_time, end_time } => {
            let local = machine_local_of(now);
            match open_window_of(days, *start_time, *end_time, local) {
                None => {
                    assert(weekly_reading(
                        days@,
                        *start_time,
                        *end_time,
                        now as int,
                        local,
                        LocalResolution::Nonexistent,
                    ));
                    None
                },
                Some((date, end_local)) => {
                    let reading = machine_resolve(end_local);
                    assert(weekly_reading(days@, *start_time, *end_time, now as int, local, reading));
                    if still_before_end(reading, now) {
                        let key = weekly_occurrence_key(date, *start_time);
                        assert(weekly_key(date, *start_time) == key@);
                        Some(key)
                    } else {
                        None
                    }
                },
            }
        },
    }
}

/// What a paused or running queue does for the current schedule state.
#[derive(Clone, Copy, Debug, PartialEq, Eq, Structural)]
pub enum ScheduleDecision {
    Start,
    StayPaused,
    CloseWindow,
}

pub open spec fn opt_str_text(o: Option<&str>) -> Option<Seq<char>> {
    match o {
        Some(s) => Some(s@),
        None => None,
    }
}

/// The decision for a queue and whether its stored suppression is cleared.
/// A queue armed by Start runs regardless of its schedule. Otherwise an open
/// occurrence that the user paused stays paused, a new open occurrence starts
/// the queue and ends the earlier suppression, and no open occurrence closes
/// the window.
pub open spec fn decide(status: QueueStatus, occurrence: Option<Seq<char>>, suppressed: Option<
    Seq<char>,
>) -> (ScheduleDecision, bool) {
    if status == QueueStatus::Active {
        (ScheduleDecision::Start, false)
    } else {
        match occurrence {
            Some(current) => if suppressed == Some(current) {
                (ScheduleDecision::StayPaused, false)
            } else {
                (ScheduleDecision::Start, true)
            },
            None => (ScheduleDecision::CloseWindow, false),
        }
    }
}

pub fn schedule_decision(status: QueueStatus, occurrence: Option<&str>, suppressed: Option<&str>) -> (r:
    (ScheduleDecision, bool))
    ensures
        r == decide(status, opt_str_text(occurrence), opt_str_text(suppressed)),
{
    if status == QueueStatus::Active {
        return (ScheduleDecision::Start, false);
    }
    match occurrence {
        Some(current) => {
            let same = match suppressed {
                Some(s) => crate::enums::same_text(s, current),
                None => false,
            };
            if same {
                (ScheduleDecision::StayPaused, false)
            } else {
                (ScheduleDecision::Start, true)
            }
        },
        None => (ScheduleDecision::CloseWindow, false),
    }
}

/// The state a queue is shown in. A scheduled queue whose run deadline has
/// passed is paused whatever else holds; a queue armed by Start runs; an
/// unscheduled queue is otherwise paused; a scheduled queue runs during an
/// open occurrence the user has not paused.
pub open spec fn effective_status(
    queue: crate::queue::Queue,
    occurrence: Option<Seq<char>>,
    suppressed: Option<Seq<char>>,
    now: int,
) -> QueueStatus {
    if queue.scheduler.enabled && (queue.scheduled_stop_at matches Some(stop) && now >= stop) {
        QueueStatus::Paused
    } else if queue.status == QueueStatus::Active {
        QueueStatus::Active
    } else if !queue.scheduler.enabled {
        QueueStatus::Paused
    } else {
        match occurrence {
            None => QueueStatus::Paused,
            Some(o) => if suppressed == Some(o) {
                QueueStatus::Paused
            } else {
                QueueStatus::Active
            },
        }
    }
}

pub fn effective_queue_status_at(
    queue: &crate::queue::Queue,
    occurrence: Option<&str>,
    suppressed: Option<&str>,
    now: i128,
) -> (r: QueueStatus)
    ensures
        r == effective_status(*queue, opt_str_text(occurrence), opt_str_text(suppressed), now as int),
{
    if queue.scheduler.enabled && match queue.scheduled_stop_at {
        Some(stop) => now >= stop,
        None => false,
    } {
        return QueueStatus::Paused;
    }
    if queue.status == QueueStatus::Active {
        return QueueStatus::Active;
    }
    if !queue.scheduler.enabled {
        return QueueStatus::Paused;
    }
    match occurrence {
        None => QueueStatus::Paused,
        Some(o) => {
            let same = match suppressed {
                Some(s) => crate::enums::same_text(s, o),
                None => false,
            };
            if same {
                QueueStatus::Paused
            } else {
                QueueStatus::Active
            }
        },
    }
}

/// Stops are exclusive: no weekly window is open at exactly its end time.
pub proof fn law_window_closed_at_its_end(
    days: Seq<Weekday>,
    start: TimeOfDay,
    end: TimeOfDay,
    today: Date,
)
    ensures
        occurrence_date(days, start, end, today, end) is None,
{
}

/// A window that crosses midnight belongs to the day it started: after
/// midnight and before its end, the occurrence is yesterday's when only
/// yesterday is scheduled.
pub proof fn law_overnight_window_keeps_start_day(
    days: Seq<Weekday>,
    start: TimeOfDay,
    end: TimeOfDay,
    today: Date,
    now: TimeOfDay,
)
    requires
        time_lt(end, start),
        time_lt(now, end),
        days.contains(weekday_before(weekday_of(today.days as int))),
        MIN_DAY < today.days <= MAX_DAY,
    ensures
        occurrence_date(days, start, end, today, now) == Some(Date { days: (today.days - 1) as i32 }),
{
}

/// An open weekly occurrence is dated on one of the schedule's days.
pub proof fn law_occurrence_on_scheduled_day(
    days: Seq<Weekday>,
    start: TimeOfDay,
    end: TimeOfDay,
    today: Date,
    now: TimeOfDay,
)
    requires
        date_valid(today),
        occurrence_date(days, start, end, today, now) is Some,
    ensures
        days.contains(
            weekday_of(occurrence_date(days, start, end, today, now).unwrap().days as int),
        ),
{
    let wd = weekday_of(today.days as int);
    if occurrence_date(days, start, end, today, now).unwrap() != today {
        assert(weekday_of(today.days - 1) == weekday_before(wd)) by {
            assert((today.days - 1 - 1) % 7 == ((today.days - 1) % 7 + 6) % 7);
        }
    }
}

/// The stop found for a UTC schedule lies after `now` and no searched window
/// end after `now` is earlier.
pub proof fn law_next_stop_is_earliest_future_end(r: Recurrence, now: int, i: int)
    requires
        r is Weekly,
        0 <= i < stop_search_ends(r->days@, r->start_time, r->end_time, utc_local(now).date).len(),
        naive_instant(
            stop_search_ends(r->days@, r->start_time, r->end_time, utc_local(now).date)[i],
        ) > now,
        r->days@.len() > 0,
        r->start_time != r->end_time,
    ensures
        next_stop_in_utc(r, now) matches Some(t) && t > now && t <= naive_instant(
            stop_search_ends(r->days@, r->start_time, r->end_time, utc_local(now).date)[i],
        ),
{
    let ends = stop_search_ends(r->days@, r->start_time, r->end_time, utc_local(now).date);
    lemma_earliest_after_bounds(now, utc_resolutions(ends), i);
    lemma_earliest_after_is_after(now, utc_resolutions(ends));
}

proof fn lemma_earliest_after_bounds(now: int, rs: Seq<LocalResolution>, i: int)
    requires
        0 <= i < rs.len(),
        rs[i] matches LocalResolution::Single(a) && a > now,
    ensures
        earliest_after(now, rs) matches Some(t) && t <= rs[i]->Single_0,
    decreases rs.len(),
{
    if i < rs.len() - 1 {
        lemma_earliest_after_bounds(now, rs.drop_last(), i);
    }
}

/// A queue whose scheduled run deadline has passed is shown paused, even if
/// Start armed it or its window is open.
pub proof fn law_expired_deadline_wins(
    queue: crate::queue::Queue,
    occurrence: Option<Seq<char>>,
    suppressed: Option<Seq<char>>,
    now: int,
)
    requires
        queue.scheduler.enabled,
        queue.scheduled_stop_at matches Some(stop) && now >= stop,
    ensures
        effective_status(queue, occurrence, suppressed, now) == QueueStatus::Paused,
{
}

/// A pause suppresses exactly one occurrence: while the same occurrence is
/// open the paused queue stays paused without touching the suppression; the
/// next occurrence starts it and clears the suppression, after which that
/// occurrence keeps it running.
pub proof fn law_suppression_holds_for_one_occurrence(current: Seq<char>, next: Seq<char>)
    requires
        current != next,
    ensures
        decide(QueueStatus::Paused, Some(current), Some(current)) == (
            ScheduleDecision::StayPaused,
            false,
        ),
        decide(QueueStatus::Paused, Some(next), Some(current)) == (ScheduleDecision::Start, true),
        decide(QueueStatus::Paused, Some(next), None) == (ScheduleDecision::Start, true),
        decide(QueueStatus::Active, Some(current), Some(current)).0 == ScheduleDecision::Start,
        decide(QueueStatus::Paused, None, Some(current)).0 == ScheduleDecision::CloseWindow,
{
}

/// A weekly window that does not cross midnight is open exactly from its
/// start (inclusive) to its end (exclusive) on its days: before the start
/// or from the end on, no occurrence is open; inside it, the occurrence is
/// today's. A window that crosses midnight belongs to today (from the start
/// on) or to yesterday (before the end), always on one of its days.
pub proof fn law_window_open_only_inside(
    days: Seq<Weekday>,
    start: TimeOfDay,
    end: TimeOfDay,
    today: Date,
    now: TimeOfDay,
)
    ensures
        time_le(start, end) && (time_lt(now, start) || !time_lt(now, end)) ==> occurrence_date(
            days,
            start,
            end,
            today,
            now,
        ) is None,
        time_le(start, end) && days.contains(weekday_of(today.days as int)) && time_le(start, now) && time_lt(
            now,
            end,
        ) ==> occurrence_date(days, start, end, today, now) == Some(today),
        occurrence_date(days, start, end, today, now) matches Some(d) ==> (d == today && days.contains(
            weekday_of(today.days as int),
        ) && time_le(start, now)) || (d.days == today.days - 1 && time_lt(end, start) && time_lt(now, end)
            && days.contains(weekday_before(weekday_of(today.days as int)))),
{
    if let Some(d) = occurrence_date(days, start, end, today, now) {
        if !(d == today) {
            assert(day_after_in_range(today.days as int, -1) == Some(d));
        }
    }
}

} // verus!
