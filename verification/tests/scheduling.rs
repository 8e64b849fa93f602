use ario::clock::{utc_local_of, Date, LocalDateTime, LocalResolution, TimeOfDay, Weekday, EPOCH_DAY};
use ario::enums::QueueStatus;
use ario::finetune::FineTune;
use ario::queue::{Queue, QueueSettings, Scheduler};
use ario::schedule::{
    earliest_stop_after, effective_queue_status_at, next_stop_utc, open_window_of, schedule_decision,
    schedule_occurrence_utc, still_before_end, stop_candidates, weekly_occurrence_date, weekly_occurrence_key,
    Recurrence, ScheduleDecision,
};
use chrono::{Datelike, NaiveDate, TimeZone, Utc};

const HOUR: i128 = 3_600_000_000_000;
const DAY: i128 = 24 * HOUR;

fn date(year: i32, month: u32, day: u32) -> Date {
    Date { days: NaiveDate::from_ymd_opt(year, month, day).unwrap().num_days_from_ce() }
}

fn time(hour: u32, minute: u32) -> TimeOfDay {
    TimeOfDay { secs: hour * 3600 + minute * 60, frac: 0 }
}

fn instant(year: i32, month: u32, day: u32, hour: u32, minute: u32) -> i128 {
    Utc.with_ymd_and_hms(year, month, day, hour, minute, 0).unwrap().timestamp_nanos_opt().unwrap() as i128
}

#[test]
fn weekly_deadlines_cover_before_inside_after_and_overnight_windows() {
    let monday = instant(2030, 1, 7, 8, 0);
    let recurrence = Recurrence::Weekly { days: vec![Weekday::Mon], start_time: time(9, 0), end_time: time(17, 0) };
    let stop = monday + 9 * HOUR;
    assert_eq!(next_stop_utc(&recurrence, monday), Some(stop));
    assert_eq!(next_stop_utc(&recurrence, monday + 4 * HOUR), Some(stop));
    assert_eq!(next_stop_utc(&recurrence, stop), Some(stop + 7 * DAY));
    assert!(schedule_occurrence_utc(&recurrence, stop).is_none());
    let overnight = Recurrence::Weekly { days: vec![Weekday::Mon], start_time: time(22, 0), end_time: time(2, 0) };
    let tuesday = monday + 17 * HOUR;
    assert_eq!(next_stop_utc(&overnight, tuesday), Some(monday + 18 * HOUR));
    assert!(schedule_occurrence_utc(&overnight, monday + 18 * HOUR).is_none());
}

// A zone with daylight saving time in 2030 (UTC-5 in winter, UTC-4 in summer),
// answering as chrono's `TimeZone` would; its answers feed the verified steps.
fn dst_offset_hours(ns: i128) -> i128 {
    if ns >= instant(2030, 3, 10, 7, 0) && ns < instant(2030, 11, 3, 6, 0) {
        -4
    } else {
        -5
    }
}

fn dst_local(ns: i128) -> LocalDateTime {
    utc_local_of(ns + dst_offset_hours(ns) * HOUR)
}

fn dst_utc(l: LocalDateTime, offset_hours: i128) -> i128 {
    (l.date.days as i128 - EPOCH_DAY as i128) * DAY + l.time.secs as i128 * 1_000_000_000 + l.time.frac as i128
        - offset_hours * HOUR
}

fn dst_resolve(l: LocalDateTime) -> LocalResolution {
    let spring = date(2030, 3, 10);
    let fall = date(2030, 11, 3);
    let secs = l.time.secs;
    if l.date == spring && secs >= 2 * 3600 && secs < 3 * 3600 {
        LocalResolution::Nonexistent
    } else if l.date == fall && secs >= 3600 && secs < 2 * 3600 {
        LocalResolution::Ambiguous(dst_utc(l, -4), dst_utc(l, -5))
    } else if (l.date.days, secs) >= (spring.days, 3 * 3600) && (l.date.days, secs) < (fall.days, 3600) {
        LocalResolution::Single(dst_utc(l, -4))
    } else {
        LocalResolution::Single(dst_utc(l, -5))
    }
}

fn dst_next_stop(recurrence: &Recurrence, now: i128) -> Option<i128> {
    match recurrence {
        Recurrence::Weekly { days, start_time, end_time } => {
            let ends = stop_candidates(days, *start_time, *end_time, dst_local(now).date);
            let resolved: Vec<LocalResolution> = ends.into_iter().map(dst_resolve).collect();
            earliest_stop_after(now, &resolved)
        }
        Recurrence::Once { .. } => unreachable!(),
    }
}

fn dst_occurrence(recurrence: &Recurrence, now: i128) -> Option<String> {
    match recurrence {
        Recurrence::Weekly { days, start_time, end_time } => {
            let (day, end_local) = open_window_of(days, *start_time, *end_time, dst_local(now))?;
            if still_before_end(dst_resolve(end_local), now) {
                Some(weekly_occurrence_key(day, *start_time))
            } else {
                None
            }
        }
        Recurrence::Once { .. } => unreachable!(),
    }
}

#[test]
fn dst_skips_nonexistent_stops_and_resolves_ambiguous_stops_without_reopening_window() {
    let spring = Recurrence::Weekly { days: vec![Weekday::Sun], start_time: time(0, 0), end_time: time(2, 30) };
    let before_gap = instant(2030, 3, 10, 6, 0);
    assert_eq!(dst_next_stop(&spring, before_gap), Some(instant(2030, 3, 17, 6, 30)));
    assert!(dst_occurrence(&spring, before_gap).is_none());

    let fall = Recurrence::Weekly { days: vec![Weekday::Sun], start_time: time(0, 0), end_time: time(1, 30) };
    let first_stop = instant(2030, 11, 3, 5, 30);
    let second_stop = instant(2030, 11, 3, 6, 30);
    assert_eq!(dst_next_stop(&fall, first_stop - HOUR), Some(first_stop));
    assert_eq!(dst_next_stop(&fall, first_stop), Some(second_stop));
    assert!(dst_occurrence(&fall, second_stop - HOUR / 4).is_none());
}

fn queue(status: QueueStatus, scheduler_enabled: bool) -> Queue {
    Queue {
        scheduled_stop_at: None,
        id: 1,
        name: "test".into(),
        position: 0,
        settings: QueueSettings {
            max_concurrent_downloads: 1,
            max_retries: 3,
            retry_wait_seconds: 5,
            default_finetune: FineTune::default(),
        },
        scheduler: Scheduler {
            enabled: scheduler_enabled,
            recurrence: Recurrence::Once { start: 0, end: 0 },
            run_missed_on_startup: false,
        },
        created_at: 0,
        status,
    }
}

#[test]
fn effective_status_covers_manual_scheduled_and_idle_queues() {
    assert_eq!(effective_queue_status_at(&queue(QueueStatus::Active, false), None, None, 0), QueueStatus::Active);
    assert_eq!(
        effective_queue_status_at(&queue(QueueStatus::Paused, false), Some("open"), None, 0),
        QueueStatus::Paused
    );
    assert_eq!(
        effective_queue_status_at(&queue(QueueStatus::Paused, true), Some("open"), None, 0),
        QueueStatus::Active
    );
    assert_eq!(
        effective_queue_status_at(&queue(QueueStatus::Paused, true), Some("open"), Some("open"), 0),
        QueueStatus::Paused
    );
}

#[test]
fn passed_deadline_pauses_a_scheduled_queue_even_when_armed() {
    let mut q = queue(QueueStatus::Active, true);
    q.scheduled_stop_at = Some(10);
    assert_eq!(effective_queue_status_at(&q, Some("open"), None, 10), QueueStatus::Paused);
    assert_eq!(effective_queue_status_at(&q, Some("open"), None, 9), QueueStatus::Active);
}

#[test]
fn weekly_occurrences_are_distinct_on_later_scheduled_days() {
    let days = vec![Weekday::Mon, Weekday::Tue];
    let monday = weekly_occurrence_date(&days, time(9, 0), time(17, 0), date(2026, 9, 7), time(12, 0));
    let tuesday = weekly_occurrence_date(&days, time(9, 0), time(17, 0), date(2026, 9, 8), time(12, 0));
    assert_eq!(monday, Some(date(2026, 9, 7)));
    assert_eq!(tuesday, Some(date(2026, 9, 8)));
    assert_ne!(monday, tuesday);
}

#[test]
fn overnight_occurrence_keeps_the_scheduled_start_day() {
    let occurrence = weekly_occurrence_date(&vec![Weekday::Mon], time(22, 0), time(2, 0), date(2026, 9, 8), time(1, 0));
    assert_eq!(occurrence, Some(date(2026, 9, 7)));
}

#[test]
fn occurrence_keys_name_the_start_day_and_time() {
    assert_eq!(weekly_occurrence_key(date(2026, 9, 7), time(9, 0)), "weekly:2026-09-07:09:00:00");
}

#[test]
fn suppression_holds_for_one_occurrence_then_clears_for_the_next() {
    let monday = "weekly:2026-09-07:09:00:00";
    let tuesday = "weekly:2026-09-08:09:00:00";
    assert_eq!(
        schedule_decision(QueueStatus::Paused, Some(monday), Some(monday)),
        (ScheduleDecision::StayPaused, false)
    );
    assert_eq!(
        schedule_decision(QueueStatus::Paused, Some(monday), Some(monday)),
        (ScheduleDecision::StayPaused, false)
    );
    assert_eq!(schedule_decision(QueueStatus::Paused, Some(tuesday), Some(monday)), (ScheduleDecision::Start, true));
}

#[test]
fn manually_started_queue_keeps_running_outside_its_schedule() {
    assert_eq!(schedule_decision(QueueStatus::Active, None, None), (ScheduleDecision::Start, false));
    assert_eq!(schedule_decision(QueueStatus::Active, None, None), (ScheduleDecision::Start, false));
}

#[test]
fn manually_started_queue_keeps_running_inside_its_schedule() {
    let occurrence = "weekly:2026-09-07:09:00:00";
    assert_eq!(
        schedule_decision(QueueStatus::Active, Some(occurrence), Some(occurrence)),
        (ScheduleDecision::Start, false)
    );
}

#[test]
fn manually_paused_queue_returns_to_closed_window_control() {
    assert_eq!(schedule_decision(QueueStatus::Paused, None, None), (ScheduleDecision::CloseWindow, false));
}

#[test]
fn schedules_inside_the_calendar_are_in_range() {
    let weekly = Recurrence::Weekly { days: vec![Weekday::Mon], start_time: time(9, 0), end_time: time(17, 0) };
    let now = instant(2030, 1, 7, 8, 0);
    assert!(ario::schedule::schedule_in_range(&weekly, now));
    let leap = Recurrence::Weekly { days: vec![], start_time: TimeOfDay { secs: 0, frac: 1_500_000_000 }, end_time: time(1, 0) };
    assert!(!ario::schedule::schedule_in_range(&leap, now));
    let late_leap = Recurrence::Weekly { days: vec![], start_time: TimeOfDay { secs: 59, frac: 1_500_000_000 }, end_time: time(1, 0) };
    assert!(ario::schedule::schedule_in_range(&late_leap, now));
    assert!(!ario::schedule::schedule_in_range(&weekly, i128::MAX));
    let once = Recurrence::Once { start: now, end: i128::MIN };
    assert!(!ario::schedule::schedule_in_range(&once, now));
}
