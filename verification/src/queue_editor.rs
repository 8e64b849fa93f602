//! The queue editor of the terminal client: its tabs, fields and cursors,
//! and the request a save sends. Everything is staged in the editor and
//! only sent on save; cancelling drops it.
use vstd::prelude::*;
use crate::clock::{
    Date, LocalDateTime, LocalResolution, TimeOfDay, Weekday, MAX_DAY, MIN_DAY, NANOS_PER_SECOND,
    date_add_days, date_valid, day_after_in_range, instant_in_zone_range, local_valid, machine_local_of, near_local, utc_local, zone_shifted,
    machine_resolve, time_valid, weekday_from_index, weekday_of_index,
};
use crate::schedule::Recurrence;
use crate::queue::{Queue, CreateQueueRequest, UpdateQueueRequest, DEFAULT_RETRY_WAIT_SECONDS};
use crate::download::Download;
use crate::finetune::FineTune;
use crate::panes::{adjust_finetune_field, adjusted_field};
use crate::textops::{trimmed, trim_text};
use crate::text::{push_char, push_str};

verus! {

#[derive(Clone, Copy, Debug, PartialEq, Eq, Structural)]
pub enum QueueModalTab {
    Common,
    Scheduler,
    DownloadItems,
}

#[derive(Clone, Copy, Debug, PartialEq, Eq, Structural)]
pub enum QueueModalMode {
    Create,
    Edit { queue_id: i64 },
}

#[derive(Clone, Copy, Debug, PartialEq, Eq, Structural)]
pub enum RecurrenceKind {
    Once,
    Weekly,
}

/// Tabs cycle Common, Scheduler, then Download Items when editing an
/// existing queue (a new queue has no items yet).
pub open spec fn tab_after(t: QueueModalTab, mode: QueueModalMode) -> QueueModalTab {
    match t {
        QueueModalTab::Common => QueueModalTab::Scheduler,
        QueueModalTab::Scheduler => if mode is Edit {
            QueueModalTab::DownloadItems
        } else {
            QueueModalTab::Common
        },
        QueueModalTab::DownloadItems => QueueModalTab::Common,
    }
}

pub open spec fn tab_before(t: QueueModalTab, mode: QueueModalMode) -> QueueModalTab {
    match t {
        QueueModalTab::Common => if mode is Edit {
            QueueModalTab::DownloadItems
        } else {
            QueueModalTab::Scheduler
        },
        QueueModalTab::Scheduler => QueueModalTab::Common,
        QueueModalTab::DownloadItems => QueueModalTab::Scheduler,
    }
}

impl QueueModalTab {
    pub fn next(self, mode: QueueModalMode) -> (r: Self)
        ensures
            r == tab_after(self, mode),
    {
        match self {
            QueueModalTab::Common => QueueModalTab::Scheduler,
            QueueModalTab::Scheduler => match mode {
                QueueModalMode::Edit { .. } => QueueModalTab::DownloadItems,
                QueueModalMode::Create => QueueModalTab::Common,
            },
            QueueModalTab::DownloadItems => QueueModalTab::Common,
        }
    }

    pub fn prev(self, mode: QueueModalMode) -> (r: Self)
        ensures
            r == tab_before(self, mode),
    {
        match self {
            QueueModalTab::Common => match mode {
                QueueModalMode::Edit { .. } => QueueModalTab::DownloadItems,
                QueueModalMode::Create => QueueModalTab::Scheduler,
            },
            QueueModalTab::Scheduler => QueueModalTab::Common,
            QueueModalTab::DownloadItems => QueueModalTab::Scheduler,
        }
    }
}

/// Going to the next tab and back again returns to the same tab, in both
/// modes.
pub proof fn law_tab_prev_undoes_next(t: QueueModalTab, mode: QueueModalMode)
    requires
        mode is Create ==> t != QueueModalTab::DownloadItems,
    ensures
        tab_before(tab_after(t, mode), mode) == t,
        tab_after(tab_before(t, mode), mode) == t,
{
}

/// Minutes one press moves a time field.
pub const TIME_STEP_MIN: i64 = 5;

/// A time of day moved by whole seconds, wrapping around midnight, as
/// `NaiveTime + TimeDelta` does; a leap second is left first.
pub open spec fn shifted_time(t: TimeOfDay, delta: int) -> TimeOfDay {
    if t.frac >= 1_000_000_000 {
        if delta > 0 {
            TimeOfDay { secs: ((t.secs + delta) % 86400) as u32, frac: (t.frac - 1_000_000_000) as u32 }
        } else if delta < 0 {
            TimeOfDay { secs: ((t.secs + 1 + delta) % 86400) as u32, frac: (t.frac - 1_000_000_000) as u32 }
        } else {
            t
        }
    } else {
        TimeOfDay { secs: ((t.secs + delta) % 86400) as u32, frac: t.frac }
    }
}

/// `NaiveTime + TimeDelta::minutes(minutes)` in chrono: whole seconds are
/// added modulo a day; from inside a leap second the fraction first drops
/// by one second (and a backward step starts from the following second).
#[verifier::external_body]
fn add_minutes(t: TimeOfDay, minutes: i64) -> (r: TimeOfDay)
    requires
        time_valid(t),
        -1440 <= minutes <= 1440,
    ensures
        r == shifted_time(t, minutes * 60),
{
    let time = chrono::NaiveTime::from_num_seconds_from_midnight_opt(t.secs, t.frac).expect("valid time");
    let next = time + chrono::TimeDelta::minutes(minutes);
    TimeOfDay {
        secs: chrono::Timelike::num_seconds_from_midnight(&next),
        frac: chrono::Timelike::nanosecond(&next),
    }
}

pub fn adjust_time(time: TimeOfDay, forward: bool) -> (r: TimeOfDay)
    requires
        time_valid(time),
    ensures
        r == shifted_time(time, if forward { 300 } else { -300 }),
{
    add_minutes(time, if forward { TIME_STEP_MIN } else { -TIME_STEP_MIN })
}

/// The next or previous day; at chrono's range limits the date stays.
pub fn adjust_date(date: Date, forward: bool) -> (r: Date)
    requires
        date_valid(date),
    ensures
        r == (match day_after_in_range(date.days as int, if forward { 1 } else { -1 }) {
            Some(d) => d,
            None => date,
        }),
{
    match date_add_days(date, if forward { 1 } else { -1 }) {
        Some(d) => d,
        None => date,
    }
}

/// A count stepped by one within `min..=max`.
pub open spec fn bounded_step(current: u32, forward: bool, min: u32, max: u32) -> u32 {
    if forward {
        if current + 1 < max { (current + 1) as u32 } else { max }
    } else {
        let down: int = if current > 0 { current - 1 } else { 0 };
        if down > min { down as u32 } else { min }
    }
}

pub fn adjust_u32_bounded(current: u32, forward: bool, min: u32, max: u32) -> (r: u32)
    requires
        forward ==> current < u32::MAX,
    ensures
        r == bounded_step(current, forward, min, max),
{
    if forward {
        let up = current + 1;
        if up < max { up } else { max }
    } else {
        let down = current.saturating_sub(1);
        if down > min { down } else { min }
    }
}

/// The queue editor.
#[derive(Clone, Debug)]
pub struct QueueModal {
    pub mode: QueueModalMode,
    pub tab: QueueModalTab,
    pub name: String,
    pub max_concurrent_downloads: u32,
    pub max_retries: u32,
    /// Not shown in the editor; kept as the queue has it.
    pub retry_wait_seconds: u32,
    pub finetune: FineTune,
    /// 0 = name, 1 = max concurrent downloads, 2 = max retries, 3..6 =
    /// tuning fields.
    pub common_cursor: usize,
    pub scheduler_enabled: bool,
    pub recurrence_kind: RecurrenceKind,
    /// Monday first.
    pub weekly_days: [bool; 7],
    pub weekly_start: TimeOfDay,
    pub weekly_end: TimeOfDay,
    /// One-time windows are edited as local dates and times.
    pub once_start_date: Date,
    pub once_start_time: TimeOfDay,
    pub once_end_date: Date,
    pub once_end_time: TimeOfDay,
    pub run_missed_on_startup: bool,
    /// Highlighted day in the days row.
    pub day_cursor: usize,
    /// 0 = enabled, 1 = kind, then Weekly: 2 days, 3 start, 4 end, 5 run
    /// missed; Once: 2 start date, 3 start time, 4 end date, 5 end time,
    /// 6 run missed.
    pub scheduler_cursor: usize,
    pub editing_text: bool,
    pub text_buffer: String,
    pub items: Vec<Download>,
    pub item_cursor: usize,
    pub error: Option<String>,
}

/// The editor's fields stay meaningful: times and dates are chrono values
/// and the cursors point inside their rows.
pub open spec fn modal_wf(m: QueueModal) -> bool {
    &&& time_valid(m.weekly_start) && time_valid(m.weekly_end)
    &&& time_valid(m.once_start_time) && time_valid(m.once_end_time)
    &&& date_valid(m.once_start_date) && date_valid(m.once_end_date)
    &&& m.day_cursor < 7
    &&& m.common_cursor <= 6
    &&& m.scheduler_cursor <= 6
    &&& m.item_cursor < usize::MAX
}

/// A default one-time window: local start and end dates and times.
#[derive(Clone, Copy, Debug, PartialEq, Eq, Structural)]
pub struct OnceWindow {
    pub start_date: Date,
    pub start_time: TimeOfDay,
    pub end_date: Date,
    pub end_time: TimeOfDay,
}

pub open spec fn window_wf(w: OnceWindow) -> bool {
    &&& time_valid(w.start_time) && time_valid(w.end_time)
    &&& MIN_DAY + 1 <= w.start_date.days <= MAX_DAY - 1
    &&& MIN_DAY + 1 <= w.end_date.days <= MAX_DAY - 1
}

/// Minutes from a local time to the next five-minute mark (none when the
/// time is on a mark to the second).
pub open spec fn minutes_to_step(t: TimeOfDay) -> int {
    let rem = ((t.secs as int / 60) % 60) % (TIME_STEP_MIN as int);
    if rem == 0 && t.secs % 60 == 0 {
        0
    } else {
        TIME_STEP_MIN - rem
    }
}

/// The one-time window that starts at the given local time, cut to the
/// minute, and lasts four hours.
pub open spec fn window_at(start: LocalDateTime) -> OnceWindow {
    let start_secs = start.time.secs / 60 * 60;
    let end_secs = start_secs + 4 * 3600;
    OnceWindow {
        start_date: start.date,
        start_time: TimeOfDay { secs: start_secs as u32, frac: 0 },
        end_date: if end_secs < 86400 { start.date } else { Date { days: (start.date.days + 1) as i32 } },
        end_time: TimeOfDay { secs: (end_secs % 86400) as u32, frac: 0 },
    }
}

pub fn minutes_to_next_step(t: TimeOfDay) -> (r: i64)
    requires
        time_valid(t),
    ensures
        r == minutes_to_step(t),
        0 <= r <= TIME_STEP_MIN,
{
    let rem = ((t.secs / 60) % 60) as i64 % TIME_STEP_MIN;
    if rem == 0 && t.secs % 60 == 0 {
        0
    } else {
        TIME_STEP_MIN - rem
    }
}

pub fn window_starting_at(start: LocalDateTime) -> (r: OnceWindow)
    requires
        time_valid(start.time),
        MIN_DAY + 1 <= start.date.days <= MAX_DAY - 2,
    ensures
        r == window_at(start),
        window_wf(r),
{
    let start_secs = start.time.secs / 60 * 60;
    let end_secs = start_secs + 4 * 3600;
    let end_date = if end_secs < 86400 { start.date } else { Date { days: start.date.days + 1 } };
    OnceWindow {
        start_date: start.date,
        start_time: TimeOfDay { secs: start_secs, frac: 0 },
        end_date,
        end_time: TimeOfDay { secs: end_secs % 86400, frac: 0 },
    }
}

/// The one-time window a new editor offers: from the next five-minute mark
/// after `now`, read in the machine's local time, for four hours.
pub fn default_once_window(now: i128) -> (r: OnceWindow)
    requires
        (MIN_DAY + 3 - crate::clock::EPOCH_DAY) * crate::clock::NANOS_PER_DAY <= now < (MAX_DAY - 4
            - crate::clock::EPOCH_DAY) * crate::clock::NANOS_PER_DAY,
    ensures
        window_wf(r),
        exists|start: LocalDateTime| local_valid(start) && r == #[trigger] window_at(start),
{
    let local = machine_local_of(now);
    let minutes = minutes_to_next_step(local.time);
    let start = machine_local_of(now + minutes as i128 * 60 * NANOS_PER_SECOND);
    let r = window_starting_at(start);
    assert(local_valid(start) && r == window_at(start));
    r
}

pub open spec fn two_am() -> TimeOfDay {
    TimeOfDay { secs: 7200, frac: 0 }
}

pub open spec fn six_am() -> TimeOfDay {
    TimeOfDay { secs: 21600, frac: 0 }
}

/// Enter on the name field starts editing a copy of the name; elsewhere
/// nothing happens.
pub open spec fn text_edit_started(m: QueueModal) -> QueueModal {
    if m.tab == QueueModalTab::Common && m.common_cursor == 0 {
        QueueModal { text_buffer: m.name, editing_text: true, ..m }
    } else {
        m
    }
}

/// A typed character is added to the text being edited.
pub open spec fn typed(m: QueueModal, n: QueueModal, c: char) -> bool {
    &&& m.editing_text ==> n.text_buffer@ == m.text_buffer@.push(c) && n == (QueueModal {
        text_buffer: n.text_buffer,
        ..m
    })
    &&& !m.editing_text ==> n == m
}

/// Backspace removes the last character of the text being edited.
pub open spec fn erased(m: QueueModal, n: QueueModal) -> bool {
    &&& m.editing_text ==> n.text_buffer@ == (if m.text_buffer@.len() > 0 {
        m.text_buffer@.drop_last()
    } else {
        m.text_buffer@
    }) && n == (QueueModal { text_buffer: n.text_buffer, ..m })
    &&& !m.editing_text ==> n == m
}

/// Enter while editing keeps the text as the name.
pub open spec fn text_edit_confirmed(m: QueueModal) -> QueueModal {
    if !m.editing_text {
        m
    } else if m.tab == QueueModalTab::Common && m.common_cursor == 0 {
        QueueModal { name: m.text_buffer, editing_text: false, ..m }
    } else {
        QueueModal { editing_text: false, ..m }
    }
}

/// Down moves the cursor of the shown tab, stopping at its last row.
pub open spec fn moved_down(m: QueueModal) -> QueueModal {
    match m.tab {
        QueueModalTab::Common => QueueModal {
            common_cursor: if m.common_cursor < 6 { (m.common_cursor + 1) as usize } else { 6 },
            ..m
        },
        QueueModalTab::Scheduler => {
            let max: int = if m.recurrence_kind == RecurrenceKind::Weekly { 5 } else { 6 };
            QueueModal {
                scheduler_cursor: if m.scheduler_cursor + 1 < max { (m.scheduler_cursor + 1) as usize } else { max as usize },
                ..m
            }
        },
        QueueModalTab::DownloadItems => if m.items@.len() > 0 {
            QueueModal {
                item_cursor: if m.item_cursor + 1 < m.items@.len() - 1 {
                    (m.item_cursor + 1) as usize
                } else {
                    (m.items@.len() - 1) as usize
                },
                ..m
            }
        } else {
            m
        },
    }
}

/// Up moves the cursor of the shown tab, stopping at the first row.
pub open spec fn moved_up(m: QueueModal) -> QueueModal {
    match m.tab {
        QueueModalTab::Common => QueueModal {
            common_cursor: if m.common_cursor > 0 { (m.common_cursor - 1) as usize } else { 0 },
            ..m
        },
        QueueModalTab::Scheduler => QueueModal {
            scheduler_cursor: if m.scheduler_cursor > 0 { (m.scheduler_cursor - 1) as usize } else { 0 },
            ..m
        },
        QueueModalTab::DownloadItems => QueueModal {
            item_cursor: if m.item_cursor > 0 { (m.item_cursor - 1) as usize } else { 0 },
            ..m
        },
    }
}

/// Space on the weekly days row flips the highlighted day.
pub open spec fn day_toggled(m: QueueModal, n: QueueModal) -> bool {
    let on_days = m.tab == QueueModalTab::Scheduler && m.scheduler_cursor == 2
        && m.recurrence_kind == RecurrenceKind::Weekly;
    &&& on_days ==> n.weekly_days@ == m.weekly_days@.update(m.day_cursor as int, !m.weekly_days[m.day_cursor as int])
        && n == (QueueModal { weekly_days: n.weekly_days, ..m })
    &&& !on_days ==> n == m
}

/// `J` on the download items tab swaps the selected download with the next
/// and follows it.
pub open spec fn item_moved_down(m: QueueModal, n: QueueModal) -> bool {
    let i = m.item_cursor as int;
    let can = m.tab == QueueModalTab::DownloadItems && m.item_cursor + 1 < m.items@.len();
    &&& can ==> n.items@ == m.items@.update(i, m.items@[i + 1]).update(i + 1, m.items@[i]) && n == (QueueModal {
        items: n.items,
        item_cursor: (i + 1) as usize,
        ..m
    })
    &&& !can ==> n == m
}

/// `K` swaps the selected download with the previous one and follows it.
pub open spec fn item_moved_up(m: QueueModal, n: QueueModal) -> bool {
    let i = m.item_cursor as int;
    let can = m.tab == QueueModalTab::DownloadItems && m.item_cursor > 0;
    &&& can ==> n.items@ == m.items@.update(i, m.items@[i - 1]).update(i - 1, m.items@[i]) && n == (QueueModal {
        items: n.items,
        item_cursor: (i - 1) as usize,
        ..m
    })
    &&& !can ==> n == m
}

/// The editor `QueueModal::edit` opens on a queue: the queue's name,
/// tuning and schedule flags on the first tab, cursors at the top, no
/// items or error yet; a weekly schedule's days and times, or for a
/// one-time schedule the prepared weekly defaults and its start and end
/// read in the machine's time zone (each shifted by that zone's offset of
/// under a day).
pub open spec fn filled_from(r: QueueModal, queue: Queue, window: OnceWindow) -> bool {
    &&& r.mode == (QueueModalMode::Edit { queue_id: queue.id })
    &&& r.tab == QueueModalTab::Common
    &&& r.name == queue.name
    &&& r.max_concurrent_downloads == queue.settings.max_concurrent_downloads
    &&& r.max_retries == queue.settings.max_retries
    &&& r.retry_wait_seconds == queue.settings.retry_wait_seconds
    &&& r.finetune == queue.settings.default_finetune
    &&& r.scheduler_enabled == queue.scheduler.enabled
    &&& r.run_missed_on_startup == queue.scheduler.run_missed_on_startup
    &&& r.common_cursor == 0 && r.scheduler_cursor == 0 && r.day_cursor == 0
    &&& !r.editing_text && r.items@.len() == 0 && r.item_cursor == 0 && r.error is None
    &&& match queue.scheduler.recurrence {
        Recurrence::Weekly { days, start_time, end_time } => {
            &&& r.recurrence_kind == RecurrenceKind::Weekly
            &&& forall|i: int| 0 <= i < 7 ==> r.weekly_days[i] == days@.contains(weekday_from_index(i))
            &&& r.weekly_start == start_time && r.weekly_end == end_time
            &&& r.once_start_date == window.start_date && r.once_start_time == window.start_time
            &&& r.once_end_date == window.end_date && r.once_end_time == window.end_time
        },
        Recurrence::Once { start, end } => {
            let shown_start = LocalDateTime { date: r.once_start_date, time: r.once_start_time };
            let shown_end = LocalDateTime { date: r.once_end_date, time: r.once_end_time };
            &&& r.recurrence_kind == RecurrenceKind::Once
            &&& forall|i: int| 0 <= i < 7 ==> !r.weekly_days[i]
            &&& r.weekly_start == two_am() && r.weekly_end == six_am()
            &&& local_valid(shown_start) && zone_shifted(start as int, shown_start)
            &&& local_valid(shown_end) && zone_shifted(end as int, shown_end)
            &&& utc_local(start as int).date.days - 1 <= shown_start.date.days <= utc_local(start as int).date.days
                + 1
            &&& utc_local(end as int).date.days - 1 <= shown_end.date.days <= utc_local(end as int).date.days + 1
        },
    }
}

impl QueueModal {
    /// An editor for a new queue: one download at a time, three retries,
    /// no schedule (a weekly one from 02:00 to 06:00 is prepared), and the
    /// given one-time window.
    pub fn create(window: OnceWindow) -> (r: Self)
        requires
            window_wf(window),
        ensures
            modal_wf(r),
            r.mode == QueueModalMode::Create,
            r.tab == QueueModalTab::Common,
            r.name@ == Seq::<char>::empty(),
            r.max_concurrent_downloads == 1,
            r.max_retries == 3,
            r.retry_wait_seconds == DEFAULT_RETRY_WAIT_SECONDS,
            r.finetune == crate::finetune::unset_finetune(),
            !r.scheduler_enabled,
            r.recurrence_kind == RecurrenceKind::Weekly,
            forall|i: int| 0 <= i < 7 ==> !r.weekly_days[i],
            r.weekly_start == two_am(),
            r.weekly_end == six_am(),
            r.once_start_date == window.start_date && r.once_start_time == window.start_time,
            r.once_end_date == window.end_date && r.once_end_time == window.end_time,
            !r.run_missed_on_startup && !r.editing_text,
            r.common_cursor == 0 && r.scheduler_cursor == 0 && r.day_cursor == 0,
            r.items@.len() == 0 && r.item_cursor == 0 && r.error is None,
    {
        QueueModal {
            mode: QueueModalMode::Create,
            tab: QueueModalTab::Common,
            name: String::new(),
            max_concurrent_downloads: 1,
            max_retries: 3,
            retry_wait_seconds: DEFAULT_RETRY_WAIT_SECONDS,
            finetune: FineTune::default(),
            common_cursor: 0,
            scheduler_enabled: false,
            recurrence_kind: RecurrenceKind::Weekly,
            weekly_days: [false; 7],
            weekly_start: TimeOfDay { secs: 7200, frac: 0 },
            weekly_end: TimeOfDay { secs: 21600, frac: 0 },
            once_start_date: window.start_date,
            once_start_time: window.start_time,
            once_end_date: window.end_date,
            once_end_time: window.end_time,
            run_missed_on_startup: false,
            day_cursor: 0,
            scheduler_cursor: 0,
            editing_text: false,
            text_buffer: String::new(),
            items: Vec::new(),
            item_cursor: 0,
            error: None,
        }
    }

    /// An editor for an existing queue, filled from it. A one-time window
    /// is shown in the machine's local time; the other schedule kind's
    /// fields get the defaults.
    pub fn edit(queue: &Queue, window: OnceWindow) -> (r: Self)
        requires
            window_wf(window),
            crate::schedule::recurrence_valid(queue.scheduler.recurrence),
            queue.scheduler.recurrence matches Recurrence::Once { start, end } ==> instant_in_zone_range(
                start as int,
            ) && instant_in_zone_range(end as int),
        ensures
            modal_wf(r),
            filled_from(r, *queue, window),
    {
        let mut modal = QueueModal::create(window);
        modal.mode = QueueModalMode::Edit { queue_id: queue.id };
        modal.name = queue.name.clone();
        modal.max_concurrent_downloads = queue.settings.max_concurrent_downloads;
        modal.max_retries = queue.settings.max_retries;
        modal.retry_wait_seconds = queue.settings.retry_wait_seconds;
        modal.finetune = queue.settings.default_finetune;
        modal.scheduler_enabled = queue.scheduler.enabled;
        modal.run_missed_on_startup = queue.scheduler.run_missed_on_startup;
        match &queue.scheduler.recurrence {
            Recurrence::Weekly { days, start_time, end_time } => {
                let mut wd = [false; 7];
                let mut k: usize = 0;
                while k < 7
                    invariant
                        k <= 7,
                        forall|i: int| 0 <= i < k ==> wd[i] == days@.contains(weekday_from_index(i)),
                        forall|i: int| k <= i < 7 ==> !wd[i],
                    decreases 7 - k,
                {
                    let w = weekday_of_index(k as u32);
                    wd[k] = crate::schedule::weekday_in(days, w);
                    k = k + 1;
                }
                modal.weekly_days = wd;
                modal.weekly_start = *start_time;
                modal.weekly_end = *end_time;
            },
            Recurrence::Once { start, end } => {
                let s = machine_local_of(*start);
                let e = machine_local_of(*end);
                modal.recurrence_kind = RecurrenceKind::Once;
                modal.once_start_date = s.date;
                modal.once_start_time = s.time;
                modal.once_end_date = e.date;
                modal.once_end_time = e.time;
            },
        }
        modal
    }

    pub fn next_tab(&mut self)
        ensures
            *final(self) == (QueueModal { tab: tab_after(old(self).tab, old(self).mode), ..*old(self) }),
    {
        self.tab = self.tab.next(self.mode);
    }

    pub fn prev_tab(&mut self)
        ensures
            *final(self) == (QueueModal { tab: tab_before(old(self).tab, old(self).mode), ..*old(self) }),
    {
        self.tab = self.tab.prev(self.mode);
    }

    /// Enter on the name field starts editing a copy of the name; elsewhere
    /// nothing happens.
    pub fn start_text_edit(&mut self)
        ensures
            *final(self) == text_edit_started(*old(self)),
    {
        if self.tab == QueueModalTab::Common && self.common_cursor == 0 {
            self.text_buffer = self.name.clone();
            self.editing_text = true;
        }
    }

    pub fn text_input(&mut self, c: char)
        ensures
            typed(*old(self), *final(self), c),
    {
        if self.editing_text {
            push_char(&mut self.text_buffer, c);
        }
    }

    /// Removes the last character of the text being edited.
    pub fn text_backspace(&mut self)
        ensures
            erased(*old(self), *final(self)),
    {
        if self.editing_text {
            let chars = crate::text::chars_of(self.text_buffer.as_str());
            if chars.len() > 0 {
                let mut kept: Vec<char> = Vec::new();
                let mut i: usize = 0;
                while i < chars.len() - 1
                    invariant
                        chars@.len() > 0,
                        i <= chars@.len() - 1,
                        kept@ == chars@.take(i as int),
                    decreases chars@.len() - i,
                {
                    kept.push(chars[i]);
                    assert(chars@.take(i + 1) =~= chars@.take(i as int).push(chars@[i as int]));
                    i = i + 1;
                }
                assert(kept@ =~= chars@.drop_last());
                self.text_buffer = crate::text::string_of(&kept);
            }
        }
    }

    /// Enter while editing keeps the text as the name; Esc drops it.
    pub fn confirm_text_edit(&mut self)
        ensures
            *final(self) == text_edit_confirmed(*old(self)),
    {
        if !self.editing_text {
            return;
        }
        if self.tab == QueueModalTab::Common && self.common_cursor == 0 {
            self.name = self.text_buffer.clone();
        }
        self.editing_text = false;
    }

    pub fn cancel_text_edit(&mut self)
        ensures
            *final(self) == (QueueModal { editing_text: false, ..*old(self) }),
    {
        self.editing_text = false;
    }

    /// Down moves the cursor of the shown tab, stopping at its last row.
    pub fn move_down(&mut self)
        requires
            modal_wf(*old(self)),
        ensures
            modal_wf(*final(self)),
            *final(self) == moved_down(*old(self)),
    {
        match self.tab {
            QueueModalTab::Common => {
                self.common_cursor = if self.common_cursor < 6 { self.common_cursor + 1 } else { 6 };
            },
            QueueModalTab::Scheduler => {
                let max: usize = match self.recurrence_kind {
                    RecurrenceKind::Weekly => 5,
                    RecurrenceKind::Once => 6,
                };
                self.scheduler_cursor = if self.scheduler_cursor + 1 < max { self.scheduler_cursor + 1 } else { max };
            },
            QueueModalTab::DownloadItems => {
                if self.items.len() > 0 {
                    let last = self.items.len() - 1;
                    self.item_cursor = if self.item_cursor + 1 < last { self.item_cursor + 1 } else { last };
                }
            },
        }
    }

    /// Up moves the cursor of the shown tab, stopping at the first row.
    pub fn move_up(&mut self)
        requires
            modal_wf(*old(self)),
        ensures
            modal_wf(*final(self)),
            *final(self) == moved_up(*old(self)),
    {
        match self.tab {
            QueueModalTab::Common => {
                self.common_cursor = self.common_cursor.saturating_sub(1);
            },
            QueueModalTab::Scheduler => {
                self.scheduler_cursor = self.scheduler_cursor.saturating_sub(1);
            },
            QueueModalTab::DownloadItems => {
                self.item_cursor = self.item_cursor.saturating_sub(1);
            },
        }
    }

    /// Left/right: steps the value under the cursor (Common and Scheduler
    /// tabs) or moves along the days row; the download items tab uses its
    /// own keys instead.
    pub fn adjust(&mut self, forward: bool)
        requires
            modal_wf(*old(self)),
            adjust_ok(*old(self), forward),
        ensures
            modal_wf(*final(self)),
            *final(self) == adjusted_modal(*old(self), forward),
    {
        match self.tab {
            QueueModalTab::Common => {
                if self.common_cursor == 1 {
                    self.max_concurrent_downloads = adjust_u32_bounded(self.max_concurrent_downloads, forward, 1, 20);
                } else if self.common_cursor == 2 {
                    self.max_retries = adjust_u32_bounded(self.max_retries, forward, 0, 20);
                } else if self.common_cursor >= 3 {
                    adjust_finetune_field(&mut self.finetune, self.common_cursor - 3, forward);
                }
            },
            QueueModalTab::Scheduler => {
                let weekly = self.recurrence_kind == RecurrenceKind::Weekly;
                let c = self.scheduler_cursor;
                if c == 0 {
                    self.scheduler_enabled = !self.scheduler_enabled;
                } else if c == 1 {
                    self.recurrence_kind = if weekly { RecurrenceKind::Once } else { RecurrenceKind::Weekly };
                } else if weekly {
                    if c == 2 {
                        self.day_cursor = if forward {
                            if self.day_cursor + 1 < 6 { self.day_cursor + 1 } else { 6 }
                        } else {
                            self.day_cursor.saturating_sub(1)
                        };
                    } else if c == 3 {
                        self.weekly_start = adjust_time(self.weekly_start, forward);
                    } else if c == 4 {
                        self.weekly_end = adjust_time(self.weekly_end, forward);
                    } else if c == 5 {
                        self.run_missed_on_startup = !self.run_missed_on_startup;
                    }
                } else {
                    if c == 2 {
                        self.once_start_date = adjust_date(self.once_start_date, forward);
                    } else if c == 3 {
                        self.once_start_time = adjust_time(self.once_start_time, forward);
                    } else if c == 4 {
                        self.once_end_date = adjust_date(self.once_end_date, forward);
                    } else if c == 5 {
                        self.once_end_time = adjust_time(self.once_end_time, forward);
                    } else if c == 6 {
                        self.run_missed_on_startup = !self.run_missed_on_startup;
                    }
                }
            },
            QueueModalTab::DownloadItems => {},
        }
    }

    /// Space on the days row toggles the highlighted day.
    pub fn toggle_day(&mut self)
        requires
            modal_wf(*old(self)),
        ensures
            modal_wf(*final(self)),
            day_toggled(*old(self), *final(self)),
    {
        if self.tab == QueueModalTab::Scheduler && self.scheduler_cursor == 2
            && self.recurrence_kind == RecurrenceKind::Weekly {
            let d = self.day_cursor;
            let v = !self.weekly_days[d];
            self.weekly_days[d] = v;
        }
    }
}

impl QueueModal {
    /// Moves the selected download one place later in the queue's order
    /// (download items tab only); the order is sent on save.
    pub fn move_item_down(&mut self)
        ensures
            item_moved_down(*old(self), *final(self)),
            modal_wf(*old(self)) ==> modal_wf(*final(self)),
    {
        if self.tab == QueueModalTab::DownloadItems && self.item_cursor < self.items.len()
            && self.item_cursor + 1 < self.items.len() {
            let i = self.item_cursor;
            let ghost before = self.items@;
            let it = self.items.remove(i);
            self.items.insert(i + 1, it);
            assert(self.items@ =~= before.update(i as int, before[i + 1]).update(i + 1, before[i as int]));
            self.item_cursor = i + 1;
        }
    }

    /// Moves the selected download one place earlier.
    pub fn move_item_up(&mut self)
        requires
            old(self).tab == QueueModalTab::DownloadItems && old(self).item_cursor > 0
                ==> old(self).item_cursor < old(self).items@.len(),
        ensures
            item_moved_up(*old(self), *final(self)),
            modal_wf(*old(self)) ==> modal_wf(*final(self)),
    {
        if self.tab == QueueModalTab::DownloadItems && self.item_cursor > 0 {
            let i = self.item_cursor;
            let ghost before = self.items@;
            let it = self.items.remove(i);
            self.items.insert(i - 1, it);
            assert(self.items@ =~= before.update(i as int, before[i - 1]).update(i - 1, before[i as int]));
            self.item_cursor = i - 1;
        }
    }
}

/// The ticked days, Monday first.
pub open spec fn days_upto(wd: Seq<bool>, k: int) -> Seq<Weekday>
    decreases k,
{
    if k <= 0 {
        Seq::empty()
    } else {
        let rest = days_upto(wd, k - 1);
        if wd[k - 1] {
            rest.push(weekday_from_index(k - 1))
        } else {
            rest
        }
    }
}

pub open spec fn invalid_time_text(field: Seq<char>) -> Seq<char> {
    field + " date and time aren't valid in the local timezone"@
}

fn invalid_time_message(field: &str) -> (r: String)
    ensures
        r@ == invalid_time_text(field@),
{
    let mut m = field.to_owned();
    push_str(&mut m, " date and time aren't valid in the local timezone");
    m
}

/// The one-time window made of the resolved start and end.
pub fn once_from_resolutions(start: LocalResolution, end: LocalResolution) -> (r: Result<Recurrence, String>)
    ensures
        match (start, end) {
            (LocalResolution::Single(s), LocalResolution::Single(e)) => r == Ok::<Recurrence, String>(
                Recurrence::Once { start: s, end: e },
            ),
            (LocalResolution::Single(_), _) => r matches Err(m) && m@ == invalid_time_text("end"@),
            _ => r matches Err(m) && m@ == invalid_time_text("start"@),
        },
{
    let s = match start {
        LocalResolution::Single(a) => a,
        _ => {
            return Err(invalid_time_message("start"));
        },
    };
    let e = match end {
        LocalResolution::Single(a) => a,
        _ => {
            return Err(invalid_time_message("end"));
        },
    };
    Ok(Recurrence::Once { start: s, end: e })
}

/// The machine zone's reading of a local date and time; dates at chrono's
/// very limits are not looked up and count as invalid.
fn resolve_local(date: Date, time: TimeOfDay) -> (r: LocalResolution)
    requires
        date_valid(date),
        time_valid(time),
    ensures
        !(MIN_DAY + 1 <= date.days <= MAX_DAY - 1) ==> r is Nonexistent,
        r matches LocalResolution::Single(a) ==> near_local(LocalDateTime { date, time }, a as int),
        r matches LocalResolution::Ambiguous(a, b) ==> near_local(LocalDateTime { date, time }, a as int)
            && near_local(LocalDateTime { date, time }, b as int),
{
    if MIN_DAY + 1 <= date.days && date.days <= MAX_DAY - 1 {
        machine_resolve(LocalDateTime { date, time })
    } else {
        LocalResolution::Nonexistent
    }
}

/// The weekly schedule of the editor: the ticked days, Monday first, and
/// the weekly window.
pub open spec fn weekly_of(rec: Recurrence, m: QueueModal) -> bool {
    rec matches Recurrence::Weekly { days, start_time, end_time } && days@ == days_upto(m.weekly_days@, 7)
        && start_time == m.weekly_start && end_time == m.weekly_end
}

impl QueueModal {
    /// The schedule the editor describes: the ticked days (Monday first)
    /// with the weekly times, or the one-time window read in the machine's
    /// local time, which must name one instant for each bound.
    pub fn build_recurrence(&self) -> (r: Result<Recurrence, String>)
        requires
            modal_wf(*self),
        ensures
            self.recurrence_kind == RecurrenceKind::Weekly ==> (r matches Ok(rec) && weekly_of(rec, *self)),
            self.recurrence_kind == RecurrenceKind::Once ==> (r is Ok ==> r matches Ok(Recurrence::Once { .. }))
                && (r matches Err(m) ==> (m@ == invalid_time_text("start"@) || m@ == invalid_time_text("end"@))),
    {
        match self.recurrence_kind {
            RecurrenceKind::Weekly => {
                let mut days: Vec<Weekday> = Vec::new();
                let mut k: usize = 0;
                while k < 7
                    invariant
                        k <= 7,
                        days@ == days_upto(self.weekly_days@, k as int),
                    decreases 7 - k,
                {
                    if self.weekly_days[k] {
                        days.push(weekday_of_index(k as u32));
                    }
                    k = k + 1;
                }
                Ok(Recurrence::Weekly { days, start_time: self.weekly_start, end_time: self.weekly_end })
            },
            RecurrenceKind::Once => {
                let start = resolve_local(self.once_start_date, self.once_start_time);
                let end = resolve_local(self.once_end_date, self.once_end_time);
                once_from_resolutions(start, end)
            },
        }
    }
}

/// What a save sends.
#[derive(Clone, Debug)]
pub enum QueueSaveRequest {
    Create(CreateQueueRequest),
    /// The changed queue, and the order of its downloads (sent only when
    /// there are any).
    Update { queue_id: i64, request: UpdateQueueRequest, ordered_ids: Vec<i64> },
}

pub open spec fn item_ids(items: Seq<Download>) -> Seq<i64> {
    items.map_values(|d: Download| d.id)
}

/// The schedule a save request carries.
pub open spec fn request_recurrence(q: QueueSaveRequest) -> Recurrence {
    match q {
        QueueSaveRequest::Create(c) => c.recurrence,
        QueueSaveRequest::Update { request, .. } => request.recurrence,
    }
}

/// A save request built from the editor: a create request for a new queue,
/// an update of the edited queue (with its downloads' order) otherwise; the
/// name, tuning and schedule flags carried over; the ticked weekly days and
/// times, or a one-time window.
pub open spec fn saved_from(m: QueueModal, q: QueueSaveRequest) -> bool {
    &&& match q {
        QueueSaveRequest::Create(c) => m.mode == QueueModalMode::Create && c.name == m.name && c.position == 0
            && c.max_concurrent_downloads == m.max_concurrent_downloads && c.max_retries == m.max_retries
            && c.retry_wait_seconds == m.retry_wait_seconds && c.default_finetune == m.finetune
            && c.scheduler_enabled == m.scheduler_enabled && c.run_missed_on_startup == m.run_missed_on_startup,
        QueueSaveRequest::Update { queue_id, request, ordered_ids } => m.mode == (QueueModalMode::Edit {
            queue_id,
        }) && request.name == m.name && request.position == 0 && request.max_concurrent_downloads
            == m.max_concurrent_downloads && request.max_retries == m.max_retries && request.retry_wait_seconds
            == m.retry_wait_seconds && request.default_finetune == m.finetune && request.scheduler_enabled
            == m.scheduler_enabled && request.run_missed_on_startup == m.run_missed_on_startup
            && ordered_ids@ == item_ids(m.items@),
    }
    &&& m.recurrence_kind == RecurrenceKind::Weekly ==> weekly_of(request_recurrence(q), m)
    &&& m.recurrence_kind == RecurrenceKind::Once ==> request_recurrence(q) is Once
}

/// Why an editor could not be saved.
pub open spec fn save_error_text(e: Seq<char>) -> bool {
    e == "name can't be empty"@ || e == invalid_time_text("start"@) || e == invalid_time_text("end"@)
}

impl QueueModal {
    /// Checks the editor and builds the request: a name is required (after
    /// trimming), and the schedule must be buildable.
    pub fn save_request(&self) -> (r: Result<QueueSaveRequest, String>)
        requires
            modal_wf(*self),
        ensures
            trimmed(self.name@).len() == 0 ==> (r matches Err(m) && m@ == "name can't be empty"@),
            r matches Ok(QueueSaveRequest::Create(c)) ==> self.mode == QueueModalMode::Create && c.name
                == self.name && c.position == 0 && c.max_concurrent_downloads == self.max_concurrent_downloads
                && c.max_retries == self.max_retries && c.retry_wait_seconds == self.retry_wait_seconds
                && c.default_finetune == self.finetune && c.scheduler_enabled == self.scheduler_enabled
                && c.run_missed_on_startup == self.run_missed_on_startup,
            r matches Ok(QueueSaveRequest::Update { queue_id, request, ordered_ids }) ==> self.mode == (
            QueueModalMode::Edit { queue_id }) && request.name == self.name && request.position == 0
                && request.max_concurrent_downloads == self.max_concurrent_downloads && request.max_retries
                == self.max_retries && request.retry_wait_seconds == self.retry_wait_seconds
                && request.default_finetune == self.finetune && request.scheduler_enabled
                == self.scheduler_enabled && request.run_missed_on_startup == self.run_missed_on_startup
                && ordered_ids@ == item_ids(self.items@),
            trimmed(self.name@).len() > 0 && self.recurrence_kind == RecurrenceKind::Weekly ==> (r matches Ok(q) && weekly_of(
                match q {
                    QueueSaveRequest::Create(c) => c.recurrence,
                    QueueSaveRequest::Update { request, .. } => request.recurrence,
                },
                *self,
            )),
            trimmed(self.name@).len() > 0 && self.recurrence_kind == RecurrenceKind::Once ==> (r matches Err(m) ==> (m@
                == invalid_time_text("start"@) || m@ == invalid_time_text("end"@))),
            r matches Ok(q) ==> saved_from(*self, q),
            r matches Err(e) ==> save_error_text(e@),
    {
        let t = trim_text(self.name.as_str());
        if t.as_str().is_empty() {
            return Err("name can't be empty".to_owned());
        }
        let recurrence = match self.build_recurrence() {
            Ok(r) => r,
            Err(e) => {
                return Err(e);
            },
        };
        match self.mode {
            QueueModalMode::Create => Ok(
                QueueSaveRequest::Create(
                    CreateQueueRequest {
                        name: self.name.clone(),
                        position: 0,
                        max_concurrent_downloads: self.max_concurrent_downloads,
                        max_retries: self.max_retries,
                        retry_wait_seconds: self.retry_wait_seconds,
                        default_finetune: self.finetune,
                        scheduler_enabled: self.scheduler_enabled,
                        recurrence,
                        run_missed_on_startup: self.run_missed_on_startup,
                    },
                ),
            ),
            QueueModalMode::Edit { queue_id } => {
                let mut ids: Vec<i64> = Vec::new();
                let mut i: usize = 0;
                while i < self.items.len()
                    invariant
                        i <= self.items@.len(),
                        ids@ == item_ids(self.items@.take(i as int)),
                    decreases self.items@.len() - i,
                {
                    ids.push(self.items[i].id);
                    assert(item_ids(self.items@.take(i + 1)) =~= item_ids(self.items@.take(i as int)).push(self.items@[i as int].id));
                    i = i + 1;
                }
                assert(self.items@.take(i as int) =~= self.items@);
                Ok(
                    QueueSaveRequest::Update {
                        queue_id,
                        request: UpdateQueueRequest {
                            name: self.name.clone(),
                            position: 0,
                            max_concurrent_downloads: self.max_concurrent_downloads,
                            max_retries: self.max_retries,
                            retry_wait_seconds: self.retry_wait_seconds,
                            default_finetune: self.finetune,
                            scheduler_enabled: self.scheduler_enabled,
                            recurrence,
                            run_missed_on_startup: self.run_missed_on_startup,
                        },
                        ordered_ids: ids,
                    },
                )
            },
        }
    }
}

/// A step up stays within `u32` for the value under the cursor.
pub open spec fn adjust_ok(m: QueueModal, forward: bool) -> bool {
    &&& forward && m.tab == QueueModalTab::Common && m.common_cursor == 1 ==> m.max_concurrent_downloads < u32::MAX
    &&& forward && m.tab == QueueModalTab::Common && m.common_cursor == 2 ==> m.max_retries < u32::MAX
    &&& forward && m.tab == QueueModalTab::Common && m.common_cursor == 3
        ==> m.finetune.connections_per_download != Some(u32::MAX)
    &&& forward && m.tab == QueueModalTab::Common && m.common_cursor == 4
        ==> m.finetune.max_connections_per_server != Some(u32::MAX)
}

/// The editor after one left/right press.
pub open spec fn adjusted_modal(m: QueueModal, forward: bool) -> QueueModal {
    match m.tab {
        QueueModalTab::Common => if m.common_cursor == 1 {
            QueueModal { max_concurrent_downloads: bounded_step(m.max_concurrent_downloads, forward, 1, 20), ..m }
        } else if m.common_cursor == 2 {
            QueueModal { max_retries: bounded_step(m.max_retries, forward, 0, 20), ..m }
        } else if m.common_cursor >= 3 {
            QueueModal { finetune: adjusted_field(m.finetune, (m.common_cursor - 3) as usize, forward), ..m }
        } else {
            m
        },
        QueueModalTab::Scheduler => {
            let weekly = m.recurrence_kind == RecurrenceKind::Weekly;
            let c = m.scheduler_cursor;
            if c == 0 {
                QueueModal { scheduler_enabled: !m.scheduler_enabled, ..m }
            } else if c == 1 {
                QueueModal { recurrence_kind: if weekly { RecurrenceKind::Once } else { RecurrenceKind::Weekly }, ..m }
            } else if weekly {
                if c == 2 {
                    QueueModal {
                        day_cursor: if forward {
                            if m.day_cursor + 1 < 6 { (m.day_cursor + 1) as usize } else { 6 }
                        } else if m.day_cursor > 0 {
                            (m.day_cursor - 1) as usize
                        } else {
                            0
                        },
                        ..m
                    }
                } else if c == 3 {
                    QueueModal { weekly_start: shifted_time(m.weekly_start, if forward { 300 } else { -300 }), ..m }
                } else if c == 4 {
                    QueueModal { weekly_end: shifted_time(m.weekly_end, if forward { 300 } else { -300 }), ..m }
                } else if c == 5 {
                    QueueModal { run_missed_on_startup: !m.run_missed_on_startup, ..m }
                } else {
                    m
                }
            } else {
                if c == 2 {
                    QueueModal { once_start_date: step_date(m.once_start_date, forward), ..m }
                } else if c == 3 {
                    QueueModal { once_start_time: shifted_time(m.once_start_time, if forward { 300 } else { -300 }), ..m }
                } else if c == 4 {
                    QueueModal { once_end_date: step_date(m.once_end_date, forward), ..m }
                } else if c == 5 {
                    QueueModal { once_end_time: shifted_time(m.once_end_time, if forward { 300 } else { -300 }), ..m }
                } else if c == 6 {
                    QueueModal { run_missed_on_startup: !m.run_missed_on_startup, ..m }
                } else {
                    m
                }
            }
        },
        QueueModalTab::DownloadItems => m,
    }
}

pub open spec fn step_date(d: Date, forward: bool) -> Date {
    match day_after_in_range(d.days as int, if forward { 1 } else { -1 }) {
        Some(n) => n,
        None => d,
    }
}

} // verus!
