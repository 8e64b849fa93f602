//! Queue control: the ordered steps that starting a queue and reconciling it
//! with its schedule take. The daemon performs the steps in order and stops
//! at the first one that fails.
use vstd::prelude::*;
use crate::clock::NANOS_PER_DAY;
use crate::enums::QueueStatus;
use crate::queue::Queue;
use crate::schedule::Recurrence;
use crate::schedule::{
    ScheduleDecision, decide, current_schedule_occurrence, instant_schedulable, next_stop,
    next_stop_in_utc, occurrence_in_utc, opt_int, opt_text, recurrence_valid, schedule_decision,
    weekly_key, machine_stop_search, earliest_after, weekly_reading, weekly_occurrence_at,
};
use crate::clock::{LocalDateTime, LocalResolution};
use crate::clock::Date;

verus! {

/// One persisted or transfer-side effect of queue control.
#[derive(Clone, Debug)]
pub enum ControlStep {
    /// Store the queue's control state.
    SetQueueStatus(QueueStatus),
    /// Store (or clear) the deadline of the current run.
    SetScheduledStop(Option<i128>),
    /// Store (or clear) the occurrence the user paused.
    SetSuppression(Option<String>),
    /// Pause the queue's running items; by the scheduler when set.
    PauseDownloads { by_scheduler: bool },
    /// Start queued items up to the queue's capacity; an explicit Start also
    /// resumes items the user paused.
    StartEligible { explicit: bool },
}

/// Why a queue cannot be started.
#[derive(Clone, Copy, Debug, PartialEq, Eq, Structural)]
pub enum ControlError {
    /// The schedule is enabled but has no future stop.
    NoFutureStop,
}

/// The schedule facts that queue control needs at one moment.
#[derive(Clone, Debug)]
pub struct ScheduleView {
    /// The next stop of the schedule after now.
    pub next_stop: Option<i128>,
    /// The occurrence open now.
    pub occurrence_now: Option<String>,
    /// The occurrence that was open just before the run deadline in force
    /// (the stored one, or the one this reconciliation arms).
    pub occurrence_before_stop: Option<String>,
}

pub open spec fn step_view(s: ControlStep) -> ControlStepView {
    match s {
        ControlStep::SetQueueStatus(q) => ControlStepView::SetQueueStatus(q),
        ControlStep::SetScheduledStop(t) => ControlStepView::SetScheduledStop(t),
        ControlStep::SetSuppression(o) => ControlStepView::SetSuppression(opt_text(o)),
        ControlStep::PauseDownloads { by_scheduler } => ControlStepView::PauseDownloads {
            by_scheduler,
        },
        ControlStep::StartEligible { explicit } => ControlStepView::StartEligible { explicit },
    }
}

/// A control step with texts taken by value.
pub enum ControlStepView {
    SetQueueStatus(QueueStatus),
    SetScheduledStop(Option<i128>),
    SetSuppression(Option<Seq<char>>),
    PauseDownloads { by_scheduler: bool },
    StartEligible { explicit: bool },
}

pub open spec fn steps_view(s: Seq<ControlStep>) -> Seq<ControlStepView> {
    s.map_values(|x: ControlStep| step_view(x))
}

/// Steps that prepare a Start: an enabled schedule needs a future stop; a
/// scheduled run whose deadline passed is stopped first; the run deadline is
/// the stored one while it is still ahead, else the schedule's next stop. A
/// repeated Start never extends a run past its original stop.
pub open spec fn prepare_start_spec(queue: Queue, now: int, next: Option<i128>) -> Result<
    Seq<ControlStepView>,
    ControlError,
> {
    if queue.scheduler.enabled && next is None {
        Err(ControlError::NoFutureStop)
    } else {
        let stop = if queue.scheduler.enabled {
            next
        } else {
            None
        };
        let expired = queue.scheduler.enabled && (queue.scheduled_stop_at matches Some(end) && now
            >= end);
        let kept = if queue.scheduler.enabled && (queue.scheduled_stop_at matches Some(end) && end
            > now) {
            queue.scheduled_stop_at
        } else {
            stop
        };
        let first = if expired {
            seq![
                ControlStepView::SetQueueStatus(QueueStatus::Paused),
                ControlStepView::PauseDownloads { by_scheduler: true },
            ]
        } else {
            Seq::empty()
        };
        Ok(first.push(ControlStepView::SetScheduledStop(kept)))
    }
}

pub open spec fn result_view(r: Result<Vec<ControlStep>, ControlError>) -> Result<
    Seq<ControlStepView>,
    ControlError,
> {
    match r {
        Ok(v) => Ok(steps_view(v@)),
        Err(e) => Err(e),
    }
}

pub fn prepare_start_steps(queue: &Queue, now: i128, next: Option<i128>) -> (r: Result<
    Vec<ControlStep>,
    ControlError,
>)
    ensures
        result_view(r) == prepare_start_spec(*queue, now as int, next),
{
    let stop = if queue.scheduler.enabled {
        match next {
            Some(t) => Some(t),
            None => return Err(ControlError::NoFutureStop),
        }
    } else {
        None
    };
    let mut steps: Vec<ControlStep> = Vec::new();
    let expired = queue.scheduler.enabled && match queue.scheduled_stop_at {
        Some(end) => now >= end,
        None => false,
    };
    if expired {
        steps.push(ControlStep::SetQueueStatus(QueueStatus::Paused));
        steps.push(ControlStep::PauseDownloads { by_scheduler: true });
    }
    let keep = queue.scheduler.enabled && match queue.scheduled_stop_at {
        Some(end) => end > now,
        None => false,
    };
    let kept = if keep {
        queue.scheduled_stop_at
    } else {
        stop
    };
    steps.push(ControlStep::SetScheduledStop(kept));
    proof {
        let expected = prepare_start_spec(*queue, now as int, next).unwrap();
        assert(steps_view(steps@) =~= expected);
    }
    Ok(steps)
}

/// The deadline that reconciliation works with: the stored one, or, for a
/// queue that is armed or has running items, the next stop (or now, when the
/// schedule has none).
pub open spec fn deadline_in_force(queue: Queue, active: i64, now: int, next: Option<i128>) -> Option<
    i128,
> {
    if queue.scheduled_stop_at is None && (queue.status == QueueStatus::Active || active > 0) {
        Some(
            match next {
                Some(t) => t,
                None => now as i128,
            },
        )
    } else {
        queue.scheduled_stop_at
    }
}

/// Steps that reconcile a queue with its schedule.
pub open spec fn reconcile_spec(
    queue: Queue,
    active: i64,
    suppressed: Option<Seq<char>>,
    now: int,
    view_next: Option<i128>,
    view_now: Option<Seq<char>>,
    view_before_stop: Option<Seq<char>>,
) -> Result<Seq<ControlStepView>, ControlError> {
    if !queue.scheduler.enabled {
        let clear = seq![ControlStepView::SetScheduledStop(None)];
        Ok(
            if queue.status == QueueStatus::Active {
                clear.push(ControlStepView::StartEligible { explicit: false })
            } else {
                clear
            },
        )
    } else {
        let armed = queue.scheduled_stop_at is None && (queue.status == QueueStatus::Active || active
            > 0);
        let stop = deadline_in_force(queue, active, now, view_next);
        let arm_steps = if armed {
            seq![ControlStepView::SetScheduledStop(stop)]
        } else {
            Seq::empty()
        };
        let expired = stop matches Some(t) && now >= t;
        let expire_steps = if expired {
            seq![
                ControlStepView::SetQueueStatus(QueueStatus::Paused),
                ControlStepView::PauseDownloads { by_scheduler: true },
                ControlStepView::SetSuppression(view_before_stop),
                ControlStepView::SetScheduledStop(None),
            ]
        } else {
            Seq::empty()
        };
        let status = if expired {
            QueueStatus::Paused
        } else {
            queue.status
        };
        let current_stop = if expired {
            None
        } else {
            stop
        };
        let current_suppression = if expired {
            view_before_stop
        } else {
            suppressed
        };
        let (decision, clear) = decide(status, view_now, current_suppression);
        let clear_steps = if clear {
            seq![ControlStepView::SetSuppression(None)]
        } else {
            Seq::empty()
        };
        let before = arm_steps + expire_steps + clear_steps;
        match decision {
            ScheduleDecision::Start => {
                if current_stop is None {
                    if view_next is None {
                        Err(ControlError::NoFutureStop)
                    } else {
                        Ok(
                            before.push(ControlStepView::SetScheduledStop(view_next)).push(
                                ControlStepView::StartEligible { explicit: false },
                            ),
                        )
                    }
                } else {
                    Ok(before.push(ControlStepView::StartEligible { explicit: false }))
                }
            },
            ScheduleDecision::StayPaused => Ok(
                before.push(ControlStepView::PauseDownloads { by_scheduler: false }),
            ),
            ScheduleDecision::CloseWindow => Ok(
                if current_stop is None {
                    before.push(ControlStepView::PauseDownloads { by_scheduler: true })
                } else {
                    before
                },
            ),
        }
    }
}

fn copy_text(o: &Option<String>) -> (r: Option<String>)
    ensures
        opt_text(r) == opt_text(*o),
{
    match o {
        Some(s) => Some(s.clone()),
        None => None,
    }
}

fn as_str_opt(o: &Option<String>) -> (r: Option<&str>)
    ensures
        crate::schedule::opt_str_text(r) == opt_text(*o),
{
    match o {
        Some(s) => Some(s.as_str()),
        None => None,
    }
}

pub fn reconcile_steps(
    queue: &Queue,
    active: i64,
    suppressed: &Option<String>,
    now: i128,
    view: &ScheduleView,
) -> (r: Result<Vec<ControlStep>, ControlError>)
    ensures
        result_view(r) == reconcile_spec(
            *queue,
            active,
            opt_text(*suppressed),
            now as int,
            view.next_stop,
            opt_text(view.occurrence_now),
            opt_text(view.occurrence_before_stop),
        ),
{
    let mut steps: Vec<ControlStep> = Vec::new();
    if !queue.scheduler.enabled {
        steps.push(ControlStep::SetScheduledStop(None));
        if queue.status == QueueStatus::Active {
            steps.push(ControlStep::StartEligible { explicit: false });
        }
        proof {
            let expected = reconcile_spec(
                *queue,
                active,
                opt_text(*suppressed),
                now as int,
                view.next_stop,
                opt_text(view.occurrence_now),
                opt_text(view.occurrence_before_stop),
            ).unwrap();
            assert(steps_view(steps@) =~= expected);
        }
        return Ok(steps);
    }
    let ghost start_len = 0int;
    let mut stop = queue.scheduled_stop_at;
    if queue.scheduled_stop_at.is_none() && (queue.status == QueueStatus::Active || active > 0) {
        let armed = match view.next_stop {
            Some(t) => t,
            None => now,
        };
        stop = Some(armed);
        steps.push(ControlStep::SetScheduledStop(Some(armed)));
    }
    let ghost arm_len = steps@.len();
    let expired = match stop {
        Some(t) => now >= t,
        None => false,
    };
    let mut status = queue.status;
    let mut current_suppression = copy_text(suppressed);
    if expired {
        steps.push(ControlStep::SetQueueStatus(QueueStatus::Paused));
        steps.push(ControlStep::PauseDownloads { by_scheduler: true });
        steps.push(ControlStep::SetSuppression(copy_text(&view.occurrence_before_stop)));
        steps.push(ControlStep::SetScheduledStop(None));
        status = QueueStatus::Paused;
        stop = None;
        current_suppression = copy_text(&view.occurrence_before_stop);
    }
    let (decision, clear) = schedule_decision(
        status,
        as_str_opt(&view.occurrence_now),
        as_str_opt(&current_suppression),
    );
    if clear {
        steps.push(ControlStep::SetSuppression(None));
    }
    let ghost before = steps_view(steps@);
    match decision {
        ScheduleDecision::Start => {
            if stop.is_none() {
                match view.next_stop {
                    None => {
                        return Err(ControlError::NoFutureStop);
                    },
                    Some(t) => {
                        steps.push(ControlStep::SetScheduledStop(Some(t)));
                    },
                }
            }
            steps.push(ControlStep::StartEligible { explicit: false });
        },
        ScheduleDecision::StayPaused => {
            steps.push(ControlStep::PauseDownloads { by_scheduler: false });
        },
        ScheduleDecision::CloseWindow => {
            if stop.is_none() {
                steps.push(ControlStep::PauseDownloads { by_scheduler: true });
            }
        },
    }
    proof {
        let expected = reconcile_spec(
            *queue,
            active,
            opt_text(*suppressed),
            now as int,
            view.next_stop,
            opt_text(view.occurrence_now),
            opt_text(view.occurrence_before_stop),
        ).unwrap();
        assert(steps_view(steps@) =~= expected);
    }
    Ok(steps)
}

/// Instants far enough inside chrono's range that the nanosecond before
/// them can be read in the machine's time zone.
pub open spec fn schedulable_span(t: int) -> bool {
    (crate::clock::MIN_DAY + 21 - crate::clock::EPOCH_DAY) * NANOS_PER_DAY <= t
        < (crate::clock::MAX_DAY - 21 - crate::clock::EPOCH_DAY) * NANOS_PER_DAY
}

fn schedulable(t: i128) -> (r: bool)
    ensures
        r == schedulable_span(t as int),
        r ==> instant_schedulable(t - 1),
{
    let low: i128 = (crate::clock::MIN_DAY as i128 + 21 - crate::clock::EPOCH_DAY as i128)
        * NANOS_PER_DAY;
    let high: i128 = (crate::clock::MAX_DAY as i128 - 21 - crate::clock::EPOCH_DAY as i128)
        * NANOS_PER_DAY;
    low <= t && t < high
}

/// Reads the schedule facts for a queue at `now` in the machine's time zone.
pub fn schedule_view(queue: &Queue, active: i64, now: i128) -> (r: ScheduleView)
    requires
        recurrence_valid(queue.scheduler.recurrence),
        instant_schedulable(now as int),
    ensures
        r.next_stop matches Some(t) ==> t > now,
        queue.scheduler.recurrence is Once ==> opt_int(r.next_stop) == next_stop_in_utc(
            queue.scheduler.recurrence,
            now as int,
        ) && opt_text(r.occurrence_now) == occurrence_in_utc(queue.scheduler.recurrence, now as int),
        queue.scheduler.recurrence matches Recurrence::Weekly { days, start_time, end_time } ==> (
        days@.len() == 0 || start_time == end_time ==> r.next_stop is None),
        queue.scheduler.recurrence matches Recurrence::Weekly { start_time, .. } ==> (
        r.occurrence_now matches Some(k) ==> exists|d: Date| #[trigger] weekly_key(d, start_time) == k@),
        queue.scheduler.recurrence matches Recurrence::Weekly { start_time, .. } ==> (
        r.occurrence_before_stop matches Some(k) ==> exists|d: Date| #[trigger] weekly_key(d, start_time)
            == k@),
        match deadline_in_force(*queue, active, now as int, r.next_stop) {
            Some(t) => !schedulable_span(t as int) ==> r.occurrence_before_stop is None,
            None => r.occurrence_before_stop is None,
        },
        queue.scheduler.recurrence is Once ==> match deadline_in_force(
            *queue,
            active,
            now as int,
            r.next_stop,
        ) {
            Some(t) => schedulable_span(t as int) ==> opt_text(r.occurrence_before_stop)
                == occurrence_in_utc(queue.scheduler.recurrence, t - 1),
            None => true,
        },
        queue.scheduler.recurrence matches Recurrence::Weekly { days, start_time, end_time } ==> {
            &&& (days@.len() > 0 && start_time != end_time ==> exists|today: Date, rs: Seq<LocalResolution>|
                #[trigger] machine_stop_search(days@, start_time, end_time, now as int, today, rs) && opt_int(
                    r.next_stop,
                ) == earliest_after(now as int, rs))
            &&& exists|local: LocalDateTime, reading: LocalResolution|
                #[trigger] weekly_reading(days@, start_time, end_time, now as int, local, reading) && opt_text(
                    r.occurrence_now,
                ) == weekly_occurrence_at(days@, start_time, end_time, now as int, local, reading)
            &&& match deadline_in_force(*queue, active, now as int, r.next_stop) {
                Some(t) => schedulable_span(t as int) ==> exists|local: LocalDateTime, reading: LocalResolution|
                    #[trigger] weekly_reading(days@, start_time, end_time, t - 1, local, reading) && opt_text(
                        r.occurrence_before_stop,
                    ) == weekly_occurrence_at(days@, start_time, end_time, t - 1, local, reading),
                None => true,
            }
        },
{
    let next = next_stop(&queue.scheduler.recurrence, now);
    let occurrence_now = current_schedule_occurrence(&queue.scheduler.recurrence, now);
    let stop = if queue.scheduled_stop_at.is_none() && (queue.status == QueueStatus::Active
        || active > 0) {
        match next {
            Some(t) => Some(t),
            None => Some(now),
        }
    } else {
        queue.scheduled_stop_at
    };
    let occurrence_before_stop = match stop {
        Some(t) => {
            if schedulable(t) {
                current_schedule_occurrence(&queue.scheduler.recurrence, t - 1)
            } else {
                None
            }
        },
        None => None,
    };
    ScheduleView { next_stop: next, occurrence_now, occurrence_before_stop }
}

/// A repeated Start of a scheduled queue keeps the deadline of the run in
/// progress: it never extends a run past its original stop.
pub proof fn law_restart_keeps_running_deadline(queue: Queue, now: int, next: Option<i128>)
    requires
        queue.scheduler.enabled,
        next is Some,
        queue.scheduled_stop_at matches Some(end) && end > now,
    ensures
        prepare_start_spec(queue, now, next) == Ok::<Seq<ControlStepView>, ControlError>(
            seq![ControlStepView::SetScheduledStop(queue.scheduled_stop_at)],
        ),
{
    assert(Seq::<ControlStepView>::empty().push(
        ControlStepView::SetScheduledStop(queue.scheduled_stop_at),
    ) =~= seq![ControlStepView::SetScheduledStop(queue.scheduled_stop_at)]);
}

/// An unscheduled queue is never paused by reconciliation: it only loses any
/// run deadline and, when Start armed it, refills.
pub proof fn law_unscheduled_queue_is_never_paused(
    queue: Queue,
    active: i64,
    suppressed: Option<Seq<char>>,
    now: int,
    next: Option<i128>,
    occurrence_now: Option<Seq<char>>,
    before_stop: Option<Seq<char>>,
)
    requires
        !queue.scheduler.enabled,
    ensures
        reconcile_spec(queue, active, suppressed, now, next, occurrence_now, before_stop) matches Ok(
            steps,
        ) && forall|i: int| 0 <= i < steps.len() ==> !(#[trigger] steps[i] is PauseDownloads),
{
}

/// When the run deadline has passed, reconciliation first pauses the queue
/// and its items, remembers the occurrence that just ended as paused, and
/// does not refill while that same occurrence is still reported open.
pub proof fn law_expired_deadline_stops_without_refill(
    queue: Queue,
    active: i64,
    suppressed: Option<Seq<char>>,
    now: int,
    next: Option<i128>,
    occurrence: Seq<char>,
)
    requires
        queue.scheduler.enabled,
        queue.scheduled_stop_at matches Some(t) && now >= t,
    ensures
        reconcile_spec(queue, active, suppressed, now, next, Some(occurrence), Some(occurrence))
            == Ok::<Seq<ControlStepView>, ControlError>(
            seq![
                ControlStepView::SetQueueStatus(QueueStatus::Paused),
                ControlStepView::PauseDownloads { by_scheduler: true },
                ControlStepView::SetSuppression(Some(occurrence)),
                ControlStepView::SetScheduledStop(None),
                ControlStepView::PauseDownloads { by_scheduler: false },
            ],
        ),
{
    let r = reconcile_spec(queue, active, suppressed, now, next, Some(occurrence), Some(occurrence));
    assert(r.unwrap() =~= seq![
        ControlStepView::SetQueueStatus(QueueStatus::Paused),
        ControlStepView::PauseDownloads { by_scheduler: true },
        ControlStepView::SetSuppression(Some(occurrence)),
        ControlStepView::SetScheduledStop(None),
        ControlStepView::PauseDownloads { by_scheduler: false },
    ]);
}

/// A schedule can be saved when it is off, or, when on, a one-time window
/// ends after it starts and a weekly one has a future stop.
pub open spec fn schedule_acceptable(enabled: bool, recurrence: Recurrence, weekly_stop: Option<i128>) -> bool {
    !enabled || match recurrence {
        Recurrence::Once { start, end } => start < end,
        Recurrence::Weekly { .. } => weekly_stop is Some,
    }
}

pub open spec fn schedule_error_text() -> Seq<char> {
    "schedule needs valid days and a stop after its start"@
}

/// Checks a schedule against the next stop computed for it.
pub fn check_schedule(enabled: bool, recurrence: &Recurrence, weekly_stop: Option<i128>) -> (r: Result<(), String>)
    ensures
        schedule_acceptable(enabled, *recurrence, weekly_stop) ==> r is Ok,
        !schedule_acceptable(enabled, *recurrence, weekly_stop) ==> (r matches Err(e) && e@ == schedule_error_text()),
{
    if !enabled {
        return Ok(());
    }
    let valid = match recurrence {
        Recurrence::Once { start, end } => *start < *end,
        Recurrence::Weekly { .. } => weekly_stop.is_some(),
    };
    if valid {
        Ok(())
    } else {
        Err("schedule needs valid days and a stop after its start".to_owned())
    }
}

/// Checks a schedule before it is stored: a weekly one needs a stop after
/// `now` in the machine's zone (one without days or with equal times has
/// none).
pub fn validate_schedule(enabled: bool, recurrence: &Recurrence, now: i128) -> (r: Result<(), String>)
    requires
        recurrence_valid(*recurrence),
        instant_schedulable(now as int),
    ensures
        !enabled ==> r is Ok,
        enabled && recurrence is Once ==> (r is Ok <==> recurrence->start < recurrence->end),
        enabled && (recurrence matches Recurrence::Weekly { days, start_time, end_time } && (days@.len() == 0
            || start_time == end_time)) ==> (r matches Err(e) && e@ == schedule_error_text()),
        r matches Err(e) ==> e@ == schedule_error_text(),
{
    if !enabled {
        return Ok(());
    }
    let stop = match recurrence {
        Recurrence::Once { .. } => None,
        Recurrence::Weekly { .. } => next_stop(recurrence, now),
    };
    check_schedule(enabled, recurrence, stop)
}

/// Whether a step pauses downloads.
pub open spec fn pauses(s: ControlStepView) -> bool {
    s is PauseDownloads
}

/// A paused scheduled queue outside its window keeps running what was
/// started by hand while a run deadline is in force and not yet passed: no
/// step pauses anything. With no deadline in force, the scheduler pauses
/// the queue's items.
pub proof fn law_closed_window_respects_deadline(
    queue: Queue,
    active: i64,
    suppressed: Option<Seq<char>>,
    now: int,
    next: Option<i128>,
    before_stop: Option<Seq<char>>,
)
    requires
        queue.scheduler.enabled,
        queue.status == QueueStatus::Paused,
    ensures
        deadline_in_force(queue, active, now, next) matches Some(t) && now < t ==> (reconcile_spec(
            queue,
            active,
            suppressed,
            now,
            next,
            None,
            before_stop,
        ) matches Ok(steps) && forall|i: int| 0 <= i < steps.len() ==> !pauses(#[trigger] steps[i])),
        deadline_in_force(queue, active, now, next) is None ==> reconcile_spec(
            queue,
            active,
            suppressed,
            now,
            next,
            None,
            before_stop,
        ) == Ok::<Seq<ControlStepView>, ControlError>(seq![ControlStepView::PauseDownloads { by_scheduler: true }]),
{
    let r = reconcile_spec(queue, active, suppressed, now, next, None, before_stop);
    if deadline_in_force(queue, active, now, next) is None {
        assert(r.unwrap() =~= seq![ControlStepView::PauseDownloads { by_scheduler: true }]);
    }
}

} // verus!
