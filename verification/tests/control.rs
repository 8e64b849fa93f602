use ario::control::{prepare_start_steps, reconcile_steps, ControlError, ControlStep, ScheduleView};
use ario::enums::QueueStatus;
use ario::finetune::FineTune;
use ario::queue::{Queue, QueueSettings, Scheduler};
use ario::schedule::Recurrence;

const NOW: i128 = 1_000_000;

fn queue(status: QueueStatus, enabled: bool, stop: Option<i128>) -> Queue {
    Queue {
        scheduled_stop_at: stop,
        id: 7,
        name: "nightly".into(),
        position: 0,
        settings: QueueSettings {
            max_concurrent_downloads: 2,
            max_retries: 3,
            retry_wait_seconds: 5,
            default_finetune: FineTune::default(),
        },
        scheduler: Scheduler {
            enabled,
            recurrence: Recurrence::Once { start: 0, end: 2 * NOW },
            run_missed_on_startup: false,
        },
        created_at: 0,
        status,
    }
}

fn view(next: Option<i128>, now_key: Option<&str>, before_key: Option<&str>) -> ScheduleView {
    ScheduleView {
        next_stop: next,
        occurrence_now: now_key.map(|s| s.to_string()),
        occurrence_before_stop: before_key.map(|s| s.to_string()),
    }
}

#[test]
fn start_without_schedule_clears_the_deadline() {
    let steps = prepare_start_steps(&queue(QueueStatus::Paused, false, Some(NOW + 5)), NOW, Some(NOW + 9)).unwrap();
    assert_eq!(steps.len(), 1);
    assert!(matches!(steps[0], ControlStep::SetScheduledStop(None)));
}

#[test]
fn start_with_schedule_needs_a_future_stop() {
    let r = prepare_start_steps(&queue(QueueStatus::Paused, true, None), NOW, None);
    assert!(matches!(r, Err(ControlError::NoFutureStop)));
}

#[test]
fn repeated_start_keeps_the_original_deadline() {
    let steps = prepare_start_steps(&queue(QueueStatus::Active, true, Some(NOW + 5)), NOW, Some(NOW + 9)).unwrap();
    assert_eq!(steps.len(), 1);
    assert!(matches!(steps[0], ControlStep::SetScheduledStop(Some(t)) if t == NOW + 5));
}

#[test]
fn start_after_an_expired_run_stops_it_first() {
    let steps = prepare_start_steps(&queue(QueueStatus::Active, true, Some(NOW)), NOW, Some(NOW + 9)).unwrap();
    assert_eq!(steps.len(), 3);
    assert!(matches!(steps[0], ControlStep::SetQueueStatus(QueueStatus::Paused)));
    assert!(matches!(steps[1], ControlStep::PauseDownloads { by_scheduler: true }));
    assert!(matches!(steps[2], ControlStep::SetScheduledStop(Some(t)) if t == NOW + 9));
}

#[test]
fn reconcile_without_schedule_restarts_an_active_queue() {
    let v = view(None, None, None);
    let steps = reconcile_steps(&queue(QueueStatus::Active, false, Some(NOW)), 0, &None, NOW, &v).unwrap();
    assert_eq!(steps.len(), 2);
    assert!(matches!(steps[0], ControlStep::SetScheduledStop(None)));
    assert!(matches!(steps[1], ControlStep::StartEligible { explicit: false }));
    let paused = reconcile_steps(&queue(QueueStatus::Paused, false, None), 0, &None, NOW, &v).unwrap();
    assert_eq!(paused.len(), 1);
}

#[test]
fn reconcile_in_an_open_window_starts_and_arms_the_deadline() {
    let v = view(Some(NOW + 50), Some("w1"), None);
    let steps = reconcile_steps(&queue(QueueStatus::Active, true, None), 0, &None, NOW, &v).unwrap();
    assert_eq!(steps.len(), 2);
    assert!(matches!(steps[0], ControlStep::SetScheduledStop(Some(t)) if t == NOW + 50));
    assert!(matches!(steps[1], ControlStep::StartEligible { explicit: false }));
}

#[test]
fn reconcile_keeps_a_user_pause_for_the_same_occurrence() {
    let v = view(Some(NOW + 50), Some("w1"), None);
    let suppressed = Some("w1".to_string());
    let steps = reconcile_steps(&queue(QueueStatus::Paused, true, None), 0, &suppressed, NOW, &v).unwrap();
    assert_eq!(steps.len(), 1);
    assert!(matches!(steps[0], ControlStep::PauseDownloads { by_scheduler: false }));
}

#[test]
fn reconcile_reopens_a_new_occurrence_and_clears_the_pause() {
    let v = view(Some(NOW + 50), Some("w2"), None);
    let suppressed = Some("w1".to_string());
    let steps = reconcile_steps(&queue(QueueStatus::Paused, true, None), 0, &suppressed, NOW, &v).unwrap();
    assert_eq!(steps.len(), 3);
    assert!(matches!(steps[0], ControlStep::SetSuppression(None)));
    assert!(matches!(steps[1], ControlStep::SetScheduledStop(Some(t)) if t == NOW + 50));
    assert!(matches!(steps[2], ControlStep::StartEligible { explicit: false }));
}

#[test]
fn reconcile_in_a_closed_window_pauses_by_scheduler() {
    let v = view(Some(NOW + 50), None, None);
    let steps = reconcile_steps(&queue(QueueStatus::Paused, true, None), 0, &None, NOW, &v).unwrap();
    assert_eq!(steps.len(), 1);
    assert!(matches!(steps[0], ControlStep::PauseDownloads { by_scheduler: true }));
}

#[test]
fn reconcile_after_the_deadline_pauses_and_remembers_the_occurrence() {
    let v = view(Some(NOW + 50), None, Some("w1"));
    let steps = reconcile_steps(&queue(QueueStatus::Active, true, Some(NOW - 1)), 1, &None, NOW, &v).unwrap();
    assert_eq!(steps.len(), 5);
    assert!(matches!(steps[0], ControlStep::SetQueueStatus(QueueStatus::Paused)));
    assert!(matches!(steps[1], ControlStep::PauseDownloads { by_scheduler: true }));
    assert!(matches!(&steps[2], ControlStep::SetSuppression(Some(k)) if k == "w1"));
    assert!(matches!(steps[3], ControlStep::SetScheduledStop(None)));
    assert!(matches!(steps[4], ControlStep::PauseDownloads { by_scheduler: true }));
}

#[test]
fn reconcile_open_window_without_future_stop_fails() {
    let v = view(None, Some("w1"), None);
    let r = reconcile_steps(&queue(QueueStatus::Paused, true, None), 0, &None, NOW, &v);
    assert!(matches!(r, Err(ControlError::NoFutureStop)));
}
