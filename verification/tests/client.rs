use ario::api::DeleteQueueOutcome;
use ario::client::{category_at, speed_scale_target, App, CATEGORY_COUNT, SPEED_SAMPLE_INTERVAL_MS};
use ario::client_lists::ConfirmedStep;
use ario::download::{Download, DownloadLiveStatus};
use ario::enums::{AllocStrategy, DownloadStatus, FileCategory, QueueStatus, SourceType, StreamPieceSelector};
use ario::finetune::{Aria2GlobalOptions, FineTune};
use ario::overlays::{PendingConfirmationAction, ToastLevel};
use ario::panes::SPEED_HISTORY_LEN;
use ario::queue::{Queue, QueueSettings, Scheduler};
use ario::schedule::Recurrence;
use ario::supervisor::LifecycleState;
use ario::status_bar::status_bar;
use ario::glyphs::GlyphMode;
use ario::panes::ServerStatus;
use ario::keys::Command;
use ario::panes::Focus;

fn app() -> App {
    App::new("http://127.0.0.1:1".into(), false)
}

fn history(app: &App) -> Vec<u64> {
    app.speed_history.clone()
}

fn queue(id: i64, name: &str) -> Queue {
    Queue {
        scheduled_stop_at: None,
        id,
        name: name.into(),
        position: id as i32,
        settings: QueueSettings {
            max_concurrent_downloads: 1,
            max_retries: 3,
            retry_wait_seconds: 5,
            default_finetune: FineTune::default(),
        },
        scheduler: Scheduler {
            enabled: false,
            recurrence: Recurrence::Once { start: 0, end: 0 },
            run_missed_on_startup: false,
        },
        created_at: 0,
        status: QueueStatus::Paused,
    }
}

fn app_with_queues() -> App {
    let mut app = app();
    app.queues = vec![queue(1, "Main Queue"), queue(2, "Second"), queue(3, "Third")];
    app
}

fn live(id: i64, status: DownloadStatus) -> DownloadLiveStatus {
    DownloadLiveStatus {
        download: Download {
            id,
            aria2_gid: Some("gid".into()),
            url: "https://example.test/file".into(),
            filename: Some("file".into()),
            destination_path: "/tmp".into(),
            source_type: SourceType::Http,
            category: FileCategory::Other,
            status,
            paused_by_scheduler: false,
            manually_started: false,
            size: None,
            completed_length: None,
            queue_id: 2,
            position_in_queue: 0,
            finetune: FineTune::default(),
            created_at: 0,
            started_at: None,
            completed_at: None,
        },
        completed_length: 0,
        download_speed: 0,
        eta_seconds: None,
    }
}

#[test]
fn lifecycle_progress_and_stale_failed_refresh() {
    let mut app = app();
    app.manages_server = true;
    assert_eq!(app.lifecycle, LifecycleState::Starting);
    app.apply_refresh(Err("offline".into()), Err("offline".into()), false, false, 0, 0, None, 0, 0);
    assert!(app.last_error.is_none());
    app.apply_lifecycle(LifecycleState::Retrying);
    app.apply_lifecycle(LifecycleState::Connected);
    let revision = app.lifecycle_revision;
    app.apply_refresh(Ok(vec![]), Ok(vec![]), true, true, 0, 0, None, revision, 0);
    assert!(app.server_reachable);
    app.apply_refresh(Err("old".into()), Err("old".into()), false, false, 0, 0, None, 0, 0);
    assert!(app.server_reachable);
    assert!(app.last_error.is_none());
    app.apply_lifecycle(LifecycleState::Failed("daemon exited".into()));
    assert_eq!(app.last_error.as_deref(), Some("daemon exited"));
    let revision = app.lifecycle_revision;
    app.apply_refresh(Err("offline".into()), Err("offline".into()), false, false, 0, 0, None, revision, 0);
    assert_eq!(app.last_error.as_deref(), Some("daemon exited"));
    let revision = app.lifecycle_revision;
    app.apply_refresh(Ok(vec![]), Ok(vec![]), true, true, 0, 0, None, revision, 0);
    assert_eq!(app.lifecycle, LifecycleState::Connected);
    assert!(app.last_error.is_none());
}

#[test]
fn reachable_refresh_records_speed_history_and_caps_it() {
    let mut app = app();
    app.apply_refresh(Ok(vec![]), Ok(vec![]), true, true, 100, 1, None, 0, 0);
    assert_eq!(app.total_download_speed, 100);
    assert_eq!(history(&app), [100]);

    app.apply_refresh(Ok(vec![]), Ok(vec![]), false, false, 50, 0, None, 0, 1);
    assert_eq!(app.total_download_speed, 0);
    assert_eq!(history(&app), [100]);

    for speed in 1..=SPEED_HISTORY_LEN as u64 {
        app.push_speed_sample(speed);
    }
    assert_eq!(app.speed_history.len(), SPEED_HISTORY_LEN);
    assert_eq!(app.speed_history.first(), Some(&1));
    assert_eq!(app.speed_history.last(), Some(&(SPEED_HISTORY_LEN as u64)));
    app.push_speed_sample(SPEED_HISTORY_LEN as u64 + 1);
    assert_eq!(app.speed_history.len(), SPEED_HISTORY_LEN);
    assert_eq!(app.speed_history.first(), Some(&2));
    assert_eq!(app.speed_history.last(), Some(&(SPEED_HISTORY_LEN as u64 + 1)));
}

#[test]
fn successful_health_refresh_caches_aria2_global_options() {
    let mut app = app();
    let options = Aria2GlobalOptions {
        connections_per_download: Some(5),
        max_connections_per_server: Some(1),
        alloc_strategy: Some(AllocStrategy::Prealloc),
        stream_piece_selector: Some(StreamPieceSelector::Default),
    };
    app.apply_refresh(Ok(vec![]), Ok(vec![]), true, true, 0, 0, Some(options), 0, 0);
    assert_eq!(app.aria2_global_options, Some(options));
}

#[test]
fn reachable_refresh_throttles_speed_samples() {
    let mut app = app();
    app.apply_refresh(Ok(vec![]), Ok(vec![]), true, true, 100, 1, None, 0, 10_000);
    app.apply_refresh(Ok(vec![]), Ok(vec![]), true, true, 200, 1, None, 0, 10_500);
    assert_eq!(app.total_download_speed, 200);
    assert_eq!(app.displayed_download_speed(), 125);
    assert_eq!(history(&app), [100]);

    app.apply_refresh(Ok(vec![]), Ok(vec![]), true, true, 300, 1, None, 0, 10_000 + SPEED_SAMPLE_INTERVAL_MS);
    assert_eq!(app.displayed_download_speed(), 168);
    assert_eq!(history(&app), [100, 300]);
}

#[test]
fn active_zero_speed_stays_smoothed_but_idle_resets_immediately() {
    let mut app = app();
    app.apply_refresh(Ok(vec![]), Ok(vec![]), true, true, 100, 1, None, 0, 0);
    app.apply_refresh(Ok(vec![]), Ok(vec![]), true, true, 0, 1, None, 0, 0);
    assert_eq!(app.total_download_speed, 0);
    assert_eq!(app.displayed_download_speed(), 75);

    app.apply_refresh(Ok(vec![]), Ok(vec![]), true, true, 100, 0, None, 0, 0);
    assert_eq!(app.total_download_speed, 0);
    assert_eq!(app.displayed_download_speed(), 0);
    assert_eq!(app.active_downloads, 0);
}

#[test]
fn speed_chart_uses_twenty_percent_headroom_and_decays_gradually() {
    assert_eq!(speed_scale_target(&vec![]), 1);
    assert_eq!(speed_scale_target(&vec![1]), 2);
    assert_eq!(speed_scale_target(&vec![100]), 120);
    assert_eq!(speed_scale_target(&vec![u64::MAX]), u64::MAX);

    let mut app = app();
    app.push_speed_sample(100);
    assert_eq!(app.speed_chart_max(), 120);

    app.speed_history.clear();
    app.push_speed_sample(0);
    assert_eq!(app.speed_chart_max(), 108);
    app.speed_history.clear();
    app.push_speed_sample(0);
    assert_eq!(app.speed_chart_max(), 97);
}

#[test]
fn server_going_down_is_announced_when_not_supervised() {
    let mut app = app();
    app.apply_refresh(Ok(vec![]), Ok(vec![]), true, true, 0, 0, None, 0, 0);
    app.apply_refresh(Err("refused".into()), Err("refused".into()), false, false, 0, 0, None, 0, 1);
    let last = app.toasts.iter().last().unwrap();
    assert_eq!(last.message, "server is down");
    assert_eq!(last.level, ToastLevel::Error);
    assert_eq!(app.last_error.as_deref(), Some("can't reach server: refused"));
}

#[test]
fn listing_keeps_the_selection_on_the_list() {
    let mut app = app();
    app.selected_download = 5;
    app.apply_refresh(
        Ok(vec![live(1, DownloadStatus::Active), live(2, DownloadStatus::Paused)]),
        Ok(vec![]),
        true,
        true,
        0,
        0,
        None,
        0,
        0,
    );
    assert_eq!(app.selected_download, 1);
    app.apply_refresh(Ok(vec![]), Ok(vec![]), true, true, 0, 0, None, 0, 0);
    assert_eq!(app.selected_download, 0);
}

#[test]
fn refresh_is_not_doubled_while_one_is_under_way() {
    let mut app = app_with_queues();
    app.selected_queue = 2;
    app.selected_category = 5;
    let first = app.refresh(0).unwrap();
    assert_eq!(first.filter.queue_id, Some(2));
    assert_eq!(first.filter.category, Some(FileCategory::Program));
    assert!(app.refresh(0).is_none());
    app.apply_refresh(Ok(vec![]), Ok(vec![]), true, true, 0, 0, None, 0, 0);
    assert!(app.refresh(0).is_some());
}

#[test]
fn program_category_is_available_as_a_filter() {
    let mut app = app();
    let row = (0..CATEGORY_COUNT).position(|i| category_at(i) == Some(FileCategory::Program)).unwrap() + 1;
    app.selected_category = row;
    assert_eq!(app.current_filter().category, Some(FileCategory::Program));
}

#[test]
fn all_and_main_queue_are_not_deletable() {
    let mut app = app_with_queues();
    assert!(!app.can_delete_selected_queue());
    assert!(app.request_delete_selected_queue().is_none());
    app.selected_queue = 1;
    assert!(!app.can_delete_selected_queue());
    assert!(app.request_delete_selected_queue().is_none());
    app.selected_queue = 2;
    let d = app.request_delete_selected_queue().unwrap();
    assert_eq!((d.queue_id, d.queue_name.as_str(), d.delete_downloads), (2, "Second", false));
}

#[test]
fn populated_queue_result_opens_confirmation_with_retention_copy() {
    let mut app = app_with_queues();
    app.apply_queue_delete_result(2, "Second".into(), Ok(DeleteQueueOutcome::NeedsConfirmation), 0);
    let modal = app.confirmation_modal.as_ref().unwrap();
    assert_eq!(modal.title, "Remove queue?");
    assert!(modal.message.contains("Second"));
    assert!(modal.message.contains("Downloaded files will be kept"));
    assert_eq!(app.pending_confirmation_action, Some(PendingConfirmationAction::DeleteQueue { queue_id: 2 }));

    app.cancel_confirmation();
    assert!(app.confirmation_modal.is_none());
    assert_eq!(app.queues.len(), 3);
}

#[test]
fn confirming_a_queue_prompt_deletes_it_with_its_downloads() {
    let mut app = app_with_queues();
    app.apply_queue_delete_result(3, "Third".into(), Ok(DeleteQueueOutcome::NeedsConfirmation), 0);
    match app.confirm_confirmation() {
        Some(ConfirmedStep::DeleteQueue(d)) => {
            assert_eq!((d.queue_id, d.queue_name.as_str(), d.delete_downloads), (3, "Third", true));
        }
        other => panic!("unexpected {other:?}"),
    }
    assert!(app.confirmation_modal.is_none());
    assert!(app.pending_confirmation_action.is_none());
}

#[test]
fn successful_delete_selects_the_next_queue_or_previous_at_end() {
    let mut app = app_with_queues();
    app.selected_queue = 2;
    app.apply_queue_delete_result(2, "Second".into(), Ok(DeleteQueueOutcome::Deleted), 0);
    assert_eq!(app.queues.iter().map(|queue| queue.id).collect::<Vec<_>>(), vec![1, 3]);
    assert_eq!(app.current_queue().map(|queue| queue.id), Some(3));
    assert!(app.toasts.iter().iter().any(|toast| toast.level == ToastLevel::Success && toast.message.contains("Second")));

    app.selected_queue = 2;
    app.apply_queue_delete_result(3, "Third".into(), Ok(DeleteQueueOutcome::Deleted), 0);
    assert_eq!(app.current_queue().map(|queue| queue.id), Some(1));
}

#[test]
fn deleting_another_queue_keeps_the_selected_one() {
    let mut app = app_with_queues();
    app.selected_queue = 3;
    app.apply_queue_delete_result(2, "Second".into(), Ok(DeleteQueueOutcome::Deleted), 0);
    assert_eq!(app.current_queue().map(|queue| queue.id), Some(3));
    assert_eq!(app.selected_queue, 2);
}

#[test]
fn delete_error_is_shown_as_a_toast() {
    let mut app = app_with_queues();
    app.apply_queue_delete_result(2, "Second".into(), Err("boom".into()), 0);
    assert!(app.toasts.iter().iter().any(|toast| toast.level == ToastLevel::Error && toast.message == "boom"));
}

#[test]
fn queue_list_selection_stays_on_the_rows() {
    let mut app = app_with_queues();
    for _ in 0..10 {
        app.select_next_queue(0);
    }
    assert_eq!(app.selected_queue, 3);
    for _ in 0..10 {
        app.select_prev_queue(0);
    }
    assert_eq!(app.selected_queue, 0);
    assert_eq!(app.remove_completed_downloads(), Some(None));
    assert_eq!(app.resume_selected_queue(), None);
    app.selected_queue = 2;
    assert_eq!(app.remove_completed_downloads(), Some(Some(2)));
    assert_eq!(app.pause_selected_queue(), Some(2));
    app.selected_queue = 9;
    assert_eq!(app.remove_completed_downloads(), None);
}

#[test]
fn pause_and_resume_go_by_the_selected_download_action() {
    let mut app = app();
    app.downloads = vec![live(1, DownloadStatus::Active), live(2, DownloadStatus::Paused)];
    assert_eq!(app.pause_selected(), Some(1));
    assert_eq!(app.resume_selected(), None);
    app.select_next_download();
    app.select_next_download();
    assert_eq!(app.selected_download, 1);
    assert_eq!(app.pause_selected(), None);
    assert_eq!(app.resume_selected(), Some(2));
    assert_eq!(app.delete_selected(), Some(2));
}

#[test]
fn deleting_files_asks_first() {
    let mut app = app();
    app.downloads = vec![live(4, DownloadStatus::Completed)];
    app.request_delete_selected_files();
    assert!(app.confirmation_modal.is_some());
    assert_eq!(app.pending_confirmation_action, Some(PendingConfirmationAction::DeleteDownloadFiles { download_id: 4 }));
    match app.confirm_confirmation() {
        Some(ConfirmedStep::DeleteDownloadFiles { download_id }) => assert_eq!(download_id, 4),
        other => panic!("unexpected {other:?}"),
    }
}

#[test]
fn help_opens_only_on_the_main_screen() {
    let mut app = app();
    app.open_help_modal();
    assert!(app.help_modal.is_some());
    let mut busy = app_with_queues();
    busy.downloads = vec![live(4, DownloadStatus::Completed)];
    busy.request_delete_selected_files();
    busy.open_help_modal();
    assert!(busy.help_modal.is_none());
}

#[test]
fn key_context_reflects_open_overlays_and_help_commands_apply() {
    let mut a = app();
    let ctx = a.key_context();
    assert!(!ctx.confirmation_open && ctx.help.is_none() && ctx.queue_modal.is_none() && ctx.clipboard.is_none());
    assert!(!ctx.download_modal_open);
    assert_eq!(ctx.focus, Focus::Downloads);
    a.open_help_modal();
    assert_eq!(a.key_context().help, Some(false));
    a.apply_help(Command::HelpStartSearch);
    assert_eq!(a.key_context().help, Some(true));
    a.apply_help(Command::HelpType('x'));
    assert_eq!(a.help_modal.as_ref().unwrap().query, "x");
    a.apply_help(Command::CloseHelp);
    assert!(a.help_modal.is_none());
    a.apply_help(Command::HelpTop);
    assert!(a.help_modal.is_none());
}

#[test]
fn idle_status_bar_hides_the_speed_cluster_and_keeps_the_error() {
    let mut app = App::new("http://127.0.0.1:1".into(), false);
    app.server_reachable = true;
    app.last_error = Some("can't reach server: connection refused".into());
    let bar = status_bar(&app, GlyphMode::Unicode);
    assert_eq!(bar.server, ServerStatus::Up);
    assert!(!bar.aria2_up);
    assert_eq!(bar.error.as_deref(), Some("can't reach server: connection refused"));
    assert!(bar.speed.is_none());
    assert!(!bar.sparkline);
    app.active_downloads = 1;
    app.total_download_speed = 1024;
    let busy = status_bar(&app, GlyphMode::Unicode);
    assert_eq!(busy.speed.as_deref(), Some("1.0 KB/s "));
    assert!(busy.sparkline);
    assert!(!status_bar(&app, GlyphMode::Ascii).sparkline);
}
