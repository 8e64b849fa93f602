use ario::client::App;
use ario::clipboard::{links_from_matches, links_in_text, trim_link};
use ario::clock::{Date, TimeOfDay};
use ario::download::{AddDownloadInput, Download, DownloadLiveStatus};
use ario::enums::{DownloadStatus, FileCategory, QueueStatus, SourceType};
use ario::finetune::FineTune;
use ario::overlays::{ModalTab, ToastLevel};
use ario::queue::{Queue, QueueSettings, Scheduler};
use ario::queue_editor::{OnceWindow, QueueModalMode, QueueModalTab};
use ario::schedule::Recurrence;
use ario::torrent_form::{check_torrent_bytes, check_torrent_file, resolve_entry, TorrentFileModalTab};

fn queue(id: i64, name: &str) -> Queue {
    Queue {
        scheduled_stop_at: None,
        id,
        name: name.into(),
        position: id as i32,
        settings: QueueSettings {
            max_concurrent_downloads: 2,
            max_retries: 3,
            retry_wait_seconds: 5,
            default_finetune: FineTune::default(),
        },
        scheduler: Scheduler {
            enabled: false,
            recurrence: Recurrence::Weekly { days: vec![], start_time: TimeOfDay { secs: 0, frac: 0 }, end_time: TimeOfDay { secs: 60, frac: 0 } },
            run_missed_on_startup: false,
        },
        created_at: 0,
        status: QueueStatus::Paused,
    }
}

fn app() -> App {
    let mut app = App::new("http://127.0.0.1:1".into(), false);
    app.queues = vec![queue(1, "Main Queue"), queue(2, "Second")];
    app
}

fn live(id: i64, status: DownloadStatus, queue_id: i64) -> DownloadLiveStatus {
    DownloadLiveStatus {
        download: Download {
            id,
            aria2_gid: None,
            url: "https://example.test/file.iso".into(),
            filename: Some("file.iso".into()),
            destination_path: "/data".into(),
            source_type: SourceType::Http,
            category: FileCategory::Other,
            status,
            paused_by_scheduler: false,
            manually_started: false,
            size: None,
            completed_length: None,
            queue_id,
            position_in_queue: 0,
            finetune: FineTune::default(),
            created_at: 0,
            started_at: None,
            completed_at: None,
        },
        completed_length: 0,
        download_speed: 0,
        eta_seconds: None,
    }
}

fn window() -> OnceWindow {
    OnceWindow {
        start_date: Date { days: 739_500 },
        start_time: TimeOfDay { secs: 36_000, frac: 0 },
        end_date: Date { days: 739_500 },
        end_time: TimeOfDay { secs: 50_400, frac: 0 },
    }
}

#[test]
fn links_are_found_in_text_without_trailing_punctuation() {
    let text = "see https://example.com/a.iso, and (magnet:?xt=urn:btih:abc). also http://x.test/\"";
    assert_eq!(
        links_in_text(text),
        vec![
            "https://example.com/a.iso".to_string(),
            "magnet:?xt=urn:btih:abc".to_string(),
            "http://x.test/".to_string()
        ]
    );
    assert!(links_in_text("nothing here").is_empty());
    assert_eq!(trim_link("http://a.b/c.;:)]}'\""), "http://a.b/c");
    assert_eq!(links_from_matches(&vec!["x.".to_string(), "y".to_string()]), vec!["x".to_string(), "y".to_string()]);
}

#[test]
fn clipboard_import_starts_ticked_on_the_selected_queue() {
    let mut app = app();
    app.open_clipboard_import(vec![], 0);
    assert!(app.modal.is_none());
    assert_eq!(app.toasts.iter().last().unwrap().message, "clipboard is empty");
    app.selected_queue = 2;
    app.open_clipboard_import(vec!["https://a.test/1".into(), "https://a.test/2".into()], 0);
    let m = app.modal.as_ref().unwrap();
    assert_eq!(m.tab, ModalTab::Urls);
    assert_eq!(m.queue_cursor, 1);
    assert!(m.entries.iter().all(|e| e.selected));
}

#[test]
fn clipboard_import_sends_the_ticked_links() {
    let mut app = app();
    app.open_clipboard_import(vec!["https://a.test/1".into(), "https://a.test/2".into(), "https://a.test/3".into()], 0);
    app.modal_move_down();
    app.modal_toggle_selected_url();
    app.modal_adjust_right();
    app.modal_next_tab();
    app.modal_adjust_right();
    let (request, refresh) = app.start_modal_now(0).unwrap();
    assert!(app.modal.is_none());
    assert!(refresh.is_some());
    let urls: Vec<String> = request
        .inputs
        .iter()
        .map(|i| match i {
            AddDownloadInput::Url(u) => u.clone(),
            _ => panic!("not a link"),
        })
        .collect();
    assert_eq!(urls, vec!["https://a.test/1".to_string(), "https://a.test/3".to_string()]);
    assert_eq!(request.queue_id, 2);
    assert_eq!(request.finetune_override.unwrap().connections_per_download, Some(1));
    assert!(request.start_immediately);
}

#[test]
fn clipboard_import_with_nothing_ticked_just_closes() {
    let mut app = app();
    app.open_clipboard_import(vec!["https://a.test/1".into()], 0);
    app.modal_select_none();
    assert!(app.save_modal_for_later(0).is_none());
    assert!(app.modal.is_none());
    app.open_clipboard_import(vec!["https://a.test/1".into()], 0);
    app.modal_select_none();
    app.modal_select_all();
    let (request, _) = app.save_modal_for_later(0).unwrap();
    assert!(!request.start_immediately);
    assert_eq!(request.finetune_override, None);
    assert_eq!(request.queue_id, 1);
}

#[test]
fn completed_downloads_open_and_others_get_the_editor() {
    let mut app = app();
    app.downloads = vec![live(1, DownloadStatus::Completed, 2), live(2, DownloadStatus::Paused, 2)];
    assert_eq!(app.activate_selected_download().as_deref(), Some("/data/file.iso"));
    assert_eq!(app.open_selected_download_folder().as_deref(), Some("/data"));
    assert!(app.download_modal.is_none());
    app.select_next_download();
    assert_eq!(app.activate_selected_download(), None);
    assert_eq!(app.open_selected_download_folder(), None);
    let m = app.download_modal.as_ref().unwrap();
    assert_eq!((m.download_id, m.queue_cursor, m.original_queue_id, m.cursor), (2, 1, 2, 0));
}

#[test]
fn download_editor_cycles_queues_and_saves_a_move() {
    let mut app = app();
    app.downloads = vec![live(7, DownloadStatus::Paused, 2)];
    app.activate_selected_download();
    for _ in 0..10 {
        app.download_modal_move_down();
    }
    assert_eq!(app.download_modal.as_ref().unwrap().cursor, 6);
    app.download_modal_adjust_right();
    assert_eq!(app.download_modal.as_ref().unwrap().queue_cursor, 0);
    app.download_modal_adjust_left();
    app.download_modal_adjust_left();
    assert_eq!(app.download_modal.as_ref().unwrap().queue_cursor, 0);
    app.download_modal_move_up();
    app.download_modal_move_up();
    app.download_modal_move_up();
    app.download_modal_move_up();
    app.download_modal_move_up();
    app.download_modal_move_up();
    app.download_modal_adjust_right();
    let (save, _) = app.save_download_modal(0).unwrap();
    assert_eq!(save.download_id, 7);
    assert_eq!(save.move_to_queue, Some(1));
    assert_eq!(save.finetune.connections_per_download, Some(1));
    assert!(app.download_modal.is_none());
}

#[test]
fn download_editor_without_a_queue_reports_it() {
    let mut app = app();
    app.downloads = vec![live(7, DownloadStatus::Paused, 2)];
    app.activate_selected_download();
    app.queues.clear();
    assert!(app.save_download_modal(0).is_none());
    assert_eq!(app.download_modal.as_ref().unwrap().error.as_deref(), Some("No queue is available"));
}

#[test]
fn normalizes_quoted_and_escaped_paths() {
    assert_eq!(resolve_entry("  '/tmp/a b/x.torrent' ", None), Ok("/tmp/a b/x.torrent".to_string()));
    assert_eq!(resolve_entry("/tmp/a\\ b/x.torrent", None), Ok("/tmp/a b/x.torrent".to_string()));
    assert_eq!(resolve_entry("\"\"", None), Err("enter a .torrent file path".to_string()));
    assert_eq!(resolve_entry("~/t.torrent", Some("/home/u".into())), Ok("/home/u/t.torrent".to_string()));
    assert_eq!(resolve_entry("~/t.torrent", None), Err("home directory is unavailable".to_string()));
}

#[test]
fn rejects_directories_wrong_extensions_and_empty_files() {
    assert_eq!(check_torrent_file("/tmp/dir", false, 10), Err("torrent path must point to a regular file".to_string()));
    assert_eq!(check_torrent_file("/tmp/sample.txt", true, 4), Err("file must have a .torrent extension".to_string()));
    assert_eq!(check_torrent_file("/tmp/empty.torrent", true, 0), Err("torrent file is empty".to_string()));
    assert_eq!(check_torrent_file("/tmp/.torrent", true, 4), Err("file must have a .torrent extension".to_string()));
    assert_eq!(check_torrent_file("/tmp/sample.TORRENT", true, 4), Ok(()));
}

#[test]
fn rejects_torrent_files_over_the_size_limit() {
    assert_eq!(
        check_torrent_file("/tmp/big.torrent", true, 16 * 1024 * 1024 + 1),
        Err("torrent file exceeds the 16 MiB limit".to_string())
    );
    assert_eq!(check_torrent_file("/tmp/big.torrent", true, 16 * 1024 * 1024), Ok(()));
    assert!(check_torrent_bytes(0).is_err());
    assert!(check_torrent_bytes(16 * 1024 * 1024 + 1).is_err());
    assert!(check_torrent_bytes(10).is_ok());
}

#[test]
fn torrent_form_takes_a_checked_path_and_submits() {
    let mut app = app();
    app.open_torrent_file_modal();
    for c in "/tmp/x.torrent".chars() {
        app.torrent_modal_text_input(c);
    }
    app.torrent_modal_text_input('\u{7}');
    app.torrent_modal_text_backspace();
    assert_eq!(app.torrent_modal.as_ref().unwrap().path_input, "/tmp/x.torren");
    app.paste_torrent_path("  /tmp/y.torrent \n");
    assert_eq!(app.torrent_path_entry().as_deref(), Some("/tmp/y.torrent"));
    assert_eq!(app.torrent_modal_commit_path().as_deref(), Some("/tmp/y.torrent"));
    app.torrent_modal_path_checked(Err("cannot open torrent file: /tmp/y.torrent".into()), 0);
    assert_eq!(app.toasts.iter().last().unwrap().level, ToastLevel::Error);
    app.torrent_modal_path_checked(Ok("/real/y.torrent".into()), 0);
    let m = app.torrent_modal.as_ref().unwrap();
    assert!(!m.editing_path);
    assert_eq!(m.resolved_path.as_deref(), Some("/real/y.torrent"));
    app.torrent_modal_adjust_right();
    app.torrent_modal_next_tab();
    assert_eq!(app.torrent_modal.as_ref().unwrap().tab, TorrentFileModalTab::FineTuning);
    let s = app.start_torrent_now(Ok("/real/y.torrent".into()), 0).unwrap();
    assert_eq!(s.path, "/real/y.torrent");
    assert_eq!(s.metadata.queue_id, 2);
    assert_eq!(s.metadata.finetune_override, None);
    assert!(s.metadata.start_immediately);
    assert!(app.torrent_modal.is_none());
    assert_eq!(app.toasts.iter().last().unwrap().message, "adding torrent\u{2026}");
}

#[test]
fn queue_editor_opens_on_the_selected_queue_and_saves() {
    let mut app = app();
    assert!(app.open_edit_queue_modal(window()).is_none());
    app.selected_queue = 2;
    let (id, filter) = app.open_edit_queue_modal(window()).unwrap();
    assert_eq!(id, 2);
    assert_eq!(filter.queue_id, Some(2));
    app.apply_queue_downloads_loaded(2, Ok(vec![live(5, DownloadStatus::Paused, 2), live(6, DownloadStatus::Pending, 2)]));
    assert_eq!(app.queue_modal.as_ref().unwrap().items.len(), 2);
    app.queue_modal_prev_tab();
    assert_eq!(app.queue_modal.as_ref().unwrap().tab, QueueModalTab::DownloadItems);
    app.queue_modal_move_item_down();
    app.queue_modal_start_text_edit();
    assert!(!app.queue_modal.as_ref().unwrap().editing_text);
    match app.save_queue_modal() {
        Some(ario::queue_editor::QueueSaveRequest::Update { queue_id, ordered_ids, request }) => {
            assert_eq!(queue_id, 2);
            assert_eq!(ordered_ids, vec![6, 5]);
            assert_eq!(request.name, "Second");
        }
        other => panic!("unexpected {other:?}"),
    }
    assert!(app.queue_modal.is_none());
}

#[test]
fn queue_editor_keeps_an_unnamed_queue_open_with_an_error() {
    let mut app = app();
    app.open_create_queue_modal(window());
    assert_eq!(app.queue_modal.as_ref().unwrap().mode, QueueModalMode::Create);
    app.queue_modal_start_text_edit();
    app.queue_modal_text_input(' ');
    app.queue_modal_confirm_text_edit();
    assert!(app.save_queue_modal().is_none());
    assert_eq!(app.queue_modal.as_ref().unwrap().error.as_deref(), Some("name can't be empty"));
    app.queue_modal_start_text_edit();
    app.queue_modal_text_backspace();
    app.queue_modal_text_input('Q');
    app.queue_modal_confirm_text_edit();
    assert!(app.save_queue_modal().is_some());
}

#[test]
fn queue_editor_carries_the_queue_settings_into_the_editor_and_back() {
    let mut app = app();
    app.selected_queue = 2;
    let q = app.queues[1].clone();
    app.open_edit_queue_modal(window()).unwrap();
    let m = app.queue_modal.as_ref().unwrap();
    assert_eq!(m.tab, QueueModalTab::Common);
    assert_eq!(m.max_concurrent_downloads, q.settings.max_concurrent_downloads);
    assert_eq!(m.max_retries, q.settings.max_retries);
    assert_eq!(m.retry_wait_seconds, q.settings.retry_wait_seconds);
    assert_eq!(m.finetune, q.settings.default_finetune);
    assert_eq!(m.scheduler_enabled, q.scheduler.enabled);
    assert!(m.error.is_none());
    match app.save_queue_modal() {
        Some(ario::queue_editor::QueueSaveRequest::Update { request, .. }) => {
            assert_eq!(request.max_concurrent_downloads, q.settings.max_concurrent_downloads);
            assert_eq!(request.max_retries, q.settings.max_retries);
            assert_eq!(request.scheduler_enabled, q.scheduler.enabled);
        }
        other => panic!("unexpected {other:?}"),
    }
}
