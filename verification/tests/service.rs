use ario::actions::StartError;
use ario::clock::{TimeOfDay, Weekday};
use ario::control::validate_schedule;
use ario::download::{AddError, Download};
use ario::enums::{DownloadStatus, FileCategory, QueueStatus, SourceType};
use ario::errors::{activity_check, from_add_error, from_start_error, ApiResponse, AppError};
use ario::finetune::FineTune;
use ario::queue::{Queue, QueueSettings, Scheduler};
use ario::refill::{
    is_pausable, is_startable, pause_plan, paused_items_to_authorize, run_deadline_passed, Refill, RefillAction,
};
use ario::rpc::{reply_outcome, rpc_token, Aria2Error, RpcReply};
use ario::schedule::Recurrence;

fn item(id: i64, status: DownloadStatus, gid: Option<&str>) -> Download {
    Download {
        id,
        aria2_gid: gid.map(|g| g.to_string()),
        url: "https://example.test/file.bin".into(),
        filename: None,
        destination_path: "/data".into(),
        source_type: SourceType::Http,
        category: FileCategory::Other,
        status,
        paused_by_scheduler: false,
        manually_started: false,
        size: None,
        completed_length: None,
        queue_id: 1,
        position_in_queue: 0,
        finetune: FineTune::default(),
        created_at: 0,
        started_at: None,
        completed_at: None,
    }
}

fn queue(enabled: bool, stop: Option<i128>) -> Queue {
    Queue {
        scheduled_stop_at: stop,
        id: 1,
        name: "main".into(),
        position: 0,
        settings: QueueSettings {
            max_concurrent_downloads: 2,
            max_retries: 3,
            retry_wait_seconds: 5,
            default_finetune: FineTune::default(),
        },
        scheduler: Scheduler { enabled, recurrence: Recurrence::Once { start: 0, end: 10 }, run_missed_on_startup: false },
        created_at: 0,
        status: QueueStatus::Active,
    }
}

fn message(r: ApiResponse<()>) -> String {
    match r {
        ApiResponse::Error { message } => message,
        ApiResponse::Success { .. } => panic!("expected an error body"),
    }
}

#[test]
fn paused_items_start_only_when_the_scheduler_paused_them_or_the_start_is_explicit() {
    let pending = item(1, DownloadStatus::Pending, None);
    let mut paused = item(2, DownloadStatus::Paused, Some("g2"));
    assert!(is_startable(&pending, false));
    assert!(!is_startable(&paused, false));
    assert!(is_startable(&paused, true));
    paused.paused_by_scheduler = true;
    assert!(is_startable(&paused, false));
    assert!(!is_startable(&item(3, DownloadStatus::Completed, None), true));
}

#[test]
fn manual_starts_survive_a_user_pause_but_not_the_scheduler() {
    let mut running = item(1, DownloadStatus::Active, Some("g1"));
    running.manually_started = true;
    assert!(!is_pausable(&running, false));
    assert!(is_pausable(&running, true));
    assert!(is_pausable(&item(2, DownloadStatus::Active, None), false));
    assert!(!is_pausable(&item(3, DownloadStatus::Paused, None), true));
}

#[test]
fn explicit_start_authorizes_every_paused_item() {
    let items = vec![
        item(1, DownloadStatus::Paused, None),
        item(2, DownloadStatus::Pending, None),
        item(3, DownloadStatus::Paused, Some("g3")),
    ];
    assert_eq!(paused_items_to_authorize(&items, true), vec![1, 3]);
    assert!(paused_items_to_authorize(&items, false).is_empty());
}

#[test]
fn refill_uses_free_places_and_failures_keep_them() {
    let mut r = Refill::new(3, 1);
    assert_eq!((r.initial, r.capacity, r.started), (2, 2, 0));
    assert_eq!(r.next_action(&item(1, DownloadStatus::Paused, Some("g1")), false), RefillAction::Unpause("g1".into()));
    r.record(false);
    assert_eq!((r.capacity, r.started), (2, 0));
    r.record(true);
    assert_eq!(r.next_action(&item(2, DownloadStatus::Pending, None), false), RefillAction::StartFresh);
    assert_eq!(r.next_action(&item(2, DownloadStatus::Pending, None), true), RefillAction::Stop);
    r.record(true);
    assert_eq!((r.capacity, r.started), (0, 2));
    assert_eq!(r.next_action(&item(3, DownloadStatus::Pending, None), false), RefillAction::Stop);
    assert_eq!(Refill::new(1, 4).capacity, 0);
    assert_eq!(Refill::new(2, -1).capacity, 3);
}

#[test]
fn deadlines_count_only_for_scheduled_runs() {
    assert!(run_deadline_passed(&queue(true, Some(10)), 10));
    assert!(!run_deadline_passed(&queue(true, Some(10)), 9));
    assert!(!run_deadline_passed(&queue(false, Some(10)), 20));
    assert!(!run_deadline_passed(&queue(true, None), 20));
}

#[test]
fn scheduler_pauses_store_their_intent_first() {
    let d = item(1, DownloadStatus::Active, Some("g1"));
    let p = pause_plan(&d, true, false);
    assert!(p.store_intent_first && p.paused_by_scheduler && p.clear_manual_start);
    assert_eq!(p.rpc_gid.as_deref(), Some("g1"));
    let q = pause_plan(&item(2, DownloadStatus::Active, None), false, true);
    assert!(!q.store_intent_first && q.paused_by_scheduler && !q.clear_manual_start);
    assert_eq!(q.rpc_gid, None);
    assert!(!pause_plan(&d, false, false).paused_by_scheduler);
}

#[test]
fn rpc_secret_becomes_a_token_parameter() {
    assert_eq!(rpc_token(&Some("s3cret".into())).as_deref(), Some("token:s3cret"));
    assert_eq!(rpc_token(&None), None);
}

#[test]
fn rpc_replies_map_to_results_and_errors() {
    let ok: RpcReply<u32> = RpcReply { error: None, result: Some(5), text: "{}".into() };
    assert_eq!(reply_outcome(ok), Ok(5));
    let err: RpcReply<u32> = RpcReply { error: Some((Some(1), Some("bad gid".into()))), result: None, text: String::new() };
    assert_eq!(reply_outcome(err), Err(Aria2Error::Rpc { code: 1, message: "bad gid".into() }));
    let bare: RpcReply<u32> = RpcReply { error: Some((None, None)), result: Some(1), text: String::new() };
    assert_eq!(reply_outcome(bare), Err(Aria2Error::Rpc { code: 0, message: "unknown aria2 error".into() }));
    let empty: RpcReply<u32> = RpcReply { error: None, result: None, text: "{\"id\":1}".into() };
    assert_eq!(reply_outcome(empty), Err(Aria2Error::UnexpectedResponse("{\"id\":1}".into())));
}

#[test]
fn aria2_errors_read_as_the_daemon_reports_them() {
    assert_eq!(Aria2Error::Http("refused".into()).message(), "aria2 unreachable: refused");
    assert_eq!(Aria2Error::Rpc { code: -7, message: "x".into() }.message(), "aria2 error -7: x");
    assert_eq!(Aria2Error::UnexpectedResponse("[]".into()).message(), "unexpected aria2 response: []");
}

#[test]
fn app_errors_answer_with_their_status_and_message() {
    let cases = vec![
        (AppError::NotFound("no such download".into()), 404, "no such download"),
        (AppError::BadRequest("bad".into()), 400, "bad"),
        (AppError::Database("locked".into()), 500, "locked"),
        (AppError::Internal("boom".into()), 500, "boom"),
        (AppError::PayloadTooLarge("big".into()), 413, "big"),
        (AppError::Conflict("busy".into()), 409, "busy"),
        (AppError::Unavailable("later".into()), 503, "later"),
        (AppError::Aria2(Aria2Error::Http("down".into())), 502, "aria2 unreachable: down"),
    ];
    for (e, status, text) in cases {
        assert_eq!(e.status_code(), status);
        let (s, body) = e.into_response();
        assert_eq!(s, status);
        assert_eq!(message(body), text);
    }
}

#[test]
fn library_errors_become_answers() {
    assert_eq!(from_add_error(AddError::PayloadTooLarge("too big".into())).status_code(), 413);
    assert_eq!(from_add_error(AddError::BadRequest("empty".into())).status_code(), 400);
    assert_eq!(from_add_error(AddError::Internal("no home".into())).status_code(), 500);
    assert_eq!(from_start_error(StartError::Conflict).status_code(), 409);
    assert_eq!(from_start_error(StartError::NotStarted).status_code(), 400);
    assert!(activity_check(false).is_ok());
    match activity_check(true) {
        Err(AppError::Unavailable(m)) => assert_eq!(m, "daemon is shutting down"),
        _ => panic!("a stopping daemon must refuse"),
    }
}

#[test]
fn schedules_need_a_stop_after_their_start() {
    let text = "schedule needs valid days and a stop after its start";
    assert!(validate_schedule(false, &Recurrence::Once { start: 10, end: 5 }, 0).is_ok());
    assert!(validate_schedule(true, &Recurrence::Once { start: 5, end: 10 }, 0).is_ok());
    assert_eq!(validate_schedule(true, &Recurrence::Once { start: 10, end: 10 }, 0), Err(text.to_string()));
    let no_days = Recurrence::Weekly {
        days: vec![],
        start_time: TimeOfDay { secs: 0, frac: 0 },
        end_time: TimeOfDay { secs: 3600, frac: 0 },
    };
    assert_eq!(validate_schedule(true, &no_days, 0), Err(text.to_string()));
    let empty_window = Recurrence::Weekly {
        days: vec![Weekday::Mon],
        start_time: TimeOfDay { secs: 3600, frac: 0 },
        end_time: TimeOfDay { secs: 3600, frac: 0 },
    };
    assert_eq!(validate_schedule(true, &empty_window, 0), Err(text.to_string()));
}
