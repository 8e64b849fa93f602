use ario::deletion::{delete_files_steps, DeleteFilesStep};
use ario::actions::{pause_target, resume_plan, start_error_message, start_in_aria2, Aria2AddCall, ResumeStep, StartError};
use ario::aria2::Aria2AddMode;
use ario::config::Settings;
use ario::deletion::{
    collect_delete_artifacts, deletion_toast, removal_targets, tally_removals, DeleteDownloadFilesResult, FileRemoval,
};
use ario::download::{classify_input, new_download, safe_filename, AddDownloadInput, AddError, Download, DownloadArtifact, DownloadArtifactKind};
use ario::enums::{DownloadStatus, FileCategory, SourceType};
use ario::finetune::FineTune;
use ario::lifecycle::{apply_shutdown_result, forced_shutdown_response, idle_shutdown_response, ExitStep, ShutdownOutcome};
use ario::overlays::ToastLevel;
use ario::panes::{download_action, DownloadAction};
use ario::deletion::held_by_aria2;

fn download(status: DownloadStatus) -> Download {
    Download {
        id: 7,
        aria2_gid: None,
        url: "https://example.test/file.iso".into(),
        filename: Some("file.iso".into()),
        destination_path: "/data".into(),
        source_type: SourceType::Http,
        category: FileCategory::Other,
        status,
        paused_by_scheduler: false,
        manually_started: false,
        size: None,
        completed_length: None,
        queue_id: 1,
        position_in_queue: 0,
        finetune: FineTune::default(),
        created_at: 0,
        started_at: None,
        completed_at: None,
    }
}

#[test]
fn multipart_filenames_are_reduced_to_a_basename() {
    assert_eq!(safe_filename("../../sample.torrent").as_deref(), Some("sample.torrent"));
    assert_eq!(safe_filename(r"C:\Downloads\sample.torrent").as_deref(), Some("sample.torrent"));
    assert_eq!(safe_filename(""), None);
}

#[test]
fn dot_names_are_not_usable_filenames() {
    assert_eq!(safe_filename("dir/.."), None);
    assert_eq!(safe_filename("./"), None);
    assert_eq!(safe_filename("."), None);
}

#[test]
fn urls_are_classified_by_scheme_and_named_after_their_last_piece() {
    let parts = classify_input(AddDownloadInput::Url("https://example.test/a/b/song.mp3".into())).ok().unwrap();
    assert_eq!(parts.source_type, SourceType::Http);
    assert_eq!(parts.filename.as_deref(), Some("song.mp3"));
    assert!(parts.torrent_data.is_none());
    let magnet = classify_input(AddDownloadInput::Url("magnet:?xt=urn:btih:abc".into())).ok().unwrap();
    assert_eq!(magnet.source_type, SourceType::Magnet);
}

#[test]
fn torrent_uploads_are_checked_for_size_and_name() {
    let empty = classify_input(AddDownloadInput::TorrentFile { filename: "a.torrent".into(), data: vec![] });
    assert_eq!(empty.err(), Some(AddError::BadRequest("torrent file must not be empty".into())));
    let big = classify_input(AddDownloadInput::TorrentFile {
        filename: "a.torrent".into(),
        data: vec![0u8; 16 * 1024 * 1024 + 1],
    });
    assert_eq!(big.err(), Some(AddError::PayloadTooLarge("torrent file exceeds the 16777216 byte limit".into())));
    let unnamed = classify_input(AddDownloadInput::TorrentFile { filename: "x/..".into(), data: vec![1] });
    assert_eq!(unnamed.err(), Some(AddError::BadRequest("torrent filename is required".into())));
    let ok = classify_input(AddDownloadInput::TorrentFile { filename: "up/ubuntu.torrent".into(), data: vec![1, 2] })
        .ok()
        .unwrap();
    assert_eq!(ok.source_type, SourceType::Torrent);
    assert_eq!(ok.url, "");
    assert_eq!(ok.filename.as_deref(), Some("ubuntu.torrent"));
    assert_eq!(ok.torrent_data, Some(vec![1, 2]));
}

#[test]
fn new_downloads_go_to_their_category_folder_under_home() {
    let settings = Settings::default();
    let (dl, data) = new_download(
        AddDownloadInput::Url("https://example.test/movie.mkv".into()),
        3,
        4,
        FineTune::default(),
        &settings,
        Some("/home/u".into()),
        99,
    )
    .ok()
    .unwrap();
    assert_eq!(dl.category, FileCategory::Video);
    assert_eq!(dl.destination_path, "/home/u/Downloads/Videos");
    assert_eq!(dl.status, DownloadStatus::Pending);
    assert_eq!((dl.queue_id, dl.position_in_queue, dl.created_at), (3, 4, 99));
    assert!(data.is_none());
    let unknown = new_download(
        AddDownloadInput::Url("https://example.test/x.bin".into()),
        1,
        0,
        FineTune::default(),
        &settings,
        None,
        0,
    );
    assert_eq!(unknown.err(), Some(AddError::Internal("could not determine home directory".into())));
}

#[test]
fn missing_file_result_becomes_a_warning_toast() {
    let (message, level) =
        deletion_toast(Ok(DeleteDownloadFilesResult { removed_payloads: 0, missing_payloads: 1, metadata_complete: true }));
    assert_eq!(level, ToastLevel::Warning);
    assert!(message.contains("already missing"));
}

#[test]
fn fully_removed_result_becomes_a_success_toast() {
    let (message, level) =
        deletion_toast(Ok(DeleteDownloadFilesResult { removed_payloads: 2, missing_payloads: 0, metadata_complete: true }));
    assert_eq!(level, ToastLevel::Success);
    assert_eq!(message, "download removed with 2 file(s)");
}

#[test]
fn incomplete_metadata_warns_that_files_may_remain() {
    let (message, level) =
        deletion_toast(Ok(DeleteDownloadFilesResult { removed_payloads: 1, missing_payloads: 0, metadata_complete: false }));
    assert_eq!(level, ToastLevel::Warning);
    assert_eq!(
        message,
        "download and known files removed; legacy file metadata was incomplete, so untracked files may remain"
    );
    let (message, level) = deletion_toast(Err("boom".into()));
    assert_eq!((message.as_str(), level), ("boom", ToastLevel::Error));
}

fn artifact(path: &str, kind: DownloadArtifactKind) -> DownloadArtifact {
    DownloadArtifact { path: path.into(), kind }
}

#[test]
fn removes_multiple_payloads_and_control_files() {
    let artifacts = vec![
        artifact("/d/first.bin", DownloadArtifactKind::Payload),
        artifact("/d/second.bin", DownloadArtifactKind::Payload),
        artifact("/d/set.aria2", DownloadArtifactKind::Control),
        artifact("/d/first.bin", DownloadArtifactKind::Payload),
    ];
    let (payloads, controls) = removal_targets(&artifacts);
    assert_eq!(payloads, vec!["/d/first.bin".to_string(), "/d/second.bin".to_string()]);
    assert_eq!(controls, vec!["/d/set.aria2".to_string()]);
    let result = tally_removals(&[FileRemoval::Removed, FileRemoval::Removed], true);
    assert_eq!(result.removed_payloads, 2);
    assert_eq!(result.missing_payloads, 0);
    assert!(result.metadata_complete);
}

#[test]
fn missing_payloads_are_non_fatal_and_missing_controls_are_ignored() {
    let result = tally_removals(&[FileRemoval::Missing], false);
    assert_eq!(result.removed_payloads, 0);
    assert_eq!(result.missing_payloads, 1);
    assert!(!result.metadata_complete);
    let nothing_known = tally_removals(&[], true);
    assert_eq!(nothing_known.missing_payloads, 1);
}

#[test]
fn a_started_download_without_records_falls_back_to_its_named_file() {
    let mut dl = download(DownloadStatus::Paused);
    dl.aria2_gid = Some("g".into());
    let (artifacts, complete) = collect_delete_artifacts(vec![], None, &dl);
    assert_eq!(artifacts.len(), 2);
    assert_eq!(artifacts[0].path, "/data/file.iso");
    assert_eq!(artifacts[1].path, "/data/file.iso.aria2");
    assert!(complete);
    let never = download(DownloadStatus::Pending);
    let (artifacts, complete) = collect_delete_artifacts(vec![], None, &never);
    assert!(artifacts.is_empty());
    assert!(!complete);
}

#[test]
fn pause_does_not_issue_a_request_for_non_active_downloads() {
    for status in [
        DownloadStatus::Pending,
        DownloadStatus::Paused,
        DownloadStatus::Error("failed".into()),
        DownloadStatus::Completed,
        DownloadStatus::Removed,
    ] {
        assert_ne!(download_action(&status), DownloadAction::Pause);
    }
    assert_eq!(download_action(&DownloadStatus::Active), DownloadAction::Pause);
}

#[test]
fn resume_does_not_issue_a_request_for_active_downloads() {
    assert_eq!(resume_plan(&DownloadStatus::Active, true), Err(StartError::Conflict));
    assert_eq!(resume_plan(&DownloadStatus::Error("x".into()), true), Ok(ResumeStep::Readd(Aria2AddMode::Retry)));
}

#[test]
fn pausing_needs_an_aria2_entry() {
    let mut dl = download(DownloadStatus::Active);
    assert_eq!(pause_target(&dl), Err(StartError::NotStarted));
    dl.aria2_gid = Some("2089b05ecca3d829".into());
    assert_eq!(pause_target(&dl), Ok("2089b05ecca3d829".to_string()));
}

#[test]
fn legacy_torrent_without_metainfo_has_an_actionable_error() {
    let mut dl = download(DownloadStatus::Pending);
    dl.source_type = SourceType::Torrent;
    let r = start_in_aria2(&dl, None, Aria2AddMode::Fresh);
    assert!(matches!(r, Err(StartError::MissingMetainfo)));
    assert_eq!(start_error_message(StartError::MissingMetainfo), "torrent metainfo is unavailable; add the .torrent file again");
}

#[test]
fn persisted_torrent_is_readded_as_base64() {
    let mut dl = download(DownloadStatus::Pending);
    dl.source_type = SourceType::Torrent;
    let data = b"d4:infoe".to_vec();
    match start_in_aria2(&dl, Some(&data), Aria2AddMode::Fresh) {
        Ok(Aria2AddCall::Torrent { encoded, .. }) => assert_eq!(encoded, "ZDQ6aW5mb2U="),
        _ => panic!("expected a torrent call"),
    }
    match start_in_aria2(&download(DownloadStatus::Pending), None, Aria2AddMode::Fresh) {
        Ok(Aria2AddCall::Uri { url, .. }) => assert_eq!(url, "https://example.test/file.iso"),
        _ => panic!("expected a URI call"),
    }
}

#[test]
fn idle_managed_daemon_commits_shutdown() {
    assert_eq!(idle_shutdown_response(true, 0, 0).outcome, ShutdownOutcome::ShuttingDown);
    assert_eq!(idle_shutdown_response(false, 0, 0).outcome, ShutdownOutcome::NotManaged);
    let kept = idle_shutdown_response(true, 0, 1);
    assert_eq!(kept.outcome, ShutdownOutcome::KeptRunning);
    assert_eq!(kept.scheduled_queues, 1);
}

#[test]
fn force_shutdown_stops_only_a_managed_daemon() {
    let r = forced_shutdown_response(true, 1, 1);
    assert_eq!((r.outcome, r.active_downloads, r.scheduled_queues), (ShutdownOutcome::ShuttingDown, 1, 1));
    assert_eq!(forced_shutdown_response(false, 1, 0).outcome, ShutdownOutcome::NotManaged);
}

#[test]
fn a_shutdown_answer_decides_how_the_client_exits() {
    let answer = idle_shutdown_response(true, 0, 0);
    assert_eq!(apply_shutdown_result(Ok(answer), false, true).0, ExitStep::WaitForShutdown);
}

#[test]
fn only_unfinished_downloads_are_removed_from_aria2_first() {
    assert!(held_by_aria2(&DownloadStatus::Pending));
    assert!(held_by_aria2(&DownloadStatus::Active));
    assert!(held_by_aria2(&DownloadStatus::Paused));
    assert!(!held_by_aria2(&DownloadStatus::Completed));
    assert!(!held_by_aria2(&DownloadStatus::Error("x".into())));
    assert!(!held_by_aria2(&DownloadStatus::Removed));
}

#[test]
fn an_idle_stop_gates_new_work_only_when_it_shuts_down() {
    let idle = idle_shutdown_response(true, 0, 0);
    assert!(ario::lifecycle::stopping_after(false, &idle));
    let busy = idle_shutdown_response(true, 1, 0);
    assert!(!ario::lifecycle::stopping_after(false, &busy));
    assert!(ario::lifecycle::stopping_after(true, &busy));
    let unmanaged = idle_shutdown_response(false, 0, 0);
    assert!(!ario::lifecycle::stopping_after(false, &unmanaged));
}

#[test]
fn deleting_with_files_removes_from_aria2_first_and_the_record_last() {
    let mut running = download(DownloadStatus::Active);
    running.aria2_gid = Some("abc".into());
    let steps = delete_files_steps(&running);
    assert_eq!(steps.len(), 6);
    assert!(matches!(steps[0], DeleteFilesStep::MarkRemoved));
    assert!(matches!(&steps[1], DeleteFilesStep::RemoveFromAria2 { gid, restore } if gid == "abc" && *restore == DownloadStatus::Active));
    assert!(matches!(&steps[2], DeleteFilesStep::ForgetResult { gid } if gid == "abc"));
    assert!(matches!(steps[3], DeleteFilesStep::RemoveFiles));
    assert!(matches!(steps[4], DeleteFilesStep::DeleteRecord));
    assert!(matches!(steps[5], DeleteFilesStep::DropLive));
    let mut done = download(DownloadStatus::Completed);
    done.aria2_gid = Some("abc".into());
    assert_eq!(delete_files_steps(&done).len(), 5);
    let mut never = download(DownloadStatus::Pending);
    never.aria2_gid = None;
    assert_eq!(delete_files_steps(&never).len(), 4);
}
