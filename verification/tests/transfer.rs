use ario::aria2::{Aria2BitTorrent, Aria2BitTorrentInfo, Aria2File, Aria2Status};
use ario::category::CategoryExtensions;
use ario::download::{Download, DownloadArtifactKind};
use ario::enums::{DownloadStatus, FileCategory, SourceType};
use ario::finetune::FineTune;
use ario::live::LiveStats;
use ario::transfer::{plan_poll, poll_target, reconcile_transfer_state, LiveUpdate, PollTarget};

fn status(files: &[&str], dir: &str, torrent_name: Option<&str>) -> Aria2Status {
    Aria2Status {
        gid: "gid".into(),
        status: "active".into(),
        total_length: "2".into(),
        completed_length: "1".into(),
        download_speed: "1".into(),
        error_message: None,
        files: files
            .iter()
            .map(|p| Aria2File {
                path: p.to_string(),
            })
            .collect(),
        dir: dir.into(),
        bittorrent: torrent_name.map(|name| Aria2BitTorrent {
            info: Some(Aria2BitTorrentInfo { name: name.into() }),
        }),
    }
}

fn download(status: DownloadStatus, completed: Option<u64>) -> Download {
    Download {
        id: 1,
        aria2_gid: Some("gid".into()),
        url: "https://example.test/file.bin".into(),
        filename: Some("file.bin".into()),
        destination_path: "/tmp".into(),
        source_type: SourceType::Http,
        category: FileCategory::Other,
        status,
        paused_by_scheduler: false,
        manually_started: false,
        size: Some(100),
        completed_length: completed,
        queue_id: 1,
        position_in_queue: 0,
        finetune: FineTune::default(),
        created_at: 0,
        started_at: None,
        completed_at: None,
    }
}

#[test]
fn parses_multi_file_artifacts_and_top_level_control_file() {
    let s = status(&["/downloads/set/a", "/downloads/set/b"], "/downloads", Some("set"));
    let (payloads, controls) = s.artifact_paths();
    assert_eq!(payloads, vec!["/downloads/set/a", "/downloads/set/b"]);
    assert_eq!(controls, vec!["/downloads/set.aria2"]);
}

#[test]
fn single_files_get_a_control_file_beside_each_payload() {
    let s = status(&["/d/a.iso", "", "/d/b.iso"], "", None);
    let (payloads, controls) = s.artifact_paths();
    assert_eq!(payloads, vec!["/d/a.iso", "/d/b.iso"]);
    assert_eq!(controls, vec!["/d/a.iso.aria2", "/d/b.iso.aria2"]);
}

#[test]
fn late_active_result_does_not_resurrect_a_paused_download() {
    let u = reconcile_transfer_state(
        &DownloadStatus::Active,
        Some(&DownloadStatus::Paused),
        "active",
        20,
        75,
        None,
    );
    assert!(u.status.is_none());
    assert_eq!(u.live, LiveUpdate::Clear);
}

#[test]
fn paused_result_reconciles_status_and_clears_live_speed() {
    let u = reconcile_transfer_state(
        &DownloadStatus::Active,
        Some(&DownloadStatus::Active),
        "paused",
        20,
        0,
        None,
    );
    assert_eq!(u.status, Some(DownloadStatus::Paused));
    assert_eq!(u.live, LiveUpdate::Clear);
}

#[test]
fn late_paused_result_does_not_undo_a_resume() {
    let u = reconcile_transfer_state(
        &DownloadStatus::Paused,
        Some(&DownloadStatus::Active),
        "paused",
        20,
        0,
        None,
    );
    assert!(u.status.is_none());
    assert_eq!(u.live, LiveUpdate::Keep);
}

#[test]
fn active_result_updates_status_and_live_metrics() {
    let u = reconcile_transfer_state(
        &DownloadStatus::Pending,
        Some(&DownloadStatus::Pending),
        "active",
        30,
        80,
        None,
    );
    assert_eq!(u.status, Some(DownloadStatus::Active));
    assert_eq!(
        u.live,
        LiveUpdate::Store(LiveStats {
            completed_length: 30,
            download_speed: 80
        })
    );
}

#[test]
fn terminal_results_clear_live_metrics() {
    for aria2_status in ["complete", "error", "removed"] {
        let u = reconcile_transfer_state(
            &DownloadStatus::Active,
            Some(&DownloadStatus::Active),
            aria2_status,
            20,
            0,
            Some("failure"),
        );
        assert_eq!(u.live, LiveUpdate::Clear);
        assert!(u.clear_manually_started);
    }
    let failed = reconcile_transfer_state(
        &DownloadStatus::Active,
        Some(&DownloadStatus::Active),
        "error",
        0,
        0,
        None,
    );
    assert_eq!(
        failed.status,
        Some(DownloadStatus::Error("aria2 reported an error".into()))
    );
}

#[test]
fn settled_downloads_are_never_changed() {
    let u = reconcile_transfer_state(
        &DownloadStatus::Active,
        Some(&DownloadStatus::Completed),
        "active",
        1,
        1,
        None,
    );
    assert!(u.status.is_none());
    assert_eq!(u.live, LiveUpdate::Keep);
    let gone = reconcile_transfer_state(&DownloadStatus::Active, None, "complete", 1, 1, None);
    assert!(gone.status.is_none());
}

#[test]
fn poll_skips_unstarted_and_clears_settled_downloads() {
    let mut d = download(DownloadStatus::Active, None);
    assert_eq!(poll_target(&d), PollTarget::Query);
    d.status = DownloadStatus::Completed;
    assert_eq!(poll_target(&d), PollTarget::ClearLive);
    d.aria2_gid = None;
    assert_eq!(poll_target(&d), PollTarget::Skip);
}

#[test]
fn poll_plan_records_files_progress_and_resolved_name() {
    let extensions: CategoryExtensions = FileCategory::default_extensions();
    let mut s = status(&["/downloads/movie.MKV"], "/downloads", None);
    s.completed_length = "0".into();
    s.total_length = "900".into();
    s.download_speed = "x".into();
    let plan = plan_poll(&download(DownloadStatus::Active, Some(42)), &s, &extensions);
    let artifacts = plan.artifacts.unwrap();
    assert_eq!(artifacts.len(), 2);
    assert_eq!(artifacts[0].path, "/downloads/movie.MKV");
    assert_eq!(artifacts[0].kind, DownloadArtifactKind::Payload);
    assert_eq!(artifacts[1].path, "/downloads/movie.MKV.aria2");
    assert_eq!(artifacts[1].kind, DownloadArtifactKind::Control);
    assert_eq!(plan.completed_length, 42);
    assert!(!plan.persist_completed_length);
    assert_eq!(plan.download_speed, 0);
    let resolved = plan.resolved.unwrap();
    assert_eq!(resolved.filename, "movie.MKV");
    assert_eq!(resolved.size, Some(900));
    assert_eq!(resolved.category, FileCategory::Video);
}
