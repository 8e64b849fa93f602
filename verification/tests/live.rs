use ario::enums::DownloadStatus;
use ario::live::{coalesce_completed_length, merge_live_metrics, total_download_speed, LiveStats};
use std::collections::HashMap;

#[test]
fn aria2_zero_keeps_last_known_progress() {
    assert_eq!(coalesce_completed_length(0, Some(42)), 42);
    assert_eq!(coalesce_completed_length(0, Some(0)), 0);
    assert_eq!(coalesce_completed_length(0, None), 0);
    assert_eq!(coalesce_completed_length(80, Some(42)), 80);
    assert_eq!(coalesce_completed_length(80, None), 80);
}

#[test]
fn total_download_speed_sums_active_entries() {
    let mut stats = HashMap::new();
    assert_eq!(total_download_speed(&stats, &[]), 0);
    stats.insert(
        1,
        LiveStats {
            completed_length: 10,
            download_speed: 100,
        },
    );
    stats.insert(
        2,
        LiveStats {
            completed_length: 20,
            download_speed: 250,
        },
    );
    assert_eq!(total_download_speed(&stats, &[1, 2]), 350);
    assert_eq!(total_download_speed(&stats, &[1]), 100);
    assert_eq!(total_download_speed(&stats, &[3]), 0);
}

#[test]
fn repeated_ids_count_each_time() {
    let mut stats = HashMap::new();
    stats.insert(
        7,
        LiveStats {
            completed_length: 0,
            download_speed: 40,
        },
    );
    assert_eq!(total_download_speed(&stats, &[7, 7, 8]), 80);
}

#[test]
fn empty_live_map_uses_persisted_completed_length() {
    let live = merge_live_metrics(&DownloadStatus::Paused, Some(100), Some(42), None);
    assert_eq!(live.completed_length, 42);
    assert_eq!(live.download_speed, 0);
    assert_eq!(live.eta_seconds, None);
}

#[test]
fn live_map_overrides_persisted_completed_length() {
    let sample = LiveStats {
        completed_length: 80,
        download_speed: 10,
    };
    let live = merge_live_metrics(&DownloadStatus::Active, Some(100), Some(42), Some(sample));
    assert_eq!(live.completed_length, 80);
    assert_eq!(live.download_speed, 10);
    assert_eq!(live.eta_seconds, Some(2));
}

#[test]
fn paused_download_suppresses_stale_transfer_metrics() {
    let sample = LiveStats {
        completed_length: 80,
        download_speed: 10,
    };
    let live = merge_live_metrics(&DownloadStatus::Paused, Some(100), Some(42), Some(sample));
    assert_eq!(live.completed_length, 80);
    assert_eq!(live.download_speed, 0);
    assert_eq!(live.eta_seconds, None);
}

#[test]
fn missing_live_and_persisted_progress_defaults_to_zero() {
    let live = merge_live_metrics(&DownloadStatus::Paused, Some(100), None, None);
    assert_eq!(live.completed_length, 0);
    assert_eq!(live.download_speed, 0);
}

#[test]
fn live_zero_does_not_clobber_persisted_completed_length() {
    let sample = LiveStats {
        completed_length: 0,
        download_speed: 0,
    };
    let live = merge_live_metrics(&DownloadStatus::Paused, Some(100), Some(42), Some(sample));
    assert_eq!(live.completed_length, 42);
    assert_eq!(live.download_speed, 0);
}

#[test]
fn eta_needs_a_known_unreached_size() {
    let sample = LiveStats {
        completed_length: 100,
        download_speed: 10,
    };
    let done = merge_live_metrics(&DownloadStatus::Active, Some(100), None, Some(sample));
    assert_eq!(done.eta_seconds, None);
    let unknown = merge_live_metrics(&DownloadStatus::Active, None, None, Some(sample));
    assert_eq!(unknown.eta_seconds, None);
    let partial = merge_live_metrics(&DownloadStatus::Active, Some(135), None, Some(sample));
    assert_eq!(partial.eta_seconds, Some(3));
}
