use ario::enums::{AllocStrategy, DownloadStatus, FileCategory, StreamPieceSelector};
use ario::finetune::FineTune;
use ario::panes::{
    adjust_finetune_field, adjust_opt_u32, adjust_opt_u32_including_zero, aria2_global_label,
    download_action, downloads_rp_hint, filter_indicator_label, server_status, sparkline_bars,
    DownloadAction, Focus, ServerStatus, SPEED_HISTORY_LEN,
};
use ario::enums::{alloc_strategy_label, stream_piece_selector_label};
use ario::supervisor::LifecycleState;
use ario::panes::footer_hint;
use ario::finetune::Aria2GlobalOptions;
use ario::panes::{default_tuning_labels, global_tuning_labels};

#[test]
fn download_actions_match_every_status() {
    assert_eq!(
        download_action(&DownloadStatus::Pending),
        DownloadAction::Start
    );
    assert_eq!(
        download_action(&DownloadStatus::Paused),
        DownloadAction::Resume
    );
    assert_eq!(
        download_action(&DownloadStatus::Active),
        DownloadAction::Pause
    );
    assert_eq!(
        download_action(&DownloadStatus::Error("failed".into())),
        DownloadAction::Retry
    );
    assert_eq!(
        download_action(&DownloadStatus::Completed),
        DownloadAction::Restart
    );
    assert_eq!(
        download_action(&DownloadStatus::Removed),
        DownloadAction::Retry
    );
}

#[test]
fn only_pause_uses_the_p_key() {
    assert_eq!(DownloadAction::Pause.key(), 'p');
    for action in [
        DownloadAction::Start,
        DownloadAction::Resume,
        DownloadAction::Retry,
        DownloadAction::Restart,
    ] {
        assert_eq!(action.key(), 'r');
    }
}

#[test]
fn downloads_rp_hint_matches_each_action() {
    assert_eq!(downloads_rp_hint(None), "");
    assert_eq!(
        downloads_rp_hint(Some(DownloadAction::Start)),
        "   r: start"
    );
    assert_eq!(
        downloads_rp_hint(Some(DownloadAction::Resume)),
        "   r: resume"
    );
    assert_eq!(
        downloads_rp_hint(Some(DownloadAction::Pause)),
        "   p: pause"
    );
    assert_eq!(
        downloads_rp_hint(Some(DownloadAction::Retry)),
        "   r: retry"
    );
    assert_eq!(
        downloads_rp_hint(Some(DownloadAction::Restart)),
        "   r: restart"
    );
}

#[test]
fn global_labels_include_effective_value_or_text_fallback() {
    assert_eq!(aria2_global_label(Some("5".into())), "5 (aria2 global)");
    assert_eq!(aria2_global_label(None), "(aria2 global)");
    assert_eq!(alloc_strategy_label(&AllocStrategy::Prealloc), "prealloc");
    assert_eq!(
        stream_piece_selector_label(&StreamPieceSelector::InOrder),
        "inorder"
    );
}

#[test]
fn sparkline_bars_pad_on_the_left_so_newest_sits_on_the_right() {
    let bars = sparkline_bars(&[1, 2]);
    assert_eq!(bars.len(), SPEED_HISTORY_LEN);
    assert!(bars.iter().take(SPEED_HISTORY_LEN - 2).all(Option::is_none));
    assert_eq!(bars[SPEED_HISTORY_LEN - 2], Some(1));
    assert_eq!(bars[SPEED_HISTORY_LEN - 1], Some(2));
}

#[test]
fn full_history_is_drawn_without_padding() {
    let samples: Vec<u64> = (1..=20).collect();
    let bars = sparkline_bars(&samples);
    assert_eq!(bars.len(), 20);
    assert_eq!(bars[0], Some(1));
    assert!(sparkline_bars(&[]).iter().all(Option::is_none));
}

#[test]
fn optional_retry_values_include_default_zero_and_bounded_values() {
    assert_eq!(adjust_opt_u32_including_zero(None, true, 20), Some(0));
    assert_eq!(adjust_opt_u32_including_zero(Some(0), false, 20), None);
    assert_eq!(adjust_opt_u32_including_zero(Some(20), true, 20), Some(20));
    assert_eq!(adjust_opt_u32_including_zero(Some(1), false, 20), Some(0));
}

#[test]
fn optional_counts_treat_zero_as_unset() {
    assert_eq!(adjust_opt_u32(None, true, 16), Some(1));
    assert_eq!(adjust_opt_u32(Some(16), true, 16), Some(16));
    assert_eq!(adjust_opt_u32(Some(1), false, 16), None);
    assert_eq!(adjust_opt_u32(None, false, 16), None);
}

#[test]
fn tuning_fields_step_and_cycle() {
    let mut f = FineTune::default();
    adjust_finetune_field(&mut f, 2, true);
    assert_eq!(f.alloc_strategy, Some(AllocStrategy::NoAllocation));
    adjust_finetune_field(&mut f, 2, false);
    assert_eq!(f.alloc_strategy, None);
    adjust_finetune_field(&mut f, 2, false);
    assert_eq!(f.alloc_strategy, Some(AllocStrategy::Trunc));
    adjust_finetune_field(&mut f, 3, false);
    assert_eq!(f.stream_piece_selector, Some(StreamPieceSelector::Geom));
    adjust_finetune_field(&mut f, 0, true);
    assert_eq!(f.connections_per_download, Some(1));
    adjust_finetune_field(&mut f, 5, true);
    assert_eq!(f.retry_wait_seconds, Some(0));
    adjust_finetune_field(&mut f, 9, true);
    assert_eq!(f.max_retries, None);
}

#[test]
fn focus_cycles_through_three_panes() {
    assert_eq!(Focus::Queues.next(), Focus::Categories);
    assert_eq!(Focus::Downloads.next(), Focus::Queues);
    assert_eq!(Focus::Queues.prev(), Focus::Downloads);
    assert_eq!(Focus::Categories.prev().next(), Focus::Categories);
}

#[test]
fn managed_server_indicator_follows_lifecycle_and_current_health() {
    assert_eq!(server_status(true, false, &LifecycleState::Starting), ServerStatus::Starting);
    assert_eq!(server_status(true, false, &LifecycleState::Retrying), ServerStatus::Retrying);
    assert_eq!(server_status(true, true, &LifecycleState::Connected), ServerStatus::Up);
    assert_eq!(server_status(true, false, &LifecycleState::Connected), ServerStatus::Down);
    assert_eq!(
        server_status(true, true, &LifecycleState::Failed("x".into())),
        ServerStatus::Failed
    );
    assert_eq!(ServerStatus::Failed.label(), "failed");
}

#[test]
fn unmanaged_server_uses_reachability_and_aria2_stays_separate() {
    assert_eq!(server_status(false, true, &LifecycleState::Starting), ServerStatus::Up);
    assert_eq!(server_status(false, false, &LifecycleState::Connected), ServerStatus::Down);
    assert_eq!(ServerStatus::Up.label(), "up");
    assert_eq!(ServerStatus::Down.label(), "down");
}

#[test]
fn filter_label_names_queue_and_category() {
    assert_eq!(filter_indicator_label(None, None), None);
    assert_eq!(
        filter_indicator_label(Some("Main Queue"), None).as_deref(),
        Some("Filter: Main Queue")
    );
    assert_eq!(
        filter_indicator_label(Some("Main Queue"), Some(FileCategory::Video)).as_deref(),
        Some("Filter: Main Queue \u{b7} Video")
    );
}

#[test]
fn footer_hints_follow_the_focused_pane() {
    assert_eq!(
        footer_hint(Focus::Downloads, 0, Some(DownloadAction::Pause)),
        "1/2/3 or Tab: switch pane   j/k ↑/↓: navigate   Enter: open/edit   f: open folder   p: pause   d: delete   D: delete + files   v: import clipboard   q: quit"
    );
    assert_eq!(
        footer_hint(Focus::Downloads, 0, None),
        "1/2/3 or Tab: switch pane   j/k ↑/↓: navigate   Enter: open/edit   f: open folder   d: delete   D: delete + files   v: import clipboard   q: quit"
    );
    assert!(!footer_hint(Focus::Queues, 0, None).contains("r/p"));
    assert!(footer_hint(Focus::Queues, 2, None).contains("r/p: resume/pause"));
    assert_eq!(
        footer_hint(Focus::Categories, 1, None),
        "1/2/3 or Tab: switch pane   j/k ↑/↓: navigate   v: import clipboard   q: quit"
    );
}

#[test]
fn tuning_labels_show_defaults_or_aria2_globals() {
    let mut f = FineTune::default();
    assert_eq!(default_tuning_labels(&f), ["(default)", "(default)", "(default)", "(default)"]);
    f.connections_per_download = Some(8);
    f.alloc_strategy = Some(AllocStrategy::Falloc);
    assert_eq!(default_tuning_labels(&f), ["8", "(default)", "falloc", "(default)"]);
    let global = Aria2GlobalOptions {
        connections_per_download: Some(5),
        max_connections_per_server: Some(1),
        alloc_strategy: None,
        stream_piece_selector: Some(StreamPieceSelector::InOrder),
    };
    assert_eq!(
        global_tuning_labels(&f, &Some(global)),
        ["8", "1 (aria2 global)", "falloc", "inorder (aria2 global)"]
    );
    assert_eq!(
        global_tuning_labels(&FineTune::default(), &None),
        ["(aria2 global)", "(aria2 global)", "(aria2 global)", "(aria2 global)"]
    );
}
