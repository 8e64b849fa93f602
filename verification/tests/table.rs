use ario::table::{column_widths, detail_lines, middle_truncate, wrap_name};
use unicode_segmentation::UnicodeSegmentation;
use unicode_width::UnicodeWidthStr;
use ario::download::{Download, DownloadLiveStatus};
use ario::enums::{FileCategory, SourceType};
use ario::table::name_cell;
use ario::enums::DownloadStatus;
use ario::table::metric_cells;

#[test]
fn middle_truncation_preserves_suffixes_and_graphemes() {
    for marker in ["…", "..."] {
        assert_eq!(middle_truncate("short.rar", 9, marker), "short.rar");
        for suffix in ["part03.rar", ".r01", ".7z.003"] {
            let name = format!("Very.Long.Series.And.Episode.Name.{suffix}");
            let shortened = middle_truncate(&name, 25, marker);
            assert!(shortened.starts_with("Very.Long"));
            assert!(shortened.ends_with(suffix));
            assert!(shortened.contains(marker));
            assert!(shortened.width() <= 25);
        }
        let text = "界e\u{301}👩‍💻long filename with spaces界e\u{301}.rar";
        for width in 0..text.width() {
            let short = middle_truncate(text, width, marker);
            assert!(short.width() <= width);
            for grapheme in short.graphemes(true) {
                assert!(
                    text.graphemes(true).any(|g| g == grapheme) || marker.contains(grapheme)
                );
            }
        }
    }
}

#[test]
fn wrapping_keeps_spaces_and_caps_details_with_suffix_visible() {
    let text = "file  with   spaces.part03.rar";
    assert_eq!(wrap_name(text, 8).concat(), text);
    let short = detail_lines(&"界".repeat(100), 7, 3, "…");
    assert!(short.len() <= 3);
    assert!(short.iter().all(|s| s.width() <= 7));
    let short = detail_lines(&format!("{}.part03.rar", "long".repeat(50)), 20, 2, "…");
    assert_eq!(short.len(), 2);
    assert!(short.concat().contains('…'));
    assert!(short.concat().ends_with(".part03.rar"));
    assert!(detail_lines(text, 0, 3, "…").is_empty());
    assert!(detail_lines(text, 20, 0, "…").is_empty());
}

#[test]
fn responsive_layout_preserves_name_space_and_handles_tiny_terminals() {
    assert_eq!(column_widths(56), vec![12, 9, 10, 12, 9]);
    assert_eq!(column_widths(55), vec![21, 9, 10, 12]);
    assert_eq!(column_widths(45), vec![24, 9, 10]);
    assert_eq!(column_widths(32), vec![22, 9]);
    assert_eq!(column_widths(9), vec![0, 8]);
    assert_eq!(column_widths(0), vec![0, 0]);
    assert_eq!(column_widths(10), vec![0, 9]);
}

#[test]
fn too_wide_graphemes_become_question_marks() {
    assert_eq!(wrap_name("界a", 1), vec!["?", "a"]);
    assert_eq!(wrap_name("abc", 0), Vec::<String>::new());
    assert_eq!(wrap_name("", 4), vec![""]);
}

fn live(status: ario::enums::DownloadStatus, size: Option<u64>, speed: u64, eta: Option<u64>) -> ario::download::DownloadLiveStatus {
    DownloadLiveStatus {
        download: Download {
            id: 1,
            aria2_gid: None,
            url: "https://example.test/a.iso".into(),
            filename: Some("a.iso".into()),
            destination_path: "/d".into(),
            source_type: SourceType::Http,
            category: FileCategory::Other,
            status,
            paused_by_scheduler: false,
            manually_started: false,
            size,
            completed_length: None,
            queue_id: 1,
            position_in_queue: 0,
            finetune: ario::finetune::FineTune::default(),
            created_at: 0,
            started_at: None,
            completed_at: None,
        },
        completed_length: 0,
        download_speed: speed,
        eta_seconds: eta,
    }
}

#[test]
fn name_cells_keep_the_glyph_and_shorten_the_name() {
    assert_eq!(name_cell("V ", "movie.mkv", 20, "…"), "V movie.mkv");
    assert_eq!(name_cell("V ", "abcdefghij.mkv", 9, "…"), "V abc…mkv");
    assert_eq!(name_cell("V ", "movie.mkv", 1, "…"), "…");
}

#[test]
fn metric_cells_hide_speed_and_time_of_finished_downloads() {
    assert_eq!(
        metric_cells(&live(DownloadStatus::Active, Some(2048), 1024, Some(65))),
        ("2.0 KB".to_string(), "1.0 KB/s".to_string(), "1m5s".to_string())
    );
    assert_eq!(
        metric_cells(&live(DownloadStatus::Completed, Some(2048), 1024, Some(65))),
        ("2.0 KB".to_string(), "-".to_string(), "-".to_string())
    );
    assert_eq!(
        metric_cells(&live(DownloadStatus::Pending, None, 0, None)),
        ("-".to_string(), "-".to_string(), "-".to_string())
    );
}

#[test]
fn truncation_wrapping_and_details_keep_their_bounds() {
    let text = "Very.Long.Series.And.Episode.Name.part03.rar";
    let cut = middle_truncate(text, 25, "…");
    assert!(cut.width() <= 25);
    assert!(cut.starts_with("Very.Long"));
    assert!(cut.ends_with("part03.rar"));
    assert_eq!(middle_truncate("short", 25, "…"), "short");
    let spaced = "file  with   spaces.part03.rar";
    let lines = wrap_name(spaced, 8);
    assert!(!lines.is_empty());
    assert_eq!(lines.concat(), spaced);
    assert!(lines.iter().all(|l| l.width() <= 8));
    assert!(wrap_name(spaced, 0).is_empty());
    let long = format!("{}.part03.rar", "long".repeat(50));
    let details = detail_lines(&long, 20, 2, "…");
    assert!(details.len() <= 2);
    assert!(details.iter().all(|l| l.width() <= 20));
    assert!(details.concat().contains('…'));
    assert!(details.concat().ends_with(".part03.rar"));
    assert!(detail_lines(&long, 0, 2, "…").is_empty());
    assert!(detail_lines(&long, 20, 0, "…").is_empty());
}
