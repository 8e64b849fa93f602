use ario::enums::{DownloadStatus, FileCategory, QueueStatus};
use ario::glyphs::{parse_glyph_args, parse_glyph_mode, resolve_glyph_mode, GlyphMode, IconSet, TuiConfig};

const MODES: [GlyphMode; 3] = [GlyphMode::NerdFont, GlyphMode::Unicode, GlyphMode::Ascii];
const CATEGORIES: [FileCategory; 6] = [
    FileCategory::Video,
    FileCategory::Music,
    FileCategory::Document,
    FileCategory::Archive,
    FileCategory::Program,
    FileCategory::Other,
];

#[test]
fn glyph_resolution_obeys_precedence() {
    assert_eq!(
        resolve_glyph_mode(
            Some(GlyphMode::Ascii),
            Some("nerd"),
            None,
            None,
            Some("en_US.UTF-8")
        )
        .0,
        GlyphMode::Ascii
    );
    assert_eq!(
        resolve_glyph_mode(None, Some("nerd"), None, None, Some("C")).0,
        GlyphMode::NerdFont
    );
}

#[test]
fn locale_default_distinguishes_utf8() {
    assert_eq!(
        resolve_glyph_mode(None, None, None, None, Some("en_US.UTF-8")).0,
        GlyphMode::NerdFont
    );
    assert_eq!(
        resolve_glyph_mode(None, None, Some("C"), None, Some("en_US.UTF-8")).0,
        GlyphMode::Ascii
    );
}

#[test]
fn invalid_config_warns_and_falls_back() {
    let (mode, warning) = resolve_glyph_mode(None, Some("emoji"), None, None, Some("C.UTF-8"));
    assert_eq!(mode, GlyphMode::NerdFont);
    assert!(warning.unwrap().contains("glyph_mode"));
}

#[test]
fn invalid_config_warning_names_the_value_and_fallback() {
    let (_, warning) = resolve_glyph_mode(None, Some("emoji"), None, Some(""), Some("C"));
    assert_eq!(
        warning.unwrap(),
        "tui.toml: glyph_mode = \"emoji\" is invalid (expected \"nerd\", \"unicode\", or \"ascii\") \u{2014} using Ascii"
    );
}

#[test]
fn every_semantic_icon_is_defined_in_every_mode() {
    let statuses = [
        DownloadStatus::Pending,
        DownloadStatus::Active,
        DownloadStatus::Paused,
        DownloadStatus::Completed,
        DownloadStatus::Error("failure".into()),
        DownloadStatus::Removed,
    ];
    let queue_statuses = [QueueStatus::Active, QueueStatus::Paused];

    for mode in MODES {
        let icons = IconSet::new(mode);
        assert_eq!(icons.glyph_mode(), mode);
        for glyph in std::iter::once(icons.all())
            .chain(CATEGORIES.iter().map(|category| icons.category(category)))
            .chain(statuses.iter().map(|status| icons.download_status(status)))
            .chain(
                queue_statuses
                    .iter()
                    .map(|status| icons.queue_status(status)),
            )
            .chain(std::iter::once(icons.scheduler()))
        {
            assert!(!glyph.is_empty());
            assert_ne!(glyph, "?");
        }
    }
}

#[test]
fn parses_both_cli_forms_and_rejects_bad_values() {
    assert_eq!(
        parse_glyph_args(vec!["--glyphs=nerd".to_string()]).unwrap(),
        Some(GlyphMode::NerdFont)
    );
    assert_eq!(
        parse_glyph_args(vec!["--glyphs".to_string(), "ascii".to_string()]).unwrap(),
        Some(GlyphMode::Ascii)
    );
    assert!(parse_glyph_args(vec!["--glyphs=emoji".to_string()]).is_err());
    assert!(parse_glyph_args(vec!["--glyphs".to_string()]).is_err());
    assert!(parse_glyph_args(vec!["--other".to_string()]).is_err());
}

#[test]
fn glyph_option_may_appear_only_once() {
    let err = parse_glyph_args(vec!["--glyphs=nerd".to_string(), "--glyphs=ascii".to_string()])
        .unwrap_err();
    assert_eq!(err, "--glyphs may only be specified once");
    assert_eq!(parse_glyph_args(Vec::new()).unwrap(), None);
}

#[test]
fn glyph_mode_names_ignore_case_and_spaces() {
    assert_eq!(parse_glyph_mode("  UniCode\t"), Ok(GlyphMode::Unicode));
    assert_eq!(
        parse_glyph_mode("emoji"),
        Err("invalid glyph mode \"emoji\"; expected nerd, unicode, or ascii".to_string())
    );
}

#[test]
fn ellipsis_is_ascii_only_in_ascii_mode() {
    assert_eq!(IconSet::new(GlyphMode::Ascii).ellipsis(), "...");
    assert_eq!(IconSet::new(GlyphMode::Unicode).ellipsis(), "\u{2026}");
}

#[test]
fn client_config_defaults() {
    let c = TuiConfig::default();
    assert_eq!(c.server_url, "http://127.0.0.1:47812");
    assert!(c.auto_start_server);
    assert_eq!(c.theme, "default");
    assert!(c.glyph_mode.is_none());
}

#[test]
fn states_are_drawn_in_their_colours() {
    let theme = ario::theme::Theme::default_dark();
    let icons = IconSet::new(GlyphMode::Unicode);
    assert_eq!(icons.download_status_color(&DownloadStatus::Paused, &theme), theme.status_warning);
    assert_eq!(icons.download_status_color(&DownloadStatus::Completed, &theme), theme.status_ok);
    assert_eq!(icons.download_status_color(&DownloadStatus::Error("x".into()), &theme), theme.status_error);
    assert_eq!(icons.download_status_color(&DownloadStatus::Removed, &theme), theme.text_muted);
    assert_eq!(icons.queue_status_color(&QueueStatus::Paused, &theme), theme.status_warning);
    assert_eq!(icons.queue_status_color(&QueueStatus::Active, &theme), theme.status_ok);
}
