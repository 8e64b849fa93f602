use ario::theme::{parse_hex, validate, CustomTheme, Flavor, Theme, ThemeColor};

fn hex(s: &str) -> Option<ThemeColor> {
    parse_hex(&Some(s.to_string()))
}

#[test]
fn hex_values_parse_with_or_without_a_hash() {
    assert_eq!(hex("#89b4fa"), Some(ThemeColor::Rgb(0x89, 0xb4, 0xfa)));
    assert_eq!(hex("89B4FA"), Some(ThemeColor::Rgb(0x89, 0xb4, 0xfa)));
    assert_eq!(hex("  #000000  "), Some(ThemeColor::Rgb(0, 0, 0)));
}

#[test]
fn malformed_hex_values_are_refused() {
    assert_eq!(parse_hex(&None), None);
    assert_eq!(hex(""), None);
    assert_eq!(hex("#89b4f"), None);
    assert_eq!(hex("#89b4fa0"), None);
    assert_eq!(hex("#89b4fg"), None);
    assert_eq!(hex("#-9b4fa"), None);
    assert_eq!(hex("#é9b4fa"), None);
    assert_eq!(hex("+f+f+f"), None);
    assert_eq!(hex("##ff0000"), None);
    assert_eq!(hex("#+9b4fa"), None);
    assert_eq!(hex("ééé"), None);
    assert_eq!(hex("aéb4fa"), None);
}

#[test]
fn theme_names_pick_catppuccin_flavours_in_any_case() {
    let mocha = Theme::from_name("Catppuccin-Mocha");
    assert_eq!(mocha, Theme::from_catppuccin(Flavor::Mocha));
    assert_eq!(mocha.foreground, ThemeColor::Rgb(205, 214, 244));
    assert_eq!(mocha.selected_fg, ThemeColor::Rgb(30, 30, 46));
    assert_eq!(Theme::from_name("catppuccin-frappé"), Theme::from_catppuccin(Flavor::Frappe));
    assert_eq!(Theme::from_name("catppuccin-frappe"), Theme::from_catppuccin(Flavor::Frappe));
    assert_eq!(Theme::from_name("catppuccin-latte"), Theme::from_catppuccin(Flavor::Latte));
    assert_eq!(Theme::from_name("dark"), Theme::default_dark());
    assert_eq!(Theme::from_name("unknown"), Theme::default_dark());
}

#[test]
fn overrides_replace_only_valid_colours() {
    let mut o = CustomTheme::default();
    o.accent = Some("#ff0000".into());
    o.border = Some("nope".into());
    let t = Theme::default_dark().apply_overrides(&o);
    assert_eq!(t.accent, ThemeColor::Rgb(255, 0, 0));
    assert_eq!(t.border, ThemeColor::DarkGray);
    assert_eq!(t.foreground, ThemeColor::Black);
}

#[test]
fn invalid_overrides_are_reported_in_configuration_order() {
    let mut o = CustomTheme::default();
    o.accent = Some("zzz".into());
    o.foreground = Some("#12".into());
    o.border = Some("#123456".into());
    let warnings = validate(&o);
    assert_eq!(
        warnings,
        vec![
            "tui.toml: [custom_theme].foreground = \"#12\" isn't valid hex (expected e.g. \"#89b4fa\") \u{2014} ignoring, using the base theme's value instead".to_string(),
            "tui.toml: [custom_theme].accent = \"zzz\" isn't valid hex (expected e.g. \"#89b4fa\") \u{2014} ignoring, using the base theme's value instead".to_string(),
        ]
    );
    assert!(validate(&CustomTheme::default()).is_empty());
}

#[test]
fn signed_and_non_ascii_overrides_are_ignored_and_reported() {
    let mut o = CustomTheme::default();
    o.foreground = Some("+f+f+f".into());
    o.border = Some("ééé".into());
    o.status_warning = Some("nope".into());
    o.accent = Some("##ff0000".into());
    let base = Theme::default_dark();
    let t = base.clone().apply_overrides(&o);
    assert_eq!(t, base);
    let warnings = validate(&o);
    assert_eq!(warnings.len(), 3);
    assert!(warnings[0].starts_with("tui.toml: [custom_theme].foreground = \"+f+f+f\""));
    assert!(warnings[1].starts_with("tui.toml: [custom_theme].border = \"ééé\""));
    assert!(warnings[2].starts_with("tui.toml: [custom_theme].accent = \"##ff0000\""));
}
