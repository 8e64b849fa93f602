//! The client's colours: the built-in dark theme, the Catppuccin flavours
//! by name, and hand-written hex overrides from the configuration.
use vstd::prelude::*;
use catppuccin::{ColorName, FlavorName};
use crate::category::{lowercase, lowercase_text};
use crate::text::{chars_of, push_str};
use crate::textops::{debug_quoted, debug_text, trim_text, trimmed};

verus! {

/// Colours of a custom theme, each as `#rrggbb` text when given.
#[derive(Clone, Debug)]
pub struct CustomTheme {
    pub foreground: Option<String>,
    pub border: Option<String>,
    pub border_focused: Option<String>,
    pub selected_bg: Option<String>,
    pub selected_fg: Option<String>,
    pub status_ok: Option<String>,
    pub status_error: Option<String>,
    pub status_warning: Option<String>,
    pub text_muted: Option<String>,
    pub accent: Option<String>,
}

impl Default for CustomTheme {
    fn default() -> (r: Self)
        ensures
            r.foreground is None && r.border is None && r.border_focused is None,
            r.selected_bg is None && r.selected_fg is None && r.status_ok is None,
            r.status_error is None && r.status_warning is None && r.text_muted is None,
            r.accent is None,
    {
        CustomTheme {
            foreground: None,
            border: None,
            border_focused: None,
            selected_bg: None,
            selected_fg: None,
            status_ok: None,
            status_error: None,
            status_warning: None,
            text_muted: None,
            accent: None,
        }
    }
}


/// A terminal colour: a few named ones, or red, green and blue.
#[derive(Clone, Copy, Debug, PartialEq, Eq, Structural)]
pub enum ThemeColor {
    Black,
    DarkGray,
    Blue,
    Green,
    Red,
    Yellow,
    Magenta,
    Rgb(u8, u8, u8),
}

#[derive(Clone, Copy, Debug, PartialEq, Eq, Structural)]
pub struct Theme {
    pub foreground: ThemeColor,
    pub border: ThemeColor,
    pub border_focused: ThemeColor,
    pub selected_bg: ThemeColor,
    pub selected_fg: ThemeColor,
    pub status_ok: ThemeColor,
    pub status_error: ThemeColor,
    pub status_warning: ThemeColor,
    pub text_muted: ThemeColor,
    pub accent: ThemeColor,
}

/// The four Catppuccin flavours.
#[derive(Clone, Copy, Debug, PartialEq, Eq, Structural)]
pub enum Flavor {
    Latte,
    Frappe,
    Macchiato,
    Mocha,
}

/// The palette colours a theme takes from a flavour.
#[derive(Clone, Copy, Debug, PartialEq, Eq, Structural)]
pub enum PaletteRole {
    Text,
    Overlay0,
    Blue,
    Base,
    Green,
    Red,
    Yellow,
    Subtext0,
    Mauve,
}

/// A flavour's colour as the catppuccin crate's palette gives it.
pub uninterp spec fn palette_rgb(flavor: Flavor, role: PaletteRole) -> (u8, u8, u8);

/// `catppuccin::PALETTE.get_flavor(..).get_color(..).rgb`, one colour.
#[verifier::external_body]
fn catppuccin_rgb(flavor: Flavor, role: PaletteRole) -> (r: (u8, u8, u8))
    ensures
        r == palette_rgb(flavor, role),
{
    let f = match flavor {
        Flavor::Latte => FlavorName::Latte, Flavor::Frappe => FlavorName::Frappe,
        Flavor::Macchiato => FlavorName::Macchiato, Flavor::Mocha => FlavorName::Mocha,
    };
    let c = match role {
        PaletteRole::Text => ColorName::Text, PaletteRole::Overlay0 => ColorName::Overlay0, PaletteRole::Blue => ColorName::Blue,
        PaletteRole::Base => ColorName::Base, PaletteRole::Green => ColorName::Green, PaletteRole::Red => ColorName::Red,
        PaletteRole::Yellow => ColorName::Yellow, PaletteRole::Subtext0 => ColorName::Subtext0, PaletteRole::Mauve => ColorName::Mauve,
    };
    let rgb = catppuccin::PALETTE.get_flavor(f).get_color(c).rgb;
    (rgb.r, rgb.g, rgb.b)
}

pub open spec fn palette_color(flavor: Flavor, role: PaletteRole) -> ThemeColor {
    let (r, g, b) = palette_rgb(flavor, role);
    ThemeColor::Rgb(r, g, b)
}

pub open spec fn dark_theme() -> Theme {
    Theme {
        foreground: ThemeColor::Black,
        border: ThemeColor::DarkGray,
        border_focused: ThemeColor::Blue,
        selected_bg: ThemeColor::Blue,
        selected_fg: ThemeColor::Black,
        status_ok: ThemeColor::Green,
        status_error: ThemeColor::Red,
        status_warning: ThemeColor::Yellow,
        text_muted: ThemeColor::DarkGray,
        accent: ThemeColor::Magenta,
    }
}

/// A flavour's theme: text, overlay for borders, blue for focus and
/// selection on the base colour, green, red and yellow for status, the
/// subdued text colour and mauve for accents.
pub open spec fn flavor_theme(f: Flavor) -> Theme {
    Theme {
        foreground: palette_color(f, PaletteRole::Text),
        border: palette_color(f, PaletteRole::Overlay0),
        border_focused: palette_color(f, PaletteRole::Blue),
        selected_bg: palette_color(f, PaletteRole::Blue),
        selected_fg: palette_color(f, PaletteRole::Base),
        status_ok: palette_color(f, PaletteRole::Green),
        status_error: palette_color(f, PaletteRole::Red),
        status_warning: palette_color(f, PaletteRole::Yellow),
        text_muted: palette_color(f, PaletteRole::Subtext0),
        accent: palette_color(f, PaletteRole::Mauve),
    }
}

/// The flavour a theme name picks, by its lowercase form.
pub open spec fn flavor_named(lowered: Seq<char>) -> Option<Flavor> {
    if lowered == "catppuccin-latte"@ {
        Some(Flavor::Latte)
    } else if lowered == "catppuccin-frappe"@ || lowered == "catppuccin-frapp\u{e9}"@ {
        Some(Flavor::Frappe)
    } else if lowered == "catppuccin-macchiato"@ {
        Some(Flavor::Macchiato)
    } else if lowered == "catppuccin-mocha"@ {
        Some(Flavor::Mocha)
    } else {
        None
    }
}

fn color_of(flavor: Flavor, role: PaletteRole) -> (r: ThemeColor)
    ensures
        r == palette_color(flavor, role),
{
    let (r, g, b) = catppuccin_rgb(flavor, role);
    ThemeColor::Rgb(r, g, b)
}

impl Theme {
    pub fn default_dark() -> (r: Self)
        ensures
            r == dark_theme(),
    {
        Theme {
            foreground: ThemeColor::Black,
            border: ThemeColor::DarkGray,
            border_focused: ThemeColor::Blue,
            selected_bg: ThemeColor::Blue,
            selected_fg: ThemeColor::Black,
            status_ok: ThemeColor::Green,
            status_error: ThemeColor::Red,
            status_warning: ThemeColor::Yellow,
            text_muted: ThemeColor::DarkGray,
            accent: ThemeColor::Magenta,
        }
    }

    pub fn from_catppuccin(f: Flavor) -> (r: Self)
        ensures
            r == flavor_theme(f),
    {
        Theme {
            foreground: color_of(f, PaletteRole::Text),
            border: color_of(f, PaletteRole::Overlay0),
            border_focused: color_of(f, PaletteRole::Blue),
            selected_bg: color_of(f, PaletteRole::Blue),
            selected_fg: color_of(f, PaletteRole::Base),
            status_ok: color_of(f, PaletteRole::Green),
            status_error: color_of(f, PaletteRole::Red),
            status_warning: color_of(f, PaletteRole::Yellow),
            text_muted: color_of(f, PaletteRole::Subtext0),
            accent: color_of(f, PaletteRole::Mauve),
        }
    }

    /// The theme a name picks, in any case; unknown names get the dark
    /// theme.
    pub fn from_name(name: &str) -> (r: Self)
        ensures
            r == match flavor_named(lowercase_text(name@)) {
                Some(f) => flavor_theme(f),
                None => dark_theme(),
            },
    {
        let lowered = lowercase(name);
        let l = lowered.as_str();
        proof {
            reveal_strlit("catppuccin-latte");
        }
        if crate::enums::same_text(l, "catppuccin-latte") {
            Theme::from_catppuccin(Flavor::Latte)
        } else if crate::enums::same_text(l, "catppuccin-frappe") || crate::enums::same_text(l, "catppuccin-frapp\u{e9}") {
            Theme::from_catppuccin(Flavor::Frappe)
        } else if crate::enums::same_text(l, "catppuccin-macchiato") {
            Theme::from_catppuccin(Flavor::Macchiato)
        } else if crate::enums::same_text(l, "catppuccin-mocha") {
            Theme::from_catppuccin(Flavor::Mocha)
        } else {
            Theme::default_dark()
        }
    }

    /// Each override that parses as hex replaces its colour; unset or
    /// malformed ones leave it.
    pub fn apply_overrides(self, overrides: &CustomTheme) -> (r: Self)
        ensures
            r == overridden_theme(self, *overrides),
    {
        let mut t = self;
        match parse_hex(&overrides.foreground) { Some(c) => { t.foreground = c; }, None => {} }
        match parse_hex(&overrides.border) { Some(c) => { t.border = c; }, None => {} }
        match parse_hex(&overrides.border_focused) { Some(c) => { t.border_focused = c; }, None => {} }
        match parse_hex(&overrides.selected_bg) { Some(c) => { t.selected_bg = c; }, None => {} }
        match parse_hex(&overrides.selected_fg) { Some(c) => { t.selected_fg = c; }, None => {} }
        match parse_hex(&overrides.status_ok) { Some(c) => { t.status_ok = c; }, None => {} }
        match parse_hex(&overrides.status_error) { Some(c) => { t.status_error = c; }, None => {} }
        match parse_hex(&overrides.text_muted) { Some(c) => { t.text_muted = c; }, None => {} }
        match parse_hex(&overrides.accent) { Some(c) => { t.accent = c; }, None => {} }
        t
    }
}

pub open spec fn or_keep(parsed: Option<ThemeColor>, current: ThemeColor) -> ThemeColor {
    match parsed {
        Some(c) => c,
        None => current,
    }
}

pub open spec fn overridden_theme(t: Theme, o: CustomTheme) -> Theme {
    Theme {
        foreground: or_keep(hex_color(opt_view(o.foreground)), t.foreground),
        border: or_keep(hex_color(opt_view(o.border)), t.border),
        border_focused: or_keep(hex_color(opt_view(o.border_focused)), t.border_focused),
        selected_bg: or_keep(hex_color(opt_view(o.selected_bg)), t.selected_bg),
        selected_fg: or_keep(hex_color(opt_view(o.selected_fg)), t.selected_fg),
        status_ok: or_keep(hex_color(opt_view(o.status_ok)), t.status_ok),
        status_error: or_keep(hex_color(opt_view(o.status_error)), t.status_error),
        status_warning: t.status_warning,
        text_muted: or_keep(hex_color(opt_view(o.text_muted)), t.text_muted),
        accent: or_keep(hex_color(opt_view(o.accent)), t.accent),
    }
}

pub open spec fn opt_view(o: Option<String>) -> Option<Seq<char>> {
    match o {
        Some(s) => Some(s@),
        None => None,
    }
}

/// A value without its surrounding blanks and one leading `#`.
pub open spec fn hex_body(v: Seq<char>) -> Seq<char> {
    without_hash(trimmed(v))
}

pub open spec fn without_hash(s: Seq<char>) -> Seq<char> {
    if s.len() > 0 && s[0] == '#' {
        s.drop_first()
    } else {
        s
    }
}

pub open spec fn hex_digit(c: char) -> Option<u8> {
    if '0' <= c && c <= '9' {
        Some(((c as u32) - ('0' as u32)) as u8)
    } else if 'a' <= c && c <= 'f' {
        Some(((c as u32) - ('a' as u32) + 10) as u8)
    } else if 'A' <= c && c <= 'F' {
        Some(((c as u32) - ('A' as u32) + 10) as u8)
    } else {
        None
    }
}

/// Two hex digits read as one byte, high digit first.
pub open spec fn hex_pair(a: char, b: char) -> Option<u8> {
    match (hex_digit(a), hex_digit(b)) {
        (Some(x), Some(y)) => Some((16 * x + y) as u8),
        _ => None,
    }
}

/// The colour a configured value names: `#rrggbb` or `rrggbb` (blanks
/// around it allowed), six hex digits read as three pairs. Anything
/// else names no colour.
pub open spec fn hex_color(v: Option<Seq<char>>) -> Option<ThemeColor> {
    match v {
        None => None,
        Some(raw) => {
            let s = hex_body(raw);
            if s.len() == 6 {
                match (hex_pair(s[0], s[1]), hex_pair(s[2], s[3]), hex_pair(s[4], s[5])) {
                    (Some(r), Some(g), Some(b)) => Some(ThemeColor::Rgb(r, g, b)),
                    _ => None,
                }
            } else {
                None
            }
        },
    }
}

fn digit_of_hex(c: char) -> (r: Option<u8>)
    ensures
        r == hex_digit(c),
{
    if '0' <= c && c <= '9' {
        Some((c as u32 - '0' as u32) as u8)
    } else if 'a' <= c && c <= 'f' {
        Some((c as u32 - 'a' as u32 + 10) as u8)
    } else if 'A' <= c && c <= 'F' {
        Some((c as u32 - 'A' as u32 + 10) as u8)
    } else {
        None
    }
}

fn pair_of_hex(a: char, b: char) -> (r: Option<u8>)
    ensures
        r == hex_pair(a, b),
{
    match (digit_of_hex(a), digit_of_hex(b)) {
        (Some(x), Some(y)) => Some(16 * x + y),
        _ => None,
    }
}

fn strip_hash(v: &Vec<char>) -> (r: Vec<char>)
    ensures
        r@ == without_hash(v@),
{
    let i: usize = if v.len() > 0 && v[0] == '#' { 1 } else { 0 };
    let mut out: Vec<char> = Vec::new();
    let mut k: usize = i;
    while k < v.len()
        invariant
            i <= k <= v@.len(),
            out@ == v@.subrange(i as int, k as int),
        decreases v@.len() - k,
    {
        out.push(v[k]);
        assert(out@ =~= v@.subrange(i as int, k + 1));
        k = k + 1;
    }
    assert(out@ =~= v@.skip(i as int));
    out
}

/// Reads `"#rrggbb"` or `"rrggbb"` (after trimming); unset or malformed
/// values give none.
pub fn parse_hex(value: &Option<String>) -> (r: Option<ThemeColor>)
    ensures
        r == hex_color(opt_view(*value)),
{
    let raw = match value {
        Some(s) => s,
        None => {
            return None;
        },
    };
    let t = trim_text(raw.as_str());
    let cs = chars_of(t.as_str());
    let s = strip_hash(&cs);
    if s.len() != 6 {
        return None;
    }
    match (pair_of_hex(s[0], s[1]), pair_of_hex(s[2], s[3]), pair_of_hex(s[4], s[5])) {
        (Some(r), Some(g), Some(b)) => Some(ThemeColor::Rgb(r, g, b)),
        _ => None,
    }
}

/// The warning for one override that is set but is not hex.
pub open spec fn override_warning(field: Seq<char>, value: Seq<char>) -> Seq<char> {
    "tui.toml: [custom_theme]."@ + field + " = "@ + debug_text(value)
        + " isn't valid hex (expected e.g. \"#89b4fa\") \u{2014} ignoring, using the base theme's value instead"@
}

pub open spec fn field_warnings(fields: Seq<(Seq<char>, Option<Seq<char>>)>) -> Seq<Seq<char>>
    decreases fields.len(),
{
    if fields.len() == 0 {
        Seq::empty()
    } else {
        let rest = field_warnings(fields.drop_last());
        let (name, value) = fields.last();
        match value {
            Some(v) => if hex_color(Some(v)) is None {
                rest.push(override_warning(name, v))
            } else {
                rest
            },
            None => rest,
        }
    }
}

/// The overrides with their names, in the configuration's order.
pub open spec fn named_overrides(o: CustomTheme) -> Seq<(Seq<char>, Option<Seq<char>>)> {
    seq![
        ("foreground"@, opt_view(o.foreground)),
        ("border"@, opt_view(o.border)),
        ("border_focused"@, opt_view(o.border_focused)),
        ("selected_bg"@, opt_view(o.selected_bg)),
        ("selected_fg"@, opt_view(o.selected_fg)),
        ("status_ok"@, opt_view(o.status_ok)),
        ("status_error"@, opt_view(o.status_error)),
        ("text_muted"@, opt_view(o.text_muted)),
        ("accent"@, opt_view(o.accent)),
    ]
}

fn warn_field(out: &mut Vec<String>, name: &str, value: &Option<String>)
    ensures
        final(out)@.len() >= old(out)@.len(),
        (match value {
            Some(v) => if hex_color(Some(v@)) is None {
                strings(final(out)@) == strings(old(out)@).push(override_warning(name@, v@))
            } else {
                final(out)@ == old(out)@
            },
            None => final(out)@ == old(out)@,
        }),
{
    match value {
        Some(v) => {
            if parse_hex(value).is_none() {
                let mut m = "tui.toml: [custom_theme].".to_owned();
                push_str(&mut m, name);
                push_str(&mut m, " = ");
                push_str(&mut m, debug_quoted(v.as_str()).as_str());
                push_str(
                    &mut m,
                    " isn't valid hex (expected e.g. \"#89b4fa\") \u{2014} ignoring, using the base theme's value instead",
                );
                let ghost before = out@;
                out.push(m);
                assert(strings(out@) =~= strings(before).push(m@));
            }
        },
        None => {},
    }
}

pub open spec fn strings(v: Seq<String>) -> Seq<Seq<char>> {
    v.map_values(|s: String| s@)
}

/// A warning for each override that is set but is not valid hex, in the
/// configuration's order, to print before the screen takes over.
pub fn validate(overrides: &CustomTheme) -> (r: Vec<String>)
    ensures
        strings(r@) == field_warnings(named_overrides(*overrides)),
{
    let mut out: Vec<String> = Vec::new();
    let ghost o = *overrides;
    let ghost f = named_overrides(o);
    proof {
        assert(strings(out@) =~= field_warnings(f.take(0)));
    }
    warn_field(&mut out, "foreground", &overrides.foreground);
    proof { lemma_warnings_step(f, 0); }
    warn_field(&mut out, "border", &overrides.border);
    proof { lemma_warnings_step(f, 1); }
    warn_field(&mut out, "border_focused", &overrides.border_focused);
    proof { lemma_warnings_step(f, 2); }
    warn_field(&mut out, "selected_bg", &overrides.selected_bg);
    proof { lemma_warnings_step(f, 3); }
    warn_field(&mut out, "selected_fg", &overrides.selected_fg);
    proof { lemma_warnings_step(f, 4); }
    warn_field(&mut out, "status_ok", &overrides.status_ok);
    proof { lemma_warnings_step(f, 5); }
    warn_field(&mut out, "status_error", &overrides.status_error);
    proof { lemma_warnings_step(f, 6); }
    warn_field(&mut out, "text_muted", &overrides.text_muted);
    proof { lemma_warnings_step(f, 7); }
    warn_field(&mut out, "accent", &overrides.accent);
    proof {
        lemma_warnings_step(f, 8);
        assert(f.take(9) =~= f);
    }
    out
}

proof fn lemma_warnings_step(f: Seq<(Seq<char>, Option<Seq<char>>)>, k: int)
    requires
        0 <= k < f.len(),
    ensures
        field_warnings(f.take(k + 1)) == (match f[k].1 {
            Some(v) => if hex_color(Some(v)) is None {
                field_warnings(f.take(k)).push(override_warning(f[k].0, v))
            } else {
                field_warnings(f.take(k))
            },
            None => field_warnings(f.take(k)),
        }),
{
    assert(f.take(k + 1).drop_last() =~= f.take(k));
}

/// Unset, or set to a value that names a colour.
pub open spec fn set_valid(value: Option<Seq<char>>) -> bool {
    match value {
        Some(v) => hex_color(Some(v)) is Some,
        None => true,
    }
}

/// Whether every set value among the fields names a colour.
pub open spec fn all_set_valid(fields: Seq<(Seq<char>, Option<Seq<char>>)>) -> bool {
    forall|i: int| 0 <= i < fields.len() ==> set_valid(#[trigger] fields[i].1)
}

proof fn lemma_warnings_empty(fields: Seq<(Seq<char>, Option<Seq<char>>)>)
    ensures
        field_warnings(fields).len() == 0 <==> all_set_valid(fields),
        field_warnings(fields).len() <= fields.len(),
    decreases fields.len(),
{
    if fields.len() > 0 {
        let d = fields.drop_last();
        lemma_warnings_empty(d);
        if all_set_valid(fields) {
            assert forall|i: int| 0 <= i < d.len() implies set_valid(#[trigger] d[i].1) by {
                assert(d[i] == fields[i]);
            }
            assert(set_valid(fields[fields.len() - 1].1));
        }
        if all_set_valid(d) && set_valid(fields.last().1) {
            assert forall|i: int| 0 <= i < fields.len() implies set_valid(#[trigger] fields[i].1) by {
                if i < d.len() {
                    assert(d[i] == fields[i]);
                }
            }
        }
        if !all_set_valid(d) {
            let i = choose|i: int| 0 <= i < d.len() && !set_valid(#[trigger] d[i].1);
            assert(d[i] == fields[i]);
        }
    }
}

/// The configuration check warns about nothing exactly when every set
/// override names a colour, and never gives more warnings than there are
/// fields.
pub proof fn law_validate_quiet_iff_all_valid(o: CustomTheme)
    ensures
        field_warnings(named_overrides(o)).len() == 0 <==> all_set_valid(named_overrides(o)),
        field_warnings(named_overrides(o)).len() <= 9,
{
    lemma_warnings_empty(named_overrides(o));
}

} // verus!
