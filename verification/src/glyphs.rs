//! The terminal client's glyph sets, how the glyph mode is chosen, and the
//! client's own configuration.
use vstd::prelude::*;
use crate::enums::{DownloadStatus, FileCategory, QueueStatus};
use crate::textops::{
    trimmed, trim_text, ascii_lowered, to_ascii_lowercase, has_substring, contains_str, has_prefix,
    strip_prefix, debug_text, debug_quoted,
};
use crate::text::push_str;
use crate::theme::{CustomTheme, Theme, ThemeColor};

verus! {

/// How icons are drawn: Nerd Font symbols, plain Unicode, or ASCII only.
#[derive(Clone, Copy, Debug, PartialEq, Eq, Structural)]
pub enum GlyphMode {
    NerdFont,
    Unicode,
    Ascii,
}

pub open spec fn glyph_mode_from_name(s: Seq<char>) -> Option<GlyphMode> {
    if s == "nerd"@ {
        Some(GlyphMode::NerdFont)
    } else if s == "unicode"@ {
        Some(GlyphMode::Unicode)
    } else if s == "ascii"@ {
        Some(GlyphMode::Ascii)
    } else {
        None
    }
}

pub open spec fn invalid_mode_text(value: Seq<char>) -> Seq<char> {
    "invalid glyph mode "@ + debug_text(value) + "; expected nerd, unicode, or ascii"@
}

/// A glyph mode named in any case, with surrounding whitespace.
pub open spec fn parsed_glyph_mode(value: Seq<char>) -> Result<GlyphMode, Seq<char>> {
    match glyph_mode_from_name(ascii_lowered(trimmed(value))) {
        Some(m) => Ok(m),
        None => Err(invalid_mode_text(value)),
    }
}

pub open spec fn result_view<T>(r: Result<T, String>) -> Result<T, Seq<char>> {
    match r {
        Ok(v) => Ok(v),
        Err(e) => Err(e@),
    }
}

/// Reads a glyph mode: `nerd`, `unicode` or `ascii`, in any case, with
/// surrounding whitespace ignored.
pub fn parse_glyph_mode(value: &str) -> (r: Result<GlyphMode, String>)
    ensures
        result_view(r) == parsed_glyph_mode(value@),
{
    let t = trim_text(value);
    let lower = to_ascii_lowercase(t.as_str());
    let s = lower.as_str();
    if crate::enums::same_text(s, "nerd") {
        Ok(GlyphMode::NerdFont)
    } else if crate::enums::same_text(s, "unicode") {
        Ok(GlyphMode::Unicode)
    } else if crate::enums::same_text(s, "ascii") {
        Ok(GlyphMode::Ascii)
    } else {
        let mut message = "invalid glyph mode ".to_owned();
        let quoted = debug_quoted(value);
        push_str(&mut message, quoted.as_str());
        push_str(&mut message, "; expected nerd, unicode, or ascii");
        Err(message)
    }
}

/// The glyphs of one mode.
#[derive(Clone, Copy, Debug, PartialEq, Eq, Structural)]
pub struct IconSet {
    mode: GlyphMode,
}

pub open spec fn ellipsis_text(mode: GlyphMode) -> Seq<char> {
    match mode {
        GlyphMode::Ascii => "..."@,
        _ => "\u{2026}"@,
    }
}

pub open spec fn all_text(mode: GlyphMode) -> Seq<char> {
    match mode {
        GlyphMode::NerdFont => "\u{f07b}"@,
        GlyphMode::Unicode => "\u{25c6}"@,
        GlyphMode::Ascii => "*"@,
    }
}

pub open spec fn category_text(mode: GlyphMode, c: FileCategory) -> Seq<char> {
    match mode {
        GlyphMode::NerdFont => match c {
            FileCategory::Video => "\u{f03d}"@,
            FileCategory::Music => "\u{f001}"@,
            FileCategory::Document => "\u{f15c}"@,
            FileCategory::Archive => "\u{f06eb}"@,
            FileCategory::Program => "\u{f0614}"@,
            FileCategory::Other => "\u{f15b}"@,
        },
        GlyphMode::Unicode => match c {
            FileCategory::Video => "\u{25b6}"@,
            FileCategory::Music => "\u{266a}"@,
            FileCategory::Document => "\u{25a4}"@,
            FileCategory::Archive => "\u{25a3}"@,
            FileCategory::Program => "\u{2318}"@,
            FileCategory::Other => "\u{2022}"@,
        },
        GlyphMode::Ascii => match c {
            FileCategory::Video => "V"@,
            FileCategory::Music => "M"@,
            FileCategory::Document => "D"@,
            FileCategory::Archive => "A"@,
            FileCategory::Program => "P"@,
            FileCategory::Other => "O"@,
        },
    }
}

pub open spec fn status_text(mode: GlyphMode, s: DownloadStatus) -> Seq<char> {
    match mode {
        GlyphMode::NerdFont => match s {
            DownloadStatus::Pending => "\u{f017}"@,
            DownloadStatus::Active => "\u{f04b}"@,
            DownloadStatus::Paused => "\u{f04c}"@,
            DownloadStatus::Completed => "\u{f00c}"@,
            DownloadStatus::Error(_) => "\u{f00d}"@,
            DownloadStatus::Removed => "\u{f1f8}"@,
        },
        GlyphMode::Unicode => match s {
            DownloadStatus::Pending => "\u{25f7}"@,
            DownloadStatus::Active => "\u{2193}"@,
            DownloadStatus::Paused => "\u{2016}"@,
            DownloadStatus::Completed => "\u{2713}"@,
            DownloadStatus::Error(_) => "\u{2715}"@,
            DownloadStatus::Removed => "\u{2298}"@,
        },
        GlyphMode::Ascii => match s {
            DownloadStatus::Pending => "."@,
            DownloadStatus::Active => ">"@,
            DownloadStatus::Paused => "|"@,
            DownloadStatus::Completed => "+"@,
            DownloadStatus::Error(_) => "!"@,
            DownloadStatus::Removed => "x"@,
        },
    }
}

pub open spec fn queue_status_text(mode: GlyphMode, s: QueueStatus) -> Seq<char> {
    match mode {
        GlyphMode::NerdFont => match s {
            QueueStatus::Active => "\u{f04b}"@,
            QueueStatus::Paused => "\u{f04c}"@,
        },
        GlyphMode::Unicode => match s {
            QueueStatus::Active => "\u{25b6}"@,
            QueueStatus::Paused => "\u{2016}"@,
        },
        GlyphMode::Ascii => match s {
            QueueStatus::Active => ">"@,
            QueueStatus::Paused => "|"@,
        },
    }
}

pub open spec fn scheduler_text(mode: GlyphMode) -> Seq<char> {
    match mode {
        GlyphMode::NerdFont => "\u{f13ab}"@,
        GlyphMode::Unicode => "\u{25f7}"@,
        GlyphMode::Ascii => "@"@,
    }
}


/// Every icon of every mode is a real glyph: not empty, and not the `?`
/// that stands for a missing one.
pub proof fn law_every_icon_is_defined(mode: GlyphMode, c: FileCategory, s: DownloadStatus, q: QueueStatus)
    ensures
        all_text(mode).len() > 0 && all_text(mode) != "?"@,
        category_text(mode, c).len() > 0 && category_text(mode, c) != "?"@,
        status_text(mode, s).len() > 0 && status_text(mode, s) != "?"@,
        queue_status_text(mode, q).len() > 0 && queue_status_text(mode, q) != "?"@,
        scheduler_text(mode).len() > 0 && scheduler_text(mode) != "?"@,
{
    reveal_strlit("?");
    assert("?"@[0] == '?');
    if all_text(mode) == "?"@ {
        assert(all_text(mode)[0] == '?');
    }
    if category_text(mode, c) == "?"@ {
        assert(category_text(mode, c)[0] == '?');
    }
    if status_text(mode, s) == "?"@ {
        assert(status_text(mode, s)[0] == '?');
    }
    if queue_status_text(mode, q) == "?"@ {
        assert(queue_status_text(mode, q)[0] == '?');
    }
    if scheduler_text(mode) == "?"@ {
        assert(scheduler_text(mode)[0] == '?');
    }
    reveal_strlit("!");
    reveal_strlit("*");
    reveal_strlit("+");
    reveal_strlit(".");
    reveal_strlit(">");
    reveal_strlit("@");
    reveal_strlit("A");
    reveal_strlit("D");
    reveal_strlit("M");
    reveal_strlit("O");
    reveal_strlit("P");
    reveal_strlit("V");
    reveal_strlit("\u{2016}");
    reveal_strlit("\u{2022}");
    reveal_strlit("\u{2193}");
    reveal_strlit("\u{2298}");
    reveal_strlit("\u{2318}");
    reveal_strlit("\u{25a3}");
    reveal_strlit("\u{25a4}");
    reveal_strlit("\u{25b6}");
    reveal_strlit("\u{25c6}");
    reveal_strlit("\u{25f7}");
    reveal_strlit("\u{266a}");
    reveal_strlit("\u{2713}");
    reveal_strlit("\u{2715}");
    reveal_strlit("\u{f001}");
    reveal_strlit("\u{f00c}");
    reveal_strlit("\u{f00d}");
    reveal_strlit("\u{f017}");
    reveal_strlit("\u{f03d}");
    reveal_strlit("\u{f04b}");
    reveal_strlit("\u{f04c}");
    reveal_strlit("\u{f0614}");
    reveal_strlit("\u{f06eb}");
    reveal_strlit("\u{f07b}");
    reveal_strlit("\u{f13ab}");
    reveal_strlit("\u{f15b}");
    reveal_strlit("\u{f15c}");
    reveal_strlit("\u{f1f8}");
    reveal_strlit("x");
    reveal_strlit("|");
}

impl IconSet {
    pub closed spec fn mode_of(self) -> GlyphMode {
        self.mode
    }

    pub fn new(mode: GlyphMode) -> (r: Self)
        ensures
            r.mode_of() == mode,
    {
        IconSet { mode }
    }

    pub fn glyph_mode(self) -> (r: GlyphMode)
        ensures
            r == self.mode_of(),
    {
        self.mode
    }

    pub fn ellipsis(self) -> (r: &'static str)
        ensures
            r@ == ellipsis_text(self.mode_of()),
    {
        match self.mode {
            GlyphMode::Ascii => "...",
            GlyphMode::NerdFont | GlyphMode::Unicode => "\u{2026}",
        }
    }

    /// The glyph of the "all" entries of the side lists.
    pub fn all(self) -> (r: &'static str)
        ensures
            r@ == all_text(self.mode_of()),
    {
        match self.mode {
            GlyphMode::NerdFont => "\u{f07b}",
            GlyphMode::Unicode => "\u{25c6}",
            GlyphMode::Ascii => "*",
        }
    }

    pub fn category(self, category: &FileCategory) -> (r: &'static str)
        ensures
            r@ == category_text(self.mode_of(), *category),
    {
        match (self.mode, category) {
            (GlyphMode::NerdFont, FileCategory::Video) => "\u{f03d}",
            (GlyphMode::NerdFont, FileCategory::Music) => "\u{f001}",
            (GlyphMode::NerdFont, FileCategory::Document) => "\u{f15c}",
            (GlyphMode::NerdFont, FileCategory::Archive) => "\u{f06eb}",
            (GlyphMode::NerdFont, FileCategory::Program) => "\u{f0614}",
            (GlyphMode::NerdFont, FileCategory::Other) => "\u{f15b}",
            (GlyphMode::Unicode, FileCategory::Video) => "\u{25b6}",
            (GlyphMode::Unicode, FileCategory::Music) => "\u{266a}",
            (GlyphMode::Unicode, FileCategory::Document) => "\u{25a4}",
            (GlyphMode::Unicode, FileCategory::Archive) => "\u{25a3}",
            (GlyphMode::Unicode, FileCategory::Program) => "\u{2318}",
            (GlyphMode::Unicode, FileCategory::Other) => "\u{2022}",
            (GlyphMode::Ascii, FileCategory::Video) => "V",
            (GlyphMode::Ascii, FileCategory::Music) => "M",
            (GlyphMode::Ascii, FileCategory::Document) => "D",
            (GlyphMode::Ascii, FileCategory::Archive) => "A",
            (GlyphMode::Ascii, FileCategory::Program) => "P",
            (GlyphMode::Ascii, FileCategory::Other) => "O",
        }
    }

    pub fn download_status(self, status: &DownloadStatus) -> (r: &'static str)
        ensures
            r@ == status_text(self.mode_of(), *status),
    {
        match (self.mode, status) {
            (GlyphMode::NerdFont, DownloadStatus::Pending) => "\u{f017}",
            (GlyphMode::NerdFont, DownloadStatus::Active) => "\u{f04b}",
            (GlyphMode::NerdFont, DownloadStatus::Paused) => "\u{f04c}",
            (GlyphMode::NerdFont, DownloadStatus::Completed) => "\u{f00c}",
            (GlyphMode::NerdFont, DownloadStatus::Error(_)) => "\u{f00d}",
            (GlyphMode::NerdFont, DownloadStatus::Removed) => "\u{f1f8}",
            (GlyphMode::Unicode, DownloadStatus::Pending) => "\u{25f7}",
            (GlyphMode::Unicode, DownloadStatus::Active) => "\u{2193}",
            (GlyphMode::Unicode, DownloadStatus::Paused) => "\u{2016}",
            (GlyphMode::Unicode, DownloadStatus::Completed) => "\u{2713}",
            (GlyphMode::Unicode, DownloadStatus::Error(_)) => "\u{2715}",
            (GlyphMode::Unicode, DownloadStatus::Removed) => "\u{2298}",
            (GlyphMode::Ascii, DownloadStatus::Pending) => ".",
            (GlyphMode::Ascii, DownloadStatus::Active) => ">",
            (GlyphMode::Ascii, DownloadStatus::Paused) => "|",
            (GlyphMode::Ascii, DownloadStatus::Completed) => "+",
            (GlyphMode::Ascii, DownloadStatus::Error(_)) => "!",
            (GlyphMode::Ascii, DownloadStatus::Removed) => "x",
        }
    }

    pub fn queue_status(self, status: &QueueStatus) -> (r: &'static str)
        ensures
            r@ == queue_status_text(self.mode_of(), *status),
    {
        match (self.mode, status) {
            (GlyphMode::NerdFont, QueueStatus::Active) => "\u{f04b}",
            (GlyphMode::NerdFont, QueueStatus::Paused) => "\u{f04c}",
            (GlyphMode::Unicode, QueueStatus::Active) => "\u{25b6}",
            (GlyphMode::Unicode, QueueStatus::Paused) => "\u{2016}",
            (GlyphMode::Ascii, QueueStatus::Active) => ">",
            (GlyphMode::Ascii, QueueStatus::Paused) => "|",
        }
    }

    /// The colour a download's state is drawn in: waiting ones in the
    /// warning colour, running and finished ones in the good one, failed
    /// ones in the error colour, removed ones muted.
    pub fn download_status_color(self, status: &DownloadStatus, theme: &Theme) -> (r: ThemeColor)
        ensures
            r == (match *status {
                DownloadStatus::Pending | DownloadStatus::Paused => theme.status_warning,
                DownloadStatus::Active | DownloadStatus::Completed => theme.status_ok,
                DownloadStatus::Error(_) => theme.status_error,
                DownloadStatus::Removed => theme.text_muted,
            }),
    {
        match status {
            DownloadStatus::Pending | DownloadStatus::Paused => theme.status_warning,
            DownloadStatus::Active | DownloadStatus::Completed => theme.status_ok,
            DownloadStatus::Error(_) => theme.status_error,
            DownloadStatus::Removed => theme.text_muted,
        }
    }

    /// The colour a queue's state is drawn in.
    pub fn queue_status_color(self, status: &QueueStatus, theme: &Theme) -> (r: ThemeColor)
        ensures
            r == (match *status {
                QueueStatus::Active => theme.status_ok,
                QueueStatus::Paused => theme.status_warning,
            }),
    {
        match status {
            QueueStatus::Active => theme.status_ok,
            QueueStatus::Paused => theme.status_warning,
        }
    }

    pub fn scheduler(self) -> (r: &'static str)
        ensures
            r@ == scheduler_text(self.mode_of()),
    {
        match self.mode {
            GlyphMode::NerdFont => "\u{f13ab}",
            GlyphMode::Unicode => "\u{25f7}",
            GlyphMode::Ascii => "@",
        }
    }
}

/// Within a mode, different categories have different glyphs, and so do
/// different download states (every failure shares one) and the two queue
/// states; every glyph of the ASCII mode is ASCII.
pub proof fn law_glyphs_tell_states_apart(mode: GlyphMode)
    ensures
        forall|a: FileCategory, b: FileCategory| a != b ==> #[trigger] category_text(mode, a) != #[trigger] category_text(mode, b),
        forall|a: DownloadStatus, b: DownloadStatus|
            #[trigger] status_text(mode, a) == #[trigger] status_text(mode, b) ==> a == b || (a is Error && b is Error),
        queue_status_text(mode, QueueStatus::Active) != queue_status_text(mode, QueueStatus::Paused),
        mode == GlyphMode::Ascii ==> {
            &&& all_ascii_text(all_text(mode)) && all_ascii_text(ellipsis_text(mode)) && all_ascii_text(scheduler_text(mode))
            &&& forall|c: FileCategory| all_ascii_text(#[trigger] category_text(mode, c))
            &&& forall|d: DownloadStatus| all_ascii_text(#[trigger] status_text(mode, d))
            &&& forall|q: QueueStatus| all_ascii_text(#[trigger] queue_status_text(mode, q))
        },
{
    reveal_strlit("!");
    reveal_strlit("*");
    reveal_strlit("+");
    reveal_strlit(".");
    reveal_strlit("...");
    reveal_strlit(">");
    reveal_strlit("@");
    reveal_strlit("A");
    reveal_strlit("D");
    reveal_strlit("M");
    reveal_strlit("O");
    reveal_strlit("P");
    reveal_strlit("V");
    reveal_strlit("\u{2016}");
    reveal_strlit("\u{2022}");
    reveal_strlit("\u{2026}");
    reveal_strlit("\u{2193}");
    reveal_strlit("\u{2298}");
    reveal_strlit("\u{2318}");
    reveal_strlit("\u{25a3}");
    reveal_strlit("\u{25a4}");
    reveal_strlit("\u{25b6}");
    reveal_strlit("\u{25c6}");
    reveal_strlit("\u{25f7}");
    reveal_strlit("\u{266a}");
    reveal_strlit("\u{2713}");
    reveal_strlit("\u{2715}");
    reveal_strlit("\u{f001}");
    reveal_strlit("\u{f00c}");
    reveal_strlit("\u{f00d}");
    reveal_strlit("\u{f017}");
    reveal_strlit("\u{f03d}");
    reveal_strlit("\u{f04b}");
    reveal_strlit("\u{f04c}");
    reveal_strlit("\u{f0614}");
    reveal_strlit("\u{f06eb}");
    reveal_strlit("\u{f07b}");
    reveal_strlit("\u{f13ab}");
    reveal_strlit("\u{f15b}");
    reveal_strlit("\u{f15c}");
    reveal_strlit("\u{f1f8}");
    reveal_strlit("x");
    reveal_strlit("|");
    assert forall|a: FileCategory, b: FileCategory| a != b implies #[trigger] category_text(mode, a) != #[trigger] category_text(mode, b) by {
        if category_text(mode, a) == category_text(mode, b) {
            assert(category_text(mode, a)[0] == category_text(mode, b)[0]);
        }
    }
    assert forall|a: DownloadStatus, b: DownloadStatus|
        #[trigger] status_text(mode, a) == #[trigger] status_text(mode, b) implies a == b || (a is Error && b is Error) by {
        assert(status_text(mode, a)[0] == status_text(mode, b)[0]);
    }
    assert(queue_status_text(mode, QueueStatus::Active)[0] != queue_status_text(mode, QueueStatus::Paused)[0]);
}

/// Every character of the text is ASCII.
pub open spec fn all_ascii_text(s: Seq<char>) -> bool {
    forall|i: int| 0 <= i < s.len() ==> (#[trigger] s[i] as u32) < 0x80
}

/// What `--glyphs` arguments amount to: no mode, one mode, or an error
/// message.
pub open spec fn glyph_args_outcome(args: Seq<Seq<char>>, mode: Option<GlyphMode>) -> Result<
    Option<GlyphMode>,
    Seq<char>,
>
    decreases args.len(),
{
    if args.len() == 0 {
        Ok(mode)
    } else {
        let arg = args[0];
        let value: Option<(Seq<char>, int)> = if arg == "--glyphs"@ {
            if args.len() >= 2 {
                Some((args[1], 2))
            } else {
                None
            }
        } else if has_prefix(arg, "--glyphs="@) {
            Some((arg.skip(9), 1))
        } else {
            None
        };
        if arg == "--glyphs"@ && args.len() < 2 {
            Err("--glyphs requires nerd, unicode, or ascii"@)
        } else if value is None {
            Err("unknown argument "@ + debug_text(arg))
        } else if mode is Some {
            Err("--glyphs may only be specified once"@)
        } else {
            match value {
                Some((text, step)) => match parsed_glyph_mode(text) {
                    Ok(m) => glyph_args_outcome(args.skip(step), Some(m)),
                    Err(e) => Err(e),
                },
                None => Err(Seq::empty()),
            }
        }
    }
}

pub open spec fn args_view(v: Seq<String>) -> Seq<Seq<char>> {
    v.map_values(|s: String| s@)
}

/// Reads the command line: `--glyphs MODE` or `--glyphs=MODE`, at most
/// once; any other argument is an error.
pub fn parse_glyph_args(args: Vec<String>) -> (r: Result<Option<GlyphMode>, String>)
    ensures
        result_view(r) == glyph_args_outcome(args_view(args@), None),
{
    let mut mode: Option<GlyphMode> = None;
    let mut i: usize = 0;
    assert(args_view(args@).skip(0) =~= args_view(args@));
    while i < args.len()
        invariant
            i <= args@.len(),
            glyph_args_outcome(args_view(args@), None) == glyph_args_outcome(
                args_view(args@).skip(i as int),
                mode,
            ),
        decreases args@.len() - i,
    {
        let ghost rest = args_view(args@).skip(i as int);
        let arg = &args[i];
        assert(rest[0] == arg@);
        let value: String;
        let step: usize;
        if crate::enums::same_text(arg.as_str(), "--glyphs") {
            if i + 1 < args.len() {
                value = args[i + 1].clone();
                step = 2;
                assert(rest[1] == args@[i + 1]@);
            } else {
                return Err("--glyphs requires nerd, unicode, or ascii".to_owned());
            }
        } else {
            match strip_prefix(arg.as_str(), "--glyphs=") {
                Some(v) => {
                    proof {
                        reveal_strlit("--glyphs=");
                    }
                    value = v;
                    step = 1;
                },
                None => {
                    let mut message = "unknown argument ".to_owned();
                    let quoted = debug_quoted(arg.as_str());
                    push_str(&mut message, quoted.as_str());
                    return Err(message);
                },
            }
        }
        if mode.is_some() {
            return Err("--glyphs may only be specified once".to_owned());
        }
        match parse_glyph_mode(value.as_str()) {
            Ok(m) => {
                mode = Some(m);
            },
            Err(e) => {
                return Err(e);
            },
        }
        proof {
            assert(rest.skip(step as int) =~= args_view(args@).skip(i + step));
        }
        i = i + step;
    }
    Ok(mode)
}

/// The first of the three locale variables that is set and not empty.
pub open spec fn first_locale(a: Option<Seq<char>>, b: Option<Seq<char>>, c: Option<Seq<char>>) -> Seq<char> {
    if a matches Some(v) && v.len() > 0 {
        a->0
    } else if b matches Some(v) && v.len() > 0 {
        b->0
    } else if c matches Some(v) && v.len() > 0 {
        c->0
    } else {
        Seq::empty()
    }
}

/// Nerd Font symbols on a UTF-8 locale, ASCII otherwise.
pub open spec fn locale_mode(a: Option<Seq<char>>, b: Option<Seq<char>>, c: Option<Seq<char>>) -> GlyphMode {
    let locale = ascii_lowered(first_locale(a, b, c));
    if has_substring(locale, "utf-8"@) || has_substring(locale, "utf8"@) {
        GlyphMode::NerdFont
    } else {
        GlyphMode::Ascii
    }
}

pub open spec fn opt_view(s: Option<&str>) -> Option<Seq<char>> {
    match s {
        Some(t) => Some(t@),
        None => None,
    }
}

fn nonempty(s: Option<&str>) -> (r: bool)
    ensures
        r == (s matches Some(v) && v@.len() > 0),
{
    match s {
        Some(v) => !v.is_empty(),
        None => false,
    }
}

/// The glyph mode a locale (`LC_ALL`, `LC_CTYPE`, `LANG`, in that order of
/// precedence) calls for.
pub fn locale_glyph_mode(lc_all: Option<&str>, lc_ctype: Option<&str>, lang: Option<&str>) -> (r:
    GlyphMode)
    ensures
        r == locale_mode(opt_view(lc_all), opt_view(lc_ctype), opt_view(lang)),
{
    let chosen: &str = if nonempty(lc_all) {
        lc_all.unwrap()
    } else if nonempty(lc_ctype) {
        lc_ctype.unwrap()
    } else if nonempty(lang) {
        lang.unwrap()
    } else {
        ""
    };
    proof {
        reveal_strlit("");
        assert(chosen@ =~= first_locale(opt_view(lc_all), opt_view(lc_ctype), opt_view(lang)));
    }
    let locale = to_ascii_lowercase(chosen);
    if contains_str(locale.as_str(), "utf-8") || contains_str(locale.as_str(), "utf8") {
        GlyphMode::NerdFont
    } else {
        GlyphMode::Ascii
    }
}

pub open spec fn mode_debug_text(m: GlyphMode) -> Seq<char> {
    match m {
        GlyphMode::NerdFont => "NerdFont"@,
        GlyphMode::Unicode => "Unicode"@,
        GlyphMode::Ascii => "Ascii"@,
    }
}

pub open spec fn invalid_config_text(value: Seq<char>, fallback: GlyphMode) -> Seq<char> {
    "tui.toml: glyph_mode = "@ + debug_text(value)
        + " is invalid (expected \"nerd\", \"unicode\", or \"ascii\") \u{2014} using "@
        + mode_debug_text(fallback)
}

/// The glyph mode in force: the command line wins, then the configuration
/// file, then the locale. An invalid configured value falls back to the
/// locale with a warning.
pub open spec fn resolved_mode(
    cli: Option<GlyphMode>,
    configured: Option<Seq<char>>,
    a: Option<Seq<char>>,
    b: Option<Seq<char>>,
    c: Option<Seq<char>>,
) -> (GlyphMode, Option<Seq<char>>) {
    match cli {
        Some(m) => (m, None),
        None => match configured {
            Some(v) => match parsed_glyph_mode(v) {
                Ok(m) => (m, None),
                Err(_) => (locale_mode(a, b, c), Some(invalid_config_text(v, locale_mode(a, b, c)))),
            },
            None => (locale_mode(a, b, c), None),
        },
    }
}

fn mode_debug(m: GlyphMode) -> (r: &'static str)
    ensures
        r@ == mode_debug_text(m),
{
    match m {
        GlyphMode::NerdFont => "NerdFont",
        GlyphMode::Unicode => "Unicode",
        GlyphMode::Ascii => "Ascii",
    }
}

pub fn resolve_glyph_mode(
    cli: Option<GlyphMode>,
    configured: Option<&str>,
    lc_all: Option<&str>,
    lc_ctype: Option<&str>,
    lang: Option<&str>,
) -> (r: (GlyphMode, Option<String>))
    ensures
        (r.0, match r.1 {
            Some(w) => Some(w@),
            None => None,
        }) == resolved_mode(
            cli,
            opt_view(configured),
            opt_view(lc_all),
            opt_view(lc_ctype),
            opt_view(lang),
        ),
{
    if let Some(mode) = cli {
        return (mode, None);
    }
    if let Some(value) = configured {
        match parse_glyph_mode(value) {
            Ok(mode) => {
                return (mode, None);
            },
            Err(_) => {
                let fallback = locale_glyph_mode(lc_all, lc_ctype, lang);
                let mut message = "tui.toml: glyph_mode = ".to_owned();
                let quoted = debug_quoted(value);
                push_str(&mut message, quoted.as_str());
                push_str(
                    &mut message,
                    " is invalid (expected \"nerd\", \"unicode\", or \"ascii\") \u{2014} using ",
                );
                push_str(&mut message, mode_debug(fallback));
                return (fallback, Some(message));
            },
        }
    }
    (locale_glyph_mode(lc_all, lc_ctype, lang), None)
}


/// `tui.toml`: which server to use and how to draw.
#[derive(Clone, Debug)]
pub struct TuiConfig {
    pub server_url: String,
    pub auto_start_server: bool,
    /// Path to `ario_daemon`. Empty = sibling of this binary, then PATH.
    pub server_binary: String,
    pub theme: String,
    /// Optional rendering mode: "nerd", "unicode", or "ascii".
    /// Unset means Nerd Font on UTF-8 locales, ASCII otherwise.
    pub glyph_mode: Option<String>,
    pub custom_theme: CustomTheme,
}

impl Default for TuiConfig {
    fn default() -> (r: Self)
        ensures
            r.server_url@ == "http://127.0.0.1:47812"@,
            r.auto_start_server,
            r.server_binary@ == Seq::<char>::empty(),
            r.theme@ == "default"@,
            r.glyph_mode is None,
    {
        TuiConfig {
            server_url: "http://127.0.0.1:47812".to_owned(),
            auto_start_server: true,
            server_binary: String::new(),
            theme: "default".to_owned(),
            glyph_mode: None,
            custom_theme: CustomTheme::default(),
        }
    }
}

} // verus!
