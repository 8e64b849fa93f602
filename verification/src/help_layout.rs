//! The keybinding help as lines: words wrapped to the modal's width, each
//! section's title and rule, and keys beside their descriptions (or above
//! them on narrow screens), plus the search line and the position footer.
use vstd::prelude::*;
use crate::category::lowercase_text;
use crate::overlays::{bindings_view, catalog, filtered, filtered_sections, results_view};
use crate::table::{display_width, grapheme_clusters, graphemes, strings_view, width_of};
use crate::text::{chars_of, push_char, push_str, string_of};
use crate::textops::{is_space, space};

verus! {

/// The words finished so far and the one being read.
pub open spec fn words_state(s: Seq<char>) -> (Seq<Seq<char>>, Seq<char>)
    decreases s.len(),
{
    if s.len() == 0 {
        (Seq::empty(), Seq::empty())
    } else {
        let prev = words_state(s.drop_last());
        if is_space(s.last()) {
            if prev.1.len() > 0 {
                (prev.0.push(prev.1), Seq::empty())
            } else {
                prev
            }
        } else {
            (prev.0, prev.1.push(s.last()))
        }
    }
}

/// `str::split_whitespace`: the runs of characters between whitespace.
pub open spec fn words(s: Seq<char>) -> Seq<Seq<char>> {
    let st = words_state(s);
    if st.1.len() > 0 {
        st.0.push(st.1)
    } else {
        st.0
    }
}

pub fn split_words(text: &str) -> (r: Vec<String>)
    ensures
        strings_view(r@) == words(text@),
{
    let cs = chars_of(text);
    let mut done: Vec<String> = Vec::new();
    let mut cur: Vec<char> = Vec::new();
    let mut i: usize = 0;
    while i < cs.len()
        invariant
            i <= cs@.len(),
            cs@ == text@,
            strings_view(done@) == words_state(cs@.take(i as int)).0,
            cur@ == words_state(cs@.take(i as int)).1,
        decreases cs@.len() - i,
    {
        proof {
            assert(cs@.take(i + 1).drop_last() =~= cs@.take(i as int));
        }
        let c = cs[i];
        if space(c) {
            if cur.len() > 0 {
                let ghost before = strings_view(done@);
                let w = string_of(&cur);
                done.push(w);
                proof {
                    assert(strings_view(done@) =~= before.push(cur@));
                }
                cur = Vec::new();
            }
        } else {
            cur.push(c);
        }
        i = i + 1;
    }
    proof {
        assert(cs@.take(i as int) =~= cs@);
    }
    if cur.len() > 0 {
        let ghost before = strings_view(done@);
        let w = string_of(&cur);
        done.push(w);
        proof {
            assert(strings_view(done@) =~= before.push(cur@));
        }
    }
    done
}

/// A word's clusters added to the current line one by one; a cluster that
/// would overflow a line that already holds something starts a new one.
pub open spec fn put_clusters(st: (Seq<Seq<char>>, Seq<char>), gs: Seq<Seq<char>>, width: nat) -> (
    Seq<Seq<char>>,
    Seq<char>,
)
    decreases gs.len(),
{
    if gs.len() == 0 {
        st
    } else {
        let prev = put_clusters(st, gs.drop_last(), width);
        let g = gs.last();
        if prev.1.len() > 0 && display_width(prev.1) + display_width(g) > width {
            (prev.0.push(prev.1), g)
        } else {
            (prev.0, prev.1 + g)
        }
    }
}

/// One word added: the line is closed first when the word (after a
/// space) would not fit on it, then the word goes on, cluster by cluster.
pub open spec fn put_word(st: (Seq<Seq<char>>, Seq<char>), word: Seq<char>, width: nat) -> (
    Seq<Seq<char>>,
    Seq<char>,
) {
    let broken = if st.1.len() > 0 && display_width(st.1) + 1 + display_width(word) > width {
        (st.0.push(st.1), Seq::<char>::empty())
    } else {
        st
    };
    let spaced = if broken.1.len() > 0 {
        (broken.0, broken.1.push(' '))
    } else {
        broken
    };
    put_clusters(spaced, grapheme_clusters(word), width)
}

pub open spec fn put_words(ws: Seq<Seq<char>>, width: nat) -> (Seq<Seq<char>>, Seq<char>)
    decreases ws.len(),
{
    if ws.len() == 0 {
        (Seq::empty(), Seq::empty())
    } else {
        put_word(put_words(ws.drop_last(), width), ws.last(), width)
    }
}

/// The text's words filled into lines of `width` cells; no lines for a
/// zero width.
pub open spec fn wrapped_words(text: Seq<char>, width: nat) -> Seq<Seq<char>> {
    if width == 0 {
        Seq::empty()
    } else {
        let st = put_words(words(text), width);
        if st.1.len() > 0 {
            st.0.push(st.1)
        } else {
            st.0
        }
    }
}

/// Whether `a + b (+ c)` cells exceed `width`; a sum past `usize` does.
fn exceeds(a: usize, b: usize, c: usize, width: usize) -> (r: bool)
    ensures
        r == (a + b + c > width),
{
    match a.checked_add(b) {
        Some(ab) => match ab.checked_add(c) {
            Some(t) => t > width,
            None => true,
        },
        None => true,
    }
}

fn put_word_into(lines: &mut Vec<String>, line: &mut String, word: &str, width: usize)
    ensures
        (strings_view(final(lines)@), final(line)@) == put_word((strings_view(old(lines)@), old(line)@), word@, width as nat),
{
    let ghost st0 = (strings_view(lines@), line@);
    if !line.as_str().is_empty() && exceeds(width_of(line.as_str()), 1, width_of(word), width) {
        let ghost before = strings_view(lines@);
        let done = line.clone();
        *line = String::new();
        lines.push(done);
        proof {
            assert(strings_view(lines@) =~= before.push(st0.1));
        }
    }
    let ghost broken = (strings_view(lines@), line@);
    if !line.as_str().is_empty() {
        push_str(line, " ");
        proof {
            reveal_strlit(" ");
            assert(line@ =~= broken.1.push(' '));
        }
    }
    let ghost spaced = (strings_view(lines@), line@);
    proof {
        let b = if st0.1.len() > 0 && display_width(st0.1) + 1 + display_width(word@) > width {
            (st0.0.push(st0.1), Seq::<char>::empty())
        } else {
            st0
        };
        assert(broken == b);
        assert(spaced == (if b.1.len() > 0 {
            (b.0, b.1.push(' '))
        } else {
            b
        }));
    }
    let gs = graphemes(word);
    let ghost g = grapheme_clusters(word@);
    let mut i: usize = 0;
    proof {
        assert(g.take(0) =~= Seq::<Seq<char>>::empty());
    }
    while i < gs.len()
        invariant
            i <= gs@.len(),
            strings_view(gs@) == g,
            (strings_view(lines@), line@) == put_clusters(spaced, g.take(i as int), width as nat),
        decreases gs@.len() - i,
    {
        proof {
            assert(g.take(i + 1).drop_last() =~= g.take(i as int));
            assert(g.take(i + 1).last() == gs@[i as int]@);
        }
        let piece = gs[i].as_str();
        if !line.as_str().is_empty() && exceeds(width_of(line.as_str()), width_of(piece), 0, width) {
            let ghost before = strings_view(lines@);
            let ghost cur = line@;
            let done = line.clone();
        *line = String::new();
            lines.push(done);
            proof {
                assert(strings_view(lines@) =~= before.push(cur));
            }
        }
        push_str(line, piece);
        i = i + 1;
    }
    proof {
        assert(g.take(i as int) =~= g);
    }
}

/// `text` wrapped at word boundaries into lines of at most `width` cells,
/// breaking inside a word only where the word alone is too wide.
pub fn wrap_text(text: &str, width: usize) -> (r: Vec<String>)
    ensures
        strings_view(r@) == wrapped_words(text@, width as nat),
{
    if width == 0 {
        let r: Vec<String> = Vec::new();
        assert(strings_view(r@) =~= Seq::<Seq<char>>::empty());
        return r;
    }
    let ws = split_words(text);
    let ghost w = words(text@);
    let mut lines: Vec<String> = Vec::new();
    let mut line = String::new();
    let mut i: usize = 0;
    proof {
        assert(w.take(0) =~= Seq::<Seq<char>>::empty());
        assert(strings_view(lines@) =~= Seq::<Seq<char>>::empty());
    }
    while i < ws.len()
        invariant
            i <= ws@.len(),
            strings_view(ws@) == w,
            width > 0,
            (strings_view(lines@), line@) == put_words(w.take(i as int), width as nat),
        decreases ws@.len() - i,
    {
        proof {
            assert(w.take(i + 1).drop_last() =~= w.take(i as int));
            assert(w.take(i + 1).last() == ws@[i as int]@);
        }
        put_word_into(&mut lines, &mut line, ws[i].as_str(), width);
        i = i + 1;
    }
    proof {
        assert(w.take(i as int) =~= w);
    }
    if !line.as_str().is_empty() {
        let ghost before = strings_view(lines@);
        let ghost cur = line@;
        lines.push(line);
        proof {
            assert(strings_view(lines@) =~= before.push(cur));
        }
    }
    lines
}

/// One line of the help as the screen draws it.
#[derive(Clone, Debug, PartialEq, Eq)]
pub enum HelpLine {
    /// The gap between sections, and after a binding on narrow screens.
    Blank,
    /// A line of a section's title.
    Title(String),
    /// The rule under a title, as wide as the help.
    Rule(String),
    /// A line of a binding's keys, on narrow screens.
    Keys(String),
    /// A line of a binding's description, on narrow screens.
    Description(String),
    /// Keys, the spaces up to the description column, and the description.
    Row { keys: String, padding: String, description: String },
    /// The note shown when nothing matches the search.
    Message(String),
}

pub enum HelpLineModel {
    Blank,
    Title(Seq<char>),
    Rule(Seq<char>),
    Keys(Seq<char>),
    Description(Seq<char>),
    Row(Seq<char>, Seq<char>, Seq<char>),
    Message(Seq<char>),
}

pub open spec fn line_model(l: HelpLine) -> HelpLineModel {
    match l {
        HelpLine::Blank => HelpLineModel::Blank,
        HelpLine::Title(t) => HelpLineModel::Title(t@),
        HelpLine::Rule(t) => HelpLineModel::Rule(t@),
        HelpLine::Keys(t) => HelpLineModel::Keys(t@),
        HelpLine::Description(t) => HelpLineModel::Description(t@),
        HelpLine::Row { keys, padding, description } => HelpLineModel::Row(keys@, padding@, description@),
        HelpLine::Message(t) => HelpLineModel::Message(t@),
    }
}

pub open spec fn lines_model(v: Seq<HelpLine>) -> Seq<HelpLineModel> {
    v.map_values(|l: HelpLine| line_model(l))
}

/// What a line reads, spans joined.
pub open spec fn line_text(m: HelpLineModel) -> Seq<char> {
    match m {
        HelpLineModel::Blank => Seq::empty(),
        HelpLineModel::Title(t) => t,
        HelpLineModel::Rule(t) => t,
        HelpLineModel::Keys(t) => t,
        HelpLineModel::Description(t) => t,
        HelpLineModel::Row(k, p, d) => k + p + d,
        HelpLineModel::Message(t) => t,
    }
}

impl HelpLine {
    pub fn text(&self) -> (r: String)
        ensures
            r@ == line_text(line_model(*self)),
    {
        match self {
            HelpLine::Blank => String::new(),
            HelpLine::Title(t) => t.clone(),
            HelpLine::Rule(t) => t.clone(),
            HelpLine::Keys(t) => t.clone(),
            HelpLine::Description(t) => t.clone(),
            HelpLine::Row { keys, padding, description } => {
                let mut s = keys.clone();
                push_str(&mut s, padding.as_str());
                push_str(&mut s, description.as_str());
                s
            },
            HelpLine::Message(t) => t.clone(),
        }
    }
}

/// The kinds of lines that wrapped text is drawn as.
#[derive(Clone, Copy, Debug, PartialEq, Eq, Structural)]
pub enum LineKind {
    Title,
    Keys,
    Description,
    Message,
}

pub open spec fn kind_line(k: LineKind, t: Seq<char>) -> HelpLineModel {
    match k {
        LineKind::Title => HelpLineModel::Title(t),
        LineKind::Keys => HelpLineModel::Keys(t),
        LineKind::Description => HelpLineModel::Description(t),
        LineKind::Message => HelpLineModel::Message(t),
    }
}

pub open spec fn kind_lines(k: LineKind, ls: Seq<Seq<char>>) -> Seq<HelpLineModel> {
    ls.map_values(|t: Seq<char>| kind_line(k, t))
}

pub open spec fn repeated(c: char, n: nat) -> Seq<char> {
    Seq::new(n, |i: int| c)
}

/// The key column: half the width, at most 22 cells.
pub open spec fn key_column(width: nat) -> nat {
    if width / 2 < 22 {
        width / 2
    } else {
        22
    }
}

/// Spaces after a key line up to two cells past the key column (none
/// after a line wider than the column).
pub open spec fn key_padding(key_width: nat, cells: nat) -> nat {
    if cells <= key_width {
        (key_width + 2 - cells) as nat
    } else {
        0
    }
}

pub open spec fn row_at(kl: Seq<Seq<char>>, dl: Seq<Seq<char>>, kw: nat, i: int) -> HelpLineModel {
    let k = if i < kl.len() {
        kl[i]
    } else {
        Seq::empty()
    };
    let d = if i < dl.len() {
        dl[i]
    } else {
        Seq::empty()
    };
    HelpLineModel::Row(k, repeated(' ', key_padding(kw, display_width(k))), d)
}

pub open spec fn rows(kl: Seq<Seq<char>>, dl: Seq<Seq<char>>, kw: nat, n: nat) -> Seq<HelpLineModel> {
    Seq::new(n, |i: int| row_at(kl, dl, kw, i))
}

/// One binding: below 32 cells its keys, its description and a gap, one
/// under the other; otherwise rows of keys beside the description.
pub open spec fn binding_lines(keys: Seq<char>, desc: Seq<char>, width: nat) -> Seq<HelpLineModel> {
    if width < 32 {
        kind_lines(LineKind::Keys, wrapped_words(keys, width)) + kind_lines(
            LineKind::Description,
            wrapped_words(desc, width),
        ) + seq![HelpLineModel::Blank]
    } else {
        let kw = key_column(width);
        let kl = wrapped_words(keys, kw);
        let dl = wrapped_words(desc, (width - kw - 2) as nat);
        rows(kl, dl, kw, if kl.len() < dl.len() { dl.len() } else { kl.len() })
    }
}

/// A section: its title, a rule, then its bindings.
pub open spec fn section_lines(title: Seq<char>, bindings: Seq<(Seq<char>, Seq<char>)>, width: nat) -> Seq<HelpLineModel>
    decreases bindings.len(),
{
    if bindings.len() == 0 {
        kind_lines(LineKind::Title, wrapped_words(title, width)).push(HelpLineModel::Rule(repeated('\u{2500}', width)))
    } else {
        section_lines(title, bindings.drop_last(), width) + binding_lines(bindings.last().0, bindings.last().1, width)
    }
}

/// The sections in order, a blank line between them.
pub open spec fn sections_lines(sections: Seq<(Seq<char>, Seq<(Seq<char>, Seq<char>)>)>, width: nat) -> Seq<HelpLineModel>
    decreases sections.len(),
{
    if sections.len() == 0 {
        Seq::empty()
    } else {
        let prev = sections_lines(sections.drop_last(), width);
        let gap = if prev.len() > 0 {
            seq![HelpLineModel::Blank]
        } else {
            Seq::empty()
        };
        prev + gap + section_lines(sections.last().0, sections.last().1, width)
    }
}

/// The help for a search at a width: the matching sections, or a note
/// that nothing matches.
pub open spec fn help_layout(query: Seq<char>, width: nat) -> Seq<HelpLineModel> {
    let sections = filtered(lowercase_text(query), catalog());
    if sections.len() == 0 {
        kind_lines(LineKind::Message, wrapped_words("No matching keybindings"@, width))
    } else {
        sections_lines(sections, width)
    }
}

fn repeat_char(c: char, n: usize) -> (r: String)
    ensures
        r@ == repeated(c, n as nat),
{
    let mut s = String::new();
    let mut i: usize = 0;
    while i < n
        invariant
            i <= n,
            s@ == repeated(c, i as nat),
        decreases n - i,
    {
        push_char(&mut s, c);
        assert(s@ =~= repeated(c, (i + 1) as nat));
        i = i + 1;
    }
    s
}

fn make_line(k: LineKind, t: String) -> (r: HelpLine)
    ensures
        line_model(r) == kind_line(k, t@),
{
    match k {
        LineKind::Title => HelpLine::Title(t),
        LineKind::Keys => HelpLine::Keys(t),
        LineKind::Description => HelpLine::Description(t),
        LineKind::Message => HelpLine::Message(t),
    }
}

fn push_wrapped(out: &mut Vec<HelpLine>, k: LineKind, text: &str, width: usize)
    ensures
        lines_model(final(out)@) == lines_model(old(out)@) + kind_lines(k, wrapped_words(text@, width as nat)),
{
    let ws = wrap_text(text, width);
    let ghost w = strings_view(ws@);
    let ghost base = lines_model(out@);
    let mut i: usize = 0;
    proof {
        assert(kind_lines(k, w.take(0)) =~= Seq::<HelpLineModel>::empty());
        assert(lines_model(out@) =~= base + kind_lines(k, w.take(0)));
    }
    while i < ws.len()
        invariant
            i <= ws@.len(),
            w == strings_view(ws@),
            lines_model(out@) == base + kind_lines(k, w.take(i as int)),
        decreases ws@.len() - i,
    {
        let t = ws[i].clone();
        let ghost before = lines_model(out@);
        out.push(make_line(k, t));
        proof {
            assert(lines_model(out@) =~= before.push(kind_line(k, w[i as int])));
            assert(kind_lines(k, w.take(i + 1)) =~= kind_lines(k, w.take(i as int)).push(kind_line(k, w[i as int])));
            assert(lines_model(out@) =~= base + kind_lines(k, w.take(i + 1)));
        }
        i = i + 1;
    }
    proof {
        assert(w.take(i as int) =~= w);
    }
}

fn push_rows(out: &mut Vec<HelpLine>, keys: &str, desc: &str, width: usize)
    requires
        width >= 32,
    ensures
        lines_model(final(out)@) == lines_model(old(out)@) + binding_lines(keys@, desc@, width as nat),
{
    let kw: usize = if width / 2 < 22 {
        width / 2
    } else {
        22
    };
    let kl = wrap_text(keys, kw);
    let dl = wrap_text(desc, width - kw - 2);
    let n: usize = if kl.len() < dl.len() {
        dl.len()
    } else {
        kl.len()
    };
    let ghost k = strings_view(kl@);
    let ghost d = strings_view(dl@);
    let ghost base = lines_model(out@);
    let mut i: usize = 0;
    proof {
        assert(rows(k, d, kw as nat, 0) =~= Seq::<HelpLineModel>::empty());
        assert(lines_model(out@) =~= base + rows(k, d, kw as nat, 0));
    }
    while i < n
        invariant
            i <= n,
            kw <= 22,
            k == strings_view(kl@),
            d == strings_view(dl@),
            n == (if kl@.len() < dl@.len() { dl@.len() } else { kl@.len() }),
            lines_model(out@) == base + rows(k, d, kw as nat, i as nat),
        decreases n - i,
    {
        let key = if i < kl.len() {
            kl[i].clone()
        } else {
            String::new()
        };
        let description = if i < dl.len() {
            dl[i].clone()
        } else {
            String::new()
        };
        let cells = width_of(key.as_str());
        let pad: usize = if cells <= kw {
            kw + 2 - cells
        } else {
            0
        };
        let padding = repeat_char(' ', pad);
        let ghost before = lines_model(out@);
        out.push(HelpLine::Row { keys: key, padding, description });
        proof {
            assert(out@.len() == before.len() + 1);
            assert(line_model(out@.last()) == row_at(k, d, kw as nat, i as int));
            assert(lines_model(out@) =~= before.push(row_at(k, d, kw as nat, i as int)));
            assert(rows(k, d, kw as nat, (i + 1) as nat) =~= rows(k, d, kw as nat, i as nat).push(
                row_at(k, d, kw as nat, i as int),
            ));
            assert(lines_model(out@) =~= base + rows(k, d, kw as nat, (i + 1) as nat));
        }
        i = i + 1;
    }
}

fn push_binding(out: &mut Vec<HelpLine>, keys: &str, desc: &str, width: usize)
    ensures
        lines_model(final(out)@) == lines_model(old(out)@) + binding_lines(keys@, desc@, width as nat),
{
    if width < 32 {
        let ghost base = lines_model(out@);
        push_wrapped(out, LineKind::Keys, keys, width);
        push_wrapped(out, LineKind::Description, desc, width);
        let ghost before = lines_model(out@);
        out.push(HelpLine::Blank);
        proof {
            assert(lines_model(out@) =~= before.push(HelpLineModel::Blank));
            assert(lines_model(out@) =~= base + binding_lines(keys@, desc@, width as nat));
        }
    } else {
        push_rows(out, keys, desc, width);
    }
}

fn push_section(out: &mut Vec<HelpLine>, title: &str, bindings: &Vec<(&'static str, &'static str)>, width: usize)
    ensures
        lines_model(final(out)@) == lines_model(old(out)@) + section_lines(title@, bindings_view(bindings@), width as nat),
{
    let ghost base = lines_model(out@);
    let ghost bv = bindings_view(bindings@);
    push_wrapped(out, LineKind::Title, title, width);
    let ghost titled = lines_model(out@);
    out.push(HelpLine::Rule(repeat_char('\u{2500}', width)));
    proof {
        assert(lines_model(out@) =~= titled.push(HelpLineModel::Rule(repeated('\u{2500}', width as nat))));
        assert(bv.take(0).len() == 0);
        assert(lines_model(out@) =~= base + section_lines(title@, bv.take(0), width as nat));
    }
    let mut j: usize = 0;
    while j < bindings.len()
        invariant
            j <= bindings@.len(),
            bv == bindings_view(bindings@),
            lines_model(out@) == base + section_lines(title@, bv.take(j as int), width as nat),
        decreases bindings@.len() - j,
    {
        let (keys, desc) = bindings[j];
        let ghost before = lines_model(out@);
        push_binding(out, keys, desc, width);
        proof {
            assert(bv.take(j + 1).drop_last() =~= bv.take(j as int));
            assert(bv.take(j + 1).last() == (keys@, desc@));
            assert(lines_model(out@) =~= base + section_lines(title@, bv.take(j + 1), width as nat));
        }
        j = j + 1;
    }
    proof {
        assert(bv.take(j as int) =~= bv);
    }
}

/// The help's lines for a search at a width.
pub fn help_lines(query: &str, width: usize) -> (r: Vec<HelpLine>)
    ensures
        lines_model(r@) == help_layout(query@, width as nat),
{
    let sections = filtered_sections(query);
    let ghost sv = results_view(sections@);
    let mut out: Vec<HelpLine> = Vec::new();
    if sections.len() == 0 {
        push_wrapped(&mut out, LineKind::Message, "No matching keybindings", width);
        proof {
            assert(lines_model(Seq::<HelpLine>::empty()) =~= Seq::<HelpLineModel>::empty());
            assert(lines_model(out@) =~= kind_lines(LineKind::Message, wrapped_words("No matching keybindings"@, width as nat)));
        }
        return out;
    }
    let mut i: usize = 0;
    proof {
        assert(lines_model(out@) =~= sections_lines(sv.take(0), width as nat));
    }
    while i < sections.len()
        invariant
            i <= sections@.len(),
            sv == results_view(sections@),
            lines_model(out@) == sections_lines(sv.take(i as int), width as nat),
        decreases sections@.len() - i,
    {
        let ghost prev = lines_model(out@);
        if out.len() > 0 {
            out.push(HelpLine::Blank);
            proof {
                assert(lines_model(out@) =~= prev + seq![HelpLineModel::Blank]);
            }
        } else {
            proof {
                assert(lines_model(out@) =~= prev + Seq::<HelpLineModel>::empty());
            }
        }
        push_section(&mut out, sections[i].0, &sections[i].1, width);
        proof {
            assert(sv.take(i + 1).drop_last() =~= sv.take(i as int));
            assert(sv.take(i + 1).last() == sv[i as int]);
            assert(lines_model(out@) =~= sections_lines(sv.take(i + 1), width as nat));
        }
        i = i + 1;
    }
    proof {
        assert(sv.take(i as int) =~= sv);
    }
    out
}

/// The end of `s` that fits in `available` cells: leading clusters are
/// dropped, one at a time, until the rest fits.
pub open spec fn fitting_tail(s: Seq<char>, available: nat) -> Seq<char>
    decreases s.len(),
{
    if display_width(s) <= available {
        s
    } else {
        let gs = grapheme_clusters(s);
        if gs.len() == 0 || gs[0].len() == 0 || gs[0].len() > s.len() {
            s
        } else {
            fitting_tail(s.skip(gs[0].len() as int), available)
        }
    }
}

pub fn fit_tail(s: &str, available: usize) -> (r: String)
    ensures
        r@ == fitting_tail(s@, available as nat),
{
    let mut cur = s.to_owned();
    loop
        invariant
            fitting_tail(cur@, available as nat) == fitting_tail(s@, available as nat),
        decreases cur@.len(),
    {
        if width_of(cur.as_str()) <= available {
            return cur;
        }
        let gs = graphemes(cur.as_str());
        if gs.len() == 0 {
            return cur;
        }
        let first = chars_of(gs[0].as_str());
        let n = first.len();
        let cs = chars_of(cur.as_str());
        if n == 0 || n > cs.len() {
            return cur;
        }
        let mut rest: Vec<char> = Vec::new();
        let mut k: usize = n;
        while k < cs.len()
            invariant
                n <= k <= cs@.len(),
                rest@ == cs@.subrange(n as int, k as int),
            decreases cs@.len() - k,
        {
            rest.push(cs[k]);
            assert(rest@ =~= cs@.subrange(n as int, k + 1));
            k = k + 1;
        }
        proof {
            assert(rest@ =~= cs@.skip(n as int));
        }
        cur = string_of(&rest);
    }
}

/// The search line: a hint while there is no search, else `/ ` and the
/// query, its end kept visible (one cell is left for the cursor while
/// typing).
pub open spec fn search_text(query: Seq<char>, editing: bool, width: nat) -> Seq<char> {
    if query.len() == 0 && !editing {
        "/: search keybindings"@
    } else {
        let available: nat = if editing {
            if width > 0 {
                (width - 1) as nat
            } else {
                0
            }
        } else {
            width
        };
        fitting_tail("/ "@ + query, available)
    }
}

pub fn search_line(query: &str, editing: bool, width: usize) -> (r: String)
    ensures
        r@ == search_text(query@, editing, width as nat),
{
    if query.is_empty() && !editing {
        return "/: search keybindings".to_owned();
    }
    let available = if editing {
        width.saturating_sub(1)
    } else {
        width
    };
    let mut line = "/ ".to_owned();
    push_str(&mut line, query);
    fit_tail(line.as_str(), available)
}

/// The last line shown: a screenful from the scroll position, or the end.
pub open spec fn shown_end(scroll: nat, viewport: nat, total: nat) -> nat {
    if scroll + viewport < total {
        scroll + viewport
    } else {
        total
    }
}

/// The footer's `first-end` position (both 0 when nothing is shown).
pub fn help_position(scroll: usize, viewport: usize, total: usize) -> (r: (usize, usize))
    requires
        shown_end(scroll as nat, viewport as nat, total as nat) == 0 || scroll < usize::MAX,
    ensures
        r.1 == shown_end(scroll as nat, viewport as nat, total as nat),
        r.0 == (if r.1 == 0 { 0 } else { scroll + 1 }),
{
    let end = match scroll.checked_add(viewport) {
        Some(t) => if t < total {
            t
        } else {
            total
        },
        None => total,
    };
    let first = if end == 0 {
        0
    } else {
        scroll + 1
    };
    (first, end)
}

} // verus!
