//! Fitting download names into the table: column widths, truncation in the
//! middle that keeps the suffix visible, and wrapping for the details line.
//! Text is handled by grapheme clusters and measured in terminal cells.
use vstd::prelude::*;
use crate::text::{chars_of, string_of, push_str};
use crate::download::DownloadLiveStatus;
use crate::enums::DownloadStatus;
use crate::units::{bytes_text, eta_text, format_bytes, format_eta, format_speed};

verus! {

/// The extended grapheme clusters of a string, in order
/// (`UnicodeSegmentation::graphemes(s, true)`).
pub uninterp spec fn grapheme_clusters(s: Seq<char>) -> Seq<Seq<char>>;

/// The number of terminal cells a string takes (`UnicodeWidthStr::width`).
pub uninterp spec fn display_width(s: Seq<char>) -> nat;

pub open spec fn concat(gs: Seq<Seq<char>>) -> Seq<char>
    decreases gs.len(),
{
    if gs.len() == 0 {
        Seq::empty()
    } else {
        concat(gs.drop_last()) + gs.last()
    }
}

pub open spec fn strings_view(v: Seq<String>) -> Seq<Seq<char>> {
    v.map_values(|s: String| s@)
}

/// `s.graphemes(true)` from unicode-segmentation, collected. The clusters
/// are the pieces of `s` in order, so they concatenate back to `s`.
#[verifier::external_body]
pub(crate) fn graphemes(s: &str) -> (r: Vec<String>)
    ensures
        strings_view(r@) == grapheme_clusters(s@),
        concat(strings_view(r@)) == s@,
{
    unicode_segmentation::UnicodeSegmentation::graphemes(s, true).map(|g| g.to_string()).collect()
}

/// `UnicodeWidthStr::width` from unicode-width: the cells the string
/// takes in a terminal, by its tables.
#[verifier::external_body]
pub(crate) fn width_of(s: &str) -> (r: usize)
    ensures
        r == display_width(s@),
{
    unicode_width::UnicodeWidthStr::width(s)
}

/// How many leading clusters fit greedily in `budget` cells after `used`:
/// the count stops at the first one that would overflow.
pub open spec fn fit_count(gs: Seq<Seq<char>>, budget: nat, used: nat) -> nat
    decreases gs.len(),
{
    if gs.len() == 0 {
        0
    } else if used + display_width(gs[0]) > budget {
        0
    } else {
        1 + fit_count(gs.drop_first(), budget, used + display_width(gs[0]))
    }
}

/// `text` shortened to `width` cells by replacing its middle with
/// `ellipsis`: as many whole clusters of the start as fit in half of the
/// room left, and of the end in the other half (the larger half).
pub open spec fn middle_truncated(text: Seq<char>, width: nat, ellipsis: Seq<char>) -> Seq<char> {
    if display_width(text) <= width {
        text
    } else if width < display_width(ellipsis) {
        ellipsis.take(if width < ellipsis.len() {
            width as int
        } else {
            ellipsis.len() as int
        })
    } else {
        let remaining = (width - display_width(ellipsis)) as nat;
        let head_budget = remaining / 2;
        let tail_budget = (remaining - head_budget) as nat;
        let gs = grapheme_clusters(text);
        let h = fit_count(gs, head_budget, 0);
        let t = fit_count(gs.reverse(), tail_budget, 0);
        concat(gs.take(h as int)) + ellipsis + concat(gs.skip(gs.len() - t))
    }
}

proof fn lemma_fit_count_bound(gs: Seq<Seq<char>>, budget: nat, used: nat)
    ensures
        fit_count(gs, budget, used) <= gs.len(),
    decreases gs.len(),
{
    if gs.len() > 0 && used + display_width(gs[0]) <= budget {
        lemma_fit_count_bound(gs.drop_first(), budget, used + display_width(gs[0]));
    }
}

proof fn lemma_concat_push(gs: Seq<Seq<char>>, g: Seq<char>)
    ensures
        concat(gs.push(g)) == concat(gs) + g,
{
    assert(gs.push(g).drop_last() =~= gs);
}

/// Counts the clusters of `gs` (from index `from`, stepping by `dir`) that
/// fit greedily in `budget`.
fn count_fitting(widths: &Vec<usize>, gs: Ghost<Seq<Seq<char>>>, budget: usize) -> (n: usize)
    requires
        widths@.len() == gs@.len(),
        forall|i: int| 0 <= i < gs@.len() ==> widths@[i] == display_width(#[trigger] gs@[i]),
    ensures
        n == fit_count(gs@, budget as nat, 0),
{
    let mut used: usize = 0;
    let mut n: usize = 0;
    assert(gs@.skip(0) =~= gs@);
    while n < widths.len()
        invariant
            n <= widths@.len(),
            widths@.len() == gs@.len(),
            forall|i: int| 0 <= i < gs@.len() ==> widths@[i] == display_width(#[trigger] gs@[i]),
            used <= budget,
            fit_count(gs@, budget as nat, 0) == n + fit_count(gs@.skip(n as int), budget as nat, used as nat),
        decreases widths@.len() - n,
    {
        let w = widths[n];
        proof {
            assert(gs@.skip(n as int)[0] == gs@[n as int]);
            assert(gs@.skip(n as int).drop_first() =~= gs@.skip(n + 1));
        }
        if w > budget - used {
            return n;
        }
        used = used + w;
        n = n + 1;
    }
    proof {
        assert(gs@.skip(n as int).len() == 0);
    }
    n
}

fn widths_of(gs: &Vec<String>) -> (r: Vec<usize>)
    ensures
        r@.len() == gs@.len(),
        forall|i: int| 0 <= i < gs@.len() ==> r@[i] == display_width(#[trigger] gs@[i]@),
{
    let mut r: Vec<usize> = Vec::new();
    let mut i: usize = 0;
    while i < gs.len()
        invariant
            i <= gs@.len(),
            r@.len() == i,
            forall|k: int| 0 <= k < i ==> r@[k] == display_width(#[trigger] gs@[k]@),
        decreases gs@.len() - i,
    {
        r.push(width_of(gs[i].as_str()));
        i = i + 1;
    }
    r
}

pub(crate) fn join_range(gs: &Vec<String>, lo: usize, hi: usize) -> (r: String)
    requires
        lo <= hi <= gs@.len(),
    ensures
        r@ == concat(strings_view(gs@).subrange(lo as int, hi as int)),
{
    let mut out = String::new();
    let mut i: usize = lo;
    proof {
        assert(strings_view(gs@).subrange(lo as int, lo as int) =~= Seq::<Seq<char>>::empty());
    }
    while i < hi
        invariant
            lo <= i <= hi <= gs@.len(),
            out@ == concat(strings_view(gs@).subrange(lo as int, i as int)),
        decreases hi - i,
    {
        proof {
            let v = strings_view(gs@);
            assert(v.subrange(lo as int, i + 1) =~= v.subrange(lo as int, i as int).push(v[i as int]));
            lemma_concat_push(v.subrange(lo as int, i as int), v[i as int]);
        }
        push_str(&mut out, gs[i].as_str());
        i = i + 1;
    }
    out
}

/// Shortens `text` to `width` cells, keeping its start and its end and
/// putting `ellipsis` in between; text that fits is returned whole.
pub fn middle_truncate(text: &str, width: usize, ellipsis: &str) -> (r: String)
    ensures
        r@ == middle_truncated(text@, width as nat, ellipsis@),
        display_width(text@) > width && width >= display_width(ellipsis@) ==> exists|a: int, b: int|
            0 <= a <= text@.len() && 0 <= b <= text@.len() && r@ == #[trigger] text@.take(a) + ellipsis@
                + #[trigger] text@.skip(b),
{
    if width_of(text) <= width {
        return text.to_owned();
    }
    let marker_width = width_of(ellipsis);
    if width < marker_width {
        let chars = chars_of(ellipsis);
        let mut out: Vec<char> = Vec::new();
        let mut i: usize = 0;
        while i < width && i < chars.len()
            invariant
                i <= width,
                i <= chars@.len(),
                chars@ == ellipsis@,
                out@ == chars@.take(i as int),
            decreases width - i,
        {
            out.push(chars[i]);
            assert(chars@.take(i + 1) =~= chars@.take(i as int).push(chars@[i as int]));
            i = i + 1;
        }
        assert(out@ =~= ellipsis@.take(if width < ellipsis@.len() {
            width as int
        } else {
            ellipsis@.len() as int
        }));
        return string_of(&out);
    }
    let remaining = width - marker_width;
    let head_budget = remaining / 2;
    let tail_budget = remaining - head_budget;
    let gs = graphemes(text);
    let ghost g = grapheme_clusters(text@);
    let widths = widths_of(&gs);
    let h = count_fitting(&widths, Ghost(g), head_budget);
    let mut rev: Vec<usize> = Vec::new();
    let mut j: usize = widths.len();
    while j > 0
        invariant
            j <= widths@.len(),
            widths@.len() == g.len(),
            strings_view(gs@) == g,
            forall|i: int| 0 <= i < g.len() ==> widths@[i] == display_width(#[trigger] g[i]),
            rev@.len() == widths@.len() - j,
            forall|i: int| 0 <= i < rev@.len() ==> rev@[i] == display_width(#[trigger] g.reverse()[i]),
        decreases j,
    {
        j = j - 1;
        rev.push(widths[j]);
        proof {
            assert(g.reverse()[rev@.len() - 1] == g[j as int]);
        }
    }
    let t = count_fitting(&rev, Ghost(g.reverse()), tail_budget);
    proof {
        lemma_fit_count_bound(g.reverse(), tail_budget as nat, 0);
        lemma_fit_count_bound(g, head_budget as nat, 0);
        assert(strings_view(gs@).subrange(0, h as int) =~= g.take(h as int));
        assert(strings_view(gs@).subrange(gs@.len() - t, gs@.len() as int) =~= g.skip(g.len() - t));
    }
    let mut out = join_range(&gs, 0, h);
    push_str(&mut out, ellipsis);
    let tail = join_range(&gs, gs.len() - t, gs.len());
    push_str(&mut out, tail.as_str());
    proof {
        let k = g.len() - t;
        lemma_concat_cut(g, h as int);
        lemma_concat_cut(g, k);
        let a = concat(g.take(h as int)).len() as int;
        let b = text@.len() - concat(g.skip(k)).len();
        assert(out@ == text@.take(a) + ellipsis@ + text@.skip(b));
    }
    out
}

/// The greedy wrap of clusters into lines of at most `width` cells, as
/// (lines, cells used on the last line). A cluster wider than the line is
/// drawn as `?`; a cluster that does not fit starts a new line.
pub open spec fn wrap_state(gs: Seq<Seq<char>>, width: nat) -> (Seq<Seq<char>>, nat)
    decreases gs.len(),
{
    if gs.len() == 0 {
        (seq![Seq::<char>::empty()], 0)
    } else {
        let prev = wrap_state(gs.drop_last(), width);
        let g0 = gs.last();
        let g = if display_width(g0) > width {
            "?"@
        } else {
            g0
        };
        let cells = display_width(g);
        if prev.1 + cells > width {
            (prev.0.push(g), cells)
        } else {
            (prev.0.update(prev.0.len() - 1, prev.0.last() + g), prev.1 + cells)
        }
    }
}

proof fn lemma_wrap_state_nonempty(gs: Seq<Seq<char>>, width: nat)
    ensures
        wrap_state(gs, width).0.len() >= 1,
    decreases gs.len(),
{
    if gs.len() > 0 {
        lemma_wrap_state_nonempty(gs.drop_last(), width);
    }
}

/// Character wrapping of a name: spaces are kept, and names without word
/// breaks wrap too. No lines at all for a zero width.
pub open spec fn wrapped(text: Seq<char>, width: nat) -> Seq<Seq<char>> {
    if width == 0 {
        Seq::empty()
    } else {
        wrap_state(grapheme_clusters(text), width).0
    }
}

pub fn wrap_name(text: &str, width: usize) -> (r: Vec<String>)
    ensures
        strings_view(r@) == wrapped(text@, width as nat),
        width > 0 && (forall|i: int|
            0 <= i < grapheme_clusters(text@).len() ==> display_width(#[trigger] grapheme_clusters(text@)[i])
                <= width) ==> concat(strings_view(r@)) == text@,
{
    if width == 0 {
        let r: Vec<String> = Vec::new();
        assert(strings_view(r@) =~= Seq::<Seq<char>>::empty());
        return r;
    }
    let gs = graphemes(text);
    let ghost g = grapheme_clusters(text@);
    let question = width_of("?");
    let mut done: Vec<String> = Vec::new();
    let mut cur = String::new();
    let mut used: usize = 0;
    let mut i: usize = 0;
    proof {
        assert(g.take(0) =~= Seq::<Seq<char>>::empty());
        assert(strings_view(done@).push(cur@) =~= seq![Seq::<char>::empty()]);
    }
    while i < gs.len()
        invariant
            i <= gs@.len(),
            strings_view(gs@) == g,
            question == display_width("?"@),
            width > 0,
            strings_view(done@).push(cur@) == wrap_state(g.take(i as int), width as nat).0,
            used == wrap_state(g.take(i as int), width as nat).1,
        decreases gs@.len() - i,
    {
        let w = width_of(gs[i].as_str());
        let wide = w > width;
        let cells = if wide {
            question
        } else {
            w
        };
        let overflow = match used.checked_add(cells) {
            Some(total) => total > width,
            None => true,
        };
        proof {
            assert(g.take(i + 1).drop_last() =~= g.take(i as int));
            assert(g.take(i + 1).last() == gs@[i as int]@);
        }
        let ghost before_done = strings_view(done@);
        let ghost before_cur = cur@;
        if overflow {
            done.push(cur);
            cur = String::new();
            used = 0;
        }
        let ghost piece = if wide {
            "?"@
        } else {
            gs@[i as int]@
        };
        let ghost start = cur@;
        if wide {
            push_str(&mut cur, "?");
        } else {
            push_str(&mut cur, gs[i].as_str());
        }
        used = used + cells;
        proof {
            assert(cur@ == start + piece);
            if overflow {
                assert(strings_view(done@) =~= before_done.push(before_cur));
                assert(start =~= Seq::<char>::empty());
                assert(cur@ =~= piece);
                assert(strings_view(done@).push(cur@) =~= before_done.push(before_cur).push(piece));
            } else {
                assert(start == before_cur);
                assert(strings_view(done@).push(cur@) =~= before_done.push(before_cur).update(
                    before_done.len() as int,
                    before_cur + piece,
                ));
            }
        }
        i = i + 1;
    }
    proof {
        assert(g.take(i as int) =~= g);
    }
    let ghost before_done = strings_view(done@);
    done.push(cur);
    proof {
        assert(strings_view(done@) =~= before_done.push(cur@));
        law_wrap_keeps_text_and_fits(text@, width as nat);
    }
    done
}

/// Shortened wraps tried from `budget` cells down: the first whose lines
/// fit in `height`, or the one at zero.
pub open spec fn detail_from(text: Seq<char>, width: nat, height: nat, ellipsis: Seq<char>, budget: nat) -> Seq<Seq<char>>
    decreases budget,
{
    let lines = wrapped(middle_truncated(text, budget, ellipsis), width);
    if lines.len() <= height || budget == 0 {
        lines
    } else {
        detail_from(text, width, height, ellipsis, (budget - 1) as nat)
    }
}

/// The details area: the whole name wrapped when it fits in `height`
/// lines, else the name shortened in the middle until its wrap fits
/// (wide clusters can leave cells unused at line ends, so the budget shrinks
/// one cell at a time from the area's size).
pub open spec fn details(text: Seq<char>, width: nat, height: nat, ellipsis: Seq<char>) -> Seq<Seq<char>> {
    if width == 0 || height == 0 {
        Seq::empty()
    } else {
        let full = wrapped(text, width);
        if full.len() <= height {
            full
        } else {
            detail_from(text, width, height, ellipsis, width * height)
        }
    }
}

pub fn detail_lines(text: &str, width: usize, height: usize, ellipsis: &str) -> (r: Vec<String>)
    requires
        width * height <= usize::MAX,
    ensures
        strings_view(r@) == details(text@, width as nat, height as nat, ellipsis@),
{
    if width == 0 || height == 0 {
        let r: Vec<String> = Vec::new();
        assert(strings_view(r@) =~= Seq::<Seq<char>>::empty());
        return r;
    }
    let full = wrap_name(text, width);
    if full.len() <= height {
        return full;
    }
    let mut budget: usize = width * height;
    loop
        invariant
            width > 0,
            height > 0,
            details(text@, width as nat, height as nat, ellipsis@) == detail_from(
                text@,
                width as nat,
                height as nat,
                ellipsis@,
                budget as nat,
            ),
        decreases budget,
    {
        let shortened = middle_truncate(text, budget, ellipsis);
        let lines = wrap_name(shortened.as_str(), width);
        if lines.len() <= height || budget == 0 {
            return lines;
        }
        budget = budget - 1;
    }
}

pub open spec fn metrics_kept(width: nat) -> nat {
    if width >= 56 {
        4
    } else if width >= 46 {
        3
    } else if width >= 33 {
        2
    } else {
        1
    }
}

/// Sizes, speed, progress and ETA columns, in order.
pub open spec fn metric_widths() -> Seq<u16> {
    seq![9u16, 10u16, 12u16, 9u16]
}

/// Column widths for a table `width` cells wide: the name column first,
/// then as many metric columns (9, 10, 12 and 9 cells, dropped from the
/// right) as leave the name at least 12 cells; below 10 cells only a name
/// column remains.
pub open spec fn widths_for(width: u16) -> Seq<u16> {
    if width < 10 {
        seq![0u16, (if width >= 1 { width - 1 } else { 0 }) as u16]
    } else {
        let n = metrics_kept(width as nat);
        let metrics = metric_widths().take(n as int);
        let used: int = if n == 4 { 44 } else if n == 3 { 34 } else if n == 2 { 21 } else { 10 };
        seq![(if width >= used { width - used } else { 0 }) as u16] + metrics
    }
}

pub fn column_widths(width: u16) -> (r: Vec<u16>)
    ensures
        r@ == widths_for(width),
{
    if width < 10 {
        let mut r: Vec<u16> = Vec::new();
        r.push(0);
        r.push(width.saturating_sub(1));
        assert(r@ =~= widths_for(width));
        return r;
    }
    let mut r: Vec<u16> = Vec::new();
    if width >= 56 {
        r.push(width - 44);
        r.push(9);
        r.push(10);
        r.push(12);
        r.push(9);
    } else if width >= 46 {
        r.push(width - 34);
        r.push(9);
        r.push(10);
        r.push(12);
    } else if width >= 33 {
        r.push(width - 21);
        r.push(9);
        r.push(10);
    } else {
        r.push(width - 10);
        r.push(9);
    }
    assert(r@ =~= widths_for(width));
    r
}

/// The name cell of a row: the category glyph and a space, then the name
/// shortened in the middle to the rest of the column; a column narrower
/// than the glyph shows the glyph shortened.
pub open spec fn name_cell_text(prefix: Seq<char>, name: Seq<char>, width: nat, ellipsis: Seq<char>) -> Seq<char> {
    if width < display_width(prefix) {
        middle_truncated(prefix, width, ellipsis)
    } else {
        prefix + middle_truncated(name, (width - display_width(prefix)) as nat, ellipsis)
    }
}

pub fn name_cell(prefix: &str, name: &str, width: usize, ellipsis: &str) -> (r: String)
    ensures
        r@ == name_cell_text(prefix@, name@, width as nat, ellipsis@),
{
    let p = width_of(prefix);
    if width < p {
        middle_truncate(prefix, width, ellipsis)
    } else {
        let mut s = prefix.to_owned();
        let rest = middle_truncate(name, width - p, ellipsis);
        push_str(&mut s, rest.as_str());
        s
    }
}

/// The size, speed and remaining-time cells of a row: `-` for an unknown
/// size, and for the speed and time of a completed download or a time
/// that is not known.
pub open spec fn metric_texts(d: DownloadLiveStatus) -> (Seq<char>, Seq<char>, Seq<char>) {
    let done = d.download.status is Completed;
    (
        match d.download.size {
            Some(n) => bytes_text(n as nat),
            None => "-"@,
        },
        if done || d.download_speed == 0 {
            "-"@
        } else {
            bytes_text(d.download_speed as nat) + "/s"@
        },
        if done {
            "-"@
        } else {
            match d.eta_seconds {
                Some(t) => eta_text(t as nat),
                None => "-"@,
            }
        },
    )
}

pub fn metric_cells(d: &DownloadLiveStatus) -> (r: (String, String, String))
    ensures
        (r.0@, r.1@, r.2@) == metric_texts(*d),
{
    let done = match d.download.status {
        DownloadStatus::Completed => true,
        _ => false,
    };
    let size = match d.download.size {
        Some(n) => format_bytes(n),
        None => "-".to_owned(),
    };
    let speed = if done {
        "-".to_owned()
    } else {
        format_speed(d.download_speed)
    };
    let eta = if done {
        "-".to_owned()
    } else {
        match d.eta_seconds {
            Some(t) => format_eta(t),
            None => "-".to_owned(),
        }
    };
    (size, speed, eta)
}


/// The cells a run of clusters takes, counted cluster by cluster.
pub open spec fn cells(gs: Seq<Seq<char>>) -> nat
    decreases gs.len(),
{
    if gs.len() == 0 {
        0
    } else {
        display_width(gs[0]) + cells(gs.drop_first())
    }
}

proof fn lemma_cells_append(a: Seq<Seq<char>>, b: Seq<Seq<char>>)
    ensures
        cells(a + b) == cells(a) + cells(b),
    decreases a.len(),
{
    if a.len() == 0 {
        assert(a + b =~= b);
    } else {
        assert((a + b).drop_first() =~= a.drop_first() + b);
        assert((a + b)[0] == a[0]);
        lemma_cells_append(a.drop_first(), b);
    }
}

proof fn lemma_cells_single(g: Seq<char>)
    ensures
        cells(seq![g]) == display_width(g),
{
    reveal_with_fuel(cells, 2);
    assert(seq![g].drop_first() =~= Seq::<Seq<char>>::empty());
}

proof fn lemma_cells_reverse(a: Seq<Seq<char>>)
    ensures
        cells(a.reverse()) == cells(a),
    decreases a.len(),
{
    if a.len() > 0 {
        let rest = a.drop_first();
        assert(a.reverse() =~= rest.reverse() + seq![a[0]]);
        lemma_cells_append(rest.reverse(), seq![a[0]]);
        lemma_cells_single(a[0]);
        lemma_cells_reverse(rest);
    }
}

proof fn lemma_fit_count_cells(gs: Seq<Seq<char>>, budget: nat, used: nat)
    requires
        used <= budget,
    ensures
        fit_count(gs, budget, used) <= gs.len(),
        used + cells(gs.take(fit_count(gs, budget, used) as int)) <= budget,
    decreases gs.len(),
{
    if gs.len() > 0 && used + display_width(gs[0]) <= budget {
        let rest = gs.drop_first();
        let next = used + display_width(gs[0]);
        lemma_fit_count_cells(rest, budget, next);
        let n = fit_count(rest, budget, next);
        assert(gs.take((n + 1) as int).drop_first() =~= rest.take(n as int));
        assert(gs.take((n + 1) as int)[0] == gs[0]);
    } else {
        assert(gs.take(0) =~= Seq::<Seq<char>>::empty());
    }
}

proof fn lemma_concat_append(a: Seq<Seq<char>>, b: Seq<Seq<char>>)
    ensures
        concat(a + b) == concat(a) + concat(b),
    decreases b.len(),
{
    if b.len() == 0 {
        assert(a + b =~= a);
        assert(concat(a) + concat(b) =~= concat(a));
    } else {
        assert((a + b).drop_last() =~= a + b.drop_last());
        lemma_concat_append(a, b.drop_last());
        assert(concat(a) + concat(b) =~= concat(a) + concat(b.drop_last()) + b.last());
    }
}

/// The clusters before `h` spell a prefix of the whole, those from `k` on a
/// suffix.
proof fn lemma_concat_cut(gs: Seq<Seq<char>>, h: int)
    requires
        0 <= h <= gs.len(),
    ensures
        concat(gs.take(h)) == concat(gs).take(concat(gs.take(h)).len() as int),
        concat(gs.skip(h)) == concat(gs).skip(concat(gs).len() - concat(gs.skip(h)).len()),
        concat(gs.take(h)).len() + concat(gs.skip(h)).len() == concat(gs).len(),
{
    assert(gs =~= gs.take(h) + gs.skip(h));
    lemma_concat_append(gs.take(h), gs.skip(h));
    assert(concat(gs.take(h)) =~= concat(gs).take(concat(gs.take(h)).len() as int));
    assert(concat(gs.skip(h)) =~= concat(gs).skip(concat(gs).len() - concat(gs.skip(h)).len()));
}

/// A middle cut of clusters `gs`: the first `h` clusters, the marker, and
/// the clusters from `k` on, taking at most `width` cells in all.
pub open spec fn middle_cut(gs: Seq<Seq<char>>, marker: Seq<char>, width: nat, r: Seq<char>, h: int, k: int) -> bool {
    &&& 0 <= h <= gs.len()
    &&& 0 <= k <= gs.len()
    &&& r == concat(gs.take(h)) + marker + concat(gs.skip(k))
    &&& cells(gs.take(h)) + display_width(marker) + cells(gs.skip(k)) <= width
}

/// Middle truncation keeps text that fits whole. Text that does not is cut
/// in the middle: whole clusters from its start, the ellipsis, and whole
/// clusters from its end, which with the ellipsis take at most `width`
/// cells (counted cluster by cluster). Where even the ellipsis does not
/// fit, the first `width` characters of the ellipsis are all that is left.
pub proof fn law_middle_truncation_fits(text: Seq<char>, width: nat, ellipsis: Seq<char>)
    ensures
        display_width(text) <= width ==> middle_truncated(text, width, ellipsis) == text,
        display_width(text) > width && width >= display_width(ellipsis) ==> exists|h: int, k: int|
            #[trigger] middle_cut(grapheme_clusters(text), ellipsis, width, middle_truncated(text, width, ellipsis), h, k),
        display_width(text) > width && width < display_width(ellipsis) ==> middle_truncated(text, width, ellipsis)
            == ellipsis.take(if width < ellipsis.len() { width as int } else { ellipsis.len() as int }),
{
    if display_width(text) > width && width >= display_width(ellipsis) {
        let gs = grapheme_clusters(text);
        let remaining = (width - display_width(ellipsis)) as nat;
        let head_budget = remaining / 2;
        let tail_budget = (remaining - head_budget) as nat;
        let h = fit_count(gs, head_budget, 0);
        let t = fit_count(gs.reverse(), tail_budget, 0);
        lemma_fit_count_cells(gs, head_budget, 0);
        lemma_fit_count_cells(gs.reverse(), tail_budget, 0);
        let k = gs.len() - t;
        assert(gs.skip(k).reverse() =~= gs.reverse().take(t as int));
        lemma_cells_reverse(gs.skip(k));
        assert(middle_cut(gs, ellipsis, width, middle_truncated(text, width, ellipsis), h as int, k));
    }
}

/// `line` is a run of consecutive clusters of `gs` taking at most `width`
/// cells.
pub open spec fn is_run(gs: Seq<Seq<char>>, line: Seq<char>, width: nat) -> bool {
    exists|lo: int, hi: int|
        0 <= lo <= hi <= gs.len() && line == concat(#[trigger] gs.subrange(lo, hi)) && cells(
            gs.subrange(lo, hi),
        ) <= width
}

/// What the greedy wrap keeps while clusters are added: the lines put
/// together are the clusters, every line is a run that fits, and the last
/// line is the run ending with the last cluster, of the cells counted.
pub open spec fn wrap_ok(gs: Seq<Seq<char>>, width: nat, st: (Seq<Seq<char>>, nat)) -> bool {
    &&& st.0.len() >= 1
    &&& concat(st.0) == concat(gs)
    &&& forall|i: int| 0 <= i < st.0.len() - 1 ==> is_run(gs, #[trigger] st.0[i], width)
    &&& st.1 <= width
    &&& exists|lo: int|
        0 <= lo <= gs.len() && st.0.last() == concat(#[trigger] gs.subrange(lo, gs.len() as int))
            && cells(gs.subrange(lo, gs.len() as int)) == st.1
}

proof fn lemma_run_extends(gs: Seq<Seq<char>>, line: Seq<char>, width: nat)
    requires
        gs.len() >= 1,
        is_run(gs.drop_last(), line, width),
    ensures
        is_run(gs, line, width),
{
    let d = gs.drop_last();
    let (lo, hi) = choose|lo: int, hi: int|
        0 <= lo <= hi <= d.len() && line == concat(#[trigger] d.subrange(lo, hi)) && cells(d.subrange(lo, hi))
            <= width;
    assert(d.subrange(lo, hi) =~= gs.subrange(lo, hi));
}

proof fn lemma_concat_empty()
    ensures
        concat(Seq::<Seq<char>>::empty()) == Seq::<char>::empty(),
{
}

proof fn lemma_wrap_ok(gs: Seq<Seq<char>>, width: nat)
    requires
        forall|i: int| 0 <= i < gs.len() ==> display_width(#[trigger] gs[i]) <= width,
    ensures
        wrap_ok(gs, width, wrap_state(gs, width)),
    decreases gs.len(),
{
    let st = wrap_state(gs, width);
    if gs.len() == 0 {
        assert(gs.subrange(0, 0) =~= Seq::<Seq<char>>::empty());
        assert(seq![Seq::<char>::empty()].drop_last() =~= Seq::<Seq<char>>::empty());
        lemma_concat_empty();
        assert(concat(seq![Seq::<char>::empty()]) =~= Seq::<char>::empty());
        assert(st.0.last() == concat(gs.subrange(0, 0)));
    } else {
        let d = gs.drop_last();
        let n = gs.len() as int;
        assert forall|i: int| 0 <= i < d.len() implies display_width(#[trigger] d[i]) <= width by {
            assert(d[i] == gs[i]);
        }
        lemma_wrap_ok(d, width);
        let prev = wrap_state(d, width);
        let g = gs.last();
        assert(display_width(g) <= width);
        let lo = choose|lo: int|
            0 <= lo <= d.len() && prev.0.last() == concat(#[trigger] d.subrange(lo, d.len() as int)) && cells(
                d.subrange(lo, d.len() as int),
            ) == prev.1;
        assert(d.subrange(lo, d.len() as int) =~= gs.subrange(lo, n - 1));
        assert forall|i: int| 0 <= i < prev.0.len() - 1 implies is_run(gs, #[trigger] prev.0[i], width) by {
            lemma_run_extends(gs, prev.0[i], width);
        }
        if prev.1 + display_width(g) > width {
            assert(st.0 == prev.0.push(g));
            lemma_concat_push(prev.0, g);
            assert(concat(gs) == concat(d) + g);
            assert(is_run(gs, prev.0.last(), width)) by {
                assert(gs.subrange(lo, n - 1) == d.subrange(lo, d.len() as int));
            }
            assert forall|i: int| 0 <= i < st.0.len() - 1 implies is_run(gs, #[trigger] st.0[i], width) by {
                if i < prev.0.len() - 1 {
                    assert(st.0[i] == prev.0[i]);
                } else {
                    assert(st.0[i] == prev.0.last());
                }
            }
            assert(gs.subrange(n - 1, n) =~= seq![g]);
            assert(seq![g].drop_last() =~= Seq::<Seq<char>>::empty());
            lemma_concat_empty();
            assert(concat(seq![g]) =~= g);
            lemma_cells_single(g);
            assert(st.0.last() == concat(gs.subrange(n - 1, n)));
        } else {
            let last = prev.0.last() + g;
            assert(st.0 == prev.0.update(prev.0.len() - 1, last));
            assert(st.0.drop_last() =~= prev.0.drop_last());
            assert(concat(st.0) =~= concat(prev.0.drop_last()) + prev.0.last() + g);
            assert(concat(gs) == concat(d) + g);
            assert forall|i: int| 0 <= i < st.0.len() - 1 implies is_run(gs, #[trigger] st.0[i], width) by {
                assert(st.0[i] == prev.0[i]);
            }
            let run = gs.subrange(lo, n);
            assert(run.drop_last() =~= gs.subrange(lo, n - 1));
            assert(run.last() == g);
            assert(run =~= gs.subrange(lo, n - 1) + seq![g]);
            lemma_cells_append(gs.subrange(lo, n - 1), seq![g]);
            lemma_cells_single(g);
            assert(st.0.last() == concat(gs.subrange(lo, n)));
        }
    }
}

/// Wrapping a name whose clusters each fit in the width keeps every
/// cluster in order, nothing dropped or added: the lines put together are
/// the name's clusters, there is at least one line, and each line is a run
/// of consecutive clusters taking at most `width` cells. A zero width
/// gives no lines.
pub proof fn law_wrap_keeps_text_and_fits(text: Seq<char>, width: nat)
    ensures
        width == 0 ==> wrapped(text, width).len() == 0,
        width > 0 && (forall|i: int|
            0 <= i < grapheme_clusters(text).len() ==> display_width(#[trigger] grapheme_clusters(text)[i])
                <= width) ==> {
            let lines = wrapped(text, width);
            &&& lines.len() >= 1
            &&& concat(lines) == concat(grapheme_clusters(text))
            &&& forall|i: int| 0 <= i < lines.len() ==> is_run(grapheme_clusters(text), #[trigger] lines[i], width)
        },
{
    let gs = grapheme_clusters(text);
    if width > 0 && (forall|i: int| 0 <= i < gs.len() ==> display_width(#[trigger] gs[i]) <= width) {
        lemma_wrap_ok(gs, width);
        let st = wrap_state(gs, width);
        let lines = st.0;
        let lo = choose|lo: int|
            0 <= lo <= gs.len() && st.0.last() == concat(#[trigger] gs.subrange(lo, gs.len() as int))
                && cells(gs.subrange(lo, gs.len() as int)) == st.1;
        assert(is_run(gs, lines.last(), width));
        assert forall|i: int| 0 <= i < lines.len() implies is_run(gs, #[trigger] lines[i], width) by {
            if i == lines.len() - 1 {
                assert(lines[i] == lines.last());
            }
        }
    }
}

proof fn lemma_detail_from_fits(text: Seq<char>, width: nat, height: nat, ellipsis: Seq<char>, budget: nat)
    ensures
        detail_from(text, width, height, ellipsis, budget).len() <= height || detail_from(
            text,
            width,
            height,
            ellipsis,
            budget,
        ) == wrapped(middle_truncated(text, 0, ellipsis), width),
    decreases budget,
{
    if budget > 0 {
        lemma_detail_from_fits(text, width, height, ellipsis, (budget - 1) as nat);
    }
}

/// The details area never takes more than `height` lines, except when even
/// a name cut down to nothing but what fits in zero cells (the ellipsis
/// itself does not) wraps to more; it is empty for a zero width or height,
/// and the whole name wrapped when that fits.
pub proof fn law_details_fit_height(text: Seq<char>, width: nat, height: nat, ellipsis: Seq<char>)
    ensures
        width == 0 || height == 0 ==> details(text, width, height, ellipsis).len() == 0,
        wrapped(text, width).len() <= height ==> details(text, width, height, ellipsis) == wrapped(text, width),
        details(text, width, height, ellipsis).len() <= height || details(text, width, height, ellipsis) == wrapped(
            middle_truncated(text, 0, ellipsis),
            width,
        ),
{
    if width > 0 && height > 0 {
        lemma_detail_from_fits(text, width, height, ellipsis, width * height);
    }
}

} // verus!
