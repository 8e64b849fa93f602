//! The client's overlays: notification toasts, the keybinding help with
//! its search and scrolling, confirmations, and the clipboard import form.
use vstd::prelude::*;
use crate::category::{lowercase, lowercase_text};
use crate::textops::{has_substring, contains_str};
use crate::finetune::FineTune;
use crate::panes::Focus;

verus! {

/// How a notification is coloured.
#[derive(Clone, Copy, Debug, PartialEq, Eq, Structural)]
pub enum ToastLevel {
    Error,
    Info,
    Success,
    Warning,
}

/// A notification; it disappears four seconds after it was shown.
#[derive(Clone, Debug)]
pub struct Toast {
    pub message: String,
    pub level: ToastLevel,
    created_at_ms: u64,
}

/// How long a toast stays, in milliseconds.
pub const TOAST_LIFETIME_MS: u64 = 4000;

/// Toasts shown at once; a new one pushes out the oldest.
pub const MAX_TOASTS: usize = 4;

pub closed spec fn toast_view(t: Toast) -> (Seq<char>, ToastLevel, u64) {
    (t.message@, t.level, t.created_at_ms)
}

pub open spec fn toasts_view(v: Seq<Toast>) -> Seq<(Seq<char>, ToastLevel, u64)> {
    v.map_values(|t: Toast| toast_view(t))
}

/// A toast created at `created` has expired at `now` once four seconds
/// have passed (none have, on a clock read before its creation).
pub open spec fn expired(created: u64, now: u64) -> bool {
    now >= created && now - created >= TOAST_LIFETIME_MS
}

pub open spec fn live_toasts(v: Seq<(Seq<char>, ToastLevel, u64)>, now: u64) -> Seq<(Seq<char>, ToastLevel, u64)>
    decreases v.len(),
{
    if v.len() == 0 {
        v
    } else {
        let rest = live_toasts(v.drop_last(), now);
        if expired(v.last().2, now) {
            rest
        } else {
            rest.push(v.last())
        }
    }
}

/// The toasts after one more is shown: beyond four, the oldest goes.
pub open spec fn pushed_toasts(
    v: Seq<(Seq<char>, ToastLevel, u64)>,
    t: (Seq<char>, ToastLevel, u64),
) -> Seq<(Seq<char>, ToastLevel, u64)> {
    let added = v.push(t);
    if added.len() > MAX_TOASTS {
        added.drop_first()
    } else {
        added
    }
}

/// The notifications on screen, oldest first.
pub struct ToastStack {
    toasts: Vec<Toast>,
}

impl ToastStack {
    pub closed spec fn view_seq(self) -> Seq<(Seq<char>, ToastLevel, u64)> {
        toasts_view(self.toasts@)
    }

    pub closed spec fn wf(self) -> bool {
        self.toasts@.len() <= MAX_TOASTS
    }

    pub fn new() -> (r: Self)
        ensures
            r.wf(),
            r.view_seq() == Seq::<(Seq<char>, ToastLevel, u64)>::empty(),
    {
        let r = ToastStack { toasts: Vec::new() };
        assert(toasts_view(r.toasts@) =~= Seq::<(Seq<char>, ToastLevel, u64)>::empty());
        r
    }

    /// Shows a toast created at `now_ms`; beyond four, the oldest goes.
    pub fn push(&mut self, message: String, level: ToastLevel, now_ms: u64)
        requires
            old(self).wf(),
        ensures
            final(self).wf(),
            final(self).view_seq() == pushed_toasts(old(self).view_seq(), (message@, level, now_ms)),
    {
        let t = Toast { message, level, created_at_ms: now_ms };
        let ghost before = self.toasts@;
        self.toasts.push(t);
        assert(toasts_view(self.toasts@) =~= toasts_view(before).push(toast_view(t)));
        if self.toasts.len() > MAX_TOASTS {
            let ghost full = self.toasts@;
            self.toasts.remove(0);
            assert(toasts_view(self.toasts@) =~= toasts_view(full).drop_first());
        }
    }

    /// Drops the toasts that have expired at `now_ms`.
    pub fn prune(&mut self, now_ms: u64)
        requires
            old(self).wf(),
        ensures
            final(self).wf(),
            final(self).view_seq() == live_toasts(old(self).view_seq(), now_ms),
    {
        let mut kept: Vec<Toast> = Vec::new();
        let mut i: usize = 0;
        while i < self.toasts.len()
            invariant
                i <= self.toasts@.len(),
                self.toasts@.len() <= MAX_TOASTS,
                kept@.len() <= i,
                toasts_view(kept@) == live_toasts(toasts_view(self.toasts@.take(i as int)), now_ms),
            decreases self.toasts@.len() - i,
        {
            let t = &self.toasts[i];
            proof {
                assert(toasts_view(self.toasts@.take(i + 1)).drop_last() =~= toasts_view(
                    self.toasts@.take(i as int),
                ));
            }
            let gone = now_ms >= t.created_at_ms && now_ms - t.created_at_ms >= TOAST_LIFETIME_MS;
            if !gone {
                let c = Toast { message: t.message.clone(), level: t.level, created_at_ms: t.created_at_ms };
                let ghost before = kept@;
                kept.push(c);
                assert(toasts_view(kept@) =~= toasts_view(before).push(toast_view(c)));
            }
            i = i + 1;
        }
        proof {
            assert(self.toasts@.take(i as int) =~= self.toasts@);
        }
        self.toasts = kept;
    }

    /// A well-formed stack shows at most four toasts.
    pub proof fn lemma_bounded(self)
        requires
            self.wf(),
        ensures
            self.view_seq().len() <= MAX_TOASTS,
    {
    }

    /// The toasts on screen, oldest first.
    pub fn iter(&self) -> (r: &[Toast])
        ensures
            toasts_view(r@) == self.view_seq(),
    {
        self.toasts.as_slice()
    }

    pub fn is_empty(&self) -> (r: bool)
        ensures
            r == (self.view_seq().len() == 0),
    {
        self.toasts.len() == 0
    }
}

/// A new toast is on screen right away, and the stack never shows more
/// than four.
pub proof fn law_toast_stack_bounded(v: Seq<(Seq<char>, ToastLevel, u64)>, t: (Seq<char>, ToastLevel, u64))
    requires
        v.len() <= MAX_TOASTS,
    ensures
        pushed_toasts(v, t).len() <= MAX_TOASTS,
        pushed_toasts(v, t).last() == t,
{
}

/// One section of the keybinding reference.
#[derive(Clone, Debug)]
pub struct KeybindingSection {
    pub title: &'static str,
    pub bindings: Vec<(&'static str, &'static str)>,
}

pub open spec fn bindings_view(v: Seq<(&'static str, &'static str)>) -> Seq<(Seq<char>, Seq<char>)> {
    v.map_values(|b: (&'static str, &'static str)| (b.0@, b.1@))
}

pub open spec fn sections_view(v: Seq<KeybindingSection>) -> Seq<(Seq<char>, Seq<(Seq<char>, Seq<char>)>)> {
    v.map_values(|s: KeybindingSection| (s.title@, bindings_view(s.bindings@)))
}

pub open spec fn catalog() -> Seq<(Seq<char>, Seq<(Seq<char>, Seq<char>)>)> {
    seq![
        (
            "Main Navigation"@,
            seq![
            ("?"@, "Open keybindings help (main screen only)"@),
            ("1 / 2 / 3"@, "Focus Queues / Categories / Downloads"@),
            ("Tab / Shift+Tab"@, "Focus next / previous pane"@),
            ("v"@, "Import download URLs from clipboard"@),
            ("q / Esc"@, "Quit from the main screen"@),
            ("Ctrl+C"@, "Quit, except in confirmations where it cancels"@),
            ],
        ),
        (
            "Queues"@,
            seq![
            ("j / Down"@, "Select next queue"@),
            ("k / Up"@, "Select previous queue"@),
            ("n"@, "Create a queue"@),
            ("Enter"@, "Edit selected queue (except All)"@),
            ("p / r"@, "Pause / resume selected queue (except All)"@),
            ("x"@, "Remove completed downloads from selected queue, or all queues in All"@),
            ("d"@, "Delete selected queue (except All and Main Queue); confirm if it contains downloads"@),
            ],
        ),
        (
            "Categories"@,
            seq![
            ("j / Down"@, "Select next category"@),
            ("k / Up"@, "Select previous category"@),
            ],
        ),
        (
            "Downloads"@,
            seq![
            ("j / Down"@, "Select next download"@),
            ("k / Up"@, "Select previous download"@),
            ("Enter"@, "Open completed file; edit other downloads"@),
            ("f"@, "Open folder of completed download"@),
            ("p"@, "Pause active download"@),
            ("r"@, "Start pending, resume paused, retry failed/removed, or restart completed download"@),
            ("d"@, "Delete download, keeping downloaded files"@),
            ("D"@, "Delete download and files after confirmation"@),
            ],
        ),
        (
            "Clipboard Import"@,
            seq![
            ("Tab / Shift+Tab"@, "Switch between URLs and Fine Tuning tabs"@),
            ("j / Down"@, "Select next URL or field"@),
            ("k / Up"@, "Select previous URL or field"@),
            ("h / Left"@, "Choose previous queue or decrease field value"@),
            ("l / Right"@, "Choose next queue or increase field value"@),
            ("Space"@, "Toggle selected URL (URLs tab)"@),
            ("a / n"@, "Select all / none (URLs tab)"@),
            ("s"@, "Start selected downloads now"@),
            ("w"@, "Save selected downloads for later"@),
            ("c / Esc"@, "Cancel import"@),
            ],
        ),
        (
            "Queue Editor"@,
            seq![
            ("Tab / Shift+Tab"@, "Switch to next / previous tab"@),
            ("j / Down"@, "Select next field or download item"@),
            ("k / Up"@, "Select previous field or download item"@),
            ("h / Left"@, "Decrease value or select previous weekday"@),
            ("l / Right"@, "Increase value or select next weekday"@),
            ("Enter"@, "Edit queue name or a Once schedule date field"@),
            ("Space"@, "Toggle highlighted weekday (Scheduler weekly days row)"@),
            ("J / K"@, "Move selected download item down / up (Download Items tab)"@),
            ("s"@, "Save queue (Common or Scheduler tab)"@),
            ("c / Esc"@, "Cancel queue editing"@),
            ],
        ),
        (
            "Text Editing"@,
            seq![
            ("Characters"@, "Type queue name or Once schedule date"@),
            ("Backspace"@, "Delete last character"@),
            ("Enter"@, "Accept text edit"@),
            ("Esc"@, "Discard text edit and return to queue editor"@),
            ],
        ),
        (
            "Download Editor"@,
            seq![
            ("j / Down"@, "Select next field"@),
            ("k / Up"@, "Select previous field"@),
            ("h / Left"@, "Decrease value or choose previous queue"@),
            ("l / Right"@, "Increase value or choose next queue"@),
            ("s"@, "Save download settings"@),
            ("c / Esc"@, "Cancel download editing"@),
            ],
        ),
        (
            "Confirmations"@,
            seq![
            ("Enter / y / Y"@, "Confirm action"@),
            ("Esc / n / N / c / C"@, "Cancel action (also Ctrl+C)"@),
            ],
        ),
        (
            "Help"@,
            seq![
            ("j / Down"@, "Scroll down (outside search editing)"@),
            ("k / Up"@, "Scroll up (outside search editing)"@),
            ("PageDown / PageUp"@, "Scroll down / up one page"@),
            ("Home / End"@, "Jump to beginning / end"@),
            ("/"@, "Edit search; filter keys, descriptions, and section titles as you type"@),
            ("Characters"@, "Type search query while search editing"@),
            ("Backspace"@, "Delete last search character"@),
            ("Enter"@, "Finish search editing and keep filter"@),
            ("Esc"@, "Clear filter and exit search editing; otherwise close help"@),
            ("q / ?"@, "Close help (outside search editing)"@),
            ],
        ),
    ]
}

/// The keybinding reference, section by section, in the order the help
/// screen lists it. Aliases share a row.
pub fn keybindings() -> (r: Vec<KeybindingSection>)
    ensures
        sections_view(r@) == catalog(),
{
    let mut out: Vec<KeybindingSection> = Vec::new();
    let mut b: Vec<(&'static str, &'static str)> = Vec::new();
    b.push(("?", "Open keybindings help (main screen only)"));
    b.push(("1 / 2 / 3", "Focus Queues / Categories / Downloads"));
    b.push(("Tab / Shift+Tab", "Focus next / previous pane"));
    b.push(("v", "Import download URLs from clipboard"));
    b.push(("q / Esc", "Quit from the main screen"));
    b.push(("Ctrl+C", "Quit, except in confirmations where it cancels"));
    assert(bindings_view(b@) =~= catalog()[0].1);
    let s = KeybindingSection { title: "Main Navigation", bindings: b };
    out.push(s);
    let mut b: Vec<(&'static str, &'static str)> = Vec::new();
    b.push(("j / Down", "Select next queue"));
    b.push(("k / Up", "Select previous queue"));
    b.push(("n", "Create a queue"));
    b.push(("Enter", "Edit selected queue (except All)"));
    b.push(("p / r", "Pause / resume selected queue (except All)"));
    b.push(("x", "Remove completed downloads from selected queue, or all queues in All"));
    b.push(("d", "Delete selected queue (except All and Main Queue); confirm if it contains downloads"));
    assert(bindings_view(b@) =~= catalog()[1].1);
    let s = KeybindingSection { title: "Queues", bindings: b };
    out.push(s);
    let mut b: Vec<(&'static str, &'static str)> = Vec::new();
    b.push(("j / Down", "Select next category"));
    b.push(("k / Up", "Select previous category"));
    assert(bindings_view(b@) =~= catalog()[2].1);
    let s = KeybindingSection { title: "Categories", bindings: b };
    out.push(s);
    let mut b: Vec<(&'static str, &'static str)> = Vec::new();
    b.push(("j / Down", "Select next download"));
    b.push(("k / Up", "Select previous download"));
    b.push(("Enter", "Open completed file; edit other downloads"));
    b.push(("f", "Open folder of completed download"));
    b.push(("p", "Pause active download"));
    b.push(("r", "Start pending, resume paused, retry failed/removed, or restart completed download"));
    b.push(("d", "Delete download, keeping downloaded files"));
    b.push(("D", "Delete download and files after confirmation"));
    assert(bindings_view(b@) =~= catalog()[3].1);
    let s = KeybindingSection { title: "Downloads", bindings: b };
    out.push(s);
    let mut b: Vec<(&'static str, &'static str)> = Vec::new();
    b.push(("Tab / Shift+Tab", "Switch between URLs and Fine Tuning tabs"));
    b.push(("j / Down", "Select next URL or field"));
    b.push(("k / Up", "Select previous URL or field"));
    b.push(("h / Left", "Choose previous queue or decrease field value"));
    b.push(("l / Right", "Choose next queue or increase field value"));
    b.push(("Space", "Toggle selected URL (URLs tab)"));
    b.push(("a / n", "Select all / none (URLs tab)"));
    b.push(("s", "Start selected downloads now"));
    b.push(("w", "Save selected downloads for later"));
    b.push(("c / Esc", "Cancel import"));
    assert(bindings_view(b@) =~= catalog()[4].1);
    let s = KeybindingSection { title: "Clipboard Import", bindings: b };
    out.push(s);
    let mut b: Vec<(&'static str, &'static str)> = Vec::new();
    b.push(("Tab / Shift+Tab", "Switch to next / previous tab"));
    b.push(("j / Down", "Select next field or download item"));
    b.push(("k / Up", "Select previous field or download item"));
    b.push(("h / Left", "Decrease value or select previous weekday"));
    b.push(("l / Right", "Increase value or select next weekday"));
    b.push(("Enter", "Edit queue name or a Once schedule date field"));
    b.push(("Space", "Toggle highlighted weekday (Scheduler weekly days row)"));
    b.push(("J / K", "Move selected download item down / up (Download Items tab)"));
    b.push(("s", "Save queue (Common or Scheduler tab)"));
    b.push(("c / Esc", "Cancel queue editing"));
    assert(bindings_view(b@) =~= catalog()[5].1);
    let s = KeybindingSection { title: "Queue Editor", bindings: b };
    out.push(s);
    let mut b: Vec<(&'static str, &'static str)> = Vec::new();
    b.push(("Characters", "Type queue name or Once schedule date"));
    b.push(("Backspace", "Delete last character"));
    b.push(("Enter", "Accept text edit"));
    b.push(("Esc", "Discard text edit and return to queue editor"));
    assert(bindings_view(b@) =~= catalog()[6].1);
    let s = KeybindingSection { title: "Text Editing", bindings: b };
    out.push(s);
    let mut b: Vec<(&'static str, &'static str)> = Vec::new();
    b.push(("j / Down", "Select next field"));
    b.push(("k / Up", "Select previous field"));
    b.push(("h / Left", "Decrease value or choose previous queue"));
    b.push(("l / Right", "Increase value or choose next queue"));
    b.push(("s", "Save download settings"));
    b.push(("c / Esc", "Cancel download editing"));
    assert(bindings_view(b@) =~= catalog()[7].1);
    let s = KeybindingSection { title: "Download Editor", bindings: b };
    out.push(s);
    let mut b: Vec<(&'static str, &'static str)> = Vec::new();
    b.push(("Enter / y / Y", "Confirm action"));
    b.push(("Esc / n / N / c / C", "Cancel action (also Ctrl+C)"));
    assert(bindings_view(b@) =~= catalog()[8].1);
    let s = KeybindingSection { title: "Confirmations", bindings: b };
    out.push(s);
    let mut b: Vec<(&'static str, &'static str)> = Vec::new();
    b.push(("j / Down", "Scroll down (outside search editing)"));
    b.push(("k / Up", "Scroll up (outside search editing)"));
    b.push(("PageDown / PageUp", "Scroll down / up one page"));
    b.push(("Home / End", "Jump to beginning / end"));
    b.push(("/", "Edit search; filter keys, descriptions, and section titles as you type"));
    b.push(("Characters", "Type search query while search editing"));
    b.push(("Backspace", "Delete last search character"));
    b.push(("Enter", "Finish search editing and keep filter"));
    b.push(("Esc", "Clear filter and exit search editing; otherwise close help"));
    b.push(("q / ?", "Close help (outside search editing)"));
    assert(bindings_view(b@) =~= catalog()[9].1);
    let s = KeybindingSection { title: "Help", bindings: b };
    out.push(s);
    assert(sections_view(out@) =~= catalog());
    out
}

/// A binding stays in a search when its section's title matches, or its
/// keys or description contain the (lowercased) query.
pub open spec fn binding_kept(q: Seq<char>, section_matches: bool, b: (Seq<char>, Seq<char>)) -> bool {
    section_matches || has_substring(lowercase_text(b.0), q) || has_substring(lowercase_text(b.1), q)
}

pub open spec fn kept_bindings(q: Seq<char>, section_matches: bool, bs: Seq<(Seq<char>, Seq<char>)>) -> Seq<(Seq<char>, Seq<char>)>
    decreases bs.len(),
{
    if bs.len() == 0 {
        bs
    } else {
        let rest = kept_bindings(q, section_matches, bs.drop_last());
        if binding_kept(q, section_matches, bs.last()) {
            rest.push(bs.last())
        } else {
            rest
        }
    }
}

/// The sections with a kept binding, each with its kept bindings, in
/// order.
pub open spec fn filtered(q: Seq<char>, cat: Seq<(Seq<char>, Seq<(Seq<char>, Seq<char>)>)>) -> Seq<(Seq<char>, Seq<(Seq<char>, Seq<char>)>)>
    decreases cat.len(),
{
    if cat.len() == 0 {
        cat
    } else {
        let rest = filtered(q, cat.drop_last());
        let s = cat.last();
        let kept = kept_bindings(q, has_substring(lowercase_text(s.0), q), s.1);
        if kept.len() > 0 {
            rest.push((s.0, kept))
        } else {
            rest
        }
    }
}

pub open spec fn results_view(v: Seq<(&'static str, Vec<(&'static str, &'static str)>)>) -> Seq<(Seq<char>, Seq<(Seq<char>, Seq<char>)>)> {
    v.map_values(|s: (&'static str, Vec<(&'static str, &'static str)>)| (s.0@, bindings_view(s.1@)))
}

fn keep_bindings(q: &String, section_matches: bool, bs: &Vec<(&'static str, &'static str)>) -> (r: Vec<(&'static str, &'static str)>)
    ensures
        bindings_view(r@) == kept_bindings(q@, section_matches, bindings_view(bs@)),
{
    let mut out: Vec<(&'static str, &'static str)> = Vec::new();
    let mut i: usize = 0;
    while i < bs.len()
        invariant
            i <= bs@.len(),
            bindings_view(out@) == kept_bindings(q@, section_matches, bindings_view(bs@.take(i as int))),
        decreases bs@.len() - i,
    {
        let b = bs[i];
        proof {
            assert(bindings_view(bs@.take(i + 1)).drop_last() =~= bindings_view(bs@.take(i as int)));
        }
        let keys = lowercase(b.0);
        let description = lowercase(b.1);
        if section_matches || contains_str(keys.as_str(), q.as_str()) || contains_str(description.as_str(), q.as_str()) {
            let ghost before = out@;
            out.push(b);
            assert(bindings_view(out@) =~= bindings_view(before).push((b.0@, b.1@)));
        }
        i = i + 1;
    }
    proof {
        assert(bs@.take(i as int) =~= bs@);
    }
    out
}

/// The keybinding reference narrowed to a search, case-insensitively: a
/// section whose title matches keeps all its rows; otherwise only the rows
/// whose keys or description match; sections left empty are dropped.
pub fn filtered_sections(query: &str) -> (r: Vec<(&'static str, Vec<(&'static str, &'static str)>)>)
    ensures
        results_view(r@) == filtered(lowercase_text(query@), catalog()),
{
    let q = lowercase(query);
    let all = keybindings();
    let mut out: Vec<(&'static str, Vec<(&'static str, &'static str)>)> = Vec::new();
    let mut i: usize = 0;
    while i < all.len()
        invariant
            i <= all@.len(),
            sections_view(all@) == catalog(),
            q@ == lowercase_text(query@),
            results_view(out@) == filtered(q@, sections_view(all@.take(i as int))),
        decreases all@.len() - i,
    {
        let section = &all[i];
        proof {
            assert(sections_view(all@.take(i + 1)).drop_last() =~= sections_view(all@.take(i as int)));
        }
        let title = lowercase(section.title);
        let section_matches = contains_str(title.as_str(), q.as_str());
        let kept = keep_bindings(&q, section_matches, &section.bindings);
        if kept.len() > 0 {
            let entry = (section.title, kept);
            let ghost before = out@;
            out.push(entry);
            assert(results_view(out@) =~= results_view(before).push((entry.0@, bindings_view(entry.1@))));
        }
        i = i + 1;
    }
    proof {
        assert(all@.take(i as int) =~= all@);
    }
    out
}

proof fn lemma_empty_query_keeps_bindings(bs: Seq<(Seq<char>, Seq<char>)>, q: Seq<char>, sm: bool)
    requires
        q.len() == 0,
    ensures
        kept_bindings(q, sm, bs) == bs,
    decreases bs.len(),
{
    if bs.len() > 0 {
        lemma_empty_query_keeps_bindings(bs.drop_last(), q, sm);
        let hay = lowercase_text(bs.last().0);
        assert(hay.subrange(0, 0 + q.len() as int) =~= q);
        assert(has_substring(hay, q));
        assert(bs.drop_last().push(bs.last()) =~= bs);
    }
}

proof fn lemma_empty_query_keeps_sections(cat: Seq<(Seq<char>, Seq<(Seq<char>, Seq<char>)>)>, q: Seq<char>)
    requires
        q.len() == 0,
        forall|i: int| 0 <= i < cat.len() ==> #[trigger] cat[i].1.len() > 0,
    ensures
        filtered(q, cat) == cat,
    decreases cat.len(),
{
    if cat.len() > 0 {
        lemma_empty_query_keeps_sections(cat.drop_last(), q);
        let s = cat.last();
        lemma_empty_query_keeps_bindings(s.1, q, has_substring(lowercase_text(s.0), q));
        assert(cat[cat.len() - 1].1.len() > 0);
        assert(cat.drop_last().push((s.0, s.1)) =~= cat);
    }
}

/// An empty search shows the whole reference.
pub proof fn law_empty_search_shows_everything(q: Seq<char>)
    requires
        q.len() == 0,
    ensures
        filtered(q, catalog()) == catalog(),
{
    assert forall|i: int| 0 <= i < catalog().len() implies #[trigger] catalog()[i].1.len() > 0 by {
    }
    lemma_empty_query_keeps_sections(catalog(), q);
}

/// Scrolling state of the help overlay.
#[derive(Clone, Debug)]
pub struct HelpModal {
    pub query: String,
    pub editing_search: bool,
    pub scroll: usize,
    pub viewport_height: usize,
    pub content_height: usize,
}

impl Default for HelpModal {
    fn default() -> (r: Self)
        ensures
            r.query@ == Seq::<char>::empty(),
            !r.editing_search,
            r.scroll == 0,
            r.viewport_height == 0,
            r.content() == 0,
    {
        HelpModal { query: String::new(), editing_search: false, scroll: 0, viewport_height: 0, content_height: 0 }
    }
}

impl HelpModal {
    pub open spec fn content(self) -> usize {
        self.content_height
    }

    /// How far the text can scroll: the lines that do not fit.
    pub open spec fn max_scroll_of(self) -> int {
        if self.content() > self.viewport_height {
            self.content() - self.viewport_height
        } else {
            0
        }
    }

    /// A new layout; the scroll position is clamped to it.
    pub fn set_dimensions(&mut self, content_height: usize, viewport_height: usize)
        ensures
            final(self).content() == content_height,
            final(self).viewport_height == viewport_height,
            final(self).scroll == (if old(self).scroll < final(self).max_scroll_of() {
                old(self).scroll as int
            } else {
                final(self).max_scroll_of()
            }),
            final(self).query == old(self).query,
            final(self).editing_search == old(self).editing_search,
    {
        self.content_height = content_height;
        self.viewport_height = viewport_height;
        let max = self.max_scroll();
        if self.scroll > max {
            self.scroll = max;
        }
    }

    pub fn max_scroll(&self) -> (r: usize)
        ensures
            r == self.max_scroll_of(),
    {
        self.content_height.saturating_sub(self.viewport_height)
    }

    /// Scrolls down, stopping at the end.
    pub fn scroll_down(&mut self, lines: usize)
        ensures
            final(self).scroll == (if old(self).scroll + lines < old(self).max_scroll_of() {
                old(self).scroll + lines
            } else {
                old(self).max_scroll_of()
            }),
            final(self).content() == old(self).content(),
            final(self).viewport_height == old(self).viewport_height,
            final(self).query == old(self).query,
            final(self).editing_search == old(self).editing_search,
    {
        let max = self.max_scroll();
        let s = self.scroll.saturating_add(lines);
        self.scroll = if s < max {
            s
        } else {
            max
        };
    }

    /// Scrolls up, stopping at the top.
    pub fn scroll_up(&mut self, lines: usize)
        ensures
            final(self).scroll == (if old(self).scroll >= lines {
                old(self).scroll - lines
            } else {
                0
            }),
            final(self).content() == old(self).content(),
            final(self).viewport_height == old(self).viewport_height,
            final(self).query == old(self).query,
            final(self).editing_search == old(self).editing_search,
    {
        self.scroll = self.scroll.saturating_sub(lines);
    }
}

/// Scrolling never leaves the text: after any scroll or new layout the
/// position is within the scrollable range.
pub proof fn law_scroll_stays_in_range(scroll: int, lines: int, max: int)
    requires
        0 <= scroll <= max,
        0 <= lines,
    ensures
        0 <= (if scroll + lines < max {
            scroll + lines
        } else {
            max
        }) <= max,
        0 <= (if scroll >= lines {
            scroll - lines
        } else {
            0
        }) <= max,
{
}

/// A question with its two answers.
#[derive(Clone, Debug, PartialEq, Eq)]
pub struct ConfirmationModal {
    pub title: String,
    pub message: String,
    pub confirm_label: String,
    pub cancel_label: String,
}

impl ConfirmationModal {
    pub fn new(title: String, message: String, confirm_label: String, cancel_label: String) -> (r: Self)
        ensures
            r.title == title,
            r.message == message,
            r.confirm_label == confirm_label,
            r.cancel_label == cancel_label,
    {
        ConfirmationModal { title, message, confirm_label, cancel_label }
    }
}

/// What a confirmation, once given, goes on to do.
#[derive(Clone, Copy, Debug, PartialEq, Eq, Structural)]
pub enum PendingConfirmationAction {
    DeleteDownloadFiles { download_id: i64 },
    DeleteQueue { queue_id: i64 },
}

/// Tabs of the clipboard import form.
#[derive(Clone, Copy, Debug, PartialEq, Eq, Structural)]
pub enum ModalTab {
    Urls,
    FineTuning,
}

/// One URL found on the clipboard, and whether it will be added.
#[derive(Clone, Debug)]
pub struct ImportUrlEntry {
    pub url: String,
    pub selected: bool,
}

/// The clipboard import form.
#[derive(Clone, Debug)]
pub struct ClipboardImportModal {
    pub tab: ModalTab,
    pub entries: Vec<ImportUrlEntry>,
    pub url_cursor: usize,
    pub queue_cursor: usize,
    pub finetune: FineTune,
    pub finetune_cursor: usize,
}

pub open spec fn import_cursor(selected_queue: usize, queue_count: usize, main_queue_cursor: Option<usize>) -> usize {
    if selected_queue >= 1 && selected_queue - 1 < queue_count {
        (selected_queue - 1) as usize
    } else {
        match main_queue_cursor {
            Some(c) => c,
            None => 0,
        }
    }
}

/// The queue the import form starts on: the queue selected in the list
/// (row 0 is "All"), else the main queue, else the first.
pub fn clipboard_queue_cursor(selected_queue: usize, queue_count: usize, main_queue_cursor: Option<usize>) -> (r: usize)
    ensures
        r == import_cursor(selected_queue, queue_count, main_queue_cursor),
{
    if selected_queue >= 1 && selected_queue - 1 < queue_count {
        selected_queue - 1
    } else {
        match main_queue_cursor {
            Some(c) => c,
            None => 0,
        }
    }
}

} // verus!
