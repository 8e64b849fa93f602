//! The client's form for adding a local .torrent file: the path entry, the
//! queue choice and tuning, and the checks a path must pass.
use vstd::prelude::*;
use crate::aria2::{joined_path, join_path};
use crate::category::{after_last, last_segment};
use crate::config::{home_dir, opt_string_view};
use crate::finetune::{FineTune, unset_finetune};
use crate::queue::Queue;
use crate::keys::{is_control_char, without_last_cluster, drop_last_cluster};
use crate::panes::{adjust_finetune_field, adjusted_field, field_steppable};
use crate::text::{chars_of, string_of, push_char};
use crate::textops::{ascii_lowered, has_prefix, strip_prefix, to_ascii_lowercase, trim_text, trimmed};

verus! {

/// Largest .torrent file accepted, in bytes (16 MiB).
pub const MAX_TORRENT_FILE_BYTES: u64 = 16777216;

#[derive(Clone, Copy, Debug, PartialEq, Eq, Structural)]
pub enum TorrentFileModalTab {
    Torrent,
    FineTuning,
}

/// The torrent form. `resolved_path` is the checked path once the entry was
/// accepted; editing the entry clears it.
#[derive(Clone, Debug)]
pub struct TorrentFileModal {
    pub tab: TorrentFileModalTab,
    pub path_input: String,
    pub resolved_path: Option<String>,
    pub editing_path: bool,
    pub queue_cursor: usize,
    pub finetune: FineTune,
    pub finetune_cursor: usize,
}

/// What an upload carries besides the file: the queue, the tuning that
/// differs from the defaults, and whether to start at once.
#[derive(Clone, Copy, Debug, PartialEq, Eq, Structural)]
pub struct TorrentUploadMetadata {
    pub queue_id: i64,
    pub finetune_override: Option<FineTune>,
    pub start_immediately: bool,
}

/// The last row of the tuning tab.
pub const TORRENT_TUNING_LAST_ROW: usize = 5;

impl TorrentFileModal {
    /// A fresh form on the given queue, with the path entry being edited.
    pub fn new(queue_cursor: usize) -> (r: Self)
        ensures
            r.tab == TorrentFileModalTab::Torrent,
            r.path_input@ == Seq::<char>::empty(),
            r.resolved_path is None,
            r.editing_path,
            r.queue_cursor == queue_cursor,
            r.finetune == unset_finetune(),
            r.finetune_cursor == 0,
    {
        TorrentFileModal {
            tab: TorrentFileModalTab::Torrent,
            path_input: String::new(),
            resolved_path: None,
            editing_path: true,
            queue_cursor,
            finetune: FineTune::default(),
            finetune_cursor: 0,
        }
    }

    pub fn stop_path_editing(&mut self)
        ensures
            *final(self) == (TorrentFileModal { editing_path: false, ..*old(self) }),
    {
        self.editing_path = false;
    }

    /// Switches between the two tabs, leaving the path entry.
    pub fn next_tab(&mut self)
        ensures
            *final(self) == (TorrentFileModal {
                editing_path: false,
                tab: if old(self).tab == TorrentFileModalTab::Torrent {
                    TorrentFileModalTab::FineTuning
                } else {
                    TorrentFileModalTab::Torrent
                },
                ..*old(self)
            }),
    {
        self.editing_path = false;
        self.tab = match self.tab {
            TorrentFileModalTab::Torrent => TorrentFileModalTab::FineTuning,
            TorrentFileModalTab::FineTuning => TorrentFileModalTab::Torrent,
        };
    }

    /// Types a character into the path entry (control characters are
    /// ignored).
    pub fn text_input(&mut self, c: char)
        ensures
            old(self).editing_path && !is_control_char(c) ==> final(self).path_input@ == old(self).path_input@.push(c)
                && *final(self) == (TorrentFileModal {
                path_input: final(self).path_input,
                resolved_path: None,
                ..*old(self)
            }),
            !(old(self).editing_path && !is_control_char(c)) ==> *final(self) == *old(self),
    {
        let code = c as u32;
        let control = code <= 0x1f || (0x7f <= code && code <= 0x9f);
        if self.editing_path && !control {
            push_char(&mut self.path_input, c);
            self.resolved_path = None;
        }
    }

    /// Removes the last grapheme cluster of the path entry.
    pub fn text_backspace(&mut self)
        ensures
            old(self).editing_path && old(self).path_input@.len() > 0 ==> final(self).path_input@ == without_last_cluster(
                old(self).path_input@,
            ) && *final(self) == (TorrentFileModal {
                path_input: final(self).path_input,
                resolved_path: None,
                ..*old(self)
            }),
            !(old(self).editing_path && old(self).path_input@.len() > 0) ==> *final(self) == *old(self),
    {
        if self.editing_path && !self.path_input.as_str().is_empty() {
            self.path_input = drop_last_cluster(self.path_input.as_str());
            self.resolved_path = None;
        }
    }

    /// Replaces the path entry with pasted text, trimmed.
    pub fn paste_path(&mut self, text: &str)
        ensures
            old(self).editing_path ==> final(self).path_input@ == trimmed(text@) && *final(self) == (
            TorrentFileModal { path_input: final(self).path_input, resolved_path: None, ..*old(self) }),
            !old(self).editing_path ==> *final(self) == *old(self),
    {
        if self.editing_path {
            self.path_input = trim_text(text);
            self.resolved_path = None;
        }
    }

    /// Accepts a checked path: it replaces the entry, which stops being
    /// edited.
    pub fn accept_path(&mut self, path: String)
        ensures
            final(self).path_input == path,
            final(self).resolved_path == Some(path),
            *final(self) == (TorrentFileModal {
                path_input: final(self).path_input,
                resolved_path: final(self).resolved_path,
                editing_path: false,
                ..*old(self)
            }),
    {
        self.path_input = path.clone();
        self.resolved_path = Some(path);
        self.editing_path = false;
    }

    pub fn move_down(&mut self)
        ensures
            old(self).tab == TorrentFileModalTab::FineTuning ==> *final(self) == (TorrentFileModal {
                finetune_cursor: if old(self).finetune_cursor < TORRENT_TUNING_LAST_ROW {
                    (old(self).finetune_cursor + 1) as usize
                } else {
                    TORRENT_TUNING_LAST_ROW
                },
                ..*old(self)
            }),
            old(self).tab != TorrentFileModalTab::FineTuning ==> *final(self) == *old(self),
    {
        if self.tab == TorrentFileModalTab::FineTuning {
            self.finetune_cursor = if self.finetune_cursor < TORRENT_TUNING_LAST_ROW {
                self.finetune_cursor + 1
            } else {
                TORRENT_TUNING_LAST_ROW
            };
        }
    }

    pub fn move_up(&mut self)
        ensures
            old(self).tab == TorrentFileModalTab::FineTuning ==> *final(self) == (TorrentFileModal {
                finetune_cursor: if old(self).finetune_cursor > 0 {
                    (old(self).finetune_cursor - 1) as usize
                } else {
                    0
                },
                ..*old(self)
            }),
            old(self).tab != TorrentFileModalTab::FineTuning ==> *final(self) == *old(self),
    {
        if self.tab == TorrentFileModalTab::FineTuning {
            self.finetune_cursor = if self.finetune_cursor > 0 {
                self.finetune_cursor - 1
            } else {
                0
            };
        }
    }

    /// Left/right: the queue (torrent tab, once the path is accepted) or the
    /// tuning field under the cursor.
    pub fn adjust(&mut self, forward: bool, queue_count: usize)
        requires
            old(self).tab == TorrentFileModalTab::FineTuning ==> field_steppable(
                old(self).finetune,
                old(self).finetune_cursor as int,
                forward,
            ),
        ensures
            (old(self).tab == TorrentFileModalTab::Torrent && !old(self).editing_path && queue_count > 0)
                ==> *final(self) == (TorrentFileModal {
                queue_cursor: stepped_cursor(old(self).queue_cursor, forward, queue_count),
                ..*old(self)
            }),
            old(self).tab == TorrentFileModalTab::FineTuning ==> *final(self) == (TorrentFileModal {
                finetune: adjusted_field(old(self).finetune, old(self).finetune_cursor, forward),
                ..*old(self)
            }),
            (old(self).tab == TorrentFileModalTab::Torrent && (old(self).editing_path || queue_count == 0))
                ==> *final(self) == *old(self),
    {
        match self.tab {
            TorrentFileModalTab::Torrent => {
                if !self.editing_path && queue_count > 0 {
                    self.queue_cursor = step_cursor(self.queue_cursor, forward, queue_count);
                }
            },
            TorrentFileModalTab::FineTuning => {
                adjust_finetune_field(&mut self.finetune, self.finetune_cursor, forward);
            },
        }
    }

    /// What an upload of this form sends: the queue under the cursor (the
    /// main queue when the list has no such row) and the tuning when it
    /// differs from the defaults.
    pub fn upload_metadata(&self, queues: &Vec<Queue>, start_immediately: bool) -> (r: TorrentUploadMetadata)
        ensures
            r.queue_id == queue_at_or_main(queues@, self.queue_cursor),
            r.finetune_override == override_of(self.finetune),
            r.start_immediately == start_immediately,
    {
        let queue_id = if self.queue_cursor < queues.len() {
            queues[self.queue_cursor].id
        } else {
            1
        };
        let finetune_override = if self.finetune == FineTune::default() {
            None
        } else {
            Some(self.finetune)
        };
        TorrentUploadMetadata { queue_id, finetune_override, start_immediately }
    }
}

/// The queue a form's cursor points at, the main queue's id when none.
pub open spec fn queue_at_or_main(qs: Seq<Queue>, cursor: usize) -> i64 {
    if cursor < qs.len() {
        qs[cursor as int].id
    } else {
        1
    }
}

/// Tuning that differs from the defaults is sent; the defaults are not.
pub open spec fn override_of(f: FineTune) -> Option<FineTune> {
    if f == unset_finetune() {
        None
    } else {
        Some(f)
    }
}

/// A list cursor moved by one, kept on the list: `min(c + 1, n - 1)` or
/// `c - 1` down to zero.
pub open spec fn stepped_cursor(c: usize, forward: bool, n: usize) -> usize {
    if forward {
        if c + 1 < n {
            (c + 1) as usize
        } else {
            (n - 1) as usize
        }
    } else if c > 0 {
        (c - 1) as usize
    } else {
        0
    }
}

pub fn step_cursor(c: usize, forward: bool, n: usize) -> (r: usize)
    requires
        n > 0,
    ensures
        r == stepped_cursor(c, forward, n),
{
    if forward {
        if c < n - 1 {
            c + 1
        } else {
            n - 1
        }
    } else if c > 0 {
        c - 1
    } else {
        0
    }
}

/// An entry wrapped in matching single or double quotes loses them.
pub open spec fn unquoted(v: Seq<char>) -> Seq<char> {
    if v.len() >= 2 && ((v[0] == '\'' && v.last() == '\'') || (v[0] == '"' && v.last() == '"')) {
        v.subrange(1, v.len() - 1)
    } else {
        v
    }
}

/// Shell-escaped spaces (`\ `) become plain spaces, scanning left to right.
pub open spec fn unescape_spaces(s: Seq<char>) -> Seq<char>
    decreases s.len(),
{
    if s.len() == 0 {
        s
    } else if s.len() >= 2 && s[0] == '\\' && s[1] == ' ' {
        seq![' '] + unescape_spaces(s.skip(2))
    } else {
        seq![s[0]] + unescape_spaces(s.skip(1))
    }
}

/// The path an entry names before the file system is asked: trimmed,
/// unquoted and unescaped; `~/` means the home directory.
pub open spec fn entry_path(input: Seq<char>, home: Option<Seq<char>>) -> Result<Seq<char>, Seq<char>> {
    let value = unescape_spaces(unquoted(trimmed(input)));
    if value.len() == 0 {
        Err("enter a .torrent file path"@)
    } else if has_prefix(value, "~/"@) {
        match home {
            Some(h) => Ok(joined_path(h, value.skip(2))),
            None => Err("home directory is unavailable"@),
        }
    } else {
        Ok(value)
    }
}

fn unquote(v: &str) -> (r: String)
    ensures
        r@ == unquoted(v@),
{
    let cs = chars_of(v);
    let n = cs.len();
    if n >= 2 && ((cs[0] == '\'' && cs[n - 1] == '\'') || (cs[0] == '"' && cs[n - 1] == '"')) {
        let mut out: Vec<char> = Vec::new();
        let mut i: usize = 1;
        while i < n - 1
            invariant
                1 <= i <= n - 1,
                n == cs@.len(),
                out@ == cs@.subrange(1, i as int),
            decreases n - 1 - i,
        {
            out.push(cs[i]);
            assert(out@ =~= cs@.subrange(1, i + 1));
            i = i + 1;
        }
        string_of(&out)
    } else {
        v.to_owned()
    }
}

fn unescape(v: &str) -> (r: String)
    ensures
        r@ == unescape_spaces(v@),
{
    let cs = chars_of(v);
    let mut out: Vec<char> = Vec::new();
    let mut i: usize = 0;
    assert(cs@.skip(0) =~= cs@);
    assert(out@ + unescape_spaces(cs@) =~= unescape_spaces(cs@));
    while i < cs.len()
        invariant
            i <= cs@.len(),
            out@ + unescape_spaces(cs@.skip(i as int)) == unescape_spaces(cs@),
        decreases cs@.len() - i,
    {
        let ghost rest = cs@.skip(i as int);
        if i + 1 < cs.len() && cs[i] == '\\' && cs[i + 1] == ' ' {
            assert(rest.skip(2) =~= cs@.skip(i + 2));
            out.push(' ');
            assert(out@ + unescape_spaces(cs@.skip(i + 2)) =~= (out@.drop_last() + unescape_spaces(rest)));
            i = i + 2;
        } else {
            assert(rest.skip(1) =~= cs@.skip(i + 1));
            out.push(cs[i]);
            assert(out@ + unescape_spaces(cs@.skip(i + 1)) =~= (out@.drop_last() + unescape_spaces(rest)));
            i = i + 1;
        }
    }
    assert(unescape_spaces(cs@.skip(i as int)) =~= Seq::<char>::empty());
    assert(out@ =~= unescape_spaces(cs@));
    string_of(&out)
}

/// The path an entry names, with the home directory given.
pub fn resolve_entry(input: &str, home: Option<String>) -> (r: Result<String, String>)
    ensures
        (match r {
            Ok(p) => Ok(p@),
            Err(e) => Err(e@),
        }) == entry_path(input@, opt_string_view(home)),
{
    let t = trim_text(input);
    let u = unquote(t.as_str());
    let value = unescape(u.as_str());
    if value.as_str().is_empty() {
        return Err("enter a .torrent file path".to_owned());
    }
    proof {
        reveal_strlit("~/");
    }
    match strip_prefix(value.as_str(), "~/") {
        Some(rest) => match home {
            Some(h) => Ok(join_path(h.as_str(), rest.as_str())),
            None => Err("home directory is unavailable".to_owned()),
        },
        None => Ok(value),
    }
}

/// The path an entry names; the home directory is looked up only for a
/// `~/` entry, and whatever it is, the answer is the entry resolved
/// against it.
pub fn torrent_entry_path(input: &str) -> (r: Result<String, String>)
    ensures
        exists|home: Option<Seq<char>>|
            (match r {
                Ok(p) => Ok(p@),
                Err(e) => Err(e@),
            }) == #[trigger] entry_path(input@, home),
{
    let t = trim_text(input);
    let u = unquote(t.as_str());
    let value = unescape(u.as_str());
    let home = match strip_prefix(value.as_str(), "~/") {
        Some(_) => home_dir(),
        None => None,
    };
    let ghost hv = opt_string_view(home);
    let r = resolve_entry(input, home);
    assert((match r {
        Ok(p) => Ok(p@),
        Err(e) => Err(e@),
    }) == entry_path(input@, hv));
    r
}

/// A path names a .torrent file: its last component has an extension
/// (text after a dot that is not the name's first character) that is
/// `torrent` in any ASCII case.
pub open spec fn has_torrent_extension(path: Seq<char>) -> bool {
    let name = after_last(path, '/', '/');
    let ext = after_last(name, '.', '.');
    name.len() > ext.len() + 1 && ascii_lowered(ext) == "torrent"@
}

/// The checks on the file a resolved path points to, in order.
pub open spec fn file_verdict(path: Seq<char>, is_file: bool, len: u64) -> Result<(), Seq<char>> {
    if !is_file {
        Err("torrent path must point to a regular file"@)
    } else if len == 0 {
        Err("torrent file is empty"@)
    } else if len > MAX_TORRENT_FILE_BYTES {
        Err("torrent file exceeds the 16 MiB limit"@)
    } else if !has_torrent_extension(path) {
        Err("file must have a .torrent extension"@)
    } else {
        Ok(())
    }
}

fn torrent_extension(path: &str) -> (r: bool)
    ensures
        r == has_torrent_extension(path@),
{
    let name = last_segment(path, '/', '/');
    let ext = last_segment(name.as_str(), '.', '.');
    let name_chars = chars_of(name.as_str());
    let ext_chars = chars_of(ext.as_str());
    if name_chars.len() <= ext_chars.len() || name_chars.len() - ext_chars.len() <= 1 {
        return false;
    }
    let lowered = to_ascii_lowercase(ext.as_str());
    crate::enums::same_text(lowered.as_str(), "torrent")
}

/// Checks what the file system reported of a resolved path: a regular
/// file, not empty, at most 16 MiB, named `.torrent`.
pub fn check_torrent_file(path: &str, is_file: bool, len: u64) -> (r: Result<(), String>)
    ensures
        (match r {
            Ok(()) => Ok(()),
            Err(e) => Err(e@),
        }) == file_verdict(path@, is_file, len),
{
    if !is_file {
        Err("torrent path must point to a regular file".to_owned())
    } else if len == 0 {
        Err("torrent file is empty".to_owned())
    } else if len > MAX_TORRENT_FILE_BYTES {
        Err("torrent file exceeds the 16 MiB limit".to_owned())
    } else if !torrent_extension(path) {
        Err("file must have a .torrent extension".to_owned())
    } else {
        Ok(())
    }
}

/// Checks the bytes read for an upload: not empty and at most 16 MiB.
pub fn check_torrent_bytes(len: usize) -> (r: Result<(), String>)
    ensures
        len == 0 ==> (r matches Err(e) && e@ == "torrent file is empty"@),
        len > MAX_TORRENT_FILE_BYTES ==> (r matches Err(e) && e@ == "torrent file exceeds the 16 MiB limit"@),
        0 < len <= MAX_TORRENT_FILE_BYTES ==> r is Ok,
{
    if len == 0 {
        Err("torrent file is empty".to_owned())
    } else if len as u64 > MAX_TORRENT_FILE_BYTES {
        Err("torrent file exceeds the 16 MiB limit".to_owned())
    } else {
        Ok(())
    }
}

} // verus!
