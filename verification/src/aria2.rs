//! What the daemon sends to and reads from aria2's JSON-RPC interface:
//! per-download options, the global options it reports, and the files a
//! transfer leaves on disk.
use vstd::prelude::*;
use crate::enums::{
    AllocStrategy, StreamPieceSelector, alloc_strategy_name, alloc_strategy_str,
    alloc_strategy_from_name, alloc_strategy_from_str, stream_piece_selector_name,
    stream_piece_selector_str, stream_piece_selector_from_name, stream_piece_selector_from_str,
};
use crate::finetune::{FineTune, Aria2GlobalOptions};
use crate::text::{decimal, decimal_string, parse_unsigned, parse_u32, push_str};

verus! {

/// Extra aria2 options applied when a URI is added.
#[derive(Clone, Copy, Debug, PartialEq, Eq, Structural)]
pub enum Aria2AddMode {
    /// First start or scheduler start: no continue or overwrite flags.
    Fresh,
    /// Retry of a failed download, reusing any partial file on disk.
    Retry,
    /// Restart of a completed download from scratch, overwriting the file.
    Restart,
}

impl Default for Aria2AddMode {
    fn default() -> (r: Self)
        ensures
            r == Aria2AddMode::Fresh,
    {
        Aria2AddMode::Fresh
    }
}

/// A key and its string value, as sent in an aria2 options object.
pub open spec fn pairs_view(v: Seq<(String, String)>) -> Seq<(Seq<char>, Seq<char>)> {
    v.map_values(|p: (String, String)| (p.0@, p.1@))
}

pub open spec fn entry_if(key: Seq<char>, value: Option<Seq<char>>) -> Seq<(Seq<char>, Seq<char>)> {
    match value {
        Some(v) => seq![(key, v)],
        None => Seq::empty(),
    }
}

pub open spec fn mode_entries(mode: Aria2AddMode) -> Seq<(Seq<char>, Seq<char>)> {
    match mode {
        Aria2AddMode::Fresh => Seq::empty(),
        Aria2AddMode::Retry => seq![("continue"@, "true"@)],
        Aria2AddMode::Restart => seq![("allow-overwrite"@, "true"@)],
    }
}

pub open spec fn number_text(v: Option<u32>) -> Option<Seq<char>> {
    match v {
        Some(n) => Some(decimal(n as nat)),
        None => None,
    }
}

/// aria2 counts tries, the first attempt included; the count saturates at
/// `u32::MAX`.
pub open spec fn tries_text(max_retries: Option<u32>) -> Option<Seq<char>> {
    match max_retries {
        Some(n) => Some(
            decimal(
                (if n < u32::MAX {
                    n + 1
                } else {
                    n as int
                }) as nat,
            ),
        ),
        None => None,
    }
}

/// The options object for `aria2.addUri` / `aria2.addTorrent`, entry by entry
/// in the order they are set.
pub open spec fn option_entries(f: FineTune, dir: Seq<char>, mode: Aria2AddMode) -> Seq<
    (Seq<char>, Seq<char>),
> {
    seq![("dir"@, dir)] + mode_entries(mode) + entry_if(
        "split"@,
        number_text(f.connections_per_download),
    ) + entry_if("max-connection-per-server"@, number_text(f.max_connections_per_server))
        + entry_if(
        "file-allocation"@,
        match f.alloc_strategy {
            Some(a) => Some(alloc_strategy_name(a)),
            None => None,
        },
    ) + entry_if(
        "stream-piece-selector"@,
        match f.stream_piece_selector {
            Some(p) => Some(stream_piece_selector_name(p)),
            None => None,
        },
    ) + entry_if("max-tries"@, tries_text(f.max_retries)) + entry_if(
        "retry-wait"@,
        number_text(f.retry_wait_seconds),
    )
}

fn push_entry(v: &mut Vec<(String, String)>, key: &str, value: String)
    ensures
        pairs_view(final(v)@) == pairs_view(old(v)@).push((key@, value@)),
{
    let k = key.to_owned();
    let ghost kv = (k, value);
    v.push((k, value));
    proof {
        assert(pairs_view(old(v)@.push(kv)) =~= pairs_view(old(v)@).push((key@, value@)));
    }
}

fn push_entry_if(v: &mut Vec<(String, String)>, key: &str, value: Option<String>)
    ensures
        pairs_view(final(v)@) == pairs_view(old(v)@) + entry_if(
            key@,
            match value {
                Some(s) => Some(s@),
                None => None,
            },
        ),
{
    match value {
        Some(s) => {
            push_entry(v, key, s);
        },
        None => {
            assert(pairs_view(old(v)@) + Seq::empty() =~= pairs_view(old(v)@));
        },
    }
}

fn number_string(v: Option<u32>) -> (r: Option<String>)
    ensures
        (match r {
            Some(s) => Some(s@),
            None => None,
        }) == number_text(v),
{
    match v {
        Some(n) => Some(decimal_string(n as u64)),
        None => None,
    }
}

/// The aria2 options that carry a download's tuning, its directory and the
/// add mode.
pub fn finetune_to_options(f: &FineTune, destination_path: &str, mode: Aria2AddMode) -> (r: Vec<
    (String, String),
>)
    ensures
        pairs_view(r@) == option_entries(*f, destination_path@, mode),
{
    let mut opts: Vec<(String, String)> = Vec::new();
    proof {
        assert(pairs_view(opts@) =~= Seq::<(Seq<char>, Seq<char>)>::empty());
    }
    push_entry(&mut opts, "dir", destination_path.to_owned());
    assert(pairs_view(opts@) =~= seq![("dir"@, destination_path@)]);
    match mode {
        Aria2AddMode::Fresh => {},
        Aria2AddMode::Retry => {
            push_entry(&mut opts, "continue", "true".to_owned());
        },
        Aria2AddMode::Restart => {
            push_entry(&mut opts, "allow-overwrite", "true".to_owned());
        },
    }
    let ghost after_mode = pairs_view(opts@);
    assert(after_mode =~= seq![("dir"@, destination_path@)] + mode_entries(mode));
    push_entry_if(&mut opts, "split", number_string(f.connections_per_download));
    push_entry_if(&mut opts, "max-connection-per-server", number_string(f.max_connections_per_server));
    let alloc = match f.alloc_strategy {
        Some(a) => Some(alloc_strategy_str(&a).to_owned()),
        None => None,
    };
    push_entry_if(&mut opts, "file-allocation", alloc);
    let selector = match f.stream_piece_selector {
        Some(p) => Some(stream_piece_selector_str(&p).to_owned()),
        None => None,
    };
    push_entry_if(&mut opts, "stream-piece-selector", selector);
    let tries = match f.max_retries {
        Some(n) => Some(decimal_string(n.saturating_add(1) as u64)),
        None => None,
    };
    push_entry_if(&mut opts, "max-tries", tries);
    push_entry_if(&mut opts, "retry-wait", number_string(f.retry_wait_seconds));
    opts
}

/// A decimal value read the way `str::parse` reads it; anything else is unknown.
pub open spec fn parsed_u32(s: Option<Seq<char>>) -> Option<u32> {
    match s {
        Some(t) => match parse_unsigned(t, u32::MAX as int) {
            Some(v) => Some(v as u32),
            None => None,
        },
        None => None,
    }
}

pub open spec fn opt_view(s: Option<&str>) -> Option<Seq<char>> {
    match s {
        Some(t) => Some(t@),
        None => None,
    }
}

/// aria2's global options as reported by `aria2.getGlobalOption`, given the
/// string values of the four keys that matter (absent, or not a string, is
/// `None`). A value that does not parse leaves that option unknown.
pub fn parse_global_options(
    split: Option<&str>,
    max_connection_per_server: Option<&str>,
    file_allocation: Option<&str>,
    stream_piece_selector: Option<&str>,
) -> (r: Aria2GlobalOptions)
    ensures
        r.connections_per_download == parsed_u32(opt_view(split)),
        r.max_connections_per_server == parsed_u32(opt_view(max_connection_per_server)),
        r.alloc_strategy == (match file_allocation {
            Some(s) => alloc_strategy_from_name(s@),
            None => None,
        }),
        r.stream_piece_selector == (match stream_piece_selector {
            Some(s) => stream_piece_selector_from_name(s@),
            None => None,
        }),
{
    let connections_per_download = match split {
        Some(s) => parse_u32(s),
        None => None,
    };
    let max_connections_per_server = match max_connection_per_server {
        Some(s) => parse_u32(s),
        None => None,
    };
    let alloc_strategy = match file_allocation {
        Some(s) => alloc_strategy_from_str(s),
        None => None,
    };
    let selector = match stream_piece_selector {
        Some(s) => stream_piece_selector_from_str(s),
        None => None,
    };
    Aria2GlobalOptions {
        connections_per_download,
        max_connections_per_server,
        alloc_strategy,
        stream_piece_selector: selector,
    }
}

/// One file of a transfer, as `aria2.tellStatus` lists it.
#[derive(Clone, Debug)]
pub struct Aria2File {
    pub path: String,
}

#[derive(Clone, Debug)]
pub struct Aria2BitTorrentInfo {
    pub name: String,
}

#[derive(Clone, Debug)]
pub struct Aria2BitTorrent {
    pub info: Option<Aria2BitTorrentInfo>,
}

/// The answer of `aria2.tellStatus` for one transfer; the numbers are the
/// decimal strings aria2 sends.
#[derive(Clone, Debug)]
pub struct Aria2Status {
    pub gid: String,
    /// "active" | "waiting" | "paused" | "error" | "complete" | "removed"
    pub status: String,
    pub total_length: String,
    pub completed_length: String,
    pub download_speed: String,
    pub error_message: Option<String>,
    pub files: Vec<Aria2File>,
    pub dir: String,
    pub bittorrent: Option<Aria2BitTorrent>,
}

pub open spec fn strings_view(v: Seq<String>) -> Seq<Seq<char>> {
    v.map_values(|s: String| s@)
}

/// `dir` joined with `name` the way `Path::join` does with `/` separators:
/// an absolute `name` replaces `dir`, and a separator is added only where
/// `dir` does not already end in one.
pub open spec fn joined_path(dir: Seq<char>, name: Seq<char>) -> Seq<char> {
    if name.len() > 0 && name[0] == '/' {
        name
    } else if dir.len() > 0 && dir.last() != '/' {
        dir + "/"@ + name
    } else {
        dir + name
    }
}

/// `Path::new(dir).join(name)`, as a string. On Unix targets `Path::join`
/// replaces the base with an absolute argument and otherwise inserts `/`
/// unless the base already ends with one; both inputs are valid UTF-8, so
/// the lossy conversion back keeps every character.
#[verifier::external_body]
pub(crate) fn join_path(dir: &str, name: &str) -> (r: String)
    ensures
        r@ == joined_path(dir@, name@),
{
    std::path::Path::new(dir).join(name).to_string_lossy().into_owned()
}

/// Paths of the listed files that are not empty, in order.
pub open spec fn payload_paths(files: Seq<Aria2File>) -> Seq<Seq<char>>
    decreases files.len(),
{
    if files.len() == 0 {
        Seq::empty()
    } else {
        let rest = payload_paths(files.drop_last());
        if files.last().path@.len() > 0 {
            rest.push(files.last().path@)
        } else {
            rest
        }
    }
}

pub open spec fn with_control_suffix(paths: Seq<Seq<char>>) -> Seq<Seq<char>> {
    paths.map_values(|p: Seq<char>| p + ".aria2"@)
}

/// aria2's control files: one beside the top directory of a named torrent
/// when the download directory is known, else one beside each payload.
pub open spec fn control_paths(s: Aria2Status) -> Seq<Seq<char>> {
    match s.bittorrent {
        Some(bt) => match bt.info {
            Some(info) => if info.name@.len() > 0 && s.dir@.len() > 0 {
                seq![joined_path(s.dir@, info.name@ + ".aria2"@)]
            } else {
                with_control_suffix(payload_paths(s.files@))
            },
            None => with_control_suffix(payload_paths(s.files@)),
        },
        None => with_control_suffix(payload_paths(s.files@)),
    }
}

fn suffixed(p: &String) -> (r: String)
    ensures
        r@ == p@ + ".aria2"@,
{
    let mut r = p.clone();
    push_str(&mut r, ".aria2");
    r
}

impl Aria2Status {
    /// The payload files of the transfer and the aria2 control files that
    /// belong to it.
    pub fn artifact_paths(&self) -> (r: (Vec<String>, Vec<String>))
        ensures
            strings_view(r.0@) == payload_paths(self.files@),
            strings_view(r.1@) == control_paths(*self),
    {
        let mut payloads: Vec<String> = Vec::new();
        let mut i: usize = 0;
        while i < self.files.len()
            invariant
                i <= self.files@.len(),
                strings_view(payloads@) == payload_paths(self.files@.take(i as int)),
            decreases self.files@.len() - i,
        {
            let path = &self.files[i].path;
            proof {
                assert(self.files@.take(i + 1).drop_last() =~= self.files@.take(i as int));
            }
            if !path.as_str().is_empty() {
                let ghost before = payloads@;
                payloads.push(path.clone());
                proof {
                    assert(strings_view(before.push(*path)) =~= strings_view(before).push(path@));
                }
            }
            i = i + 1;
        }
        proof {
            assert(self.files@.take(i as int) =~= self.files@);
        }
        let mut controls: Vec<String> = Vec::new();
        let mut named = false;
        match &self.bittorrent {
            Some(bt) => match &bt.info {
                Some(info) => if !info.name.as_str().is_empty() && !self.dir.as_str().is_empty() {
                    let mut file = info.name.clone();
                    push_str(&mut file, ".aria2");
                    controls.push(join_path(self.dir.as_str(), file.as_str()));
                    named = true;
                    proof {
                        assert(strings_view(controls@) =~= control_paths(*self));
                    }
                },
                None => {},
            },
            None => {},
        }
        if !named {
            let mut j: usize = 0;
            while j < payloads.len()
                invariant
                    j <= payloads@.len(),
                    strings_view(payloads@) == payload_paths(self.files@),
                    strings_view(controls@) == with_control_suffix(
                        strings_view(payloads@).take(j as int),
                    ),
                decreases payloads@.len() - j,
            {
                let c = suffixed(&payloads[j]);
                let ghost before = controls@;
                controls.push(c);
                proof {
                    assert(strings_view(before.push(c)) =~= strings_view(before).push(c@));
                    assert(with_control_suffix(strings_view(payloads@).take(j + 1))
                        =~= with_control_suffix(strings_view(payloads@).take(j as int)).push(
                        payloads@[j as int]@ + ".aria2"@,
                    ));
                }
                j = j + 1;
            }
            proof {
                assert(strings_view(payloads@).take(j as int) =~= strings_view(payloads@));
            }
        }
        (payloads, controls)
    }
}

/// Whether an options object has an entry for `key`.
pub open spec fn has_key(entries: Seq<(Seq<char>, Seq<char>)>, key: Seq<char>) -> bool {
    exists|i: int| 0 <= i < entries.len() && (#[trigger] entries[i]).0 == key
}

/// Whether an options object sets `key` to `value`.
pub open spec fn has_entry(entries: Seq<(Seq<char>, Seq<char>)>, key: Seq<char>, value: Seq<char>) -> bool {
    exists|i: int| 0 <= i < entries.len() && #[trigger] entries[i] == (key, value)
}

proof fn lemma_keys_append(a: Seq<(Seq<char>, Seq<char>)>, b: Seq<(Seq<char>, Seq<char>)>, key: Seq<char>, value: Seq<char>)
    ensures
        has_key(a + b, key) <==> has_key(a, key) || has_key(b, key),
        has_entry(a + b, key, value) <==> has_entry(a, key, value) || has_entry(b, key, value),
{
    let c = a + b;
    if has_key(c, key) {
        let i = choose|i: int| 0 <= i < c.len() && (#[trigger] c[i]).0 == key;
        if i < a.len() {
            assert(a[i] == c[i]);
        } else {
            assert(b[i - a.len()] == c[i]);
        }
    }
    if has_key(a, key) {
        let i = choose|i: int| 0 <= i < a.len() && (#[trigger] a[i]).0 == key;
        assert(c[i] == a[i]);
    }
    if has_key(b, key) {
        let i = choose|i: int| 0 <= i < b.len() && (#[trigger] b[i]).0 == key;
        assert(c[i + a.len()] == b[i]);
    }
    if has_entry(c, key, value) {
        let i = choose|i: int| 0 <= i < c.len() && #[trigger] c[i] == (key, value);
        if i < a.len() {
            assert(a[i] == c[i]);
        } else {
            assert(b[i - a.len()] == c[i]);
        }
    }
    if has_entry(a, key, value) {
        let i = choose|i: int| 0 <= i < a.len() && #[trigger] a[i] == (key, value);
        assert(c[i] == a[i]);
    }
    if has_entry(b, key, value) {
        let i = choose|i: int| 0 <= i < b.len() && #[trigger] b[i] == (key, value);
        assert(c[i + a.len()] == b[i]);
    }
}

proof fn lemma_entry_if_keys(k: Seq<char>, v: Option<Seq<char>>, key: Seq<char>, value: Seq<char>)
    ensures
        has_key(entry_if(k, v), key) <==> (v is Some && k == key),
        has_entry(entry_if(k, v), key, value) <==> (v == Some(value) && k == key),
{
    if v is Some {
        assert(entry_if(k, v)[0] == (k, v->Some_0));
    }
}

proof fn lemma_mode_keys(mode: Aria2AddMode, key: Seq<char>, value: Seq<char>)
    ensures
        has_key(mode_entries(mode), key) <==> (mode == Aria2AddMode::Retry && key == "continue"@) || (mode
            == Aria2AddMode::Restart && key == "allow-overwrite"@),
        has_entry(mode_entries(mode), key, value) <==> (mode == Aria2AddMode::Retry && key == "continue"@
            && value == "true"@) || (mode == Aria2AddMode::Restart && key == "allow-overwrite"@ && value
            == "true"@),
{
    match mode {
        Aria2AddMode::Fresh => {},
        Aria2AddMode::Retry => {
            assert(mode_entries(mode)[0] == ("continue"@, "true"@));
        },
        Aria2AddMode::Restart => {
            assert(mode_entries(mode)[0] == ("allow-overwrite"@, "true"@));
        },
    }
}

/// The entry for `key` an option with an optional value gives.
pub open spec fn maybe_key(name: Seq<char>, value: Option<Seq<char>>, key: Seq<char>) -> bool {
    value is Some && name == key
}

proof fn lemma_option_key(f: FineTune, dir: Seq<char>, mode: Aria2AddMode, k: Seq<char>, v: Seq<char>)
    ensures
        has_key(option_entries(f, dir, mode), k) <==> k == "dir"@ || has_key(mode_entries(mode), k) || maybe_key(
            "split"@,
            number_text(f.connections_per_download),
            k,
        ) || maybe_key("max-connection-per-server"@, number_text(f.max_connections_per_server), k) || maybe_key(
            "file-allocation"@,
            match f.alloc_strategy {
                Some(a) => Some(alloc_strategy_name(a)),
                None => None,
            },
            k,
        ) || maybe_key(
            "stream-piece-selector"@,
            match f.stream_piece_selector {
                Some(p) => Some(stream_piece_selector_name(p)),
                None => None,
            },
            k,
        ) || maybe_key("max-tries"@, tries_text(f.max_retries), k) || maybe_key(
            "retry-wait"@,
            number_text(f.retry_wait_seconds),
            k,
        ),
        (k == "dir"@ && v == dir) ==> has_entry(option_entries(f, dir, mode), k, v),
        has_entry(mode_entries(mode), k, v) ==> has_entry(option_entries(f, dir, mode), k, v),
        (k == "max-tries"@ && tries_text(f.max_retries) == Some(v)) ==> has_entry(option_entries(f, dir, mode), k, v),
        (k == "retry-wait"@ && number_text(f.retry_wait_seconds) == Some(v)) ==> has_entry(
            option_entries(f, dir, mode),
            k,
            v,
        ),
{
    let d = seq![("dir"@, dir)];
    let m = mode_entries(mode);
    let e1 = entry_if("split"@, number_text(f.connections_per_download));
    let e2 = entry_if("max-connection-per-server"@, number_text(f.max_connections_per_server));
    let e3 = entry_if(
        "file-allocation"@,
        match f.alloc_strategy {
            Some(a) => Some(alloc_strategy_name(a)),
            None => None,
        },
    );
    let e4 = entry_if(
        "stream-piece-selector"@,
        match f.stream_piece_selector {
            Some(p) => Some(stream_piece_selector_name(p)),
            None => None,
        },
    );
    let e5 = entry_if("max-tries"@, tries_text(f.max_retries));
    let e6 = entry_if("retry-wait"@, number_text(f.retry_wait_seconds));
    assert(option_entries(f, dir, mode) == d + m + e1 + e2 + e3 + e4 + e5 + e6);
    lemma_keys_append(d, m, k, v);
    lemma_keys_append(d + m, e1, k, v);
    lemma_keys_append(d + m + e1, e2, k, v);
    lemma_keys_append(d + m + e1 + e2, e3, k, v);
    lemma_keys_append(d + m + e1 + e2 + e3, e4, k, v);
    lemma_keys_append(d + m + e1 + e2 + e3 + e4, e5, k, v);
    lemma_keys_append(d + m + e1 + e2 + e3 + e4 + e5, e6, k, v);
    lemma_entry_if_keys("split"@, number_text(f.connections_per_download), k, v);
    lemma_entry_if_keys("max-connection-per-server"@, number_text(f.max_connections_per_server), k, v);
    lemma_entry_if_keys(
        "file-allocation"@,
        match f.alloc_strategy {
            Some(a) => Some(alloc_strategy_name(a)),
            None => None,
        },
        k,
        v,
    );
    lemma_entry_if_keys(
        "stream-piece-selector"@,
        match f.stream_piece_selector {
            Some(p) => Some(stream_piece_selector_name(p)),
            None => None,
        },
        k,
        v,
    );
    lemma_entry_if_keys("max-tries"@, tries_text(f.max_retries), k, v);
    lemma_entry_if_keys("retry-wait"@, number_text(f.retry_wait_seconds), k, v);
    assert(d[0] == ("dir"@, dir));
    if has_key(d, k) {
        let i = choose|i: int| 0 <= i < d.len() && (#[trigger] d[i]).0 == k;
        assert(i == 0);
    }
}

/// The options aria2 gets for a download: its directory always; `continue`
/// exactly for a retry and `allow-overwrite` exactly for a restart (both
/// "true"); `max-tries` exactly when retries are set, one more than them
/// (saturating); `retry-wait` exactly when a wait is set, in seconds.
pub proof fn law_options_follow_tuning(f: FineTune, dir: Seq<char>, mode: Aria2AddMode)
    ensures
        has_entry(option_entries(f, dir, mode), "dir"@, dir),
        has_key(option_entries(f, dir, mode), "continue"@) <==> mode == Aria2AddMode::Retry,
        mode == Aria2AddMode::Retry ==> has_entry(option_entries(f, dir, mode), "continue"@, "true"@),
        has_key(option_entries(f, dir, mode), "allow-overwrite"@) <==> mode == Aria2AddMode::Restart,
        mode == Aria2AddMode::Restart ==> has_entry(option_entries(f, dir, mode), "allow-overwrite"@, "true"@),
        has_key(option_entries(f, dir, mode), "max-tries"@) <==> f.max_retries is Some,
        f.max_retries matches Some(n) ==> has_entry(
            option_entries(f, dir, mode),
            "max-tries"@,
            decimal((if n < u32::MAX { n + 1 } else { n as int }) as nat),
        ),
        has_key(option_entries(f, dir, mode), "retry-wait"@) <==> f.retry_wait_seconds is Some,
        f.retry_wait_seconds matches Some(s) ==> has_entry(option_entries(f, dir, mode), "retry-wait"@, decimal(s as nat)),
{
    reveal_strlit("dir");
    reveal_strlit("continue");
    reveal_strlit("allow-overwrite");
    reveal_strlit("split");
    reveal_strlit("max-connection-per-server");
    reveal_strlit("file-allocation");
    reveal_strlit("stream-piece-selector");
    reveal_strlit("max-tries");
    reveal_strlit("retry-wait");
    reveal_strlit("true");
    let tries = match tries_text(f.max_retries) { Some(t) => t, None => "true"@ };
    let wait = match number_text(f.retry_wait_seconds) { Some(t) => t, None => "true"@ };
    lemma_option_key(f, dir, mode, "dir"@, dir);
    lemma_option_key(f, dir, mode, "continue"@, "true"@);
    lemma_option_key(f, dir, mode, "allow-overwrite"@, "true"@);
    lemma_option_key(f, dir, mode, "max-tries"@, tries);
    lemma_option_key(f, dir, mode, "retry-wait"@, wait);
    lemma_mode_keys(mode, "continue"@, "true"@);
    lemma_mode_keys(mode, "allow-overwrite"@, "true"@);
    lemma_mode_keys(mode, "max-tries"@, tries);
    lemma_mode_keys(mode, "retry-wait"@, wait);
    assert("continue"@ != "dir"@ && "continue"@ != "split"@ && "continue"@ != "max-connection-per-server"@
        && "continue"@ != "file-allocation"@ && "continue"@ != "stream-piece-selector"@ && "continue"@
        != "max-tries"@ && "continue"@ != "retry-wait"@ && "continue"@ != "allow-overwrite"@) by {
        assert("continue"@.len() == 8);
        assert("file-allocation"@[0] != "allow-overwrite"@[0]);
    }
    assert("allow-overwrite"@ != "dir"@ && "allow-overwrite"@ != "split"@ && "allow-overwrite"@
        != "max-connection-per-server"@ && "allow-overwrite"@ != "file-allocation"@ && "allow-overwrite"@
        != "stream-piece-selector"@ && "allow-overwrite"@ != "max-tries"@ && "allow-overwrite"@ != "retry-wait"@) by {
        assert("file-allocation"@[0] != "allow-overwrite"@[0]);
    }
    assert("max-tries"@ != "dir"@ && "max-tries"@ != "split"@ && "max-tries"@ != "max-connection-per-server"@
        && "max-tries"@ != "file-allocation"@ && "max-tries"@ != "stream-piece-selector"@ && "max-tries"@
        != "retry-wait"@) by {
        assert("max-tries"@.len() == 9 && "retry-wait"@.len() == 10 && "dir"@.len() == 3 && "split"@.len() == 5);
        assert("file-allocation"@.len() == 15 && "stream-piece-selector"@.len() == 21);
        assert("max-connection-per-server"@.len() == 25);
    }
    assert("retry-wait"@ != "dir"@ && "retry-wait"@ != "split"@ && "retry-wait"@ != "max-connection-per-server"@
        && "retry-wait"@ != "file-allocation"@ && "retry-wait"@ != "stream-piece-selector"@) by {
        assert("retry-wait"@.len() == 10 && "dir"@.len() == 3 && "split"@.len() == 5);
        assert("file-allocation"@.len() == 15 && "stream-piece-selector"@.len() == 21);
        assert("max-connection-per-server"@.len() == 25);
    }
}

} // verus!
