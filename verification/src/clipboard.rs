//! Download links found in copied text: every `http(s)://` or `magnet:?`
//! run of non-blank characters, without trailing punctuation.
use vstd::prelude::*;
use crate::table::strings_view;
use crate::text::{chars_of, string_of};

verus! {

/// The links the client looks for.
pub const URL_PATTERN: &'static str = "(https?://[^\\s]+|magnet:\\?[^\\s]+)";

/// `regex::Regex::new(pattern)` followed by `find_iter(text)`: the texts of
/// the successive non-overlapping matches, or none when the pattern does
/// not compile. What the matches are is the regex crate's; it depends on
/// the pattern and the text alone.
pub uninterp spec fn regex_match_texts(pattern: Seq<char>, text: Seq<char>) -> Option<Seq<Seq<char>>>;

/// All matches of `pattern` in `text`, by the regex crate.
#[verifier::external_body]
fn regex_find_all(pattern: &str, text: &str) -> (r: Option<Vec<String>>)
    ensures
        match r {
            Some(v) => regex_match_texts(pattern@, text@) == Some(strings_view(v@)),
            None => regex_match_texts(pattern@, text@) is None,
        },
{
    match regex::Regex::new(pattern) {
        Ok(re) => Some(re.find_iter(text).map(|m| m.as_str().to_string()).collect()),
        Err(_) => None,
    }
}

/// Punctuation that ends a sentence rather than a link.
pub open spec fn trailing_mark(c: char) -> bool {
    c == '.' || c == ',' || c == ';' || c == ':' || c == ')' || c == ']' || c == '}' || c == '"' || c == '\''
}

/// A match without its trailing punctuation.
pub open spec fn trimmed_link(s: Seq<char>) -> Seq<char>
    decreases s.len(),
{
    if s.len() > 0 && trailing_mark(s.last()) {
        trimmed_link(s.drop_last())
    } else {
        s
    }
}

pub open spec fn links_of(matches: Seq<Seq<char>>) -> Seq<Seq<char>> {
    matches.map_values(|m: Seq<char>| trimmed_link(m))
}

proof fn lemma_trimmed_take(s: Seq<char>, k: int)
    requires
        0 <= k <= s.len(),
        forall|j: int| k <= j < s.len() ==> trailing_mark(#[trigger] s[j]),
    ensures
        trimmed_link(s) == trimmed_link(s.take(k)),
    decreases s.len() - k,
{
    if k < s.len() {
        assert(s.drop_last().take(k) =~= s.take(k));
        lemma_trimmed_take(s.drop_last(), k);
    } else {
        assert(s.take(k) =~= s);
    }
}

/// A link without its trailing punctuation.
pub fn trim_link(s: &str) -> (r: String)
    ensures
        r@ == trimmed_link(s@),
{
    let cs = chars_of(s);
    let mut k: usize = cs.len();
    while k > 0 && (cs[k - 1] == '.' || cs[k - 1] == ',' || cs[k - 1] == ';' || cs[k - 1] == ':' || cs[k - 1]
        == ')' || cs[k - 1] == ']' || cs[k - 1] == '}' || cs[k - 1] == '"' || cs[k - 1] == '\'')
        invariant
            k <= cs@.len(),
            forall|j: int| k <= j < cs@.len() ==> trailing_mark(#[trigger] cs@[j]),
        decreases k,
    {
        k = k - 1;
    }
    proof {
        lemma_trimmed_take(cs@, k as int);
        let t = cs@.take(k as int);
        assert(!(t.len() > 0 && trailing_mark(t.last())));
    }
    let mut out: Vec<char> = Vec::new();
    let mut i: usize = 0;
    while i < k
        invariant
            i <= k <= cs@.len(),
            out@ == cs@.take(i as int),
        decreases k - i,
    {
        out.push(cs[i]);
        assert(cs@.take(i + 1) =~= cs@.take(i as int).push(cs@[i as int]));
        i = i + 1;
    }
    string_of(&out)
}

/// The links in a list of matches, each without trailing punctuation.
pub fn links_from_matches(matches: &Vec<String>) -> (r: Vec<String>)
    ensures
        strings_view(r@) == links_of(strings_view(matches@)),
{
    let mut out: Vec<String> = Vec::new();
    let mut i: usize = 0;
    while i < matches.len()
        invariant
            i <= matches@.len(),
            strings_view(out@) == links_of(strings_view(matches@).take(i as int)),
        decreases matches@.len() - i,
    {
        let link = trim_link(matches[i].as_str());
        out.push(link);
        assert(links_of(strings_view(matches@).take(i + 1)) =~= links_of(strings_view(matches@).take(i as int)).push(
            trimmed_link(matches@[i as int]@),
        ));
        assert(strings_view(out@) =~= links_of(strings_view(matches@).take(i as int)).push(
            trimmed_link(matches@[i as int]@),
        ));
        i = i + 1;
    }
    assert(strings_view(matches@).take(i as int) =~= strings_view(matches@));
    out
}

/// The download links in a text, in order.
pub fn links_in_text(text: &str) -> (r: Vec<String>)
    ensures
        match regex_match_texts(URL_PATTERN@, text@) {
            Some(ms) => strings_view(r@) == links_of(ms),
            None => r@.len() == 0,
        },
{
    match regex_find_all(URL_PATTERN, text) {
        Some(matches) => links_from_matches(&matches),
        None => Vec::new(),
    }
}

} // verus!
