//! File categories inferred from extensions, and the daemon's settings that
//! hold the extension lists and per-category download locations.
use vstd::prelude::*;
use crate::enums::FileCategory;
use crate::text::{chars_of, string_of, push_str};

verus! {

/// The suffix of `s` after the last `a` or `b`; all of `s` if neither occurs.
pub open spec fn after_last(s: Seq<char>, a: char, b: char) -> Seq<char>
    decreases s.len(),
{
    if s.len() == 0 {
        s
    } else if s.last() == a || s.last() == b {
        Seq::empty()
    } else {
        after_last(s.drop_last(), a, b).push(s.last())
    }
}

/// The last piece of `s` when split at `a` and `b` (`s.rsplit([a, b]).next()`).
pub fn last_segment(s: &str, a: char, b: char) -> (r: String)
    ensures
        r@ == after_last(s@, a, b),
{
    let v = chars_of(s);
    let mut cur: Vec<char> = Vec::new();
    let mut i: usize = 0;
    while i < v.len()
        invariant
            i <= v@.len(),
            v@ == s@,
            cur@ == after_last(v@.take(i as int), a, b),
        decreases v@.len() - i,
    {
        let c = v[i];
        proof {
            assert(v@.take(i + 1).drop_last() =~= v@.take(i as int));
        }
        if c == a || c == b {
            cur = Vec::new();
            proof {
                assert(cur@ =~= after_last(v@.take(i + 1), a, b));
            }
        } else {
            cur.push(c);
        }
        i = i + 1;
    }
    proof {
        assert(v@.take(i as int) =~= v@);
    }
    string_of(&cur)
}

/// `str::to_lowercase`: the Unicode lowercase mapping of a string.
pub uninterp spec fn lowercase_text(s: Seq<char>) -> Seq<char>;

/// `str::to_lowercase`. Its result depends on the string alone (Unicode's
/// fixed case tables); the mapping itself is left unstated, beyond that an
/// empty string stays empty.
#[verifier::external_body]
pub(crate) fn lowercase(s: &str) -> (r: String)
    ensures
        r@ == lowercase_text(s@),
        s@.len() == 0 ==> r@.len() == 0,
{
    s.to_lowercase()
}

/// Extension lists per category.
pub type CategoryExtensions = Vec<(FileCategory, Vec<String>)>;

pub open spec fn ext_views(v: Seq<String>) -> Seq<Seq<char>> {
    v.map_values(|s: String| s@)
}

pub open spec fn table_view(map: Seq<(FileCategory, Vec<String>)>) -> Seq<(FileCategory, Seq<Seq<char>>)> {
    map.map_values(|e: (FileCategory, Vec<String>)| (e.0, ext_views(e.1@)))
}

/// The first category whose list holds `ext`, or `Other`.
pub open spec fn first_category(table: Seq<(FileCategory, Seq<Seq<char>>)>, ext: Seq<char>) -> FileCategory
    decreases table.len(),
{
    if table.len() == 0 {
        FileCategory::Other
    } else if table[0].1.contains(ext) {
        table[0].0
    } else {
        first_category(table.drop_first(), ext)
    }
}

/// Whether some category's list holds `ext`.
pub open spec fn listed(table: Seq<(FileCategory, Seq<Seq<char>>)>, ext: Seq<char>) -> bool {
    exists|i: int| 0 <= i < table.len() && #[trigger] table[i].1.contains(ext)
}

/// A category an extension may be given: one whose list holds it, or
/// `Other` when no list does. The lists are consulted in no fixed order,
/// so an extension listed under two categories may get either.
pub open spec fn category_fits(table: Seq<(FileCategory, Seq<Seq<char>>)>, ext: Seq<char>, c: FileCategory) -> bool {
    if listed(table, ext) {
        exists|i: int| 0 <= i < table.len() && #[trigger] table[i].0 == c && table[i].1.contains(ext)
    } else {
        c == FileCategory::Other
    }
}

/// The first matching category is one that fits.
pub proof fn lemma_first_category_fits(table: Seq<(FileCategory, Seq<Seq<char>>)>, ext: Seq<char>)
    ensures
        category_fits(table, ext, first_category(table, ext)),
    decreases table.len(),
{
    if table.len() > 0 {
        if table[0].1.contains(ext) {
            assert(table[0].0 == first_category(table, ext));
        } else {
            let rest = table.drop_first();
            lemma_first_category_fits(rest, ext);
            if listed(table, ext) {
                let i = choose|i: int| 0 <= i < table.len() && #[trigger] table[i].1.contains(ext);
                assert(i > 0);
                assert(rest[i - 1].1.contains(ext));
                let j = choose|j: int| 0 <= j < rest.len() && #[trigger] rest[j].0 == first_category(rest, ext)
                    && rest[j].1.contains(ext);
                assert(table[j + 1].0 == first_category(table, ext) && table[j + 1].1.contains(ext));
            } else {
                assert forall|j: int| 0 <= j < rest.len() implies !(#[trigger] rest[j].1.contains(ext)) by {
                    assert(table[j + 1].1 == rest[j].1);
                }
            }
        }
    }
}

/// No category is listed twice.
pub open spec fn distinct_categories(table: Seq<(FileCategory, Seq<Seq<char>>)>) -> bool {
    forall|i: int, j: int| 0 <= i < j < table.len() ==> table[i].0 != table[j].0
}

/// The extension of a file name: what follows its last dot, lowercased.
pub open spec fn extension_of(filename: Seq<char>) -> Seq<char> {
    lowercase_text(after_last(filename, '.', '.'))
}

fn contains_text(list: &Vec<String>, x: &String) -> (r: bool)
    ensures
        r == ext_views(list@).contains(x@),
{
    let mut i: usize = 0;
    while i < list.len()
        invariant
            i <= list@.len(),
            forall|k: int| 0 <= k < i ==> list@[k]@ != x@,
        decreases list@.len() - i,
    {
        if crate::enums::same_text(list[i].as_str(), x.as_str()) {
            proof {
                assert(ext_views(list@)[i as int] == x@);
            }
            return true;
        }
        i = i + 1;
    }
    proof {
        if ext_views(list@).contains(x@) {
            let k = choose|k: int| 0 <= k < ext_views(list@).len() && ext_views(list@)[k] == x@;
            assert(list@[k]@ == x@);
        }
    }
    false
}

impl FileCategory {
    /// The category of a file name by its extension; `Other` when no list
    /// holds it.
    pub fn infer_from_filename(filename: &str, map: &CategoryExtensions) -> (r: FileCategory)
        ensures
            category_fits(table_view(map@), extension_of(filename@), r),
    {
        let ext = lowercase(last_segment(filename, '.', '.').as_str());
        FileCategory::of_extension(ext.as_str(), map)
    }

    /// The category of a (lowercased) extension: one whose list holds it,
    /// `Other` when none does.
    pub fn of_extension(ext: &str, map: &CategoryExtensions) -> (r: FileCategory)
        ensures
            category_fits(table_view(map@), ext@, r),
    {
        proof {
            lemma_first_category_fits(table_view(map@), ext@);
        }
        let owned = ext.to_owned();
        let mut i: usize = 0;
        assert(table_view(map@).skip(0) =~= table_view(map@));
        while i < map.len()
            invariant
                i <= map@.len(),
                owned@ == ext@,
                first_category(table_view(map@), ext@) == first_category(
                    table_view(map@).skip(i as int),
                    ext@,
                ),
            decreases map@.len() - i,
        {
            proof {
                assert(table_view(map@).skip(i as int).drop_first() =~= table_view(map@).skip(
                    i + 1,
                ));
            }
            if contains_text(&map[i].1, &owned) {
                return map[i].0;
            }
            i = i + 1;
        }
        FileCategory::Other
    }

    /// The extension lists the daemon starts with.
    pub fn default_extensions() -> (r: CategoryExtensions)
        ensures
            table_view(r@) == default_table(),
    {
        let video = strings(&["mp4", "mkv", "avi", "mov", "webm", "flv", "m4v"]);
        assert(ext_views(video@) =~= default_table()[0].1);
        let music = strings(&["mp3", "flac", "wav", "aac", "ogg", "m4a", "opus"]);
        assert(ext_views(music@) =~= default_table()[1].1);
        let document = strings(&["pdf", "doc", "docx", "txt", "epub", "odt", "rtf"]);
        assert(ext_views(document@) =~= default_table()[2].1);
        let archive = strings(&["zip", "rar", "7z", "tar", "gz", "xz", "bz2"]);
        assert(ext_views(archive@) =~= default_table()[3].1);
        let program = strings(
            &["exe", "msi", "apk", "deb", "rpm", "app", "dmg", "pkg", "bin", "run", "com", "jar"],
        );
        assert(ext_views(program@) =~= default_table()[4].1);
        let mut map: CategoryExtensions = Vec::new();
        map.push((FileCategory::Video, video));
        map.push((FileCategory::Music, music));
        map.push((FileCategory::Document, document));
        map.push((FileCategory::Archive, archive));
        map.push((FileCategory::Program, program));
        proof {
            assert(table_view(map@) =~= default_table());
        }
        map
    }
}

pub open spec fn str_views(v: Seq<&str>) -> Seq<Seq<char>> {
    v.map_values(|s: &str| s@)
}

fn strings(words: &[&str]) -> (r: Vec<String>)
    ensures
        ext_views(r@) == str_views(words@),
{
    let mut out: Vec<String> = Vec::new();
    let mut i: usize = 0;
    while i < words.len()
        invariant
            i <= words@.len(),
            ext_views(out@) == str_views(words@.take(i as int)),
        decreases words@.len() - i,
    {
        let w = words[i].to_owned();
        let ghost before = out@;
        out.push(w);
        proof {
            assert(ext_views(before.push(w)) =~= ext_views(before).push(w@));
            assert(str_views(words@.take(i + 1)) =~= str_views(words@.take(i as int)).push(
                words@[i as int]@,
            ));
        }
        i = i + 1;
    }
    proof {
        assert(words@.take(i as int) =~= words@);
    }
    out
}

pub open spec fn default_table() -> Seq<(FileCategory, Seq<Seq<char>>)> {
    seq![
        (FileCategory::Video, seq!["mp4"@, "mkv"@, "avi"@, "mov"@, "webm"@, "flv"@, "m4v"@]),
        (FileCategory::Music, seq!["mp3"@, "flac"@, "wav"@, "aac"@, "ogg"@, "m4a"@, "opus"@]),
        (FileCategory::Document, seq!["pdf"@, "doc"@, "docx"@, "txt"@, "epub"@, "odt"@, "rtf"@]),
        (FileCategory::Archive, seq!["zip"@, "rar"@, "7z"@, "tar"@, "gz"@, "xz"@, "bz2"@]),
        (
            FileCategory::Program,
            seq![
                "exe"@,
                "msi"@,
                "apk"@,
                "deb"@,
                "rpm"@,
                "app"@,
                "dmg"@,
                "pkg"@,
                "bin"@,
                "run"@,
                "com"@,
                "jar"@,
            ],
        ),
    ]
}

} // verus!
