//! Title and artist guessed from a file name.

use crate::text::{
    chars_of, find_char, first_index_of, last_index_of, lemma_first_index_of, lemma_last_index_of,
    owned_part, rfind_char, trim, trim_bounds,
};
use vstd::prelude::*;
use vstd::string::StringExecFns;

verus! {

/// The artist reported when none can be derived.
pub open spec fn unknown_artist() -> Seq<char> {
    "未知艺术家"@
}

/// The file name without its extension: everything before the last `.`.
pub open spec fn file_stem(name: Seq<char>) -> Seq<char> {
    match last_index_of(name, '.') {
        Some(dot) => name.take(dot),
        None => name,
    }
}

/// The trimmed texts to the left and to the right of position `at`.
pub open spec fn parts_around(stem: Seq<char>, at: int) -> (Seq<char>, Seq<char>) {
    (trim(stem.take(at)), trim(stem.skip(at + 1)))
}

/// A split is usable when there is a dash and both sides of it hold text.
pub open spec fn usable_split(stem: Seq<char>, at: Option<int>) -> bool {
    match at {
        Some(i) => parts_around(stem, i).0.len() > 0 && parts_around(stem, i).1.len() > 0,
        None => false,
    }
}

/// Title and artist derived from a file name.
///
/// The stem is split at its first dash into title and artist. Where one side
/// of that dash is empty, it is split at its last dash into artist and title.
/// Where neither split is usable, the stem is the title and the artist is
/// unknown.
pub open spec fn title_and_artist(name: Seq<char>) -> (Seq<char>, Seq<char>) {
    let stem = file_stem(name);
    let first = first_index_of(stem, '-');
    let last = last_index_of(stem, '-');
    if usable_split(stem, first) {
        parts_around(stem, first->0)
    } else if usable_split(stem, last) {
        (parts_around(stem, last->0).1, parts_around(stem, last->0).0)
    } else {
        (stem, unknown_artist())
    }
}

/// The trimmed texts around the dash at `at`, when both hold something.
fn split_around(name: &str, v: &Vec<char>, end: usize, at: usize) -> (r: Option<(String, String)>)
    requires
        v@ == name@,
        at < end <= v.len(),
    ensures
        r is Some == usable_split(v@.take(end as int), Some(at as int)),
        r matches Some(p) ==> (p.0@, p.1@) == parts_around(v@.take(end as int), at as int),
{
    let (a, b) = trim_bounds(v, 0, at);
    let (c, d) = trim_bounds(v, at + 1, end);
    proof {
        let stem = v@.take(end as int);
        assert(stem.take(at as int) =~= v@.subrange(0, at as int));
        assert(stem.skip(at + 1) =~= v@.subrange(at + 1, end as int));
    }
    if a < b && c < d {
        Some((owned_part(name, a, b), owned_part(name, c, d)))
    } else {
        None
    }
}

/// Derives title and artist from a file name.
pub fn extract_title_and_artist_from_filename(file_name: &str) -> (r: (String, String))
    ensures
        (r.0@, r.1@) == title_and_artist(file_name@),
{
    let v = chars_of(file_name);
    let end: usize = match rfind_char(&v, 0, v.len(), '.') {
        Some(dot) => dot,
        None => v.len(),
    };
    proof {
        assert(v@.subrange(0, v.len() as int) =~= v@);
        assert(v@.take(v.len() as int) =~= v@);
        assert(v@.take(end as int) =~= v@.subrange(0, end as int));
    }
    let ghost stem = v@.take(end as int);
    assert(stem == file_stem(file_name@));
    if let Some(dash) = find_char(&v, 0, end, '-') {
        if let Some(parts) = split_around(file_name, &v, end, dash) {
            return parts;
        }
    }
    if let Some(dash) = rfind_char(&v, 0, end, '-') {
        if let Some((artist, title)) = split_around(file_name, &v, end, dash) {
            return (title, artist);
        }
    }
    (owned_part(file_name, 0, end), String::from_str("未知艺术家"))
}

/// A name whose stem holds no dash gives the stem as title and no artist.
pub proof fn law_name_without_dash(name: Seq<char>)
    requires
        forall|i: int| 0 <= i < file_stem(name).len() ==> file_stem(name)[i] != '-',
    ensures
        title_and_artist(name) == (file_stem(name), unknown_artist()),
{
    lemma_first_index_of(file_stem(name), '-');
    lemma_last_index_of(file_stem(name), '-');
}

/// The artist is never empty, and title and artist of a split hold text on
/// both sides.
pub proof fn law_artist_is_never_empty(name: Seq<char>)
    ensures
        title_and_artist(name).1.len() > 0,
        title_and_artist(name).1 != unknown_artist() ==> title_and_artist(name).0.len() > 0,
{
    reveal_strlit("未知艺术家");
}

} // verus!
