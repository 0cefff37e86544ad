//! Character-level helpers shared by the metadata rules.

use vstd::prelude::*;
use vstd::string::StrSliceExecFns;
use vstd::string::StringExecFns;

verus! {

/// The characters that carry the Unicode `White_Space` property.
pub open spec fn is_whitespace(c: char) -> bool {
    let n = c as u32;
    ||| 0x09 <= n <= 0x0D
    ||| n == 0x20
    ||| n == 0x85
    ||| n == 0xA0
    ||| n == 0x1680
    ||| 0x2000 <= n <= 0x200A
    ||| n == 0x2028
    ||| n == 0x2029
    ||| n == 0x202F
    ||| n == 0x205F
    ||| n == 0x3000
}

/// Executable test for [`is_whitespace`].
pub fn char_is_whitespace(c: char) -> (r: bool)
    ensures
        r == is_whitespace(c),
{
    let n: u32 = c as u32;
    (0x09 <= n && n <= 0x0D) || n == 0x20 || n == 0x85 || n == 0xA0 || n == 0x1680 || (0x2000 <= n
        && n <= 0x200A) || n == 0x2028 || n == 0x2029 || n == 0x202F || n == 0x205F || n == 0x3000
}

/// The characters of a string slice, in order.
pub fn chars_of(s: &str) -> (v: Vec<char>)
    ensures
        v@ == s@,
{
    let mut v: Vec<char> = Vec::new();
    for c in it: s.chars()
        invariant
            v@ == it.seq().take(it.index() as int),
            it.seq() == s@,
    {
        v.push(c);
    }
    v
}

/// `s` without its leading whitespace.
pub open spec fn trim_start(s: Seq<char>) -> Seq<char>
    decreases s.len(),
{
    if s.len() > 0 && is_whitespace(s[0]) {
        trim_start(s.drop_first())
    } else {
        s
    }
}

/// `s` without its trailing whitespace.
pub open spec fn trim_end(s: Seq<char>) -> Seq<char>
    decreases s.len(),
{
    if s.len() > 0 && is_whitespace(s.last()) {
        trim_end(s.drop_last())
    } else {
        s
    }
}

/// `s` without leading and trailing whitespace.
pub open spec fn trim(s: Seq<char>) -> Seq<char> {
    trim_end(trim_start(s))
}

/// A text is blank when nothing but whitespace is in it.
pub open spec fn is_blank(s: Seq<char>) -> bool {
    trim(s).len() == 0
}

/// Position of the first `c` in `s`.
pub open spec fn first_index_of(s: Seq<char>, c: char) -> Option<int>
    decreases s.len(),
{
    if s.len() == 0 {
        None
    } else if s[0] == c {
        Some(0)
    } else {
        match first_index_of(s.drop_first(), c) {
            Some(i) => Some(i + 1),
            None => None,
        }
    }
}

/// Position of the last `c` in `s`.
pub open spec fn last_index_of(s: Seq<char>, c: char) -> Option<int>
    decreases s.len(),
{
    if s.len() == 0 {
        None
    } else if s.last() == c {
        Some(s.len() - 1)
    } else {
        last_index_of(s.drop_last(), c)
    }
}

/// `needle` occurs in `hay` as a contiguous run.
pub open spec fn contains_text(hay: Seq<char>, needle: Seq<char>) -> bool {
    exists|i: int| occurs_at(hay, needle, i)
}

/// `needle` occurs in `hay` starting at position `i`.
pub open spec fn occurs_at(hay: Seq<char>, needle: Seq<char>, i: int) -> bool {
    &&& 0 <= i
    &&& i + needle.len() <= hay.len()
    &&& hay.subrange(i, i + needle.len()) == needle
}

/// The first occurrence is the one with no `c` before it.
pub proof fn lemma_first_index_of(s: Seq<char>, c: char)
    ensures
        match first_index_of(s, c) {
            Some(i) => 0 <= i < s.len() && s[i] == c && forall|j: int| 0 <= j < i ==> s[j] != c,
            None => forall|j: int| 0 <= j < s.len() ==> s[j] != c,
        },
    decreases s.len(),
{
    if s.len() > 0 && s[0] != c {
        let rest = s.drop_first();
        lemma_first_index_of(rest, c);
        match first_index_of(rest, c) {
            Some(i) => {
                assert forall|j: int| 0 <= j < i + 1 implies s[j] != c by {
                    if j > 0 {
                        assert(rest[j - 1] == s[j]);
                    }
                }
            },
            None => {
                assert forall|j: int| 0 <= j < s.len() implies s[j] != c by {
                    if j > 0 {
                        assert(rest[j - 1] == s[j]);
                    }
                }
            },
        }
    }
}

/// The last occurrence is the one with no `c` after it.
pub proof fn lemma_last_index_of(s: Seq<char>, c: char)
    ensures
        match last_index_of(s, c) {
            Some(i) => 0 <= i < s.len() && s[i] == c && forall|j: int|
                i < j < s.len() ==> s[j] != c,
            None => forall|j: int| 0 <= j < s.len() ==> s[j] != c,
        },
    decreases s.len(),
{
    if s.len() > 0 && s.last() != c {
        let rest = s.drop_last();
        lemma_last_index_of(rest, c);
        match last_index_of(rest, c) {
            Some(i) => {
                assert forall|j: int| i < j < s.len() implies s[j] != c by {
                    if j < s.len() - 1 {
                        assert(rest[j] == s[j]);
                    }
                }
            },
            None => {
                assert forall|j: int| 0 <= j < s.len() implies s[j] != c by {
                    if j < s.len() - 1 {
                        assert(rest[j] == s[j]);
                    }
                }
            },
        }
    }
}

/// A position that holds `c` and has no `c` before it is the first occurrence.
pub proof fn lemma_first_index_is(s: Seq<char>, c: char, i: int)
    requires
        0 <= i < s.len(),
        s[i] == c,
        forall|j: int| 0 <= j < i ==> s[j] != c,
    ensures
        first_index_of(s, c) == Some(i),
{
    lemma_first_index_of(s, c);
}

/// A position that holds `c` and has no `c` after it is the last occurrence.
pub proof fn lemma_last_index_is(s: Seq<char>, c: char, i: int)
    requires
        0 <= i < s.len(),
        s[i] == c,
        forall|j: int| i < j < s.len() ==> s[j] != c,
    ensures
        last_index_of(s, c) == Some(i),
{
    lemma_last_index_of(s, c);
}

/// Trimming never yields a text that starts or ends with whitespace, and
/// the result is a contiguous part of the input.
pub proof fn lemma_trim_shape(s: Seq<char>)
    ensures
        trim(s).len() <= s.len(),
        trim(s).len() > 0 ==> !is_whitespace(trim(s)[0]) && !is_whitespace(trim(s).last()),
        exists|a: int, b: int| 0 <= a <= b <= s.len() && #[trigger] s.subrange(a, b) == trim(s),
{
    lemma_trim_start_shape(s);
    let t = trim_start(s);
    let a = choose|a: int| 0 <= a <= s.len() && t == s.skip(a);
    lemma_trim_end_shape(t);
    let u = trim_end(t);
    assert(u == t.take(u.len() as int));
    assert(s.subrange(a, a + u.len()) =~= u);
}

proof fn lemma_trim_start_shape(s: Seq<char>)
    ensures
        exists|a: int| 0 <= a <= s.len() && trim_start(s) == s.skip(a),
        trim_start(s).len() > 0 ==> !is_whitespace(trim_start(s)[0]),
    decreases s.len(),
{
    if s.len() > 0 && is_whitespace(s[0]) {
        let rest = s.drop_first();
        lemma_trim_start_shape(rest);
        let a = choose|a: int| 0 <= a <= rest.len() && trim_start(rest) == rest.skip(a);
        assert(rest.skip(a) =~= s.skip(a + 1));
    } else {
        assert(s.skip(0) =~= s);
    }
}

proof fn lemma_trim_end_shape(s: Seq<char>)
    ensures
        trim_end(s).len() <= s.len(),
        trim_end(s) == s.take(trim_end(s).len() as int),
        trim_end(s).len() > 0 ==> !is_whitespace(trim_end(s).last()),
        trim_end(s).len() > 0 ==> trim_end(s)[0] == s[0],
    decreases s.len(),
{
    if s.len() > 0 && is_whitespace(s.last()) {
        let rest = s.drop_last();
        lemma_trim_end_shape(rest);
        let n = trim_end(rest).len() as int;
        assert(rest.take(n) =~= s.take(n));
    } else {
        assert(s.take(s.len() as int) =~= s);
    }
}

/// The bounds of the trimmed part of `v[lo..hi]`.
pub fn trim_bounds(v: &Vec<char>, lo: usize, hi: usize) -> (r: (usize, usize))
    requires
        lo <= hi <= v.len(),
    ensures
        lo <= r.0 <= r.1 <= hi,
        v@.subrange(r.0 as int, r.1 as int) == trim(v@.subrange(lo as int, hi as int)),
{
    let mut a: usize = lo;
    while a < hi && char_is_whitespace(v[a])
        invariant
            lo <= a <= hi <= v.len(),
            trim_start(v@.subrange(lo as int, hi as int)) == trim_start(
                v@.subrange(a as int, hi as int),
            ),
        decreases hi - a,
    {
        assert(v@.subrange(a as int, hi as int).drop_first() =~= v@.subrange(
            a as int + 1,
            hi as int,
        ));
        a = a + 1;
    }
    let mut b: usize = hi;
    while a < b && char_is_whitespace(v[b - 1])
        invariant
            lo <= a <= b <= hi <= v.len(),
            trim_end(v@.subrange(a as int, hi as int)) == trim_end(v@.subrange(a as int, b as int)),
        decreases b - a,
    {
        assert(v@.subrange(a as int, b as int).drop_last() =~= v@.subrange(
            a as int,
            b as int - 1,
        ));
        b = b - 1;
    }
    (a, b)
}

/// Whether `s` holds nothing but whitespace.
pub fn str_is_blank(s: &str) -> (r: bool)
    ensures
        r == is_blank(s@),
{
    let v = chars_of(s);
    let (a, b) = trim_bounds(&v, 0, v.len());
    assert(v@.subrange(0, v.len() as int) =~= v@);
    a == b
}

/// Position of the first `c` in `v[lo..hi]`, counted from the start of `v`.
pub fn find_char(v: &Vec<char>, lo: usize, hi: usize, c: char) -> (r: Option<usize>)
    requires
        lo <= hi <= v.len(),
    ensures
        match r {
            Some(i) => lo <= i < hi && first_index_of(v@.subrange(lo as int, hi as int), c) == Some(
                i - lo,
            ),
            None => first_index_of(v@.subrange(lo as int, hi as int), c) is None,
        },
{
    let ghost part = v@.subrange(lo as int, hi as int);
    let mut i: usize = lo;
    while i < hi
        invariant
            lo <= i <= hi <= v.len(),
            part == v@.subrange(lo as int, hi as int),
            forall|j: int| 0 <= j < i - lo ==> part[j] != c,
        decreases hi - i,
    {
        if v[i] == c {
            proof {
                lemma_first_index_is(part, c, i - lo);
            }
            return Some(i);
        }
        i = i + 1;
    }
    proof {
        lemma_first_index_of(part, c);
    }
    None
}

/// Position of the last `c` in `v[lo..hi]`, counted from the start of `v`.
pub fn rfind_char(v: &Vec<char>, lo: usize, hi: usize, c: char) -> (r: Option<usize>)
    requires
        lo <= hi <= v.len(),
    ensures
        match r {
            Some(i) => lo <= i < hi && last_index_of(v@.subrange(lo as int, hi as int), c) == Some(
                i - lo,
            ),
            None => last_index_of(v@.subrange(lo as int, hi as int), c) is None,
        },
{
    let ghost part = v@.subrange(lo as int, hi as int);
    let mut i: usize = hi;
    while i > lo
        invariant
            lo <= i <= hi <= v.len(),
            part == v@.subrange(lo as int, hi as int),
            forall|j: int| i - lo <= j < part.len() ==> part[j] != c,
        decreases i - lo,
    {
        i = i - 1;
        if v[i] == c {
            proof {
                lemma_last_index_is(part, c, i - lo);
            }
            return Some(i);
        }
    }
    proof {
        lemma_last_index_of(part, c);
    }
    None
}

/// Whether `needle` occurs in `hay` starting at position `at`.
fn matches_at(hay: &Vec<char>, needle: &Vec<char>, at: usize) -> (r: bool)
    requires
        at + needle.len() <= hay.len(),
    ensures
        r == occurs_at(hay@, needle@, at as int),
{
    let mut k: usize = 0;
    while k < needle.len()
        invariant
            k <= needle.len(),
            at + needle.len() <= hay.len(),
            forall|j: int| 0 <= j < k ==> hay@[at + j] == needle@[j],
        decreases needle.len() - k,
    {
        if hay[at + k] != needle[k] {
            assert(hay@.subrange(at as int, at + needle.len())[k as int] != needle@[k as int]);
            return false;
        }
        k = k + 1;
    }
    assert(hay@.subrange(at as int, at + needle.len()) =~= needle@);
    true
}

/// Whether `needle` occurs somewhere in `hay`.
pub fn text_contains(hay: &Vec<char>, needle: &Vec<char>) -> (r: bool)
    ensures
        r == contains_text(hay@, needle@),
{
    if needle.len() > hay.len() {
        return false;
    }
    let last: usize = hay.len() - needle.len();
    let mut i: usize = 0;
    loop
        invariant
            i <= last,
            last == hay.len() - needle.len(),
            needle.len() <= hay.len(),
            forall|j: int| 0 <= j < i ==> !occurs_at(hay@, needle@, j),
        decreases last - i,
    {
        if matches_at(hay, needle, i) {
            return true;
        }
        if i == last {
            return false;
        }
        i = i + 1;
    }
}

/// The text of `s` between two character positions, as an owned string.
pub fn owned_part(s: &str, from: usize, to: usize) -> (r: String)
    requires
        from <= to <= s@.len(),
    ensures
        r@ == s@.subrange(from as int, to as int),
{
    String::from_str(s.substring_char(from, to))
}

} // verus!
