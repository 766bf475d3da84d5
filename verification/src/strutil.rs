//! Verified string utilities: substring search, last-index search, file-name
//! extension splitting, and ASCII-case-insensitive comparison, all specified
//! over `Seq<char>` views.

use vstd::prelude::*;
use vstd::string::StrSliceExecFns;

verus! {

/// `needle` occurs in `hay` starting at index `i`.
pub open spec fn match_at(hay: Seq<char>, needle: Seq<char>, i: int) -> bool {
    &&& 0 <= i
    &&& i + needle.len() <= hay.len()
    &&& hay.subrange(i, i + needle.len() as int) == needle
}

/// `needle` occurs somewhere in `hay`.
pub open spec fn contains_seq(hay: Seq<char>, needle: Seq<char>) -> bool {
    exists|i: int| match_at(hay, needle, i)
}

/// Compare `hay[i .. i + needle.len()]` with `needle`.
pub fn str_match_at(hay: &str, needle: &str, i: usize) -> (b: bool)
    requires
        i + needle@.len() <= hay@.len(),
        hay@.len() <= usize::MAX,
    ensures
        b == match_at(hay@, needle@, i as int),
{
    let nl = needle.unicode_len();
    let mut k: usize = 0;
    while k < nl
        invariant
            nl == needle@.len(),
            i + nl <= hay@.len() <= usize::MAX,
            k <= nl,
            forall|m: int| 0 <= m < k ==> hay@[i + m] == needle@[m],
        decreases nl - k,
    {
        if hay.get_char(i + k) != needle.get_char(k) {
            assert(!match_at(hay@, needle@, i as int)) by {
                if match_at(hay@, needle@, i as int) {
                    assert(hay@.subrange(i as int, i + nl as int)[k as int] == needle@[k as int]);
                }
            }
            return false;
        }
        k += 1;
    }
    assert(hay@.subrange(i as int, i + nl as int) =~= needle@);
    true
}

/// Least index at or after `i` where `needle` matches `hay`, or -1 when
/// there is none.
pub open spec fn spec_find_from(hay: Seq<char>, needle: Seq<char>, i: int) -> int
    decreases hay.len() + 1 - i,
{
    if i < 0 || i + needle.len() > hay.len() {
        -1
    } else if match_at(hay, needle, i) {
        i
    } else {
        spec_find_from(hay, needle, i + 1)
    }
}

/// Least index at which `needle` matches `hay`, or -1 when it does not occur.
pub open spec fn spec_find(hay: Seq<char>, needle: Seq<char>) -> int {
    spec_find_from(hay, needle, 0)
}

pub proof fn lemma_spec_find_from(hay: Seq<char>, needle: Seq<char>, i: int)
    requires
        0 <= i,
    ensures
        ({
            let r = spec_find_from(hay, needle, i);
            &&& -1 <= r
            &&& (r == -1 ==> forall|j: int| i <= j ==> !match_at(hay, needle, j))
            &&& (r >= 0 ==> i <= r && match_at(hay, needle, r) && forall|j: int|
                i <= j < r ==> !match_at(hay, needle, j))
        }),
    decreases hay.len() + 1 - i,
{
    if i + needle.len() > hay.len() {
    } else if match_at(hay, needle, i) {
    } else {
        lemma_spec_find_from(hay, needle, i + 1);
    }
}

/// The first occurrence characterizes containment.
pub proof fn lemma_spec_find_contains(hay: Seq<char>, needle: Seq<char>)
    ensures
        (spec_find(hay, needle) >= 0) == contains_seq(hay, needle),
        spec_find(hay, needle) >= 0 ==> match_at(hay, needle, spec_find(hay, needle))
            && spec_find(hay, needle) + needle.len() <= hay.len(),
{
    lemma_spec_find_from(hay, needle, 0);
    let r = spec_find(hay, needle);
    if r >= 0 {
        assert(match_at(hay, needle, r));
    } else {
        assert forall|i: int| !match_at(hay, needle, i) by {
            if 0 <= i {
                assert(!match_at(hay, needle, i));
            }
        }
    }
}

/// Find the first index at which `needle` occurs in `hay`.
pub fn str_index_of(hay: &str, needle: &str) -> (r: Option<usize>)
    ensures
        match r {
            Some(i) => match_at(hay@, needle@, i as int) && i as int == spec_find(hay@, needle@)
                && forall|j: int| 0 <= j < i ==> !match_at(hay@, needle@, j),
            None => !contains_seq(hay@, needle@) && spec_find(hay@, needle@) == -1,
        },
{
    proof {
        lemma_spec_find_from(hay@, needle@, 0);
    }
    let hl = hay.unicode_len();
    let nl = needle.unicode_len();
    if nl > hl {
        return None;
    }
    if nl == 0 {
        assert(match_at(hay@, needle@, 0)) by {
            assert(hay@.subrange(0, 0) =~= needle@);
        }
        return Some(0);
    }
    let mut i: usize = 0;
    while i <= hl - nl
        invariant
            hl == hay@.len(),
            nl == needle@.len(),
            1 <= nl <= hl,
            i <= hl - nl + 1,
            forall|j: int| 0 <= j < i ==> !match_at(hay@, needle@, j),
        decreases hl - nl - i + 1,
    {
        if str_match_at(hay, needle, i) {
            proof {
                lemma_spec_find_from(hay@, needle@, 0);
            }
            return Some(i);
        }
        i += 1;
    }
    None
}

/// Substring test.
pub fn str_contains(hay: &str, needle: &str) -> (b: bool)
    ensures
        b == contains_seq(hay@, needle@),
{
    str_index_of(hay, needle).is_some()
}

/// A single character occurs in `s`.
pub fn str_contains_char(s: &str, c: char) -> (b: bool)
    ensures
        b == s@.contains(c),
{
    let l = s.unicode_len();
    let mut i: usize = 0;
    while i < l
        invariant
            l == s@.len(),
            i <= l,
            forall|j: int| 0 <= j < i ==> s@[j] != c,
        decreases l - i,
    {
        if s.get_char(i) == c {
            return true;
        }
        i += 1;
    }
    false
}

/// Index of the last occurrence of `c` in `s`, or -1 when `c` does not occur.
pub open spec fn spec_last_index_of(s: Seq<char>, c: char) -> int
    decreases s.len(),
{
    if s.len() == 0 {
        -1
    } else if s[s.len() - 1] == c {
        s.len() - 1
    } else {
        spec_last_index_of(s.drop_last(), c)
    }
}

pub proof fn lemma_last_index_of(s: Seq<char>, c: char)
    ensures
        -1 <= spec_last_index_of(s, c) < s.len(),
        spec_last_index_of(s, c) >= 0 ==> s[spec_last_index_of(s, c)] == c,
        forall|j: int| spec_last_index_of(s, c) < j < s.len() ==> s[j] != c,
    decreases s.len(),
{
    if s.len() > 0 && s[s.len() - 1] != c {
        lemma_last_index_of(s.drop_last(), c);
        assert(forall|j: int| 0 <= j < s.len() - 1 ==> s.drop_last()[j] == s[j]);
    }
}

/// Last occurrence of a character, counted in characters from the front.
pub fn str_last_index_of_char(s: &str, c: char) -> (r: Option<usize>)
    ensures
        match r {
            Some(i) => spec_last_index_of(s@, c) == i as int,
            None => spec_last_index_of(s@, c) == -1,
        },
{
    let l = s.unicode_len();
    let mut i: usize = l;
    while i > 0
        invariant
            l == s@.len(),
            i <= l,
            forall|j: int| i <= j < l ==> s@[j] != c,
        decreases i,
    {
        i -= 1;
        if s.get_char(i) == c {
            proof {
                lemma_last_index_of(s@, c);
            }
            return Some(i);
        }
    }
    proof {
        lemma_last_index_of(s@, c);
    }
    None
}

/// The extension of a path: the part of the last `/`-separated component that
/// follows its last `.`, provided that `.` is not the component's first
/// character. Mirrors how a file name is split into stem and extension.
pub open spec fn spec_ext_of(p: Seq<char>) -> Option<Seq<char>> {
    let fstart = spec_last_index_of(p, '/') + 1;
    let f = p.subrange(fstart, p.len() as int);
    let d = spec_last_index_of(f, '.');
    if d > 0 {
        Some(f.subrange(d + 1, f.len() as int))
    } else {
        None
    }
}

/// Does `path` have exactly the extension `ext`?
pub fn extension_is(path: &str, ext: &str) -> (b: bool)
    ensures
        b == (spec_ext_of(path@) == Some(ext@)),
{
    let pl = path.unicode_len();
    proof {
        lemma_last_index_of(path@, '/');
    }
    let fstart: usize = match str_last_index_of_char(path, '/') {
        Some(i) => i + 1,
        None => 0,
    };
    let f = path.substring_char(fstart, pl);
    let fl = f.unicode_len();
    let d: usize = match str_last_index_of_char(f, '.') {
        Some(i) => i,
        None => {
            return false;
        },
    };
    if d == 0 {
        return false;
    }
    proof {
        lemma_last_index_of(f@, '.');
    }
    let el = ext.unicode_len();
    if el != fl - (d + 1) {
        assert(spec_ext_of(path@) matches Some(e) ==> e.len() == fl - (d + 1));
        return false;
    }
    let m = str_match_at(f, ext, d + 1);
    proof {
        if m {
            assert(f@.subrange(d + 1, fl as int) =~= f@.subrange(
                d + 1,
                d + 1 + ext@.len() as int,
            ));
        } else {
            assert(f@.subrange(d + 1, fl as int) == ext@ ==> match_at(
                f@,
                ext@,
                d + 1,
            ));
        }
    }
    m
}

/// Character-for-character equality of two strings.
pub fn str_eq(a: &str, b: &str) -> (r: bool)
    ensures
        r == (a@ == b@),
{
    let al = a.unicode_len();
    let bl = b.unicode_len();
    if al != bl {
        return false;
    }
    let mut i: usize = 0;
    while i < al
        invariant
            al == a@.len(),
            bl == b@.len(),
            al == bl,
            i <= al,
            forall|j: int| 0 <= j < i ==> a@[j] == b@[j],
        decreases al - i,
    {
        if a.get_char(i) != b.get_char(i) {
            return false;
        }
        i += 1;
    }
    assert(a@ =~= b@);
    true
}

/// ASCII lower-casing of one character; other characters are unchanged.
pub open spec fn lower_char(c: char) -> char {
    if 'A' <= c && c <= 'Z' {
        ((c as u8) + 32) as char
    } else {
        c
    }
}

/// `s` lower-cased character by character (ASCII only).
pub open spec fn lower_seq(s: Seq<char>) -> Seq<char> {
    s.map_values(|c: char| lower_char(c))
}

/// Lower-case one ASCII character.
pub fn lower_ascii_char(c: char) -> (r: char)
    ensures
        r == lower_char(c),
{
    if c >= 'A' && c <= 'Z' {
        ((c as u8) + 32) as char
    } else {
        c
    }
}

/// Compare the ASCII-lower-cased `s` with `t` (which callers pass already
/// lower-cased).
pub fn eq_ignore_ascii_upper(s: &str, t: &str) -> (b: bool)
    ensures
        b == (lower_seq(s@) == t@),
{
    let sl = s.unicode_len();
    let tl = t.unicode_len();
    if sl != tl {
        assert(lower_seq(s@).len() == s@.len());
        return false;
    }
    let mut i: usize = 0;
    while i < sl
        invariant
            sl == s@.len(),
            tl == t@.len(),
            sl == tl,
            i <= sl,
            forall|j: int| 0 <= j < i ==> lower_char(s@[j]) == t@[j],
        decreases sl - i,
    {
        if lower_ascii_char(s.get_char(i)) != t.get_char(i) {
            assert(lower_seq(s@)[i as int] == lower_char(s@[i as int]));
            return false;
        }
        i += 1;
    }
    assert(lower_seq(s@) =~= t@);
    true
}

/// Does the ASCII-lower-cased `hay` contain `needle` (passed lower-cased)?
pub fn contains_lower(hay: &str, needle: &str) -> (b: bool)
    ensures
        b == contains_seq(lower_seq(hay@), needle@),
{
    let hl = hay.unicode_len();
    let nl = needle.unicode_len();
    assert(lower_seq(hay@).len() == hay@.len());
    if nl > hl {
        return false;
    }
    if nl == 0 {
        assert(match_at(lower_seq(hay@), needle@, 0)) by {
            assert(lower_seq(hay@).subrange(0, 0) =~= needle@);
        }
        return true;
    }
    let mut i: usize = 0;
    while i <= hl - nl
        invariant
            hl == hay@.len(),
            nl == needle@.len(),
            1 <= nl <= hl,
            i <= hl - nl + 1,
            forall|j: int| 0 <= j < i ==> !match_at(lower_seq(hay@), needle@, j),
        decreases hl - nl - i + 1,
    {
        if lower_match_at(hay, needle, i) {
            return true;
        }
        i += 1;
    }
    false
}

/// Compare `lower(hay)[i .. i + needle.len()]` with `needle`.
fn lower_match_at(hay: &str, needle: &str, i: usize) -> (b: bool)
    requires
        i + needle@.len() <= hay@.len(),
        hay@.len() <= usize::MAX,
    ensures
        b == match_at(lower_seq(hay@), needle@, i as int),
{
    let nl = needle.unicode_len();
    assert(lower_seq(hay@).len() == hay@.len());
    let mut k: usize = 0;
    while k < nl
        invariant
            nl == needle@.len(),
            i + nl <= hay@.len() <= usize::MAX,
            k <= nl,
            forall|m: int| 0 <= m < k ==> lower_seq(hay@)[i + m] == needle@[m],
        decreases nl - k,
    {
        if lower_ascii_char(hay.get_char(i + k)) != needle.get_char(k) {
            assert(lower_seq(hay@)[i + k as int] == lower_char(hay@[i + k as int]));
            assert(!match_at(lower_seq(hay@), needle@, i as int)) by {
                if match_at(lower_seq(hay@), needle@, i as int) {
                    assert(lower_seq(hay@).subrange(i as int, i + nl as int)[k as int]
                        == needle@[k as int]);
                }
            }
            return false;
        }
        assert(lower_seq(hay@)[i + k as int] == lower_char(hay@[i + k as int]));
        k += 1;
    }
    assert(lower_seq(hay@).subrange(i as int, i + nl as int) =~= needle@);
    true
}

/// `s` ends with `suffix`, after ASCII-lower-casing `s`.
pub fn ends_with_lower(s: &str, suffix: &str) -> (b: bool)
    ensures
        b == suffix@.is_suffix_of(lower_seq(s@)),
{
    let sl = s.unicode_len();
    let fl = suffix.unicode_len();
    assert(lower_seq(s@).len() == s@.len());
    if fl > sl {
        return false;
    }
    let m = lower_match_at(s, suffix, sl - fl);
    proof {
        if m {
            assert(suffix@.is_suffix_of(lower_seq(s@)));
        } else {
            if suffix@.is_suffix_of(lower_seq(s@)) {
                assert(match_at(lower_seq(s@), suffix@, sl - fl as int));
            }
        }
    }
    m
}

} // verus!
