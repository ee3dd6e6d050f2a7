//! Character-level string helpers that the detection and lookup logic rests
//! on: exact equality, suffix tests, case-insensitive prefix tests, and path
//! joining with a single separator.

use vstd::prelude::*;

verus! {

use vstd::string::StrSliceExecFns;
use vstd::string::StringExecFns;

/// `suffix` is the tail of `s`.
pub open spec fn has_suffix(s: Seq<char>, suffix: Seq<char>) -> bool {
    s.len() >= suffix.len() && s.subrange(s.len() - suffix.len(), s.len() as int) == suffix
}

/// The code point of `c`, with ASCII upper-case letters folded to lower case.
pub open spec fn lower_code(c: char) -> int {
    let u = c as u32;
    if 65 <= u && u <= 90 {
        u + 32
    } else {
        u as int
    }
}

/// `tag` is a prefix of `name`, comparing ASCII letters case-insensitively.
pub open spec fn ci_prefix(tag: Seq<char>, name: Seq<char>) -> bool {
    tag.len() <= name.len() && forall|i: int|
        0 <= i < tag.len() ==> lower_code(tag[i]) == lower_code(name[i])
}

/// `base` and `child` joined with a single separator between them.
pub open spec fn joined(base: Seq<char>, child: Seq<char>) -> Seq<char> {
    base + seq!['/'] + child
}

/// The index of the last occurrence of `c` in `s`, or `-1` when `c` does
/// not occur.
pub open spec fn last_index_of(s: Seq<char>, c: char) -> int
    decreases s.len(),
{
    if s.len() == 0 {
        -1
    } else if s.last() == c {
        s.len() - 1
    } else {
        last_index_of(s.drop_last(), c)
    }
}

/// The last separator-delimited component of a path string: everything
/// after the last `/`, or all of `s` when it has none.
pub open spec fn last_component(s: Seq<char>) -> Seq<char> {
    s.subrange(last_index_of(s, '/') + 1, s.len() as int)
}

/// A file name without its extension: everything before the last `.`,
/// except that a name whose only `.` leads (a hidden file) is kept whole.
pub open spec fn file_stem_of(name: Seq<char>) -> Seq<char> {
    let d = last_index_of(name, '.');
    if d <= 0 {
        name
    } else {
        name.subrange(0, d)
    }
}

/// A scan that saw no `c` at or after position `k + 1`, and `c` at `k`
/// itself (or never, when `k` is `-1`), pins `last_index_of` down.
proof fn lemma_last_index_of_position(s: Seq<char>, c: char, k: int)
    requires
        -1 <= k < s.len(),
        k >= 0 ==> s[k] == c,
        forall|j: int| k < j < s.len() ==> s[j] != c,
    ensures
        last_index_of(s, c) == k,
    decreases s.len(),
{
    if s.len() > 0 && k < s.len() - 1 {
        lemma_last_index_of_position(s.drop_last(), c, k);
    }
}

/// Exact character-for-character equality of two string slices.
pub fn str_eq(a: &str, b: &str) -> (r: bool)
    ensures
        r == (a@ == b@),
{
    let n: usize = a.unicode_len();
    if n != b.unicode_len() {
        return false;
    }
    let mut i: usize = 0;
    while i < n
        invariant
            n == a@.len(),
            n == b@.len(),
            0 <= i <= n,
            forall|j: int| 0 <= j < i ==> a@[j] == b@[j],
        decreases n - i,
    {
        if a.get_char(i) != b.get_char(i) {
            return false;
        }
        i += 1;
    }
    proof {
        assert(a@ =~= b@);
    }
    true
}

/// Whether `s` ends with `suffix`, character for character.
pub fn str_has_suffix(s: &str, suffix: &str) -> (r: bool)
    ensures
        r == has_suffix(s@, suffix@),
{
    let n: usize = s.unicode_len();
    let m: usize = suffix.unicode_len();
    if m > n {
        return false;
    }
    let mut i: usize = 0;
    while i < m
        invariant
            m <= n,
            n == s@.len(),
            m == suffix@.len(),
            0 <= i <= m,
            forall|j: int| 0 <= j < i ==> s@[n - m + j] == suffix@[j],
        decreases m - i,
    {
        if s.get_char(n - m + i) != suffix.get_char(i) {
            proof {
                assert(s@.subrange(n - m, n as int)[i as int] == s@[n - m + i]);
            }
            return false;
        }
        i += 1;
    }
    proof {
        assert(s@.subrange(n - m, n as int) =~= suffix@);
    }
    true
}

/// Whether `tag` is a case-insensitive prefix of `name`.
pub fn str_ci_prefix(tag: &str, name: &str) -> (r: bool)
    ensures
        r == ci_prefix(tag@, name@),
{
    let tn: usize = tag.unicode_len();
    let nn: usize = name.unicode_len();
    if tn > nn {
        return false;
    }
    let mut i: usize = 0;
    while i < tn
        invariant
            tn <= nn,
            tn == tag@.len(),
            nn == name@.len(),
            0 <= i <= tn,
            forall|j: int| 0 <= j < i ==> lower_code(tag@[j]) == lower_code(name@[j]),
        decreases tn - i,
    {
        let tc: u32 = tag.get_char(i) as u32;
        let nc: u32 = name.get_char(i) as u32;
        let tl: u32 = if 65 <= tc && tc <= 90 { tc + 32 } else { tc };
        let nl: u32 = if 65 <= nc && nc <= 90 { nc + 32 } else { nc };
        if tl != nl {
            proof {
                assert(lower_code(tag@[i as int]) != lower_code(name@[i as int]));
            }
            return false;
        }
        i += 1;
    }
    true
}

/// `base` and `child` concatenated with a single separator between them.
pub fn join_path(base: &str, child: &str) -> (r: String)
    ensures
        r@ == joined(base@, child@),
{
    let mut s: String = String::from_str(base);
    s.append("/");
    s.append(child);
    proof {
        reveal_strlit("/");
        assert(s@ =~= joined(base@, child@));
    }
    s
}

/// `a` followed immediately by `b`.
pub fn concat_str(a: &str, b: &str) -> (r: String)
    ensures
        r@ == a@ + b@,
{
    let mut s: String = String::from_str(a);
    s.append(b);
    s
}

/// The last separator-delimited component of `s`.
pub fn str_last_component(s: &str) -> (r: String)
    ensures
        r@ == last_component(s@),
{
    let n: usize = s.unicode_len();
    let mut start: usize = 0;
    let ghost mut k: int = -1int;
    let mut i: usize = 0;
    while i < n
        invariant
            0 <= i <= n,
            n == s@.len(),
            -1 <= k < i as int,
            start as int == k + 1,
            k >= 0 ==> s@[k] == '/',
            forall|j: int| k < j < i ==> s@[j] != '/',
        decreases n - i,
    {
        if s.get_char(i) == '/' {
            start = i + 1;
            proof {
                k = i as int;
            }
        }
        i += 1;
    }
    proof {
        lemma_last_index_of_position(s@, '/', k);
    }
    let r: &str = s.substring_char(start, n);
    String::from_str(r)
}

/// The file name `s` without its extension.
pub fn str_file_stem(s: &str) -> (r: String)
    ensures
        r@ == file_stem_of(s@),
{
    let n: usize = s.unicode_len();
    let mut dot: usize = 0;
    let ghost mut k: int = -1int;
    let mut i: usize = 0;
    while i < n
        invariant
            0 <= i <= n,
            n == s@.len(),
            -1 <= k < i as int,
            k >= 0 ==> s@[k] == '.' && dot as int == k,
            k == -1 ==> dot == 0,
            forall|j: int| k < j < i ==> s@[j] != '.',
        decreases n - i,
    {
        if s.get_char(i) == '.' {
            dot = i;
            proof {
                k = i as int;
            }
        }
        i += 1;
    }
    proof {
        lemma_last_index_of_position(s@, '.', k);
    }
    if dot == 0 {
        proof {
            assert(last_index_of(s@, '.') <= 0);
        }
        String::from_str(s)
    } else {
        let r: &str = s.substring_char(0, dot);
        String::from_str(r)
    }
}

} // verus!
