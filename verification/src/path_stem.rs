//! Base-name and stem extraction for program paths, with an
//! ASCII-case-insensitive comparison.
//!
//! The resolution protocol branches on the base name of the pager binary
//! (`less` gets a compatibility treatment; the program's own name triggers
//! the self-recursion guard), dropping any directory prefix and any
//! extension, so that `C:\tools\LESS.EXE` and `/usr/bin/less` classify
//! alike.

use vstd::prelude::*;

verus! {

/// A path separator: both conventions are honored so that classification
/// does not depend on the platform the path was written for.
pub open spec fn is_sep(c: char) -> bool {
    c == '/' || c == '\\'
}

/// The part of `p` after its last separator (all of `p` if there is none).
pub open spec fn base_name(p: Seq<char>) -> Seq<char>
    decreases p.len(),
{
    if p.len() == 0 {
        p
    } else if is_sep(p.last()) {
        Seq::empty()
    } else {
        base_name(p.drop_last()).push(p.last())
    }
}

/// Whether `name` holds a `.` at some index other than the first, i.e. an
/// extension dot.  A name that is all extension (`.profile`) has none.
pub open spec fn has_ext_dot(name: Seq<char>) -> bool
    decreases name.len(),
{
    if name.len() <= 1 {
        false
    } else if name.last() == '.' {
        true
    } else {
        has_ext_dot(name.drop_last())
    }
}

/// The index of the last extension dot of `name`; meaningful only when
/// `has_ext_dot(name)`.
pub open spec fn last_ext_dot(name: Seq<char>) -> int
    decreases name.len(),
{
    if name.len() <= 1 {
        0
    } else if name.last() == '.' {
        name.len() - 1
    } else {
        last_ext_dot(name.drop_last())
    }
}

/// `name` with its extension (if any) removed.
pub open spec fn stem_of(name: Seq<char>) -> Seq<char> {
    if has_ext_dot(name) {
        name.subrange(0, last_ext_dot(name))
    } else {
        name
    }
}

/// The stem of the base name of a path: what the resolution protocol
/// compares pager binaries by.
pub open spec fn path_stem(p: Seq<char>) -> Seq<char> {
    stem_of(base_name(p))
}

/// The code point of `c`, with ASCII upper-case letters folded to lower
/// case.
pub open spec fn lower_code(c: char) -> int {
    if 65 <= c as int && c as int <= 90 {
        c as int + 32
    } else {
        c as int
    }
}

/// Equality of two character sequences up to ASCII case.
pub open spec fn eq_ignore_ascii_case(a: Seq<char>, b: Seq<char>) -> bool {
    a.len() == b.len() && (forall|i: int| 0 <= i < a.len() ==> lower_code(a[i]) == lower_code(b[i]))
}

/// Whether the stem of the base name of path `p` equals `name`, up to ASCII
/// case.
pub open spec fn stem_matches_spec(p: Seq<char>, name: Seq<char>) -> bool {
    eq_ignore_ascii_case(path_stem(p), name)
}

/// Case-insensitive equality is transitive: a stem that matches both `b`
/// and `c` makes `b` and `c` match each other.
pub proof fn lemma_eq_ignore_case_transitive(a: Seq<char>, b: Seq<char>, c: Seq<char>)
    requires
        eq_ignore_ascii_case(a, b),
        eq_ignore_ascii_case(a, c),
    ensures
        eq_ignore_ascii_case(b, c),
{
}

/// A scan that found no separator at or after `b`, and a separator just
/// before `b` (unless `b` is 0), has found where the base name starts.
proof fn lemma_base_name_at(p: Seq<char>, b: int)
    requires
        0 <= b <= p.len(),
        forall|i: int| b <= i < p.len() ==> !is_sep(p[i]),
        b > 0 ==> is_sep(p[b - 1]),
    ensures
        base_name(p) == p.subrange(b, p.len() as int),
    decreases p.len(),
{
    if p.len() == 0 {
        assert(p.subrange(0, 0) =~= p);
    } else if b == p.len() {
        assert(is_sep(p.last()));
        assert(p.subrange(b, p.len() as int) =~= Seq::<char>::empty());
    } else {
        assert(!is_sep(p.last()));
        let q = p.drop_last();
        assert(forall|i: int| b <= i < q.len() ==> q[i] == p[i]);
        lemma_base_name_at(q, b);
        assert(q.subrange(b, q.len() as int).push(p.last()) =~= p.subrange(b, p.len() as int));
    }
}

/// A name with no dot past its first character has no extension.
proof fn lemma_no_ext_dot(name: Seq<char>)
    requires
        forall|i: int| 1 <= i < name.len() ==> name[i] != '.',
    ensures
        !has_ext_dot(name),
    decreases name.len(),
{
    if name.len() > 1 {
        assert(name.last() != '.');
        let q = name.drop_last();
        assert(forall|i: int| 1 <= i < q.len() ==> q[i] == name[i]);
        lemma_no_ext_dot(q);
    }
}

/// A dot at index `d >= 1` with no later dot is the extension dot.
proof fn lemma_ext_dot_at(name: Seq<char>, d: int)
    requires
        1 <= d < name.len(),
        name[d] == '.',
        forall|i: int| d < i < name.len() ==> name[i] != '.',
    ensures
        has_ext_dot(name),
        last_ext_dot(name) == d,
    decreases name.len(),
{
    if d == name.len() - 1 {
        assert(name.last() == '.');
    } else {
        assert(name.last() != '.');
        let q = name.drop_last();
        assert(q[d] == name[d]);
        assert(forall|i: int| d < i < q.len() ==> q[i] == name[i]);
        lemma_ext_dot_at(q, d);
    }
}

/// Whether `c` is a path separator.
pub fn is_sep_char(c: char) -> (r: bool)
    ensures
        r == is_sep(c),
{
    c == '/' || c == '\\'
}

/// Compares two characters up to ASCII case.
pub fn chars_eq_ci(a: char, b: char) -> (r: bool)
    ensures
        r == (lower_code(a) == lower_code(b)),
{
    let x: u32 = a as u32;
    let y: u32 = b as u32;
    let xl: u32 = if 65 <= x && x <= 90 { x + 32 } else { x };
    let yl: u32 = if 65 <= y && y <= 90 { y + 32 } else { y };
    xl == yl
}

/// Whether the stem of the base name of `path` equals `name` up to ASCII
/// case.  This is the comparison the resolution protocol applies to the
/// resolved binary, against `less` and against the program's own name.
pub fn stem_matches(path: &str, name: &str) -> (r: bool)
    ensures
        r == stem_matches_spec(path@, name@),
{
    let n: usize = path.unicode_len();

    // Where the base name starts: just after the last separator.
    let mut b: usize = n;
    while b > 0 && !is_sep_char(path.get_char(b - 1))
        invariant
            b <= n,
            n == path@.len(),
            forall|i: int| b <= i < n ==> !is_sep(path@[i]),
        decreases b,
    {
        b = b - 1;
    }
    proof {
        lemma_base_name_at(path@, b as int);
    }

    // Where the stem ends: at the last dot strictly after the base name's
    // first character, or at the end of the path if there is none.
    let mut e: usize = n;
    let mut j: usize = n;
    let mut found: bool = false;
    while j > b && !found
        invariant
            b <= j <= n,
            n == path@.len(),
            !found ==> forall|i: int| j <= i < n && i > b ==> path@[i] != '.',
            found ==> b < e < n && path@[e as int] == '.' && (forall|i: int|
                e < i < n ==> path@[i] != '.'),
            !found ==> e == n,
        decreases (if found { 0int } else { j as int + 1 }),
    {
        let k = j - 1;
        if k > b && path.get_char(k) == '.' {
            e = k;
            found = true;
        } else {
            j = k;
        }
    }
    proof {
        let bn = path@.subrange(b as int, n as int);
        if found {
            assert(forall|i: int| (e - b) < i < bn.len() ==> bn[i] == path@[i + b]);
            lemma_ext_dot_at(bn, e - b);
            assert(stem_of(bn) =~= path@.subrange(b as int, e as int));
        } else {
            assert(forall|i: int| 1 <= i < bn.len() ==> bn[i] == path@[i + b]);
            lemma_no_ext_dot(bn);
        }
        assert(path_stem(path@) == path@.subrange(b as int, e as int));
    }

    // Compare the stem, path@[b .. e), against name, character by character.
    let m: usize = name.unicode_len();
    if e - b != m {
        return false;
    }
    let mut i: usize = 0;
    while i < m
        invariant
            i <= m,
            m == name@.len(),
            n == path@.len(),
            b <= e <= n,
            e - b == m,
            path_stem(path@) == path@.subrange(b as int, e as int),
            forall|k: int| 0 <= k < i ==> lower_code(path@[b + k]) == lower_code(name@[k]),
        decreases m - i,
    {
        if !chars_eq_ci(path.get_char(b + i), name.get_char(i)) {
            proof {
                assert(path_stem(path@)[i as int] == path@[b + i]);
            }
            return false;
        }
        i = i + 1;
    }
    proof {
        assert(forall|k: int|
            0 <= k < m ==> path_stem(path@)[k] == path@[b + k]);
    }
    true
}

} // verus!
