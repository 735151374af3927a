//! Case-insensitive identifier matching: SQL identifiers are lower-cased
//! before they are compared with the names stored in the catalog.

use vstd::prelude::*;

verus! {

/// ASCII lower-casing of one character; characters outside `A..=Z` are kept.
pub open spec fn lower_char(c: char) -> char {
    if 'A' <= c && c <= 'Z' {
        (((c as u32) + 32) as u8) as char
    } else {
        c
    }
}

/// The ASCII lower-cased form of an identifier.
pub open spec fn lower(s: Seq<char>) -> Seq<char> {
    s.map_values(|c: char| lower_char(c))
}

/// `q`, lower-cased, is exactly the stored name `s`.
pub open spec fn matches_lower(q: Seq<char>, s: Seq<char>) -> bool {
    lower(q) == s
}

/// Lower-case one character, keeping anything that is not an ASCII capital.
pub fn lower_char_exec(c: char) -> (r: char)
    ensures
        r == lower_char(c),
{
    if 'A' <= c && c <= 'Z' {
        (((c as u32) + 32) as u8) as char
    } else {
        c
    }
}

/// Two identifiers are the same name, compared case-insensitively.
pub open spec fn ci_equal(a: Seq<char>, b: Seq<char>) -> bool {
    lower(a) == lower(b)
}

/// Case-insensitive equality of two identifiers.
pub fn eq_ci(a: &str, b: &str) -> (r: bool)
    ensures
        r == ci_equal(a@, b@),
{
    let an = a.unicode_len();
    let bn = b.unicode_len();
    if an != bn {
        assert(lower(a@).len() != lower(b@).len());
        return false;
    }
    let mut i: usize = 0;
    while i < an
        invariant
            i <= an,
            an == a@.len(),
            bn == b@.len(),
            an == bn,
            forall|j: int| 0 <= j < i ==> lower_char(a@[j]) == lower_char(b@[j]),
        decreases an - i,
    {
        if lower_char_exec(a.get_char(i)) != lower_char_exec(b.get_char(i)) {
            assert(lower(a@)[i as int] != lower(b@)[i as int]);
            return false;
        }
        i += 1;
    }
    proof {
        assert(lower(a@) =~= lower(b@));
    }
    true
}

/// Exact equality of two string slices.
pub fn str_eq(a: &str, b: &str) -> (r: bool)
    ensures
        r == (a@ == b@),
{
    let an = a.unicode_len();
    let bn = b.unicode_len();
    if an != bn {
        return false;
    }
    let mut i: usize = 0;
    while i < an
        invariant
            i <= an,
            an == a@.len(),
            bn == b@.len(),
            an == bn,
            forall|j: int| 0 <= j < i ==> a@[j] == b@[j],
        decreases an - i,
    {
        if a.get_char(i) != b.get_char(i) {
            return false;
        }
        i += 1;
    }
    proof {
        assert(a@ =~= b@);
    }
    true
}

/// Does the identifier `q`, lower-cased, equal the stored name `s` exactly?
pub fn eq_lower(q: &str, s: &str) -> (r: bool)
    ensures
        r == matches_lower(q@, s@),
{
    let qn = q.unicode_len();
    let sn = s.unicode_len();
    if qn != sn {
        assert(lower(q@).len() == q@.len());
        return false;
    }
    let mut i: usize = 0;
    while i < qn
        invariant
            i <= qn,
            qn == q@.len(),
            sn == s@.len(),
            qn == sn,
            forall|j: int| 0 <= j < i ==> lower_char(q@[j]) == s@[j],
        decreases qn - i,
    {
        if lower_char_exec(q.get_char(i)) != s.get_char(i) {
            assert(lower(q@)[i as int] != s@[i as int]);
            return false;
        }
        i += 1;
    }
    assert(lower(q@) =~= s@);
    true
}

} // verus!
