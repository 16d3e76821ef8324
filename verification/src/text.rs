//! Comparison of strings, character by character.

use vstd::prelude::*;

verus! {

/// Lower-case form of an ASCII letter; every other character is left as it is.
pub open spec fn ascii_lower(c: char) -> char {
    if 'A' <= c && c <= 'Z' {
        ((c as u8) + 32) as char
    } else {
        c
    }
}

/// The text with each ASCII letter in lower case.
pub open spec fn fold_case(s: Seq<char>) -> Seq<char> {
    Seq::new(s.len(), |i: int| ascii_lower(s[i]))
}

/// Two identities match when they are equal up to the case of ASCII letters.
pub open spec fn same_identity(a: Seq<char>, b: Seq<char>) -> bool {
    fold_case(a) == fold_case(b)
}

/// Every identity matches itself.
pub proof fn lemma_same_identity_reflexive(a: Seq<char>)
    ensures
        same_identity(a, a),
{
}

/// Matching does not depend on the order of the two identities.
pub proof fn lemma_same_identity_symmetric(a: Seq<char>, b: Seq<char>)
    ensures
        same_identity(a, b) == same_identity(b, a),
{
}

/// Two identities that match a third match each other.
pub proof fn lemma_same_identity_transitive(a: Seq<char>, b: Seq<char>, c: Seq<char>)
    requires
        same_identity(a, b),
        same_identity(b, c),
    ensures
        same_identity(a, c),
{
}

/// Lower-case form of an ASCII letter.
pub fn lower(c: char) -> (r: char)
    ensures
        r == ascii_lower(c),
{
    if 'A' <= c && c <= 'Z' {
        ((c as u8) + 32) as char
    } else {
        c
    }
}

/// Whether two strings hold the same characters.
pub fn str_equal(a: &str, b: &str) -> (r: bool)
    ensures
        r == (a@ == b@),
{
    let n: usize = a.unicode_len();
    if n != b.unicode_len() {
        return false;
    }
    let mut i: usize = 0;
    while i < n
        invariant
            n == a@.len(),
            n == b@.len(),
            i <= n,
            forall|k: int| 0 <= k < i ==> a@[k] == b@[k],
        decreases n - i,
    {
        if a.get_char(i) != b.get_char(i) {
            return false;
        }
        i += 1;
    }
    assert(a@ =~= b@);
    true
}

/// Whether two identities match, ignoring the case of ASCII letters.
pub fn identity_matches(a: &str, b: &str) -> (r: bool)
    ensures
        r == same_identity(a@, b@),
{
    let n: usize = a.unicode_len();
    if n != b.unicode_len() {
        assert(fold_case(a@).len() != fold_case(b@).len());
        return false;
    }
    let mut i: usize = 0;
    while i < n
        invariant
            n == a@.len(),
            n == b@.len(),
            i <= n,
            forall|k: int| 0 <= k < i ==> ascii_lower(a@[k]) == ascii_lower(b@[k]),
        decreases n - i,
    {
        if lower(a.get_char(i)) != lower(b.get_char(i)) {
            assert(fold_case(a@)[i as int] != fold_case(b@)[i as int]);
            return false;
        }
        i += 1;
    }
    assert(fold_case(a@) =~= fold_case(b@));
    true
}

} // verus!
