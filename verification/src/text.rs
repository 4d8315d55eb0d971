//! Comparison of text up to the case of ASCII letters.

use vstd::prelude::*;

verus! {

/// The lower-case form of an ASCII capital letter; every other character is itself.
pub open spec fn ascii_lowercase(c: char) -> char {
    if 'A' <= c && c <= 'Z' {
        ((c as u32) + 32) as char
    } else {
        c
    }
}

/// A text with each of its ASCII capital letters replaced by the lower-case letter.
pub open spec fn to_ascii_lowercase(s: Seq<char>) -> Seq<char> {
    Seq::new(s.len(), |i: int| ascii_lowercase(s[i]))
}

/// Two texts match when they have the same characters, up to the case of ASCII letters.
pub open spec fn matches_ignoring_ascii_case(a: Seq<char>, b: Seq<char>) -> bool {
    to_ascii_lowercase(a) == to_ascii_lowercase(b)
}

/// `str::eq_ignore_ascii_case` of the standard library. Its documentation defines the
/// result as the equality of the two `to_ascii_lowercase` forms, in which the letters
/// 'A' to 'Z' become 'a' to 'z' and every other character stays as it is; the contract
/// says that and nothing more.
pub assume_specification[ str::eq_ignore_ascii_case ](s: &str, other: &str) -> (same: bool)
    ensures
        same == matches_ignoring_ascii_case(s@, other@),
;

/// Matching is the same as having one length and matching character by character.
pub proof fn lemma_matches_character_by_character(a: Seq<char>, b: Seq<char>)
    ensures
        matches_ignoring_ascii_case(a, b) <==> (a.len() == b.len() && forall|i: int|
            0 <= i < a.len() ==> ascii_lowercase(#[trigger] a[i]) == ascii_lowercase(b[i])),
{
    let la = to_ascii_lowercase(a);
    let lb = to_ascii_lowercase(b);
    if matches_ignoring_ascii_case(a, b) {
        assert(la.len() == lb.len());
        assert forall|i: int| 0 <= i < a.len() implies ascii_lowercase(#[trigger] a[i])
            == ascii_lowercase(b[i]) by {
            assert(la[i] == lb[i]);
        }
    }
    if a.len() == b.len() && forall|i: int|
        0 <= i < a.len() ==> ascii_lowercase(#[trigger] a[i]) == ascii_lowercase(b[i]) {
        assert(la =~= lb);
    }
}

/// Matching is an equivalence: every text matches itself, and matching goes both ways
/// and carries over a text in the middle.
pub proof fn lemma_matching_is_an_equivalence(a: Seq<char>, b: Seq<char>, c: Seq<char>)
    ensures
        matches_ignoring_ascii_case(a, a),
        matches_ignoring_ascii_case(a, b) ==> matches_ignoring_ascii_case(b, a),
        matches_ignoring_ascii_case(a, b) && matches_ignoring_ascii_case(b, c)
            ==> matches_ignoring_ascii_case(a, c),
{
}

/// The case of ASCII letters plays no part: a text matches its own lower-case form,
/// and so every text with that lower-case form.
pub proof fn lemma_text_matches_its_lowercase(a: Seq<char>)
    ensures
        matches_ignoring_ascii_case(a, to_ascii_lowercase(a)),
{
    let lower = to_ascii_lowercase(a);
    assert(to_ascii_lowercase(lower) =~= lower);
}

} // verus!
