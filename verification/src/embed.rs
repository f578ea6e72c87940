//! A subsequence relation on character sequences. Styled output carries
//! the plain text of a line with escape sequences inserted around and,
//! for nested styles, inside it; the honest relation between the plain
//! text and the styled line is therefore "appears in order, possibly
//! with insertions".

use vstd::prelude::*;

verus! {

/// A strictly increasing map from the positions of `a` to positions of
/// `b` under which `a` is read off `b`.
pub open spec fn is_embedding(m: Seq<int>, a: Seq<char>, b: Seq<char>) -> bool {
    &&& m.len() == a.len()
    &&& forall|i: int| 0 <= i < m.len() ==> 0 <= #[trigger] m[i] < b.len()
    &&& forall|i: int, j: int| 0 <= i < j < m.len() ==> #[trigger] m[i] < #[trigger] m[j]
    &&& forall|i: int| 0 <= i < m.len() ==> a[i] == b[#[trigger] m[i]]
}

/// Whether `a` appears within `b` in order, possibly with insertions.
pub open spec fn subseq_of(a: Seq<char>, b: Seq<char>) -> bool {
    exists|m: Seq<int>| is_embedding(m, a, b)
}

/// Whether a text holds the terminal escape character, around which a
/// styling layer may insert new sequences.
pub open spec fn has_escape(s: Seq<char>) -> bool {
    exists|i: int| 0 <= i < s.len() && s[i] == '\u{1b}'
}

/// A concatenation of escape-free texts is escape-free.
pub proof fn lemma_no_escape_concat(a: Seq<char>, b: Seq<char>)
    requires
        !has_escape(a),
        !has_escape(b),
    ensures
        !has_escape(a + b),
{
    if has_escape(a + b) {
        let i = choose|i: int| 0 <= i < (a + b).len() && (a + b)[i] == '\u{1b}';
        if i < a.len() {
            assert(a[i] == '\u{1b}');
        } else {
            assert(b[i - a.len()] == '\u{1b}');
        }
    }
}

/// Every sequence is a subsequence of itself.
pub proof fn lemma_subseq_refl(a: Seq<char>)
    ensures
        subseq_of(a, a),
{
    let m = Seq::new(a.len(), |i: int| i);
    assert(is_embedding(m, a, a));
}

/// The subsequence relation respects concatenation.
pub proof fn lemma_subseq_concat(a1: Seq<char>, b1: Seq<char>, a2: Seq<char>, b2: Seq<char>)
    requires
        subseq_of(a1, b1),
        subseq_of(a2, b2),
    ensures
        subseq_of(a1 + a2, b1 + b2),
{
    let m1 = choose|m: Seq<int>| is_embedding(m, a1, b1);
    let m2 = choose|m: Seq<int>| is_embedding(m, a2, b2);
    let m = Seq::new(
        a1.len() + a2.len(),
        |i: int|
            if i < a1.len() {
                m1[i]
            } else {
                b1.len() + m2[i - a1.len()]
            },
    );
    assert(is_embedding(m, a1 + a2, b1 + b2));
}

/// The subsequence relation is transitive.
pub proof fn lemma_subseq_trans(a: Seq<char>, b: Seq<char>, c: Seq<char>)
    requires
        subseq_of(a, b),
        subseq_of(b, c),
    ensures
        subseq_of(a, c),
{
    let m1 = choose|m: Seq<int>| is_embedding(m, a, b);
    let m2 = choose|m: Seq<int>| is_embedding(m, b, c);
    let m = Seq::new(a.len(), |i: int| m2[m1[i]]);
    assert(is_embedding(m, a, c));
}

} // verus!
