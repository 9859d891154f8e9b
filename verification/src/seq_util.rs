//! Removal of the first matching element of a sequence.
//!
//! The binding table, the pending-request list and the handle registry all
//! remove entries by a key that a well-formedness invariant keeps unique.
//! Their transitions are stated with [`remove_first_where`]; the lemma here
//! connects that spec-level shape to the index-based removal the executable
//! code performs.

use vstd::prelude::*;

verus! {

/// The sequence with its first element satisfying `p` removed; the sequence
/// itself when no element satisfies `p`.
pub open spec fn remove_first_where<T>(s: Seq<T>, p: spec_fn(T) -> bool) -> Seq<T>
    decreases s.len(),
{
    if s.len() == 0 {
        s
    } else if p(s[0]) {
        s.drop_first()
    } else {
        seq![s[0]] + remove_first_where(s.drop_first(), p)
    }
}

/// Removing the first match is removal at its index: when `i` is the first
/// index whose element satisfies `p`, the result is `s` without position `i`.
pub proof fn lemma_remove_first_where_is_remove<T>(s: Seq<T>, p: spec_fn(T) -> bool, i: int)
    requires
        0 <= i < s.len(),
        p(s[i]),
        forall|j: int| 0 <= j < i ==> !p(s[j]),
    ensures
        remove_first_where(s, p) == s.remove(i),
    decreases i,
{
    if i == 0 {
        assert(s.drop_first() =~= s.remove(0));
    } else {
        assert(s.drop_first()[i - 1] == s[i]);
        lemma_remove_first_where_is_remove(s.drop_first(), p, i - 1);
        assert(seq![s[0]] + s.drop_first().remove(i - 1) =~= s.remove(i));
    }
}

} // verus!
