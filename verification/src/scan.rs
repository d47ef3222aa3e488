//! First occurrence of an element in a sequence, the one notion of searching
//! that both the byte-level framing and the character-level grammar rest on.

use vstd::prelude::*;

verus! {

/// `i` is the least index at which `s` holds `x`.
pub open spec fn is_first<A>(s: Seq<A>, x: A, i: int) -> bool {
    &&& 0 <= i < s.len()
    &&& s[i] == x
    &&& forall|j: int| 0 <= j < i ==> s[j] != x
}

/// `x` occurs nowhere in `s`.
pub open spec fn absent<A>(s: Seq<A>, x: A) -> bool {
    forall|j: int| 0 <= j < s.len() ==> s[j] != x
}

/// The least index at which `s` holds `x`, if there is one.
pub open spec fn position<A>(s: Seq<A>, x: A) -> Option<int> {
    if exists|i: int| is_first(s, x, i) {
        Some(choose|i: int| is_first(s, x, i))
    } else {
        None
    }
}

/// A first occurrence is the position.
pub proof fn lemma_position_some<A>(s: Seq<A>, x: A, i: int)
    requires
        is_first(s, x, i),
    ensures
        position(s, x) == Some(i),
{
    let k = choose|k: int| is_first(s, x, k);
    assert(is_first(s, x, k));
    if k < i {
        assert(s[k] == x);
    } else if i < k {
        assert(s[i] == x);
    }
}

/// Where the element is absent there is no position.
pub proof fn lemma_position_none<A>(s: Seq<A>, x: A)
    requires
        absent(s, x),
    ensures
        position(s, x) is None,
{
    if exists|i: int| is_first(s, x, i) {
        let k = choose|k: int| is_first(s, x, k);
        assert(s[k] == x);
    }
}

/// What `position` returns, read back as facts about the sequence.
pub proof fn lemma_position_facts<A>(s: Seq<A>, x: A)
    ensures
        match position(s, x) {
            Some(i) => is_first(s, x, i),
            None => absent(s, x),
        },
{
    if exists|i: int| is_first(s, x, i) {
    } else {
        assert forall|j: int| 0 <= j < s.len() implies s[j] != x by {
            if s[j] == x {
                lemma_least_occurrence(s, x, j);
            }
        }
    }
}

/// An occurrence at `j` gives a first occurrence at or before `j`.
pub proof fn lemma_least_occurrence<A>(s: Seq<A>, x: A, j: int)
    requires
        0 <= j < s.len(),
        s[j] == x,
    ensures
        exists|i: int| is_first(s, x, i) && i <= j,
    decreases j,
{
    if exists|k: int| 0 <= k < j && s[k] == x {
        let k = choose|k: int| 0 <= k < j && s[k] == x;
        lemma_least_occurrence(s, x, k);
        let i = choose|i: int| is_first(s, x, i) && i <= k;
        assert(is_first(s, x, i) && i <= j);
    } else {
        assert(is_first(s, x, j));
    }
}

} // verus!
