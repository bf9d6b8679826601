//! The first place at which a value stands in a sequence.

use vstd::prelude::*;

verus! {

/// The position of the first `needle` in `s`, or the length of `s` where
/// `needle` does not occur.
pub open spec fn first_index_of<T>(s: Seq<T>, needle: T) -> int
    decreases s.len(),
{
    if s.len() == 0 {
        0
    } else if s[0] == needle {
        0
    } else {
        1 + first_index_of(s.drop_first(), needle)
    }
}

/// `first_index_of` is the one position before which `needle` does not
/// occur and at which it does, unless that position is the end.
pub proof fn lemma_first_index_of<T>(s: Seq<T>, needle: T, i: int)
    requires
        0 <= i <= s.len(),
        forall|j: int| 0 <= j < i ==> s[j] != needle,
        i < s.len() ==> s[i] == needle,
    ensures
        first_index_of(s, needle) == i,
    decreases s.len(),
{
    if s.len() != 0 && i != 0 {
        let tail = s.drop_first();
        assert forall|j: int| 0 <= j < i - 1 implies tail[j] != needle by {
        }
        lemma_first_index_of(tail, needle, i - 1);
    }
}

/// The position that `first_index_of` gives lies within the sequence or
/// at its end, `needle` stands there, and nowhere before.
pub proof fn lemma_first_index_of_bounds<T>(s: Seq<T>, needle: T)
    ensures
        0 <= first_index_of(s, needle) <= s.len(),
        first_index_of(s, needle) < s.len() ==> s[first_index_of(s, needle)] == needle,
        forall|j: int| 0 <= j < first_index_of(s, needle) ==> s[j] != needle,
    decreases s.len(),
{
    if s.len() != 0 && s[0] != needle {
        let tail = s.drop_first();
        lemma_first_index_of_bounds(tail, needle);
        assert forall|j: int| 0 <= j < first_index_of(s, needle) implies s[j] != needle by {
            if j > 0 {
                assert(tail[j - 1] == s[j]);
            }
        }
    }
}

} // verus!
