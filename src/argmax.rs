use vstd::prelude::*;

verus! {

/// `i` is the first position of a largest element of `s`.
pub open spec fn is_first_max(s: Seq<u64>, i: int) -> bool {
    &&& 0 <= i < s.len()
    &&& forall|j: int| 0 <= j < s.len() ==> s[j] <= s[i]
    &&& forall|j: int| 0 <= j < i ==> s[j] < s[i]
}

/// The first position of a largest element of a non-empty sequence.
pub open spec fn first_max(s: Seq<u64>) -> int {
    choose|i: int| is_first_max(s, i)
}

/// A sequence has at most one first position of its largest element.
pub proof fn lemma_first_max_unique(s: Seq<u64>, i: int, k: int)
    requires
        is_first_max(s, i),
        is_first_max(s, k),
    ensures
        i == k,
{
    if i < k {
        assert(s[i] < s[k]);
        assert(s[k] <= s[i]);
    } else if k < i {
        assert(s[k] < s[i]);
        assert(s[i] <= s[k]);
    }
}

/// Position of the largest key, the first one where several are largest:
/// a scan from the left that moves only on a strictly greater key.
pub fn argmax(x: &Vec<u64>) -> (r: usize)
    requires
        x@.len() > 0,
    ensures
        is_first_max(x@, r as int),
        r as int == first_max(x@),
{
    let mut best: usize = 0;
    let mut i: usize = 1;
    while i < x.len()
        invariant
            1 <= i <= x@.len(),
            best < i,
            forall|j: int| 0 <= j < i ==> x@[j] <= x@[best as int],
            forall|j: int| 0 <= j < best ==> x@[j] < x@[best as int],
        decreases x@.len() - i,
    {
        if x[i] > x[best] {
            best = i;
        }
        i = i + 1;
    }
    proof {
        lemma_first_max_unique(x@, best as int, first_max(x@));
    }
    best
}

} // verus!
