use vstd::prelude::*;
use crate::argmax::{argmax, first_max};

verus! {

/// Every row holds at least one key.
pub open spec fn rows_nonempty(rows: Seq<Vec<u64>>) -> bool {
    forall|i: int| 0 <= i < rows.len() ==> #[trigger] rows[i]@.len() > 0
}

/// How many of the first `n` rows have their largest prediction key in the
/// same column as the largest target key (first position on ties).
pub open spec fn matching_rows(y: Seq<Vec<u64>>, t: Seq<Vec<u64>>, n: int) -> nat
    decreases n,
{
    if n <= 0 {
        0
    } else {
        matching_rows(y, t, n - 1) + if first_max(y[n - 1]@) == first_max(t[n - 1]@) {
            1nat
        } else {
            0nat
        }
    }
}

proof fn lemma_matching_rows_bounded(y: Seq<Vec<u64>>, t: Seq<Vec<u64>>, n: int)
    requires
        0 <= n,
    ensures
        matching_rows(y, t, n) <= n,
    decreases n,
{
    if n > 0 {
        lemma_matching_rows_bounded(y, t, n - 1);
    }
}

/// Number of rows whose predicted class (arg-max of the row of `y`) equals
/// the labelled class (arg-max of the row of `t`); accuracy is this count
/// over the number of rows.
pub fn correct_count(y: &Vec<Vec<u64>>, t: &Vec<Vec<u64>>) -> (r: usize)
    requires
        y@.len() == t@.len(),
        rows_nonempty(y@),
        rows_nonempty(t@),
    ensures
        r == matching_rows(y@, t@, y@.len() as int),
        r <= y@.len(),
{
    let mut count: usize = 0;
    let mut i: usize = 0;
    while i < y.len()
        invariant
            y@.len() == t@.len(),
            rows_nonempty(y@),
            rows_nonempty(t@),
            i <= y@.len(),
            count == matching_rows(y@, t@, i as int),
        decreases y@.len() - i,
    {
        proof {
            lemma_matching_rows_bounded(y@, t@, i as int);
        }
        let predicted = argmax(&y[i]);
        let labelled = argmax(&t[i]);
        if predicted == labelled {
            count = count + 1;
        }
        i = i + 1;
    }
    proof {
        lemma_matching_rows_bounded(y@, t@, i as int);
    }
    count
}

} // verus!
