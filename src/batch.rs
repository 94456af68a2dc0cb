use vstd::prelude::*;
use rand::rngs::StdRng;

verus! {

/// rand's seedable generator, carried through unopened.
#[verifier::external_type_specification]
#[verifier::external_body]
pub struct ExStdRng(StdRng);

/// `b` is a minibatch of `size` distinct row indices below `n`, or of all
/// `n` rows where `size` exceeds `n`.
pub open spec fn is_batch(b: Seq<usize>, n: usize, size: usize) -> bool {
    &&& b.len() == if size < n { size } else { n }
    &&& forall|i: int| 0 <= i < b.len() ==> #[trigger] b[i] < n
    &&& b.no_duplicates()
}

/// Relies on rand's `IteratorRandom::choose_multiple` over the range
/// `0..n`: its reservoir keeps `amount` items of the range, or all of them
/// where the range is shorter, and each item of the range at most once.
#[verifier::external_body]
fn choose_rows(rng: &mut StdRng, n: usize, amount: usize) -> (r: Vec<usize>)
    ensures
        is_batch(r@, n, amount),
{
    rand::seq::IteratorRandom::choose_multiple(0..n, rng, amount)
}

/// Draws one minibatch of `size` distinct rows out of `n`.
pub fn sample_batch(rng: &mut StdRng, n: usize, size: usize) -> (r: Vec<usize>)
    ensures
        is_batch(r@, n, size),
{
    choose_rows(rng, n, size)
}

/// Draws `count` minibatches ahead of a training run, so that several runs
/// can see the same sequence of rows.
pub fn sample_batches(rng: &mut StdRng, n: usize, size: usize, count: usize) -> (r: Vec<Vec<usize>>)
    ensures
        r@.len() == count,
        forall|k: int| 0 <= k < count ==> is_batch(#[trigger] r@[k]@, n, size),
{
    let mut batches: Vec<Vec<usize>> = Vec::new();
    let mut k: usize = 0;
    while k < count
        invariant
            k <= count,
            batches@.len() == k,
            forall|j: int| 0 <= j < k ==> is_batch(#[trigger] batches@[j]@, n, size),
        decreases count - k,
    {
        let b = sample_batch(rng, n, size);
        batches.push(b);
        k = k + 1;
    }
    batches
}

} // verus!
