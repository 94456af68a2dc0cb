use vstd::prelude::*;

verus! {

/// Number of rows drawn for training where the caller names none.
pub const DEFAULT_TRAINING_SIZE: u32 = 50_000;

/// Number of rows drawn for validation where the caller names none.
pub const DEFAULT_VALIDATION_SIZE: u32 = 500;

/// Number of rows drawn for testing where the caller names none.
pub const DEFAULT_TEST_SIZE: u32 = 10_000;

/// Sizes of the training, validation and test splits, each defaulted where
/// it is not given.
pub fn split_sizes(training: Option<u32>, validation: Option<u32>, test: Option<u32>) -> (r: (
    u32,
    u32,
    u32,
))
    ensures
        r.0 == match training {
            Some(n) => n,
            None => DEFAULT_TRAINING_SIZE,
        },
        r.1 == match validation {
            Some(n) => n,
            None => DEFAULT_VALIDATION_SIZE,
        },
        r.2 == match test {
            Some(n) => n,
            None => DEFAULT_TEST_SIZE,
        },
{
    let a = match training {
        Some(n) => n,
        None => DEFAULT_TRAINING_SIZE,
    };
    let b = match validation {
        Some(n) => n,
        None => DEFAULT_VALIDATION_SIZE,
    };
    let c = match test {
        Some(n) => n,
        None => DEFAULT_TEST_SIZE,
    };
    (a, b, c)
}

/// Entry `j` of the one-hot row of `label`.
pub open spec fn one_hot_entry(label: u8, j: int) -> u8 {
    if label as int == j {
        1
    } else {
        0
    }
}

/// One row of `classes` entries per label: 1 in the label's column, 0
/// elsewhere (a label of `classes` or more gives a row of zeros).
pub fn one_hot(labels: &Vec<u8>, classes: usize) -> (r: Vec<Vec<u8>>)
    ensures
        r@.len() == labels@.len(),
        forall|i: int| 0 <= i < r@.len() ==> (#[trigger] r@[i])@.len() == classes,
        forall|i: int, j: int|
            0 <= i < r@.len() && 0 <= j < classes ==> #[trigger] r@[i]@[j] == one_hot_entry(
                labels@[i],
                j,
            ),
{
    let mut rows: Vec<Vec<u8>> = Vec::new();
    let mut i: usize = 0;
    while i < labels.len()
        invariant
            i <= labels@.len(),
            rows@.len() == i,
            forall|k: int| 0 <= k < i ==> (#[trigger] rows@[k])@.len() == classes,
            forall|k: int, j: int|
                0 <= k < i && 0 <= j < classes ==> #[trigger] rows@[k]@[j] == one_hot_entry(
                    labels@[k],
                    j,
                ),
        decreases labels@.len() - i,
    {
        let label = labels[i];
        let mut row: Vec<u8> = Vec::new();
        let mut j: usize = 0;
        while j < classes
            invariant
                j <= classes,
                row@.len() == j,
                forall|m: int| 0 <= m < j ==> row@[m] == one_hot_entry(label, m),
            decreases classes - j,
        {
            if label as usize == j {
                row.push(1);
            } else {
                row.push(0);
            }
            j = j + 1;
        }
        rows.push(row);
        i = i + 1;
    }
    rows
}

} // verus!
