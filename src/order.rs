use vstd::prelude::*;

verus! {

/// Bit of an IEEE-754 binary64 pattern that holds the sign.
pub const SIGN_BIT: u64 = 0x8000_0000_0000_0000;

/// Whether the sign bit of a binary64 pattern is set.
pub open spec fn sign_of(bits: u64) -> bool {
    bits >= SIGN_BIT
}

/// Exponent and mantissa bits of a binary64 pattern, read as one integer:
/// it grows with the absolute value of the float.
pub open spec fn magnitude_of(bits: u64) -> int {
    if bits >= SIGN_BIT {
        bits - SIGN_BIT
    } else {
        bits as int
    }
}

/// The value of a binary64 pattern scaled to a signed integer that orders as
/// the float does: magnitudes grow with the encoded absolute value, and both
/// zeros have the value 0.
pub open spec fn signed_magnitude(bits: u64) -> int {
    if sign_of(bits) {
        -magnitude_of(bits)
    } else {
        magnitude_of(bits)
    }
}

/// Maps the bit pattern of a binary64 value to a key whose integer order is
/// the order of the floats: for non-NaN patterns `a`, `b`,
/// `key(a) < key(b)` exactly when the float `a` is less than the float `b`,
/// and both zeros get the same key.
pub fn order_key(bits: u64) -> (r: u64)
    ensures
        r as int == SIGN_BIT as int + signed_magnitude(bits),
{
    if bits >= SIGN_BIT {
        let mag = bits - SIGN_BIT;
        SIGN_BIT - mag
    } else {
        SIGN_BIT + bits
    }
}

/// Key of both zeros.
pub const ZERO_KEY: u64 = SIGN_BIT;

/// Key of positive infinity; keys above it belong to positive NaNs, keys
/// below the key of negative infinity to negative NaNs.
pub const INFINITY_KEY: u64 = 0xFFF0_0000_0000_0000;

/// Whether a key belongs to a float greater than zero (a NaN is not).
pub open spec fn is_positive_key(k: u64) -> bool {
    ZERO_KEY < k <= INFINITY_KEY
}

/// For each element, given its order key, whether it is greater than zero:
/// the comparison `x > 0.0`, which no NaN passes.
pub fn positive_mask(keys: &Vec<u64>) -> (r: Vec<bool>)
    ensures
        r@.len() == keys@.len(),
        forall|i: int| 0 <= i < r@.len() ==> #[trigger] r@[i] == is_positive_key(keys@[i]),
{
    let mut mask: Vec<bool> = Vec::new();
    let mut i: usize = 0;
    while i < keys.len()
        invariant
            i <= keys@.len(),
            mask@.len() == i,
            forall|j: int| 0 <= j < i ==> #[trigger] mask@[j] == is_positive_key(keys@[j]),
        decreases keys@.len() - i,
    {
        mask.push(ZERO_KEY < keys[i] && keys[i] <= INFINITY_KEY);
        i = i + 1;
    }
    mask
}

} // verus!
