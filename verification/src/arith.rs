//! Arithmetic that stops at the end of the range.
use vstd::prelude::*;

verus! {

/// The product, or the largest number where the product is larger.
pub open spec fn capped_product(a: u64, b: u64) -> u64 {
    if a * b > u64::MAX {
        u64::MAX
    } else {
        (a * b) as u64
    }
}

/// The product, or the largest number where the product is larger.
pub fn mul_capped(a: u64, b: u64) -> (p: u64)
    ensures
        p == capped_product(a, b),
{
    match a.checked_mul(b) {
        Some(p) => p,
        None => u64::MAX,
    }
}

/// The sum, or the largest number where the sum is larger.
pub open spec fn capped_sum(a: u64, b: u64) -> u64 {
    if a + b > u64::MAX {
        u64::MAX
    } else {
        (a + b) as u64
    }
}

/// The difference, or zero where the second is larger.
pub open spec fn floored_difference(a: u64, b: u64) -> u64 {
    if a < b {
        0
    } else {
        (a - b) as u64
    }
}

} // verus!
