use vstd::prelude::*;

verus! {

/// Sum of two sizes; the caller keeps the sum within `usize`.
pub fn add(left: usize, right: usize) -> (r: usize)
    requires
        left + right <= usize::MAX,
    ensures
        r == left + right,
{
    left + right
}

/// Whether `num` is divisible by two.
pub fn is_even(num: i32) -> (r: bool)
    ensures
        r == (num % 2 == 0),
{
    num % 2 == 0
}

/// Adds one to the given number.
pub fn add_one(x: u64) -> (r: u64)
    requires
        x < u64::MAX,
    ensures
        r == x + 1,
{
    x + 1
}

/// Adds two to the given number.
pub fn add_two(x: u64) -> (r: u64)
    requires
        x <= u64::MAX - 2,
    ensures
        r == x + 2,
{
    x + 2
}

/// A marker type with no contents.
#[derive(Debug)]
pub struct Dummy {}

} // verus!
