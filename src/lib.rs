pub mod cancel;
pub mod code;
pub mod offer;
pub mod progress;
pub mod receive;
pub mod send;
pub mod staging;

use vstd::prelude::*;

verus! {

/// The sum of two integers, which must fit in an `i32`.
pub fn add(a: i32, b: i32) -> (r: i32)
    requires
        i32::MIN <= a + b <= i32::MAX,
    ensures
        r == a + b,
{
    a + b
}

} // verus!
