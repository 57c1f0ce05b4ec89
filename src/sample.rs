use vstd::prelude::*;

verus! {

/// A production function of the kind that analysis mutates: its `-` is a
/// mutation site, and a test that checks its result catches each mutant.
pub fn sub(x: i8, y: i8) -> (r: i8)
    requires
        i8::MIN <= x - y <= i8::MAX,
    ensures
        r == x - y,
{
    x - y
}

} // verus!
