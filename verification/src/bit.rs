use vstd::prelude::*;

verus! {

/// Whether bit `bit` of the word `x` is set.
pub open spec fn bit_is_set(x: u64, bit: u32) -> bool {
    x & (1u64 << (bit as u64)) != 0
}

/// Tests bit `bit` of `x`.
pub fn test(x: u64, bit: u32) -> (r: bool)
    requires
        bit < 64,
    ensures
        r == bit_is_set(x, bit),
{
    x & (1u64 << (bit as u64)) != 0
}

} // verus!
