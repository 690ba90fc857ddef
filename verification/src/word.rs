//! 32-bit machine-word arithmetic: the two's-complement reading of a word
//! and wrapping of unbounded results, shared by the contracts of the whole
//! core.

use vstd::prelude::*;

verus! {

/// The unsigned 32-bit word equal to `x` modulo 2^32.
pub open spec fn wrap32(x: int) -> u32 {
    (x % 0x1_0000_0000) as u32
}

/// The signed value a 32-bit word denotes in two's complement.
pub open spec fn as_signed(x: u32) -> int {
    if x >= 0x8000_0000 {
        x - 0x1_0000_0000
    } else {
        x as int
    }
}

/// Casting a word to `i32` yields exactly its two's-complement reading.
pub proof fn lemma_u32_to_i32(x: u32)
    ensures
        (x as i32) as int == as_signed(x),
{
    assert(x < 0x8000_0000u32 ==> (x as i32) as int == x as int) by (bit_vector);
    assert(x >= 0x8000_0000u32 ==> (x as i32) as int == x as int - 0x1_0000_0000)
        by (bit_vector);
}

/// Casting a signed value to `u32` wraps it modulo 2^32.
pub proof fn lemma_i32_to_u32(y: i32)
    ensures
        (y as u32) as int == wrap32(y as int) as int,
{
    assert(y >= 0 ==> (y as u32) as int == y as int) by (bit_vector);
    assert(y < 0 ==> (y as u32) as int == y as int + 0x1_0000_0000) by (bit_vector);
}

} // verus!
