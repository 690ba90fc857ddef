//! The program counter: sequential step, relative branch/jump addressing,
//! and absolute redirection for traps and indirect jumps.

use vstd::prelude::*;
use crate::word::wrap32;

verus! {

/// The fetch address of the next instruction.
#[derive(Debug, Clone, Copy, PartialEq, Eq, Structural, Default)]
pub struct PC {
    pointer: u32,
}

impl View for PC {
    type V = u32;

    closed spec fn view(&self) -> u32 {
        self.pointer
    }
}

impl PC {
    /// A program counter starting at the given address.
    pub fn new(start: u32) -> (r: Self)
        ensures
            r@ == start,
    {
        PC { pointer: start }
    }

    /// Advance past one 32-bit instruction: the address grows by four,
    /// modulo the address-space size.
    pub fn step(&mut self)
        ensures
            final(self)@ == wrap32(old(self)@ + 4),
    {
        self.pointer = self.pointer.wrapping_add(4);
    }

    /// The current fetch address.
    pub fn get(&self) -> (r: u32)
        ensures
            r == self@,
    {
        self.pointer
    }

    /// Reset to the given address.
    pub fn reset(&mut self, pointer: u32)
        ensures
            final(self)@ == pointer,
    {
        self.pointer = pointer;
    }

    /// Relative addressing for branches and jumps: move by an offset counted
    /// in halfwords — the implicit low bit of a branch/jump immediate is
    /// multiplied back in here.
    pub fn related_addressing(&mut self, offset: i32)
        ensures
            final(self)@ == wrap32(old(self)@ + 2 * offset),
    {
        proof {
            lemma_double_offset(self.pointer, offset);
        }
        self.pointer = self.pointer.wrapping_add_signed(offset << 1u32);
    }

    /// Absolute addressing for traps, trap returns and indirect jumps.
    pub fn directed_addressing(&mut self, address: u32)
        ensures
            final(self)@ == address,
    {
        self.pointer = address;
    }
}

/// Adding a left-shifted offset is, modulo the address-space size, adding
/// the doubled offset.
proof fn lemma_double_offset(p: u32, offset: i32)
    ensures
        wrap32(p + (offset << 1u32)) == wrap32(p + 2 * offset),
{
    assert((offset << 1u32) as int == 2 * offset
        || (offset << 1u32) as int == 2 * offset - 0x1_0000_0000
        || (offset << 1u32) as int == 2 * offset + 0x1_0000_0000) by (bit_vector);
    let s = offset << 1u32;
    if s as int == 2 * offset - 0x1_0000_0000 {
        vstd::arithmetic::div_mod::lemma_mod_multiples_vanish(
            1, p + s, 0x1_0000_0000);
    } else if s as int == 2 * offset + 0x1_0000_0000 {
        vstd::arithmetic::div_mod::lemma_mod_multiples_vanish(
            -1, p + s, 0x1_0000_0000);
    }
}

} // verus!
