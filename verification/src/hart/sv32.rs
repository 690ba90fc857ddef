//! Sv32 page-table entries and virtual page numbers: the 32-bit PTE layout
//! with its flag bits and 22-bit physical page number, and the split of a
//! virtual address into its two table indices and page offset.

use vstd::prelude::*;

verus! {

/// The valid flag.
pub const PTE_V: u32 = 0x01;

/// The readable flag.
pub const PTE_R: u32 = 0x02;

/// The writable flag.
pub const PTE_W: u32 = 0x04;

/// The executable flag.
pub const PTE_X: u32 = 0x08;

/// The user-accessible flag.
pub const PTE_U: u32 = 0x10;

/// The accessed flag.
pub const PTE_A: u32 = 0x40;

/// The dirty flag.
pub const PTE_D: u32 = 0x80;

/// Whether the entry is valid.
pub open spec fn pte_valid(w: u32) -> bool {
    w & PTE_V == PTE_V
}

/// Whether the entry grants reads.
pub open spec fn pte_can_read(w: u32) -> bool {
    w & PTE_R == PTE_R
}

/// Whether the entry grants writes.
pub open spec fn pte_can_write(w: u32) -> bool {
    w & PTE_W == PTE_W
}

/// Whether the entry grants instruction fetches.
pub open spec fn pte_can_execute(w: u32) -> bool {
    w & PTE_X == PTE_X
}

/// Whether the entry is accessible from User mode.
pub open spec fn pte_can_user(w: u32) -> bool {
    w & PTE_U == PTE_U
}

/// Whether the accessed flag is set.
pub open spec fn pte_accessed(w: u32) -> bool {
    w & PTE_A == PTE_A
}

/// Whether the dirty flag is set.
pub open spec fn pte_dirty(w: u32) -> bool {
    w & PTE_D == PTE_D
}

/// Whether the entry is a leaf: any of read/write/execute granted.
pub open spec fn pte_is_leaf(w: u32) -> bool {
    w & (PTE_R | PTE_W | PTE_X) != 0
}

/// The reserved flag combination the architecture forbids: write granted
/// without read. Such an entry must fault whatever the access type.
pub open spec fn pte_reserved_wr(w: u32) -> bool {
    !pte_can_read(w) && pte_can_write(w)
}

/// The 22-bit physical page number.
pub open spec fn pte_ppn(w: u32) -> u32 {
    w >> 10
}

/// One Sv32 page-table entry.
#[derive(Debug, Clone, Copy, PartialEq, Eq, Structural)]
pub struct Sv32Pte {
    pub bits: u32,
}

impl Sv32Pte {
    /// Wrap a raw entry word.
    pub fn from_bits(bits: u32) -> (r: Self)
        ensures
            r.bits == bits,
    {
        Sv32Pte { bits }
    }

    /// Whether the entry is valid.
    pub fn is_valid(&self) -> (r: bool)
        ensures
            r == pte_valid(self.bits),
    {
        self.bits & PTE_V == PTE_V
    }

    /// Whether the entry grants reads.
    pub fn can_read(&self) -> (r: bool)
        ensures
            r == pte_can_read(self.bits),
    {
        self.bits & PTE_R == PTE_R
    }

    /// Whether the entry grants writes.
    pub fn can_write(&self) -> (r: bool)
        ensures
            r == pte_can_write(self.bits),
    {
        self.bits & PTE_W == PTE_W
    }

    /// Whether the entry grants instruction fetches.
    pub fn can_execute(&self) -> (r: bool)
        ensures
            r == pte_can_execute(self.bits),
    {
        self.bits & PTE_X == PTE_X
    }

    /// Whether the entry is accessible from User mode.
    pub fn can_user(&self) -> (r: bool)
        ensures
            r == pte_can_user(self.bits),
    {
        self.bits & PTE_U == PTE_U
    }

    /// Whether the entry is a leaf.
    pub fn is_leaf(&self) -> (r: bool)
        ensures
            r == pte_is_leaf(self.bits),
    {
        self.bits & (PTE_R | PTE_W | PTE_X) != 0
    }

    /// The entry's physical page number.
    pub fn ppn(&self) -> (r: u32)
        ensures
            r == pte_ppn(self.bits),
    {
        self.bits >> 10u32
    }
}

/// The virtual page number split of a virtual address.
#[derive(Debug, Clone, Copy, PartialEq, Eq, Structural)]
pub struct Sv32Vpn {
    pub addr: u32,
}

/// The level-1 table index: bits 31:22.
pub open spec fn vpn1_of(va: u32) -> u32 {
    va >> 22
}

/// The level-0 table index: bits 21:12.
pub open spec fn vpn0_of(va: u32) -> u32 {
    (va >> 12) & 0x3ff
}

/// The page offset: bits 11:0.
pub open spec fn offset_of(va: u32) -> u32 {
    va & 0xfff
}

impl Sv32Vpn {
    /// Split a virtual address.
    pub fn from_addr(addr: u32) -> (r: Self)
        ensures
            r.addr == addr,
    {
        Sv32Vpn { addr }
    }

    /// The level-1 table index.
    pub fn vpn_1(&self) -> (r: u32)
        ensures
            r == vpn1_of(self.addr),
            r < 1024,
    {
        proof {
            let a = self.addr;
            assert(a >> 22 < 1024) by (bit_vector);
        }
        self.addr >> 22u32
    }

    /// The level-0 table index.
    pub fn vpn_0(&self) -> (r: u32)
        ensures
            r == vpn0_of(self.addr),
            r < 1024,
    {
        proof {
            let a = self.addr;
            assert((a >> 12) & 0x3ff < 1024) by (bit_vector);
        }
        (self.addr >> 12u32) & 0x3ff
    }

    /// The page offset.
    pub fn offset(&self) -> (r: u32)
        ensures
            r == offset_of(self.addr),
            r < 4096,
    {
        proof {
            let a = self.addr;
            assert(a & 0xfff < 4096) by (bit_vector);
        }
        self.addr & 0xfff
    }
}

} // verus!
