//! The Sv32 translator: walks the two-level page table held in bus memory,
//! enforces validity and permission rules, performs the mandated
//! accessed/dirty writeback, and composes the physical address. Faults
//! report the virtual address, never the physical one.

use vstd::prelude::*;
use crate::exception::Exception;
use crate::device::bus::{
    SystemBus, BusView, bytes_mapped, spec_load_value, spec_store_bytes, spec_bus_read,
    le_bytes_at,
};
use crate::hart::access::{Access, VirtAccess, AccessType, access_fault_of, page_fault_of};
use crate::hart::privilege::PrivilegeMode;
use crate::hart::sv32::{
    Sv32Pte, Sv32Vpn, PTE_A, PTE_D, pte_valid, pte_can_read, pte_can_write, pte_can_execute,
    pte_can_user, pte_is_leaf, pte_reserved_wr, pte_ppn, vpn1_of, vpn0_of, offset_of,
};

verus! {

/// The 32-bit little-endian word at a physical address, when all four of its
/// bytes are inside mapped windows.
pub open spec fn bus_word(v: BusView, addr: u32) -> Option<u32> {
    if bytes_mapped(v, addr as int, 4) {
        Some(spec_load_value(v, addr as int, 4, false))
    } else {
        None
    }
}

/// The physical address of the entry at `idx` in the page table at physical
/// page `ppn` (the high bits of an out-of-space table wrap with the 32-bit
/// physical address).
pub open spec fn pte_addr_of(ppn: u32, idx: u32) -> u32 {
    (((ppn << 12u32) as int) + idx * 4) as u32
}

/// Whether the leaf grants the access: the intent must be permitted by the
/// read/write/execute flags, and the mode must agree with user
/// accessibility — User needs the U flag, Supervisor must not see it.
pub open spec fn perm_ok(w: u32, kind: AccessType, mode: PrivilegeMode) -> bool {
    (match kind {
        AccessType::Load => pte_can_read(w),
        AccessType::Store => pte_can_write(w),
        AccessType::Fetch => pte_can_execute(w),
    }) && (match mode {
        PrivilegeMode::User => pte_can_user(w),
        PrivilegeMode::Supervisor => !pte_can_user(w),
        PrivilegeMode::Machine => true,
    })
}

/// The leaf entry with the accessed flag set, and the dirty flag too for a
/// store.
pub open spec fn marked_pte(w: u32, kind: AccessType) -> u32 {
    if kind == AccessType::Store {
        w | (PTE_A | PTE_D)
    } else {
        w | PTE_A
    }
}

/// The last stage of a successful walk, given the resolved leaf: the
/// permission check, the accessed/dirty writeback (one combined write, only
/// when a flag is actually clear), and the physical address composed from
/// the leaf's page number and the original low address bits.
pub open spec fn spec_finish(
    v: BusView, va: u32, kind: AccessType, mode: PrivilegeMode,
    w: u32, pte_addr: u32, superpage: bool,
) -> (Result<u32, Exception>, BusView) {
    if !perm_ok(w, kind, mode) {
        (Err(page_fault_of(kind, va)), v)
    } else {
        let w2 = marked_pte(w, kind);
        let v2 = if w2 == w { v } else { spec_store_bytes(v, pte_addr as int, w2, 4) };
        let pa = if superpage {
            ((w >> 20u32) << 22u32) | (vpn0_of(va) << 12u32) | offset_of(va)
        } else {
            ((w >> 10u32) << 12u32) | offset_of(va)
        };
        (Ok(pa), v2)
    }
}

/// Everything `translate` does: the translation result and the bus state
/// afterwards. Machine mode and disabled paging bypass translation and
/// leave the bus untouched; otherwise the two-level walk runs against the
/// bus contents.
pub open spec fn spec_translate(
    v: BusView, mode: PrivilegeMode, ppn_opt: Option<u32>, va: u32, kind: AccessType,
) -> (Result<u32, Exception>, BusView) {
    if mode == PrivilegeMode::Machine || ppn_opt is None {
        (Ok(va), v)
    } else {
        let root = ppn_opt->0;
        let a1 = pte_addr_of(root, vpn1_of(va));
        match bus_word(v, a1) {
            None => (Err(access_fault_of(AccessType::Load, a1)), v),
            Some(w1) => {
                if !pte_valid(w1) || pte_reserved_wr(w1) {
                    (Err(page_fault_of(kind, va)), v)
                } else if pte_is_leaf(w1) {
                    if pte_ppn(w1) & 0x3ff != 0 {
                        (Err(page_fault_of(kind, va)), v)
                    } else {
                        spec_finish(v, va, kind, mode, w1, a1, true)
                    }
                } else {
                    let a0 = pte_addr_of(pte_ppn(w1), vpn0_of(va));
                    match bus_word(v, a0) {
                        None => (Err(access_fault_of(AccessType::Load, a0)), v),
                        Some(w0) => {
                            if !pte_valid(w0) || pte_reserved_wr(w0) || !pte_is_leaf(w0) {
                                (Err(page_fault_of(kind, va)), v)
                            } else {
                                spec_finish(v, va, kind, mode, w0, a0, false)
                            }
                        },
                    }
                }
            },
        }
    }
}

/// Machine-mode bypass: whatever `satp` holds — paging enabled or not —
/// translation in Machine mode returns the input address unchanged, never
/// faults, and leaves the bus untouched.
pub proof fn lemma_machine_bypass(v: BusView, ppn_opt: Option<u32>, va: u32, kind: AccessType)
    ensures
        spec_translate(v, PrivilegeMode::Machine, ppn_opt, va, kind)
            == (Ok::<u32, Exception>(va), v),
{
}

/// The reserved flag combination at the first level: a level-1 entry with
/// write granted but read refused is a page fault on the virtual address,
/// whatever the access type, with no writeback.
pub proof fn lemma_reserved_level1_faults(
    v: BusView, mode: PrivilegeMode, root: u32, va: u32, kind: AccessType,
)
    requires
        mode != PrivilegeMode::Machine,
        ({
            let w1 = bus_word(v, pte_addr_of(root, vpn1_of(va)));
            w1 is Some && pte_reserved_wr(w1->0)
        }),
    ensures
        spec_translate(v, mode, Some(root), va, kind)
            == (Err::<u32, Exception>(page_fault_of(kind, va)), v),
{
}

/// The reserved flag combination at the second level: a level-0 entry with
/// write granted but read refused is a page fault on the virtual address,
/// whatever the access type, with no writeback.
pub proof fn lemma_reserved_level0_faults(
    v: BusView, mode: PrivilegeMode, root: u32, va: u32, kind: AccessType,
)
    requires
        mode != PrivilegeMode::Machine,
        ({
            let w1 = bus_word(v, pte_addr_of(root, vpn1_of(va)));
            w1 is Some && pte_valid(w1->0) && !pte_reserved_wr(w1->0) && !pte_is_leaf(w1->0)
                && ({
                    let w0 = bus_word(v, pte_addr_of(pte_ppn(w1->0), vpn0_of(va)));
                    w0 is Some && pte_reserved_wr(w0->0)
                })
        }),
    ensures
        spec_translate(v, mode, Some(root), va, kind)
            == (Err::<u32, Exception>(page_fault_of(kind, va)), v),
{
}

/// Marking a leaf sets the accessed flag, and the dirty flag for a store,
/// whatever the entry held before.
pub proof fn lemma_marked_sets_flags(w: u32, kind: AccessType)
    ensures
        crate::hart::sv32::pte_accessed(marked_pte(w, kind)),
        kind == AccessType::Store ==> crate::hart::sv32::pte_dirty(marked_pte(w, kind)),
{
    assert((w | (0x40u32 | 0x80u32)) & 0x40 == 0x40) by (bit_vector);
    assert((w | (0x40u32 | 0x80u32)) & 0x80 == 0x80) by (bit_vector);
    assert((w | 0x40u32) & 0x40 == 0x40) by (bit_vector);
}

/// Whether a whole aligned word sits inside the RAM window.
pub open spec fn word_in_ram(v: BusView, a: u32) -> bool {
    crate::device::bus::DRAM_BASE_ADDR <= a
        && a + 4 <= crate::device::bus::DRAM_BASE_ADDR + v.ram.len()
}

/// Storing a word into the RAM window reads back exactly, and every word
/// whose bytes lie outside the stored range is untouched.
proof fn lemma_store_word_effect(v: BusView, a: u32, w: u32)
    requires
        word_in_ram(v, a),
    ensures
        bus_word(spec_store_bytes(v, a as int, w, 4), a) == Some(w),
        forall|b: u32| b + 4 <= a || a + 4 <= b
            ==> #[trigger] bus_word(spec_store_bytes(v, a as int, w, 4), b) == bus_word(v, b),
        spec_store_bytes(v, a as int, w, 4).ram.len() == v.ram.len(),
{
    let s = spec_store_bytes(v, a as int, w, 4);
    crate::device::bus::lemma_store_keeps_windows(v, a as int, w, 4);
    assert(forall|i: int| 0 <= i < 4
        ==> #[trigger] crate::device::bus::in_ram_window(a + i, v.ram.len() as int));
    crate::device::bus::lemma_store_bytes_effect(v, a as int, w, 4);
    crate::device::bus::lemma_word_from_bytes(w);
    assert(bytes_mapped(s, a as int, 4)) by {
        assert(forall|i: int| 0 <= i < 4
            ==> #[trigger] spec_bus_read(s, a + i) == Some(crate::device::bus::byte_of(
                w, i as nat)));
    }
    assert(le_bytes_at(s, a as int, 4) == w as int) by {
        reveal_with_fuel(crate::device::bus::le_bytes_at, 5);
        reveal_with_fuel(crate::device::bus::pow256, 5);
    }
    assert(spec_load_value(s, a as int, 4, false) == w) by {
        reveal_with_fuel(crate::device::bus::pow256, 5);
    }
    assert forall|b: u32| b + 4 <= a || a + 4 <= b implies
        #[trigger] bus_word(s, b) == bus_word(v, b) by {
        assert(forall|i: int| 0 <= i < 4
            ==> #[trigger] spec_bus_read(s, b + i) == spec_bus_read(v, b + i));
        crate::device::bus::lemma_le_bytes_congruence(s, v, b as int, 4);
        if bytes_mapped(v, b as int, 4) {
            assert forall|i: int| 0 <= i < 4 implies
                (#[trigger] spec_bus_read(s, b + i)) is Some by {
                assert(spec_bus_read(v, b + i) is Some);
            }
        }
        if bytes_mapped(s, b as int, 4) {
            assert forall|i: int| 0 <= i < 4 implies
                (#[trigger] spec_bus_read(v, b + i)) is Some by {
                assert(spec_bus_read(s, b + i) is Some);
            }
        }
    }
}

/// Setting the accessed and dirty flags changes no other bit the walk
/// reads: validity, permissions, user access, leafness and the page number
/// all survive, and marking twice is marking once.
proof fn lemma_mark_preserves(w: u32)
    ensures
        pte_valid(w | 0xc0) == pte_valid(w),
        pte_can_read(w | 0xc0) == pte_can_read(w),
        pte_can_write(w | 0xc0) == pte_can_write(w),
        pte_can_execute(w | 0xc0) == pte_can_execute(w),
        pte_can_user(w | 0xc0) == pte_can_user(w),
        pte_is_leaf(w | 0xc0) == pte_is_leaf(w),
        pte_ppn(w | 0xc0) == pte_ppn(w),
        (w | 0xc0) >> 20u32 == w >> 20u32,
        ((w | 0xc0) | 0xc0) == (w | 0xc0),
{
    assert((2u32 | 4u32 | 8u32) == 0xeu32) by (bit_vector);
    assert((0x40u32 | 0x80u32) == 0xc0u32) by (bit_vector);
    assert(((w | 0xc0u32) & 1 == w & 1)
        && ((w | 0xc0u32) & 2 == w & 2)
        && ((w | 0xc0u32) & 4 == w & 4)
        && ((w | 0xc0u32) & 8 == w & 8)
        && ((w | 0xc0u32) & 0x10 == w & 0x10)
        && ((w | 0xc0u32) & 0xe == w & 0xe)
        && ((w | 0xc0u32) >> 10 == w >> 10)
        && ((w | 0xc0u32) >> 20 == w >> 20)
        && (((w | 0xc0u32) | 0xc0) == (w | 0xc0u32))) by (bit_vector);
}

/// A page-table entry address is word-aligned, and its integer value is the
/// table base plus four times the index.
proof fn lemma_pte_addr_aligned(ppn: u32, idx: u32)
    requires
        idx < 1024,
    ensures
        pte_addr_of(ppn, idx) % 4 == 0,
        pte_addr_of(ppn, idx) as int == (ppn << 12u32) + idx * 4,
{
    assert(((ppn << 12u32) <= 0xffff_f000u32) && ((ppn << 12u32) % 4 == 0)) by (bit_vector);
}

/// Accessed/dirty idempotence: once a store access has been translated, a
/// second translation of the same store against the state the first one
/// left resolves the same physical address and performs no further
/// writeback — the bus does not change again. The walk's page-table entries
/// are assumed to live in the RAM window, where a writeback reads back
/// exactly.
pub proof fn lemma_store_translate_idempotent(
    v: BusView, mode: PrivilegeMode, ppn_opt: Option<u32>, va: u32,
)
    requires
        ({
            let (r1, v1) = spec_translate(v, mode, ppn_opt, va, AccessType::Store);
            r1 is Ok
        }),
        mode != PrivilegeMode::Machine && ppn_opt is Some ==> ({
            let a1 = pte_addr_of(ppn_opt->0, vpn1_of(va));
            &&& word_in_ram(v, a1)
            &&& (match bus_word(v, a1) {
                Some(w1) => pte_valid(w1) && !pte_is_leaf(w1)
                    ==> word_in_ram(v, pte_addr_of(pte_ppn(w1), vpn0_of(va))),
                None => true,
            })
        }),
    ensures
        ({
            let (r1, v1) = spec_translate(v, mode, ppn_opt, va, AccessType::Store);
            spec_translate(v1, mode, ppn_opt, va, AccessType::Store) == (r1, v1)
        }),
{
    let (r1, v1) = spec_translate(v, mode, ppn_opt, va, AccessType::Store);
    assert((0x40u32 | 0x80u32) == 0xc0u32) by (bit_vector);
    if mode == PrivilegeMode::Machine || ppn_opt is None {
    } else {
        let root = ppn_opt->0;
        let a1 = pte_addr_of(root, vpn1_of(va));
        let w1 = bus_word(v, a1)->0;
        assert(va >> 22 < 1024 && (va >> 12) & 0x3ff < 1024) by (bit_vector);
        lemma_pte_addr_aligned(root, vpn1_of(va));
        lemma_mark_preserves(w1);
        if pte_is_leaf(w1) {
            let m = marked_pte(w1, AccessType::Store);
            if m == w1 {
            } else {
                lemma_store_word_effect(v, a1, m);
                assert(bus_word(v1, a1) == Some(m));
            }
        } else {
            let a0 = pte_addr_of(pte_ppn(w1), vpn0_of(va));
            let w0 = bus_word(v, a0)->0;
            lemma_pte_addr_aligned(pte_ppn(w1), vpn0_of(va));
            lemma_mark_preserves(w0);
            let m = marked_pte(w0, AccessType::Store);
            if m == w0 {
            } else {
                // the two entry addresses cannot coincide: the same word
                // cannot be both a pointer and a leaf
                assert(a1 != a0);
                // distinct word-aligned addresses cover disjoint bytes
                assert(a1 + 4 <= a0 || a0 + 4 <= a1);
                lemma_store_word_effect(v, a0, m);
                assert(bus_word(v1, a1) == Some(w1));
                assert(bus_word(v1, a0) == Some(m));
            }
        }
    }
}

/// The Sv32 translator.
#[derive(Debug, Clone, Copy, PartialEq, Eq, Structural, Default)]
pub struct Mmu;

impl Mmu {
    /// Translate a virtual access into a physical one. In Machine mode, or
    /// when `ppn_opt` carries no root (paging disabled), the address passes
    /// through unchanged whatever `satp` holds. Otherwise the two-level
    /// walk of `spec_translate` runs: it may fault (reporting the virtual
    /// address for page faults) and may write the accessed/dirty flags back
    /// into the leaf entry.
    pub fn translate(
        access: VirtAccess, mode: PrivilegeMode, ppn_opt: Option<u32>, bus: &mut SystemBus,
    ) -> (r: Result<Access, Exception>)
        requires
            old(bus).wf(),
        ensures
            final(bus).wf(),
            final(bus).spec_ram_size() == old(bus).spec_ram_size(),
            ({
                let (res, v2) = spec_translate(
                    old(bus)@, mode, ppn_opt, access.addr, access.kind);
                final(bus)@ =~= v2 && (match res {
                    Ok(pa) => r == Ok::<Access, Exception>(
                        Access { addr: pa, kind: access.kind }),
                    Err(e) => r == Err::<Access, Exception>(e),
                })
            }),
    {
        let va = access.addr;
        match mode {
            PrivilegeMode::Machine => Ok(access.bypass()),
            PrivilegeMode::Supervisor | PrivilegeMode::User => {
                if let Some(root) = ppn_opt {
                    let vpn = Sv32Vpn::from_addr(va);
                    let (pte1, pte1_addr, leaf1) = Self::pte_walk(vpn.vpn_1(), root, &access, bus)?;
                    if leaf1 {
                        if pte1.ppn() & 0x3ff != 0 {
                            return Err(access.to_page_exception());
                        }
                        Self::finish(access, mode, pte1, pte1_addr, true, bus)
                    } else {
                        let (pte0, pte0_addr, leaf0) = Self::pte_walk(
                            vpn.vpn_0(), pte1.ppn(), &access, bus)?;
                        if !leaf0 {
                            return Err(access.to_page_exception());
                        }
                        Self::finish(access, mode, pte0, pte0_addr, false, bus)
                    }
                } else {
                    Ok(access.bypass())
                }
            },
        }
    }

    /// Read and screen one page-table entry: a bus fault propagates as a
    /// load access fault on the entry's address; an invalid entry or the
    /// reserved write-without-read combination is a page fault on the
    /// original virtual address, whatever the access type.
    fn pte_walk(vpn: u32, ppn: u32, access: &VirtAccess, bus: &mut SystemBus)
        -> (r: Result<(Sv32Pte, u32, bool), Exception>)
        requires
            old(bus).wf(),
            vpn < 1024,
        ensures
            final(bus).wf(),
            *final(bus) == *old(bus),
            final(bus)@ =~= old(bus)@,
            ({
                let a = pte_addr_of(ppn, vpn);
                match bus_word(old(bus)@, a) {
                    None => r == Err::<(Sv32Pte, u32, bool), Exception>(
                        access_fault_of(AccessType::Load, a)),
                    Some(w) => {
                        if !pte_valid(w) || pte_reserved_wr(w) {
                            r == Err::<(Sv32Pte, u32, bool), Exception>(
                                page_fault_of(access.kind, access.addr))
                        } else {
                            r == Ok::<(Sv32Pte, u32, bool), Exception>(
                                ((Sv32Pte { bits: w }), a, pte_is_leaf(w)))
                        }
                    },
                }
            }),
    {
        proof {
            assert((ppn << 12u32) <= 0xffff_f000u32) by (bit_vector);
        }
        let pte_addr = (ppn << 12u32) + vpn * 4;
        let pte_access = Access::new(pte_addr, AccessType::Load);
        let w = match bus.read_u32(pte_access) {
            Ok(w) => w,
            Err(e) => {
                return Err(e);
            },
        };
        let pte = Sv32Pte::from_bits(w);
        if !pte.is_valid() || (!pte.can_read() && pte.can_write()) {
            Err(access.to_page_exception())
        } else if pte.is_leaf() {
            Ok((pte, pte_addr, true))
        } else {
            Ok((pte, pte_addr, false))
        }
    }

    /// Check the leaf's permissions against the access and mode; any
    /// mismatch is a page fault on the virtual address.
    fn access_check(pte: &Sv32Pte, access: &VirtAccess, mode: PrivilegeMode)
        -> (r: Result<(), Exception>)
        ensures
            perm_ok(pte.bits, access.kind, mode)
                ==> r == Ok::<(), Exception>(()),
            !perm_ok(pte.bits, access.kind, mode)
                ==> r == Err::<(), Exception>(page_fault_of(access.kind, access.addr)),
    {
        let can_access = match access.kind {
            AccessType::Load => pte.can_read(),
            AccessType::Store => pte.can_write(),
            AccessType::Fetch => pte.can_execute(),
        };
        let can_mode = match mode {
            PrivilegeMode::User => pte.can_user(),
            PrivilegeMode::Supervisor => !pte.can_user(),
            PrivilegeMode::Machine => true,
        };
        if can_access && can_mode {
            Ok(())
        } else {
            Err(access.to_page_exception())
        }
    }

    /// The leaf stage: permission check, combined accessed/dirty writeback
    /// when a flag is clear, and physical address composition.
    fn finish(
        access: VirtAccess, mode: PrivilegeMode, pte: Sv32Pte, pte_addr: u32,
        superpage: bool, bus: &mut SystemBus,
    ) -> (r: Result<Access, Exception>)
        requires
            old(bus).wf(),
            mode != PrivilegeMode::Machine,
            bus_word(old(bus)@, pte_addr) == Some(pte.bits),
        ensures
            final(bus).wf(),
            final(bus).spec_ram_size() == old(bus).spec_ram_size(),
            ({
                let (res, v2) = spec_finish(
                    old(bus)@, access.addr, access.kind, mode, pte.bits, pte_addr, superpage);
                final(bus)@ =~= v2 && (match res {
                    Ok(pa) => r == Ok::<Access, Exception>(
                        Access { addr: pa, kind: access.kind }),
                    Err(e) => r == Err::<Access, Exception>(e),
                })
            }),
    {
        if let Err(e) = Self::access_check(&pte, &access, mode) {
            return Err(e);
        }
        let marked: u32 = if matches!(access.kind, AccessType::Store) {
            pte.bits | (PTE_A | PTE_D)
        } else {
            pte.bits | PTE_A
        };
        if marked != pte.bits {
            let wb_access = Access::new(pte_addr, access.kind);
            match bus.write_u32(wb_access, marked) {
                Ok(_) => {},
                Err(e) => {
                    proof {
                        assert(false);
                    }
                    return Err(e);
                },
            }
        }
        let vpn = Sv32Vpn::from_addr(access.addr);
        let pa = if superpage {
            ((pte.bits >> 20u32) << 22u32) | (vpn.vpn_0() << 12u32) | vpn.offset()
        } else {
            ((pte.bits >> 10u32) << 12u32) | vpn.offset()
        };
        Ok(access.into_physical(pa))
    }
}

} // verus!
