//! The CSR file and the privilege/trap state machine: sparse control/status
//! storage with per-address access rules, trap entry with delegation, and
//! trap return.

use vstd::prelude::*;
use crate::exception::Exception;
use crate::hart::privilege::{PrivilegeMode, spec_mode_bits};
use crate::isa::csr_addr::{CsrAddr, spec_csr_at};
use crate::isa::privileged::PrivilegeOp;
use crate::isa::zicsr::ZicsrOp;

verus! {

/// The implemented control/status registers. Each lives at its architectural
/// address; access outside the implemented set, or above the current
/// privilege, raises illegal-instruction at the caller.
#[derive(Debug, Clone, Copy, PartialEq, Eq, Structural, Default)]
pub struct CsrFile {
    pub ustatus: u32,
    pub sstatus: u32,
    pub stvec: u32,
    pub sepc: u32,
    pub scause: u32,
    pub satp: u32,
    pub mstatus: u32,
    pub medeleg: u32,
    pub mideleg: u32,
    pub mie: u32,
    pub mtvec: u32,
    pub mepc: u32,
    pub mcause: u32,
    pub pmpcfg0: u32,
    pub pmpaddr0: u32,
    pub mnscratch: u32,
    pub mhartid: u32,
}

/// The value stored for a register.
pub open spec fn spec_csr(c: CsrFile, a: CsrAddr) -> u32 {
    match a {
        CsrAddr::Ustatus => c.ustatus,
        CsrAddr::Sstatus => c.sstatus,
        CsrAddr::Stvec => c.stvec,
        CsrAddr::Sepc => c.sepc,
        CsrAddr::Scause => c.scause,
        CsrAddr::Satp => c.satp,
        CsrAddr::Mstatus => c.mstatus,
        CsrAddr::Medeleg => c.medeleg,
        CsrAddr::Mideleg => c.mideleg,
        CsrAddr::Mie => c.mie,
        CsrAddr::Mtvec => c.mtvec,
        CsrAddr::Mepc => c.mepc,
        CsrAddr::Mcause => c.mcause,
        CsrAddr::Pmpcfg0 => c.pmpcfg0,
        CsrAddr::Pmpaddr0 => c.pmpaddr0,
        CsrAddr::Mnscratch => c.mnscratch,
        CsrAddr::Mhartid => c.mhartid,
    }
}

/// The CSR file with one register replaced.
pub open spec fn spec_csr_set(c: CsrFile, a: CsrAddr, v: u32) -> CsrFile {
    match a {
        CsrAddr::Ustatus => CsrFile { ustatus: v, ..c },
        CsrAddr::Sstatus => CsrFile { sstatus: v, ..c },
        CsrAddr::Stvec => CsrFile { stvec: v, ..c },
        CsrAddr::Sepc => CsrFile { sepc: v, ..c },
        CsrAddr::Scause => CsrFile { scause: v, ..c },
        CsrAddr::Satp => CsrFile { satp: v, ..c },
        CsrAddr::Mstatus => CsrFile { mstatus: v, ..c },
        CsrAddr::Medeleg => CsrFile { medeleg: v, ..c },
        CsrAddr::Mideleg => CsrFile { mideleg: v, ..c },
        CsrAddr::Mie => CsrFile { mie: v, ..c },
        CsrAddr::Mtvec => CsrFile { mtvec: v, ..c },
        CsrAddr::Mepc => CsrFile { mepc: v, ..c },
        CsrAddr::Mcause => CsrFile { mcause: v, ..c },
        CsrAddr::Pmpcfg0 => CsrFile { pmpcfg0: v, ..c },
        CsrAddr::Pmpaddr0 => CsrFile { pmpaddr0: v, ..c },
        CsrAddr::Mnscratch => CsrFile { mnscratch: v, ..c },
        CsrAddr::Mhartid => CsrFile { mhartid: v, ..c },
    }
}

/// The privilege a twelve-bit CSR address demands, encoded in its bits 9:8.
pub open spec fn csr_min_priv(addr: u32) -> u32 {
    (addr >> 8) & 3
}

/// Whether a mode reaches a CSR: the mode's encoding is at least the
/// address's demanded privilege.
pub open spec fn csr_priv_ok(addr: u32, mode: PrivilegeMode) -> bool {
    spec_mode_bits(mode) >= csr_min_priv(addr)
}

/// Whether the address designates a read-only register (bits 11:10 both
/// set).
pub open spec fn csr_read_only(addr: u32) -> bool {
    (addr >> 10) & 3 == 3
}

/// Whether the satp value enables paging: its mode bit is set.
pub open spec fn spec_satp_root(satp: u32) -> Option<u32> {
    if satp & 0x8000_0000 == 0x8000_0000 {
        Some(satp & 0x003f_ffff)
    } else {
        None
    }
}

/// Whether the trap for this cause is delegated: taken below Machine mode
/// with the matching `medeleg` bit set.
pub open spec fn spec_delegated(c: CsrFile, exc: Exception, mode: PrivilegeMode) -> bool {
    mode != PrivilegeMode::Machine && (c.medeleg >> exc.cause_code()) & 1 == 1
}

/// Everything trap entry does: save the faulting PC and the cause at the
/// target level, record the interrupted mode in the target status register,
/// and hand back the target mode with the trap vector base.
pub open spec fn spec_trap_entry(c: CsrFile, pc: u32, exc: Exception, mode: PrivilegeMode)
    -> (CsrFile, PrivilegeMode, u32) {
    let cause = exc.cause_code();
    if spec_delegated(c, exc, mode) {
        let sstatus = (c.sstatus & 0xffff_feff)
            | (if mode == PrivilegeMode::Supervisor { 0x100u32 } else { 0u32 });
        (
            CsrFile { sepc: pc, scause: cause, sstatus, ..c },
            PrivilegeMode::Supervisor,
            c.stvec & 0xffff_fffc,
        )
    } else {
        let mstatus = (c.mstatus & 0xffff_e7ff) | (spec_mode_bits(mode) << 11u32);
        (
            CsrFile { mepc: pc, mcause: cause, mstatus, ..c },
            PrivilegeMode::Machine,
            c.mtvec & 0xffff_fffc,
        )
    }
}

/// Everything trap return does: restore the mode recorded in the status
/// register's saved-mode field and the PC saved at trap entry.
pub open spec fn spec_trap_return(c: CsrFile, op: PrivilegeOp) -> (PrivilegeMode, u32) {
    match op {
        PrivilegeOp::Mret => {
            let bits = (c.mstatus >> 11u32) & 3;
            let mode = if bits == 3 {
                PrivilegeMode::Machine
            } else if bits == 1 {
                PrivilegeMode::Supervisor
            } else {
                PrivilegeMode::User
            };
            (mode, c.mepc)
        },
        PrivilegeOp::Sret => {
            let mode = if (c.sstatus >> 8u32) & 1 == 1 {
                PrivilegeMode::Supervisor
            } else {
                PrivilegeMode::User
            };
            (mode, c.sepc)
        },
    }
}

/// Everything a CSR access instruction does to the CSR file: validate the
/// address and privilege, read the old value, and (for the writing forms,
/// or the set/clear forms with a non-zero source) store the new one. `None`
/// stands for the illegal-instruction failure: a nonexistent address, a
/// privilege violation, or a write to a read-only register.
pub open spec fn spec_zicsr(c: CsrFile, mode: PrivilegeMode, op: ZicsrOp, addr: u32, src: u32)
    -> Option<(CsrFile, u32)> {
    match spec_csr_at(addr) {
        None => None,
        Some(a) => {
            if !csr_priv_ok(addr, mode) {
                None
            } else {
                let oldv = spec_csr(c, a);
                let writes = match op {
                    ZicsrOp::Csrrw | ZicsrOp::Csrrwi => true,
                    ZicsrOp::Csrrs | ZicsrOp::Csrrsi => src != 0,
                    ZicsrOp::Csrrc | ZicsrOp::Csrrci => src != 0,
                };
                let newv = match op {
                    ZicsrOp::Csrrw | ZicsrOp::Csrrwi => src,
                    ZicsrOp::Csrrs | ZicsrOp::Csrrsi => oldv | src,
                    ZicsrOp::Csrrc | ZicsrOp::Csrrci => oldv & !src,
                };
                if writes {
                    if csr_read_only(addr) {
                        None
                    } else {
                        Some((spec_csr_set(c, a, newv), oldv))
                    }
                } else {
                    Some((c, oldv))
                }
            }
        },
    }
}

/// Every implemented register paired with its stored value, in a fixed
/// order: exactly what `inspect` returns.
pub open spec fn spec_csr_listing(c: CsrFile) -> Seq<(CsrAddr, u32)> {
    seq![
        (CsrAddr::Ustatus, c.ustatus),
        (CsrAddr::Sstatus, c.sstatus),
        (CsrAddr::Stvec, c.stvec),
        (CsrAddr::Sepc, c.sepc),
        (CsrAddr::Scause, c.scause),
        (CsrAddr::Satp, c.satp),
        (CsrAddr::Mstatus, c.mstatus),
        (CsrAddr::Medeleg, c.medeleg),
        (CsrAddr::Mideleg, c.mideleg),
        (CsrAddr::Mie, c.mie),
        (CsrAddr::Mtvec, c.mtvec),
        (CsrAddr::Mepc, c.mepc),
        (CsrAddr::Mcause, c.mcause),
        (CsrAddr::Pmpcfg0, c.pmpcfg0),
        (CsrAddr::Pmpaddr0, c.pmpaddr0),
        (CsrAddr::Mnscratch, c.mnscratch),
        (CsrAddr::Mhartid, c.mhartid),
    ]
}

impl CsrFile {
    /// A CSR file with every register zero.
    pub fn new() -> (r: Self)
        ensures
            r == (CsrFile {
                ustatus: 0, sstatus: 0, stvec: 0, sepc: 0, scause: 0, satp: 0,
                mstatus: 0, medeleg: 0, mideleg: 0, mie: 0, mtvec: 0, mepc: 0,
                mcause: 0, pmpcfg0: 0, pmpaddr0: 0, mnscratch: 0, mhartid: 0,
            }),
    {
        CsrFile {
            ustatus: 0, sstatus: 0, stvec: 0, sepc: 0, scause: 0, satp: 0,
            mstatus: 0, medeleg: 0, mideleg: 0, mie: 0, mtvec: 0, mepc: 0,
            mcause: 0, pmpcfg0: 0, pmpaddr0: 0, mnscratch: 0, mhartid: 0,
        }
    }

    /// Zero every register.
    pub fn reset(&mut self)
        ensures
            *final(self) == Self::spec_reset(),
    {
        *self = Self::new();
    }

    /// The reset state.
    pub open spec fn spec_reset() -> CsrFile {
        CsrFile {
            ustatus: 0, sstatus: 0, stvec: 0, sepc: 0, scause: 0, satp: 0,
            mstatus: 0, medeleg: 0, mideleg: 0, mie: 0, mtvec: 0, mepc: 0,
            mcause: 0, pmpcfg0: 0, pmpaddr0: 0, mnscratch: 0, mhartid: 0,
        }
    }

    /// The stored value of one register.
    pub fn get(&self, a: CsrAddr) -> (r: u32)
        ensures
            r == spec_csr(*self, a),
    {
        match a {
            CsrAddr::Ustatus => self.ustatus,
            CsrAddr::Sstatus => self.sstatus,
            CsrAddr::Stvec => self.stvec,
            CsrAddr::Sepc => self.sepc,
            CsrAddr::Scause => self.scause,
            CsrAddr::Satp => self.satp,
            CsrAddr::Mstatus => self.mstatus,
            CsrAddr::Medeleg => self.medeleg,
            CsrAddr::Mideleg => self.mideleg,
            CsrAddr::Mie => self.mie,
            CsrAddr::Mtvec => self.mtvec,
            CsrAddr::Mepc => self.mepc,
            CsrAddr::Mcause => self.mcause,
            CsrAddr::Pmpcfg0 => self.pmpcfg0,
            CsrAddr::Pmpaddr0 => self.pmpaddr0,
            CsrAddr::Mnscratch => self.mnscratch,
            CsrAddr::Mhartid => self.mhartid,
        }
    }

    /// Store a value into one register, leaving every other one alone.
    pub fn set(&mut self, a: CsrAddr, v: u32)
        ensures
            *final(self) == spec_csr_set(*old(self), a, v),
            spec_csr(*final(self), a) == v,
            forall|d: CsrAddr| d != a ==> spec_csr(*final(self), d) == spec_csr(*old(self), d),
    {
        match a {
            CsrAddr::Ustatus => { self.ustatus = v; },
            CsrAddr::Sstatus => { self.sstatus = v; },
            CsrAddr::Stvec => { self.stvec = v; },
            CsrAddr::Sepc => { self.sepc = v; },
            CsrAddr::Scause => { self.scause = v; },
            CsrAddr::Satp => { self.satp = v; },
            CsrAddr::Mstatus => { self.mstatus = v; },
            CsrAddr::Medeleg => { self.medeleg = v; },
            CsrAddr::Mideleg => { self.mideleg = v; },
            CsrAddr::Mie => { self.mie = v; },
            CsrAddr::Mtvec => { self.mtvec = v; },
            CsrAddr::Mepc => { self.mepc = v; },
            CsrAddr::Mcause => { self.mcause = v; },
            CsrAddr::Pmpcfg0 => { self.pmpcfg0 = v; },
            CsrAddr::Pmpaddr0 => { self.pmpaddr0 = v; },
            CsrAddr::Mnscratch => { self.mnscratch = v; },
            CsrAddr::Mhartid => { self.mhartid = v; },
        }
    }

    /// The paging root in `satp`, when its mode bit enables translation;
    /// `None` leaves the translator in bypass.
    pub fn check_satp(&self) -> (r: Option<u32>)
        ensures
            r == spec_satp_root(self.satp),
    {
        if self.satp & 0x8000_0000 == 0x8000_0000 {
            Some(self.satp & 0x003f_ffff)
        } else {
            None
        }
    }

    /// Read the register at a twelve-bit address, validating that it exists
    /// and that the mode reaches it; `None` stands for the
    /// illegal-instruction failure the caller raises.
    pub fn read_csr(&self, addr: u32, mode: PrivilegeMode) -> (r: Option<u32>)
        ensures
            match spec_csr_at(addr) {
                Some(a) => {
                    if csr_priv_ok(addr, mode) {
                        r == Some(spec_csr(*self, a))
                    } else {
                        r is None
                    }
                },
                None => r is None,
            },
    {
        match CsrAddr::try_from_u32(addr) {
            Some(a) => {
                if self.priv_ok(addr, mode) {
                    Some(self.get(a))
                } else {
                    None
                }
            },
            None => None,
        }
    }

    /// Write the register at a twelve-bit address, validating that it
    /// exists, that the mode reaches it, and that it is not read-only;
    /// `None` stands for the illegal-instruction failure the caller raises.
    pub fn write_csr(&mut self, addr: u32, v: u32, mode: PrivilegeMode) -> (r: Option<()>)
        ensures
            match spec_csr_at(addr) {
                Some(a) => {
                    if csr_priv_ok(addr, mode) && !csr_read_only(addr) {
                        r is Some && *final(self) == spec_csr_set(*old(self), a, v)
                    } else {
                        r is None && *final(self) == *old(self)
                    }
                },
                None => r is None && *final(self) == *old(self),
            },
    {
        match CsrAddr::try_from_u32(addr) {
            Some(a) => {
                if self.priv_ok(addr, mode) && !((addr >> 10u32) & 3 == 3) {
                    self.set(a, v);
                    Some(())
                } else {
                    None
                }
            },
            None => None,
        }
    }

    /// Whether the mode reaches the CSR address.
    fn priv_ok(&self, addr: u32, mode: PrivilegeMode) -> (r: bool)
        ensures
            r == csr_priv_ok(addr, mode),
    {
        mode.bits() >= (addr >> 8u32) & 3
    }

    /// Enter a trap: decide the handling level by the delegation mask, save
    /// the faulting PC and the numeric cause there, record the interrupted
    /// mode, and hand back the target mode and the trap vector base.
    pub fn trap_entry(&mut self, pc: u32, exc: Exception, mode: PrivilegeMode)
        -> (r: (PrivilegeMode, u32))
        ensures
            ({
                let (c2, m2, vec) = spec_trap_entry(*old(self), pc, exc, mode);
                *final(self) == c2 && r.0 == m2 && r.1 == vec
            }),
    {
        let cause = exc.cause();
        let delegated = !matches!(mode, PrivilegeMode::Machine)
            && (self.medeleg >> cause) & 1 == 1;
        if delegated {
            self.sepc = pc;
            self.scause = cause;
            self.sstatus = (self.sstatus & 0xffff_feff)
                | (if matches!(mode, PrivilegeMode::Supervisor) { 0x100 } else { 0 });
            (PrivilegeMode::Supervisor, self.stvec & 0xffff_fffc)
        } else {
            self.mepc = pc;
            self.mcause = cause;
            self.mstatus = (self.mstatus & 0xffff_e7ff) | (mode.bits() << 11u32);
            (PrivilegeMode::Machine, self.mtvec & 0xffff_fffc)
        }
    }

    /// Return from a trap: the mode recorded in the matching status
    /// register's saved-mode field, and the PC saved at trap entry.
    pub fn trap_return(&self, op: PrivilegeOp) -> (r: (PrivilegeMode, u32))
        ensures
            r == spec_trap_return(*self, op),
    {
        match op {
            PrivilegeOp::Mret => {
                let bits = (self.mstatus >> 11u32) & 3;
                (PrivilegeMode::from_bits(bits), self.mepc)
            },
            PrivilegeOp::Sret => {
                if (self.sstatus >> 8u32) & 1 == 1 {
                    (PrivilegeMode::Supervisor, self.sepc)
                } else {
                    (PrivilegeMode::User, self.sepc)
                }
            },
        }
    }

    /// Every implemented register with its value, in the fixed listing
    /// order.
    pub fn inspect(&self) -> (r: Vec<(CsrAddr, u32)>)
        ensures
            r@ =~= spec_csr_listing(*self),
            r@.len() == 17,
    {
        let mut v: Vec<(CsrAddr, u32)> = Vec::new();
        v.push((CsrAddr::Ustatus, self.ustatus));
        v.push((CsrAddr::Sstatus, self.sstatus));
        v.push((CsrAddr::Stvec, self.stvec));
        v.push((CsrAddr::Sepc, self.sepc));
        v.push((CsrAddr::Scause, self.scause));
        v.push((CsrAddr::Satp, self.satp));
        v.push((CsrAddr::Mstatus, self.mstatus));
        v.push((CsrAddr::Medeleg, self.medeleg));
        v.push((CsrAddr::Mideleg, self.mideleg));
        v.push((CsrAddr::Mie, self.mie));
        v.push((CsrAddr::Mtvec, self.mtvec));
        v.push((CsrAddr::Mepc, self.mepc));
        v.push((CsrAddr::Mcause, self.mcause));
        v.push((CsrAddr::Pmpcfg0, self.pmpcfg0));
        v.push((CsrAddr::Pmpaddr0, self.pmpaddr0));
        v.push((CsrAddr::Mnscratch, self.mnscratch));
        v.push((CsrAddr::Mhartid, self.mhartid));
        v
    }
}

/// Trap round-trip: whatever exception is raised at PC `p`, trap entry
/// saves `p` and the cause at the delegated level, switches to that level,
/// and redirects to the trap vector base; the matching return instruction
/// then restores both the PC and the interrupted privilege mode.
pub proof fn lemma_trap_round_trip(c: CsrFile, p: u32, exc: Exception, mode: PrivilegeMode)
    ensures
        ({
            let (c2, m2, vec) = spec_trap_entry(c, p, exc, mode);
            let delegated = spec_delegated(c, exc, mode);
            &&& (delegated ==> c2.sepc == p && c2.scause == exc.cause_code()
                && m2 == PrivilegeMode::Supervisor && vec == (c.stvec & 0xffff_fffc))
            &&& (!delegated ==> c2.mepc == p && c2.mcause == exc.cause_code()
                && m2 == PrivilegeMode::Machine && vec == (c.mtvec & 0xffff_fffc))
            &&& spec_trap_return(c2, if delegated { PrivilegeOp::Sret } else { PrivilegeOp::Mret })
                == (mode, p)
        }),
{
    if spec_delegated(c, exc, mode) {
        let s = c.sstatus;
        if mode == PrivilegeMode::Supervisor {
            assert(((((s & 0xffff_feffu32) | 0x100u32) >> 8u32) & 1) == 1) by (bit_vector);
        } else {
            assert(((((s & 0xffff_feffu32) | 0u32) >> 8u32) & 1) == 0) by (bit_vector);
        }
    } else {
        let m = c.mstatus;
        match mode {
            PrivilegeMode::Machine => {
                assert(((((m & 0xffff_e7ffu32) | (3u32 << 11u32)) >> 11u32) & 3) == 3)
                    by (bit_vector);
            },
            PrivilegeMode::Supervisor => {
                assert(((((m & 0xffff_e7ffu32) | (1u32 << 11u32)) >> 11u32) & 3) == 1)
                    by (bit_vector);
            },
            PrivilegeMode::User => {
                assert(((((m & 0xffff_e7ffu32) | (0u32 << 11u32)) >> 11u32) & 3) == 0)
                    by (bit_vector);
            },
        }
    }
}

} // verus!
