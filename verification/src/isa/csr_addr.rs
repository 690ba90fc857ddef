//! The control/status registers the core knows, and the mapping between
//! them and their twelve-bit architectural addresses.

use vstd::prelude::*;

verus! {

/// A control/status register the core implements. Accessing any other
/// address is a hard decode-time failure.
#[derive(Debug, Clone, Copy, PartialEq, Eq, Structural)]
pub enum CsrAddr {
    Ustatus,
    Sstatus,
    Stvec,
    Sepc,
    Scause,
    Satp,
    Mstatus,
    Medeleg,
    Mideleg,
    Mie,
    Mtvec,
    Mepc,
    Mcause,
    Pmpcfg0,
    Pmpaddr0,
    Mnscratch,
    Mhartid,
}

/// The twelve-bit architectural address of each implemented CSR.
pub open spec fn spec_addr_of(c: CsrAddr) -> u32 {
    match c {
        CsrAddr::Ustatus => 0x000,
        CsrAddr::Sstatus => 0x100,
        CsrAddr::Stvec => 0x105,
        CsrAddr::Sepc => 0x141,
        CsrAddr::Scause => 0x142,
        CsrAddr::Satp => 0x180,
        CsrAddr::Mstatus => 0x300,
        CsrAddr::Medeleg => 0x302,
        CsrAddr::Mideleg => 0x303,
        CsrAddr::Mie => 0x304,
        CsrAddr::Mtvec => 0x305,
        CsrAddr::Mepc => 0x341,
        CsrAddr::Mcause => 0x342,
        CsrAddr::Pmpcfg0 => 0x3a0,
        CsrAddr::Pmpaddr0 => 0x3b0,
        CsrAddr::Mnscratch => 0x744,
        CsrAddr::Mhartid => 0xf14,
    }
}

/// The CSR at a twelve-bit address, if the core implements one there.
pub open spec fn spec_csr_at(value: u32) -> Option<CsrAddr> {
    if value == 0x000 { Some(CsrAddr::Ustatus) }
    else if value == 0x100 { Some(CsrAddr::Sstatus) }
    else if value == 0x105 { Some(CsrAddr::Stvec) }
    else if value == 0x141 { Some(CsrAddr::Sepc) }
    else if value == 0x142 { Some(CsrAddr::Scause) }
    else if value == 0x180 { Some(CsrAddr::Satp) }
    else if value == 0x300 { Some(CsrAddr::Mstatus) }
    else if value == 0x302 { Some(CsrAddr::Medeleg) }
    else if value == 0x303 { Some(CsrAddr::Mideleg) }
    else if value == 0x304 { Some(CsrAddr::Mie) }
    else if value == 0x305 { Some(CsrAddr::Mtvec) }
    else if value == 0x341 { Some(CsrAddr::Mepc) }
    else if value == 0x342 { Some(CsrAddr::Mcause) }
    else if value == 0x3a0 { Some(CsrAddr::Pmpcfg0) }
    else if value == 0x3b0 { Some(CsrAddr::Pmpaddr0) }
    else if value == 0x744 { Some(CsrAddr::Mnscratch) }
    else if value == 0xf14 { Some(CsrAddr::Mhartid) }
    else { None }
}

impl CsrAddr {
    /// The register's twelve-bit address.
    pub fn addr(self) -> (r: u32)
        ensures
            r == spec_addr_of(self),
    {
        match self {
            CsrAddr::Ustatus => 0x000,
            CsrAddr::Sstatus => 0x100,
            CsrAddr::Stvec => 0x105,
            CsrAddr::Sepc => 0x141,
            CsrAddr::Scause => 0x142,
            CsrAddr::Satp => 0x180,
            CsrAddr::Mstatus => 0x300,
            CsrAddr::Medeleg => 0x302,
            CsrAddr::Mideleg => 0x303,
            CsrAddr::Mie => 0x304,
            CsrAddr::Mtvec => 0x305,
            CsrAddr::Mepc => 0x341,
            CsrAddr::Mcause => 0x342,
            CsrAddr::Pmpcfg0 => 0x3a0,
            CsrAddr::Pmpaddr0 => 0x3b0,
            CsrAddr::Mnscratch => 0x744,
            CsrAddr::Mhartid => 0xf14,
        }
    }

    /// Look an address up; `None` when the core implements no CSR there.
    pub fn try_from_u32(value: u32) -> (r: Option<CsrAddr>)
        ensures
            r == spec_csr_at(value),
            r is Some ==> spec_addr_of(r->0) == value,
    {
        match value {
            0x000 => Some(CsrAddr::Ustatus),
            0x100 => Some(CsrAddr::Sstatus),
            0x105 => Some(CsrAddr::Stvec),
            0x141 => Some(CsrAddr::Sepc),
            0x142 => Some(CsrAddr::Scause),
            0x180 => Some(CsrAddr::Satp),
            0x300 => Some(CsrAddr::Mstatus),
            0x302 => Some(CsrAddr::Medeleg),
            0x303 => Some(CsrAddr::Mideleg),
            0x304 => Some(CsrAddr::Mie),
            0x305 => Some(CsrAddr::Mtvec),
            0x341 => Some(CsrAddr::Mepc),
            0x342 => Some(CsrAddr::Mcause),
            0x3a0 => Some(CsrAddr::Pmpcfg0),
            0x3b0 => Some(CsrAddr::Pmpaddr0),
            0x744 => Some(CsrAddr::Mnscratch),
            0xf14 => Some(CsrAddr::Mhartid),
            _ => None,
        }
    }
}

} // verus!
