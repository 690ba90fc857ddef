//! Translation-stage tagging of addresses. A virtual-stage access must pass
//! through the translator before it reaches the device bus; a physical-stage
//! access never re-enters translation. A physical access is constructed only
//! as translation output, as the explicit bypass, or by a host that already
//! holds a physical address.

use vstd::prelude::*;
use crate::exception::Exception;

verus! {

/// What an access intends: a data read, a data write, or an instruction
/// fetch.
#[derive(Debug, Clone, Copy, PartialEq, Eq, Structural)]
pub enum AccessType {
    Load,
    Store,
    Fetch,
}

/// The page fault matching an intent, carrying the faulting virtual address.
pub open spec fn page_fault_of(kind: AccessType, addr: u32) -> Exception {
    match kind {
        AccessType::Load => Exception::LoadPageFault(addr),
        AccessType::Store => Exception::StoreOrAmoPageFault(addr),
        AccessType::Fetch => Exception::InstructionPageFault(addr),
    }
}

/// The access fault matching an intent, carrying the faulting address.
pub open spec fn access_fault_of(kind: AccessType, addr: u32) -> Exception {
    match kind {
        AccessType::Load => Exception::LoadAccessFault(addr),
        AccessType::Store => Exception::StoreAccessFault(addr),
        AccessType::Fetch => Exception::InstructionAccessFault(addr),
    }
}

/// An address before translation, tagged with its intent.
#[derive(Debug, Clone, Copy, PartialEq, Eq, Structural)]
pub struct VirtAccess {
    pub addr: u32,
    pub kind: AccessType,
}

impl VirtAccess {
    /// A virtual access with the given address and intent.
    pub fn new(addr: u32, kind: AccessType) -> (r: Self)
        ensures
            r.addr == addr && r.kind == kind,
    {
        VirtAccess { addr, kind }
    }

    /// The page fault this access raises, reporting the virtual address.
    pub fn to_page_exception(&self) -> (r: Exception)
        ensures
            r == page_fault_of(self.kind, self.addr),
    {
        match self.kind {
            AccessType::Load => Exception::LoadPageFault(self.addr),
            AccessType::Store => Exception::StoreOrAmoPageFault(self.addr),
            AccessType::Fetch => Exception::InstructionPageFault(self.addr),
        }
    }

    /// Identity translation: Machine mode, or paging disabled.
    pub fn bypass(self) -> (r: Access)
        ensures
            r.addr == self.addr && r.kind == self.kind,
    {
        Access { addr: self.addr, kind: self.kind }
    }

    /// The physical access a completed page-table walk resolved.
    pub fn into_physical(self, p_addr: u32) -> (r: Access)
        ensures
            r.addr == p_addr && r.kind == self.kind,
    {
        Access { addr: p_addr, kind: self.kind }
    }
}

/// A translated (or physical-from-birth) address, tagged with its intent:
/// what the device bus routes.
#[derive(Debug, Clone, Copy, PartialEq, Eq, Structural)]
pub struct Access {
    pub addr: u32,
    pub kind: AccessType,
}

impl Access {
    /// A physical access with the given address and intent.
    pub fn new(addr: u32, kind: AccessType) -> (r: Self)
        ensures
            r.addr == addr && r.kind == kind,
    {
        Access { addr, kind }
    }

    /// The access fault this access raises.
    pub fn to_access_exception(&self) -> (r: Exception)
        ensures
            r == access_fault_of(self.kind, self.addr),
    {
        match self.kind {
            AccessType::Load => Exception::LoadAccessFault(self.addr),
            AccessType::Store => Exception::StoreAccessFault(self.addr),
            AccessType::Fetch => Exception::InstructionAccessFault(self.addr),
        }
    }
}

} // verus!
