//! The load/store unit: computes the effective address, translates it, and
//! moves 1, 2 or 4 bytes through the bus, sign- or zero-extending loads.
//! Faults report the effective virtual address.

use vstd::prelude::*;
use crate::exception::Exception;
use crate::device::bus::{
    SystemBus, BusView, bytes_mapped, spec_load_value, spec_store_bytes,
};
use crate::hart::access::{Access, VirtAccess, AccessType, access_fault_of};
use crate::hart::mmu::{Mmu, spec_translate};
use crate::hart::privilege::PrivilegeMode;
use crate::word::wrap32;

verus! {

/// Everything a load does: translate the effective address, then read the
/// bytes; a bus fault on the data itself reports the virtual address.
pub open spec fn spec_lsu_load(
    v: BusView, src: u32, offset: i32, num: nat, is_signed: bool,
    mode: PrivilegeMode, ppn_opt: Option<u32>,
) -> (Result<u32, Exception>, BusView) {
    let addr = wrap32(src + offset);
    let (t, v2) = spec_translate(v, mode, ppn_opt, addr, AccessType::Load);
    match t {
        Err(e) => (Err(e), v2),
        Ok(pa) => {
            if bytes_mapped(v2, pa as int, num as int) {
                (Ok(spec_load_value(v2, pa as int, num, is_signed)), v2)
            } else {
                (Err(access_fault_of(AccessType::Load, addr)), v2)
            }
        },
    }
}

/// Everything a store does: translate the effective address (which may set
/// accessed/dirty flags), then write the bytes; a bus fault on the data
/// itself reports the virtual address.
pub open spec fn spec_lsu_store(
    v: BusView, des: u32, src: u32, offset: i32, num: nat,
    mode: PrivilegeMode, ppn_opt: Option<u32>,
) -> (Result<(), Exception>, BusView) {
    let addr = wrap32(des + offset);
    let (t, v2) = spec_translate(v, mode, ppn_opt, addr, AccessType::Store);
    match t {
        Err(e) => (Err(e), v2),
        Ok(pa) => {
            if bytes_mapped(v2, pa as int, num as int) {
                (Ok(()), spec_store_bytes(v2, pa as int, src, num))
            } else {
                (Err(access_fault_of(AccessType::Store, addr)), v2)
            }
        },
    }
}

/// The load/store unit.
pub struct Lsu;

impl Lsu {
    /// Load `num` bytes from `base + offset`, zero-extended.
    pub fn load(
        bus: &mut SystemBus, src: u32, offset: i32, num: usize,
        mode: PrivilegeMode, ppn_opt: Option<u32>,
    ) -> (r: Result<u32, Exception>)
        requires
            old(bus).wf(),
            1 <= num <= 4,
        ensures
            final(bus).wf(),
            final(bus).spec_ram_size() == old(bus).spec_ram_size(),
            ({
                let (res, v2) = spec_lsu_load(
                    old(bus)@, src, offset, num as nat, false, mode, ppn_opt);
                final(bus)@ =~= v2 && r == res
            }),
    {
        Self::transfer_in(bus, src, offset, num, false, mode, ppn_opt)
    }

    /// Load `num` bytes from `base + offset`, sign-extended.
    pub fn load_signed(
        bus: &mut SystemBus, src: u32, offset: i32, num: usize,
        mode: PrivilegeMode, ppn_opt: Option<u32>,
    ) -> (r: Result<u32, Exception>)
        requires
            old(bus).wf(),
            1 <= num <= 4,
        ensures
            final(bus).wf(),
            final(bus).spec_ram_size() == old(bus).spec_ram_size(),
            ({
                let (res, v2) = spec_lsu_load(
                    old(bus)@, src, offset, num as nat, true, mode, ppn_opt);
                final(bus)@ =~= v2 && r == res
            }),
    {
        Self::transfer_in(bus, src, offset, num, true, mode, ppn_opt)
    }

    /// The shared load path.
    fn transfer_in(
        bus: &mut SystemBus, src: u32, offset: i32, num: usize, is_signed: bool,
        mode: PrivilegeMode, ppn_opt: Option<u32>,
    ) -> (r: Result<u32, Exception>)
        requires
            old(bus).wf(),
            1 <= num <= 4,
        ensures
            final(bus).wf(),
            final(bus).spec_ram_size() == old(bus).spec_ram_size(),
            ({
                let (res, v2) = spec_lsu_load(
                    old(bus)@, src, offset, num as nat, is_signed, mode, ppn_opt);
                final(bus)@ =~= v2 && r == res
            }),
    {
        let addr = src.wrapping_add_signed(offset);
        let va_access = VirtAccess::new(addr, AccessType::Load);
        let pa_access = match Mmu::translate(va_access, mode, ppn_opt, bus) {
            Ok(a) => a,
            Err(e) => {
                return Err(e);
            },
        };
        match bus.read_u32_bytes(pa_access, num, is_signed) {
            Ok(data) => Ok(data),
            Err(_) => Err(Exception::LoadAccessFault(addr)),
        }
    }

    /// Store the low `num` bytes of `src` at `des + offset`.
    pub fn store(
        bus: &mut SystemBus, des: u32, src: u32, offset: i32, num: usize,
        mode: PrivilegeMode, ppn_opt: Option<u32>,
    ) -> (r: Result<(), Exception>)
        requires
            old(bus).wf(),
            1 <= num <= 4,
        ensures
            final(bus).wf(),
            final(bus).spec_ram_size() == old(bus).spec_ram_size(),
            ({
                let (res, v2) = spec_lsu_store(
                    old(bus)@, des, src, offset, num as nat, mode, ppn_opt);
                final(bus)@ =~= v2 && r == res
            }),
    {
        let addr = des.wrapping_add_signed(offset);
        let va_access = VirtAccess::new(addr, AccessType::Store);
        let pa_access = match Mmu::translate(va_access, mode, ppn_opt, bus) {
            Ok(a) => a,
            Err(e) => {
                return Err(e);
            },
        };
        match bus.write_u32_bytes(pa_access, src, num) {
            Ok(_) => Ok(()),
            Err(_) => Err(Exception::StoreAccessFault(addr)),
        }
    }
}

} // verus!
