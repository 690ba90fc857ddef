//! The device bus: a flat physical address space with two non-overlapping
//! windows, one for RAM and one for the UART. Every access is routed to
//! exactly one window, rewritten to be window-relative, or faults.

use vstd::prelude::*;
use crate::exception::Exception;
use crate::device::Device;
use crate::device::memory::{Memory, PAGE_SIZE};
use crate::device::uart::{Uart, spec_uart_read, spec_uart_write};
use crate::hart::access::{Access, access_fault_of};

verus! {

/// The lowest address of the UART window.
pub const UART_BASE: u32 = 0x1000_0000;

/// The highest address of the UART window.
pub const UART_END: u32 = 0x1000_00FF;

/// The lowest address of the RAM window.
pub const DRAM_BASE_ADDR: u32 = 0x8000_0000;

/// The RAM size a default bus carries.
pub const DEFAULT_RAM_SIZE: usize = 0x10_0000;

/// The bus state a contract sees: the UART registers and the RAM contents.
#[verifier::ext_equal]
pub struct BusView {
    pub uart: (u8, u8),
    pub ram: Seq<u8>,
}

/// Whether an address falls in the UART window.
pub open spec fn in_uart_window(addr: int) -> bool {
    UART_BASE <= addr <= UART_END
}

/// Whether an address falls in the RAM window of a bus whose RAM holds
/// `ram_len` bytes.
pub open spec fn in_ram_window(addr: int, ram_len: int) -> bool {
    DRAM_BASE_ADDR <= addr && addr - DRAM_BASE_ADDR < ram_len
}

/// The byte the bus yields at a physical address: the UART register, the
/// RAM byte, or nothing when the address is outside both windows.
pub open spec fn spec_bus_read(v: BusView, addr: int) -> Option<u8> {
    if in_uart_window(addr) {
        Some(spec_uart_read(v.uart, (addr - UART_BASE) as u32))
    } else if in_ram_window(addr, v.ram.len() as int) {
        Some(v.ram[addr - DRAM_BASE_ADDR])
    } else {
        None
    }
}

/// The bus state after one byte is written at a physical address, or
/// nothing when the address is outside both windows. A write inside the
/// UART window leaves RAM untouched, and the other way round.
pub open spec fn spec_bus_write(v: BusView, addr: int, data: u8) -> Option<BusView> {
    if in_uart_window(addr) {
        Some(BusView { uart: spec_uart_write(v.uart, (addr - UART_BASE) as u32, data), ram: v.ram })
    } else if in_ram_window(addr, v.ram.len() as int) {
        Some(BusView { uart: v.uart, ram: v.ram.update(addr - DRAM_BASE_ADDR, data) })
    } else {
        None
    }
}

/// Whether all `len` bytes from `addr` up are inside mapped windows.
pub open spec fn bytes_mapped(v: BusView, addr: int, len: int) -> bool {
    forall|i: int| 0 <= i < len ==> #[trigger] spec_bus_read(v, addr + i) is Some
}

/// 256 to the power `len`.
pub open spec fn pow256(len: nat) -> int
    decreases len,
{
    if len == 0 {
        1
    } else {
        256 * pow256((len - 1) as nat)
    }
}

/// The little-endian value of the `len` bytes at `addr`; unmapped bytes
/// count as zero (callers establish that all bytes are mapped).
pub open spec fn le_bytes_at(v: BusView, addr: int, len: nat) -> int
    decreases len,
{
    if len == 0 {
        0
    } else {
        le_bytes_at(v, addr, (len - 1) as nat)
            + (match spec_bus_read(v, addr + len - 1) {
                Some(b) => b as int,
                None => 0,
            }) * pow256((len - 1) as nat)
    }
}

/// The loaded register value: the little-endian bytes, sign- or
/// zero-extended to a full word.
pub open spec fn spec_load_value(v: BusView, addr: int, len: nat, is_signed: bool) -> u32 {
    let raw = le_bytes_at(v, addr, len);
    if is_signed && raw >= 128 * pow256((len - 1) as nat) {
        crate::word::wrap32(raw - pow256(len))
    } else {
        crate::word::wrap32(raw)
    }
}

/// Byte `k` (little-endian) of a word.
pub open spec fn byte_of(data: u32, k: nat) -> u8 {
    ((data as int / pow256(k)) % 256) as u8
}

/// The bus state after the `len` little-endian bytes of `data` are written
/// from `addr` up, low byte first; writes to unmapped bytes are dropped
/// (callers establish that all bytes are mapped).
pub open spec fn spec_store_bytes(v: BusView, addr: int, data: u32, len: nat) -> BusView
    decreases len,
{
    if len == 0 {
        v
    } else {
        let prev = spec_store_bytes(v, addr, data, (len - 1) as nat);
        match spec_bus_write(prev, addr + len - 1, byte_of(data, (len - 1) as nat)) {
            Some(next) => next,
            None => prev,
        }
    }
}

/// The bus state after a run of bytes is written from `addr` up; writes to
/// unmapped bytes are dropped (callers establish that all bytes are mapped).
pub open spec fn spec_place_bytes(v: BusView, addr: int, bytes: Seq<u8>) -> BusView
    decreases bytes.len(),
{
    if bytes.len() == 0 {
        v
    } else {
        let prev = spec_place_bytes(v, addr, bytes.drop_last());
        match spec_bus_write(prev, addr + bytes.len() - 1, bytes.last()) {
            Some(next) => next,
            None => prev,
        }
    }
}

/// Placing bytes neither resizes the RAM nor moves a window.
pub proof fn lemma_place_keeps_windows(v: BusView, addr: int, bytes: Seq<u8>)
    ensures
        spec_place_bytes(v, addr, bytes).ram.len() == v.ram.len(),
        forall|x: int| #[trigger] spec_bus_read(spec_place_bytes(v, addr, bytes), x) is Some
            <==> spec_bus_read(v, x) is Some,
    decreases bytes.len(),
{
    if bytes.len() > 0 {
        lemma_place_keeps_windows(v, addr, bytes.drop_last());
    }
}

/// How many leading bytes of a run a byte-by-byte write covers before it
/// first fails: the count of consecutive bytes from `addr` up that are
/// inside the 32-bit physical space and inside a mapped window.
pub open spec fn mapped_prefix(v: BusView, addr: int, size: nat) -> nat
    decreases size,
{
    if size == 0 {
        0
    } else if addr <= 0xffff_ffff && spec_bus_read(v, addr) is Some {
        (1 + mapped_prefix(v, addr + 1, (size - 1) as nat)) as nat
    } else {
        0
    }
}

/// The mapped prefix is exactly the index of the first byte that is out of
/// space or unmapped — or the whole run when every byte is reachable.
pub proof fn lemma_mapped_prefix_is(v: BusView, addr: int, size: nat, n: nat)
    requires
        n <= size,
        forall|j: int| 0 <= j < n ==> addr + j <= 0xffff_ffff
            && (#[trigger] spec_bus_read(v, addr + j)) is Some,
        n < size ==> !(addr + n <= 0xffff_ffff && spec_bus_read(v, addr + n) is Some),
    ensures
        mapped_prefix(v, addr, size) == n,
    decreases size,
{
    if size > 0 && n > 0 {
        assert(spec_bus_read(v, addr + 0) is Some);
        assert forall|j: int| 0 <= j < n - 1 implies (addr + 1) + j <= 0xffff_ffff
            && (#[trigger] spec_bus_read(v, (addr + 1) + j)) is Some by {
            assert(spec_bus_read(v, addr + (j + 1)) is Some);
        }
        lemma_mapped_prefix_is(v, addr + 1, (size - 1) as nat, (n - 1) as nat);
    }
}

/// One byte write leaves every other address alone.
pub proof fn lemma_write_one_unchanged(v: BusView, y: int, b: u8, x: int)
    requires
        x != y,
    ensures
        match spec_bus_write(v, y, b) {
            Some(u) => spec_bus_read(u, x) == spec_bus_read(v, x),
            None => true,
        },
{
}

/// One byte write inside the RAM window lands, and reads back exactly.
pub proof fn lemma_write_one_read_back(v: BusView, y: int, b: u8)
    requires
        in_ram_window(y, v.ram.len() as int),
    ensures
        match spec_bus_write(v, y, b) {
            Some(u) => spec_bus_read(u, y) == Some(b),
            None => false,
        },
{
}

/// Storing a word's bytes inside the RAM window writes exactly those bytes
/// and nothing else.
pub proof fn lemma_store_bytes_effect(v: BusView, addr: int, data: u32, len: nat)
    requires
        forall|i: int| 0 <= i < len ==> #[trigger] in_ram_window(addr + i, v.ram.len() as int),
    ensures
        forall|i: int| 0 <= i < len
            ==> #[trigger] spec_bus_read(spec_store_bytes(v, addr, data, len), addr + i)
                == Some(byte_of(data, i as nat)),
        forall|x: int| x < addr || x >= addr + len
            ==> #[trigger] spec_bus_read(spec_store_bytes(v, addr, data, len), x)
                == spec_bus_read(v, x),
    decreases len,
{
    if len > 0 {
        lemma_store_bytes_effect(v, addr, data, (len - 1) as nat);
        let prev = spec_store_bytes(v, addr, data, (len - 1) as nat);
        lemma_store_keeps_windows(v, addr, data, (len - 1) as nat);
        lemma_write_one_read_back(prev, addr + len - 1, byte_of(data, (len - 1) as nat));
        assert forall|i: int| 0 <= i < len implies
            #[trigger] spec_bus_read(spec_store_bytes(v, addr, data, len), addr + i)
                == Some(byte_of(data, i as nat)) by {
            if i < len - 1 {
                lemma_write_one_unchanged(
                    prev, addr + len - 1, byte_of(data, (len - 1) as nat), addr + i);
            }
        }
        assert forall|x: int| x < addr || x >= addr + len implies
            #[trigger] spec_bus_read(spec_store_bytes(v, addr, data, len), x)
                == spec_bus_read(v, x) by {
            lemma_write_one_unchanged(
                prev, addr + len - 1, byte_of(data, (len - 1) as nat), x);
        }
    }
}

/// Two bus states that agree on a run of bytes yield the same little-endian
/// value over it.
pub proof fn lemma_le_bytes_congruence(u: BusView, v: BusView, addr: int, len: nat)
    requires
        forall|i: int| 0 <= i < len
            ==> #[trigger] spec_bus_read(u, addr + i) == spec_bus_read(v, addr + i),
    ensures
        le_bytes_at(u, addr, len) == le_bytes_at(v, addr, len),
    decreases len,
{
    if len > 0 {
        lemma_le_bytes_congruence(u, v, addr, (len - 1) as nat);
    }
}

/// A word is the little-endian sum of its four bytes.
pub proof fn lemma_word_from_bytes(w: u32)
    ensures
        byte_of(w, 0) + byte_of(w, 1) * 256 + byte_of(w, 2) * 0x1_0000
            + byte_of(w, 3) * 0x100_0000 == w,
{
    reveal_with_fuel(pow256, 5);
    let x: int = w as int;
    vstd::arithmetic::div_mod::lemma_fundamental_div_mod(x, 256);
    vstd::arithmetic::div_mod::lemma_fundamental_div_mod(x / 256, 256);
    vstd::arithmetic::div_mod::lemma_fundamental_div_mod(x / 0x1_0000, 256);
    vstd::arithmetic::div_mod::lemma_fundamental_div_mod(x / 0x100_0000, 256);
    vstd::arithmetic::div_mod::lemma_div_denominator(x, 256, 256);
    vstd::arithmetic::div_mod::lemma_div_denominator(x, 0x1_0000, 256);
    vstd::arithmetic::div_mod::lemma_mod_bound(x, 256);
    vstd::arithmetic::div_mod::lemma_mod_bound(x / 256, 256);
    vstd::arithmetic::div_mod::lemma_mod_bound(x / 0x1_0000, 256);
    assert(x / 0x100_0000 < 256) by {
        vstd::arithmetic::div_mod::lemma_div_is_ordered(x, 0xffff_ffff, 0x100_0000);
    }
    assert(x / 0x100_0000 >= 0) by {
        vstd::arithmetic::div_mod::lemma_div_pos_is_pos(x, 0x100_0000);
    }
    vstd::arithmetic::div_mod::lemma_small_mod((x / 0x100_0000) as nat, 256);
}

/// The device the bus routed an access to.
#[derive(Debug, Clone, Copy, PartialEq, Eq, Structural)]
pub enum DeviceKind {
    Uart,
    Ram,
}

/// The physical address space router owning the RAM and UART devices.
#[derive(Debug, Clone, PartialEq, Eq)]
pub struct SystemBus {
    uart: Uart,
    ram: Memory,
}

impl View for SystemBus {
    type V = BusView;

    closed spec fn view(&self) -> BusView {
        BusView { uart: self.uart@, ram: self.ram@ }
    }
}

impl SystemBus {
    /// The RAM is well formed and small enough that its window fits the
    /// 32-bit physical address space.
    pub open spec fn wf(&self) -> bool {
        self.spec_ram_size() == self@.ram.len() && self@.ram.len() <= 0x8000_0000
    }

    /// The declared RAM size.
    pub closed spec fn spec_ram_size(&self) -> usize {
        self.ram.spec_size()
    }

    /// A bus with a zero-filled RAM of `ram_size` bytes and a reset UART.
    pub fn new(ram_size: usize) -> (r: Self)
        requires
            ram_size <= 0x8000_0000,
        ensures
            r.wf(),
            r.spec_ram_size() == ram_size,
            r@.uart == (0u8, crate::device::uart::UART_LSR_READY),
            forall|i: int| 0 <= i < ram_size ==> r@.ram[i] == 0,
    {
        SystemBus { uart: Uart::new(), ram: Memory::new(ram_size) }
    }

    /// Route an access to its window: rewrite the address to be
    /// window-relative and name the device, or fault on an address outside
    /// both windows, reporting the unrewritten address.
    pub fn mapping(&self, access: &mut Access) -> (r: Result<DeviceKind, Exception>)
        requires
            self.wf(),
        ensures
            final(access).kind == old(access).kind,
            in_uart_window(old(access).addr as int)
                ==> r == Ok::<DeviceKind, Exception>(DeviceKind::Uart)
                    && final(access).addr == old(access).addr - UART_BASE,
            in_ram_window(old(access).addr as int, self@.ram.len() as int)
                ==> r == Ok::<DeviceKind, Exception>(DeviceKind::Ram)
                    && final(access).addr == old(access).addr - DRAM_BASE_ADDR,
            spec_bus_read(self@, old(access).addr as int) is None
                ==> r == Err::<DeviceKind, Exception>(
                    access_fault_of(old(access).kind, old(access).addr))
                    && final(access).addr == old(access).addr,
    {
        let addr = access.addr;
        if UART_BASE <= addr && addr <= UART_END {
            access.addr = addr - UART_BASE;
            Ok(DeviceKind::Uart)
        } else if addr >= DRAM_BASE_ADDR {
            let ram_addr = addr - DRAM_BASE_ADDR;
            if (ram_addr as usize) >= self.ram.size() {
                Err(access.to_access_exception())
            } else {
                access.addr = ram_addr;
                Ok(DeviceKind::Ram)
            }
        } else {
            Err(access.to_access_exception())
        }
    }

    /// Route an access exactly as `mapping` does. The original design hands
    /// out the device itself mutably; here the caller matches on the named
    /// device instead.
    pub fn mapping_mut(&mut self, access: &mut Access) -> (r: Result<DeviceKind, Exception>)
        requires
            old(self).wf(),
        ensures
            *final(self) == *old(self),
            final(access).kind == old(access).kind,
            in_uart_window(old(access).addr as int)
                ==> r == Ok::<DeviceKind, Exception>(DeviceKind::Uart)
                    && final(access).addr == old(access).addr - UART_BASE,
            in_ram_window(old(access).addr as int, old(self)@.ram.len() as int)
                ==> r == Ok::<DeviceKind, Exception>(DeviceKind::Ram)
                    && final(access).addr == old(access).addr - DRAM_BASE_ADDR,
            spec_bus_read(old(self)@, old(access).addr as int) is None
                ==> r == Err::<DeviceKind, Exception>(
                    access_fault_of(old(access).kind, old(access).addr))
                    && final(access).addr == old(access).addr,
    {
        self.mapping(access)
    }

    /// Read the byte at a physical address, or fault outside both windows.
    pub fn read_byte(&self, access: Access) -> (r: Result<u8, Exception>)
        requires
            self.wf(),
        ensures
            match spec_bus_read(self@, access.addr as int) {
                Some(b) => r == Ok::<u8, Exception>(b),
                None => r == Err::<u8, Exception>(
                    access_fault_of(access.kind, access.addr)),
            },
    {
        let mut routed = access;
        match self.mapping(&mut routed) {
            Ok(DeviceKind::Uart) => Ok(self.uart.fetch_byte(routed.addr)),
            Ok(DeviceKind::Ram) => Ok(self.ram.fetch_byte(routed.addr)),
            Err(e) => Err(e),
        }
    }

    /// Write the byte at a physical address, or fault outside both windows;
    /// a fault leaves the bus unchanged.
    pub fn write_byte(&mut self, access: Access, data: u8) -> (r: Result<(), Exception>)
        requires
            old(self).wf(),
        ensures
            final(self).wf(),
            final(self).spec_ram_size() == old(self).spec_ram_size(),
            match spec_bus_write(old(self)@, access.addr as int, data) {
                Some(v) => r is Ok && final(self)@ =~= v,
                None => r == Err::<(), Exception>(
                    access_fault_of(access.kind, access.addr))
                    && final(self)@ =~= old(self)@,
            },
    {
        let mut routed = access;
        match self.mapping_mut(&mut routed) {
            Ok(DeviceKind::Uart) => {
                self.uart.put_byte(routed.addr, data);
                Ok(())
            },
            Ok(DeviceKind::Ram) => {
                self.ram.put_byte(routed.addr, data);
                Ok(())
            },
            Err(e) => Err(e),
        }
    }

    /// Read a full 32-bit little-endian word.
    pub fn read_u32(&self, access: Access) -> (r: Result<u32, Exception>)
        requires
            self.wf(),
        ensures
            bytes_mapped(self@, access.addr as int, 4)
                ==> r == Ok::<u32, Exception>(
                    spec_load_value(self@, access.addr as int, 4, false)),
            !bytes_mapped(self@, access.addr as int, 4)
                ==> r == Err::<u32, Exception>(
                    access_fault_of(access.kind, access.addr)),
    {
        self.read_u32_bytes(access, 4, false)
    }

    /// Read `len` little-endian bytes into a word, sign- or zero-extended.
    /// All bytes must fall inside mapped windows, else the whole access
    /// faults, reporting its first address.
    pub fn read_u32_bytes(&self, access: Access, len: usize, is_signed: bool)
        -> (r: Result<u32, Exception>)
        requires
            self.wf(),
            1 <= len <= 4,
        ensures
            bytes_mapped(self@, access.addr as int, len as int)
                ==> r == Ok::<u32, Exception>(
                    spec_load_value(self@, access.addr as int, len as nat, is_signed)),
            !bytes_mapped(self@, access.addr as int, len as int)
                ==> r == Err::<u32, Exception>(
                    access_fault_of(access.kind, access.addr)),
    {
        if access.addr as u64 + (len as u64 - 1) > 0xffff_ffff {
            proof {
                lemma_high_byte_unmapped(self@, access.addr as int + len - 1);
            }
            return Err(access.to_access_exception());
        }
        proof {
            reveal_with_fuel(pow256, 5);
        }
        let mut i: usize = 0;
        let mut val: u64 = 0;
        while i < len
            invariant
                self.wf(),
                1 <= len <= 4,
                i <= len,
                access.addr + len - 1 <= 0xffff_ffff,
                bytes_mapped(self@, access.addr as int, i as int),
                val == le_bytes_at(self@, access.addr as int, i as nat),
                val < pow256(i as nat),
            decreases len - i,
        {
            let a = Access::new(access.addr + i as u32, access.kind);
            match self.read_byte(a) {
                Ok(b) => {
                    proof {
                        reveal_with_fuel(pow256, 5);
                        lemma_pow256_small(i as nat);
                        vstd::arithmetic::mul::lemma_mul_inequality(
                            b as int, 255, pow256(i as nat));
                        vstd::arithmetic::mul::lemma_mul_inequality(
                            255, 0xff_ffff, pow256(i as nat));
                    }
                    val = val + (b as u64) * le_mult(i);
                },
                Err(_) => {
                    return Err(access.to_access_exception());
                },
            }
            i = i + 1;
        }
        proof {
            reveal_with_fuel(pow256, 5);
        }
        let raw = val as u32;
        if is_signed {
            proof {
                lemma_pow256_pos((len - 1) as nat);
                lemma_div_threshold(val as int, 128, pow256((len - 1) as nat));
            }
            let top = val / le_mult(len - 1);
            if top >= 128 {
                if len == 1 {
                    Ok(raw + 0xffff_ff00)
                } else if len == 2 {
                    Ok(raw + 0xffff_0000)
                } else if len == 3 {
                    Ok(raw + 0xff00_0000)
                } else {
                    Ok(raw)
                }
            } else {
                Ok(raw)
            }
        } else {
            Ok(raw)
        }
    }

    /// Write a full 32-bit little-endian word.
    pub fn write_u32(&mut self, access: Access, data: u32) -> (r: Result<(), Exception>)
        requires
            old(self).wf(),
        ensures
            final(self).wf(),
            final(self).spec_ram_size() == old(self).spec_ram_size(),
            bytes_mapped(old(self)@, access.addr as int, 4)
                ==> r is Ok
                    && final(self)@ =~= spec_store_bytes(old(self)@, access.addr as int, data, 4),
            !bytes_mapped(old(self)@, access.addr as int, 4)
                ==> r == Err::<(), Exception>(access_fault_of(access.kind, access.addr))
                    && final(self)@ =~= old(self)@,
    {
        self.write_u32_bytes(access, data, 4)
    }

    /// Write the low `len` bytes of a word, little-endian, low byte first.
    /// The write happens only when every byte falls inside a mapped window;
    /// otherwise nothing is written and the whole access faults, reporting
    /// its first address.
    pub fn write_u32_bytes(&mut self, access: Access, data: u32, len: usize)
        -> (r: Result<(), Exception>)
        requires
            old(self).wf(),
            1 <= len <= 4,
        ensures
            final(self).wf(),
            final(self).spec_ram_size() == old(self).spec_ram_size(),
            bytes_mapped(old(self)@, access.addr as int, len as int)
                ==> r is Ok
                    && final(self)@ =~= spec_store_bytes(
                        old(self)@, access.addr as int, data, len as nat),
            !bytes_mapped(old(self)@, access.addr as int, len as int)
                ==> r == Err::<(), Exception>(access_fault_of(access.kind, access.addr))
                    && final(self)@ =~= old(self)@,
    {
        if access.addr as u64 + (len as u64 - 1) > 0xffff_ffff {
            proof {
                lemma_high_byte_unmapped(self@, access.addr as int + len - 1);
            }
            return Err(access.to_access_exception());
        }
        let mut i: usize = 0;
        while i < len
            invariant
                self.wf(),
                1 <= len <= 4,
                i <= len,
                access.addr + len - 1 <= 0xffff_ffff,
                bytes_mapped(self@, access.addr as int, i as int),
            decreases len - i,
        {
            let a = Access::new(access.addr + i as u32, access.kind);
            if let Err(_) = self.read_byte(a) {
                return Err(access.to_access_exception());
            }
            i = i + 1;
        }
        let ghost v0 = self@;
        let mut i: usize = 0;
        let mut cur: u32 = data;
        while i < len
            invariant
                self.wf(),
                self.spec_ram_size() == old(self).spec_ram_size(),
                1 <= len <= 4,
                i <= len,
                access.addr + len - 1 <= 0xffff_ffff,
                bytes_mapped(v0, access.addr as int, len as int),
                self@ =~= spec_store_bytes(v0, access.addr as int, data, i as nat),
                cur == data as int / pow256(i as nat),
            decreases len - i,
        {
            proof {
                lemma_store_keeps_windows(v0, access.addr as int, data, i as nat);
                lemma_pow256_pos(i as nat);
                assert(spec_bus_read(v0, access.addr as int + i) is Some);
                assert(spec_bus_read(
                    spec_store_bytes(v0, access.addr as int, data, i as nat),
                    access.addr as int + i) is Some);
            }
            let a = Access::new(access.addr + i as u32, access.kind);
            let b = (cur % 256) as u8;
            match self.write_byte(a, b) {
                Ok(_) => {},
                Err(e) => {
                    proof {
                        assert(false);
                    }
                    return Err(e);
                },
            }
            proof {
                vstd::arithmetic::div_mod::lemma_div_denominator(
                    data as int, pow256(i as nat), 256);
            }
            cur = cur / 256;
            i = i + 1;
        }
        Ok(())
    }

    /// Read `size` bytes from `access.addr` up; all must fall inside mapped
    /// windows, else the whole access faults, reporting its first address.
    pub fn read_bytes(&self, access: Access, size: usize) -> (r: Result<Vec<u8>, Exception>)
        requires
            self.wf(),
        ensures
            match r {
                Ok(bytes) => access.addr + size <= 0x1_0000_0000
                    && bytes_mapped(self@, access.addr as int, size as int)
                    && bytes@.len() == size
                    && forall|i: int| 0 <= i < size
                        ==> Some(#[trigger] bytes@[i])
                            == spec_bus_read(self@, access.addr + i),
                Err(e) => e == access_fault_of(access.kind, access.addr)
                    && !(access.addr + size <= 0x1_0000_0000
                        && bytes_mapped(self@, access.addr as int, size as int)),
            },
    {
        if size > 0 && (size as u64 > 0x1_0000_0000
            || access.addr as u64 + (size as u64 - 1) > 0xffff_ffff) {
            proof {
                lemma_high_byte_unmapped(self@, access.addr as int + size - 1);
            }
            return Err(access.to_access_exception());
        }
        let mut out: Vec<u8> = Vec::new();
        let mut i: usize = 0;
        while i < size
            invariant
                self.wf(),
                i <= size,
                size > 0 ==> access.addr + size <= 0x1_0000_0000,
                out@.len() == i,
                bytes_mapped(self@, access.addr as int, i as int),
                forall|j: int| 0 <= j < i
                    ==> Some(#[trigger] out@[j]) == spec_bus_read(self@, access.addr + j),
            decreases size - i,
        {
            let a = Access::new(access.addr + i as u32, access.kind);
            match self.read_byte(a) {
                Ok(b) => {
                    out.push(b);
                },
                Err(_) => {
                    return Err(access.to_access_exception());
                },
            }
            i = i + 1;
        }
        Ok(out)
    }

    /// Write the first `size` bytes of `src` from `access.addr` up. The
    /// write happens only when every byte falls inside a mapped window;
    /// otherwise nothing is written and the whole access faults, reporting
    /// its first address.
    pub fn write_bytes(&mut self, access: Access, size: usize, src: &Vec<u8>)
        -> (r: Result<(), Exception>)
        requires
            old(self).wf(),
            size <= src@.len(),
        ensures
            final(self).wf(),
            final(self).spec_ram_size() == old(self).spec_ram_size(),
            ({
                let ok = access.addr + size <= 0x1_0000_0000
                    && bytes_mapped(old(self)@, access.addr as int, size as int);
                if ok {
                    r is Ok && final(self)@ =~= spec_place_bytes(
                        old(self)@, access.addr as int, src@.take(size as int))
                } else {
                    r == Err::<(), Exception>(access_fault_of(access.kind, access.addr))
                        && final(self)@ =~= old(self)@
                }
            }),
    {
        if size > 0 && (size as u64 > 0x1_0000_0000
            || access.addr as u64 + (size as u64 - 1) > 0xffff_ffff) {
            proof {
                lemma_high_byte_unmapped(self@, access.addr as int + size - 1);
            }
            return Err(access.to_access_exception());
        }
        let mut i: usize = 0;
        while i < size
            invariant
                self.wf(),
                i <= size,
                size > 0 ==> access.addr + size <= 0x1_0000_0000,
                bytes_mapped(self@, access.addr as int, i as int),
            decreases size - i,
        {
            let a = Access::new(access.addr + i as u32, access.kind);
            if let Err(_) = self.read_byte(a) {
                return Err(access.to_access_exception());
            }
            i = i + 1;
        }
        let ghost v0 = self@;
        let mut i: usize = 0;
        while i < size
            invariant
                self.wf(),
                self.spec_ram_size() == old(self).spec_ram_size(),
                i <= size <= src@.len(),
                size > 0 ==> access.addr + size <= 0x1_0000_0000,
                bytes_mapped(v0, access.addr as int, size as int),
                self@ =~= spec_place_bytes(v0, access.addr as int, src@.take(i as int)),
            decreases size - i,
        {
            proof {
                lemma_place_keeps_windows(v0, access.addr as int, src@.take(i as int));
                assert(spec_bus_read(v0, access.addr as int + i) is Some);
                assert(spec_bus_read(
                    spec_place_bytes(v0, access.addr as int, src@.take(i as int)),
                    access.addr as int + i) is Some);
            }
            let a = Access::new(access.addr + i as u32, access.kind);
            match self.write_byte(a, src[i]) {
                Ok(_) => {},
                Err(e) => {
                    proof {
                        assert(false);
                    }
                    return Err(e);
                },
            }
            proof {
                assert(src@.take((i + 1) as int).drop_last() =~= src@.take(i as int));
            }
            i = i + 1;
        }
        Ok(())
    }

    /// The RAM size, the RAM window base, and the page size.
    pub fn ram_info(&self) -> (r: (usize, u32, usize))
        ensures
            r.0 == self.spec_ram_size(),
            r.1 == DRAM_BASE_ADDR,
            r.2 == PAGE_SIZE,
    {
        (self.ram.size(), DRAM_BASE_ADDR, PAGE_SIZE)
    }

    /// Zero-fill the RAM; the UART keeps its state.
    pub fn reset_ram(&mut self)
        requires
            old(self).wf(),
        ensures
            final(self).wf(),
            final(self).spec_ram_size() == old(self).spec_ram_size(),
            final(self)@.uart == old(self)@.uart,
            forall|i: int| 0 <= i < final(self)@.ram.len() ==> final(self)@.ram[i] == 0,
    {
        self.ram.reset();
    }
}

/// The little-endian place value of byte `i`.
fn le_mult(i: usize) -> (r: u64)
    requires
        i <= 3,
    ensures
        r == pow256(i as nat),
{
    proof {
        reveal_with_fuel(pow256, 5);
    }
    if i == 0 {
        1
    } else if i == 1 {
        0x100
    } else if i == 2 {
        0x1_0000
    } else {
        0x100_0000
    }
}

/// The place values of the four bytes of a word.
proof fn lemma_pow256_small(i: nat)
    requires
        i <= 3,
    ensures
        1 <= pow256(i) <= 0xff_ffff + 1,
{
    reveal_with_fuel(pow256, 5);
    if i == 0 {
    } else if i == 1 {
    } else if i == 2 {
    } else {
        assert(pow256(3) == 0x100_0000);
    }
}

/// Powers of 256 are at least one.
pub proof fn lemma_pow256_pos(n: nat)
    ensures
        pow256(n) >= 1,
    decreases n,
{
    if n > 0 {
        lemma_pow256_pos((n - 1) as nat);
    }
}

/// An address beyond the 32-bit physical space lies outside both windows of
/// a bus whose RAM window fits that space.
proof fn lemma_high_byte_unmapped(v: BusView, addr: int)
    requires
        addr > 0xffff_ffff,
        v.ram.len() <= 0x8000_0000,
    ensures
        spec_bus_read(v, addr) is None,
{
}

/// Dividing by a positive place value reaches a threshold exactly when the
/// value does.
proof fn lemma_div_threshold(x: int, k: int, p: int)
    requires
        x >= 0,
        k >= 0,
        p >= 1,
    ensures
        x / p >= k <==> x >= k * p,
{
    let q = x / p;
    let r = x % p;
    vstd::arithmetic::div_mod::lemma_fundamental_div_mod(x, p);
    vstd::arithmetic::div_mod::lemma_mod_bound(x, p);
    assert(q >= k <==> p * q + r >= k * p) by (nonlinear_arith)
        requires 0 <= r < p && k >= 0;
}

/// Storing bytes neither resizes the RAM nor moves a window: an address is
/// mapped after the store exactly when it was before.
pub proof fn lemma_store_keeps_windows(v: BusView, addr: int, data: u32, len: nat)
    ensures
        spec_store_bytes(v, addr, data, len).ram.len() == v.ram.len(),
        forall|x: int| #[trigger] spec_bus_read(spec_store_bytes(v, addr, data, len), x) is Some
            <==> spec_bus_read(v, x) is Some,
    decreases len,
{
    if len > 0 {
        lemma_store_keeps_windows(v, addr, data, (len - 1) as nat);
    }
}

impl Default for SystemBus {
    /// A bus with the default RAM size.
    fn default() -> (r: Self)
        ensures
            r.wf(),
            r.spec_ram_size() == DEFAULT_RAM_SIZE,
    {
        Self::new(DEFAULT_RAM_SIZE)
    }
}

} // verus!
