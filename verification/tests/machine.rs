use risc_v_emulator::device::bus::{SystemBus, UART_BASE, DRAM_BASE_ADDR};
use risc_v_emulator::exception::Exception;
use risc_v_emulator::hart::access::{Access, VirtAccess, AccessType};
use risc_v_emulator::hart::cpu::Cpu;
use risc_v_emulator::hart::csr::CsrFile;
use risc_v_emulator::hart::mmu::Mmu;
use risc_v_emulator::hart::pc::PC;
use risc_v_emulator::hart::privilege::PrivilegeMode;
use risc_v_emulator::hart::register::RegisterFile;
use risc_v_emulator::isa::privileged::PrivilegeOp;

const RAM: usize = 0x10_0000;

#[test]
// Writes to register 0 are discarded: it always reads zero.
fn register_zero_invariant() {
    let mut regs = RegisterFile::new();
    for v in [1u32, 0xffff_ffff, 42, 0x8000_0000] {
        regs.write(0, v);
        assert_eq!(regs.read(0), 0);
    }
    regs.write(5, 77);
    assert_eq!(regs.read(5), 77);
    assert_eq!(regs.read(0), 0);
    let snap = regs.inspect();
    assert_eq!(snap[0], 0);
    assert_eq!(snap[5], 77);
    let mut it = regs.iter();
    assert_eq!(it.next(), Some(0));
    for _ in 0..4 {
        it.next();
    }
    assert_eq!(it.next(), Some(77));
}

#[test]
fn pc_addressing() {
    let mut pc = PC::new(0x8000_0000);
    assert_eq!(pc.get(), 0x8000_0000);
    pc.step();
    assert_eq!(pc.get(), 0x8000_0004);
    pc.related_addressing(3); // halfword offsets: moves by six bytes
    assert_eq!(pc.get(), 0x8000_000a);
    pc.related_addressing(-3);
    assert_eq!(pc.get(), 0x8000_0004);
    pc.directed_addressing(0x1234_0000);
    assert_eq!(pc.get(), 0x1234_0000);
    pc.reset(0);
    assert_eq!(pc.get(), 0);
}

#[test]
// RAM-window traffic lands only in RAM, UART-window traffic only in the
// UART, and everything outside both windows faults.
fn bus_routing() {
    let mut bus = SystemBus::new(RAM);
    // RAM write and read back
    let wa = Access::new(DRAM_BASE_ADDR + 0x100, AccessType::Store);
    bus.write_u32(wa, 0xdead_beef).unwrap();
    let ra = Access::new(DRAM_BASE_ADDR + 0x100, AccessType::Load);
    assert_eq!(bus.read_u32(ra), Ok(0xdead_beef));
    // the UART saw nothing: its transmit register still reads zero
    let ua = Access::new(UART_BASE, AccessType::Load);
    assert_eq!(bus.read_byte(ua), Ok(0));
    // UART write lands in the transmit register and not in RAM
    let uw = Access::new(UART_BASE, AccessType::Store);
    bus.write_byte(uw, b'x').unwrap();
    assert_eq!(bus.read_byte(ua), Ok(b'x'));
    assert_eq!(bus.read_u32(ra), Ok(0xdead_beef));
    // outside both windows: always a fault, never a silent success
    for bad in [0u32, 0x0fff_ffff, 0x1000_0100, 0x7fff_ffff] {
        let a = Access::new(bad, AccessType::Load);
        assert_eq!(bus.read_byte(a), Err(Exception::LoadAccessFault(bad)));
        let s = Access::new(bad, AccessType::Store);
        assert_eq!(bus.write_byte(s, 1), Err(Exception::StoreAccessFault(bad)));
    }
    // past the end of RAM
    let over = DRAM_BASE_ADDR + RAM as u32;
    let a = Access::new(over, AccessType::Load);
    assert_eq!(bus.read_byte(a), Err(Exception::LoadAccessFault(over)));
}

#[test]
fn bus_byte_widths_and_sign() {
    let mut bus = SystemBus::new(RAM);
    let wa = Access::new(DRAM_BASE_ADDR, AccessType::Store);
    bus.write_u32(wa, 0x1234_8680).unwrap();
    let ra = Access::new(DRAM_BASE_ADDR, AccessType::Load);
    assert_eq!(bus.read_u32_bytes(ra, 1, false), Ok(0x80));
    assert_eq!(bus.read_u32_bytes(ra, 1, true), Ok(0xffff_ff80));
    assert_eq!(bus.read_u32_bytes(ra, 2, false), Ok(0x8680));
    assert_eq!(bus.read_u32_bytes(ra, 2, true), Ok(0xffff_8680));
    assert_eq!(bus.read_u32_bytes(ra, 4, false), Ok(0x1234_8680));
    // a two-byte write touches only the low half
    bus.write_u32_bytes(wa, 0xffff_0102, 2).unwrap();
    assert_eq!(bus.read_u32(ra), Ok(0x1234_0102));
    // uart line status register reports the transmitter ready
    let lsr = Access::new(UART_BASE + 5, AccessType::Load);
    assert_eq!(bus.read_byte(lsr), Ok(0x60));
    let (size, base, page) = bus.ram_info();
    assert_eq!(size, RAM);
    assert_eq!(base, DRAM_BASE_ADDR);
    assert_eq!(page, 4096);
    bus.reset_ram();
    assert_eq!(bus.read_u32(ra), Ok(0));
}

#[test]
// In Machine mode translation is the identity, whatever satp holds.
fn mmu_machine_bypass() {
    let mut bus = SystemBus::new(RAM);
    for satp_root in [None, Some(0x0u32), Some(0x80000), Some(0x3f_ffff)] {
        for addr in [0u32, 0x1234, DRAM_BASE_ADDR, 0xffff_ffff] {
            let acc = VirtAccess::new(addr, AccessType::Store);
            let out = Mmu::translate(acc, PrivilegeMode::Machine, satp_root, &mut bus).unwrap();
            assert_eq!(out.addr, addr);
        }
    }
    // paging disabled below Machine mode bypasses too
    let acc = VirtAccess::new(0x42, AccessType::Load);
    let out = Mmu::translate(acc, PrivilegeMode::Supervisor, None, &mut bus).unwrap();
    assert_eq!(out.addr, 0x42);
}

/// A bus with a two-level mapping of virtual page 0x0040_0000 installed:
/// the root table lives at the start of RAM, the level-0 table one page up,
/// and the leaf maps physical page 0x8000_2000 with the given flags.
fn paged_bus(leaf_flags: u32) -> (SystemBus, u32) {
    let mut bus = SystemBus::new(RAM);
    let root_ppn: u32 = 0x80000; // table at physical 0x8000_0000
    // level-1 entry 1 (for vpn1 == 1): points at the table in page 0x80001
    let pte1 = (0x80001u32 << 10) | 1;
    let a1 = Access::new(0x8000_0004, AccessType::Store);
    bus.write_u32(a1, pte1).unwrap();
    // level-0 entry 0: leaf for physical page 0x80002
    let pte0 = (0x80002u32 << 10) | leaf_flags;
    let a0 = Access::new(0x8000_1000, AccessType::Store);
    bus.write_u32(a0, pte0).unwrap();
    (bus, root_ppn)
}

#[test]
fn mmu_two_level_walk() {
    let (mut bus, root) = paged_bus(0x0f); // valid, readable, writable, executable
    let va = 0x0040_0123u32;
    let acc = VirtAccess::new(va, AccessType::Load);
    let out = Mmu::translate(acc, PrivilegeMode::Supervisor, Some(root), &mut bus).unwrap();
    assert_eq!(out.addr, 0x8000_2123);
}

#[test]
// A leaf carrying write-without-read is reserved and must fault whatever
// the access type.
fn mmu_reserved_combination_faults() {
    for kind in [AccessType::Load, AccessType::Store, AccessType::Fetch] {
        let (mut bus, root) = paged_bus(0x05); // valid, write without read
        let va = 0x0040_0000u32;
        let acc = VirtAccess::new(va, kind);
        let r = Mmu::translate(acc, PrivilegeMode::Supervisor, Some(root), &mut bus);
        let expected = match kind {
            AccessType::Load => Exception::LoadPageFault(va),
            AccessType::Store => Exception::StoreOrAmoPageFault(va),
            AccessType::Fetch => Exception::InstructionPageFault(va),
        };
        assert_eq!(r, Err(expected));
    }
}

#[test]
fn mmu_permission_faults() {
    // store against a read-only leaf
    let (mut bus, root) = paged_bus(0x03); // valid, readable
    let va = 0x0040_0000u32;
    let acc = VirtAccess::new(va, AccessType::Store);
    let r = Mmu::translate(acc, PrivilegeMode::Supervisor, Some(root), &mut bus);
    assert_eq!(r, Err(Exception::StoreOrAmoPageFault(va)));
    // user code against a supervisor-only leaf
    let (mut bus, root) = paged_bus(0x0f); // no user bit
    let acc = VirtAccess::new(va, AccessType::Load);
    let r = Mmu::translate(acc, PrivilegeMode::User, Some(root), &mut bus);
    assert_eq!(r, Err(Exception::LoadPageFault(va)));
    // an invalid entry
    let (mut bus, root) = paged_bus(0x0e); // leaf bits without the valid bit
    let acc = VirtAccess::new(va, AccessType::Load);
    let r = Mmu::translate(acc, PrivilegeMode::Supervisor, Some(root), &mut bus);
    assert_eq!(r, Err(Exception::LoadPageFault(va)));
}

#[test]
// Translating the same store twice sets the accessed and dirty flags
// exactly once: the second walk resolves the same address and writes
// nothing back.
fn mmu_accessed_dirty_idempotent() {
    let (mut bus, root) = paged_bus(0x07); // valid, readable, writable
    let va = 0x0040_0040u32;
    let pte0_addr = Access::new(0x8000_1000, AccessType::Load);

    let acc = VirtAccess::new(va, AccessType::Store);
    let out1 = Mmu::translate(acc, PrivilegeMode::Supervisor, Some(root), &mut bus).unwrap();
    assert_eq!(out1.addr, 0x8000_2040);
    let pte_after_first = bus.read_u32(pte0_addr).unwrap();
    // accessed (bit 6) and dirty (bit 7) now set
    assert_eq!(pte_after_first, (0x80002u32 << 10) | 0xc7);

    let acc = VirtAccess::new(va, AccessType::Store);
    let out2 = Mmu::translate(acc, PrivilegeMode::Supervisor, Some(root), &mut bus).unwrap();
    assert_eq!(out2.addr, out1.addr);
    let pte_after_second = bus.read_u32(pte0_addr).unwrap();
    assert_eq!(pte_after_second, pte_after_first);
}

#[test]
fn mmu_superpage() {
    let mut bus = SystemBus::new(RAM);
    // map virtual 4 MiB region at 0x8040_0000 onto physical 0x8000_0000:
    // vpn1 == 0x201, aligned leaf with ppn 0x80000
    let pte1 = (0x80000u32 << 10) | 0x0b; // valid, readable, executable
    let a1 = Access::new(0x8000_0000 + 0x201 * 4, AccessType::Store);
    bus.write_u32(a1, pte1).unwrap();
    let va = 0x8040_0008u32;
    let acc = VirtAccess::new(va, AccessType::Fetch);
    let out = Mmu::translate(acc, PrivilegeMode::Supervisor, Some(0x80000), &mut bus).unwrap();
    assert_eq!(out.addr, 0x8000_0008);
    // a misaligned superpage (page number with low bits set) faults
    let bad = ((0x80000u32 | 1) << 10) | 0x0b;
    bus.write_u32(Access::new(0x8000_0000 + 0x201 * 4, AccessType::Store), bad).unwrap();
    let acc = VirtAccess::new(va, AccessType::Fetch);
    let r = Mmu::translate(acc, PrivilegeMode::Supervisor, Some(0x80000), &mut bus);
    assert_eq!(r, Err(Exception::InstructionPageFault(va)));
}

#[test]
// Any exception raised at PC p: after entry the saved PC is p, the mode is
// the delegation target and the PC sits at the vector base; the matching
// return restores both.
fn trap_round_trip() {
    // to Machine, no delegation
    let mut csrs = CsrFile::new();
    csrs.set(risc_v_emulator::isa::csr_addr::CsrAddr::Mtvec, 0x8000_0101);
    let p = 0x8000_4000u32;
    let (mode, vector) = csrs.trap_entry(p, Exception::IllegalInstruction(7), PrivilegeMode::User);
    assert_eq!(mode, PrivilegeMode::Machine);
    assert_eq!(vector, 0x8000_0100); // the vector base masks the mode bits
    assert_eq!(csrs.get(risc_v_emulator::isa::csr_addr::CsrAddr::Mepc), p);
    assert_eq!(csrs.get(risc_v_emulator::isa::csr_addr::CsrAddr::Mcause), 2);
    let (back_mode, back_pc) = csrs.trap_return(PrivilegeOp::Mret);
    assert_eq!(back_mode, PrivilegeMode::User);
    assert_eq!(back_pc, p);

    // delegated to Supervisor: the medeleg bit for the cause is set
    let mut csrs = CsrFile::new();
    csrs.set(risc_v_emulator::isa::csr_addr::CsrAddr::Stvec, 0x8000_0200);
    csrs.set(risc_v_emulator::isa::csr_addr::CsrAddr::Medeleg, 1 << 13);
    let (mode, vector) =
        csrs.trap_entry(p, Exception::LoadPageFault(0x44), PrivilegeMode::Supervisor);
    assert_eq!(mode, PrivilegeMode::Supervisor);
    assert_eq!(vector, 0x8000_0200);
    assert_eq!(csrs.get(risc_v_emulator::isa::csr_addr::CsrAddr::Sepc), p);
    assert_eq!(csrs.get(risc_v_emulator::isa::csr_addr::CsrAddr::Scause), 13);
    let (back_mode, back_pc) = csrs.trap_return(PrivilegeOp::Sret);
    assert_eq!(back_mode, PrivilegeMode::Supervisor);
    assert_eq!(back_pc, p);

    // delegation never applies from Machine mode itself
    let mut csrs = CsrFile::new();
    csrs.set(risc_v_emulator::isa::csr_addr::CsrAddr::Medeleg, 0xffff_ffff);
    let (mode, _) = csrs.trap_entry(p, Exception::Breakpoint, PrivilegeMode::Machine);
    assert_eq!(mode, PrivilegeMode::Machine);
    let (back_mode, _) = csrs.trap_return(PrivilegeOp::Mret);
    assert_eq!(back_mode, PrivilegeMode::Machine);
}

#[test]
fn csr_access_rules() {
    let mut csrs = CsrFile::new();
    // a user-mode access to a machine CSR is refused
    assert_eq!(csrs.read_csr(0x300, PrivilegeMode::User), None);
    assert_eq!(csrs.read_csr(0x300, PrivilegeMode::Machine), Some(0));
    // a wholly nonexistent address is refused outright
    assert_eq!(csrs.read_csr(0x123, PrivilegeMode::Machine), None);
    // a read-only register refuses writes but serves reads
    assert_eq!(csrs.write_csr(0xf14, 5, PrivilegeMode::Machine), None);
    assert_eq!(csrs.read_csr(0xf14, PrivilegeMode::Machine), Some(0));
    // an ordinary write lands
    assert_eq!(csrs.write_csr(0x180, 0x8008_0000, PrivilegeMode::Supervisor), Some(()));
    assert_eq!(csrs.read_csr(0x180, PrivilegeMode::Supervisor), Some(0x8008_0000));
    assert_eq!(csrs.check_satp(), Some(0x8_0000));
    csrs.set(risc_v_emulator::isa::csr_addr::CsrAddr::Satp, 0x0008_0000);
    assert_eq!(csrs.check_satp(), None); // paging disabled without the mode bit
}

#[test]
// A short program through the whole cycle: immediate arithmetic, a store, a
// load, and the uniform +4 retirement.
fn cpu_runs_a_program() {
    let mut cpu = Cpu::new(RAM);
    let program: Vec<u32> = vec![
        0x00500093, // addi x1, x0, 5
        0x00308113, // addi x2, x1, 3
        0x800001b7, // lui x3, 0x80000
        0x1011a023, // sw x1, 256(x3)
        0x1001a203, // lw x4, 256(x3)
    ];
    let mut image: Vec<u8> = Vec::new();
    for w in &program {
        image.extend_from_slice(&w.to_le_bytes());
    }
    cpu.load(DRAM_BASE_ADDR, &image).unwrap();
    cpu.set_pc(DRAM_BASE_ADDR);
    assert_eq!(cpu.inspect_mem(DRAM_BASE_ADDR, 4), vec![0x93, 0x00, 0x50, 0x00]);
    for _ in 0..program.len() {
        assert_eq!(cpu.cycle(), Ok(()));
    }
    let regs = cpu.inspect_regs();
    assert_eq!(regs[1], 5);
    assert_eq!(regs[2], 8);
    assert_eq!(regs[3], 0x8000_0000);
    assert_eq!(regs[4], 5);
    assert_eq!(cpu.inspect_pc(), DRAM_BASE_ADDR + 20);
    assert_eq!(cpu.inspect_mem(DRAM_BASE_ADDR + 256, 4), vec![5, 0, 0, 0]);
}

#[test]
// An environment call traps: the cause, the saved PC and the redirected PC
// are all architectural; the loop keeps running afterwards.
fn cpu_ecall_traps() {
    let mut cpu = Cpu::new(RAM);
    // mtvec := 0x8000_0100 via csrrw x0, mtvec, x1
    let program: Vec<u32> = vec![
        0x801000b7, // lui x1, 0x80100
        0x30509073, // csrrw x0, mtvec, x1 -- vector far above the program
        0x00000073, // ecall (from Machine mode)
    ];
    let mut image: Vec<u8> = Vec::new();
    for w in &program {
        image.extend_from_slice(&w.to_le_bytes());
    }
    cpu.load(DRAM_BASE_ADDR, &image).unwrap();
    cpu.set_pc(DRAM_BASE_ADDR);
    cpu.run(3).unwrap();
    assert_eq!(cpu.inspect_pc(), 0x8010_0000);
    let csrs = cpu.inspect_csrs();
    let find = |name: risc_v_emulator::isa::csr_addr::CsrAddr| {
        csrs.iter().find(|e| e.0 == name).unwrap().1
    };
    assert_eq!(find(risc_v_emulator::isa::csr_addr::CsrAddr::Mcause), 11);
    assert_eq!(find(risc_v_emulator::isa::csr_addr::CsrAddr::Mepc), DRAM_BASE_ADDR + 8);
}

#[test]
// Branches steer the PC; everything else falls through by four.
fn cpu_branches_and_jumps() {
    let mut cpu = Cpu::new(RAM);
    let program: Vec<u32> = vec![
        0x00500093, // addi x1, x0, 5
        0x00100113, // addi x2, x0, 1
        0x00208463, // beq x1, x2, +8 (not taken)
        0x00000013, // addi x0, x0, 0 (nop)
        0x008000ef, // jal x1, +8
        0x00000013, // nop (skipped)
        0x06300193, // addi x3, x0, 99
    ];
    let mut image: Vec<u8> = Vec::new();
    for w in &program {
        image.extend_from_slice(&w.to_le_bytes());
    }
    cpu.load(DRAM_BASE_ADDR, &image).unwrap();
    cpu.set_pc(DRAM_BASE_ADDR);
    cpu.run(6).unwrap();
    let regs = cpu.inspect_regs();
    assert_eq!(regs[3], 99);
    assert_eq!(regs[1], DRAM_BASE_ADDR + 20); // the link register from jal
}

#[test]
fn cpu_reset_and_bss() {
    let mut cpu = Cpu::new(RAM);
    let image = vec![1u8, 2, 3, 4];
    cpu.load(DRAM_BASE_ADDR + 64, &image).unwrap();
    cpu.set_mem_zero(DRAM_BASE_ADDR + 64, 2).unwrap();
    assert_eq!(cpu.inspect_mem(DRAM_BASE_ADDR + 64, 4), vec![0, 0, 3, 4]);
    // a load outside every window fails as a host error
    assert_eq!(cpu.load(0x100, &image), Err(risc_v_emulator::error::RiscVError::LoadFailed));
    assert_eq!(
        cpu.set_mem_zero(0x100, 4),
        Err(risc_v_emulator::error::RiscVError::BssInitFailed)
    );
    cpu.set_pc(0x1234);
    cpu.reset();
    assert_eq!(cpu.inspect_pc(), 0);
    assert_eq!(cpu.inspect_mem(DRAM_BASE_ADDR + 64, 4), vec![0, 0, 0, 0]);
}

#[test]
fn bus_blob_reads() {
    let mut bus = SystemBus::new(RAM);
    let wa = Access::new(DRAM_BASE_ADDR + 8, AccessType::Store);
    bus.write_bytes(wa, 3, &vec![10, 20, 30]).unwrap();
    let ra = Access::new(DRAM_BASE_ADDR + 8, AccessType::Load);
    assert_eq!(bus.read_bytes(ra, 3), Ok(vec![10, 20, 30]));
    // a run leaking past the window fails whole: nothing was written
    let edge = DRAM_BASE_ADDR + RAM as u32 - 1;
    let wa = Access::new(edge, AccessType::Store);
    assert_eq!(
        bus.write_bytes(wa, 2, &vec![1, 2]),
        Err(Exception::StoreAccessFault(edge))
    );
    let ra = Access::new(edge, AccessType::Load);
    assert_eq!(bus.read_bytes(ra, 1), Ok(vec![0]));
}

#[test]
// The BSS fill is byte-by-byte: when it runs off the end of RAM it fails,
// but the bytes it already reached are zeroed.
fn bss_fill_partial_failure() {
    let mut cpu = Cpu::new(RAM);
    let edge = DRAM_BASE_ADDR + RAM as u32 - 2;
    cpu.load(edge, &vec![7, 7]).unwrap();
    assert_eq!(
        cpu.set_mem_zero(edge, 4),
        Err(risc_v_emulator::error::RiscVError::BssInitFailed)
    );
    // the two bytes still inside RAM were zeroed before the failure
    assert_eq!(cpu.inspect_mem(edge, 2), vec![0, 0]);
}
