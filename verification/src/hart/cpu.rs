//! The CPU orchestrator: owns all mutable hart state and drives the
//! fetch → translate → decode → execute → trap cycle. Architectural
//! exceptions never end a run — they redirect it through trap entry.

use vstd::prelude::*;
use crate::error::RiscVError;
use crate::exception::Exception;
use crate::device::bus::{
    SystemBus, BusView, bytes_mapped, spec_load_value, spec_place_bytes, spec_bus_read,
    mapped_prefix, lemma_mapped_prefix_is, lemma_place_keeps_windows, DEFAULT_RAM_SIZE,
};
use crate::engine::alu::{Alu, spec_op_imm, spec_op_reg};
use crate::engine::branch::{branch, spec_branch};
use crate::engine::lsu::{Lsu, spec_lsu_load, spec_lsu_store};
use crate::hart::access::{Access, VirtAccess, AccessType};
use crate::hart::csr::{
    CsrFile, spec_satp_root, spec_trap_entry, spec_trap_return, spec_zicsr, spec_csr_listing,
};
use crate::hart::mmu::{Mmu, spec_translate};
use crate::hart::pc::PC;
use crate::hart::privilege::PrivilegeMode;
use crate::hart::register::RegisterFile;
use crate::isa::csr_addr::CsrAddr;
use crate::isa::decoder::{decode, spec_decode, lemma_decode_total};
use crate::isa::instruction::Instruction;
use crate::isa::privileged::{PrivilegeOp, spec_privilege_op};
use crate::isa::types::Itype;
use crate::isa::zicsr::{ZicsrOp, spec_zicsr_op};
use crate::word::wrap32;

verus! {

/// The instruction-set extensions the decoder and dispatcher accept beyond
/// the base set. A structurally valid encoding of a disabled extension is an
/// illegal instruction, never a silent execution.
#[derive(Debug, Clone, Copy, PartialEq, Eq, Structural)]
pub struct Extensions {
    pub m: bool,
    pub zicsr: bool,
    pub zifencei: bool,
}

impl Default for Extensions {
    /// Every supported extension enabled.
    fn default() -> (r: Self)
        ensures
            r == (Extensions { m: true, zicsr: true, zifencei: true }),
    {
        Extensions { m: true, zicsr: true, zifencei: true }
    }
}

/// The register file after a write: unchanged for destination zero.
pub open spec fn reg_written(regs: Seq<u32>, rd: u8, v: u32) -> Seq<u32> {
    if rd == 0 {
        regs
    } else {
        regs.update(rd as int, v)
    }
}

/// Whether every register id the instruction carries is in range.
pub open spec fn ins_wf(ins: Instruction) -> bool {
    match ins {
        Instruction::Itype(p) => p.rd < 32 && p.rs1 < 32,
        Instruction::ItypeLoad(p) => p.rd < 32 && p.rs1 < 32,
        Instruction::ItypeJump(p) => p.rd < 32 && p.rs1 < 32,
        Instruction::ItypeSys(p) => p.rd < 32 && p.rs1 < 32,
        Instruction::ItypeFence(p) => p.rd < 32 && p.rs1 < 32,
        Instruction::Rtype(p) => p.rd < 32 && p.rs1 < 32 && p.rs2 < 32,
        Instruction::Stype(p) => p.rs1 < 32 && p.rs2 < 32,
        Instruction::Btype(p) => p.rs1 < 32 && p.rs2 < 32,
        Instruction::UtypeAUIPC(p) => p.rd < 32,
        Instruction::UtypeLUI(p) => p.rd < 32,
        Instruction::Jtype(p) => p.rd < 32,
    }
}

/// The widths and signedness of the load operations, by funct3.
pub open spec fn spec_load_width(funct3: u8) -> Option<(nat, bool)> {
    if funct3 == 0 { Some((1nat, true)) }
    else if funct3 == 1 { Some((2nat, true)) }
    else if funct3 == 2 { Some((4nat, false)) }
    else if funct3 == 4 { Some((1nat, false)) }
    else if funct3 == 5 { Some((2nat, false)) }
    else { None }
}

/// The widths of the store operations, by funct3.
pub open spec fn spec_store_width(funct3: u8) -> Option<nat> {
    if funct3 == 0 { Some(1nat) }
    else if funct3 == 1 { Some(2nat) }
    else if funct3 == 2 { Some(4nat) }
    else { None }
}

/// The raw encoding of the environment-call instruction.
pub const ECALL_WORD: u32 = 0x0000_0073;

/// The raw encoding of the breakpoint instruction.
pub const EBREAK_WORD: u32 = 0x0010_0073;

/// The environment-call exception for the mode the call is made from.
pub open spec fn spec_ecall_exception(mode: PrivilegeMode) -> Exception {
    match mode {
        PrivilegeMode::User => Exception::EnvironmentCallFromUMode,
        PrivilegeMode::Supervisor => Exception::EnvironmentCallFromSMode,
        PrivilegeMode::Machine => Exception::EnvironmentCallFromMMode,
    }
}

/// Whether the instruction, executed in this state, sets the PC itself: a
/// jump, a taken branch, or a trap return. Everything else that retires
/// normally falls through to the next sequential instruction.
pub open spec fn spec_redirects(cpu: Cpu, ins: Instruction, raw: u32) -> bool {
    match ins {
        Instruction::Jtype(_) => true,
        Instruction::ItypeJump(_) => true,
        Instruction::Btype(p) => spec_branch(
            cpu.regs@[p.rs1 as int], cpu.regs@[p.rs2 as int], p.funct3) == Some(true),
        Instruction::ItypeSys(_) => spec_privilege_op(raw) is Some,
        _ => false,
    }
}

/// Everything a fetch does: refuse a misaligned PC, translate it, and read
/// the word; a bus fault on the fetched word reports the virtual PC.
pub open spec fn spec_fetch(v: BusView, mode: PrivilegeMode, satp: u32, pc: u32)
    -> (Result<u32, Exception>, BusView) {
    if pc % 4 != 0 {
        (Err(Exception::InstructionAddressMisaligned), v)
    } else {
        let (t, v2) = spec_translate(v, mode, spec_satp_root(satp), pc, AccessType::Fetch);
        match t {
            Err(e) => (Err(e), v2),
            Ok(pa) => {
                if bytes_mapped(v2, pa as int, 4) {
                    (Ok(spec_load_value(v2, pa as int, 4, false)), v2)
                } else {
                    (Err(Exception::InstructionAccessFault(pc)), v2)
                }
            },
        }
    }
}

/// The hart state a contract sees: the privilege mode, the register
/// contents, the PC, the CSR file, the bus contents and the enabled
/// extensions.
#[verifier::ext_equal]
pub struct CpuView {
    pub mode: PrivilegeMode,
    pub regs: Seq<u32>,
    pub pc: u32,
    pub csrs: CsrFile,
    pub bus: BusView,
    pub ext: Extensions,
}

/// Everything executing one decoded instruction does: the result and the
/// hart state afterwards. Each class is defined by its unit's functional
/// spec; an instruction that raises an exception changes nothing but the
/// bus (which may carry the accessed/dirty writeback of a failed walk).
pub open spec fn spec_execute(o: CpuView, ins: Instruction, raw: u32)
    -> (Result<(), Exception>, CpuView) {
    let stepped = wrap32(o.pc + 4);
    let illegal = Err::<(), Exception>(Exception::IllegalInstruction(raw));
    match ins {
        Instruction::Itype(p) => match spec_op_imm(o.regs[p.rs1 as int], p.funct3, p.imm) {
            Some(v) => (Ok(()), CpuView { regs: reg_written(o.regs, p.rd, v), pc: stepped, ..o }),
            None => (illegal, o),
        },
        Instruction::Rtype(p) => match spec_op_reg(o.regs[p.rs1 as int], o.regs[p.rs2 as int],
            p.funct3, p.funct7, o.ext.m) {
            Some(v) => (Ok(()), CpuView { regs: reg_written(o.regs, p.rd, v), pc: stepped, ..o }),
            None => (illegal, o),
        },
        Instruction::ItypeLoad(p) => match spec_load_width(p.funct3) {
            None => (illegal, o),
            Some((num, sgn)) => {
                let (res, v2) = spec_lsu_load(
                    o.bus, o.regs[p.rs1 as int], p.imm, num, sgn,
                    o.mode, spec_satp_root(o.csrs.satp));
                match res {
                    Ok(val) => (Ok(()), CpuView {
                        regs: reg_written(o.regs, p.rd, val), pc: stepped, bus: v2, ..o
                    }),
                    Err(e) => (Err(e), CpuView { bus: v2, ..o }),
                }
            },
        },
        Instruction::Stype(p) => match spec_store_width(p.funct3) {
            None => (illegal, o),
            Some(num) => {
                let (res, v2) = spec_lsu_store(
                    o.bus, o.regs[p.rs1 as int], o.regs[p.rs2 as int], p.imm, num,
                    o.mode, spec_satp_root(o.csrs.satp));
                match res {
                    Ok(_) => (Ok(()), CpuView { pc: stepped, bus: v2, ..o }),
                    Err(e) => (Err(e), CpuView { bus: v2, ..o }),
                }
            },
        },
        Instruction::Btype(p) => match spec_branch(o.regs[p.rs1 as int],
            o.regs[p.rs2 as int], p.funct3) {
            Some(taken) => (Ok(()), CpuView {
                pc: if taken { wrap32(o.pc + p.imm) } else { stepped }, ..o
            }),
            None => (illegal, o),
        },
        Instruction::UtypeLUI(p) => (Ok(()), CpuView {
            regs: reg_written(o.regs, p.rd, p.imm), pc: stepped, ..o
        }),
        Instruction::UtypeAUIPC(p) => (Ok(()), CpuView {
            regs: reg_written(o.regs, p.rd, wrap32(o.pc + p.imm)), pc: stepped, ..o
        }),
        Instruction::Jtype(p) => (Ok(()), CpuView {
            regs: reg_written(o.regs, p.rd, stepped), pc: wrap32(o.pc + p.imm), ..o
        }),
        Instruction::ItypeJump(p) => {
            if p.funct3 == 0 {
                (Ok(()), CpuView {
                    regs: reg_written(o.regs, p.rd, stepped),
                    pc: wrap32(o.regs[p.rs1 as int] + p.imm) & 0xffff_fffe,
                    ..o
                })
            } else {
                (illegal, o)
            }
        },
        Instruction::ItypeFence(p) => {
            if p.funct3 == 0 || (p.funct3 == 1 && o.ext.zifencei) {
                (Ok(()), CpuView { pc: stepped, ..o })
            } else {
                (illegal, o)
            }
        },
        Instruction::ItypeSys(p) => {
            if raw == ECALL_WORD {
                (Err(spec_ecall_exception(o.mode)), o)
            } else if raw == EBREAK_WORD {
                (Err(Exception::Breakpoint), o)
            } else if spec_privilege_op(raw) is Some {
                let (m2, pc2) = spec_trap_return(o.csrs, spec_privilege_op(raw)->0);
                (Ok(()), CpuView { mode: m2, pc: pc2, ..o })
            } else if !o.ext.zicsr {
                (illegal, o)
            } else {
                match spec_zicsr_op(p.funct3) {
                    None => (illegal, o),
                    Some(op) => {
                        let csr_addr = wrap32(p.imm as int) & 0xfff;
                        let src = (if op is Csrrwi || op is Csrrsi || op is Csrrci {
                            p.rs1 as u32
                        } else {
                            o.regs[p.rs1 as int]
                        });
                        match spec_zicsr(o.csrs, o.mode, op, csr_addr, src) {
                            None => (illegal, o),
                            Some((c2, oldv)) => (Ok(()), CpuView {
                                csrs: c2,
                                regs: reg_written(o.regs, p.rd, oldv),
                                pc: stepped,
                                ..o
                            }),
                        }
                    },
                }
            }
        },
    }
}

/// Everything one fetch/decode/execute pass does: the raised exception or
/// success, and the hart state afterwards.
pub open spec fn spec_cycle(o: CpuView) -> (Result<(), Exception>, CpuView) {
    let (fr, v1) = spec_fetch(o.bus, o.mode, o.csrs.satp, o.pc);
    match fr {
        Err(e) => (Err(e), CpuView { bus: v1, ..o }),
        Ok(w) => match spec_decode(w) {
            Err(_) => (Err(Exception::IllegalInstruction(w)), CpuView { bus: v1, ..o }),
            Ok(ins) => spec_execute(CpuView { bus: v1, ..o }, ins, w),
        },
    }
}

/// Everything one step of the steady-state loop does: the cycle runs, and
/// an exception it raises is handed to trap entry, which saves the faulting
/// PC and cause and redirects the PC and privilege mode.
pub open spec fn spec_step(o: CpuView) -> CpuView {
    let (r, c) = spec_cycle(o);
    match r {
        Ok(_) => c,
        Err(e) => {
            let (c2, m2, vec) = spec_trap_entry(c.csrs, c.pc, e, c.mode);
            CpuView { csrs: c2, mode: m2, pc: vec, ..c }
        },
    }
}

/// The hart state after the step relation is applied `steps` times.
pub open spec fn spec_run(o: CpuView, steps: nat) -> CpuView
    decreases steps,
{
    if steps == 0 {
        o
    } else {
        spec_step(spec_run(o, (steps - 1) as nat))
    }
}

/// A single 32-bit RISC-V hart: privilege mode, registers, program counter,
/// CSR file and the device bus, driven by `step`.
#[derive(Debug, Clone, PartialEq)]
pub struct Cpu {
    pub mode: PrivilegeMode,
    pub regs: RegisterFile,
    pub pc: PC,
    pub csrs: CsrFile,
    pub bus: SystemBus,
    pub ext: Extensions,
}

impl View for Cpu {
    type V = CpuView;

    open spec fn view(&self) -> CpuView {
        CpuView {
            mode: self.mode,
            regs: self.regs@,
            pc: self.pc@,
            csrs: self.csrs,
            bus: self.bus@,
            ext: self.ext,
        }
    }
}

impl Cpu {
    /// The hart's structural invariant: register 0 reads zero and the bus's
    /// RAM is well formed.
    pub open spec fn wf(&self) -> bool {
        self.regs.wf() && self.bus.wf()
    }

    /// A hart out of reset: Machine mode, zeroed state, a zero-filled RAM of
    /// `ram_size` bytes, and every extension enabled.
    pub fn new(ram_size: usize) -> (r: Self)
        requires
            ram_size <= 0x8000_0000,
        ensures
            r.wf(),
            r.mode == PrivilegeMode::Machine,
            r.pc@ == 0,
            r.csrs == CsrFile::spec_reset(),
            r.bus.spec_ram_size() == ram_size,
            forall|i: int| 0 <= i < ram_size ==> r.bus@.ram[i] == 0,
            forall|i: int| 0 <= i < 32 ==> r.regs@[i] == 0,
            r.ext == (Extensions { m: true, zicsr: true, zifencei: true }),
    {
        Cpu {
            mode: PrivilegeMode::Machine,
            regs: RegisterFile::new(),
            pc: PC::new(0),
            csrs: CsrFile::new(),
            bus: SystemBus::new(ram_size),
            ext: Extensions { m: true, zicsr: true, zifencei: true },
        }
    }

    /// Place a program image at a physical address. The image lands whole or
    /// not at all: any byte outside the bus windows fails the load.
    pub fn load(&mut self, addr: u32, data: &Vec<u8>) -> (r: Result<(), RiscVError>)
        requires
            old(self).wf(),
        ensures
            final(self).wf(),
            final(self).bus.spec_ram_size() == old(self).bus.spec_ram_size(),
            final(self).pc@ == old(self).pc@,
            final(self).regs@ == old(self).regs@,
            final(self).mode == old(self).mode,
            final(self).csrs == old(self).csrs,
            final(self).ext == old(self).ext,
            ({
                let ok = addr + data@.len() <= 0x1_0000_0000
                    && bytes_mapped(old(self).bus@, addr as int, data@.len() as int);
                if ok {
                    r is Ok && final(self).bus@ =~= spec_place_bytes(
                        old(self).bus@, addr as int, data@)
                } else {
                    r == Err::<(), RiscVError>(RiscVError::LoadFailed)
                        && final(self).bus@ =~= old(self).bus@
                }
            }),
    {
        let access = Access::new(addr, AccessType::Store);
        let n = data.len();
        if self.bus.write_bytes(access, n, data).is_err() {
            Err(RiscVError::LoadFailed)
        } else {
            proof {
                assert(data@.take(n as int) =~= data@);
            }
            Ok(())
        }
    }

    /// Point the PC at the program entry.
    pub fn set_pc(&mut self, entry: u32)
        ensures
            *final(self) == (Cpu { pc: final(self).pc, ..*old(self) }),
            final(self).pc@ == entry,
    {
        self.pc.reset(entry);
    }

    /// Zero-fill a region (the BSS), byte by byte from the start. The fill
    /// stops at the first byte outside the bus windows (or outside the
    /// 32-bit space): the bytes before it are already zeroed when the
    /// failure is reported.
    pub fn set_mem_zero(&mut self, addr: u32, size: usize) -> (r: Result<(), RiscVError>)
        requires
            old(self).wf(),
        ensures
            final(self).wf(),
            final(self).bus.spec_ram_size() == old(self).bus.spec_ram_size(),
            final(self).pc@ == old(self).pc@,
            final(self).regs@ == old(self).regs@,
            final(self).mode == old(self).mode,
            final(self).csrs == old(self).csrs,
            final(self).ext == old(self).ext,
            ({
                let n = mapped_prefix(old(self).bus@, addr as int, size as nat);
                &&& final(self).bus@ =~= spec_place_bytes(
                    old(self).bus@, addr as int, Seq::new(n, |k: int| 0u8))
                &&& (n == size ==> r == Ok::<(), RiscVError>(()))
                &&& (n < size ==> r == Err::<(), RiscVError>(RiscVError::BssInitFailed))
            }),
    {
        let ghost v0 = self.bus@;
        let mut i: usize = 0;
        while i < size
            invariant
                self.wf(),
                self.bus.spec_ram_size() == old(self).bus.spec_ram_size(),
                self.pc@ == old(self).pc@,
                self.regs@ == old(self).regs@,
                self.mode == old(self).mode,
                self.csrs == old(self).csrs,
                self.ext == old(self).ext,
                i <= size,
                v0 == old(self).bus@,
                self.bus@ =~= spec_place_bytes(v0, addr as int, Seq::new(i as nat, |k: int| 0u8)),
                forall|j: int| 0 <= j < i ==> addr + j <= 0xffff_ffff
                    && (#[trigger] spec_bus_read(v0, addr + j)) is Some,
            decreases size - i,
        {
            if i as u64 > 0xffff_ffff || (addr as u64) + (i as u64) > 0xffff_ffff {
                proof {
                    lemma_mapped_prefix_is(v0, addr as int, size as nat, i as nat);
                }
                return Err(RiscVError::BssInitFailed);
            }
            proof {
                lemma_place_keeps_windows(v0, addr as int, Seq::new(i as nat, |k: int| 0u8));
            }
            let a = Access::new(addr + i as u32, AccessType::Store);
            match self.bus.write_byte(a, 0) {
                Ok(_) => {},
                Err(_) => {
                    proof {
                        assert(spec_bus_read(self.bus@, addr + i) is None);
                        lemma_mapped_prefix_is(v0, addr as int, size as nat, i as nat);
                    }
                    return Err(RiscVError::BssInitFailed);
                },
            }
            proof {
                assert(Seq::new((i + 1) as nat, |k: int| 0u8).drop_last()
                    =~= Seq::new(i as nat, |k: int| 0u8));
            }
            i = i + 1;
        }
        proof {
            lemma_mapped_prefix_is(v0, addr as int, size as nat, size as nat);
        }
        Ok(())
    }

    /// Step the cycle `steps` times: the post-state is the `steps`-fold of
    /// the step relation. Architectural exceptions are absorbed by trap
    /// entry; no host-level failure arises from stepping.
    pub fn run(&mut self, steps: u32) -> (r: Result<(), RiscVError>)
        requires
            old(self).wf(),
        ensures
            final(self).wf(),
            final(self).bus.spec_ram_size() == old(self).bus.spec_ram_size(),
            final(self).ext == old(self).ext,
            r == Ok::<(), RiscVError>(()),
            final(self)@ =~~= spec_run(old(self)@, steps as nat),
    {
        let mut i: u32 = 0;
        while i < steps
            invariant
                self.wf(),
                self.bus.spec_ram_size() == old(self).bus.spec_ram_size(),
                self.ext == old(self).ext,
                i <= steps,
                self@ =~~= spec_run(old(self)@, i as nat),
            decreases steps - i,
        {
            match self.step() {
                Ok(_) => {},
                Err(e) => {
                    return Err(e);
                },
            }
            i = i + 1;
        }
        Ok(())
    }

    /// One step of the steady state: the post-state is `spec_step` of the
    /// old one — the cycle runs, and an exception it raises is handed to
    /// trap entry, which redirects the PC and privilege mode; the run goes
    /// on from the trap vector. Architectural exceptions never escape as
    /// errors: stepping always returns success.
    pub fn step(&mut self) -> (r: Result<(), RiscVError>)
        requires
            old(self).wf(),
        ensures
            final(self).wf(),
            final(self).bus.spec_ram_size() == old(self).bus.spec_ram_size(),
            final(self).ext == old(self).ext,
            r == Ok::<(), RiscVError>(()),
            final(self)@ =~~= spec_step(old(self)@),
    {
        if let Err(except) = self.cycle() {
            self.trap_handle(except);
            proof {
                assert(self@ =~~= spec_step(old(self)@));
            }
        }
        Ok(())
    }

    /// Fetch, decode and execute one instruction: the raised exception or
    /// success, and the full post-state, are those of `spec_cycle`. A
    /// raised exception leaves PC, registers, mode and CSRs untouched for
    /// the trap handler (the bus may carry accessed/dirty writebacks of the
    /// failed walk).
    pub fn cycle(&mut self) -> (r: Result<(), Exception>)
        requires
            old(self).wf(),
        ensures
            final(self).wf(),
            final(self).bus.spec_ram_size() == old(self).bus.spec_ram_size(),
            final(self).ext == old(self).ext,
            r is Err ==> final(self).pc@ == old(self).pc@
                && final(self).regs@ == old(self).regs@
                && final(self).mode == old(self).mode
                && final(self).csrs == old(self).csrs,
            ({
                let (res, c2) = spec_cycle(old(self)@);
                r == res && final(self)@ =~~= c2
            }),
    {
        let raw = match self.fetch() {
            Ok(raw) => raw,
            Err(e) => {
                proof {
                    assert(self@ =~~= spec_cycle(old(self)@).1);
                }
                return Err(e);
            },
        };
        proof {
            assert(self@ =~~= (CpuView {
                bus: spec_fetch(
                    old(self).bus@, old(self).mode, old(self).csrs.satp, old(self).pc@).1,
                ..old(self)@
            }));
        }
        let ins = match self.decode(raw) {
            Ok(ins) => ins,
            Err(e) => {
                proof {
                    assert(self@ =~~= spec_cycle(old(self)@).1);
                }
                return Err(e);
            },
        };
        proof {
            lemma_decode_total(raw);
        }
        self.execute(ins, raw)
    }

    /// Execute one decoded instruction: the result and the full post-state
    /// are those of `spec_execute`. An instruction that raises an exception
    /// leaves PC, registers, mode and CSRs untouched; one that retires
    /// normally — not a jump, a taken branch or a trap return — advances
    /// the PC by exactly four.
    #[verifier::rlimit(100)]
    pub fn execute(&mut self, ins: Instruction, raw: u32) -> (r: Result<(), Exception>)
        requires
            old(self).wf(),
            ins_wf(ins),
        ensures
            final(self).wf(),
            final(self).bus.spec_ram_size() == old(self).bus.spec_ram_size(),
            final(self).ext == old(self).ext,
            r is Err ==> final(self).pc@ == old(self).pc@
                && final(self).regs@ == old(self).regs@
                && final(self).mode == old(self).mode
                && final(self).csrs == old(self).csrs,
            r is Ok && !spec_redirects(*old(self), ins, raw)
                ==> final(self).pc@ == wrap32(old(self).pc@ + 4),
            ({
                let (res, f2) = spec_execute(old(self)@, ins, raw);
                r == res && final(self)@ =~~= f2
            }),
    {
        match ins {
            Instruction::Itype(p) => {
                let res = self.exec_itype(p, raw);
                proof {
                    assert(res == spec_execute(old(self)@, ins, raw).0
                        && self@ =~~= spec_execute(old(self)@, ins, raw).1);
                }
                res
            },
            Instruction::Rtype(p) => {
                let res = self.exec_rtype(p, raw);
                proof {
                    assert(res == spec_execute(old(self)@, ins, raw).0
                        && self@ =~~= spec_execute(old(self)@, ins, raw).1);
                }
                res
            },
            Instruction::ItypeLoad(p) => {
                let res = self.exec_load(p, raw);
                proof {
                    assert(res == spec_execute(old(self)@, ins, raw).0
                        && self@ =~~= spec_execute(old(self)@, ins, raw).1);
                }
                res
            },
            Instruction::Stype(p) => {
                let res = self.exec_store(p, raw);
                proof {
                    assert(res == spec_execute(old(self)@, ins, raw).0
                        && self@ =~~= spec_execute(old(self)@, ins, raw).1);
                }
                res
            },
            Instruction::Btype(p) => {
                let res = self.exec_branch(p, raw);
                proof {
                    assert(res == spec_execute(old(self)@, ins, raw).0
                        && self@ =~~= spec_execute(old(self)@, ins, raw).1);
                }
                res
            },
            Instruction::UtypeLUI(p) => {
                self.regs.write(p.rd, p.imm);
                self.pc.step();
                proof {
                    assert(self@ =~~= spec_execute(old(self)@, ins, raw).1);
                }
                Ok(())
            },
            Instruction::UtypeAUIPC(p) => {
                let v = Alu::add(self.pc.get(), p.imm);
                self.regs.write(p.rd, v);
                self.pc.step();
                proof {
                    assert(self@ =~~= spec_execute(old(self)@, ins, raw).1);
                }
                Ok(())
            },
            Instruction::Jtype(p) => {
                let link = self.pc.get().wrapping_add(4);
                let target = Alu::add_signed(self.pc.get(), p.imm);
                self.regs.write(p.rd, link);
                self.pc.directed_addressing(target);
                proof {
                    assert(self@ =~~= spec_execute(old(self)@, ins, raw).1);
                }
                Ok(())
            },
            Instruction::ItypeJump(p) => {
                let res = self.exec_jalr(p, raw);
                proof {
                    assert(res == spec_execute(old(self)@, ins, raw).0
                        && self@ =~~= spec_execute(old(self)@, ins, raw).1);
                }
                res
            },
            Instruction::ItypeFence(p) => {
                if p.funct3 == 0 || (p.funct3 == 1 && self.ext.zifencei) {
                    self.pc.step();
                    proof {
                        assert(self@ =~~= spec_execute(old(self)@, ins, raw).1);
                    }
                    Ok(())
                } else {
                    Err(Exception::IllegalInstruction(raw))
                }
            },
            Instruction::ItypeSys(p) => {
                let res = self.exec_sys(p, raw);
                proof {
                    assert(res == spec_execute(old(self)@, ins, raw).0
                        && self@ =~~= spec_execute(old(self)@, ins, raw).1);
                }
                res
            },
        }
    }

    /// Register-immediate operations.
    fn exec_itype(&mut self, p: Itype, raw: u32) -> (r: Result<(), Exception>)
        requires
            old(self).wf(),
            p.rd < 32,
            p.rs1 < 32,
        ensures
            final(self).wf(),
            final(self).bus == old(self).bus,
            final(self).mode == old(self).mode,
            final(self).csrs == old(self).csrs,
            final(self).ext == old(self).ext,
            match spec_op_imm(old(self).regs@[p.rs1 as int], p.funct3, p.imm) {
                Some(v) => r == Ok::<(), Exception>(())
                    && final(self).regs@ == reg_written(old(self).regs@, p.rd, v)
                    && final(self).pc@ == wrap32(old(self).pc@ + 4),
                None => r == Err::<(), Exception>(Exception::IllegalInstruction(raw))
                    && final(self).regs@ == old(self).regs@
                    && final(self).pc@ == old(self).pc@,
            },
    {
        let a = self.regs.read(p.rs1);
        proof {
            crate::word::lemma_u32_to_i32(a);
            crate::word::lemma_i32_to_u32(p.imm);
        }
        let computed: Option<u32> = if p.funct3 == 0 {
            Some(Alu::add_signed(a, p.imm))
        } else if p.funct3 == 1 {
            if 0 <= p.imm && p.imm < 32 {
                Some(Alu::shl_logic(a, p.imm as u32))
            } else {
                None
            }
        } else if p.funct3 == 2 {
            Some(Alu::set_less_than(a as i32, p.imm))
        } else if p.funct3 == 3 {
            Some(Alu::set_less_than_unsigned(a, p.imm as u32))
        } else if p.funct3 == 4 {
            Some(Alu::xor(a, p.imm as u32))
        } else if p.funct3 == 5 {
            if 0 <= p.imm && p.imm < 32 {
                Some(Alu::shr_logic(a, p.imm as u32))
            } else if 1024 <= p.imm && p.imm < 1056 {
                Some(Alu::shr_ar(a as i32, (p.imm - 1024) as u32))
            } else {
                None
            }
        } else if p.funct3 == 6 {
            Some(Alu::or(a, p.imm as u32))
        } else {
            Some(Alu::and(a, p.imm as u32))
        };
        match computed {
            Some(v) => {
                self.regs.write(p.rd, v);
                self.pc.step();
                Ok(())
            },
            None => Err(Exception::IllegalInstruction(raw)),
        }
    }

    /// Register-register operations, with the multiply/divide family gated
    /// by the multiply extension.
    fn exec_rtype(&mut self, p: crate::isa::types::Rtype, raw: u32)
        -> (r: Result<(), Exception>)
        requires
            old(self).wf(),
            p.rd < 32,
            p.rs1 < 32,
            p.rs2 < 32,
        ensures
            final(self).wf(),
            final(self).bus == old(self).bus,
            final(self).mode == old(self).mode,
            final(self).csrs == old(self).csrs,
            final(self).ext == old(self).ext,
            match spec_op_reg(old(self).regs@[p.rs1 as int], old(self).regs@[p.rs2 as int],
                p.funct3, p.funct7, old(self).ext.m) {
                Some(v) => r == Ok::<(), Exception>(())
                    && final(self).regs@ == reg_written(old(self).regs@, p.rd, v)
                    && final(self).pc@ == wrap32(old(self).pc@ + 4),
                None => r == Err::<(), Exception>(Exception::IllegalInstruction(raw))
                    && final(self).regs@ == old(self).regs@
                    && final(self).pc@ == old(self).pc@,
            },
    {
        let a = self.regs.read(p.rs1);
        let b = self.regs.read(p.rs2);
        proof {
            crate::word::lemma_u32_to_i32(a);
            crate::word::lemma_u32_to_i32(b);
        }
        let computed: Option<u32> = if p.funct7 == 0 {
            Some(
                if p.funct3 == 0 { Alu::add(a, b) }
                else if p.funct3 == 1 { Alu::shl_logic(a, b) }
                else if p.funct3 == 2 { Alu::set_less_than(a as i32, b as i32) }
                else if p.funct3 == 3 { Alu::set_less_than_unsigned(a, b) }
                else if p.funct3 == 4 { Alu::xor(a, b) }
                else if p.funct3 == 5 { Alu::shr_logic(a, b) }
                else if p.funct3 == 6 { Alu::or(a, b) }
                else { Alu::and(a, b) }
            )
        } else if p.funct7 == 0x20 {
            if p.funct3 == 0 {
                Some(Alu::sub(a, b))
            } else if p.funct3 == 5 {
                Some(Alu::shr_ar(a as i32, b))
            } else {
                None
            }
        } else if p.funct7 == 1 && self.ext.m {
            Some(
                if p.funct3 == 0 { Alu::mul(a, b) }
                else if p.funct3 == 1 { Alu::mulh(a, b) }
                else if p.funct3 == 2 { Alu::mulh_signed_unsigned(a, b) }
                else if p.funct3 == 3 { Alu::mulh_unsigned(a, b) }
                else if p.funct3 == 4 { Alu::div(a, b) }
                else if p.funct3 == 5 { Alu::div_unsigned(a, b) }
                else if p.funct3 == 6 { Alu::rem(a, b) }
                else { Alu::rem_unsigned(a, b) }
            )
        } else {
            None
        };
        match computed {
            Some(v) => {
                self.regs.write(p.rd, v);
                self.pc.step();
                Ok(())
            },
            None => Err(Exception::IllegalInstruction(raw)),
        }
    }

    /// Loads: effective address through the translator, width and extension
    /// by funct3.
    fn exec_load(&mut self, p: Itype, raw: u32) -> (r: Result<(), Exception>)
        requires
            old(self).wf(),
            p.rd < 32,
            p.rs1 < 32,
        ensures
            final(self).wf(),
            final(self).bus.spec_ram_size() == old(self).bus.spec_ram_size(),
            final(self).mode == old(self).mode,
            final(self).csrs == old(self).csrs,
            final(self).ext == old(self).ext,
            match spec_load_width(p.funct3) {
                None => final(self).bus@ =~= old(self).bus@
                    && r == Err::<(), Exception>(Exception::IllegalInstruction(raw))
                    && final(self).regs@ == old(self).regs@
                    && final(self).pc@ == old(self).pc@,
                Some((num, sgn)) => {
                    let (res, v2) = spec_lsu_load(
                        old(self).bus@, old(self).regs@[p.rs1 as int], p.imm, num, sgn,
                        old(self).mode, spec_satp_root(old(self).csrs.satp));
                    final(self).bus@ =~= v2 && (match res {
                        Ok(val) => r == Ok::<(), Exception>(())
                            && final(self).regs@ == reg_written(old(self).regs@, p.rd, val)
                            && final(self).pc@ == wrap32(old(self).pc@ + 4),
                        Err(e) => r == Err::<(), Exception>(e)
                            && final(self).regs@ == old(self).regs@
                            && final(self).pc@ == old(self).pc@,
                    })
                },
            },
    {
        let base = self.regs.read(p.rs1);
        let root = self.csrs.check_satp();
        let loaded = if p.funct3 == 0 {
            Lsu::load_signed(&mut self.bus, base, p.imm, 1, self.mode, root)
        } else if p.funct3 == 1 {
            Lsu::load_signed(&mut self.bus, base, p.imm, 2, self.mode, root)
        } else if p.funct3 == 2 {
            Lsu::load(&mut self.bus, base, p.imm, 4, self.mode, root)
        } else if p.funct3 == 4 {
            Lsu::load(&mut self.bus, base, p.imm, 1, self.mode, root)
        } else if p.funct3 == 5 {
            Lsu::load(&mut self.bus, base, p.imm, 2, self.mode, root)
        } else {
            return Err(Exception::IllegalInstruction(raw));
        };
        match loaded {
            Ok(val) => {
                self.regs.write(p.rd, val);
                self.pc.step();
                Ok(())
            },
            Err(e) => Err(e),
        }
    }

    /// Stores: effective address through the translator, width by funct3.
    fn exec_store(&mut self, p: crate::isa::types::Stype, raw: u32)
        -> (r: Result<(), Exception>)
        requires
            old(self).wf(),
            p.rs1 < 32,
            p.rs2 < 32,
        ensures
            final(self).wf(),
            final(self).bus.spec_ram_size() == old(self).bus.spec_ram_size(),
            final(self).mode == old(self).mode,
            final(self).csrs == old(self).csrs,
            final(self).ext == old(self).ext,
            final(self).regs@ == old(self).regs@,
            match spec_store_width(p.funct3) {
                None => final(self).bus@ =~= old(self).bus@
                    && r == Err::<(), Exception>(Exception::IllegalInstruction(raw))
                    && final(self).pc@ == old(self).pc@,
                Some(num) => {
                    let (res, v2) = spec_lsu_store(
                        old(self).bus@, old(self).regs@[p.rs1 as int],
                        old(self).regs@[p.rs2 as int], p.imm, num,
                        old(self).mode, spec_satp_root(old(self).csrs.satp));
                    final(self).bus@ =~= v2 && (match res {
                        Ok(_) => r == Ok::<(), Exception>(())
                            && final(self).pc@ == wrap32(old(self).pc@ + 4),
                        Err(e) => r == Err::<(), Exception>(e)
                            && final(self).pc@ == old(self).pc@,
                    })
                },
            },
    {
        let base = self.regs.read(p.rs1);
        let value = self.regs.read(p.rs2);
        let root = self.csrs.check_satp();
        let stored = if p.funct3 == 0 {
            Lsu::store(&mut self.bus, base, value, p.imm, 1, self.mode, root)
        } else if p.funct3 == 1 {
            Lsu::store(&mut self.bus, base, value, p.imm, 2, self.mode, root)
        } else if p.funct3 == 2 {
            Lsu::store(&mut self.bus, base, value, p.imm, 4, self.mode, root)
        } else {
            return Err(Exception::IllegalInstruction(raw));
        };
        match stored {
            Ok(_) => {
                self.pc.step();
                Ok(())
            },
            Err(e) => Err(e),
        }
    }

    /// Conditional branches: the comparator decides, a taken branch moves
    /// the PC by the even immediate, an untaken one falls through.
    fn exec_branch(&mut self, p: crate::isa::types::Btype, raw: u32)
        -> (r: Result<(), Exception>)
        requires
            old(self).wf(),
            p.rs1 < 32,
            p.rs2 < 32,
        ensures
            final(self).wf(),
            final(self).bus == old(self).bus,
            final(self).mode == old(self).mode,
            final(self).csrs == old(self).csrs,
            final(self).ext == old(self).ext,
            final(self).regs@ == old(self).regs@,
            match spec_branch(old(self).regs@[p.rs1 as int], old(self).regs@[p.rs2 as int],
                p.funct3) {
                Some(taken) => r == Ok::<(), Exception>(())
                    && final(self).pc@ == (if taken {
                        wrap32(old(self).pc@ + p.imm)
                    } else {
                        wrap32(old(self).pc@ + 4)
                    }),
                None => r == Err::<(), Exception>(Exception::IllegalInstruction(raw))
                    && final(self).pc@ == old(self).pc@,
            },
    {
        let a = self.regs.read(p.rs1);
        let b = self.regs.read(p.rs2);
        match branch(a, b, p.funct3) {
            Ok(true) => {
                let target = Alu::add_signed(self.pc.get(), p.imm);
                self.pc.directed_addressing(target);
                Ok(())
            },
            Ok(false) => {
                self.pc.step();
                Ok(())
            },
            Err(_) => Err(Exception::IllegalInstruction(raw)),
        }
    }

    /// The indirect jump: link into rd, then redirect to the base register
    /// plus immediate with the low bit cleared.
    fn exec_jalr(&mut self, p: Itype, raw: u32) -> (r: Result<(), Exception>)
        requires
            old(self).wf(),
            p.rd < 32,
            p.rs1 < 32,
        ensures
            final(self).wf(),
            final(self).bus == old(self).bus,
            final(self).mode == old(self).mode,
            final(self).csrs == old(self).csrs,
            final(self).ext == old(self).ext,
            if p.funct3 == 0 {
                r == Ok::<(), Exception>(())
                    && final(self).regs@ == reg_written(
                        old(self).regs@, p.rd, wrap32(old(self).pc@ + 4))
                    && final(self).pc@ == (wrap32(old(self).regs@[p.rs1 as int] + p.imm)
                        & 0xffff_fffe)
            } else {
                r == Err::<(), Exception>(Exception::IllegalInstruction(raw))
                    && final(self).regs@ == old(self).regs@
                    && final(self).pc@ == old(self).pc@
            },
    {
        if p.funct3 != 0 {
            return Err(Exception::IllegalInstruction(raw));
        }
        let base = self.regs.read(p.rs1);
        let link = self.pc.get().wrapping_add(4);
        let target = Alu::add_signed(base, p.imm) & 0xffff_fffe;
        self.regs.write(p.rd, link);
        self.pc.directed_addressing(target);
        Ok(())
    }

    /// The system encodings: environment call, breakpoint, trap return, and
    /// the CSR access operations.
    fn exec_sys(&mut self, p: Itype, raw: u32) -> (r: Result<(), Exception>)
        requires
            old(self).wf(),
            p.rd < 32,
            p.rs1 < 32,
        ensures
            final(self).wf(),
            final(self).bus == old(self).bus,
            final(self).ext == old(self).ext,
            r is Err ==> final(self).pc@ == old(self).pc@
                && final(self).regs@ == old(self).regs@
                && final(self).mode == old(self).mode
                && final(self).csrs == old(self).csrs,
            if raw == ECALL_WORD {
                r == Err::<(), Exception>(spec_ecall_exception(old(self).mode))
            } else if raw == EBREAK_WORD {
                r == Err::<(), Exception>(Exception::Breakpoint)
            } else if spec_privilege_op(raw) is Some {
                ({
                    let (m2, pc2) = spec_trap_return(
                        old(self).csrs, spec_privilege_op(raw)->0);
                    r == Ok::<(), Exception>(())
                        && final(self).mode == m2 && final(self).pc@ == pc2
                        && final(self).regs@ == old(self).regs@
                        && final(self).csrs == old(self).csrs
                })
            } else if !old(self).ext.zicsr {
                r == Err::<(), Exception>(Exception::IllegalInstruction(raw))
            } else {
                match spec_zicsr_op(p.funct3) {
                    None => r == Err::<(), Exception>(Exception::IllegalInstruction(raw)),
                    Some(op) => {
                        let csr_addr = wrap32(p.imm as int) & 0xfff;
                        let src = (if op is Csrrwi || op is Csrrsi || op is Csrrci {
                            p.rs1 as u32
                        } else {
                            old(self).regs@[p.rs1 as int]
                        });
                        match spec_zicsr(old(self).csrs, old(self).mode, op, csr_addr, src) {
                            None => r == Err::<(), Exception>(
                                Exception::IllegalInstruction(raw)),
                            Some((c2, oldv)) => r == Ok::<(), Exception>(())
                                && final(self).csrs == c2
                                && final(self).regs@ == reg_written(
                                    old(self).regs@, p.rd, oldv)
                                && final(self).pc@ == wrap32(old(self).pc@ + 4)
                                && final(self).mode == old(self).mode,
                        }
                    },
                }
            },
    {
        if raw == ECALL_WORD {
            return Err(match self.mode {
                PrivilegeMode::User => Exception::EnvironmentCallFromUMode,
                PrivilegeMode::Supervisor => Exception::EnvironmentCallFromSMode,
                PrivilegeMode::Machine => Exception::EnvironmentCallFromMMode,
            });
        }
        if raw == EBREAK_WORD {
            return Err(Exception::Breakpoint);
        }
        if let Some(op) = PrivilegeOp::decode(raw) {
            let (mode, target) = self.csrs.trap_return(op);
            self.mode = mode;
            self.pc.directed_addressing(target);
            return Ok(());
        }
        if !self.ext.zicsr {
            return Err(Exception::IllegalInstruction(raw));
        }
        let op = match ZicsrOp::decode(p.funct3) {
            Some(op) => op,
            None => {
                return Err(Exception::IllegalInstruction(raw));
            },
        };
        proof {
            crate::word::lemma_i32_to_u32(p.imm);
        }
        let csr_addr = (p.imm as u32) & 0xfff;
        let src = if op.is_immediate() {
            p.rs1 as u32
        } else {
            self.regs.read(p.rs1)
        };
        let oldv = match self.csrs.read_csr(csr_addr, self.mode) {
            Some(v) => v,
            None => {
                return Err(Exception::IllegalInstruction(raw));
            },
        };
        let writes: bool = match op {
            ZicsrOp::Csrrw | ZicsrOp::Csrrwi => true,
            ZicsrOp::Csrrs | ZicsrOp::Csrrsi => src != 0,
            ZicsrOp::Csrrc | ZicsrOp::Csrrci => src != 0,
        };
        let newv: u32 = match op {
            ZicsrOp::Csrrw | ZicsrOp::Csrrwi => src,
            ZicsrOp::Csrrs | ZicsrOp::Csrrsi => oldv | src,
            ZicsrOp::Csrrc | ZicsrOp::Csrrci => oldv & !src,
        };
        if writes {
            if self.csrs.write_csr(csr_addr, newv, self.mode).is_none() {
                return Err(Exception::IllegalInstruction(raw));
            }
        }
        self.regs.write(p.rd, oldv);
        self.pc.step();
        Ok(())
    }

    /// Fetch the word at the PC: refuse a misaligned PC, translate, read.
    pub fn fetch(&mut self) -> (r: Result<u32, Exception>)
        requires
            old(self).wf(),
        ensures
            final(self).wf(),
            final(self).bus.spec_ram_size() == old(self).bus.spec_ram_size(),
            final(self).pc@ == old(self).pc@,
            final(self).regs@ == old(self).regs@,
            final(self).mode == old(self).mode,
            final(self).csrs == old(self).csrs,
            final(self).ext == old(self).ext,
            ({
                let (res, v2) = spec_fetch(
                    old(self).bus@, old(self).mode, old(self).csrs.satp, old(self).pc@);
                final(self).bus@ =~= v2 && r == res
            }),
    {
        let va = self.pc.get();
        if va % 4 != 0 {
            return Err(Exception::InstructionAddressMisaligned);
        }
        let va_access = VirtAccess::new(va, AccessType::Fetch);
        let pa_access = match Mmu::translate(va_access, self.mode, self.csrs.check_satp(),
            &mut self.bus) {
            Ok(a) => a,
            Err(e) => {
                return Err(e);
            },
        };
        match self.bus.read_u32(pa_access) {
            Ok(raw) => Ok(raw),
            Err(_) => Err(Exception::InstructionAccessFault(va)),
        }
    }

    /// Decode a raw word; an illegal bit pattern becomes the
    /// illegal-instruction exception carrying that word.
    pub fn decode(&self, bytes: u32) -> (r: Result<Instruction, Exception>)
        ensures
            match spec_decode(bytes) {
                Ok(ins) => r == Ok::<Instruction, Exception>(ins),
                Err(_) => r == Err::<Instruction, Exception>(
                    Exception::IllegalInstruction(bytes)),
            },
    {
        match decode(bytes) {
            Ok(ins) => Ok(ins),
            Err(_) => Err(Exception::IllegalInstruction(bytes)),
        }
    }

    /// Hand a raised exception to the trap state machine: the CSR file saves
    /// PC and cause, and the PC and privilege mode are redirected.
    pub fn trap_handle(&mut self, except: Exception)
        requires
            old(self).wf(),
        ensures
            final(self).wf(),
            final(self).bus.spec_ram_size() == old(self).bus.spec_ram_size(),
            final(self).ext == old(self).ext,
            final(self).regs@ == old(self).regs@,
            final(self).bus@ =~= old(self).bus@,
            ({
                let (c2, m2, vec) = spec_trap_entry(
                    old(self).csrs, old(self).pc@, except, old(self).mode);
                final(self).csrs == c2 && final(self).mode == m2 && final(self).pc@ == vec
            }),
    {
        let pc = self.pc.get();
        let (mode, target) = self.csrs.trap_entry(pc, except, self.mode);
        self.pc.directed_addressing(target);
        self.mode = mode;
    }

    /// Reset the hart: Machine mode, zeroed registers, CSRs and PC, and a
    /// zero-filled RAM.
    pub fn reset(&mut self)
        requires
            old(self).wf(),
        ensures
            final(self).wf(),
            final(self).bus.spec_ram_size() == old(self).bus.spec_ram_size(),
            final(self).ext == old(self).ext,
            final(self).mode == PrivilegeMode::Machine,
            final(self).pc@ == 0,
            final(self).csrs == CsrFile::spec_reset(),
            forall|i: int| 0 <= i < 32 ==> final(self).regs@[i] == 0,
            forall|i: int| 0 <= i < final(self).bus@.ram.len() ==> final(self).bus@.ram[i] == 0,
            final(self).bus@.uart == old(self).bus@.uart,
    {
        self.mode = PrivilegeMode::default();
        self.regs.reset();
        self.csrs.reset();
        self.pc.reset(0);
        self.bus.reset_ram();
    }

    /// A snapshot of the 32 registers.
    pub fn inspect_regs(&self) -> (r: [u32; 32])
        ensures
            r@ == self.regs@,
    {
        self.regs.inspect()
    }

    /// The current PC.
    pub fn inspect_pc(&self) -> (r: u32)
        ensures
            r == self.pc@,
    {
        self.pc.get()
    }

    /// Every CSR with its value, in the fixed listing order.
    pub fn inspect_csrs(&self) -> (r: Vec<(CsrAddr, u32)>)
        ensures
            r@ =~= spec_csr_listing(self.csrs),
            r@.len() == 17,
    {
        self.csrs.inspect()
    }

    /// A window of bus-addressable memory; bytes outside any window read as
    /// zero in the snapshot.
    pub fn inspect_mem(&self, addr: u32, len: usize) -> (r: Vec<u8>)
        requires
            self.wf(),
        ensures
            r@.len() == len,
            forall|i: int| 0 <= i < len ==> #[trigger] r@[i] == (
                if addr + i <= 0xffff_ffff {
                    match crate::device::bus::spec_bus_read(self.bus@, addr + i) {
                        Some(b) => b,
                        None => 0u8,
                    }
                } else {
                    0u8
                }),
    {
        let mut out: Vec<u8> = Vec::new();
        let mut i: usize = 0;
        while i < len
            invariant
                self.wf(),
                i <= len,
                out@.len() == i,
                forall|j: int| 0 <= j < i ==> #[trigger] out@[j] == (
                    if addr + j <= 0xffff_ffff {
                        match crate::device::bus::spec_bus_read(self.bus@, addr + j) {
                            Some(b) => b,
                            None => 0u8,
                        }
                    } else {
                        0u8
                    }),
            decreases len - i,
        {
            if i as u64 <= 0xffff_ffff && addr as u64 + i as u64 <= 0xffff_ffff {
                let a = Access::new(addr + i as u32, AccessType::Load);
                match self.bus.read_byte(a) {
                    Ok(b) => {
                        out.push(b);
                    },
                    Err(_) => {
                        out.push(0);
                    },
                }
            } else {
                out.push(0);
            }
            i = i + 1;
        }
        out
    }
}

impl Default for Cpu {
    /// A hart with the default RAM size.
    fn default() -> (r: Self)
        ensures
            r.wf(),
            r.mode == PrivilegeMode::Machine,
            r.bus.spec_ram_size() == DEFAULT_RAM_SIZE,
    {
        Self::new(DEFAULT_RAM_SIZE)
    }
}

} // verus!
