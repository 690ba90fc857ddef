use risc_v_emulator::isa::decoder::decode;
use risc_v_emulator::isa::instruction::Instruction;
use risc_v_emulator::isa::types::{Itype, Rtype, Stype, Utype, Jtype};
use risc_v_emulator::error::RiscVError;

#[test]
// Test I-type instruction
fn itype_test() {
    // addi x10, x0, -2048
    let ins1 = 0x80000513;
    let except1 = Instruction::Itype(Itype {
        rd: 10, rs1: 0, funct3: 0, imm: -2048,
    });
    // slti x23, x24, 31
    let ins2 = 0x01fc2b93;
    let except2 = Instruction::Itype(Itype {
        rd: 23, rs1: 24, funct3: 2, imm: 31,
    });
    // andi x31, x22, 2047
    let ins3 = 0x7ffb7f93;
    let except3 = Instruction::Itype(Itype {
        rd: 31, rs1: 22, funct3: 7, imm: 2047,
    });

    assert_eq!(decode(ins1), Ok(except1));

    assert_eq!(decode(ins2), Ok(except2));

    assert_eq!(decode(ins3), Ok(except3));
}

#[test]
// Test I-type Load instruction
fn itype_load_test() {
    // lw x5, 12(x7)
    let ins1 = 0x00c3a283;
    let except1 = Instruction::ItypeLoad(Itype {
        rd: 5, rs1: 7, funct3: 2, imm: 12,
    });
    // lbu x19, 0(x11)
    let ins2 = 0x0005c983;
    let except2 = Instruction::ItypeLoad(Itype {
        rd: 19, rs1: 11, funct3: 4, imm: 0,
    });

    assert_eq!(decode(ins1), Ok(except1));

    assert_eq!(decode(ins2), Ok(except2));
}

#[test]
// Test I-type Jump instruction
fn itype_jump_test() {
    // jalr x0, 256(x28)
    let ins1 = 0x100e0067;
    let except1 = Instruction::ItypeJump(Itype {
        rd: 0, rs1: 28, funct3: 0, imm: 256,
    });
    // jalr x1, -442(x21)
    let ins2 = 0xe46a80e7;
    let except2 = Instruction::ItypeJump(Itype {
        rd: 1, rs1: 21, funct3: 0, imm: -442,
    });

    assert_eq!(decode(ins1), Ok(except1));

    assert_eq!(decode(ins2), Ok(except2));
}

#[test]
// Test I-type system instruction
fn itype_sys_test() {
    // ecall
    let ins1 = 0x00000073;
    let except1 = Instruction::ItypeSys(Itype {
        rd: 0, rs1: 0, funct3: 0, imm: 0,
    });
    // ebreak
    let ins2 = 0x00100073;
    let except2 = Instruction::ItypeSys(Itype {
        rd: 0, rs1: 0, funct3: 0, imm: 1,
    });

    assert_eq!(decode(ins1), Ok(except1));

    assert_eq!(decode(ins2), Ok(except2));
}

#[test]
// Test R-type instruction
fn rtype_test() {
    // sub x13, x15, x18
    let ins1 = 0x412786b3;
    let except1 = Instruction::Rtype(Rtype {
        rd: 13, rs1: 15, rs2: 18, funct3: 0, funct7: 32,
    });
    // sll x2, x6, x9
    let ins2 = 0x00931133;
    let except2 = Instruction::Rtype(Rtype {
        rd: 2, rs1: 6, rs2: 9, funct3: 1, funct7: 0,
    });
    // xor x20, x30, x26
    let ins3 = 0x01af4a33;
    let except3 = Instruction::Rtype(Rtype {
        rd: 20, rs1: 30, rs2: 26, funct3: 4, funct7: 0,
    });

    assert_eq!(decode(ins1), Ok(except1));

    assert_eq!(decode(ins2), Ok(except2));

    assert_eq!(decode(ins3), Ok(except3));
}

#[test]
// Test S-type instruction
fn stype_test() {
    // sw x21, 123(x13)
    let ins1 = 0x0756ada3;
    let except1 = Instruction::Stype(Stype {
        rs1: 13, rs2: 21, funct3: 2, imm: 123,
    });
    // sh x11, -567(x22)
    let ins2 = 0xdcbb14a3;
    let except2 = Instruction::Stype(Stype {
        rs1: 22, rs2: 11, funct3: 1, imm: -567,
    });

    assert_eq!(decode(ins1), Ok(except1));

    assert_eq!(decode(ins2), Ok(except2));
}

#[test]
// Test J-type instruction
fn jtype_test() {
    // jal x1
    let ins1 = 0x046000ef;
    let except1 = Instruction::Jtype(Jtype {
        rd: 1, imm: 70,
    });
    // jal x0, backwards
    let ins2 = 0xff1ff06f;
    let except2 = Instruction::Jtype(Jtype {
        rd: 0, imm: -16,
    });

    assert_eq!(decode(ins1), Ok(except1));

    assert_eq!(decode(ins2), Ok(except2));
}

#[test]
// Test U-type instruction
fn utype_test() {
    // auipc x29, 0x100
    let ins1 = 0x00100e97;
    let except1 = Instruction::UtypeAUIPC(Utype {
        rd: 29, imm: 0x100_000,
    });
    // lui x19, 0x20000
    let ins2 = 0x200009b7;
    let except2 = Instruction::UtypeLUI(Utype {
        rd: 19, imm: 0x20000_000,
    });

    assert_eq!(decode(ins1), Ok(except1));

    assert_eq!(decode(ins2), Ok(except2));
}

#[test]
// Test illegal opcode
fn err_test() {
    let err_ins1 = 0xffffffff;
    let err_ins2 = 0x0;

    assert_eq!(decode(err_ins1), Err(RiscVError::NotImplementedOpCode(0x7f)));
    assert_eq!(decode(err_ins2), Err(RiscVError::NotImplementedOpCode(0x0)));
}

#[test]
// Every opcode byte value either decodes to some instruction or reports
// exactly that opcode back; never an unrelated variant.
fn decode_totality() {
    for op in 0u32..128 {
        // fill the non-opcode bits with a pattern to make the check sharper
        let word = 0xaaaa_aa80 | op;
        match decode(word) {
            Ok(_) => {
                let known = [
                    0x13u32, 0x03, 0x67, 0x73, 0x0f, 0x33, 0x23, 0x63, 0x6f, 0x37, 0x17,
                ];
                assert!(known.contains(&op));
            },
            Err(e) => {
                assert_eq!(e, RiscVError::NotImplementedOpCode(op as u8));
            },
        }
    }
}

#[test]
// The regression vectors for each encoding shape.
fn decode_vectors() {
    assert_eq!(
        decode(0x007302b3),
        Ok(Instruction::Rtype(Rtype { rd: 5, rs1: 6, rs2: 7, funct3: 0, funct7: 0 }))
    );
    assert_eq!(
        decode(0x80000513),
        Ok(Instruction::Itype(Itype { rd: 10, rs1: 0, funct3: 0, imm: -2048 }))
    );
    assert_eq!(
        decode(0x0756ada3),
        Ok(Instruction::Stype(Stype { rs1: 13, rs2: 21, funct3: 2, imm: 123 }))
    );
    // the implicit low bit of the jump offset is restored: the offset is even
    let jal = decode(0x046000ef).unwrap();
    match jal {
        Instruction::Jtype(j) => {
            assert_eq!(j.rd, 1);
            assert_eq!(j.imm, 70);
            assert_eq!(j.imm % 2, 0);
        },
        _ => panic!("wrong shape"),
    }
    assert_eq!(
        decode(0x00000073),
        Ok(Instruction::ItypeSys(Itype { rd: 0, rs1: 0, funct3: 0, imm: 0 }))
    );
    assert_eq!(decode(0xffffffff), Err(RiscVError::NotImplementedOpCode(0x7f)));
    assert_eq!(decode(0x00000000), Err(RiscVError::NotImplementedOpCode(0x00)));
}
