use risc_v_emulator::engine::alu::Alu;
use risc_v_emulator::engine::branch::branch;
use risc_v_emulator::error::RiscVError;

#[test]
fn add_sub_wrap() {
    assert_eq!(Alu::add(2, 3), 5);
    assert_eq!(Alu::add(0xffff_ffff, 1), 0);
    assert_eq!(Alu::add_signed(4, -8), 0xffff_fffc);
    assert_eq!(Alu::sub(3, 5), 0xffff_fffe);
    assert_eq!(Alu::sub(5, 3), 2);
}

#[test]
fn bitwise_ops() {
    assert_eq!(Alu::xor(0xff00_ff00, 0x0ff0_0ff0), 0xf0f0_f0f0);
    assert_eq!(Alu::or(0xff00_0000, 0x00ff_0000), 0xffff_0000);
    assert_eq!(Alu::and(0xff00_ff00, 0x0ff0_0ff0), 0x0f00_0f00);
}

#[test]
fn shifts_mod_32() {
    assert_eq!(Alu::shl_logic(1, 4), 16);
    assert_eq!(Alu::shl_logic(1, 36), 16); // shift amount taken modulo 32
    assert_eq!(Alu::shr_logic(0x8000_0000, 31), 1);
    assert_eq!(Alu::shr_ar(-16, 2), 0xffff_fffc); // arithmetic shift keeps the sign
    assert_eq!(Alu::shr_ar(16, 2), 4);
}

#[test]
fn comparisons() {
    assert_eq!(Alu::set_less_than(-1, 0), 1);
    assert_eq!(Alu::set_less_than(0, -1), 0);
    assert_eq!(Alu::set_less_than_unsigned(0xffff_ffff, 0), 0);
    assert_eq!(Alu::set_less_than_unsigned(0, 0xffff_ffff), 1);
}

#[test]
fn multiply_family() {
    assert_eq!(Alu::mul(7, 6), 42);
    // low word of -2 * 3
    assert_eq!(Alu::mul(0xffff_fffe, 3), 0xffff_fffa);
    // high word of the signed product of -2 and 3 is all ones
    assert_eq!(Alu::mulh(0xffff_fffe, 3), 0xffff_ffff);
    assert_eq!(Alu::mulh(0x4000_0000, 4), 1);
    // unsigned high word: 0xffff_fffe reads as a huge unsigned value
    assert_eq!(Alu::mulh_unsigned(0xffff_fffe, 3), 2);
    assert_eq!(Alu::mulh_signed_unsigned(0xffff_fffe, 3), 0xffff_ffff);
    assert_eq!(Alu::mulh_signed_unsigned(2, 0x8000_0000), 1);
}

#[test]
// Division by zero yields an all-ones quotient and the dividend as the
// remainder, with no exception, whatever the dividend.
fn divide_by_zero_law() {
    for dividend in [0u32, 1, 7, 0x7fff_ffff, 0x8000_0000, 0xffff_ffff] {
        assert_eq!(Alu::div(dividend, 0), u32::MAX);
        assert_eq!(Alu::div_unsigned(dividend, 0), u32::MAX);
        assert_eq!(Alu::rem(dividend, 0), dividend);
        assert_eq!(Alu::rem_unsigned(dividend, 0), dividend);
    }
}

#[test]
fn signed_division() {
    assert_eq!(Alu::div(14, 4), 3); // truncates toward zero
    assert_eq!(Alu::div(0xffff_fff9, 2), 0xffff_fffd); // -7 / 2 == -3
    assert_eq!(Alu::rem(0xffff_fff9, 2), 0xffff_ffff); // -7 % 2 == -1
    assert_eq!(Alu::div(14, 0xffff_fffc), 0xffff_fffd); // 14 / -4 == -3
    // the one overflowing pair: quotient is the dividend, remainder zero
    assert_eq!(Alu::div(0x8000_0000, 0xffff_ffff), 0x8000_0000);
    assert_eq!(Alu::rem(0x8000_0000, 0xffff_ffff), 0);
}

#[test]
fn unsigned_division() {
    assert_eq!(Alu::div_unsigned(14, 4), 3);
    assert_eq!(Alu::div_unsigned(0xffff_fff9, 2), 0x7fff_fffc);
    assert_eq!(Alu::rem_unsigned(14, 4), 2);
}

#[test]
fn branch_conditions() {
    assert_eq!(branch(5, 5, 0x0), Ok(true)); // equal
    assert_eq!(branch(5, 6, 0x0), Ok(false));
    assert_eq!(branch(5, 6, 0x1), Ok(true)); // not equal
    assert_eq!(branch(0xffff_ffff, 0, 0x4), Ok(true)); // -1 < 0 signed
    assert_eq!(branch(0xffff_ffff, 0, 0x6), Ok(false)); // huge unsigned
    assert_eq!(branch(0, 0xffff_ffff, 0x5), Ok(true)); // 0 >= -1 signed
    assert_eq!(branch(3, 3, 0x7), Ok(true)); // >= unsigned
    assert_eq!(
        branch(1, 2, 0x2),
        Err(RiscVError::NotImplementedFunc(0x63, 0x2))
    );
}
