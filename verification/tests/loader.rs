use risc_v_emulator::loader::{load, load_raw, LoadError, Segment};
use risc_v_emulator::exception::Exception;

fn seg(addr: u32, mem_size: u32, data: Vec<u8>, flags: u32) -> Segment {
    Segment { addr, mem_size, data, flags }
}

#[test]
fn load_validates_machine_and_class() {
    let r = load(40, true, 0, vec![]);
    assert!(matches!(r, Err(LoadError::NotRiscVArc(40))));
    let r = load(243, false, 0, vec![]);
    assert!(matches!(r, Err(LoadError::NotSupportClass)));
}

#[test]
fn load_classifies_segments() {
    let segments = vec![
        seg(0x8000_0000, 8, vec![1, 2, 3, 4, 5, 6, 7, 8], 0x5), // read + execute: code
        seg(0x8000_2000, 4, vec![9, 9], 0x6),                   // read + write: data, with bss
        seg(0x8000_3000, 2, vec![7, 7], 0x7),                   // rwx: neither list
        seg(0x8000_4000, 0, vec![], 0x5),                       // empty: dropped
    ];
    let info = load(243, true, 0x8000_0000, segments).unwrap();
    assert_eq!(info.pc_entry, 0x8000_0000);
    assert_eq!(info.code.len(), 1);
    assert_eq!(info.code[0].1, 0x8000_0000);
    assert_eq!(info.code[0].0, vec![1, 2, 3, 4, 5, 6, 7, 8]);
    assert_eq!(info.data.len(), 1);
    assert_eq!(info.data[0].1, 0x8000_2000);
    assert_eq!(info.other.len(), 1);
    assert_eq!(info.other[0].1, 0x8000_3000);
    // the data segment is four bytes in memory but two on file
    assert_eq!(info.bss, Some((0x8000_2002, 2)));
}

#[test]
fn load_raw_is_one_code_segment_at_zero() {
    let info = load_raw(vec![0x13, 0x00, 0x00, 0x00]);
    assert_eq!(info.pc_entry, 0);
    assert_eq!(info.code.len(), 1);
    assert_eq!(info.code[0].1, 0);
    assert_eq!(info.code[0].0, vec![0x13, 0x00, 0x00, 0x00]);
    assert!(info.bss.is_none());
    assert!(info.data.is_empty());
}

#[test]
fn exception_causes() {
    assert_eq!(Exception::InstructionAddressMisaligned.cause(), 0);
    assert_eq!(Exception::InstructionAccessFault(1).cause(), 1);
    assert_eq!(Exception::IllegalInstruction(2).cause(), 2);
    assert_eq!(Exception::Breakpoint.cause(), 3);
    assert_eq!(Exception::LoadAddressMisaligned.cause(), 4);
    assert_eq!(Exception::LoadAccessFault(5).cause(), 5);
    assert_eq!(Exception::StoreAddressMisaligned.cause(), 6);
    assert_eq!(Exception::StoreAccessFault(7).cause(), 7);
    assert_eq!(Exception::EnvironmentCallFromUMode.cause(), 8);
    assert_eq!(Exception::EnvironmentCallFromSMode.cause(), 9);
    assert_eq!(Exception::EnvironmentCallFromMMode.cause(), 11);
    assert_eq!(Exception::InstructionPageFault(12).cause(), 12);
    assert_eq!(Exception::LoadPageFault(13).cause(), 13);
    assert_eq!(Exception::StoreOrAmoPageFault(15).cause(), 15);
}
