use phoenix::AddressingMode::AddressRegisterDirect;
use phoenix::AddressingMode::AddressRegisterIndirect;
use phoenix::AddressingMode::AddressRegisterIndirectDisplacement;
use phoenix::AddressingMode::AddressRegisterIndirectIndex;
use phoenix::AddressingMode::AddressRegisterIndirectPostIncrement;
use phoenix::AddressingMode::AddressRegisterIndirectPreDecrement;
use phoenix::AddressingMode::DataRegisterDirect;
use phoenix::AddressingMode::Extension;
use phoenix::Cpu;
use phoenix::ExtensionMode::Immediate;
use phoenix::ExtensionMode::Long;
use phoenix::ExtensionMode::PcRelativeDisplacement;
use phoenix::ExtensionMode::PcRelativeIndex;
use phoenix::ExtensionMode::Word;
use phoenix::Mmu;

const ADDR_REG: [u32; 7] = [
    0x00001000, 0x000000A0, 0x00000050, 0x33123456, 0x00000000, 0x00000000, 0x0000008C,
];
const DATA_REG: [u32; 8] = [
    0x12345678, 0x00000004, 0x00000001, 0xFF00FF00, 0x00FF00FF, 0xD5333333, 0x88888888, 0x00000000,
];

const MEM: [u8; 176] = [
    /* 0x00 */ 0x8d, 0x3a, 0xa8, 0xcb, 0x7d, 0x31, 0x5e, 0xa1, 0x93, 0xa5, 0x61, 0x45, 0x00, 0x00, 0x00, 0x80,
    /* 0x10 */ 0xa5, 0x98, 0xad, 0xc8, 0xb9, 0xa0, 0xc3, 0xc8, 0x17, 0x2b, 0x9e, 0xc8, 0x9b, 0xb2, 0x70, 0xff,
    /* 0x20 */ 0xaa, 0x2d, 0x13, 0x31, 0xc1, 0x34, 0xd7, 0xfd, 0x18, 0x13, 0xcc, 0x01, 0x53, 0xdb, 0xfb, 0x7b,
    /* 0x30 */ 0x1c, 0xdb, 0xa6, 0x7b, 0x19, 0xf6, 0xaa, 0xfe, 0x59, 0x76, 0x0c, 0x87, 0x75, 0x04, 0x48, 0x57,
    /* 0x40 */ 0x16, 0xe0, 0x92, 0xb5, 0x96, 0x0d, 0x0f, 0xd8, 0xfd, 0xc7, 0xb6, 0x82, 0x05, 0x56, 0x89, 0xe9,
    /* 0x50 */ 0x33, 0x21, 0x83, 0x7a, 0x50, 0xe2, 0xee, 0x3e, 0xdb, 0xf6, 0xe0, 0x0f, 0xde, 0x63, 0xfc, 0xc4,
    /* 0x60 */ 0x1d, 0x48, 0x52, 0x3f, 0x28, 0x36, 0x29, 0xaa, 0x5d, 0x66, 0xd9, 0x41, 0x7c, 0x33, 0x62, 0xb9,
    /* 0x70 */ 0xfd, 0xbc, 0xd6, 0xfa, 0xa2, 0x32, 0xb8, 0xd8, 0xa0, 0x13, 0x1c, 0xba, 0x1b, 0xef, 0x93, 0x96,
    /* 0x80 */ 0x75, 0x68, 0x19, 0xf3, 0x2d, 0x13, 0xba, 0x27, 0xdc, 0x16, 0x51, 0xa9, 0x65, 0xff, 0xfd, 0x86,
    /* 0x90 */ 0xd7, 0x04, 0xd0, 0x72, 0x15, 0xab, 0x8b, 0x89, 0xe3, 0x4d, 0x86, 0xf2, 0x00, 0x00, 0x00, 0x10,
    /* 0xA0 */ 0x00, 0x00, 0x00, 0x0c, 0x00, 0x00, 0x00, 0x88, 0x18, 0x10, 0x00, 0x0c, 0xff, 0xff, 0xff, 0xe2,
];

fn ea_cpu(pc: u32) -> Cpu {
    Cpu {
        sr: 0x0000,
        pc,
        data_registers: DATA_REG.to_vec(),
        addr_registers: ADDR_REG.to_vec(),
        usp: 0,
        ssp: 0,
        mmu: Mmu::from_vec(MEM.to_vec()),
        console: Vec::new(),
        halted: false,
    }
}

#[test]
fn test_address_register_direct() {
    let mut cpu = ea_cpu(0x00000100);
    let ea = cpu.read_ea_long(AddressRegisterDirect(3)).unwrap();
    assert_eq!(ea, 0x33123456);
}

#[test]
fn test_data_register_direct() {
    let mut cpu = ea_cpu(0x00000100);
    let ea = cpu.read_ea_long(DataRegisterDirect(5)).unwrap();
    assert_eq!(ea, 0xD5333333);
}

#[test]
fn test_address_register_indirect() {
    let mut cpu = ea_cpu(0x00000100);
    let ea = cpu.read_ea_long(AddressRegisterIndirect(2)).unwrap();
    assert_eq!(ea, 0x3321837A);
}

#[test]
fn test_address_register_indirect_postincrement() {
    let mut cpu = ea_cpu(0x00000100);
    let ea = cpu.read_ea_long(AddressRegisterIndirectPostIncrement(2)).unwrap();
    assert_eq!(ea, 0x3321837A);
    assert_eq!(cpu.addr_registers[2], 0x00000054);
}

#[test]
fn test_address_register_indirect_predecrement() {
    let mut cpu = ea_cpu(0x00000100);
    let ea = cpu.read_ea_long(AddressRegisterIndirectPreDecrement(2)).unwrap();
    assert_eq!(ea, 0x055689E9);
    assert_eq!(cpu.addr_registers[2], 0x0000004C);
}

#[test]
fn test_address_register_indirect_displacement() {
    let mut cpu = ea_cpu(0x000000a2);
    let ea = cpu.read_ea_long(AddressRegisterIndirectDisplacement(2)).unwrap();
    assert_eq!(ea, 0xDE63FCC4);
}

#[test]
fn test_address_register_indirect_index() {
    let mut cpu = ea_cpu(0x000000A8);
    let ea = cpu.read_ea_long(AddressRegisterIndirectIndex(2)).unwrap();
    assert_eq!(ea, 0xFDBCD6FA);
}

// the base for both program-counter relative modes is the address of the
// extension word itself: 0xAE plus the displacement -30 reads at 0x90
#[test]
fn test_pc_relative_displacement() {
    let mut cpu = ea_cpu(0x000000AE);
    let ea = cpu.read_ea_long(Extension(PcRelativeDisplacement)).unwrap();
    assert_eq!(ea, 0xD704D072);
}

#[test]
fn test_pc_relative_index() {
    let mut cpu = ea_cpu(0x000000AE);
    let ea = cpu.read_ea_long(Extension(PcRelativeIndex)).unwrap();
    assert_eq!(ea, 0xD704D072);
}

#[test]
fn test_absolute_word() {
    let mut cpu = ea_cpu(0x000000A6);
    let ea = cpu.read_ea_word(Extension(Word)).unwrap();
    assert_eq!(ea, 0xDC16);
}

#[test]
fn test_absolute_long() {
    let mut cpu = ea_cpu(0x000000A4);
    let ea = cpu.read_ea_long(Extension(Long)).unwrap();
    assert_eq!(ea, 0xDC1651A9);
}

#[test]
fn test_immediate() {
    let mut cpu = ea_cpu(0x000000A4);
    let ea = cpu.read_ea_long(Extension(Immediate)).unwrap();
    assert_eq!(ea, 0x00000088);
}

// the stack pointer moves by two even for a byte-wide step, so that it
// stays word aligned
#[test]
fn test_sp_byte_step_is_two() {
    let mut cpu = Cpu::default();
    cpu.write_sr(0x2000);
    cpu.write_ssp(0x1000);
    cpu.mmu.write_byte(0x1000, 0x7E);
    let b = cpu.read_ea_byte(AddressRegisterIndirectPostIncrement(7)).unwrap();
    assert_eq!(b, 0x7E);
    assert_eq!(cpu.read_ssp(), 0x1002);
    let _ = cpu.read_ea_byte(AddressRegisterIndirectPreDecrement(7)).unwrap();
    assert_eq!(cpu.read_ssp(), 0x1000);
    // an ordinary address register steps by one
    cpu.write_ar(0, 0x2000);
    let _ = cpu.read_ea_byte(AddressRegisterIndirectPostIncrement(0)).unwrap();
    assert_eq!(cpu.read_ar(0), 0x2001);
}

#[test]
fn test_write_ea_word_to_address_register_sign_extends() {
    let mut cpu = Cpu::default();
    cpu.write_ar(2, 0xAAAAAAAA);
    cpu.write_ea_word(AddressRegisterDirect(2), 0x8000).unwrap();
    assert_eq!(cpu.read_ar(2), 0xFFFF8000);
}

#[test]
fn test_write_ea_round_trip_memory() {
    let mut cpu = Cpu::default();
    cpu.write_ar(1, 0x3000);
    cpu.write_ea_long(AddressRegisterIndirect(1), 0xCAFEBABE).unwrap();
    let back = cpu.read_ea_long(AddressRegisterIndirect(1)).unwrap();
    assert_eq!(back, 0xCAFEBABE);
}

#[test]
fn test_misaligned_word_read_faults() {
    let mut cpu = Cpu::default();
    cpu.write_ar(1, 0x3001);
    assert_eq!(cpu.read_ea_word(AddressRegisterIndirect(1)), Err(phoenix::Fault::Misaligned));
}

// a word-sized index register is sign-extended before it joins the offset
#[test]
fn test_index_word_sign_extends() {
    let mut cpu = Cpu::default();
    cpu.write_ar(0, 0x9000);
    cpu.write_dr(1, phoenix::Size::Long, 0x0001_8000);
    // extension word: data register 1, word-sized index, displacement 5
    cpu.mmu.write_word(0x400, 0x1005);
    cpu.mmu.write_byte(0x1005, 0xAB);
    cpu.mmu.write_byte(0x11005, 0xCD);
    cpu.write_pc(0x400);
    let b = cpu.read_ea_byte(AddressRegisterIndirectIndex(0)).unwrap();
    assert_eq!(b, 0xAB);
}

// the indexed write paths scale the index exactly as the reads of the same
// width do
#[test]
fn test_index_write_scale_mirrors_read() {
    let mut cpu = Cpu::default();
    cpu.write_ar(0, 0x4000);
    cpu.write_dr(1, phoenix::Size::Long, 3);
    // extension word: data register 1, long-sized index, displacement 0
    cpu.mmu.write_word(0x400, 0x1800);
    cpu.write_pc(0x400);
    cpu.write_ea_byte(AddressRegisterIndirectIndex(0), 0x5A).unwrap();
    assert_eq!(cpu.mmu.read_byte(0x4003), 0x5A);
    cpu.mmu.write_word(0x402, 0x1800);
    cpu.write_ea_word(AddressRegisterIndirectIndex(0), 0xBEEF).unwrap();
    assert_eq!(cpu.mmu.read_word(0x4006), 0xBEEF);
}
