use phoenix::AddressingMode;
use phoenix::ConditionCode;
use phoenix::Cpu;
use phoenix::ExtensionMode;
use phoenix::Size;
use phoenix::SizeCoding;
use phoenix::StatusRegister as SR;
use phoenix::Value;
use phoenix::Vector;

#[test]
fn test_x() {
    let mut cpu = Cpu::default();
    assert!(!cpu.read_ccr(SR::X));
    cpu.write_ccr(SR::X, true);
    assert!(cpu.read_ccr(SR::X));
    cpu.write_ccr(SR::X, false);
    assert!(!cpu.read_ccr(SR::X));
}

#[test]
fn test_c() {
    let mut cpu = Cpu::default();
    assert!(!cpu.read_ccr(SR::C));
    cpu.write_ccr(SR::C, true);
    assert!(cpu.read_ccr(SR::C));
    cpu.write_ccr(SR::C, false);
    assert!(!cpu.read_ccr(SR::C));
}

#[test]
fn test_long_stack() {
    let mut cpu = Cpu::default();
    cpu.write_sp(0xFFF0);
    cpu.push_long(0xFAFABABA).unwrap();
    cpu.push_long(0xABBA1050).unwrap();
    assert_eq!(cpu.pop_long().unwrap(), 0xABBA1050);
    assert_eq!(cpu.pop_long().unwrap(), 0xFAFABABA);
}

// pushing a row of longs and popping them again restores the stack pointer
// and hands them back newest first
#[test]
fn test_stack_round_trip_many() {
    let mut cpu = Cpu::default();
    cpu.write_sp(0x8000);
    let vals = vec![0x11111111u32, 0x22222222, 0x33333333, 0x44444444];
    for v in &vals {
        cpu.push_long(*v).unwrap();
    }
    assert_eq!(cpu.read_sp(), 0x8000 - 16);
    for v in vals.iter().rev() {
        assert_eq!(cpu.pop_long().unwrap(), *v);
    }
    assert_eq!(cpu.read_sp(), 0x8000);
}

#[test]
fn test_word_stack_moves_by_two() {
    let mut cpu = Cpu::default();
    cpu.write_sp(0x4000);
    cpu.push_word(0xBEEF).unwrap();
    assert_eq!(cpu.read_sp(), 0x3FFE);
    assert_eq!(cpu.pop_word().unwrap(), 0xBEEF);
    assert_eq!(cpu.read_sp(), 0x4000);
}

// register seven names SSP in supervisor mode and USP in user mode
#[test]
fn test_sp_routing_follows_s_bit() {
    let mut cpu = Cpu::default();
    cpu.write_ssp(0x1000);
    cpu.write_usp(0x2000);
    cpu.write_sr(0x2000);
    assert_eq!(cpu.read_ar(7), 0x1000);
    assert_eq!(cpu.read_sp(), 0x1000);
    cpu.write_sr(0x0000);
    assert_eq!(cpu.read_ar(7), 0x2000);
    cpu.write_ar(7, 0x3000);
    assert_eq!(cpu.read_usp(), 0x3000);
    assert_eq!(cpu.read_ssp(), 0x1000);
}

// a byte write keeps the upper twenty-four bits, a word write the upper
// sixteen, a long write replaces everything
#[test]
fn test_dr_width_writes() {
    let mut cpu = Cpu::default();
    cpu.write_dr_long(3, 0xAABBCCDD);
    cpu.write_dr_byte(3, 0x11);
    assert_eq!(cpu.read_dr(3), 0xAABBCC11);
    cpu.write_dr_word(3, 0x2233);
    assert_eq!(cpu.read_dr(3), 0xAABB2233);
    cpu.write_dr_long(3, 0x00000001);
    assert_eq!(cpu.read_dr(3), 1);
}

#[test]
fn test_trap_vec_frame() {
    let mut cpu = Cpu::default();
    cpu.write_sr(0x0000);
    cpu.write_usp(0x00FF0000);
    cpu.write_ssp(0x2000);
    cpu.write_pc(0x1234);
    cpu.mmu.write_long(0x20, 0x00000800);
    cpu.trap_vec(0x20).unwrap();
    // supervisor entered, old program counter then old status register pushed
    assert_eq!(cpu.read_sr() & 0x2000, 0x2000);
    assert_eq!(cpu.read_ssp(), 0x2000 - 6);
    assert_eq!(cpu.mmu.read_word(0x2000 - 6), 0x0000);
    assert_eq!(cpu.mmu.read_long(0x2000 - 4), 0x1234);
    assert_eq!(cpu.read_pc(), 0x800);
}

#[test]
fn test_condition_code_table() {
    let mut cpu = Cpu::default();
    assert!(cpu.test_cc(ConditionCode::True));
    assert!(!cpu.test_cc(ConditionCode::False));
    cpu.write_ccr(SR::Z, true);
    assert!(cpu.test_cc(ConditionCode::Equal));
    assert!(!cpu.test_cc(ConditionCode::NotEqual));
    assert!(cpu.test_cc(ConditionCode::LowerOrSame));
    assert!(!cpu.test_cc(ConditionCode::Higher));
    assert!(!cpu.test_cc(ConditionCode::GreaterThan));
    assert!(cpu.test_cc(ConditionCode::LessOrEqual));
    cpu.write_ccr(SR::Z, false);
    cpu.write_ccr(SR::N, true);
    assert!(cpu.test_cc(ConditionCode::Minus));
    assert!(!cpu.test_cc(ConditionCode::Plus));
    assert!(cpu.test_cc(ConditionCode::LessThan));
    assert!(!cpu.test_cc(ConditionCode::GreaterOrEqual));
    cpu.write_ccr(SR::V, true);
    assert!(cpu.test_cc(ConditionCode::GreaterOrEqual));
    assert!(cpu.test_cc(ConditionCode::GreaterThan));
    cpu.write_ccr(SR::C, true);
    assert!(cpu.test_cc(ConditionCode::CarrySet));
    assert!(!cpu.test_cc(ConditionCode::CarryClear));
    assert!(cpu.test_cc(ConditionCode::OverflowSet));
    assert!(!cpu.test_cc(ConditionCode::OverflowClear));
}

#[test]
fn test_fetch_and_peep() {
    let mut cpu = Cpu::default();
    cpu.mmu.write_word(0x400, 0x1234);
    cpu.mmu.write_word(0x402, 0xFFF6);
    cpu.write_pc(0x400);
    assert_eq!(cpu.peep_word().unwrap(), 0x1234);
    assert_eq!(cpu.peep_long().unwrap(), 0x1234_FFF6);
    assert_eq!(cpu.read_pc(), 0x400);
    assert_eq!(cpu.fetch_word().unwrap(), 0x1234);
    assert_eq!(cpu.read_pc(), 0x402);
    assert_eq!(cpu.fetch_signed_word().unwrap(), -10);
    assert_eq!(cpu.read_pc(), 0x404);
}

#[test]
fn test_size_decodings() {
    assert_eq!(phoenix::get_size(0x0000, 6, SizeCoding::Pink), Size::Byte);
    assert_eq!(phoenix::get_size(0x0040, 6, SizeCoding::Pink), Size::Word);
    assert_eq!(phoenix::get_size(0x0080, 6, SizeCoding::Pink), Size::Long);
    assert_eq!(phoenix::get_size(0x1000, 12, SizeCoding::Purple), Size::Byte);
    assert_eq!(phoenix::get_size(0x3000, 12, SizeCoding::Purple), Size::Word);
    assert_eq!(phoenix::get_size(0x2000, 12, SizeCoding::Purple), Size::Long);
    assert_eq!(Size::Byte.bytes(), 1);
    assert_eq!(Size::Long.bits(), 32);
}

#[test]
fn test_addressing_mode_decode() {
    assert_eq!(AddressingMode::from(0b000_011), AddressingMode::DataRegisterDirect(3));
    assert_eq!(AddressingMode::from(0b011_001), AddressingMode::AddressRegisterIndirectPostIncrement(1));
    assert_eq!(AddressingMode::from(0b100_111), AddressingMode::AddressRegisterIndirectPreDecrement(7));
    assert_eq!(
        AddressingMode::from(0b111_100),
        AddressingMode::Extension(ExtensionMode::Immediate)
    );
    assert!(AddressingMode::field_valid(0b111_100));
    assert!(!AddressingMode::field_valid(0b111_101));
}

#[test]
fn test_condition_code_decode() {
    assert_eq!(ConditionCode::from(0), ConditionCode::True);
    assert_eq!(ConditionCode::from(1), ConditionCode::False);
    assert_eq!(ConditionCode::from(7), ConditionCode::Equal);
    assert_eq!(ConditionCode::from(15), ConditionCode::LessOrEqual);
}

#[test]
fn test_value_helpers() {
    assert_eq!(Value::Byte(0xFF).wrapping_add_u8(1), Value::Byte(0));
    assert_eq!(Value::Word(0x0000).wrapping_sub_u8(1), Value::Word(0xFFFF));
    assert_eq!(Value::Long(7).to_u32(), 7);
    assert_eq!(phoenix::nibble_to_bcd(7), 7);
    assert!(phoenix::is_zero(0x100, Size::Byte));
    assert!(!phoenix::is_zero(0x100, Size::Word));
}

#[test]
fn test_vector_offsets() {
    assert_eq!(Vector::IllegalInstruction.offset(), 0x10);
    assert_eq!(Vector::Chk.offset(), 0x18);
    assert_eq!(Vector::PrivilegeViolation.offset(), 0x20);
    assert_eq!(Vector::Trap.offset(), 0x80);
}
