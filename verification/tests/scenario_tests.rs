use phoenix::Cpu;
use phoenix::Fault;
use phoenix::Size;
use phoenix::StatusRegister as SR;
use phoenix::VM;

// MOVE.W #$1234, D0 at 0x400: one step loads the word and clears the flags
#[test]
fn test_scenario_basic_move() {
    let mut vm = VM::new();
    vm.cpu.mmu.write_word(0x400, 0x303C);
    vm.cpu.mmu.write_word(0x402, 0x1234);
    vm.set_pc(0x400);
    vm.step().unwrap();
    assert_eq!(vm.read_dr()[0], 0x0000_1234);
    assert_eq!(vm.read_pc(), 0x0404);
    assert!(!vm.read_ccr(SR::Z));
    assert!(!vm.read_ccr(SR::N));
    assert!(!vm.read_ccr(SR::V));
    assert!(!vm.read_ccr(SR::C));
}

// ADD.L D0, D1 with a wrap to zero sets X, C and Z
#[test]
fn test_scenario_add_with_carry() {
    let mut cpu = Cpu::default();
    cpu.write_dr(0, Size::Long, 0xFFFF_FFFF);
    cpu.write_dr(1, Size::Long, 0x0000_0001);
    cpu.mmu.write_word(0x400, 0xD280);
    cpu.write_pc(0x400);
    cpu.step().unwrap();
    assert_eq!(cpu.read_dr(1), 0x0000_0000);
    assert!(cpu.read_ccr(SR::X));
    assert!(cpu.read_ccr(SR::C));
    assert!(cpu.read_ccr(SR::Z));
    assert!(!cpu.read_ccr(SR::N));
    assert!(!cpu.read_ccr(SR::V));
}

// BSR with a word displacement pushes the return address; RTS pops it back
#[test]
fn test_scenario_bsr_rts_round_trip() {
    let mut cpu = Cpu::default();
    cpu.write_sr(0x0000);
    cpu.write_usp(0x10000);
    cpu.mmu.write_word(0x400, 0x6100);
    cpu.mmu.write_word(0x402, 0x0010);
    cpu.write_pc(0x400);
    cpu.step().unwrap();
    assert_eq!(cpu.read_pc(), 0x0412);
    assert_eq!(cpu.read_usp(), 0xFFFC);
    assert_eq!(cpu.mmu.read_long(0xFFFC), 0x0000_0404);
    cpu.mmu.write_word(0x412, 0x4E75);
    cpu.step().unwrap();
    assert_eq!(cpu.read_pc(), 0x0404);
    assert_eq!(cpu.read_usp(), 0x10000);
}

// MOVE to SR from user mode takes the privilege-violation trap through
// vector 8 at address 0x20
#[test]
fn test_scenario_privilege_violation() {
    let mut cpu = Cpu::default();
    cpu.write_sr(0x0000);
    cpu.write_ssp(0x2000);
    cpu.mmu.write_word(0x400, 0x46FC);
    cpu.mmu.write_word(0x402, 0x2000);
    cpu.mmu.write_long(0x20, 0x0000_0800);
    cpu.write_pc(0x400);
    cpu.step().unwrap();
    assert_eq!(cpu.read_sr() & 0x2000, 0x2000);
    assert_eq!(cpu.read_ssp(), 0x2000 - 6);
    assert_eq!(cpu.mmu.read_word(0x2000 - 6), 0x0000);
    assert_eq!(cpu.mmu.read_long(0x2000 - 4), 0x0000_0402);
    assert_eq!(cpu.read_pc(), 0x0800);
}

// DBF counts the low word of D0 down through 2, 1, 0 and 0xFFFF; the branch
// is taken while the counter has not passed minus one
#[test]
fn test_scenario_dbf_loop() {
    let mut cpu = Cpu::default();
    cpu.write_dr(0, Size::Long, 3);
    cpu.mmu.write_word(0x400, 0x51C8);
    cpu.mmu.write_word(0x402, 0xFFFE);
    cpu.write_pc(0x400);
    cpu.step().unwrap();
    assert_eq!(cpu.read_dr(0), 2);
    assert_eq!(cpu.read_pc(), 0x400);
    cpu.step().unwrap();
    assert_eq!(cpu.read_dr(0), 1);
    assert_eq!(cpu.read_pc(), 0x400);
    cpu.step().unwrap();
    assert_eq!(cpu.read_dr(0), 0);
    assert_eq!(cpu.read_pc(), 0x400);
    cpu.step().unwrap();
    assert_eq!(cpu.read_dr(0), 0xFFFF);
    assert_eq!(cpu.read_pc(), 0x404);
}

// MOVEM.L D0-D1, -(A7): the higher-numbered register is stored first at the
// higher address, so a later post-increment load restores both
#[test]
fn test_scenario_movem_predecrement() {
    let mut cpu = Cpu::default();
    cpu.write_ssp(0x1010);
    cpu.write_dr(0, Size::Long, 0x11111111);
    cpu.write_dr(1, Size::Long, 0x22222222);
    cpu.mmu.write_word(0x400, 0x48E7);
    cpu.mmu.write_word(0x402, 0xC000);
    cpu.write_pc(0x400);
    cpu.step().unwrap();
    assert_eq!(cpu.read_ssp(), 0x1008);
    assert_eq!(cpu.mmu.read_long(0x1008), 0x11111111);
    assert_eq!(cpu.mmu.read_long(0x100C), 0x22222222);
    // and the matching restore: MOVEM.L (A7)+, D0-D1
    cpu.write_dr(0, Size::Long, 0);
    cpu.write_dr(1, Size::Long, 0);
    cpu.mmu.write_word(0x404, 0x4CDF);
    cpu.mmu.write_word(0x406, 0x0003);
    cpu.step().unwrap();
    assert_eq!(cpu.read_dr(0), 0x11111111);
    assert_eq!(cpu.read_dr(1), 0x22222222);
    assert_eq!(cpu.read_ssp(), 0x1010);
}

// NOT-NOT restores a register, NEG-NEG does too, SWAP-SWAP likewise
#[test]
fn test_involution_identities() {
    let mut cpu = Cpu::default();
    cpu.write_dr(0, Size::Long, 0x1234_5678);
    cpu.write_pc(0x400);
    // NOT.L D0 twice
    cpu.mmu.write_word(0x400, 0x4680);
    cpu.mmu.write_word(0x402, 0x4680);
    cpu.step().unwrap();
    assert_eq!(cpu.read_dr(0), !0x1234_5678u32);
    cpu.step().unwrap();
    assert_eq!(cpu.read_dr(0), 0x1234_5678);
    // NEG.L D0 twice
    cpu.mmu.write_word(0x404, 0x4480);
    cpu.mmu.write_word(0x406, 0x4480);
    cpu.step().unwrap();
    assert_eq!(cpu.read_dr(0), 0x1234_5678u32.wrapping_neg());
    cpu.step().unwrap();
    assert_eq!(cpu.read_dr(0), 0x1234_5678);
    // SWAP D0 twice
    cpu.mmu.write_word(0x408, 0x4840);
    cpu.mmu.write_word(0x40A, 0x4840);
    cpu.step().unwrap();
    assert_eq!(cpu.read_dr(0), 0x5678_1234);
    cpu.step().unwrap();
    assert_eq!(cpu.read_dr(0), 0x1234_5678);
}

// the halt convention stops the machine and run reports a clean halt
#[test]
fn test_run_until_halt() {
    let mut vm = VM::new();
    // MOVEQ #42, D0 then the halt word
    vm.cpu.mmu.write_word(0x400, 0x702A);
    vm.cpu.mmu.write_word(0x402, 0xFFFF);
    vm.set_pc(0x400);
    vm.run().unwrap();
    assert_eq!(vm.read_dr()[0], 42);
    assert!(vm.cpu.halted);
    assert_eq!(vm.read_pc(), 0x402);
}

// opcodes this core does not implement surface as a fault
#[test]
fn test_unimplemented_opcode_faults() {
    let mut cpu = Cpu::default();
    // SBCD D0, D0
    cpu.mmu.write_word(0x400, 0x8100);
    cpu.write_pc(0x400);
    assert_eq!(cpu.step(), Err(Fault::Unimplemented));
    // ROXL.L #8, D0 (rotate-with-extend, register form)
    cpu.mmu.write_word(0x402, 0xE190);
    cpu.write_pc(0x402);
    assert_eq!(cpu.step(), Err(Fault::Unimplemented));
}

// LEA with a data-register source names no address
#[test]
fn test_illegal_mode_faults() {
    let mut cpu = Cpu::default();
    // LEA D0, A0
    cpu.mmu.write_word(0x400, 0x41C0);
    cpu.write_pc(0x400);
    assert_eq!(cpu.step(), Err(Fault::IllegalMode));
}

// a fetch from an odd program counter faults
#[test]
fn test_odd_pc_faults() {
    let mut cpu = Cpu::default();
    cpu.write_pc(0x401);
    assert_eq!(cpu.step(), Err(Fault::Misaligned));
}

// the ILLEGAL opcode enters the illegal-instruction trap through vector 4
#[test]
fn test_illegal_instruction_trap() {
    let mut cpu = Cpu::default();
    cpu.write_ssp(0x2000);
    cpu.mmu.write_word(0x400, 0x4AFC);
    cpu.mmu.write_long(0x10, 0x0000_0900);
    cpu.write_pc(0x400);
    cpu.step().unwrap();
    assert_eq!(cpu.read_pc(), 0x0900);
    assert_eq!(cpu.read_ssp(), 0x2000 - 6);
    assert_eq!(cpu.mmu.read_long(0x2000 - 4), 0x0000_0402);
}

// TRAP #15 task 14 copies the zero-terminated string at A1 to the console
#[test]
fn test_console_print_string() {
    let mut cpu = Cpu::default();
    cpu.mmu.write_byte(0x3000, 0x68);
    cpu.mmu.write_byte(0x3001, 0x69);
    cpu.mmu.write_byte(0x3002, 0x00);
    cpu.write_dr(0, Size::Long, 14);
    cpu.write_ar(1, 0x3000);
    cpu.mmu.write_word(0x400, 0x4E4F);
    cpu.write_pc(0x400);
    cpu.step().unwrap();
    assert_eq!(cpu.console, vec![0x68, 0x69]);
}

// TRAP #15 task 3 prints the signed number in D1 as one line
#[test]
fn test_console_print_signed() {
    let mut cpu = Cpu::default();
    cpu.write_dr(0, Size::Long, 3);
    cpu.write_dr(1, Size::Long, 0xFFFF_FFFBu32);
    cpu.mmu.write_word(0x400, 0x4E4F);
    cpu.write_pc(0x400);
    cpu.step().unwrap();
    assert_eq!(cpu.console, vec![0x2D, 0x35, 0x0A]);
    cpu.write_dr(1, Size::Long, 12045);
    cpu.write_pc(0x400);
    cpu.step().unwrap();
    assert_eq!(&cpu.console[3..], &[0x31, 0x32, 0x30, 0x34, 0x35, 0x0A]);
}

// CLR.W leaves the upper half of the register alone and sets Z
#[test]
fn test_clr_word() {
    let mut cpu = Cpu::default();
    cpu.write_dr(2, Size::Long, 0xAABB_CCDD);
    cpu.mmu.write_word(0x400, 0x4242);
    cpu.write_pc(0x400);
    cpu.step().unwrap();
    assert_eq!(cpu.read_dr(2), 0xAABB_0000);
    assert!(cpu.read_ccr(SR::Z));
    assert!(!cpu.read_ccr(SR::N));
}

// EXT.W and EXT.L sign-extend the low part of a data register
#[test]
fn test_ext_sign_extension() {
    let mut cpu = Cpu::default();
    cpu.write_dr(1, Size::Long, 0x0000_0080);
    // EXT.W D1
    cpu.mmu.write_word(0x400, 0x4881);
    cpu.write_pc(0x400);
    cpu.step().unwrap();
    assert_eq!(cpu.read_dr(1), 0x0000_FF80);
    // EXT.L D1
    cpu.mmu.write_word(0x402, 0x48C1);
    cpu.step().unwrap();
    assert_eq!(cpu.read_dr(1), 0xFFFF_FF80);
    assert!(cpu.read_ccr(SR::N));
}

// CMP.L sets the flags of the difference without writing the register
#[test]
fn test_cmp_sets_flags_only() {
    let mut cpu = Cpu::default();
    cpu.write_dr(0, Size::Long, 5);
    cpu.write_dr(1, Size::Long, 7);
    // CMP.L D0, D1
    cpu.mmu.write_word(0x400, 0xB280);
    cpu.write_pc(0x400);
    cpu.step().unwrap();
    assert_eq!(cpu.read_dr(1), 7);
    assert!(!cpu.read_ccr(SR::Z));
    assert!(!cpu.read_ccr(SR::N));
    assert!(!cpu.read_ccr(SR::C));
    // now the other way: 5 - 7 borrows and goes negative
    cpu.write_dr(1, Size::Long, 9);
    // CMP.L D1, D0
    cpu.mmu.write_word(0x402, 0xB081);
    cpu.step().unwrap();
    assert!(cpu.read_ccr(SR::N));
    assert!(cpu.read_ccr(SR::C));
}

// LSL.B shifts within the byte and the last bit out lands in C and X
#[test]
fn test_shift_flags() {
    let mut cpu = Cpu::default();
    cpu.write_dr(3, Size::Long, 0xFFFF_FF81);
    // LSL.B #1, D3
    cpu.mmu.write_word(0x400, 0xE30B);
    cpu.write_pc(0x400);
    cpu.step().unwrap();
    assert_eq!(cpu.read_dr(3), 0xFFFF_FF02);
    assert!(cpu.read_ccr(SR::C));
    assert!(cpu.read_ccr(SR::X));
    // LSR.B #1, D3
    cpu.mmu.write_word(0x402, 0xE20B);
    cpu.step().unwrap();
    assert_eq!(cpu.read_dr(3), 0xFFFF_FF01);
    assert!(!cpu.read_ccr(SR::C));
}

// ROR.W by four rotates the low word of the register
#[test]
fn test_rotate_word() {
    let mut cpu = Cpu::default();
    cpu.write_dr(2, Size::Long, 0x0000_1234);
    // ROR.W #4, D2
    cpu.mmu.write_word(0x400, 0xE85A);
    cpu.write_pc(0x400);
    cpu.step().unwrap();
    assert_eq!(cpu.read_dr(2), 0x0000_4123);
}

// ADDQ #1 to a data register and SUBQ back
#[test]
fn test_addq_subq() {
    let mut cpu = Cpu::default();
    cpu.write_dr(5, Size::Long, 0x0000_00FF);
    // ADDQ.B #1, D5 wraps the byte
    cpu.mmu.write_word(0x400, 0x5205);
    cpu.write_pc(0x400);
    cpu.step().unwrap();
    assert_eq!(cpu.read_dr(5), 0x0000_0000);
    assert!(cpu.read_ccr(SR::Z));
    assert!(cpu.read_ccr(SR::C));
    // SUBQ.B #1, D5 wraps back
    cpu.mmu.write_word(0x402, 0x5305);
    cpu.step().unwrap();
    assert_eq!(cpu.read_dr(5), 0x0000_00FF);
    assert!(cpu.read_ccr(SR::N));
}

// BTST with an immediate bit number sets Z when the bit is clear
#[test]
fn test_btst_immediate() {
    let mut cpu = Cpu::default();
    cpu.write_dr(0, Size::Long, 0b100);
    // BTST #2, D0
    cpu.mmu.write_word(0x400, 0x0800);
    cpu.mmu.write_word(0x402, 0x0002);
    cpu.write_pc(0x400);
    cpu.step().unwrap();
    assert!(!cpu.read_ccr(SR::Z));
    // BTST #3, D0
    cpu.mmu.write_word(0x404, 0x0800);
    cpu.mmu.write_word(0x406, 0x0003);
    cpu.step().unwrap();
    assert!(cpu.read_ccr(SR::Z));
}

// LINK builds a stack frame and UNLK tears it down
#[test]
fn test_link_unlk() {
    let mut cpu = Cpu::default();
    cpu.write_ssp(0x2000);
    cpu.write_ar(6, 0xAAAA_AAAA);
    // LINK A6, #-8
    cpu.mmu.write_word(0x400, 0x4E56);
    cpu.mmu.write_word(0x402, 0xFFF8);
    cpu.write_pc(0x400);
    cpu.step().unwrap();
    assert_eq!(cpu.mmu.read_long(0x1FFC), 0xAAAA_AAAA);
    assert_eq!(cpu.read_ar(6), 0x1FFC);
    assert_eq!(cpu.read_ssp(), 0x1FF4);
    // UNLK A6
    cpu.mmu.write_word(0x404, 0x4E5E);
    cpu.step().unwrap();
    assert_eq!(cpu.read_ar(6), 0xAAAA_AAAA);
    assert_eq!(cpu.read_ssp(), 0x2000);
}

// JSR through an address register and RTE after a TRAP
#[test]
fn test_trap_and_rte() {
    let mut cpu = Cpu::default();
    cpu.write_sr(0x0000);
    cpu.write_usp(0x8000);
    cpu.write_ssp(0x2000);
    // TRAP #0 jumps through vector 32 at 0x80
    cpu.mmu.write_long(0x80, 0x0000_0600);
    cpu.mmu.write_word(0x400, 0x4E40);
    cpu.write_pc(0x400);
    cpu.step().unwrap();
    assert_eq!(cpu.read_pc(), 0x600);
    assert_eq!(cpu.read_sr() & 0x2000, 0x2000);
    // RTE restores the user state saved by the trap
    cpu.mmu.write_word(0x600, 0x4E73);
    cpu.step().unwrap();
    assert_eq!(cpu.read_pc(), 0x402);
    assert_eq!(cpu.read_sr(), 0x0000);
    assert_eq!(cpu.read_ssp(), 0x2000);
}

// MOVEQ sign-extends its immediate into the whole register
#[test]
fn test_moveq_negative() {
    let mut cpu = Cpu::default();
    cpu.mmu.write_word(0x400, 0x70FF);
    cpu.write_pc(0x400);
    cpu.step().unwrap();
    assert_eq!(cpu.read_dr(0), 0xFFFF_FFFF);
    assert!(cpu.read_ccr(SR::N));
    assert!(!cpu.read_ccr(SR::Z));
}

// ORI.B sets bits in a register byte and EORI.B flips them back
#[test]
fn test_ori_eori() {
    let mut cpu = Cpu::default();
    cpu.write_dr(4, Size::Long, 0x0F);
    // ORI.B #$F0, D4
    cpu.mmu.write_word(0x400, 0x0004);
    cpu.mmu.write_word(0x402, 0x00F0);
    cpu.write_pc(0x400);
    cpu.step().unwrap();
    assert_eq!(cpu.read_dr(4), 0xFF);
    assert!(cpu.read_ccr(SR::N));
    // EORI.B #$F0, D4
    cpu.mmu.write_word(0x404, 0x0A04);
    cpu.mmu.write_word(0x406, 0x00F0);
    cpu.step().unwrap();
    assert_eq!(cpu.read_dr(4), 0x0F);
    assert!(!cpu.read_ccr(SR::N));
}

// MULS multiplies two signed words into a 32-bit product
#[test]
fn test_muls_signed() {
    let mut cpu = Cpu::default();
    cpu.write_dr(0, Size::Long, 0x0000_FFFF);
    cpu.write_dr(1, Size::Long, 7);
    // MULS.W D1, D0: -1 * 7
    cpu.mmu.write_word(0x400, 0xC1C1);
    cpu.write_pc(0x400);
    cpu.step().unwrap();
    assert_eq!(cpu.read_dr(0), 0xFFFF_FFF9);
    assert!(cpu.read_ccr(SR::N));
}

// Scc writes a byte of all ones where the condition holds and zero where not
#[test]
fn test_scc_writes_all_ones_or_zero() {
    let mut cpu = Cpu::default();
    cpu.write_dr(0, Size::Long, 0xAABB_CC00);
    cpu.write_ccr(SR::Z, true);
    // SEQ D0
    cpu.mmu.write_word(0x400, 0x57C0);
    cpu.write_pc(0x400);
    cpu.step().unwrap();
    assert_eq!(cpu.read_dr(0), 0xAABB_CCFF);
    cpu.write_ccr(SR::Z, false);
    cpu.mmu.write_word(0x402, 0x57C0);
    cpu.step().unwrap();
    assert_eq!(cpu.read_dr(0), 0xAABB_CC00);
}
