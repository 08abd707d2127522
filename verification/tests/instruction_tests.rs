use phoenix::Cpu;
use phoenix::Size;
use phoenix::StatusRegister as SR;

// MOVE.L between a register and memory through an address register
#[test]
fn test_move_long_to_memory() {
    let mut cpu = Cpu::default();
    cpu.write_dr(3, Size::Long, 0xDEAD_BEEF);
    cpu.write_ar(0, 0x3000);
    // MOVE.L D3, (A0)
    cpu.mmu.write_word(0x400, 0x2083);
    cpu.write_pc(0x400);
    cpu.step().unwrap();
    assert_eq!(cpu.mmu.read_long(0x3000), 0xDEAD_BEEF);
    assert!(cpu.read_ccr(SR::N));
    assert!(!cpu.read_ccr(SR::Z));
}

// MOVEA.W sign-extends the word into the whole address register
#[test]
fn test_movea_word_sign_extends() {
    let mut cpu = Cpu::default();
    cpu.write_dr(0, Size::Long, 0x0000_9000);
    // MOVEA.W D0, A1
    cpu.mmu.write_word(0x400, 0x3240);
    cpu.write_pc(0x400);
    cpu.step().unwrap();
    assert_eq!(cpu.read_ar(1), 0xFFFF_9000);
}

// JMP through an absolute long address
#[test]
fn test_jmp_absolute() {
    let mut cpu = Cpu::default();
    // JMP $1234.L
    cpu.mmu.write_word(0x400, 0x4EF9);
    cpu.mmu.write_long(0x402, 0x0000_1234);
    cpu.write_pc(0x400);
    cpu.step().unwrap();
    assert_eq!(cpu.read_pc(), 0x1234);
}

// JSR pushes the address after the operand and LEA only loads it
#[test]
fn test_jsr_and_lea() {
    let mut cpu = Cpu::default();
    cpu.write_ssp(0x2000);
    cpu.write_ar(2, 0x5000);
    // JSR (A2)
    cpu.mmu.write_word(0x400, 0x4E92);
    cpu.write_pc(0x400);
    cpu.step().unwrap();
    assert_eq!(cpu.read_pc(), 0x5000);
    assert_eq!(cpu.mmu.read_long(0x1FFC), 0x402);
    // LEA 8(A2), A3
    cpu.mmu.write_word(0x5000, 0x47EA);
    cpu.mmu.write_word(0x5002, 0x0008);
    cpu.step().unwrap();
    assert_eq!(cpu.read_ar(3), 0x5008);
    assert_eq!(cpu.read_pc(), 0x5004);
}

// MOVE from SR stores the whole status register
#[test]
fn test_move_from_sr() {
    let mut cpu = Cpu::default();
    cpu.write_sr(0x2015);
    // MOVE SR, D0
    cpu.mmu.write_word(0x400, 0x40C0);
    cpu.write_pc(0x400);
    cpu.step().unwrap();
    assert_eq!(cpu.read_dr(0) & 0xFFFF, 0x2015);
}

// MOVE to CCR touches only the low flags
#[test]
fn test_move_to_ccr() {
    let mut cpu = Cpu::default();
    cpu.write_dr(1, Size::Long, 0xFFFF);
    // MOVE D1, CCR
    cpu.mmu.write_word(0x400, 0x44C1);
    cpu.write_pc(0x400);
    cpu.step().unwrap();
    assert_eq!(cpu.read_sr(), 0x201F);
}

// ANDI to CCR clears flags, ORI to CCR sets them
#[test]
fn test_andi_ori_to_ccr() {
    let mut cpu = Cpu::default();
    cpu.write_ccr(SR::X, true);
    cpu.write_ccr(SR::C, true);
    // ANDI #$10, CCR keeps only X
    cpu.mmu.write_word(0x400, 0x023C);
    cpu.mmu.write_word(0x402, 0x0010);
    cpu.write_pc(0x400);
    cpu.step().unwrap();
    assert!(cpu.read_ccr(SR::X));
    assert!(!cpu.read_ccr(SR::C));
    // ORI #$04, CCR raises Z
    cpu.mmu.write_word(0x404, 0x003C);
    cpu.mmu.write_word(0x406, 0x0004);
    cpu.step().unwrap();
    assert!(cpu.read_ccr(SR::Z));
    assert!(cpu.read_ccr(SR::X));
}

// ADDA and SUBA move an address register without touching the flags
#[test]
fn test_adda_suba_leave_flags() {
    let mut cpu = Cpu::default();
    cpu.write_ccr(SR::Z, true);
    cpu.write_ar(4, 0x1000);
    cpu.write_dr(0, Size::Long, 0x8000);
    // ADDA.W D0, A4 sign-extends the word
    cpu.mmu.write_word(0x400, 0xD8C0);
    cpu.write_pc(0x400);
    cpu.step().unwrap();
    assert_eq!(cpu.read_ar(4), 0x1000u32.wrapping_add(0xFFFF_8000));
    assert!(cpu.read_ccr(SR::Z));
    // SUBA.L D0, A4 takes the whole register back out
    cpu.write_ar(4, 0x9000);
    cpu.mmu.write_word(0x402, 0x99C0);
    cpu.step().unwrap();
    assert_eq!(cpu.read_ar(4), 0x1000);
    assert!(cpu.read_ccr(SR::Z));
}

// SUB.L <ea>, Dn subtracts into the data register and sets the borrow
#[test]
fn test_sub_long_borrow() {
    let mut cpu = Cpu::default();
    cpu.write_dr(0, Size::Long, 3);
    cpu.write_dr(1, Size::Long, 5);
    // SUB.L D1, D0
    cpu.mmu.write_word(0x400, 0x9081);
    cpu.write_pc(0x400);
    cpu.step().unwrap();
    assert_eq!(cpu.read_dr(0), 3u32.wrapping_sub(5));
    assert!(cpu.read_ccr(SR::C));
    assert!(cpu.read_ccr(SR::X));
    assert!(cpu.read_ccr(SR::N));
}

// ADDX adds the extend bit along with the operands
#[test]
fn test_addx_includes_extend() {
    let mut cpu = Cpu::default();
    cpu.write_ccr(SR::X, true);
    cpu.write_dr(0, Size::Long, 5);
    cpu.write_dr(1, Size::Long, 7);
    // ADDX.L D1, D0
    cpu.mmu.write_word(0x400, 0xD181);
    cpu.write_pc(0x400);
    cpu.step().unwrap();
    assert_eq!(cpu.read_dr(0), 13);
}

// AND and OR at byte width touch only the low byte of the register
#[test]
fn test_and_or_byte() {
    let mut cpu = Cpu::default();
    cpu.write_dr(1, Size::Long, 0x1111_00F0);
    cpu.write_dr(0, Size::Long, 0x2222_003C);
    // AND.B D0, D1
    cpu.mmu.write_word(0x400, 0xC200);
    cpu.write_pc(0x400);
    cpu.step().unwrap();
    assert_eq!(cpu.read_dr(1), 0x1111_0030);
    // OR.B D0, D1
    cpu.mmu.write_word(0x402, 0x8200);
    cpu.step().unwrap();
    assert_eq!(cpu.read_dr(1), 0x1111_003C);
}

// EXG swaps two whole registers
#[test]
fn test_exg_registers() {
    let mut cpu = Cpu::default();
    cpu.write_dr(0, Size::Long, 0xAAAA_AAAA);
    cpu.write_dr(1, Size::Long, 0xBBBB_BBBB);
    // EXG D0, D1
    cpu.mmu.write_word(0x400, 0xC141);
    cpu.write_pc(0x400);
    cpu.step().unwrap();
    assert_eq!(cpu.read_dr(0), 0xBBBB_BBBB);
    assert_eq!(cpu.read_dr(1), 0xAAAA_AAAA);
}

// a conditional branch with a byte displacement falls through untaken
#[test]
fn test_bcc_taken_and_not() {
    let mut cpu = Cpu::default();
    cpu.write_ccr(SR::Z, false);
    // BEQ.S +6 is not taken
    cpu.mmu.write_word(0x400, 0x6706);
    cpu.write_pc(0x400);
    cpu.step().unwrap();
    assert_eq!(cpu.read_pc(), 0x402);
    // BNE.S +6 is taken, from the byte after the opcode
    cpu.mmu.write_word(0x402, 0x6606);
    cpu.step().unwrap();
    assert_eq!(cpu.read_pc(), 0x40A);
}

// an untaken branch with a word displacement steps over that word
#[test]
fn test_bcc_word_untaken_skips_displacement() {
    let mut cpu = Cpu::default();
    cpu.write_ccr(SR::Z, false);
    // BEQ with a zero byte displacement and a displacement word
    cpu.mmu.write_word(0x400, 0x6700);
    cpu.mmu.write_word(0x402, 0x0100);
    cpu.write_pc(0x400);
    cpu.step().unwrap();
    assert_eq!(cpu.read_pc(), 0x404);
}

// BRA with a backwards byte displacement
#[test]
fn test_bra_backwards() {
    let mut cpu = Cpu::default();
    // BRA.S -2 lands on itself
    cpu.mmu.write_word(0x400, 0x60FE);
    cpu.write_pc(0x400);
    cpu.step().unwrap();
    assert_eq!(cpu.read_pc(), 0x400);
}

// CHK traps when the register is over the bound, and not when inside it
#[test]
fn test_chk_bound() {
    let mut cpu = Cpu::default();
    cpu.write_ssp(0x2000);
    cpu.mmu.write_long(0x18, 0x0000_0700);
    cpu.write_dr(0, Size::Long, 5);
    cpu.write_dr(1, Size::Long, 10);
    // CHK.W D1, D0: five is within ten, no trap
    cpu.mmu.write_word(0x400, 0x4181);
    cpu.write_pc(0x400);
    cpu.step().unwrap();
    assert_eq!(cpu.read_pc(), 0x402);
    // now the register exceeds the bound and the check traps
    cpu.write_dr(0, Size::Long, 11);
    cpu.mmu.write_word(0x402, 0x4181);
    cpu.step().unwrap();
    assert_eq!(cpu.read_pc(), 0x700);
    assert!(!cpu.read_ccr(SR::N));
}

// MOVE USP transfers between the user stack pointer and a register, and is
// privileged
#[test]
fn test_move_usp() {
    let mut cpu = Cpu::default();
    cpu.write_usp(0x7000);
    // MOVE USP, A1
    cpu.mmu.write_word(0x400, 0x4E69);
    cpu.write_pc(0x400);
    cpu.step().unwrap();
    assert_eq!(cpu.read_ar(1), 0x7000);
    // MOVE A2, USP
    cpu.write_ar(2, 0x7100);
    cpu.mmu.write_word(0x402, 0x4E62);
    cpu.step().unwrap();
    assert_eq!(cpu.read_usp(), 0x7100);
}

// TST sets N and Z from the operand without writing anything
#[test]
fn test_tst_byte() {
    let mut cpu = Cpu::default();
    cpu.write_dr(6, Size::Long, 0xFFFF_FF80);
    // TST.B D6
    cpu.mmu.write_word(0x400, 0x4A06);
    cpu.write_pc(0x400);
    cpu.step().unwrap();
    assert!(cpu.read_ccr(SR::N));
    assert!(!cpu.read_ccr(SR::Z));
    cpu.write_dr(6, Size::Long, 0xFFFF_FF00);
    cpu.mmu.write_word(0x402, 0x4A06);
    cpu.step().unwrap();
    assert!(cpu.read_ccr(SR::Z));
}

// MOVEP.L spreads a register over alternate memory bytes and gathers it back
#[test]
fn test_movep_round_trip() {
    let mut cpu = Cpu::default();
    cpu.write_ar(0, 0x4000);
    cpu.write_dr(2, Size::Long, 0x0102_0304);
    // MOVEP.L D2, 0(A0)
    cpu.mmu.write_word(0x400, 0x05C8);
    cpu.mmu.write_word(0x402, 0x0000);
    cpu.write_pc(0x400);
    cpu.step().unwrap();
    assert_eq!(cpu.mmu.read_byte(0x4000), 0x01);
    assert_eq!(cpu.mmu.read_byte(0x4002), 0x02);
    assert_eq!(cpu.mmu.read_byte(0x4004), 0x03);
    assert_eq!(cpu.mmu.read_byte(0x4006), 0x04);
    // MOVEP.L 0(A0), D3
    cpu.mmu.write_word(0x404, 0x0748);
    cpu.mmu.write_word(0x406, 0x0000);
    cpu.step().unwrap();
    assert_eq!(cpu.read_dr(3), 0x0102_0304);
}

// MOVEM.W loads sign-extend into address registers and keep the upper half
// of data registers
#[test]
fn test_movem_word_load() {
    let mut cpu = Cpu::default();
    cpu.write_ar(0, 0x5000);
    cpu.write_dr(1, Size::Long, 0xAAAA_0000);
    cpu.mmu.write_word(0x5000, 0x8001);
    cpu.mmu.write_word(0x5002, 0x8002);
    // MOVEM.W (A0), D1/A1
    cpu.mmu.write_word(0x400, 0x4C90);
    cpu.mmu.write_word(0x402, 0x0202);
    cpu.write_pc(0x400);
    cpu.step().unwrap();
    assert_eq!(cpu.read_dr(1), 0xAAAA_8001);
    assert_eq!(cpu.read_ar(1), 0xFFFF_8002);
}

// ROXR on a memory word pulls the X flag into the top bit
#[test]
fn test_roxr_memory() {
    let mut cpu = Cpu::default();
    cpu.write_ccr(SR::X, true);
    cpu.write_ar(0, 0x5000);
    cpu.mmu.write_word(0x5000, 0x0003);
    // ROXR.W (A0)
    cpu.mmu.write_word(0x400, 0xE4D0);
    cpu.write_pc(0x400);
    cpu.step().unwrap();
    assert_eq!(cpu.mmu.read_word(0x5000), 0x8001);
    assert!(cpu.read_ccr(SR::C));
    assert!(cpu.read_ccr(SR::X));
    assert!(cpu.read_ccr(SR::N));
}

// the shift count can come from a register, taken modulo sixty-four
#[test]
fn test_shift_count_from_register() {
    let mut cpu = Cpu::default();
    cpu.write_dr(1, Size::Long, 68);
    cpu.write_dr(0, Size::Long, 0xFFFF_FFFF);
    // LSR.L D1, D0: a count of sixty-eight reads as four
    cpu.mmu.write_word(0x400, 0xE2A8);
    cpu.write_pc(0x400);
    cpu.step().unwrap();
    assert_eq!(cpu.read_dr(0), 0x0FFF_FFFF);
}

// ADDI adds an immediate of the operand size to memory
#[test]
fn test_addi_to_memory() {
    let mut cpu = Cpu::default();
    cpu.write_ar(0, 0x6000);
    cpu.mmu.write_word(0x6000, 0x0010);
    // ADDI.W #$25, (A0)
    cpu.mmu.write_word(0x400, 0x0650);
    cpu.mmu.write_word(0x402, 0x0025);
    cpu.write_pc(0x400);
    cpu.step().unwrap();
    assert_eq!(cpu.mmu.read_word(0x6000), 0x0035);
}

// ABCD adds packed decimal digits with the extend bit
#[test]
fn test_abcd_decimal() {
    let mut cpu = Cpu::default();
    cpu.write_dr(0, Size::Long, 0x05);
    cpu.write_dr(1, Size::Long, 0x07);
    // ABCD D1, D0
    cpu.mmu.write_word(0x400, 0xC101);
    cpu.write_pc(0x400);
    cpu.step().unwrap();
    assert_eq!(cpu.read_dr(0) & 0xFF, 0x12);
    assert!(cpu.read_ccr(SR::C));
    assert!(cpu.read_ccr(SR::X));
}
