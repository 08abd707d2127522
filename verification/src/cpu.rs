use vstd::prelude::*;

use crate::mmu::long_at;
use crate::mmu::long_in_range;
use crate::mmu::lemma_mask24_bound;
use crate::mmu::mask24;
use crate::mmu::store_long;
use crate::mmu::store_word;
use crate::mmu::word_aligned;
use crate::mmu::word_at;
use crate::mmu::Mmu;
use crate::mmu::RAM_SIZE;
use crate::types::ConditionCode;
use crate::types::Fault;
use crate::types::Size;
use crate::types::Value;
use crate::types::value_of;

verus! {

/// Register number that names the active stack pointer.
pub const STACK: u8 = 7;

/// One of the five condition-code bits in the low byte of the status register.
#[derive(Debug, Copy, Clone, PartialEq, Eq, Structural)]
pub enum StatusRegister {
    C,
    V,
    Z,
    N,
    X,
}

pub open spec fn spec_flag_mask(f: StatusRegister) -> u16 {
    match f {
        StatusRegister::C => 1,
        StatusRegister::V => 2,
        StatusRegister::Z => 4,
        StatusRegister::N => 8,
        StatusRegister::X => 16,
    }
}

impl StatusRegister {
    pub fn mask(self) -> (r: u16)
        ensures
            r == spec_flag_mask(self),
    {
        match self {
            StatusRegister::C => 1,
            StatusRegister::V => 2,
            StatusRegister::Z => 4,
            StatusRegister::N => 8,
            StatusRegister::X => 16,
        }
    }
}

/// The mathematical state of the processor: registers, memory, console
/// output and the halt latch.  Every operation of the core is specified as a
/// function over this state.
#[verifier::ext_equal]
pub struct CpuState {
    pub sr: u16,
    pub pc: u32,
    pub dr: Seq<u32>,
    pub ar: Seq<u32>,
    pub usp: u32,
    pub ssp: u32,
    pub mem: Seq<u8>,
    pub out: Seq<u8>,
    pub halted: bool,
}

/// Shape of a well-formed state: eight data registers, seven general address
/// registers, 16 MiB of memory.
pub open spec fn st_inv(s: CpuState) -> bool {
    s.dr.len() == 8 && s.ar.len() == 7 && s.mem.len() == RAM_SIZE
}

/// Bit 13 of the status register selects supervisor mode.
pub open spec fn spec_supervisor(sr: u16) -> bool {
    sr & 0x2000 == 0x2000
}

pub open spec fn spec_ccr(sr: u16, f: StatusRegister) -> bool {
    sr & spec_flag_mask(f) != 0
}

pub open spec fn spec_set_ccr(sr: u16, f: StatusRegister, val: bool) -> u16 {
    if val {
        sr | spec_flag_mask(f)
    } else {
        sr & !spec_flag_mask(f)
    }
}

/// The stack pointer that register number 7 names right now: SSP in
/// supervisor mode, USP in user mode.
pub open spec fn spec_active_sp(s: CpuState) -> u32 {
    if spec_supervisor(s.sr) {
        s.ssp
    } else {
        s.usp
    }
}

pub open spec fn spec_with_active_sp(s: CpuState, v: u32) -> CpuState {
    if spec_supervisor(s.sr) {
        CpuState { ssp: v, ..s }
    } else {
        CpuState { usp: v, ..s }
    }
}

/// Address register read: number 7 is routed through the supervisor bit.
pub open spec fn spec_read_ar(s: CpuState, reg: u8) -> u32 {
    if reg == 7 {
        spec_active_sp(s)
    } else {
        s.ar[reg as int]
    }
}

pub open spec fn spec_write_ar(s: CpuState, reg: u8, val: u32) -> CpuState {
    if reg == 7 {
        spec_with_active_sp(s, val)
    } else {
        CpuState { ar: s.ar.update(reg as int, val), ..s }
    }
}

/// A byte write into a data register leaves the upper 24 bits alone.
pub open spec fn spec_dr_byte_merged(d: u32, val: u8) -> u32 {
    (d & 0xFFFFFF00) | (val as u32)
}

/// A word write into a data register leaves the upper 16 bits alone.
pub open spec fn spec_dr_word_merged(d: u32, val: u16) -> u32 {
    (d & 0xFFFF0000) | (val as u32)
}

pub open spec fn spec_write_dr(s: CpuState, reg: u8, size: Size, val: u32) -> CpuState {
    match size {
        Size::Byte => CpuState {
            dr: s.dr.update(reg as int, spec_dr_byte_merged(s.dr[reg as int], val as u8)),
            ..s
        },
        Size::Word => CpuState {
            dr: s.dr.update(reg as int, spec_dr_word_merged(s.dr[reg as int], val as u16)),
            ..s
        },
        Size::Long => CpuState { dr: s.dr.update(reg as int, val), ..s },
    }
}

/// The condition-code table: how each of the sixteen conditions reads the
/// C, Z, V and N flags.
pub open spec fn spec_test_cc(sr: u16, cc: ConditionCode) -> bool {
    let c = spec_ccr(sr, StatusRegister::C);
    let v = spec_ccr(sr, StatusRegister::V);
    let z = spec_ccr(sr, StatusRegister::Z);
    let n = spec_ccr(sr, StatusRegister::N);
    match cc {
        ConditionCode::True => true,
        ConditionCode::False => false,
        ConditionCode::Higher => !c && !z,
        ConditionCode::LowerOrSame => c || z,
        ConditionCode::CarryClear => !c,
        ConditionCode::CarrySet => c,
        ConditionCode::NotEqual => !z,
        ConditionCode::Equal => z,
        ConditionCode::OverflowClear => !v,
        ConditionCode::OverflowSet => v,
        ConditionCode::Plus => !n,
        ConditionCode::Minus => n,
        ConditionCode::GreaterOrEqual => (n && v) || (!n && !v),
        ConditionCode::LessThan => (n && !v) || (!n && v),
        ConditionCode::GreaterThan => (n && v && !z) || (!n && !v && !z),
        ConditionCode::LessOrEqual => z || (n && !v) || (!n && v),
    }
}

/// Fetch of the 16-bit word at PC, advancing PC past it; the program counter
/// must sit at an even address.
pub open spec fn spec_fetch_word(s: CpuState) -> (CpuState, Result<u16, Fault>) {
    if word_aligned(s.pc) {
        (
            CpuState { pc: s.pc.wrapping_add(2), ..s },
            Ok(word_at(s.mem, mask24(s.pc) as int)),
        )
    } else {
        (s, Err(Fault::Misaligned))
    }
}

pub open spec fn spec_fetch_long(s: CpuState) -> (CpuState, Result<u32, Fault>) {
    if word_aligned(s.pc) && long_in_range(s.pc) {
        (
            CpuState { pc: s.pc.wrapping_add(4), ..s },
            Ok(long_at(s.mem, mask24(s.pc) as int)),
        )
    } else {
        (s, Err(Fault::Misaligned))
    }
}

/// Push: the active stack pointer moves down, then the value is stored there.
pub open spec fn spec_push_long(s: CpuState, val: u32) -> (CpuState, Result<(), Fault>) {
    let sp = spec_active_sp(s).wrapping_sub(4);
    if word_aligned(sp) && long_in_range(sp) {
        let s1 = spec_with_active_sp(s, sp);
        (CpuState { mem: store_long(s1.mem, mask24(sp) as int, val), ..s1 }, Ok(()))
    } else {
        (s, Err(Fault::Misaligned))
    }
}

pub open spec fn spec_push_word(s: CpuState, val: u16) -> (CpuState, Result<(), Fault>) {
    let sp = spec_active_sp(s).wrapping_sub(2);
    if word_aligned(sp) {
        let s1 = spec_with_active_sp(s, sp);
        (CpuState { mem: store_word(s1.mem, mask24(sp) as int, val), ..s1 }, Ok(()))
    } else {
        (s, Err(Fault::Misaligned))
    }
}

/// Pop: the value at the active stack pointer is read, then the pointer moves up.
pub open spec fn spec_pop_long(s: CpuState) -> (CpuState, Result<u32, Fault>) {
    let sp = spec_active_sp(s);
    if word_aligned(sp) && long_in_range(sp) {
        (spec_with_active_sp(s, sp.wrapping_add(4)), Ok(long_at(s.mem, mask24(sp) as int)))
    } else {
        (s, Err(Fault::Misaligned))
    }
}

pub open spec fn spec_pop_word(s: CpuState) -> (CpuState, Result<u16, Fault>) {
    let sp = spec_active_sp(s);
    if word_aligned(sp) {
        (spec_with_active_sp(s, sp.wrapping_add(2)), Ok(word_at(s.mem, mask24(sp) as int)))
    } else {
        (s, Err(Fault::Misaligned))
    }
}

/// Trap entry: supervisor mode is entered, the old program counter (long)
/// and then the old status register (word) are pushed onto the supervisor
/// stack, and the new program counter is fetched from the vector table entry
/// at `addr`.
pub open spec fn spec_trap_vec(s: CpuState, addr: u32) -> (CpuState, Result<(), Fault>) {
    let s1 = CpuState { sr: (s.sr | 0x2000) as u16, ..s };
    let (s2, r2) = spec_push_long(s1, s.pc);
    if r2 is Err {
        (s2, Err(Fault::Misaligned))
    } else {
        let (s3, r3) = spec_push_word(s2, s.sr);
        if r3 is Err {
            (s3, Err(Fault::Misaligned))
        } else {
            if word_aligned(addr) && long_in_range(addr) {
                (CpuState { pc: long_at(s3.mem, mask24(addr) as int), ..s3 }, Ok(()))
            } else {
                (s3, Err(Fault::Misaligned))
            }
        }
    }
}

/// The processor: status register, program counter, eight data registers,
/// seven general address registers, the two stack pointers, memory, and the
/// line buffer that the console trap writes into.
pub struct Cpu {
    pub sr: u16,
    pub pc: u32,
    pub data_registers: Vec<u32>,
    pub addr_registers: Vec<u32>,
    pub usp: u32,
    pub ssp: u32,
    pub mmu: Mmu,
    pub console: Vec<u8>,
    pub halted: bool,
}

impl View for Cpu {
    type V = CpuState;

    open spec fn view(&self) -> CpuState {
        CpuState {
            sr: self.sr,
            pc: self.pc,
            dr: self.data_registers@,
            ar: self.addr_registers@,
            usp: self.usp,
            ssp: self.ssp,
            mem: self.mmu@,
            out: self.console@,
            halted: self.halted,
        }
    }
}

impl Cpu {
    pub open spec fn wf(&self) -> bool {
        st_inv(self@)
    }

    /// Copy a program image into memory starting at address 0.
    pub fn load(&mut self, buffer: &[u8])
        requires
            old(self).wf(),
            buffer@.len() <= 0xFFFFFF,
        ensures
            final(self).wf(),
            final(self)@.mem.len() == old(self)@.mem.len(),
            forall|i: int|
                0 <= i < final(self)@.mem.len() ==> final(self)@.mem[i] == if i < buffer@.len() {
                    buffer@[i]
                } else {
                    old(self)@.mem[i]
                },
            final(self)@ == (CpuState { mem: final(self)@.mem, ..old(self)@ }),
    {
        self.mmu.load(buffer);
    }

    pub fn is_supervisor_mode(&self) -> (r: bool)
        ensures
            r == spec_supervisor(self@.sr),
    {
        (self.sr & 0b0010_0000_0000_0000) == 0b0010_0000_0000_0000
    }

    pub fn read_dr(&self, reg: u8) -> (r: u32)
        requires
            self.wf(),
            reg < 8,
        ensures
            r == self@.dr[reg as int],
    {
        self.data_registers[reg as usize]
    }

    pub fn read_dr_sized(&self, reg: u8, size: Size) -> (r: Value)
        requires
            self.wf(),
            reg < 8,
        ensures
            r == value_of(size, self@.dr[reg as int]),
    {
        match size {
            Size::Byte => Value::Byte(self.data_registers[reg as usize] as u8),
            Size::Word => Value::Word(self.data_registers[reg as usize] as u16),
            Size::Long => Value::Long(self.data_registers[reg as usize]),
        }
    }

    pub fn read_ar(&self, reg: u8) -> (r: u32)
        requires
            self.wf(),
            reg < 8,
        ensures
            r == spec_read_ar(self@, reg),
    {
        if reg == 7 {
            if self.is_supervisor_mode() {
                self.ssp
            } else {
                self.usp
            }
        } else {
            self.addr_registers[reg as usize]
        }
    }

    pub fn write_ar(&mut self, reg: u8, val: u32)
        requires
            old(self).wf(),
            reg < 8,
        ensures
            final(self).wf(),
            final(self)@ == spec_write_ar(old(self)@, reg, val),
    {
        if reg == 7 {
            if self.is_supervisor_mode() {
                self.ssp = val;
            } else {
                self.usp = val;
            }
        } else {
            self.addr_registers[reg as usize] = val;
        }
    }

    /// Write a data register at a width: byte and word writes keep the upper
    /// bits of the register.
    pub fn write_dr(&mut self, reg: u8, size: Size, val: u32)
        requires
            old(self).wf(),
            reg < 8,
        ensures
            final(self).wf(),
            final(self)@ == spec_write_dr(old(self)@, reg, size, val),
    {
        match size {
            Size::Byte => self.write_dr_byte(reg, val as u8),
            Size::Word => self.write_dr_word(reg, val as u16),
            Size::Long => self.write_dr_long(reg, val),
        }
    }

    pub fn write_dr_byte(&mut self, reg: u8, val: u8)
        requires
            old(self).wf(),
            reg < 8,
        ensures
            final(self).wf(),
            final(self)@ == (CpuState {
                dr: old(self)@.dr.update(
                    reg as int,
                    spec_dr_byte_merged(old(self)@.dr[reg as int], val),
                ),
                ..old(self)@
            }),
    {
        let merged = (self.data_registers[reg as usize] & 0xFFFFFF00) | (val as u32);
        self.data_registers[reg as usize] = merged;
    }

    pub fn write_dr_word(&mut self, reg: u8, val: u16)
        requires
            old(self).wf(),
            reg < 8,
        ensures
            final(self).wf(),
            final(self)@ == (CpuState {
                dr: old(self)@.dr.update(
                    reg as int,
                    spec_dr_word_merged(old(self)@.dr[reg as int], val),
                ),
                ..old(self)@
            }),
    {
        let merged = (self.data_registers[reg as usize] & 0xFFFF0000) | (val as u32);
        self.data_registers[reg as usize] = merged;
    }

    pub fn write_dr_long(&mut self, reg: u8, val: u32)
        requires
            old(self).wf(),
            reg < 8,
        ensures
            final(self).wf(),
            final(self)@ == (CpuState { dr: old(self)@.dr.update(reg as int, val), ..old(self)@ }),
    {
        self.data_registers[reg as usize] = val;
    }

    pub fn decrement_dr(&mut self, reg: u8, by: u32)
        requires
            old(self).wf(),
            reg < 8,
        ensures
            final(self).wf(),
            final(self)@ == (CpuState {
                dr: old(self)@.dr.update(reg as int, old(self)@.dr[reg as int].wrapping_sub(by)),
                ..old(self)@
            }),
    {
        let v = self.data_registers[reg as usize].wrapping_sub(by);
        self.data_registers[reg as usize] = v;
    }

    pub fn increment_dr(&mut self, reg: u8, by: u32)
        requires
            old(self).wf(),
            reg < 8,
        ensures
            final(self).wf(),
            final(self)@ == (CpuState {
                dr: old(self)@.dr.update(reg as int, old(self)@.dr[reg as int].wrapping_add(by)),
                ..old(self)@
            }),
    {
        let v = self.data_registers[reg as usize].wrapping_add(by);
        self.data_registers[reg as usize] = v;
    }

    pub fn decrement_ar(&mut self, reg: u8, by: u32)
        requires
            old(self).wf(),
            reg < 8,
        ensures
            final(self).wf(),
            final(self)@ == spec_write_ar(
                old(self)@,
                reg,
                spec_read_ar(old(self)@, reg).wrapping_sub(by),
            ),
    {
        let v = self.read_ar(reg).wrapping_sub(by);
        self.write_ar(reg, v);
    }

    pub fn increment_ar(&mut self, reg: u8, by: u32)
        requires
            old(self).wf(),
            reg < 8,
        ensures
            final(self).wf(),
            final(self)@ == spec_write_ar(
                old(self)@,
                reg,
                spec_read_ar(old(self)@, reg).wrapping_add(by),
            ),
    {
        let v = self.read_ar(reg).wrapping_add(by);
        self.write_ar(reg, v);
    }

    pub fn read_pc(&self) -> (r: u32)
        ensures
            r == self@.pc,
    {
        self.pc
    }

    pub fn write_pc(&mut self, pc: u32)
        requires
            old(self).wf(),
        ensures
            final(self).wf(),
            final(self)@ == (CpuState { pc, ..old(self)@ }),
    {
        self.pc = pc;
    }

    pub fn decrement_pc(&mut self, by: u32)
        requires
            old(self).wf(),
        ensures
            final(self).wf(),
            final(self)@ == (CpuState { pc: old(self)@.pc.wrapping_sub(by), ..old(self)@ }),
    {
        self.pc = self.pc.wrapping_sub(by);
    }

    pub fn increment_pc(&mut self, by: u32)
        requires
            old(self).wf(),
        ensures
            final(self).wf(),
            final(self)@ == (CpuState { pc: old(self)@.pc.wrapping_add(by), ..old(self)@ }),
    {
        self.pc = self.pc.wrapping_add(by);
    }

    pub fn read_sr(&self) -> (r: u16)
        ensures
            r == self@.sr,
    {
        self.sr
    }

    pub fn write_sr(&mut self, val: u16)
        requires
            old(self).wf(),
        ensures
            final(self).wf(),
            final(self)@ == (CpuState { sr: val, ..old(self)@ }),
    {
        self.sr = val;
    }

    pub fn read_ccr(&self, sr: StatusRegister) -> (r: bool)
        ensures
            r == spec_ccr(self@.sr, sr),
    {
        (self.sr & sr.mask()) != 0
    }

    pub fn write_ccr(&mut self, sr: StatusRegister, val: bool)
        requires
            old(self).wf(),
        ensures
            final(self).wf(),
            final(self)@ == (CpuState {
                sr: spec_set_ccr(old(self)@.sr, sr, val),
                ..old(self)@
            }),
    {
        if val {
            self.sr = self.sr | sr.mask();
        } else {
            self.sr = self.sr & !sr.mask();
        }
    }

    pub fn read_ssp(&self) -> (r: u32)
        ensures
            r == self@.ssp,
    {
        self.ssp
    }

    pub fn write_ssp(&mut self, val: u32)
        requires
            old(self).wf(),
        ensures
            final(self).wf(),
            final(self)@ == (CpuState { ssp: val, ..old(self)@ }),
    {
        self.ssp = val;
    }

    pub fn read_usp(&self) -> (r: u32)
        ensures
            r == self@.usp,
    {
        self.usp
    }

    pub fn write_usp(&mut self, val: u32)
        requires
            old(self).wf(),
        ensures
            final(self).wf(),
            final(self)@ == (CpuState { usp: val, ..old(self)@ }),
    {
        self.usp = val;
    }

    /// The stack pointer that the S bit selects right now.
    pub fn read_sp(&self) -> (r: u32)
        requires
            self.wf(),
        ensures
            r == spec_active_sp(self@),
    {
        self.read_ar(STACK)
    }

    pub fn write_sp(&mut self, val: u32)
        requires
            old(self).wf(),
        ensures
            final(self).wf(),
            final(self)@ == spec_with_active_sp(old(self)@, val),
    {
        self.write_ar(STACK, val);
    }

    pub fn fetch_word(&mut self) -> (r: Result<u16, Fault>)
        requires
            old(self).wf(),
        ensures
            final(self).wf(),
            (final(self)@, r) == spec_fetch_word(old(self)@),
    {
        if (self.pc & 0xFFFFFF) % 2 != 0 {
            return Err(Fault::Misaligned);
        }
        let w = self.mmu.read_word(self.pc);
        self.pc = self.pc.wrapping_add(2);
        Ok(w)
    }

    pub fn fetch_signed_word(&mut self) -> (r: Result<i16, Fault>)
        requires
            old(self).wf(),
        ensures
            final(self).wf(),
            match spec_fetch_word(old(self)@) {
                (s2, Ok(w)) => final(self)@ == s2 && r == Ok::<i16, Fault>(w as i16),
                (s2, Err(f)) => final(self)@ == s2 && r == Err::<i16, Fault>(f),
            },
    {
        let w = self.fetch_word()?;
        Ok(w as i16)
    }

    pub fn fetch_long(&mut self) -> (r: Result<u32, Fault>)
        requires
            old(self).wf(),
        ensures
            final(self).wf(),
            (final(self)@, r) == spec_fetch_long(old(self)@),
    {
        if (self.pc & 0xFFFFFF) % 2 != 0 {
            return Err(Fault::Misaligned);
        }
        proof {
            lemma_mask24_bound(self.pc);
        }
        if (self.pc & 0xFFFFFF) + 4 > RAM_SIZE as u32 {
            return Err(Fault::Misaligned);
        }
        let l = self.mmu.read_long(self.pc);
        self.pc = self.pc.wrapping_add(4);
        Ok(l)
    }

    /// The word at PC, without consuming it.
    pub fn peep_word(&self) -> (r: Result<u16, Fault>)
        requires
            self.wf(),
        ensures
            word_aligned(self@.pc) ==> r == Ok::<u16, Fault>(
                word_at(self@.mem, mask24(self@.pc) as int),
            ),
            !word_aligned(self@.pc) ==> r == Err::<u16, Fault>(Fault::Misaligned),
    {
        if (self.pc & 0xFFFFFF) % 2 != 0 {
            return Err(Fault::Misaligned);
        }
        Ok(self.mmu.read_word(self.pc))
    }

    /// The long word at PC, without consuming it.
    pub fn peep_long(&self) -> (r: Result<u32, Fault>)
        requires
            self.wf(),
        ensures
            word_aligned(self@.pc) && long_in_range(self@.pc) ==> r == Ok::<u32, Fault>(
                long_at(self@.mem, mask24(self@.pc) as int),
            ),
            !(word_aligned(self@.pc) && long_in_range(self@.pc)) ==> r == Err::<u32, Fault>(
                Fault::Misaligned,
            ),
    {
        if (self.pc & 0xFFFFFF) % 2 != 0 {
            return Err(Fault::Misaligned);
        }
        proof {
            lemma_mask24_bound(self.pc);
        }
        if (self.pc & 0xFFFFFF) + 4 > RAM_SIZE as u32 {
            return Err(Fault::Misaligned);
        }
        Ok(self.mmu.read_long(self.pc))
    }

    pub fn push_long(&mut self, val: u32) -> (r: Result<(), Fault>)
        requires
            old(self).wf(),
        ensures
            final(self).wf(),
            (final(self)@, r) == spec_push_long(old(self)@, val),
    {
        let new = self.read_sp().wrapping_sub(4);
        if (new & 0xFFFFFF) % 2 != 0 {
            return Err(Fault::Misaligned);
        }
        proof {
            lemma_mask24_bound(new);
        }
        if (new & 0xFFFFFF) + 4 > RAM_SIZE as u32 {
            return Err(Fault::Misaligned);
        }
        self.write_sp(new);
        self.mmu.write_long(new, val);
        Ok(())
    }

    pub fn pop_long(&mut self) -> (r: Result<u32, Fault>)
        requires
            old(self).wf(),
        ensures
            final(self).wf(),
            (final(self)@, r) == spec_pop_long(old(self)@),
    {
        let sp = self.read_sp();
        if (sp & 0xFFFFFF) % 2 != 0 {
            return Err(Fault::Misaligned);
        }
        proof {
            lemma_mask24_bound(sp);
        }
        if (sp & 0xFFFFFF) + 4 > RAM_SIZE as u32 {
            return Err(Fault::Misaligned);
        }
        let v = self.mmu.read_long(sp);
        self.write_sp(sp.wrapping_add(4));
        Ok(v)
    }

    pub fn push_word(&mut self, val: u16) -> (r: Result<(), Fault>)
        requires
            old(self).wf(),
        ensures
            final(self).wf(),
            (final(self)@, r) == spec_push_word(old(self)@, val),
    {
        let new = self.read_sp().wrapping_sub(2);
        if (new & 0xFFFFFF) % 2 != 0 {
            return Err(Fault::Misaligned);
        }
        self.write_sp(new);
        self.mmu.write_word(new, val);
        Ok(())
    }

    pub fn pop_word(&mut self) -> (r: Result<u16, Fault>)
        requires
            old(self).wf(),
        ensures
            final(self).wf(),
            (final(self)@, r) == spec_pop_word(old(self)@),
    {
        let sp = self.read_sp();
        if (sp & 0xFFFFFF) % 2 != 0 {
            return Err(Fault::Misaligned);
        }
        let v = self.mmu.read_word(sp);
        self.write_sp(sp.wrapping_add(2));
        Ok(v)
    }

    /// Enter a trap through the vector table entry at byte offset `addr`.
    pub fn trap_vec(&mut self, addr: u32) -> (r: Result<(), Fault>)
        requires
            old(self).wf(),
        ensures
            final(self).wf(),
            (final(self)@, r) == spec_trap_vec(old(self)@, addr),
    {
        let old_sr = self.read_sr();
        let old_pc = self.read_pc();
        self.write_sr(old_sr | 0x2000);
        self.push_long(old_pc)?;
        self.push_word(old_sr)?;
        if (addr & 0xFFFFFF) % 2 != 0 {
            return Err(Fault::Misaligned);
        }
        proof {
            lemma_mask24_bound(addr);
        }
        if (addr & 0xFFFFFF) + 4 > RAM_SIZE as u32 {
            return Err(Fault::Misaligned);
        }
        let target = self.mmu.read_long(addr);
        self.write_pc(target);
        Ok(())
    }

    /// Evaluate one of the sixteen condition codes against the flags.
    pub fn test_cc(&self, cc: ConditionCode) -> (r: bool)
        ensures
            r == spec_test_cc(self@.sr, cc),
    {
        match cc {
            ConditionCode::True => true,
            ConditionCode::False => false,
            ConditionCode::Higher => !self.read_ccr(StatusRegister::C) && !self.read_ccr(
                StatusRegister::Z,
            ),
            ConditionCode::LowerOrSame => self.read_ccr(StatusRegister::C) || self.read_ccr(
                StatusRegister::Z,
            ),
            ConditionCode::CarryClear => !self.read_ccr(StatusRegister::C),
            ConditionCode::CarrySet => self.read_ccr(StatusRegister::C),
            ConditionCode::NotEqual => !self.read_ccr(StatusRegister::Z),
            ConditionCode::Equal => self.read_ccr(StatusRegister::Z),
            ConditionCode::OverflowClear => !self.read_ccr(StatusRegister::V),
            ConditionCode::OverflowSet => self.read_ccr(StatusRegister::V),
            ConditionCode::Plus => !self.read_ccr(StatusRegister::N),
            ConditionCode::Minus => self.read_ccr(StatusRegister::N),
            ConditionCode::GreaterOrEqual => {
                (self.read_ccr(StatusRegister::N) && self.read_ccr(StatusRegister::V)) || (
                !self.read_ccr(StatusRegister::N) && !self.read_ccr(StatusRegister::V))
            },
            ConditionCode::LessThan => {
                (self.read_ccr(StatusRegister::N) && !self.read_ccr(StatusRegister::V)) || (
                !self.read_ccr(StatusRegister::N) && self.read_ccr(StatusRegister::V))
            },
            ConditionCode::GreaterThan => {
                (self.read_ccr(StatusRegister::N) && self.read_ccr(StatusRegister::V)
                    && !self.read_ccr(StatusRegister::Z)) || (!self.read_ccr(StatusRegister::N)
                    && !self.read_ccr(StatusRegister::V) && !self.read_ccr(StatusRegister::Z))
            },
            ConditionCode::LessOrEqual => {
                self.read_ccr(StatusRegister::Z) || (self.read_ccr(StatusRegister::N)
                    && !self.read_ccr(StatusRegister::V)) || (!self.read_ccr(StatusRegister::N)
                    && self.read_ccr(StatusRegister::V))
            },
        }
    }
}

impl Default for Cpu {
    /// Power-on state: supervisor mode, all registers clear, stacks at their
    /// conventional places, memory zeroed.
    fn default() -> (r: Self)
        ensures
            r.wf(),
            r@.sr == 0x2000,
            r@.pc == 0,
            forall|i: int| 0 <= i < 8 ==> r@.dr[i] == 0,
            forall|i: int| 0 <= i < 7 ==> r@.ar[i] == 0,
            r@.usp == 0x00FF0000,
            r@.ssp == 0x01000000,
            forall|i: int| 0 <= i < RAM_SIZE ==> r@.mem[i] == 0,
            r@.out.len() == 0,
            r@.halted == false,
    {
        Self {
            sr: 0x2000,
            pc: 0,
            data_registers: vec![0u32; 8],
            addr_registers: vec![0u32; 7],
            usp: 0x00FF0000,
            ssp: 0x01000000,
            mmu: Mmu::default(),
            console: Vec::new(),
            halted: false,
        }
    }
}

} // verus!
