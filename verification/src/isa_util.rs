use vstd::prelude::*;

use crate::constants::Vector;
use crate::cpu::spec_active_sp;
use crate::cpu::spec_ccr;
use crate::cpu::spec_pop_long;
use crate::cpu::spec_pop_word;
use crate::cpu::spec_push_long;
use crate::cpu::spec_read_ar;
use crate::cpu::spec_set_ccr;
use crate::cpu::spec_supervisor;
use crate::cpu::spec_fetch_word;
use crate::cpu::spec_trap_vec;
use crate::cpu::spec_with_active_sp;
use crate::cpu::spec_write_ar;
use crate::cpu::spec_write_dr;
use crate::cpu::Cpu;
use crate::cpu::CpuState;
use crate::cpu::StatusRegister;
use crate::ea::spec_get_ea;
use crate::ea::spec_read_ea;
use crate::ea::spec_write_ea;
use crate::ea::spec_write_ea_word;
use crate::flags::spec_flags_logic;
use crate::flags::spec_flags_sub;
use crate::isa_io::spec_console_trap;
use crate::isa_movem::spec_movem;
use crate::mmu::mask24;
use crate::types::ea_field_valid;
use crate::types::spec_decode_ea;
use crate::types::value_of;
use crate::types::value_to_u32;
use crate::types::AddressingMode;
use crate::types::Fault;
use crate::types::Size;
use crate::types::Value;
use crate::util::get_bits;
use crate::util::get_reg;
use crate::util::sign_extend_16_to_32;
use crate::util::sign_extend_8_to_16;
use crate::util::spec_get_bits;
use crate::util::spec_sign_extend_16_to_32;
use crate::util::spec_sign_extend_8_to_16;

verus! {

/// An opcode without a meaning: enter the illegal-instruction trap.
pub open spec fn spec_illegal(s: CpuState) -> (CpuState, Result<(), Fault>) {
    spec_trap_vec(s, 0x10)
}

pub open spec fn spec_move_from_sr(s: CpuState, inst: u16) -> (CpuState, Result<(), Fault>) {
    if !ea_field_valid(inst) {
        spec_illegal(s)
    } else {
        spec_write_ea_word(s, spec_decode_ea(inst), s.sr)
    }
}

pub open spec fn spec_move_to_ccr(s: CpuState, inst: u16) -> (CpuState, Result<(), Fault>) {
    if !ea_field_valid(inst) {
        spec_illegal(s)
    } else {
        let (s1, r1) = crate::ea::spec_read_ea_word(s, spec_decode_ea(inst));
        match r1 {
            Ok(w) => (CpuState { sr: (s1.sr & 0xFF00) | (w & 0x1F), ..s1 }, Ok(())),
            Err(f) => (s1, Err(f)),
        }
    }
}

pub open spec fn spec_move_to_sr(s: CpuState, inst: u16) -> (CpuState, Result<(), Fault>) {
    if !spec_supervisor(s.sr) {
        spec_trap_vec(s, 0x20)
    } else if !ea_field_valid(inst) {
        spec_illegal(s)
    } else {
        let (s1, r1) = crate::ea::spec_read_ea_word(s, spec_decode_ea(inst));
        match r1 {
            Ok(w) => (CpuState { sr: w & 0xA7FF, ..s1 }, Ok(())),
            Err(f) => (s1, Err(f)),
        }
    }
}

pub open spec fn spec_tst(s: CpuState, inst: u16) -> (CpuState, Result<(), Fault>) {
    let bits = spec_get_bits(inst, 6, 2);
    if bits == 3 || !ea_field_valid(inst) {
        spec_illegal(s)
    } else {
        let size = crate::util::spec_decode_size(bits, crate::util::SizeCoding::Pink);
        let (s1, r1) = spec_read_ea(s, spec_decode_ea(inst), size);
        match r1 {
            Ok(v) => (
                CpuState { sr: spec_flags_logic(s1.sr, value_to_u32(v), size), ..s1 },
                Ok(()),
            ),
            Err(f) => (s1, Err(f)),
        }
    }
}

/// TRAP #n: the console trap for n = 15, the vector at `0x80 + 4 n` otherwise.
pub open spec fn spec_trap(s: CpuState, inst: u16) -> (CpuState, Result<(), Fault>) {
    let vec = spec_get_bits(inst, 0, 4) as u32;
    if vec == 15 {
        spec_console_trap(s)
    } else {
        spec_trap_vec(s, (vec * 4 + 0x80) as u32)
    }
}

pub open spec fn spec_link(s: CpuState, inst: u16) -> (CpuState, Result<(), Fault>) {
    let reg = spec_get_bits(inst, 0, 3) as u8;
    let val = spec_read_ar(s, reg);
    let (s1, r1) = spec_fetch_word(s);
    match r1 {
        Ok(w) => {
            let (s2, r2) = spec_push_long(s1, val);
            match r2 {
                Ok(_) => {
                    let sp = spec_active_sp(s2);
                    let new_sp = sp.wrapping_add(spec_sign_extend_16_to_32(w));
                    let s3 = spec_write_ar(s2, reg, sp);
                    (spec_with_active_sp(s3, new_sp), Ok(()))
                },
                Err(f) => (s2, Err(f)),
            }
        },
        Err(f) => (s1, Err(f)),
    }
}

pub open spec fn spec_unlk(s: CpuState, inst: u16) -> (CpuState, Result<(), Fault>) {
    let reg = spec_get_bits(inst, 0, 3) as u8;
    let s1 = spec_with_active_sp(s, spec_read_ar(s, reg));
    let (s2, r2) = spec_pop_long(s1);
    match r2 {
        Ok(v) => (spec_write_ar(s2, reg, v), Ok(())),
        Err(f) => (s2, Err(f)),
    }
}

pub open spec fn spec_reset(s: CpuState) -> (CpuState, Result<(), Fault>) {
    if !spec_supervisor(s.sr) {
        spec_trap_vec(s, 0x20)
    } else {
        (s, Ok(()))
    }
}

pub open spec fn spec_stop(s: CpuState) -> (CpuState, Result<(), Fault>) {
    if !spec_supervisor(s.sr) {
        spec_trap_vec(s, 0x20)
    } else {
        (s, Err(Fault::Unimplemented))
    }
}

/// Return from exception: restore SR and PC from the supervisor stack.
/// Both are read before the new status takes effect, so that the second pop
/// still comes from the supervisor stack.
pub open spec fn spec_rte(s: CpuState) -> (CpuState, Result<(), Fault>) {
    if !spec_supervisor(s.sr) {
        spec_trap_vec(s, 0x20)
    } else {
        let (s1, r1) = spec_pop_word(s);
        match r1 {
            Ok(w) => {
                let (s2, r2) = spec_pop_long(s1);
                match r2 {
                    Ok(pc) => (CpuState { sr: w, pc: mask24(pc), ..s2 }, Ok(())),
                    Err(f) => (s2, Err(f)),
                }
            },
            Err(f) => (s1, Err(f)),
        }
    }
}

pub open spec fn spec_rts(s: CpuState) -> (CpuState, Result<(), Fault>) {
    let (s1, r1) = spec_pop_long(s);
    match r1 {
        Ok(pc) => (CpuState { pc, ..s1 }, Ok(())),
        Err(f) => (s1, Err(f)),
    }
}

pub open spec fn spec_trapv(s: CpuState) -> (CpuState, Result<(), Fault>) {
    if spec_ccr(s.sr, StatusRegister::V) {
        spec_trap(s, 7)
    } else {
        (s, Ok(()))
    }
}

pub open spec fn spec_move_usp(s: CpuState, inst: u16) -> (CpuState, Result<(), Fault>) {
    if !spec_supervisor(s.sr) {
        spec_trap_vec(s, 0x20)
    } else {
        let reg = spec_get_bits(inst, 0, 3) as u8;
        if spec_get_bits(inst, 3, 1) == 1 {
            (spec_write_ar(s, reg, s.usp), Ok(()))
        } else {
            (CpuState { usp: spec_read_ar(s, reg), ..s }, Ok(()))
        }
    }
}

pub open spec fn spec_lea(s: CpuState, inst: u16) -> (CpuState, Result<(), Fault>) {
    if !ea_field_valid(inst) {
        spec_illegal(s)
    } else {
        let reg = spec_get_bits(inst, 9, 3) as u8;
        let (s1, r1) = spec_get_ea(s, spec_decode_ea(inst));
        match r1 {
            Ok(val) => (spec_write_ar(s1, reg, val), Ok(())),
            Err(f) => (s1, Err(f)),
        }
    }
}

pub open spec fn spec_clr(s: CpuState, inst: u16) -> (CpuState, Result<(), Fault>) {
    let bits = spec_get_bits(inst, 6, 2);
    if bits == 3 || !ea_field_valid(inst) {
        spec_illegal(s)
    } else {
        let size = crate::util::spec_decode_size(bits, crate::util::SizeCoding::Pink);
        let (s1, r1) = spec_write_ea(s, spec_decode_ea(inst), size, value_of(size, 0));
        match r1 {
            Ok(_) => (CpuState { sr: spec_flags_logic(s1.sr, 0, size), ..s1 }, Ok(())),
            Err(f) => (s1, Err(f)),
        }
    }
}

pub open spec fn spec_negx(s: CpuState, inst: u16) -> (CpuState, Result<(), Fault>) {
    let bits = spec_get_bits(inst, 6, 2);
    if bits == 3 || !ea_field_valid(inst) {
        spec_illegal(s)
    } else {
        let size = crate::util::spec_decode_size(bits, crate::util::SizeCoding::Pink);
        let ea = spec_decode_ea(inst);
        let (s1, r1) = spec_read_ea(s, ea, size);
        match r1 {
            Ok(v) => {
                let x: u32 = if spec_ccr(s1.sr, StatusRegister::X) {
                    1
                } else {
                    0
                };
                let res = 0u32.wrapping_sub(value_to_u32(v)).wrapping_sub(x);
                let (s2, r2) = spec_write_ea(s1, ea, size, Value::Long(res));
                match r2 {
                    Ok(_) => (
                        CpuState {
                            sr: spec_flags_sub(s2.sr, 0, value_to_u32(v), res, size),
                            ..s2
                        },
                        Ok(()),
                    ),
                    Err(f) => (s2, Err(f)),
                }
            },
            Err(f) => (s1, Err(f)),
        }
    }
}

pub open spec fn spec_neg(s: CpuState, inst: u16) -> (CpuState, Result<(), Fault>) {
    let bits = spec_get_bits(inst, 6, 2);
    if bits == 3 || !ea_field_valid(inst) {
        spec_illegal(s)
    } else {
        let size = crate::util::spec_decode_size(bits, crate::util::SizeCoding::Pink);
        let ea = spec_decode_ea(inst);
        let (s1, r1) = spec_read_ea(s, ea, size);
        match r1 {
            Ok(v) => {
                let res = 0u32.wrapping_sub(value_to_u32(v));
                let (s2, r2) = spec_write_ea(s1, ea, size, Value::Long(res));
                match r2 {
                    Ok(_) => (
                        CpuState {
                            sr: spec_flags_sub(s2.sr, 0, value_to_u32(v), res, size),
                            ..s2
                        },
                        Ok(()),
                    ),
                    Err(f) => (s2, Err(f)),
                }
            },
            Err(f) => (s1, Err(f)),
        }
    }
}

pub open spec fn spec_not(s: CpuState, inst: u16) -> (CpuState, Result<(), Fault>) {
    let bits = spec_get_bits(inst, 6, 2);
    if bits == 3 || !ea_field_valid(inst) {
        spec_illegal(s)
    } else {
        let size = crate::util::spec_decode_size(bits, crate::util::SizeCoding::Pink);
        let ea = spec_decode_ea(inst);
        let (s1, r1) = spec_read_ea(s, ea, size);
        match r1 {
            Ok(v) => {
                let res = !value_to_u32(v);
                let (s2, r2) = spec_write_ea(s1, ea, size, Value::Long(res));
                match r2 {
                    Ok(_) => (
                        CpuState { sr: spec_flags_logic(s2.sr, res, size), ..s2 },
                        Ok(()),
                    ),
                    Err(f) => (s2, Err(f)),
                }
            },
            Err(f) => (s1, Err(f)),
        }
    }
}

/// Sign-extend the low byte of a data register to a word, or its low word to
/// a long.
pub open spec fn spec_ext(s: CpuState, inst: u16) -> (CpuState, Result<(), Fault>) {
    let reg = spec_get_bits(inst, 0, 3) as u8;
    let val = s.dr[reg as int];
    if spec_get_bits(inst, 6, 1) == 1 {
        let res = spec_sign_extend_16_to_32(val as u16);
        let s1 = spec_write_dr(s, reg, Size::Long, res);
        (CpuState { sr: spec_flags_logic(s1.sr, res, Size::Long), ..s1 }, Ok(()))
    } else {
        let res = spec_sign_extend_8_to_16(val as u8) as u32;
        let s1 = spec_write_dr(s, reg, Size::Word, res);
        (CpuState { sr: spec_flags_logic(s1.sr, res, Size::Word), ..s1 }, Ok(()))
    }
}

/// Exchange the two halves of a data register.
pub open spec fn spec_swap(s: CpuState, inst: u16) -> (CpuState, Result<(), Fault>) {
    let reg = spec_get_bits(inst, 0, 3) as u8;
    let val = s.dr[reg as int];
    let new = ((val & 0xFFFF) << 16) | (val >> 16);
    (spec_write_dr(s, reg, Size::Long, new), Ok(()))
}

pub open spec fn spec_pea(s: CpuState, inst: u16) -> (CpuState, Result<(), Fault>) {
    if !ea_field_valid(inst) {
        spec_illegal(s)
    } else {
        let (s1, r1) = spec_get_ea(s, spec_decode_ea(inst));
        match r1 {
            Ok(val) => spec_push_long(s1, val),
            Err(f) => (s1, Err(f)),
        }
    }
}

/// Bound check of a data register against an operand; a failed check traps.
pub open spec fn spec_chk(s: CpuState, inst: u16) -> (CpuState, Result<(), Fault>) {
    let bits = spec_get_bits(inst, 7, 2);
    if bits == 0 || !ea_field_valid(inst) {
        spec_illegal(s)
    } else {
        let size = crate::util::spec_decode_size(bits, crate::util::SizeCoding::Purple);
        let reg = spec_get_bits(inst, 9, 3) as u8;
        let val1 = s.dr[reg as int];
        let (s1, r1) = spec_read_ea(s, spec_decode_ea(inst), size);
        match r1 {
            Ok(v) => {
                let val2 = value_to_u32(v) as i32;
                if (val1 as i32) < 0 {
                    spec_trap_vec(
                        CpuState { sr: spec_set_ccr(s1.sr, StatusRegister::N, true), ..s1 },
                        0x18,
                    )
                } else if (val1 as i32) > val2 {
                    spec_trap_vec(
                        CpuState { sr: spec_set_ccr(s1.sr, StatusRegister::N, false), ..s1 },
                        0x18,
                    )
                } else {
                    (s1, Ok(()))
                }
            },
            Err(f) => (s1, Err(f)),
        }
    }
}

pub open spec fn spec_jsr(s: CpuState, inst: u16) -> (CpuState, Result<(), Fault>) {
    if !ea_field_valid(inst) {
        spec_illegal(s)
    } else {
        let (s1, r1) = spec_get_ea(s, spec_decode_ea(inst));
        match r1 {
            Ok(addr) => {
                let (s2, r2) = spec_push_long(s1, s1.pc);
                match r2 {
                    Ok(_) => (CpuState { pc: addr, ..s2 }, Ok(())),
                    Err(f) => (s2, Err(f)),
                }
            },
            Err(f) => (s1, Err(f)),
        }
    }
}

pub open spec fn spec_jmp(s: CpuState, inst: u16) -> (CpuState, Result<(), Fault>) {
    if !ea_field_valid(inst) {
        spec_illegal(s)
    } else {
        let (s1, r1) = spec_get_ea(s, spec_decode_ea(inst));
        match r1 {
            Ok(addr) => (CpuState { pc: addr, ..s1 }, Ok(())),
            Err(f) => (s1, Err(f)),
        }
    }
}

/// The halt convention: PC steps back onto the halt word and the latch is set.
pub open spec fn spec_halt(s: CpuState) -> CpuState {
    CpuState { pc: s.pc.wrapping_sub(2), halted: true, ..s }
}

/// Dispatch within the miscellaneous family (top nibble four).
pub open spec fn spec_util_family(s: CpuState, inst: u16) -> (CpuState, Result<(), Fault>) {
    if (inst & 0x0FB8) == 0x0880 {
        spec_ext(s, inst)
    } else if (inst & 0x01C0) == 0x01C0 {
        spec_lea(s, inst)
    } else if (inst & 0x01C0) == 0x0180 {
        spec_chk(s, inst)
    } else if (inst & 0x0B80) == 0x0880 {
        spec_movem(s, inst)
    } else if 0x40C0 <= inst && inst <= 0x40FF {
        spec_move_from_sr(s, inst)
    } else if 0x44C0 <= inst && inst <= 0x44FF {
        spec_move_to_ccr(s, inst)
    } else if 0x46C0 <= inst && inst <= 0x46FF {
        spec_move_to_sr(s, inst)
    } else if 0x4000 <= inst && inst <= 0x40BF {
        spec_negx(s, inst)
    } else if 0x4200 <= inst && inst <= 0x42FF {
        spec_clr(s, inst)
    } else if 0x4400 <= inst && inst <= 0x44BF {
        spec_neg(s, inst)
    } else if 0x4600 <= inst && inst <= 0x46BF {
        spec_not(s, inst)
    } else if 0x4800 <= inst && inst <= 0x483F {
        (s, Err(Fault::Unimplemented))
    } else if 0x4840 <= inst && inst <= 0x4847 {
        spec_swap(s, inst)
    } else if 0x4848 <= inst && inst <= 0x487F {
        spec_pea(s, inst)
    } else if inst == 0x4AFC {
        spec_illegal(s)
    } else if 0x4A00 <= inst && inst <= 0x4ABF {
        spec_tst(s, inst)
    } else if 0x4AC0 <= inst && inst <= 0x4AFF {
        (s, Err(Fault::Unimplemented))
    } else if 0x4E40 <= inst && inst <= 0x4E4F {
        spec_trap(s, inst)
    } else if 0x4E50 <= inst && inst <= 0x4E57 {
        spec_link(s, inst)
    } else if 0x4E58 <= inst && inst <= 0x4E5F {
        spec_unlk(s, inst)
    } else if 0x4E60 <= inst && inst <= 0x4E6F {
        spec_move_usp(s, inst)
    } else if inst == 0x4E70 {
        spec_reset(s)
    } else if inst == 0x4E71 {
        (s, Ok(()))
    } else if inst == 0x4E72 {
        spec_stop(s)
    } else if inst == 0x4E73 {
        spec_rte(s)
    } else if inst == 0x4E75 {
        spec_rts(s)
    } else if inst == 0x4E76 {
        spec_trapv(s)
    } else if inst == 0x4E77 {
        (s, Err(Fault::Unimplemented))
    } else if 0x4E80 <= inst && inst <= 0x4EBF {
        spec_jsr(s, inst)
    } else if 0x4EC0 <= inst && inst <= 0x4EFF {
        spec_jmp(s, inst)
    } else {
        spec_illegal(s)
    }
}

impl Cpu {
    /// Pick the operand size from a pink-coded field, or `None` on the
    /// unassigned code.
    pub(crate) fn size_pink(&self, bits: u16) -> (r: Option<Size>)
        requires
            bits < 4,
        ensures
            bits == 3 ==> r is None,
            bits != 3 ==> r == Some(
                crate::util::spec_decode_size(bits, crate::util::SizeCoding::Pink),
            ),
    {
        if bits == 0 {
            Some(Size::Byte)
        } else if bits == 1 {
            Some(Size::Word)
        } else if bits == 2 {
            Some(Size::Long)
        } else {
            None
        }
    }

    /// Pick the operand size from a purple-coded field, or `None` on the
    /// unassigned code.
    pub(crate) fn size_purple(&self, bits: u16) -> (r: Option<Size>)
        requires
            bits < 4,
        ensures
            bits == 0 ==> r is None,
            bits != 0 ==> r == Some(
                crate::util::spec_decode_size(bits, crate::util::SizeCoding::Purple),
            ),
    {
        if bits == 1 {
            Some(Size::Byte)
        } else if bits == 3 {
            Some(Size::Word)
        } else if bits == 2 {
            Some(Size::Long)
        } else {
            None
        }
    }

    pub(crate) fn illegal(&mut self) -> (r: Result<(), Fault>)
        requires
            old(self).wf(),
        ensures
            final(self).wf(),
            (final(self)@, r) == spec_illegal(old(self)@),
    {
        self.trap_vec(Vector::IllegalInstruction.offset())
    }

    fn move_from_sr(&mut self, inst: u16) -> (r: Result<(), Fault>)
        requires
            old(self).wf(),
        ensures
            final(self).wf(),
            (final(self)@, r) == spec_move_from_sr(old(self)@, inst),
    {
        if !AddressingMode::field_valid(inst) {
            return self.illegal();
        }
        let ea = AddressingMode::from(inst);
        let val = self.read_sr();
        self.write_ea_word(ea, val)
    }

    fn move_to_ccr(&mut self, inst: u16) -> (r: Result<(), Fault>)
        requires
            old(self).wf(),
        ensures
            final(self).wf(),
            (final(self)@, r) == spec_move_to_ccr(old(self)@, inst),
    {
        if !AddressingMode::field_valid(inst) {
            return self.illegal();
        }
        let ea = AddressingMode::from(inst);
        let val = self.read_ea_word(ea)? & 0x1F;
        let new = (self.read_sr() & 0xFF00) | val;
        self.write_sr(new);
        Ok(())
    }

    fn move_to_sr(&mut self, inst: u16) -> (r: Result<(), Fault>)
        requires
            old(self).wf(),
        ensures
            final(self).wf(),
            (final(self)@, r) == spec_move_to_sr(old(self)@, inst),
    {
        if !self.is_supervisor_mode() {
            return self.trap_vec(Vector::PrivilegeViolation.offset());
        }
        if !AddressingMode::field_valid(inst) {
            return self.illegal();
        }
        let ea = AddressingMode::from(inst);
        let val = self.read_ea_word(ea)? & 0xA7FF;
        self.write_sr(val);
        Ok(())
    }

    fn tst(&mut self, inst: u16) -> (r: Result<(), Fault>)
        requires
            old(self).wf(),
        ensures
            final(self).wf(),
            (final(self)@, r) == spec_tst(old(self)@, inst),
    {
        let size = match self.size_pink(get_bits(inst, 6, 2)) {
            Some(size) => size,
            None => {
                return self.illegal();
            },
        };
        if !AddressingMode::field_valid(inst) {
            return self.illegal();
        }
        let ea = AddressingMode::from(inst);
        let val = self.read_ea(ea, size)?;
        self.set_flags_logic(val.to_u32(), size);
        Ok(())
    }

    fn trap(&mut self, inst: u16) -> (r: Result<(), Fault>)
        requires
            old(self).wf(),
        ensures
            final(self).wf(),
            (final(self)@, r) == spec_trap(old(self)@, inst),
    {
        let vec = get_bits(inst, 0, 4) as u32;
        if vec == 15 {
            return self.console_trap();
        }
        self.trap_vec(vec * 4 + Vector::Trap.offset())
    }

    fn link(&mut self, inst: u16) -> (r: Result<(), Fault>)
        requires
            old(self).wf(),
        ensures
            final(self).wf(),
            (final(self)@, r) == spec_link(old(self)@, inst),
    {
        let reg = get_reg(inst, 0);
        let val = self.read_ar(reg);
        let w = self.fetch_word()?;
        self.push_long(val)?;
        let sp = self.read_sp();
        let new_sp = sp.wrapping_add(sign_extend_16_to_32(w));
        self.write_ar(reg, sp);
        self.write_sp(new_sp);
        Ok(())
    }

    fn unlk(&mut self, inst: u16) -> (r: Result<(), Fault>)
        requires
            old(self).wf(),
        ensures
            final(self).wf(),
            (final(self)@, r) == spec_unlk(old(self)@, inst),
    {
        let reg = get_reg(inst, 0);
        let v = self.read_ar(reg);
        self.write_sp(v);
        let new = self.pop_long()?;
        self.write_ar(reg, new);
        Ok(())
    }

    fn reset(&mut self) -> (r: Result<(), Fault>)
        requires
            old(self).wf(),
        ensures
            final(self).wf(),
            (final(self)@, r) == spec_reset(old(self)@),
    {
        if !self.is_supervisor_mode() {
            return self.trap_vec(Vector::PrivilegeViolation.offset());
        }
        Ok(())
    }

    fn stop(&mut self) -> (r: Result<(), Fault>)
        requires
            old(self).wf(),
        ensures
            final(self).wf(),
            (final(self)@, r) == spec_stop(old(self)@),
    {
        if !self.is_supervisor_mode() {
            return self.trap_vec(Vector::PrivilegeViolation.offset());
        }
        Err(Fault::Unimplemented)
    }

    fn rte(&mut self) -> (r: Result<(), Fault>)
        requires
            old(self).wf(),
        ensures
            final(self).wf(),
            (final(self)@, r) == spec_rte(old(self)@),
    {
        if !self.is_supervisor_mode() {
            return self.trap_vec(Vector::PrivilegeViolation.offset());
        }
        let sr = self.pop_word()?;
        let pc = self.pop_long()?;
        self.write_sr(sr);
        self.write_pc(pc & 0xFFFFFF);
        Ok(())
    }

    fn rts(&mut self) -> (r: Result<(), Fault>)
        requires
            old(self).wf(),
        ensures
            final(self).wf(),
            (final(self)@, r) == spec_rts(old(self)@),
    {
        let pc = self.pop_long()?;
        self.write_pc(pc);
        Ok(())
    }

    fn trapv(&mut self) -> (r: Result<(), Fault>)
        requires
            old(self).wf(),
        ensures
            final(self).wf(),
            (final(self)@, r) == spec_trapv(old(self)@),
    {
        if self.read_ccr(StatusRegister::V) {
            return self.trap(7);
        }
        Ok(())
    }

    fn move_usp(&mut self, inst: u16) -> (r: Result<(), Fault>)
        requires
            old(self).wf(),
        ensures
            final(self).wf(),
            (final(self)@, r) == spec_move_usp(old(self)@, inst),
    {
        if !self.is_supervisor_mode() {
            return self.trap_vec(Vector::PrivilegeViolation.offset());
        }
        let reg = get_reg(inst, 0);
        if get_bits(inst, 3, 1) == 1 {
            let v = self.read_usp();
            self.write_ar(reg, v);
        } else {
            let v = self.read_ar(reg);
            self.write_usp(v);
        }
        Ok(())
    }

    fn lea(&mut self, inst: u16) -> (r: Result<(), Fault>)
        requires
            old(self).wf(),
        ensures
            final(self).wf(),
            (final(self)@, r) == spec_lea(old(self)@, inst),
    {
        if !AddressingMode::field_valid(inst) {
            return self.illegal();
        }
        let reg = get_reg(inst, 9);
        let ea = AddressingMode::from(inst);
        let val = self.get_ea(ea)?;
        self.write_ar(reg, val);
        Ok(())
    }

    fn clr(&mut self, inst: u16) -> (r: Result<(), Fault>)
        requires
            old(self).wf(),
        ensures
            final(self).wf(),
            (final(self)@, r) == spec_clr(old(self)@, inst),
    {
        let size = match self.size_pink(get_bits(inst, 6, 2)) {
            Some(size) => size,
            None => {
                return self.illegal();
            },
        };
        if !AddressingMode::field_valid(inst) {
            return self.illegal();
        }
        let ea = AddressingMode::from(inst);
        let val = match size {
            Size::Byte => Value::Byte(0),
            Size::Word => Value::Word(0),
            Size::Long => Value::Long(0),
        };
        self.write_ea(ea, size, val)?;
        self.set_flags_logic(0, size);
        Ok(())
    }

    fn negx(&mut self, inst: u16) -> (r: Result<(), Fault>)
        requires
            old(self).wf(),
        ensures
            final(self).wf(),
            (final(self)@, r) == spec_negx(old(self)@, inst),
    {
        let size = match self.size_pink(get_bits(inst, 6, 2)) {
            Some(size) => size,
            None => {
                return self.illegal();
            },
        };
        if !AddressingMode::field_valid(inst) {
            return self.illegal();
        }
        let ea = AddressingMode::from(inst);
        let val = self.read_ea(ea, size)?;
        let x: u32 = if self.read_ccr(StatusRegister::X) {
            1
        } else {
            0
        };
        let res = 0u32.wrapping_sub(val.to_u32()).wrapping_sub(x);
        self.write_ea(ea, size, Value::Long(res))?;
        self.set_flags_sub(0, val.to_u32(), res, size);
        Ok(())
    }

    fn neg(&mut self, inst: u16) -> (r: Result<(), Fault>)
        requires
            old(self).wf(),
        ensures
            final(self).wf(),
            (final(self)@, r) == spec_neg(old(self)@, inst),
    {
        let size = match self.size_pink(get_bits(inst, 6, 2)) {
            Some(size) => size,
            None => {
                return self.illegal();
            },
        };
        if !AddressingMode::field_valid(inst) {
            return self.illegal();
        }
        let ea = AddressingMode::from(inst);
        let val = self.read_ea(ea, size)?;
        let res = 0u32.wrapping_sub(val.to_u32());
        self.write_ea(ea, size, Value::Long(res))?;
        self.set_flags_sub(0, val.to_u32(), res, size);
        Ok(())
    }

    fn not(&mut self, inst: u16) -> (r: Result<(), Fault>)
        requires
            old(self).wf(),
        ensures
            final(self).wf(),
            (final(self)@, r) == spec_not(old(self)@, inst),
    {
        let size = match self.size_pink(get_bits(inst, 6, 2)) {
            Some(size) => size,
            None => {
                return self.illegal();
            },
        };
        if !AddressingMode::field_valid(inst) {
            return self.illegal();
        }
        let ea = AddressingMode::from(inst);
        let val = self.read_ea(ea, size)?;
        let res: u32 = !val.to_u32();
        self.write_ea(ea, size, Value::Long(res))?;
        self.set_flags_logic(res, size);
        Ok(())
    }

    fn ext(&mut self, inst: u16) -> (r: Result<(), Fault>)
        requires
            old(self).wf(),
        ensures
            final(self).wf(),
            (final(self)@, r) == spec_ext(old(self)@, inst),
    {
        let reg = get_reg(inst, 0);
        let val = self.read_dr(reg);
        if get_bits(inst, 6, 1) == 1 {
            let res = sign_extend_16_to_32(val as u16);
            self.write_dr(reg, Size::Long, res);
            self.set_flags_logic(res, Size::Long);
        } else {
            let res = sign_extend_8_to_16(val as u8) as u32;
            self.write_dr(reg, Size::Word, res);
            self.set_flags_logic(res, Size::Word);
        }
        Ok(())
    }

    fn swap(&mut self, inst: u16) -> (r: Result<(), Fault>)
        requires
            old(self).wf(),
        ensures
            final(self).wf(),
            (final(self)@, r) == spec_swap(old(self)@, inst),
    {
        let reg = get_reg(inst, 0);
        let val = self.read_dr(reg);
        let new = ((val & 0xFFFF) << 16u32) | (val >> 16u32);
        self.write_dr(reg, Size::Long, new);
        Ok(())
    }

    fn pea(&mut self, inst: u16) -> (r: Result<(), Fault>)
        requires
            old(self).wf(),
        ensures
            final(self).wf(),
            (final(self)@, r) == spec_pea(old(self)@, inst),
    {
        if !AddressingMode::field_valid(inst) {
            return self.illegal();
        }
        let ea = AddressingMode::from(inst);
        let val = self.get_ea(ea)?;
        self.push_long(val)
    }

    fn chk(&mut self, inst: u16) -> (r: Result<(), Fault>)
        requires
            old(self).wf(),
        ensures
            final(self).wf(),
            (final(self)@, r) == spec_chk(old(self)@, inst),
    {
        let size = match self.size_purple(get_bits(inst, 7, 2)) {
            Some(size) => size,
            None => {
                return self.illegal();
            },
        };
        if !AddressingMode::field_valid(inst) {
            return self.illegal();
        }
        let reg = get_reg(inst, 9);
        let val1 = self.read_dr(reg);
        let ea = AddressingMode::from(inst);
        let val2 = self.read_ea(ea, size)?.to_u32() as i32;
        if (val1 as i32) < 0 {
            self.write_ccr(StatusRegister::N, true);
            return self.trap_vec(Vector::Chk.offset());
        }
        if (val1 as i32) > val2 {
            self.write_ccr(StatusRegister::N, false);
            return self.trap_vec(Vector::Chk.offset());
        }
        Ok(())
    }

    fn jsr(&mut self, inst: u16) -> (r: Result<(), Fault>)
        requires
            old(self).wf(),
        ensures
            final(self).wf(),
            (final(self)@, r) == spec_jsr(old(self)@, inst),
    {
        if !AddressingMode::field_valid(inst) {
            return self.illegal();
        }
        let ea = AddressingMode::from(inst);
        let addr = self.get_ea(ea)?;
        let pc = self.read_pc();
        self.push_long(pc)?;
        self.write_pc(addr);
        Ok(())
    }

    fn jmp(&mut self, inst: u16) -> (r: Result<(), Fault>)
        requires
            old(self).wf(),
        ensures
            final(self).wf(),
            (final(self)@, r) == spec_jmp(old(self)@, inst),
    {
        if !AddressingMode::field_valid(inst) {
            return self.illegal();
        }
        let ea = AddressingMode::from(inst);
        let addr = self.get_ea(ea)?;
        self.write_pc(addr);
        Ok(())
    }

    /// Step back onto the halt word and latch the halt.
    pub(crate) fn halt(&mut self)
        requires
            old(self).wf(),
        ensures
            final(self).wf(),
            final(self)@ == spec_halt(old(self)@),
    {
        self.decrement_pc(2);
        self.halted = true;
    }

    /// The miscellaneous family: single-operand instructions, system control
    /// and flow control.
    pub(crate) fn util_family(&mut self, inst: u16) -> (r: Result<(), Fault>)
        requires
            old(self).wf(),
        ensures
            final(self).wf(),
            (final(self)@, r) == spec_util_family(old(self)@, inst),
    {
        if (inst & 0x0FB8) == 0x0880 {
            return self.ext(inst);
        }
        if (inst & 0x01C0) == 0x01C0 {
            return self.lea(inst);
        }
        if (inst & 0x01C0) == 0x0180 {
            return self.chk(inst);
        }
        if (inst & 0x0B80) == 0x0880 {
            return self.movem(inst);
        }
        if 0x40C0 <= inst && inst <= 0x40FF {
            self.move_from_sr(inst)
        } else if 0x44C0 <= inst && inst <= 0x44FF {
            self.move_to_ccr(inst)
        } else if 0x46C0 <= inst && inst <= 0x46FF {
            self.move_to_sr(inst)
        } else if 0x4000 <= inst && inst <= 0x40BF {
            self.negx(inst)
        } else if 0x4200 <= inst && inst <= 0x42FF {
            self.clr(inst)
        } else if 0x4400 <= inst && inst <= 0x44BF {
            self.neg(inst)
        } else if 0x4600 <= inst && inst <= 0x46BF {
            self.not(inst)
        } else if 0x4800 <= inst && inst <= 0x483F {
            Err(Fault::Unimplemented)
        } else if 0x4840 <= inst && inst <= 0x4847 {
            self.swap(inst)
        } else if 0x4848 <= inst && inst <= 0x487F {
            self.pea(inst)
        } else if inst == 0x4AFC {
            self.illegal()
        } else if 0x4A00 <= inst && inst <= 0x4ABF {
            self.tst(inst)
        } else if 0x4AC0 <= inst && inst <= 0x4AFF {
            Err(Fault::Unimplemented)
        } else if 0x4E40 <= inst && inst <= 0x4E4F {
            self.trap(inst)
        } else if 0x4E50 <= inst && inst <= 0x4E57 {
            self.link(inst)
        } else if 0x4E58 <= inst && inst <= 0x4E5F {
            self.unlk(inst)
        } else if 0x4E60 <= inst && inst <= 0x4E6F {
            self.move_usp(inst)
        } else if inst == 0x4E70 {
            self.reset()
        } else if inst == 0x4E71 {
            Ok(())
        } else if inst == 0x4E72 {
            self.stop()
        } else if inst == 0x4E73 {
            self.rte()
        } else if inst == 0x4E75 {
            self.rts()
        } else if inst == 0x4E76 {
            self.trapv()
        } else if inst == 0x4E77 {
            Err(Fault::Unimplemented)
        } else if 0x4E80 <= inst && inst <= 0x4EBF {
            self.jsr(inst)
        } else if 0x4EC0 <= inst && inst <= 0x4EFF {
            self.jmp(inst)
        } else {
            self.illegal()
        }
    }
}

} // verus!
