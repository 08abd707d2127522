use vstd::prelude::*;

use crate::cpu::spec_ccr;
use crate::cpu::spec_set_ccr;
use crate::cpu::spec_write_dr;
use crate::cpu::Cpu;
use crate::cpu::CpuState;
use crate::cpu::StatusRegister;
use crate::ea::spec_read_ea_word;
use crate::ea::spec_write_ea_word;
use crate::isa_util::spec_illegal;
use crate::types::ea_field_valid;
use crate::types::mask_to_size;
use crate::types::spec_decode_ea;
use crate::types::AddressingMode;
use crate::types::Fault;
use crate::types::Size;
use crate::util::get_bits;
use crate::util::get_reg;
use crate::util::is_negative;
use crate::util::is_zero;
use crate::util::spec_get_bits;
use crate::util::spec_is_negative;
use crate::util::spec_is_zero;

verus! {

/// Flags after a shift or rotate: C takes the last bit moved out, X follows
/// C only for the plain shifts, N and Z follow the result, V is cleared.
pub open spec fn spec_shift_flags(sr: u16, res: u32, size: Size, c: bool, with_x: bool) -> u16 {
    let s0 = if with_x {
        spec_set_ccr(sr, StatusRegister::X, c)
    } else {
        sr
    };
    let s1 = spec_set_ccr(s0, StatusRegister::C, c);
    let s2 = spec_set_ccr(s1, StatusRegister::N, spec_is_negative(res, size));
    let s3 = spec_set_ccr(s2, StatusRegister::Z, spec_is_zero(res, size));
    spec_set_ccr(s3, StatusRegister::V, false)
}

/// The shift count: the low six bits of a data register, or an immediate
/// one to eight where a zero field means eight.
pub open spec fn spec_shift_count(s: CpuState, inst: u16) -> u8 {
    let field = spec_get_bits(inst, 9, 3);
    if spec_get_bits(inst, 5, 1) == 1 {
        (s.dr[field as int] % 64) as u8
    } else if field == 0 {
        8
    } else {
        field as u8
    }
}

/// Logical shift right of the register value at its width.
pub open spec fn spec_lsr_result(m: u32, count: u8) -> u32 {
    if count == 0 {
        m
    } else if count >= 32 {
        0
    } else {
        m >> (count as u32)
    }
}

pub open spec fn spec_lsr_carry(m: u32, count: u8) -> bool {
    if count == 0 || count > 32 {
        false
    } else {
        (m >> ((count - 1) as u32)) & 1 == 1
    }
}

pub open spec fn spec_lsr_reg(s: CpuState, inst: u16) -> (CpuState, Result<(), Fault>) {
    let bits = spec_get_bits(inst, 6, 2);
    if bits == 3 {
        spec_illegal(s)
    } else {
        let size = crate::util::spec_decode_size(bits, crate::util::SizeCoding::Pink);
        let reg = spec_get_bits(inst, 0, 3) as u8;
        let count = spec_shift_count(s, inst);
        let m = mask_to_size(s.dr[reg as int], size);
        let res = spec_lsr_result(m, count);
        let c = spec_lsr_carry(m, count);
        let s1 = spec_write_dr(s, reg, size, res);
        (
            CpuState { sr: spec_shift_flags(s1.sr, res, size, c, count != 0), ..s1 },
            Ok(()),
        )
    }
}

/// Logical shift left of the register value at its width.
pub open spec fn spec_lsl_result(m: u32, count: u8, size: Size) -> u32 {
    if count == 0 {
        m
    } else if count >= 32 {
        0
    } else {
        mask_to_size(m << (count as u32), size)
    }
}

pub open spec fn spec_lsl_carry(m: u32, count: u8, size: Size) -> bool {
    if count == 0 || count as u32 > size.spec_bits() {
        false
    } else {
        (m >> ((size.spec_bits() - count as u32) as u32)) & 1 == 1
    }
}

pub open spec fn spec_lsl_reg(s: CpuState, inst: u16) -> (CpuState, Result<(), Fault>) {
    let bits = spec_get_bits(inst, 6, 2);
    if bits == 3 {
        spec_illegal(s)
    } else {
        let size = crate::util::spec_decode_size(bits, crate::util::SizeCoding::Pink);
        let reg = spec_get_bits(inst, 0, 3) as u8;
        let count = spec_shift_count(s, inst);
        let m = mask_to_size(s.dr[reg as int], size);
        let res = spec_lsl_result(m, count, size);
        let c = spec_lsl_carry(m, count, size);
        let s1 = spec_write_dr(s, reg, size, res);
        (
            CpuState { sr: spec_shift_flags(s1.sr, res, size, c, count != 0), ..s1 },
            Ok(()),
        )
    }
}

/// Rotation without the extend bit, at the operand width.
pub open spec fn spec_ror_result(m: u32, count: u8, size: Size) -> u32 {
    let k = (count as u32) % size.spec_bits();
    if k == 0 {
        m
    } else {
        mask_to_size((m >> k) | (m << ((size.spec_bits() - k) as u32)), size)
    }
}

pub open spec fn spec_rol_result(m: u32, count: u8, size: Size) -> u32 {
    let k = (count as u32) % size.spec_bits();
    if k == 0 {
        m
    } else {
        mask_to_size((m << k) | (m >> ((size.spec_bits() - k) as u32)), size)
    }
}

pub open spec fn spec_rod_reg(s: CpuState, inst: u16) -> (CpuState, Result<(), Fault>) {
    let bits = spec_get_bits(inst, 6, 2);
    if bits == 3 {
        spec_illegal(s)
    } else {
        let size = crate::util::spec_decode_size(bits, crate::util::SizeCoding::Pink);
        let reg = spec_get_bits(inst, 0, 3) as u8;
        let count = spec_shift_count(s, inst);
        let m = mask_to_size(s.dr[reg as int], size);
        if spec_get_bits(inst, 8, 1) == 0 {
            let res = spec_ror_result(m, count, size);
            let c = count != 0 && spec_is_negative(res, size);
            let s1 = spec_write_dr(s, reg, size, res);
            (
                CpuState { sr: spec_shift_flags(s1.sr, res, size, c, false), ..s1 },
                Ok(()),
            )
        } else {
            let res = spec_rol_result(m, count, size);
            let c = count != 0 && res & 1 == 1;
            let s1 = spec_write_dr(s, reg, size, res);
            (
                CpuState { sr: spec_shift_flags(s1.sr, res, size, c, false), ..s1 },
                Ok(()),
            )
        }
    }
}

/// ROXR on a memory word: one step right through the X bit.
pub open spec fn spec_roxr_mem(s: CpuState, inst: u16) -> (CpuState, Result<(), Fault>) {
    if !ea_field_valid(inst) {
        spec_illegal(s)
    } else {
        let ea = spec_decode_ea(inst);
        let (s1, r1) = spec_read_ea_word(s, ea);
        match r1 {
            Err(f) => (s1, Err(f)),
            Ok(val) => {
                let out_bit = val & 1 == 1;
                let shifted = (val >> 1) as u16;
                let v2: u16 = if spec_ccr(s1.sr, StatusRegister::X) {
                    shifted | 0x8000
                } else {
                    shifted
                };
                let (s2, r2) = spec_write_ea_word(s1, ea, v2);
                match r2 {
                    Err(f) => (s2, Err(f)),
                    Ok(_) => {
                        let sr1 = spec_set_ccr(s2.sr, StatusRegister::C, out_bit);
                        let sr2 = spec_set_ccr(sr1, StatusRegister::V, false);
                        let sr3 = spec_set_ccr(sr2, StatusRegister::Z, v2 == 0);
                        let sr4 = spec_set_ccr(sr3, StatusRegister::N, v2 & 0x8000 == 0x8000);
                        let sr5 = spec_set_ccr(sr4, StatusRegister::X, out_bit);
                        (CpuState { sr: sr5, ..s2 }, Ok(()))
                    },
                }
            },
        }
    }
}

/// The shift and rotate family; the register and memory forms are told apart
/// by the size field.
pub open spec fn spec_rot_family(s: CpuState, inst: u16) -> (CpuState, Result<(), Fault>) {
    if spec_get_bits(inst, 6, 2) == 3 {
        let sel = spec_get_bits(inst, 9, 2);
        if sel == 2 {
            if spec_get_bits(inst, 8, 1) == 0 {
                spec_roxr_mem(s, inst)
            } else {
                (s, Err(Fault::Unimplemented))
            }
        } else {
            (s, Err(Fault::Unimplemented))
        }
    } else {
        let sel = spec_get_bits(inst, 3, 2);
        if sel == 0 {
            (s, Err(Fault::Unimplemented))
        } else if sel == 1 {
            if spec_get_bits(inst, 8, 1) == 0 {
                spec_lsr_reg(s, inst)
            } else {
                spec_lsl_reg(s, inst)
            }
        } else if sel == 2 {
            (s, Err(Fault::Unimplemented))
        } else {
            spec_rod_reg(s, inst)
        }
    }
}

impl Cpu {
    fn set_flags_shift(&mut self, res: u32, size: Size, c: bool, with_x: bool)
        requires
            old(self).wf(),
        ensures
            final(self).wf(),
            final(self)@ == (CpuState {
                sr: spec_shift_flags(old(self)@.sr, res, size, c, with_x),
                ..old(self)@
            }),
    {
        if with_x {
            self.write_ccr(StatusRegister::X, c);
        }
        self.write_ccr(StatusRegister::C, c);
        let n = is_negative(res, size);
        let z = is_zero(res, size);
        self.write_ccr(StatusRegister::N, n);
        self.write_ccr(StatusRegister::Z, z);
        self.write_ccr(StatusRegister::V, false);
    }

    fn shift_count(&self, inst: u16) -> (r: u8)
        requires
            self.wf(),
        ensures
            r == spec_shift_count(self@, inst),
    {
        let field = get_bits(inst, 9, 3);
        if get_bits(inst, 5, 1) == 1 {
            (self.read_dr(field as u8) % 64) as u8
        } else if field == 0 {
            8
        } else {
            field as u8
        }
    }

    fn masked_dr(&self, reg: u8, size: Size) -> (r: u32)
        requires
            self.wf(),
            reg < 8,
        ensures
            r == mask_to_size(self@.dr[reg as int], size),
    {
        let val = self.read_dr(reg);
        match size {
            Size::Byte => val & 0xFF,
            Size::Word => val & 0xFFFF,
            Size::Long => val,
        }
    }

    fn mask_at(&self, val: u32, size: Size) -> (r: u32)
        ensures
            r == mask_to_size(val, size),
    {
        match size {
            Size::Byte => val & 0xFF,
            Size::Word => val & 0xFFFF,
            Size::Long => val,
        }
    }

    fn lsr_reg(&mut self, inst: u16) -> (r: Result<(), Fault>)
        requires
            old(self).wf(),
        ensures
            final(self).wf(),
            (final(self)@, r) == spec_lsr_reg(old(self)@, inst),
    {
        let size = match self.size_pink(get_bits(inst, 6, 2)) {
            Some(size) => size,
            None => {
                return self.illegal();
            },
        };
        let reg = get_reg(inst, 0);
        let count = self.shift_count(inst);
        let m = self.masked_dr(reg, size);
        let res = if count == 0 {
            m
        } else if count >= 32 {
            0
        } else {
            m >> (count as u32)
        };
        let c = if count == 0 || count > 32 {
            false
        } else {
            (m >> ((count - 1) as u32)) & 1 == 1
        };
        self.write_dr(reg, size, res);
        self.set_flags_shift(res, size, c, count != 0);
        Ok(())
    }

    fn lsl_reg(&mut self, inst: u16) -> (r: Result<(), Fault>)
        requires
            old(self).wf(),
        ensures
            final(self).wf(),
            (final(self)@, r) == spec_lsl_reg(old(self)@, inst),
    {
        let size = match self.size_pink(get_bits(inst, 6, 2)) {
            Some(size) => size,
            None => {
                return self.illegal();
            },
        };
        let reg = get_reg(inst, 0);
        let count = self.shift_count(inst);
        let m = self.masked_dr(reg, size);
        let res = if count == 0 {
            m
        } else if count >= 32 {
            0
        } else {
            self.mask_at(m << (count as u32), size)
        };
        let c = if count == 0 || (count as u32) > size.bits() {
            false
        } else {
            (m >> (size.bits() - count as u32)) & 1 == 1
        };
        self.write_dr(reg, size, res);
        self.set_flags_shift(res, size, c, count != 0);
        Ok(())
    }

    fn rod_reg(&mut self, inst: u16) -> (r: Result<(), Fault>)
        requires
            old(self).wf(),
        ensures
            final(self).wf(),
            (final(self)@, r) == spec_rod_reg(old(self)@, inst),
    {
        let size = match self.size_pink(get_bits(inst, 6, 2)) {
            Some(size) => size,
            None => {
                return self.illegal();
            },
        };
        let reg = get_reg(inst, 0);
        let count = self.shift_count(inst);
        let m = self.masked_dr(reg, size);
        let k = (count as u32) % size.bits();
        if get_bits(inst, 8, 1) == 0 {
            let res = if k == 0 {
                m
            } else {
                self.mask_at((m >> k) | (m << (size.bits() - k)), size)
            };
            let c = count != 0 && is_negative(res, size);
            self.write_dr(reg, size, res);
            self.set_flags_shift(res, size, c, false);
        } else {
            let res = if k == 0 {
                m
            } else {
                self.mask_at((m << k) | (m >> (size.bits() - k)), size)
            };
            let c = count != 0 && res & 1 == 1;
            self.write_dr(reg, size, res);
            self.set_flags_shift(res, size, c, false);
        }
        Ok(())
    }

    fn roxr_mem(&mut self, inst: u16) -> (r: Result<(), Fault>)
        requires
            old(self).wf(),
        ensures
            final(self).wf(),
            (final(self)@, r) == spec_roxr_mem(old(self)@, inst),
    {
        if !AddressingMode::field_valid(inst) {
            return self.illegal();
        }
        let ea = AddressingMode::from(inst);
        let val = self.read_ea_word(ea)?;
        let out_bit = val & 1 == 1;
        let shifted = val >> 1;
        let v2 = if self.read_ccr(StatusRegister::X) {
            shifted | 0x8000
        } else {
            shifted
        };
        self.write_ea_word(ea, v2)?;
        self.write_ccr(StatusRegister::C, out_bit);
        self.write_ccr(StatusRegister::V, false);
        self.write_ccr(StatusRegister::Z, v2 == 0);
        self.write_ccr(StatusRegister::N, v2 & 0x8000 == 0x8000);
        self.write_ccr(StatusRegister::X, out_bit);
        Ok(())
    }

    pub(crate) fn rot_family(&mut self, inst: u16) -> (r: Result<(), Fault>)
        requires
            old(self).wf(),
        ensures
            final(self).wf(),
            (final(self)@, r) == spec_rot_family(old(self)@, inst),
    {
        if get_bits(inst, 6, 2) == 3 {
            let sel = get_bits(inst, 9, 2);
            if sel == 2 {
                if get_bits(inst, 8, 1) == 0 {
                    self.roxr_mem(inst)
                } else {
                    Err(Fault::Unimplemented)
                }
            } else {
                Err(Fault::Unimplemented)
            }
        } else {
            let sel = get_bits(inst, 3, 2);
            if sel == 0 {
                Err(Fault::Unimplemented)
            } else if sel == 1 {
                if get_bits(inst, 8, 1) == 0 {
                    self.lsr_reg(inst)
                } else {
                    self.lsl_reg(inst)
                }
            } else if sel == 2 {
                Err(Fault::Unimplemented)
            } else {
                self.rod_reg(inst)
            }
        }
    }
}

} // verus!
