use vstd::prelude::*;

use crate::cpu::spec_read_ar;
use crate::cpu::spec_write_ar;
use crate::cpu::spec_write_dr;
use crate::cpu::Cpu;
use crate::cpu::CpuState;
use crate::ea::spec_read_ea;
use crate::ea::spec_read_ea_byte;
use crate::ea::spec_read_ea_long;
use crate::ea::spec_read_ea_word;
use crate::ea::spec_write_ea;
use crate::flags::spec_flags_sub;
use crate::isa_util::spec_illegal;
use crate::types::ea_field_valid;
use crate::types::spec_decode_ea;
use crate::types::spec_value_wrapping_sub_u8;
use crate::types::value_to_u32;
use crate::types::AddressingMode;
use crate::types::Fault;
use crate::types::Size;
use crate::util::get_bits;
use crate::util::get_reg;
use crate::util::sign_extend_16_to_32;
use crate::util::spec_get_bits;
use crate::util::spec_sign_extend_16_to_32;

verus! {

/// SUB with the difference going to the data register.
pub open spec fn spec_sub_data(s: CpuState, inst: u16, size: Size) -> (CpuState, Result<
    (),
    Fault,
>) {
    if !ea_field_valid(inst) {
        spec_illegal(s)
    } else {
        let reg = spec_get_bits(inst, 9, 3) as u8;
        let val1 = s.dr[reg as int];
        let ea = spec_decode_ea(inst);
        let (s1, r1) = match size {
            Size::Byte => {
                let (sa, ra) = spec_read_ea_byte(s, ea);
                match ra {
                    Ok(b) => (sa, Ok(b as u32)),
                    Err(f) => (sa, Err(f)),
                }
            },
            Size::Word => {
                let (sa, ra) = spec_read_ea_word(s, ea);
                match ra {
                    Ok(w) => (sa, Ok(w as u32)),
                    Err(f) => (sa, Err(f)),
                }
            },
            Size::Long => spec_read_ea_long(s, ea),
        };
        match r1 {
            Err(f) => (s1, Err(f)),
            Ok(val2) => {
                let res = val1.wrapping_sub(val2);
                let s2 = CpuState { sr: spec_flags_sub(s1.sr, val1, val2, res, size), ..s1 };
                (spec_write_dr(s2, reg, size, res), Ok(()))
            },
        }
    }
}

/// SUBA: word or long operand subtracted from a whole address register, a
/// word sign-extended; no flags change.
pub open spec fn spec_suba(s: CpuState, inst: u16, size: Size) -> (CpuState, Result<(), Fault>) {
    if !ea_field_valid(inst) {
        spec_illegal(s)
    } else {
        let reg = spec_get_bits(inst, 9, 3) as u8;
        let val1 = spec_read_ar(s, reg);
        let ea = spec_decode_ea(inst);
        let (s1, r1) = spec_read_ea(s, ea, size);
        match r1 {
            Err(f) => (s1, Err(f)),
            Ok(v) => {
                let res = if size == Size::Word {
                    val1.wrapping_sub(spec_sign_extend_16_to_32(value_to_u32(v) as u16))
                } else {
                    val1.wrapping_sub(value_to_u32(v))
                };
                (spec_write_ar(s1, reg, res), Ok(()))
            },
        }
    }
}

/// SUBQ: a quick immediate of one to eight subtracted at the operand size.
pub open spec fn spec_subq(s: CpuState, inst: u16) -> (CpuState, Result<(), Fault>) {
    let bits = spec_get_bits(inst, 6, 2);
    if bits == 3 || !ea_field_valid(inst) {
        spec_illegal(s)
    } else {
        let data = spec_get_bits(inst, 9, 3);
        let imm: u8 = if data == 0 {
            8
        } else {
            data as u8
        };
        let size = crate::util::spec_decode_size(bits, crate::util::SizeCoding::Pink);
        let ea = spec_decode_ea(inst);
        let (s1, r1) = spec_read_ea(s, ea, size);
        match r1 {
            Err(f) => (s1, Err(f)),
            Ok(v) => {
                let res = spec_value_wrapping_sub_u8(v, imm);
                let (s2, r2) = spec_write_ea(s1, ea, size, res);
                match r2 {
                    Err(f) => (s2, Err(f)),
                    Ok(_) => (
                        CpuState {
                            sr: spec_flags_sub(
                                s2.sr,
                                value_to_u32(v),
                                imm as u32,
                                value_to_u32(res),
                                size,
                            ),
                            ..s2
                        },
                        Ok(()),
                    ),
                }
            },
        }
    }
}

/// The subtract family: the opmode field picks the direction and width.
pub open spec fn spec_sub_family(s: CpuState, inst: u16) -> (CpuState, Result<(), Fault>) {
    let opmode = spec_get_bits(inst, 6, 3);
    if opmode == 0 {
        spec_sub_data(s, inst, Size::Byte)
    } else if opmode == 1 {
        spec_sub_data(s, inst, Size::Word)
    } else if opmode == 2 {
        spec_sub_data(s, inst, Size::Long)
    } else if opmode == 3 {
        spec_suba(s, inst, Size::Word)
    } else if opmode == 7 {
        spec_suba(s, inst, Size::Long)
    } else {
        (s, Err(Fault::Unimplemented))
    }
}

impl Cpu {
    fn sub_data(&mut self, inst: u16, size: Size) -> (r: Result<(), Fault>)
        requires
            old(self).wf(),
        ensures
            final(self).wf(),
            (final(self)@, r) == spec_sub_data(old(self)@, inst, size),
    {
        if !AddressingMode::field_valid(inst) {
            return self.illegal();
        }
        let reg = get_reg(inst, 9);
        let val1 = self.read_dr(reg);
        let ea = AddressingMode::from(inst);
        let val2: u32 = match size {
            Size::Byte => {
                let b = self.read_ea_byte(ea)?;
                b as u32
            },
            Size::Word => {
                let w = self.read_ea_word(ea)?;
                w as u32
            },
            Size::Long => self.read_ea_long(ea)?,
        };
        let res = val1.wrapping_sub(val2);
        self.set_flags_sub(val1, val2, res, size);
        self.write_dr(reg, size, res);
        Ok(())
    }

    fn suba(&mut self, inst: u16, size: Size) -> (r: Result<(), Fault>)
        requires
            old(self).wf(),
        ensures
            final(self).wf(),
            (final(self)@, r) == spec_suba(old(self)@, inst, size),
    {
        if !AddressingMode::field_valid(inst) {
            return self.illegal();
        }
        let reg = get_reg(inst, 9);
        let val1 = self.read_ar(reg);
        let ea = AddressingMode::from(inst);
        let v = self.read_ea(ea, size)?;
        let res = if matches!(size, Size::Word) {
            val1.wrapping_sub(sign_extend_16_to_32(v.to_u32() as u16))
        } else {
            val1.wrapping_sub(v.to_u32())
        };
        self.write_ar(reg, res);
        Ok(())
    }

    pub(crate) fn subq(&mut self, inst: u16) -> (r: Result<(), Fault>)
        requires
            old(self).wf(),
        ensures
            final(self).wf(),
            (final(self)@, r) == spec_subq(old(self)@, inst),
    {
        let size = match self.size_pink(get_bits(inst, 6, 2)) {
            Some(size) => size,
            None => {
                return self.illegal();
            },
        };
        if !AddressingMode::field_valid(inst) {
            return self.illegal();
        }
        let data = get_bits(inst, 9, 3);
        let imm: u8 = if data == 0 {
            8
        } else {
            data as u8
        };
        let ea = AddressingMode::from(inst);
        let val = self.read_ea(ea, size)?;
        let res = val.wrapping_sub_u8(imm);
        self.write_ea(ea, size, res)?;
        self.set_flags_sub(val.to_u32(), imm as u32, res.to_u32(), size);
        Ok(())
    }

    pub(crate) fn sub_family(&mut self, inst: u16) -> (r: Result<(), Fault>)
        requires
            old(self).wf(),
        ensures
            final(self).wf(),
            (final(self)@, r) == spec_sub_family(old(self)@, inst),
    {
        let opmode = get_bits(inst, 6, 3);
        if opmode == 0 {
            self.sub_data(inst, Size::Byte)
        } else if opmode == 1 {
            self.sub_data(inst, Size::Word)
        } else if opmode == 2 {
            self.sub_data(inst, Size::Long)
        } else if opmode == 3 {
            self.suba(inst, Size::Word)
        } else if opmode == 7 {
            self.suba(inst, Size::Long)
        } else {
            Err(Fault::Unimplemented)
        }
    }
}

} // verus!
