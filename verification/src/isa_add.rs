use vstd::prelude::*;

use crate::cpu::spec_ccr;
use crate::cpu::spec_fetch_long;
use crate::cpu::spec_fetch_word;
use crate::cpu::spec_write_ar;
use crate::cpu::spec_write_dr;
use crate::cpu::spec_read_ar;
use crate::cpu::Cpu;
use crate::cpu::CpuState;
use crate::cpu::StatusRegister;
use crate::ea::spec_read_ea;
use crate::ea::spec_read_ea_long;
use crate::ea::spec_read_ea_word;
use crate::ea::spec_write_ea;
use crate::flags::spec_flags_add;
use crate::isa_util::spec_illegal;
use crate::types::ea_field_valid;
use crate::types::spec_decode_ea;
use crate::types::spec_value_wrapping_add_u8;
use crate::types::value_to_u32;
use crate::types::AddressingMode;
use crate::types::Fault;
use crate::types::Size;
use crate::types::Value;
use crate::util::get_bits;
use crate::util::get_reg;
use crate::util::sign_extend_16_to_32;
use crate::util::sign_extend_8_to_32;
use crate::util::spec_get_bits;
use crate::util::spec_sign_extend_16_to_32;
use crate::util::spec_sign_extend_8_to_32;

verus! {

/// The sum of two operands at a width, wrapped at that width and tagged.
pub open spec fn spec_add_at(size: Size, val1: u32, val2: u32) -> Value {
    match size {
        Size::Byte => Value::Byte((val1 as u8).wrapping_add(val2 as u8)),
        Size::Word => Value::Word((val1 as u16).wrapping_add(val2 as u16)),
        Size::Long => Value::Long(val1.wrapping_add(val2)),
    }
}

/// ADDX between data registers: both operands plus the X flag, the result
/// sign-extended into the register at its width.
pub open spec fn spec_addx_data(s: CpuState, inst: u16) -> (CpuState, Result<(), Fault>) {
    let bits = spec_get_bits(inst, 6, 2);
    if bits == 3 {
        spec_illegal(s)
    } else {
        let size = crate::util::spec_decode_size(bits, crate::util::SizeCoding::Pink);
        let reg1 = spec_get_bits(inst, 9, 3) as u8;
        let reg2 = spec_get_bits(inst, 0, 3) as u8;
        let val1 = s.dr[reg1 as int];
        let val2 = s.dr[reg2 as int];
        let x: u32 = if spec_ccr(s.sr, StatusRegister::X) {
            1
        } else {
            0
        };
        let res = match size {
            Size::Byte => spec_sign_extend_8_to_32(
                (val1 as u8).wrapping_add(val2 as u8).wrapping_add(x as u8),
            ),
            Size::Word => spec_sign_extend_16_to_32(
                (val1 as u16).wrapping_add(val2 as u16).wrapping_add(x as u16),
            ),
            Size::Long => val1.wrapping_add(val2).wrapping_add(x),
        };
        let s1 = spec_write_dr(s, reg1, size, res);
        (CpuState { sr: spec_flags_add(s1.sr, val1, val2, res, size), ..s1 }, Ok(()))
    }
}

/// ADDX between memory operands through the pre-decrement mode; the sum is
/// stored back at the decremented destination address.
pub open spec fn spec_addx_addr(s: CpuState, inst: u16) -> (CpuState, Result<(), Fault>) {
    let bits = spec_get_bits(inst, 6, 2);
    if bits == 3 {
        spec_illegal(s)
    } else {
        let size = crate::util::spec_decode_size(bits, crate::util::SizeCoding::Pink);
        let reg1 = spec_get_bits(inst, 9, 3) as u8;
        let reg2 = spec_get_bits(inst, 0, 3) as u8;
        let (s1, r1) = spec_read_ea(
            s,
            AddressingMode::AddressRegisterIndirectPreDecrement(reg1),
            size,
        );
        match r1 {
            Err(f) => (s1, Err(f)),
            Ok(v1) => {
                let (s2, r2) = spec_read_ea(
                    s1,
                    AddressingMode::AddressRegisterIndirectPreDecrement(reg2),
                    size,
                );
                match r2 {
                    Err(f) => (s2, Err(f)),
                    Ok(v2) => {
                        let val1 = value_to_u32(v1);
                        let val2 = value_to_u32(v2);
                        let x: u32 = if spec_ccr(s2.sr, StatusRegister::X) {
                            1
                        } else {
                            0
                        };
                        let res = val1.wrapping_add(val2).wrapping_add(x);
                        let (s3, r3) = spec_write_ea(
                            s2,
                            AddressingMode::AddressRegisterIndirect(reg1),
                            size,
                            Value::Long(res),
                        );
                        match r3 {
                            Err(f) => (s3, Err(f)),
                            Ok(_) => (
                                CpuState {
                                    sr: spec_flags_add(s3.sr, val1, val2, res, size),
                                    ..s3
                                },
                                Ok(()),
                            ),
                        }
                    },
                }
            },
        }
    }
}

/// ADDA: word or long operand added to a whole address register, a word
/// sign-extended; no flags change.
pub open spec fn spec_adda(s: CpuState, inst: u16) -> (CpuState, Result<(), Fault>) {
    if !ea_field_valid(inst) {
        spec_illegal(s)
    } else {
        let long = spec_get_bits(inst, 8, 1) == 1;
        let ea = spec_decode_ea(inst);
        if long {
            let (s1, r1) = spec_read_ea_long(s, ea);
            match r1 {
                Ok(v) => {
                    let reg = spec_get_bits(inst, 9, 3) as u8;
                    (
                        spec_write_ar(s1, reg, spec_read_ar(s1, reg).wrapping_add(v)),
                        Ok(()),
                    )
                },
                Err(f) => (s1, Err(f)),
            }
        } else {
            let (s1, r1) = spec_read_ea_word(s, ea);
            match r1 {
                Ok(w) => {
                    let v = spec_sign_extend_16_to_32(w);
                    let reg = spec_get_bits(inst, 9, 3) as u8;
                    (
                        spec_write_ar(s1, reg, spec_read_ar(s1, reg).wrapping_add(v)),
                        Ok(()),
                    )
                },
                Err(f) => (s1, Err(f)),
            }
        }
    }
}

/// ADD with the sum going to the effective address.
pub open spec fn spec_add_addr(s: CpuState, inst: u16) -> (CpuState, Result<(), Fault>) {
    let bits = spec_get_bits(inst, 6, 2);
    if bits == 3 || !ea_field_valid(inst) {
        spec_illegal(s)
    } else {
        let size = crate::util::spec_decode_size(bits, crate::util::SizeCoding::Pink);
        let dreg = spec_get_bits(inst, 9, 3) as u8;
        let val1 = s.dr[dreg as int];
        let ea = spec_decode_ea(inst);
        let (s1, r1) = spec_read_ea(s, ea, size);
        match r1 {
            Err(f) => (s1, Err(f)),
            Ok(v) => {
                let val2 = value_to_u32(v);
                let res = spec_add_at(size, val1, val2);
                let (s2, r2) = spec_write_ea(s1, ea, size, res);
                match r2 {
                    Err(f) => (s2, Err(f)),
                    Ok(_) => (
                        CpuState {
                            sr: spec_flags_add(s2.sr, val1, val2, value_to_u32(res), size),
                            ..s2
                        },
                        Ok(()),
                    ),
                }
            },
        }
    }
}

/// ADD with the sum going to the data register.
pub open spec fn spec_add_data(s: CpuState, inst: u16) -> (CpuState, Result<(), Fault>) {
    let bits = spec_get_bits(inst, 6, 2);
    if bits == 3 || !ea_field_valid(inst) {
        spec_illegal(s)
    } else {
        let size = crate::util::spec_decode_size(bits, crate::util::SizeCoding::Pink);
        let dreg = spec_get_bits(inst, 9, 3) as u8;
        let val1 = s.dr[dreg as int];
        let ea = spec_decode_ea(inst);
        let (s1, r1) = spec_read_ea(s, ea, size);
        match r1 {
            Err(f) => (s1, Err(f)),
            Ok(v) => {
                let val2 = value_to_u32(v);
                let res = spec_add_at(size, val1, val2);
                let s2 = spec_write_dr(s1, dreg, size, value_to_u32(res));
                (
                    CpuState {
                        sr: spec_flags_add(s2.sr, val1, val2, value_to_u32(res), size),
                        ..s2
                    },
                    Ok(()),
                )
            },
        }
    }
}

/// ADDI: an immediate of the operand size added to the effective address.
pub open spec fn spec_addi(s: CpuState, inst: u16) -> (CpuState, Result<(), Fault>) {
    let bits = spec_get_bits(inst, 6, 2);
    if bits == 3 || !ea_field_valid(inst) {
        spec_illegal(s)
    } else {
        let size = crate::util::spec_decode_size(bits, crate::util::SizeCoding::Pink);
        let ea = spec_decode_ea(inst);
        let (s1, r1) = spec_read_ea(s, ea, size);
        match r1 {
            Err(f) => (s1, Err(f)),
            Ok(v) => {
                let val = value_to_u32(v);
                let (s2, r2) = match size {
                    Size::Byte => {
                        let (sa, ra) = spec_fetch_word(s1);
                        match ra {
                            Ok(w) => (sa, Ok((w as u8) as u32)),
                            Err(f) => (sa, Err(f)),
                        }
                    },
                    Size::Word => {
                        let (sa, ra) = spec_fetch_word(s1);
                        match ra {
                            Ok(w) => (sa, Ok(w as u32)),
                            Err(f) => (sa, Err(f)),
                        }
                    },
                    Size::Long => spec_fetch_long(s1),
                };
                match r2 {
                    Err(f) => (s2, Err(f)),
                    Ok(imm) => {
                        let res = spec_add_at(size, imm, val);
                        let (s3, r3) = spec_write_ea(s2, ea, size, res);
                        match r3 {
                            Err(f) => (s3, Err(f)),
                            Ok(_) => (
                                CpuState {
                                    sr: spec_flags_add(
                                        s3.sr,
                                        val,
                                        imm,
                                        value_to_u32(res),
                                        size,
                                    ),
                                    ..s3
                                },
                                Ok(()),
                            ),
                        }
                    },
                }
            },
        }
    }
}

/// ADDQ: a quick immediate of one to eight added at the operand size.
pub open spec fn spec_addq(s: CpuState, inst: u16) -> (CpuState, Result<(), Fault>) {
    let bits = spec_get_bits(inst, 6, 2);
    if bits == 3 || !ea_field_valid(inst) {
        spec_illegal(s)
    } else {
        let data = spec_get_bits(inst, 9, 3);
        let imm: u8 = if data == 0 {
            8
        } else {
            data as u8
        };
        let size = crate::util::spec_decode_size(bits, crate::util::SizeCoding::Pink);
        let ea = spec_decode_ea(inst);
        let (s1, r1) = spec_read_ea(s, ea, size);
        match r1 {
            Err(f) => (s1, Err(f)),
            Ok(v) => {
                let res = spec_value_wrapping_add_u8(v, imm);
                let (s2, r2) = spec_write_ea(s1, ea, size, res);
                match r2 {
                    Err(f) => (s2, Err(f)),
                    Ok(_) => (
                        CpuState {
                            sr: spec_flags_add(
                                s2.sr,
                                value_to_u32(v),
                                imm as u32,
                                value_to_u32(res),
                                size,
                            ),
                            ..s2
                        },
                        Ok(()),
                    ),
                }
            },
        }
    }
}

/// The add family: ADDX, ADDA, and the two directions of ADD.
pub open spec fn spec_add_family(s: CpuState, inst: u16) -> (CpuState, Result<(), Fault>) {
    if spec_get_bits(inst, 4, 2) == 0 && spec_get_bits(inst, 8, 1) == 1 {
        if spec_get_bits(inst, 3, 1) == 1 {
            spec_addx_addr(s, inst)
        } else {
            spec_addx_data(s, inst)
        }
    } else if spec_get_bits(inst, 6, 2) == 3 {
        spec_adda(s, inst)
    } else if spec_get_bits(inst, 8, 1) == 1 {
        spec_add_addr(s, inst)
    } else {
        spec_add_data(s, inst)
    }
}

impl Cpu {
    fn addx_data(&mut self, inst: u16) -> (r: Result<(), Fault>)
        requires
            old(self).wf(),
        ensures
            final(self).wf(),
            (final(self)@, r) == spec_addx_data(old(self)@, inst),
    {
        let size = match self.size_pink(get_bits(inst, 6, 2)) {
            Some(size) => size,
            None => {
                return self.illegal();
            },
        };
        let reg1 = get_reg(inst, 9);
        let reg2 = get_reg(inst, 0);
        let val1 = self.read_dr(reg1);
        let val2 = self.read_dr(reg2);
        let x: u32 = if self.read_ccr(StatusRegister::X) {
            1
        } else {
            0
        };
        let res = match size {
            Size::Byte => sign_extend_8_to_32(
                (val1 as u8).wrapping_add(val2 as u8).wrapping_add(x as u8),
            ),
            Size::Word => sign_extend_16_to_32(
                (val1 as u16).wrapping_add(val2 as u16).wrapping_add(x as u16),
            ),
            Size::Long => val1.wrapping_add(val2).wrapping_add(x),
        };
        self.write_dr(reg1, size, res);
        self.set_flags_add(val1, val2, res, size);
        Ok(())
    }

    fn addx_addr(&mut self, inst: u16) -> (r: Result<(), Fault>)
        requires
            old(self).wf(),
        ensures
            final(self).wf(),
            (final(self)@, r) == spec_addx_addr(old(self)@, inst),
    {
        let size = match self.size_pink(get_bits(inst, 6, 2)) {
            Some(size) => size,
            None => {
                return self.illegal();
            },
        };
        let reg1 = get_reg(inst, 9);
        let reg2 = get_reg(inst, 0);
        let v1 = self.read_ea(AddressingMode::AddressRegisterIndirectPreDecrement(reg1), size)?;
        let v2 = self.read_ea(AddressingMode::AddressRegisterIndirectPreDecrement(reg2), size)?;
        let val1 = v1.to_u32();
        let val2 = v2.to_u32();
        let x: u32 = if self.read_ccr(StatusRegister::X) {
            1
        } else {
            0
        };
        let res = val1.wrapping_add(val2).wrapping_add(x);
        self.write_ea(AddressingMode::AddressRegisterIndirect(reg1), size, Value::Long(res))?;
        self.set_flags_add(val1, val2, res, size);
        Ok(())
    }

    fn adda(&mut self, inst: u16) -> (r: Result<(), Fault>)
        requires
            old(self).wf(),
        ensures
            final(self).wf(),
            (final(self)@, r) == spec_adda(old(self)@, inst),
    {
        if !AddressingMode::field_valid(inst) {
            return self.illegal();
        }
        let ea = AddressingMode::from(inst);
        let val = if get_bits(inst, 8, 1) == 1 {
            self.read_ea_long(ea)?
        } else {
            let w = self.read_ea_word(ea)?;
            sign_extend_16_to_32(w)
        };
        let reg = get_reg(inst, 9);
        let addr = self.read_ar(reg);
        self.write_ar(reg, addr.wrapping_add(val));
        Ok(())
    }

    fn add_addr(&mut self, inst: u16) -> (r: Result<(), Fault>)
        requires
            old(self).wf(),
        ensures
            final(self).wf(),
            (final(self)@, r) == spec_add_addr(old(self)@, inst),
    {
        let size = match self.size_pink(get_bits(inst, 6, 2)) {
            Some(size) => size,
            None => {
                return self.illegal();
            },
        };
        if !AddressingMode::field_valid(inst) {
            return self.illegal();
        }
        let dreg = get_reg(inst, 9);
        let val1 = self.read_dr(dreg);
        let ea = AddressingMode::from(inst);
        let val2 = self.read_ea(ea, size)?.to_u32();
        let res = self.add_at(size, val1, val2);
        self.write_ea(ea, size, res)?;
        self.set_flags_add(val1, val2, res.to_u32(), size);
        Ok(())
    }

    fn add_data(&mut self, inst: u16) -> (r: Result<(), Fault>)
        requires
            old(self).wf(),
        ensures
            final(self).wf(),
            (final(self)@, r) == spec_add_data(old(self)@, inst),
    {
        let size = match self.size_pink(get_bits(inst, 6, 2)) {
            Some(size) => size,
            None => {
                return self.illegal();
            },
        };
        if !AddressingMode::field_valid(inst) {
            return self.illegal();
        }
        let dreg = get_reg(inst, 9);
        let val1 = self.read_dr(dreg);
        let ea = AddressingMode::from(inst);
        let val2 = self.read_ea(ea, size)?.to_u32();
        let res = self.add_at(size, val1, val2);
        self.write_dr(dreg, size, res.to_u32());
        self.set_flags_add(val1, val2, res.to_u32(), size);
        Ok(())
    }

    fn add_at(&self, size: Size, val1: u32, val2: u32) -> (r: Value)
        ensures
            r == spec_add_at(size, val1, val2),
    {
        match size {
            Size::Byte => Value::Byte((val1 as u8).wrapping_add(val2 as u8)),
            Size::Word => Value::Word((val1 as u16).wrapping_add(val2 as u16)),
            Size::Long => Value::Long(val1.wrapping_add(val2)),
        }
    }

    pub(crate) fn addi(&mut self, inst: u16) -> (r: Result<(), Fault>)
        requires
            old(self).wf(),
        ensures
            final(self).wf(),
            (final(self)@, r) == spec_addi(old(self)@, inst),
    {
        let size = match self.size_pink(get_bits(inst, 6, 2)) {
            Some(size) => size,
            None => {
                return self.illegal();
            },
        };
        if !AddressingMode::field_valid(inst) {
            return self.illegal();
        }
        let ea = AddressingMode::from(inst);
        let val = self.read_ea(ea, size)?.to_u32();
        let imm: u32 = match size {
            Size::Byte => {
                let w = self.fetch_word()?;
                (w as u8) as u32
            },
            Size::Word => {
                let w = self.fetch_word()?;
                w as u32
            },
            Size::Long => self.fetch_long()?,
        };
        let res = self.add_at(size, imm, val);
        self.write_ea(ea, size, res)?;
        self.set_flags_add(val, imm, res.to_u32(), size);
        Ok(())
    }

    pub(crate) fn addq(&mut self, inst: u16) -> (r: Result<(), Fault>)
        requires
            old(self).wf(),
        ensures
            final(self).wf(),
            (final(self)@, r) == spec_addq(old(self)@, inst),
    {
        let size = match self.size_pink(get_bits(inst, 6, 2)) {
            Some(size) => size,
            None => {
                return self.illegal();
            },
        };
        if !AddressingMode::field_valid(inst) {
            return self.illegal();
        }
        let data = get_bits(inst, 9, 3);
        let imm: u8 = if data == 0 {
            8
        } else {
            data as u8
        };
        let ea = AddressingMode::from(inst);
        let val = self.read_ea(ea, size)?;
        let res = val.wrapping_add_u8(imm);
        self.write_ea(ea, size, res)?;
        self.set_flags_add(val.to_u32(), imm as u32, res.to_u32(), size);
        Ok(())
    }

    pub fn add_family(&mut self, inst: u16) -> (r: Result<(), Fault>)
        requires
            old(self).wf(),
        ensures
            final(self).wf(),
            (final(self)@, r) == spec_add_family(old(self)@, inst),
    {
        if get_bits(inst, 4, 2) == 0 && get_bits(inst, 8, 1) == 1 {
            if get_bits(inst, 3, 1) == 1 {
                self.addx_addr(inst)
            } else {
                self.addx_data(inst)
            }
        } else if get_bits(inst, 6, 2) == 3 {
            self.adda(inst)
        } else if get_bits(inst, 8, 1) == 1 {
            self.add_addr(inst)
        } else {
            self.add_data(inst)
        }
    }
}

} // verus!
