use vstd::prelude::*;

use crate::cpu::spec_ccr;
use crate::cpu::spec_read_ar;
use crate::cpu::spec_set_ccr;
use crate::cpu::spec_write_ar;
use crate::cpu::spec_write_dr;
use crate::cpu::Cpu;
use crate::cpu::CpuState;
use crate::cpu::StatusRegister;
use crate::ea::spec_read_ea;
use crate::ea::spec_read_ea_byte;
use crate::ea::spec_read_ea_word;
use crate::ea::spec_write_ea_byte;
use crate::flags::spec_flags_logic;
use crate::isa_util::spec_illegal;
use crate::types::ea_field_valid;
use crate::types::spec_decode_ea;
use crate::types::value_to_u32;
use crate::types::AddressingMode;
use crate::types::Fault;
use crate::types::Size;
use crate::types::Value;
use crate::util::get_bits;
use crate::util::get_reg;
use crate::util::sign_extend_16_to_32;
use crate::util::spec_get_bits;
use crate::util::spec_sign_extend_16_to_32;

verus! {

/// MULS: the signed product of two 16-bit operands, the full 32 bits going
/// to the data register; V and C are cleared, N and Z follow the product.
pub open spec fn spec_muls(s: CpuState, inst: u16) -> (CpuState, Result<(), Fault>) {
    if !ea_field_valid(inst) {
        spec_illegal(s)
    } else {
        let reg = spec_get_bits(inst, 9, 3) as u8;
        let (s1, r1) = spec_read_ea_word(s, spec_decode_ea(inst));
        match r1 {
            Err(f) => (s1, Err(f)),
            Ok(w) => {
                let a = spec_sign_extend_16_to_32(w);
                let b = spec_sign_extend_16_to_32(s1.dr[reg as int] as u16);
                let res = a.wrapping_mul(b);
                let s2 = spec_write_dr(s1, reg, Size::Long, res);
                (
                    CpuState { sr: spec_flags_logic(s2.sr, res, Size::Long), ..s2 },
                    Ok(()),
                )
            },
        }
    }
}

/// The packed-decimal sum of two bytes and the X flag, digit by digit.
pub open spec fn spec_bcd_sum(vx: u32, vy: u32, x: u32) -> u8 {
    let t = (vx + vy + x) as u32;
    ((t % 10 + (t / 10) * 16) % 256) as u8
}

pub open spec fn spec_bcd_carry(vx: u32, vy: u32, x: u32) -> bool {
    ((vx + vy + x) as u32) / 10 != 0
}

/// ABCD: add decimal with extend, between data registers or through the
/// pre-decrement mode; Z is only cleared, never set.
pub open spec fn spec_abcd(s: CpuState, inst: u16) -> (CpuState, Result<(), Fault>) {
    let rx = spec_get_bits(inst, 9, 3) as u8;
    let ry = spec_get_bits(inst, 0, 3) as u8;
    let x: u32 = if spec_ccr(s.sr, StatusRegister::X) {
        1
    } else {
        0
    };
    if spec_get_bits(inst, 3, 1) == 1 {
        let (s1, r1) = spec_read_ea_byte(
            s,
            AddressingMode::AddressRegisterIndirectPreDecrement(rx),
        );
        match r1 {
            Err(f) => (s1, Err(f)),
            Ok(bx) => {
                let (s2, r2) = spec_read_ea_byte(
                    s1,
                    AddressingMode::AddressRegisterIndirectPreDecrement(ry),
                );
                match r2 {
                    Err(f) => (s2, Err(f)),
                    Ok(by) => {
                        let res = spec_bcd_sum(bx as u32, by as u32, x);
                        let carry = spec_bcd_carry(bx as u32, by as u32, x);
                        let (s3, r3) = spec_write_ea_byte(
                            s2,
                            AddressingMode::AddressRegisterIndirectPreDecrement(rx),
                            res,
                        );
                        match r3 {
                            Err(f) => (s3, Err(f)),
                            Ok(_) => (spec_abcd_flags(s3, res, carry), Ok(())),
                        }
                    },
                }
            },
        }
    } else {
        let vx = s.dr[rx as int] as u8;
        let vy = s.dr[ry as int] as u8;
        let res = spec_bcd_sum(vx as u32, vy as u32, x);
        let carry = spec_bcd_carry(vx as u32, vy as u32, x);
        let s1 = CpuState {
            dr: s.dr.update(rx as int, (s.dr[rx as int] & 0xFFFFFF00) | (res as u32)),
            ..s
        };
        (spec_abcd_flags(s1, res, carry), Ok(()))
    }
}

pub open spec fn spec_abcd_flags(s: CpuState, res: u8, carry: bool) -> CpuState {
    let sr1 = spec_set_ccr(s.sr, StatusRegister::X, carry);
    let sr2 = spec_set_ccr(sr1, StatusRegister::C, carry);
    let sr3 = if res != 0 {
        spec_set_ccr(sr2, StatusRegister::Z, false)
    } else {
        sr2
    };
    CpuState { sr: sr3, ..s }
}

/// EXG: exchange two whole registers.
pub open spec fn spec_exg(s: CpuState, inst: u16) -> (CpuState, Result<(), Fault>) {
    let rx = spec_get_bits(inst, 9, 3) as u8;
    let ry = spec_get_bits(inst, 0, 3) as u8;
    let mode = spec_get_bits(inst, 3, 5);
    if mode == 8 {
        let vx = s.dr[rx as int];
        let vy = s.dr[ry as int];
        let s1 = spec_write_dr(s, rx, Size::Long, vy);
        (spec_write_dr(s1, ry, Size::Long, vx), Ok(()))
    } else if mode == 9 {
        let vx = spec_read_ar(s, rx);
        let vy = spec_read_ar(s, ry);
        let s1 = spec_write_ar(s, rx, vy);
        (spec_write_ar(s1, ry, vx), Ok(()))
    } else if mode == 17 {
        let vx = s.dr[rx as int];
        let vy = spec_read_ar(s, ry);
        let s1 = spec_write_dr(s, rx, Size::Long, vy);
        (spec_write_ar(s1, ry, vx), Ok(()))
    } else {
        spec_illegal(s)
    }
}

/// AND: the conjunction goes to the data register or to the operand.
pub open spec fn spec_and(s: CpuState, inst: u16) -> (CpuState, Result<(), Fault>) {
    let bits = spec_get_bits(inst, 6, 2);
    if bits == 3 || !ea_field_valid(inst) {
        spec_illegal(s)
    } else {
        let size = crate::util::spec_decode_size(bits, crate::util::SizeCoding::Pink);
        let reg = spec_get_bits(inst, 9, 3) as u8;
        let val1 = s.dr[reg as int];
        let ea = spec_decode_ea(inst);
        let (s1, r1) = spec_read_ea(s, ea, size);
        match r1 {
            Err(f) => (s1, Err(f)),
            Ok(v) => {
                let result = val1 & value_to_u32(v);
                if spec_get_bits(inst, 8, 1) == 1 {
                    let (s2, r2) = crate::ea::spec_write_ea(s1, ea, size, Value::Long(result));
                    match r2 {
                        Err(f) => (s2, Err(f)),
                        Ok(_) => (
                            CpuState { sr: spec_flags_logic(s2.sr, result, size), ..s2 },
                            Ok(()),
                        ),
                    }
                } else {
                    let s2 = spec_write_dr(s1, reg, size, result);
                    (
                        CpuState { sr: spec_flags_logic(s2.sr, result, size), ..s2 },
                        Ok(()),
                    )
                }
            },
        }
    }
}

/// The multiply family: ABCD, MULU, MULS, EXG and AND share the top nibble.
pub open spec fn spec_mul_family(s: CpuState, inst: u16) -> (CpuState, Result<(), Fault>) {
    if spec_get_bits(inst, 4, 5) == 16 {
        spec_abcd(s, inst)
    } else {
        let sel = spec_get_bits(inst, 3, 6);
        if 0x18 <= sel && sel <= 0x1F {
            (s, Err(Fault::Unimplemented))
        } else if 0x38 <= sel && sel <= 0x3F {
            spec_muls(s, inst)
        } else if 0x28 <= sel && sel <= 0x31 {
            spec_exg(s, inst)
        } else {
            spec_and(s, inst)
        }
    }
}

impl Cpu {
    fn muls(&mut self, inst: u16) -> (r: Result<(), Fault>)
        requires
            old(self).wf(),
        ensures
            final(self).wf(),
            (final(self)@, r) == spec_muls(old(self)@, inst),
    {
        if !AddressingMode::field_valid(inst) {
            return self.illegal();
        }
        let reg = get_reg(inst, 9);
        let ea = AddressingMode::from(inst);
        let w = self.read_ea_word(ea)?;
        let a = sign_extend_16_to_32(w);
        let b = sign_extend_16_to_32(self.read_dr(reg) as u16);
        let res = a.wrapping_mul(b);
        self.write_dr(reg, Size::Long, res);
        self.set_flags_logic(res, Size::Long);
        Ok(())
    }

    fn bcd_sum(&self, vx: u32, vy: u32, x: u32) -> (r: (u8, bool))
        requires
            vx <= 0xFF,
            vy <= 0xFF,
            x <= 1,
        ensures
            r.0 == spec_bcd_sum(vx, vy, x),
            r.1 == spec_bcd_carry(vx, vy, x),
    {
        let t = vx + vy + x;
        let d1 = t % 10;
        let d2 = t / 10;
        (((d1 + d2 * 16) % 256) as u8, d2 != 0)
    }

    fn abcd(&mut self, inst: u16) -> (r: Result<(), Fault>)
        requires
            old(self).wf(),
        ensures
            final(self).wf(),
            (final(self)@, r) == spec_abcd(old(self)@, inst),
    {
        let rx = get_reg(inst, 9);
        let ry = get_reg(inst, 0);
        let x: u32 = if self.read_ccr(StatusRegister::X) {
            1
        } else {
            0
        };
        if get_bits(inst, 3, 1) == 1 {
            let bx = self.read_ea_byte(AddressingMode::AddressRegisterIndirectPreDecrement(rx))?;
            let by = self.read_ea_byte(AddressingMode::AddressRegisterIndirectPreDecrement(ry))?;
            let (res, carry) = self.bcd_sum(bx as u32, by as u32, x);
            self.write_ea_byte(AddressingMode::AddressRegisterIndirectPreDecrement(rx), res)?;
            self.abcd_flags(res, carry);
            Ok(())
        } else {
            let vx = self.read_dr(rx) as u8;
            let vy = self.read_dr(ry) as u8;
            let (res, carry) = self.bcd_sum(vx as u32, vy as u32, x);
            self.write_dr_byte(rx, res);
            self.abcd_flags(res, carry);
            Ok(())
        }
    }

    fn abcd_flags(&mut self, res: u8, carry: bool)
        requires
            old(self).wf(),
        ensures
            final(self).wf(),
            final(self)@ == spec_abcd_flags(old(self)@, res, carry),
    {
        self.write_ccr(StatusRegister::X, carry);
        self.write_ccr(StatusRegister::C, carry);
        if res != 0 {
            self.write_ccr(StatusRegister::Z, false);
        }
    }

    fn exg(&mut self, inst: u16) -> (r: Result<(), Fault>)
        requires
            old(self).wf(),
        ensures
            final(self).wf(),
            (final(self)@, r) == spec_exg(old(self)@, inst),
    {
        let rx = get_reg(inst, 9);
        let ry = get_reg(inst, 0);
        let mode = get_bits(inst, 3, 5);
        if mode == 0b01000 {
            let vx = self.read_dr(rx);
            let vy = self.read_dr(ry);
            self.write_dr(rx, Size::Long, vy);
            self.write_dr(ry, Size::Long, vx);
            Ok(())
        } else if mode == 0b01001 {
            let vx = self.read_ar(rx);
            let vy = self.read_ar(ry);
            self.write_ar(rx, vy);
            self.write_ar(ry, vx);
            Ok(())
        } else if mode == 0b10001 {
            let vx = self.read_dr(rx);
            let vy = self.read_ar(ry);
            self.write_dr(rx, Size::Long, vy);
            self.write_ar(ry, vx);
            Ok(())
        } else {
            self.illegal()
        }
    }

    pub(crate) fn and(&mut self, inst: u16) -> (r: Result<(), Fault>)
        requires
            old(self).wf(),
        ensures
            final(self).wf(),
            (final(self)@, r) == spec_and(old(self)@, inst),
    {
        let size = match self.size_pink(get_bits(inst, 6, 2)) {
            Some(size) => size,
            None => {
                return self.illegal();
            },
        };
        if !AddressingMode::field_valid(inst) {
            return self.illegal();
        }
        let reg = get_reg(inst, 9);
        let val1 = self.read_dr(reg);
        let ea = AddressingMode::from(inst);
        let val2 = self.read_ea(ea, size)?.to_u32();
        let result = val1 & val2;
        if get_bits(inst, 8, 1) == 1 {
            self.write_ea(ea, size, Value::Long(result))?;
        } else {
            self.write_dr(reg, size, result);
        }
        self.set_flags_logic(result, size);
        Ok(())
    }

    pub(crate) fn mul_family(&mut self, inst: u16) -> (r: Result<(), Fault>)
        requires
            old(self).wf(),
        ensures
            final(self).wf(),
            (final(self)@, r) == spec_mul_family(old(self)@, inst),
    {
        if get_bits(inst, 4, 5) == 0b10000 {
            return self.abcd(inst);
        }
        let sel = get_bits(inst, 3, 6);
        if 0b011000 <= sel && sel <= 0b011111 {
            Err(Fault::Unimplemented)
        } else if 0b111000 <= sel && sel <= 0b111111 {
            self.muls(inst)
        } else if 0b101000 <= sel && sel <= 0b110001 {
            self.exg(inst)
        } else {
            self.and(inst)
        }
    }
}

} // verus!
