use vstd::prelude::*;

use crate::cpu::spec_write_ar;
use crate::cpu::spec_write_dr;
use crate::cpu::Cpu;
use crate::cpu::CpuState;
use crate::ea::spec_read_ea;
use crate::ea::spec_write_ea;
use crate::flags::spec_flags_logic;
use crate::isa_util::spec_illegal;
use crate::types::ea_field_valid;
use crate::types::spec_decode_ea;
use crate::types::value_to_u32;
use crate::types::AddressingMode;
use crate::types::Fault;
use crate::types::Size;
use crate::util::get_bits;
use crate::util::get_reg;
use crate::util::sign_extend_16_to_32;
use crate::util::sign_extend_8_to_32;
use crate::util::spec_get_bits;
use crate::util::spec_sign_extend_16_to_32;
use crate::util::spec_sign_extend_8_to_32;

verus! {

/// MOVEA: a word or long operand moved into an address register, a word
/// sign-extended to the full register.
pub open spec fn spec_movea(s: CpuState, inst: u16) -> (CpuState, Result<(), Fault>) {
    let sbits = spec_get_bits(inst, 12, 2);
    if sbits != 3 && sbits != 2 {
        spec_illegal(s)
    } else if !ea_field_valid(inst) {
        spec_illegal(s)
    } else {
        let size = if sbits == 3 {
            Size::Word
        } else {
            Size::Long
        };
        let dst = spec_get_bits(inst, 9, 3) as u8;
        let (s1, r1) = spec_read_ea(s, spec_decode_ea(inst), size);
        match r1 {
            Ok(v) => {
                let raw = value_to_u32(v);
                let v32 = if sbits == 3 {
                    spec_sign_extend_16_to_32(raw as u16)
                } else {
                    raw
                };
                (spec_write_ar(s1, dst, v32), Ok(()))
            },
            Err(f) => (s1, Err(f)),
        }
    }
}

/// MOVE: an operand copied between any two effective addresses, the flags
/// following the value moved.
pub open spec fn spec_move(s: CpuState, inst: u16) -> (CpuState, Result<(), Fault>) {
    let sbits = spec_get_bits(inst, 12, 2);
    let dst_field = (spec_get_bits(inst, 6, 3) * 8 + spec_get_bits(inst, 9, 3)) as u16;
    if sbits == 0 || !ea_field_valid(inst) || !ea_field_valid(dst_field) {
        spec_illegal(s)
    } else {
        let size = crate::util::spec_decode_size(sbits, crate::util::SizeCoding::Purple);
        let (s1, r1) = spec_read_ea(s, spec_decode_ea(inst), size);
        match r1 {
            Ok(v) => {
                let (s2, r2) = spec_write_ea(s1, spec_decode_ea(dst_field), size, v);
                match r2 {
                    Ok(_) => (
                        CpuState {
                            sr: spec_flags_logic(s2.sr, value_to_u32(v), size),
                            ..s2
                        },
                        Ok(()),
                    ),
                    Err(f) => (s2, Err(f)),
                }
            },
            Err(f) => (s1, Err(f)),
        }
    }
}

/// MOVEQ: an 8-bit immediate sign-extended into a whole data register.
pub open spec fn spec_moveq(s: CpuState, inst: u16) -> (CpuState, Result<(), Fault>) {
    let reg = spec_get_bits(inst, 9, 3) as u8;
    let val = spec_sign_extend_8_to_32(inst as u8);
    let s1 = spec_write_dr(s, reg, Size::Long, val);
    (CpuState { sr: spec_flags_logic(s1.sr, val, Size::Long), ..s1 }, Ok(()))
}

/// The move family: destination mode `001` selects MOVEA.
pub open spec fn spec_move_family(s: CpuState, inst: u16) -> (CpuState, Result<(), Fault>) {
    if spec_get_bits(inst, 6, 3) == 1 {
        spec_movea(s, inst)
    } else {
        spec_move(s, inst)
    }
}

impl Cpu {
    fn movea(&mut self, inst: u16) -> (r: Result<(), Fault>)
        requires
            old(self).wf(),
        ensures
            final(self).wf(),
            (final(self)@, r) == spec_movea(old(self)@, inst),
    {
        let sbits = get_bits(inst, 12, 2);
        if sbits != 3 && sbits != 2 {
            return self.illegal();
        }
        if !AddressingMode::field_valid(inst) {
            return self.illegal();
        }
        let size = if sbits == 3 {
            Size::Word
        } else {
            Size::Long
        };
        let dst = get_reg(inst, 9);
        let ea = AddressingMode::from(inst);
        let val = self.read_ea(ea, size)?;
        let raw = val.to_u32();
        let v32 = if sbits == 3 {
            sign_extend_16_to_32(raw as u16)
        } else {
            raw
        };
        self.write_ar(dst, v32);
        Ok(())
    }

    fn do_move(&mut self, inst: u16) -> (r: Result<(), Fault>)
        requires
            old(self).wf(),
        ensures
            final(self).wf(),
            (final(self)@, r) == spec_move(old(self)@, inst),
    {
        let sbits = get_bits(inst, 12, 2);
        let dst_field = get_bits(inst, 6, 3) * 8 + get_bits(inst, 9, 3);
        if sbits == 0 || !AddressingMode::field_valid(inst) || !AddressingMode::field_valid(
            dst_field,
        ) {
            return self.illegal();
        }
        let size = match self.size_purple(sbits) {
            Some(size) => size,
            None => {
                return self.illegal();
            },
        };
        let src = AddressingMode::from(inst);
        let dst = AddressingMode::from(dst_field);
        let val = self.read_ea(src, size)?;
        self.write_ea(dst, size, val)?;
        self.set_flags_logic(val.to_u32(), size);
        Ok(())
    }

    pub(crate) fn moveq(&mut self, inst: u16) -> (r: Result<(), Fault>)
        requires
            old(self).wf(),
        ensures
            final(self).wf(),
            (final(self)@, r) == spec_moveq(old(self)@, inst),
    {
        let reg = get_reg(inst, 9);
        let val = sign_extend_8_to_32(inst as u8);
        self.write_dr(reg, Size::Long, val);
        self.set_flags_logic(val, Size::Long);
        Ok(())
    }

    pub(crate) fn move_family(&mut self, inst: u16) -> (r: Result<(), Fault>)
        requires
            old(self).wf(),
        ensures
            final(self).wf(),
            (final(self)@, r) == spec_move_family(old(self)@, inst),
    {
        if get_bits(inst, 6, 3) == 1 {
            self.movea(inst)
        } else {
            self.do_move(inst)
        }
    }
}

} // verus!
