use vstd::prelude::*;

use crate::cpu::spec_read_ar;
use crate::cpu::Cpu;
use crate::cpu::CpuState;
use crate::ea::spec_read_ea;
use crate::ea::spec_read_ea_long;
use crate::ea::spec_read_ea_word;
use crate::flags::spec_flags_cmp;
use crate::isa_util::spec_illegal;
use crate::types::ea_field_valid;
use crate::types::spec_decode_ea;
use crate::types::value_to_u32;
use crate::types::AddressingMode;
use crate::types::Fault;
use crate::types::Size;
use crate::util::get_bits;
use crate::util::get_reg;
use crate::util::sign_extend_16_to_32;
use crate::util::spec_get_bits;
use crate::util::spec_sign_extend_16_to_32;

verus! {

/// CMPA: an address register compared against a word (sign-extended) or
/// long operand; N, Z, V and C follow the difference, X keeps its value.
pub open spec fn spec_cmpa(s: CpuState, inst: u16) -> (CpuState, Result<(), Fault>) {
    if !ea_field_valid(inst) {
        spec_illegal(s)
    } else {
        let reg = spec_get_bits(inst, 9, 3) as u8;
        let dest = spec_read_ar(s, reg);
        let ea = spec_decode_ea(inst);
        if spec_get_bits(inst, 8, 1) == 1 {
            let (s1, r1) = spec_read_ea_long(s, ea);
            match r1 {
                Err(f) => (s1, Err(f)),
                Ok(src) => {
                    let result = dest.wrapping_sub(src);
                    (
                        CpuState {
                            sr: spec_flags_cmp(s1.sr, dest, src, result, Size::Long),
                            ..s1
                        },
                        Ok(()),
                    )
                },
            }
        } else {
            let (s1, r1) = spec_read_ea_word(s, ea);
            match r1 {
                Err(f) => (s1, Err(f)),
                Ok(w) => {
                    let src = spec_sign_extend_16_to_32(w);
                    let result = dest.wrapping_sub(src);
                    (
                        CpuState {
                            sr: spec_flags_cmp(s1.sr, dest, src, result, Size::Word),
                            ..s1
                        },
                        Ok(()),
                    )
                },
            }
        }
    }
}

/// CMP: a data register compared against an operand at the operand size.
pub open spec fn spec_cmp(s: CpuState, inst: u16) -> (CpuState, Result<(), Fault>) {
    let bits = spec_get_bits(inst, 6, 2);
    if bits == 3 || !ea_field_valid(inst) {
        spec_illegal(s)
    } else {
        let size = crate::util::spec_decode_size(bits, crate::util::SizeCoding::Pink);
        let reg = spec_get_bits(inst, 9, 3) as u8;
        let dest = s.dr[reg as int];
        let (s1, r1) = spec_read_ea(s, spec_decode_ea(inst), size);
        match r1 {
            Err(f) => (s1, Err(f)),
            Ok(v) => {
                let src = value_to_u32(v);
                let result = dest.wrapping_sub(src);
                (
                    CpuState { sr: spec_flags_cmp(s1.sr, dest, src, result, size), ..s1 },
                    Ok(()),
                )
            },
        }
    }
}

/// The compare family: CMPM and EOR share the top nibble with CMP and CMPA.
pub open spec fn spec_cmp_family(s: CpuState, inst: u16) -> (CpuState, Result<(), Fault>) {
    if spec_get_bits(inst, 3, 3) == 1 {
        (s, Err(Fault::Unimplemented))
    } else if spec_get_bits(inst, 6, 2) == 3 {
        spec_cmpa(s, inst)
    } else if spec_get_bits(inst, 8, 1) == 1 {
        (s, Err(Fault::Unimplemented))
    } else {
        spec_cmp(s, inst)
    }
}

impl Cpu {
    fn cmpa(&mut self, inst: u16) -> (r: Result<(), Fault>)
        requires
            old(self).wf(),
        ensures
            final(self).wf(),
            (final(self)@, r) == spec_cmpa(old(self)@, inst),
    {
        if !AddressingMode::field_valid(inst) {
            return self.illegal();
        }
        let reg = get_reg(inst, 9);
        let dest = self.read_ar(reg);
        let ea = AddressingMode::from(inst);
        let (size, src) = if get_bits(inst, 8, 1) == 1 {
            (Size::Long, self.read_ea_long(ea)?)
        } else {
            let w = self.read_ea_word(ea)?;
            (Size::Word, sign_extend_16_to_32(w))
        };
        let result = dest.wrapping_sub(src);
        self.set_flags_cmp(dest, src, result, size);
        Ok(())
    }

    fn cmp(&mut self, inst: u16) -> (r: Result<(), Fault>)
        requires
            old(self).wf(),
        ensures
            final(self).wf(),
            (final(self)@, r) == spec_cmp(old(self)@, inst),
    {
        let size = match self.size_pink(get_bits(inst, 6, 2)) {
            Some(size) => size,
            None => {
                return self.illegal();
            },
        };
        if !AddressingMode::field_valid(inst) {
            return self.illegal();
        }
        let reg = get_reg(inst, 9);
        let dest = self.read_dr(reg);
        let ea = AddressingMode::from(inst);
        let src = self.read_ea(ea, size)?.to_u32();
        let result = dest.wrapping_sub(src);
        self.set_flags_cmp(dest, src, result, size);
        Ok(())
    }

    pub(crate) fn cmp_family(&mut self, inst: u16) -> (r: Result<(), Fault>)
        requires
            old(self).wf(),
        ensures
            final(self).wf(),
            (final(self)@, r) == spec_cmp_family(old(self)@, inst),
    {
        if get_bits(inst, 3, 3) == 1 {
            Err(Fault::Unimplemented)
        } else if get_bits(inst, 6, 2) == 3 {
            self.cmpa(inst)
        } else if get_bits(inst, 8, 1) == 1 {
            Err(Fault::Unimplemented)
        } else {
            self.cmp(inst)
        }
    }
}

} // verus!
