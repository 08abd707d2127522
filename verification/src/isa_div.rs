use vstd::prelude::*;

use crate::cpu::spec_write_dr;
use crate::cpu::Cpu;
use crate::cpu::CpuState;
use crate::ea::spec_read_ea;
use crate::flags::spec_flags_logic;
use crate::isa_util::spec_illegal;
use crate::types::ea_field_valid;
use crate::types::spec_decode_ea;
use crate::types::value_to_u32;
use crate::types::AddressingMode;
use crate::types::Fault;
use crate::types::Value;
use crate::util::get_bits;
use crate::util::get_reg;
use crate::util::spec_get_bits;

verus! {

/// OR: the disjunction goes to the data register or to the operand.
pub open spec fn spec_or(s: CpuState, inst: u16) -> (CpuState, Result<(), Fault>) {
    let bits = spec_get_bits(inst, 6, 2);
    if bits == 3 || !ea_field_valid(inst) {
        spec_illegal(s)
    } else {
        let size = crate::util::spec_decode_size(bits, crate::util::SizeCoding::Pink);
        let reg = spec_get_bits(inst, 9, 3) as u8;
        let val1 = s.dr[reg as int];
        let ea = spec_decode_ea(inst);
        let (s1, r1) = spec_read_ea(s, ea, size);
        match r1 {
            Err(f) => (s1, Err(f)),
            Ok(v) => {
                let result = val1 | value_to_u32(v);
                if spec_get_bits(inst, 8, 1) == 1 {
                    let (s2, r2) = crate::ea::spec_write_ea(s1, ea, size, Value::Long(result));
                    match r2 {
                        Err(f) => (s2, Err(f)),
                        Ok(_) => (
                            CpuState { sr: spec_flags_logic(s2.sr, result, size), ..s2 },
                            Ok(()),
                        ),
                    }
                } else {
                    let s2 = spec_write_dr(s1, reg, size, result);
                    (
                        CpuState { sr: spec_flags_logic(s2.sr, result, size), ..s2 },
                        Ok(()),
                    )
                }
            },
        }
    }
}

/// The divide family: SBCD, DIVU, DIVS and OR share the top nibble eight.
pub open spec fn spec_div_family(s: CpuState, inst: u16) -> (CpuState, Result<(), Fault>) {
    if spec_get_bits(inst, 4, 5) == 16 {
        (s, Err(Fault::Unimplemented))
    } else {
        let sel = spec_get_bits(inst, 6, 3);
        if sel == 3 || sel == 7 {
            (s, Err(Fault::Unimplemented))
        } else {
            spec_or(s, inst)
        }
    }
}

impl Cpu {
    pub(crate) fn or(&mut self, inst: u16) -> (r: Result<(), Fault>)
        requires
            old(self).wf(),
        ensures
            final(self).wf(),
            (final(self)@, r) == spec_or(old(self)@, inst),
    {
        let size = match self.size_pink(get_bits(inst, 6, 2)) {
            Some(size) => size,
            None => {
                return self.illegal();
            },
        };
        if !AddressingMode::field_valid(inst) {
            return self.illegal();
        }
        let reg = get_reg(inst, 9);
        let val1 = self.read_dr(reg);
        let ea = AddressingMode::from(inst);
        let val2 = self.read_ea(ea, size)?.to_u32();
        let result = val1 | val2;
        if get_bits(inst, 8, 1) == 1 {
            self.write_ea(ea, size, Value::Long(result))?;
        } else {
            self.write_dr(reg, size, result);
        }
        self.set_flags_logic(result, size);
        Ok(())
    }

    pub(crate) fn div_family(&mut self, inst: u16) -> (r: Result<(), Fault>)
        requires
            old(self).wf(),
        ensures
            final(self).wf(),
            (final(self)@, r) == spec_div_family(old(self)@, inst),
    {
        if get_bits(inst, 4, 5) == 0b10000 {
            return Err(Fault::Unimplemented);
        }
        let sel = get_bits(inst, 6, 3);
        if sel == 0b011 || sel == 0b111 {
            Err(Fault::Unimplemented)
        } else {
            self.or(inst)
        }
    }
}

} // verus!
