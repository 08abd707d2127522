use vstd::prelude::*;

use crate::cpu::spec_fetch_word;
use crate::cpu::spec_test_cc;
use crate::cpu::spec_write_dr;
use crate::cpu::Cpu;
use crate::cpu::CpuState;
use crate::ea::spec_write_ea_byte;
use crate::isa_add::spec_addq;
use crate::isa_sub::spec_subq;
use crate::isa_util::spec_illegal;
use crate::types::ea_field_valid;
use crate::types::spec_decode_ea;
use crate::types::AddressingMode;
use crate::types::spec_decode_cc;
use crate::types::ConditionCode;
use crate::types::Fault;
use crate::types::Size;
use crate::util::get_bits;
use crate::util::get_reg;
use crate::util::sign_extend_16_to_32;
use crate::util::spec_get_bits;
use crate::util::spec_sign_extend_16_to_32;

verus! {

/// DBcc: when the condition fails, the low word of the register counts down
/// and the branch is taken until the counter passes through minus one.
pub open spec fn spec_dbcc(s: CpuState, inst: u16) -> (CpuState, Result<(), Fault>) {
    let cc = spec_decode_cc(spec_get_bits(inst, 8, 4) as u8);
    let reg = spec_get_bits(inst, 0, 3) as u8;
    let (s1, r1) = spec_fetch_word(s);
    match r1 {
        Err(f) => (s1, Err(f)),
        Ok(w) => {
            if !spec_test_cc(s1.sr, cc) {
                let cnt = (s1.dr[reg as int] as u16).wrapping_sub(1);
                let s2 = spec_write_dr(s1, reg, Size::Word, cnt as u32);
                if cnt != 0xFFFF {
                    (
                        CpuState {
                            pc: s.pc.wrapping_add(spec_sign_extend_16_to_32(w)),
                            ..s2
                        },
                        Ok(()),
                    )
                } else {
                    (s2, Ok(()))
                }
            } else {
                (s1, Ok(()))
            }
        },
    }
}

/// Scc: a byte of all ones where the condition holds, all zeros where not.
pub open spec fn spec_scc(s: CpuState, inst: u16) -> (CpuState, Result<(), Fault>) {
    if !ea_field_valid(inst) {
        spec_illegal(s)
    } else {
        let cc = spec_decode_cc(spec_get_bits(inst, 8, 4) as u8);
        let val: u8 = if spec_test_cc(s.sr, cc) {
            0xFF
        } else {
            0x00
        };
        spec_write_ea_byte(s, spec_decode_ea(inst), val)
    }
}

/// The quick-math family: ADDQ, SUBQ, Scc and DBcc share the top nibble five.
pub open spec fn spec_mathq_family(s: CpuState, inst: u16) -> (CpuState, Result<(), Fault>) {
    if spec_get_bits(inst, 6, 2) == 3 {
        if spec_get_bits(inst, 3, 3) == 1 {
            spec_dbcc(s, inst)
        } else {
            spec_scc(s, inst)
        }
    } else if spec_get_bits(inst, 8, 1) == 1 {
        spec_subq(s, inst)
    } else {
        spec_addq(s, inst)
    }
}

impl Cpu {
    fn dbcc(&mut self, inst: u16) -> (r: Result<(), Fault>)
        requires
            old(self).wf(),
        ensures
            final(self).wf(),
            (final(self)@, r) == spec_dbcc(old(self)@, inst),
    {
        let cc = ConditionCode::from(get_bits(inst, 8, 4) as u8);
        let reg = get_reg(inst, 0);
        let pc = self.read_pc();
        let w = self.fetch_word()?;
        if !self.test_cc(cc) {
            let cnt = (self.read_dr(reg) as u16).wrapping_sub(1);
            self.write_dr(reg, Size::Word, cnt as u32);
            if cnt != 0xFFFF {
                self.write_pc(pc.wrapping_add(sign_extend_16_to_32(w)));
            }
        }
        Ok(())
    }

    fn scc(&mut self, inst: u16) -> (r: Result<(), Fault>)
        requires
            old(self).wf(),
        ensures
            final(self).wf(),
            (final(self)@, r) == spec_scc(old(self)@, inst),
    {
        if !AddressingMode::field_valid(inst) {
            return self.illegal();
        }
        let cc = ConditionCode::from(get_bits(inst, 8, 4) as u8);
        let val: u8 = if self.test_cc(cc) {
            0xFF
        } else {
            0x00
        };
        let ea = AddressingMode::from(inst);
        self.write_ea_byte(ea, val)
    }

    pub(crate) fn mathq_family(&mut self, inst: u16) -> (r: Result<(), Fault>)
        requires
            old(self).wf(),
        ensures
            final(self).wf(),
            (final(self)@, r) == spec_mathq_family(old(self)@, inst),
    {
        if get_bits(inst, 6, 2) == 3 {
            if get_bits(inst, 3, 3) == 1 {
                self.dbcc(inst)
            } else {
                self.scc(inst)
            }
        } else if get_bits(inst, 8, 1) == 1 {
            self.subq(inst)
        } else {
            self.addq(inst)
        }
    }
}

} // verus!
