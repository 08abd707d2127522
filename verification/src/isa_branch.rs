use vstd::prelude::*;

use crate::cpu::spec_fetch_word;
use crate::cpu::spec_push_long;
use crate::cpu::spec_test_cc;
use crate::cpu::Cpu;
use crate::cpu::CpuState;
use crate::types::spec_decode_cc;
use crate::types::ConditionCode;
use crate::types::Fault;
use crate::util::get_bits;
use crate::util::sign_extend_16_to_32;
use crate::util::sign_extend_8_to_32;
use crate::util::spec_get_bits;
use crate::util::spec_sign_extend_16_to_32;
use crate::util::spec_sign_extend_8_to_32;

verus! {

/// BRA: jump by a signed displacement from the byte after the opcode; a zero
/// byte displacement means a 16-bit displacement word follows.
pub open spec fn spec_bra(s: CpuState, inst: u16) -> (CpuState, Result<(), Fault>) {
    let val = (inst & 0xFF) as u8;
    if val == 0 {
        let (s1, r1) = spec_fetch_word(s);
        match r1 {
            Ok(w) => (
                CpuState { pc: s.pc.wrapping_add(spec_sign_extend_16_to_32(w)), ..s1 },
                Ok(()),
            ),
            Err(f) => (s1, Err(f)),
        }
    } else {
        (CpuState { pc: s.pc.wrapping_add(spec_sign_extend_8_to_32(val)), ..s }, Ok(()))
    }
}

/// BSR: as BRA, but the address of the next instruction is pushed first.
pub open spec fn spec_bsr(s: CpuState, inst: u16) -> (CpuState, Result<(), Fault>) {
    let val = (inst & 0xFF) as u8;
    if val == 0 {
        let (s1, r1) = spec_fetch_word(s);
        match r1 {
            Ok(w) => {
                let (s2, r2) = spec_push_long(s1, s1.pc);
                match r2 {
                    Ok(_) => (
                        CpuState {
                            pc: s.pc.wrapping_add(spec_sign_extend_16_to_32(w)),
                            ..s2
                        },
                        Ok(()),
                    ),
                    Err(f) => (s2, Err(f)),
                }
            },
            Err(f) => (s1, Err(f)),
        }
    } else {
        let (s2, r2) = spec_push_long(s, s.pc);
        match r2 {
            Ok(_) => (
                CpuState { pc: s.pc.wrapping_add(spec_sign_extend_8_to_32(val)), ..s2 },
                Ok(()),
            ),
            Err(f) => (s2, Err(f)),
        }
    }
}

/// Bcc: jump as BRA when the condition holds; otherwise fall through,
/// stepping over the displacement word if the byte displacement was zero.
pub open spec fn spec_bcc(s: CpuState, inst: u16) -> (CpuState, Result<(), Fault>) {
    let cc = spec_decode_cc(spec_get_bits(inst, 8, 4) as u8);
    let val = (inst & 0xFF) as u8;
    if spec_test_cc(s.sr, cc) {
        if val == 0 {
            let (s1, r1) = spec_fetch_word(s);
            match r1 {
                Ok(w) => (
                    CpuState { pc: s.pc.wrapping_add(spec_sign_extend_16_to_32(w)), ..s1 },
                    Ok(()),
                ),
                Err(f) => (s1, Err(f)),
            }
        } else {
            (
                CpuState { pc: s.pc.wrapping_add(spec_sign_extend_8_to_32(val)), ..s },
                Ok(()),
            )
        }
    } else {
        if val == 0 {
            (CpuState { pc: s.pc.wrapping_add(2), ..s }, Ok(()))
        } else {
            (s, Ok(()))
        }
    }
}

/// The branch family: BRA, BSR, then the fourteen conditional branches.
pub open spec fn spec_branch_family(s: CpuState, inst: u16) -> (CpuState, Result<(), Fault>) {
    let sel = spec_get_bits(inst, 8, 4);
    if sel == 0 {
        spec_bra(s, inst)
    } else if sel == 1 {
        spec_bsr(s, inst)
    } else {
        spec_bcc(s, inst)
    }
}

impl Cpu {
    fn bra(&mut self, inst: u16) -> (r: Result<(), Fault>)
        requires
            old(self).wf(),
        ensures
            final(self).wf(),
            (final(self)@, r) == spec_bra(old(self)@, inst),
    {
        let val = (inst & 0xFF) as u8;
        let pc = self.read_pc();
        let displacement = if val == 0 {
            let w = self.fetch_word()?;
            sign_extend_16_to_32(w)
        } else {
            sign_extend_8_to_32(val)
        };
        self.write_pc(pc.wrapping_add(displacement));
        Ok(())
    }

    fn bsr(&mut self, inst: u16) -> (r: Result<(), Fault>)
        requires
            old(self).wf(),
        ensures
            final(self).wf(),
            (final(self)@, r) == spec_bsr(old(self)@, inst),
    {
        let val = (inst & 0xFF) as u8;
        let pc = self.read_pc();
        let displacement = if val == 0 {
            let w = self.fetch_word()?;
            sign_extend_16_to_32(w)
        } else {
            sign_extend_8_to_32(val)
        };
        let ret = self.read_pc();
        self.push_long(ret)?;
        self.write_pc(pc.wrapping_add(displacement));
        Ok(())
    }

    fn bcc(&mut self, inst: u16) -> (r: Result<(), Fault>)
        requires
            old(self).wf(),
        ensures
            final(self).wf(),
            (final(self)@, r) == spec_bcc(old(self)@, inst),
    {
        let cc = ConditionCode::from(get_bits(inst, 8, 4) as u8);
        let val = (inst & 0xFF) as u8;
        if self.test_cc(cc) {
            let pc = self.read_pc();
            let displacement = if val == 0 {
                let w = self.fetch_word()?;
                sign_extend_16_to_32(w)
            } else {
                sign_extend_8_to_32(val)
            };
            self.write_pc(pc.wrapping_add(displacement));
        } else {
            if val == 0 {
                self.increment_pc(2);
            }
        }
        Ok(())
    }

    pub(crate) fn branch_family(&mut self, inst: u16) -> (r: Result<(), Fault>)
        requires
            old(self).wf(),
        ensures
            final(self).wf(),
            (final(self)@, r) == spec_branch_family(old(self)@, inst),
    {
        let sel = get_bits(inst, 8, 4);
        if sel == 0 {
            self.bra(inst)
        } else if sel == 1 {
            self.bsr(inst)
        } else {
            self.bcc(inst)
        }
    }
}

} // verus!
