use vstd::prelude::*;

use crate::cpu::spec_fetch_word;
use crate::cpu::spec_read_ar;
use crate::cpu::spec_set_ccr;
use crate::cpu::Cpu;
use crate::cpu::CpuState;
use crate::cpu::StatusRegister;
use crate::ea::spec_read_ea_byte;
use crate::isa_util::spec_illegal;
use crate::mmu::mask24;
use crate::types::ea_field_valid;
use crate::types::spec_decode_ea;
use crate::types::AddressingMode;
use crate::types::Fault;
use crate::util::get_bits;
use crate::util::get_reg;
use crate::util::is_bit_set;
use crate::util::sign_extend_16_to_32;
use crate::util::spec_get_bits;
use crate::util::spec_is_bit_set;
use crate::util::spec_sign_extend_16_to_32;

verus! {

/// BTST: test one bit of the operand and set Z when that bit is clear.  A
/// data-register operand is 32 bits wide, a memory operand one byte.
pub open spec fn spec_btst(s: CpuState, inst: u16) -> (CpuState, Result<(), Fault>) {
    if !ea_field_valid(inst) {
        spec_illegal(s)
    } else {
        let ea = spec_decode_ea(inst);
        let (s1, r1, modulo) = match ea {
            AddressingMode::DataRegisterDirect(reg) => (s, Ok(s.dr[reg as int]), 32u8),
            _ => {
                let (sa, ra) = spec_read_ea_byte(s, ea);
                match ra {
                    Ok(b) => (sa, Ok(b as u32), 8u8),
                    Err(f) => (sa, Err(f), 8u8),
                }
            },
        };
        match r1 {
            Err(f) => (s1, Err(f)),
            Ok(val) => {
                if spec_get_bits(inst, 8, 1) == 1 {
                    let reg = spec_get_bits(inst, 9, 3) as u8;
                    let bit = ((s1.dr[reg as int] as u8) % modulo) as u8;
                    (
                        CpuState {
                            sr: spec_set_ccr(
                                s1.sr,
                                StatusRegister::Z,
                                !spec_is_bit_set(val, bit),
                            ),
                            ..s1
                        },
                        Ok(()),
                    )
                } else {
                    let (s2, r2) = spec_fetch_word(s1);
                    match r2 {
                        Err(f) => (s2, Err(f)),
                        Ok(w) => {
                            let bit = (((w & 0xFF) as u8) % modulo) as u8;
                            (
                                CpuState {
                                    sr: spec_set_ccr(
                                        s2.sr,
                                        StatusRegister::Z,
                                        !spec_is_bit_set(val, bit),
                                    ),
                                    ..s2
                                },
                                Ok(()),
                            )
                        },
                    }
                }
            },
        }
    }
}

/// MOVEP: a word or long moved between a data register and alternate memory
/// bytes at a displacement off an address register.
pub open spec fn spec_movep(s: CpuState, inst: u16) -> (CpuState, Result<(), Fault>) {
    let areg = spec_get_bits(inst, 0, 3) as u8;
    let dreg = spec_get_bits(inst, 9, 3) as u8;
    let opmode = spec_get_bits(inst, 6, 2);
    let (s1, r1) = spec_fetch_word(s);
    match r1 {
        Err(f) => (s1, Err(f)),
        Ok(w) => {
            let target = spec_read_ar(s1, areg).wrapping_add(spec_sign_extend_16_to_32(w));
            if opmode == 0 {
                let high = s1.mem[mask24(target) as int];
                let low = s1.mem[mask24(target.wrapping_add(2)) as int];
                let v = (((high as u16) << 8) + (low as u16)) as u16;
                (
                    CpuState {
                        dr: s1.dr.update(
                            dreg as int,
                            crate::cpu::spec_dr_word_merged(s1.dr[dreg as int], v),
                        ),
                        ..s1
                    },
                    Ok(()),
                )
            } else if opmode == 1 {
                let b0 = s1.mem[mask24(target) as int];
                let b1 = s1.mem[mask24(target.wrapping_add(2)) as int];
                let b2 = s1.mem[mask24(target.wrapping_add(4)) as int];
                let b3 = s1.mem[mask24(target.wrapping_add(6)) as int];
                let v = (((b0 as u32) << 24) + ((b1 as u32) << 16) + ((b2 as u32) << 8) + (
                b3 as u32)) as u32;
                (CpuState { dr: s1.dr.update(dreg as int, v), ..s1 }, Ok(()))
            } else if opmode == 2 {
                let val = s1.dr[dreg as int];
                let m1 = s1.mem.update(mask24(target) as int, ((val >> 8) & 0xFF) as u8);
                let m2 = m1.update(mask24(target.wrapping_add(2)) as int, (val & 0xFF) as u8);
                (CpuState { mem: m2, ..s1 }, Ok(()))
            } else {
                let val = s1.dr[dreg as int];
                let m1 = s1.mem.update(mask24(target) as int, ((val >> 24) & 0xFF) as u8);
                let m2 = m1.update(
                    mask24(target.wrapping_add(2)) as int,
                    ((val >> 16) & 0xFF) as u8,
                );
                let m3 = m2.update(
                    mask24(target.wrapping_add(4)) as int,
                    ((val >> 8) & 0xFF) as u8,
                );
                let m4 = m3.update(mask24(target.wrapping_add(6)) as int, (val & 0xFF) as u8);
                (CpuState { mem: m4, ..s1 }, Ok(()))
            }
        },
    }
}

/// The bit family: MOVEP, then the four single-bit instructions.
pub open spec fn spec_bit_family(s: CpuState, inst: u16) -> (CpuState, Result<(), Fault>) {
    if spec_get_bits(inst, 3, 3) == 1 {
        spec_movep(s, inst)
    } else if spec_get_bits(inst, 6, 2) == 0 {
        spec_btst(s, inst)
    } else {
        (s, Err(Fault::Unimplemented))
    }
}

impl Cpu {
    fn btst(&mut self, inst: u16) -> (r: Result<(), Fault>)
        requires
            old(self).wf(),
        ensures
            final(self).wf(),
            (final(self)@, r) == spec_btst(old(self)@, inst),
    {
        if !AddressingMode::field_valid(inst) {
            return self.illegal();
        }
        let ea = AddressingMode::from(inst);
        let (val, modulo) = match ea {
            AddressingMode::DataRegisterDirect(reg) => (self.read_dr(reg), 32u8),
            _ => {
                let b = self.read_ea_byte(ea)?;
                (b as u32, 8u8)
            },
        };
        let bit = if get_bits(inst, 8, 1) == 1 {
            let reg = get_reg(inst, 9);
            (self.read_dr(reg) as u8) % modulo
        } else {
            let w = self.fetch_word()?;
            ((w & 0xFF) as u8) % modulo
        };
        let set = is_bit_set(val, bit);
        self.write_ccr(StatusRegister::Z, !set);
        Ok(())
    }

    fn movep(&mut self, inst: u16) -> (r: Result<(), Fault>)
        requires
            old(self).wf(),
        ensures
            final(self).wf(),
            (final(self)@, r) == spec_movep(old(self)@, inst),
    {
        let areg = get_reg(inst, 0);
        let dreg = get_reg(inst, 9);
        let opmode = get_bits(inst, 6, 2);
        let w = self.fetch_word()?;
        let target = self.read_ar(areg).wrapping_add(sign_extend_16_to_32(w));
        if opmode == 0 {
            let high = self.mmu.read_byte(target);
            let low = self.mmu.read_byte(target.wrapping_add(2));
            proof {
                crate::mmu::lemma_u8_shl_bounds(high);
            }
            self.write_dr_word(dreg, ((high as u16) << 8) + (low as u16));
        } else if opmode == 1 {
            let b0 = self.mmu.read_byte(target);
            let b1 = self.mmu.read_byte(target.wrapping_add(2));
            let b2 = self.mmu.read_byte(target.wrapping_add(4));
            let b3 = self.mmu.read_byte(target.wrapping_add(6));
            proof {
                crate::mmu::lemma_u8_shl_bounds(b0);
                crate::mmu::lemma_u8_shl_bounds(b1);
                crate::mmu::lemma_u8_shl_bounds(b2);
            }
            let v = ((b0 as u32) << 24) + ((b1 as u32) << 16) + ((b2 as u32) << 8) + (b3 as u32);
            self.write_dr_long(dreg, v);
        } else if opmode == 2 {
            let val = self.read_dr(dreg);
            self.mmu.write_byte(target, ((val >> 8) & 0xFF) as u8);
            self.mmu.write_byte(target.wrapping_add(2), (val & 0xFF) as u8);
        } else {
            let val = self.read_dr(dreg);
            self.mmu.write_byte(target, ((val >> 24) & 0xFF) as u8);
            self.mmu.write_byte(target.wrapping_add(2), ((val >> 16) & 0xFF) as u8);
            self.mmu.write_byte(target.wrapping_add(4), ((val >> 8) & 0xFF) as u8);
            self.mmu.write_byte(target.wrapping_add(6), (val & 0xFF) as u8);
        }
        Ok(())
    }

    pub(crate) fn bit_family(&mut self, inst: u16) -> (r: Result<(), Fault>)
        requires
            old(self).wf(),
        ensures
            final(self).wf(),
            (final(self)@, r) == spec_bit_family(old(self)@, inst),
    {
        if get_bits(inst, 3, 3) == 1 {
            self.movep(inst)
        } else if get_bits(inst, 6, 2) == 0 {
            self.btst(inst)
        } else {
            Err(Fault::Unimplemented)
        }
    }
}

} // verus!
