use vstd::prelude::*;

use crate::cpu::spec_fetch_word;
use crate::cpu::spec_read_ar;
use crate::cpu::spec_write_ar;
use crate::cpu::spec_write_dr;
use crate::cpu::Cpu;
use crate::cpu::CpuState;
use crate::ea::spec_get_ea;
use crate::ea::spec_mem_read_long;
use crate::ea::spec_mem_read_word;
use crate::ea::spec_mem_write_long;
use crate::ea::spec_mem_write_word;
use crate::ea::spec_write_ea_long;
use crate::ea::spec_write_ea_word;
use crate::isa_util::spec_illegal;
use crate::types::ea_field_valid;
use crate::types::spec_decode_ea;
use crate::types::AddressingMode;
use crate::types::ExtensionMode;
use crate::types::Fault;
use crate::types::Size;
use crate::util::get_bits;
use crate::util::sign_extend_16_to_32;
use crate::util::spec_get_bits;
use crate::util::spec_sign_extend_16_to_32;

verus! {

/// Whether register number `reg` is selected by the transfer mask.
pub open spec fn movem_bit(mask: u16, reg: u8) -> bool {
    spec_get_bits(mask, reg, 1) == 1
}

/// Load longs at ascending addresses into the data registers picked by the
/// low mask byte: the state, the final cursor, and the first fault met.
pub open spec fn spec_movem_load_long_d(s: CpuState, mask: u16, cur: u32, reg: u8) -> (
    CpuState,
    u32,
    Result<(), Fault>,
)
    decreases 8 - reg,
{
    if reg >= 8 {
        (s, cur, Ok(()))
    } else if movem_bit(mask, reg) {
        match spec_mem_read_long(s, cur) {
            Ok(v) => spec_movem_load_long_d(
                spec_write_dr(s, reg, Size::Long, v),
                mask,
                cur.wrapping_add(4),
                (reg + 1) as u8,
            ),
            Err(f) => (s, cur, Err(f)),
        }
    } else {
        spec_movem_load_long_d(s, mask, cur, (reg + 1) as u8)
    }
}

/// The same for the address registers picked by the high mask byte.
pub open spec fn spec_movem_load_long_a(s: CpuState, mask: u16, cur: u32, reg: u8) -> (
    CpuState,
    u32,
    Result<(), Fault>,
)
    decreases 8 - reg,
{
    if reg >= 8 {
        (s, cur, Ok(()))
    } else if movem_bit(mask, reg) {
        match spec_mem_read_long(s, cur) {
            Ok(v) => spec_movem_load_long_a(
                spec_write_ar(s, reg, v),
                mask,
                cur.wrapping_add(4),
                (reg + 1) as u8,
            ),
            Err(f) => (s, cur, Err(f)),
        }
    } else {
        spec_movem_load_long_a(s, mask, cur, (reg + 1) as u8)
    }
}

/// Word loads: a data register keeps its upper half, an address register
/// takes the sign-extended word.
pub open spec fn spec_movem_load_word_d(s: CpuState, mask: u16, cur: u32, reg: u8) -> (
    CpuState,
    u32,
    Result<(), Fault>,
)
    decreases 8 - reg,
{
    if reg >= 8 {
        (s, cur, Ok(()))
    } else if movem_bit(mask, reg) {
        match spec_mem_read_word(s, cur) {
            Ok(v) => spec_movem_load_word_d(
                spec_write_dr(s, reg, Size::Word, v as u32),
                mask,
                cur.wrapping_add(2),
                (reg + 1) as u8,
            ),
            Err(f) => (s, cur, Err(f)),
        }
    } else {
        spec_movem_load_word_d(s, mask, cur, (reg + 1) as u8)
    }
}

pub open spec fn spec_movem_load_word_a(s: CpuState, mask: u16, cur: u32, reg: u8) -> (
    CpuState,
    u32,
    Result<(), Fault>,
)
    decreases 8 - reg,
{
    if reg >= 8 {
        (s, cur, Ok(()))
    } else if movem_bit(mask, reg) {
        match spec_mem_read_word(s, cur) {
            Ok(v) => spec_movem_load_word_a(
                spec_write_ar(s, reg, spec_sign_extend_16_to_32(v)),
                mask,
                cur.wrapping_add(2),
                (reg + 1) as u8,
            ),
            Err(f) => (s, cur, Err(f)),
        }
    } else {
        spec_movem_load_word_a(s, mask, cur, (reg + 1) as u8)
    }
}

/// Store longs from the data registers at ascending addresses.
pub open spec fn spec_movem_store_long_d(s: CpuState, mask: u16, cur: u32, reg: u8) -> (
    CpuState,
    u32,
    Result<(), Fault>,
)
    decreases 8 - reg,
{
    if reg >= 8 {
        (s, cur, Ok(()))
    } else if movem_bit(mask, reg) {
        let (s1, r1) = spec_mem_write_long(s, cur, s.dr[reg as int]);
        match r1 {
            Ok(_) => spec_movem_store_long_d(s1, mask, cur.wrapping_add(4), (reg + 1) as u8),
            Err(f) => (s1, cur, Err(f)),
        }
    } else {
        spec_movem_store_long_d(s, mask, cur, (reg + 1) as u8)
    }
}

pub open spec fn spec_movem_store_long_a(s: CpuState, mask: u16, cur: u32, reg: u8) -> (
    CpuState,
    u32,
    Result<(), Fault>,
)
    decreases 8 - reg,
{
    if reg >= 8 {
        (s, cur, Ok(()))
    } else if movem_bit(mask, reg) {
        let (s1, r1) = spec_mem_write_long(s, cur, spec_read_ar(s, reg));
        match r1 {
            Ok(_) => spec_movem_store_long_a(s1, mask, cur.wrapping_add(4), (reg + 1) as u8),
            Err(f) => (s1, cur, Err(f)),
        }
    } else {
        spec_movem_store_long_a(s, mask, cur, (reg + 1) as u8)
    }
}

pub open spec fn spec_movem_store_word_d(s: CpuState, mask: u16, cur: u32, reg: u8) -> (
    CpuState,
    u32,
    Result<(), Fault>,
)
    decreases 8 - reg,
{
    if reg >= 8 {
        (s, cur, Ok(()))
    } else if movem_bit(mask, reg) {
        let (s1, r1) = spec_mem_write_word(s, cur, s.dr[reg as int] as u16);
        match r1 {
            Ok(_) => spec_movem_store_word_d(s1, mask, cur.wrapping_add(2), (reg + 1) as u8),
            Err(f) => (s1, cur, Err(f)),
        }
    } else {
        spec_movem_store_word_d(s, mask, cur, (reg + 1) as u8)
    }
}

pub open spec fn spec_movem_store_word_a(s: CpuState, mask: u16, cur: u32, reg: u8) -> (
    CpuState,
    u32,
    Result<(), Fault>,
)
    decreases 8 - reg,
{
    if reg >= 8 {
        (s, cur, Ok(()))
    } else if movem_bit(mask, reg) {
        let (s1, r1) = spec_mem_write_word(s, cur, spec_read_ar(s, reg) as u16);
        match r1 {
            Ok(_) => spec_movem_store_word_a(s1, mask, cur.wrapping_add(2), (reg + 1) as u8),
            Err(f) => (s1, cur, Err(f)),
        }
    } else {
        spec_movem_store_word_a(s, mask, cur, (reg + 1) as u8)
    }
}

/// Pre-decrement store, first pass: the address registers A7 down to A0,
/// picked by the low mask byte, each pushed through the pre-decrement mode.
pub open spec fn spec_movem_predec_long_a(s: CpuState, areg: u8, mask: u16, reg: u8) -> (
    CpuState,
    Result<(), Fault>,
)
    decreases 8 - reg,
{
    if reg >= 8 {
        (s, Ok(()))
    } else if movem_bit(mask, reg) {
        let val = spec_read_ar(s, (7 - reg) as u8);
        let (s1, r1) = spec_write_ea_long(
            s,
            AddressingMode::AddressRegisterIndirectPreDecrement(areg),
            val,
        );
        match r1 {
            Ok(_) => spec_movem_predec_long_a(s1, areg, mask, (reg + 1) as u8),
            Err(f) => (s1, Err(f)),
        }
    } else {
        spec_movem_predec_long_a(s, areg, mask, (reg + 1) as u8)
    }
}

/// Pre-decrement store, second pass: the data registers D7 down to D0,
/// picked by the high mask byte.
pub open spec fn spec_movem_predec_long_d(s: CpuState, areg: u8, mask: u16, reg: u8) -> (
    CpuState,
    Result<(), Fault>,
)
    decreases 8 - reg,
{
    if reg >= 8 {
        (s, Ok(()))
    } else if movem_bit(mask, reg) {
        let val = s.dr[7 - reg as int];
        let (s1, r1) = spec_write_ea_long(
            s,
            AddressingMode::AddressRegisterIndirectPreDecrement(areg),
            val,
        );
        match r1 {
            Ok(_) => spec_movem_predec_long_d(s1, areg, mask, (reg + 1) as u8),
            Err(f) => (s1, Err(f)),
        }
    } else {
        spec_movem_predec_long_d(s, areg, mask, (reg + 1) as u8)
    }
}

pub open spec fn spec_movem_predec_word_a(s: CpuState, areg: u8, mask: u16, reg: u8) -> (
    CpuState,
    Result<(), Fault>,
)
    decreases 8 - reg,
{
    if reg >= 8 {
        (s, Ok(()))
    } else if movem_bit(mask, reg) {
        let val = spec_read_ar(s, (7 - reg) as u8) as u16;
        let (s1, r1) = spec_write_ea_word(
            s,
            AddressingMode::AddressRegisterIndirectPreDecrement(areg),
            val,
        );
        match r1 {
            Ok(_) => spec_movem_predec_word_a(s1, areg, mask, (reg + 1) as u8),
            Err(f) => (s1, Err(f)),
        }
    } else {
        spec_movem_predec_word_a(s, areg, mask, (reg + 1) as u8)
    }
}

pub open spec fn spec_movem_predec_word_d(s: CpuState, areg: u8, mask: u16, reg: u8) -> (
    CpuState,
    Result<(), Fault>,
)
    decreases 8 - reg,
{
    if reg >= 8 {
        (s, Ok(()))
    } else if movem_bit(mask, reg) {
        let val = s.dr[7 - reg as int] as u16;
        let (s1, r1) = spec_write_ea_word(
            s,
            AddressingMode::AddressRegisterIndirectPreDecrement(areg),
            val,
        );
        match r1 {
            Ok(_) => spec_movem_predec_word_d(s1, areg, mask, (reg + 1) as u8),
            Err(f) => (s1, Err(f)),
        }
    } else {
        spec_movem_predec_word_d(s, areg, mask, (reg + 1) as u8)
    }
}

/// A legal source for a memory-to-registers transfer.
pub open spec fn movem_load_mode_ok(ea: AddressingMode) -> bool {
    match ea {
        AddressingMode::DataRegisterDirect(_) => false,
        AddressingMode::AddressRegisterDirect(_) => false,
        AddressingMode::AddressRegisterIndirectPreDecrement(_) => false,
        AddressingMode::Extension(ExtensionMode::Immediate) => false,
        _ => true,
    }
}

/// A legal destination for a registers-to-memory transfer.
pub open spec fn movem_store_mode_ok(ea: AddressingMode) -> bool {
    match ea {
        AddressingMode::AddressRegisterIndirect(_) => true,
        AddressingMode::AddressRegisterIndirectPreDecrement(_) => true,
        AddressingMode::AddressRegisterIndirectDisplacement(_) => true,
        AddressingMode::AddressRegisterIndirectIndex(_) => true,
        AddressingMode::Extension(ExtensionMode::Word) => true,
        AddressingMode::Extension(ExtensionMode::Long) => true,
        _ => false,
    }
}

/// Memory to registers, long: the mask is consumed, the start address
/// resolved (a post-increment source updates its address register to the
/// final cursor), then data and address registers are filled in ascending
/// order.
pub open spec fn spec_movem_mem_to_reg_long(s: CpuState, inst: u16) -> (CpuState, Result<
    (),
    Fault,
>) {
    if !ea_field_valid(inst) {
        spec_illegal(s)
    } else {
        let ea = spec_decode_ea(inst);
        let (s1, r1) = spec_fetch_word(s);
        match r1 {
            Err(f) => (s1, Err(f)),
            Ok(mask) => {
                if !movem_load_mode_ok(ea) {
                    (s1, Err(Fault::IllegalMode))
                } else {
                    match ea {
                        AddressingMode::AddressRegisterIndirectPostIncrement(areg) => {
                            let start = spec_read_ar(s1, areg);
                            let (s2, cur2, r2) = spec_movem_load_long_d(s1, mask, start, 0);
                            match r2 {
                                Err(f) => (s2, Err(f)),
                                Ok(_) => {
                                    let (s3, cur3, r3) = spec_movem_load_long_a(
                                        s2,
                                        mask >> 8,
                                        cur2,
                                        0,
                                    );
                                    match r3 {
                                        Err(f) => (s3, Err(f)),
                                        Ok(_) => (spec_write_ar(s3, areg, cur3), Ok(())),
                                    }
                                },
                            }
                        },
                        _ => {
                            let (s2, r2) = spec_get_ea(s1, ea);
                            match r2 {
                                Err(f) => (s2, Err(f)),
                                Ok(start) => {
                                    let (s3, cur3, r3) = spec_movem_load_long_d(
                                        s2,
                                        mask,
                                        start,
                                        0,
                                    );
                                    match r3 {
                                        Err(f) => (s3, Err(f)),
                                        Ok(_) => {
                                            let (s4, _cur4, r4) = spec_movem_load_long_a(
                                                s3,
                                                mask >> 8,
                                                cur3,
                                                0,
                                            );
                                            (s4, r4)
                                        },
                                    }
                                },
                            }
                        },
                    }
                }
            },
        }
    }
}

/// Memory to registers, word: as the long form, with word steps; a data
/// register keeps its upper half, an address register takes the word
/// sign-extended.
pub open spec fn spec_movem_mem_to_reg_word(s: CpuState, inst: u16) -> (CpuState, Result<
    (),
    Fault,
>) {
    if !ea_field_valid(inst) {
        spec_illegal(s)
    } else {
        let ea = spec_decode_ea(inst);
        let (s1, r1) = spec_fetch_word(s);
        match r1 {
            Err(f) => (s1, Err(f)),
            Ok(mask) => {
                if !movem_load_mode_ok(ea) {
                    (s1, Err(Fault::IllegalMode))
                } else {
                    match ea {
                        AddressingMode::AddressRegisterIndirectPostIncrement(areg) => {
                            let start = spec_read_ar(s1, areg);
                            let (s2, cur2, r2) = spec_movem_load_word_d(s1, mask, start, 0);
                            match r2 {
                                Err(f) => (s2, Err(f)),
                                Ok(_) => {
                                    let (s3, cur3, r3) = spec_movem_load_word_a(
                                        s2,
                                        mask >> 8,
                                        cur2,
                                        0,
                                    );
                                    match r3 {
                                        Err(f) => (s3, Err(f)),
                                        Ok(_) => (spec_write_ar(s3, areg, cur3), Ok(())),
                                    }
                                },
                            }
                        },
                        _ => {
                            let (s2, r2) = spec_get_ea(s1, ea);
                            match r2 {
                                Err(f) => (s2, Err(f)),
                                Ok(start) => {
                                    let (s3, cur3, r3) = spec_movem_load_word_d(
                                        s2,
                                        mask,
                                        start,
                                        0,
                                    );
                                    match r3 {
                                        Err(f) => (s3, Err(f)),
                                        Ok(_) => {
                                            let (s4, _cur4, r4) = spec_movem_load_word_a(
                                                s3,
                                                mask >> 8,
                                                cur3,
                                                0,
                                            );
                                            (s4, r4)
                                        },
                                    }
                                },
                            }
                        },
                    }
                }
            },
        }
    }
}

/// Registers to memory, long: through the pre-decrement mode the address
/// registers A7..A0 go first and then the data registers D7..D0, the stack
/// growing down; through every other legal mode the data registers D0..D7
/// and then the address registers A0..A7 are stored at ascending addresses.
pub open spec fn spec_movem_reg_to_mem_long(s: CpuState, inst: u16) -> (CpuState, Result<
    (),
    Fault,
>) {
    if !ea_field_valid(inst) {
        spec_illegal(s)
    } else {
        let ea = spec_decode_ea(inst);
        let (s1, r1) = spec_fetch_word(s);
        match r1 {
            Err(f) => (s1, Err(f)),
            Ok(mask) => {
                if !movem_store_mode_ok(ea) {
                    (s1, Err(Fault::IllegalMode))
                } else {
                    match ea {
                        AddressingMode::AddressRegisterIndirectPreDecrement(areg) => {
                            let (s2, r2) = spec_movem_predec_long_a(s1, areg, mask, 0);
                            match r2 {
                                Err(f) => (s2, Err(f)),
                                Ok(_) => spec_movem_predec_long_d(s2, areg, mask >> 8, 0),
                            }
                        },
                        _ => {
                            let (s2, r2) = spec_get_ea(s1, ea);
                            match r2 {
                                Err(f) => (s2, Err(f)),
                                Ok(start) => {
                                    let (s3, cur3, r3) = spec_movem_store_long_d(
                                        s2,
                                        mask,
                                        start,
                                        0,
                                    );
                                    match r3 {
                                        Err(f) => (s3, Err(f)),
                                        Ok(_) => {
                                            let (s4, _cur4, r4) = spec_movem_store_long_a(
                                                s3,
                                                mask >> 8,
                                                cur3,
                                                0,
                                            );
                                            (s4, r4)
                                        },
                                    }
                                },
                            }
                        },
                    }
                }
            },
        }
    }
}

pub open spec fn spec_movem_reg_to_mem_word(s: CpuState, inst: u16) -> (CpuState, Result<
    (),
    Fault,
>) {
    if !ea_field_valid(inst) {
        spec_illegal(s)
    } else {
        let ea = spec_decode_ea(inst);
        let (s1, r1) = spec_fetch_word(s);
        match r1 {
            Err(f) => (s1, Err(f)),
            Ok(mask) => {
                if !movem_store_mode_ok(ea) {
                    (s1, Err(Fault::IllegalMode))
                } else {
                    match ea {
                        AddressingMode::AddressRegisterIndirectPreDecrement(areg) => {
                            let (s2, r2) = spec_movem_predec_word_a(s1, areg, mask, 0);
                            match r2 {
                                Err(f) => (s2, Err(f)),
                                Ok(_) => spec_movem_predec_word_d(s2, areg, mask >> 8, 0),
                            }
                        },
                        _ => {
                            let (s2, r2) = spec_get_ea(s1, ea);
                            match r2 {
                                Err(f) => (s2, Err(f)),
                                Ok(start) => {
                                    let (s3, cur3, r3) = spec_movem_store_word_d(
                                        s2,
                                        mask,
                                        start,
                                        0,
                                    );
                                    match r3 {
                                        Err(f) => (s3, Err(f)),
                                        Ok(_) => {
                                            let (s4, _cur4, r4) = spec_movem_store_word_a(
                                                s3,
                                                mask >> 8,
                                                cur3,
                                                0,
                                            );
                                            (s4, r4)
                                        },
                                    }
                                },
                            }
                        },
                    }
                }
            },
        }
    }
}

/// Move-multiple: bit 10 picks the direction, bit 6 the transfer width.
pub open spec fn spec_movem(s: CpuState, inst: u16) -> (CpuState, Result<(), Fault>) {
    let long = spec_get_bits(inst, 6, 1) == 1;
    let to_reg = spec_get_bits(inst, 10, 1) == 1;
    if long {
        if to_reg {
            spec_movem_mem_to_reg_long(s, inst)
        } else {
            spec_movem_reg_to_mem_long(s, inst)
        }
    } else {
        if to_reg {
            spec_movem_mem_to_reg_word(s, inst)
        } else {
            spec_movem_reg_to_mem_word(s, inst)
        }
    }
}

impl Cpu {
    fn movem_load_mode_ok(&self, ea: AddressingMode) -> (r: bool)
        ensures
            r == movem_load_mode_ok(ea),
    {
        match ea {
            AddressingMode::DataRegisterDirect(_) => false,
            AddressingMode::AddressRegisterDirect(_) => false,
            AddressingMode::AddressRegisterIndirectPreDecrement(_) => false,
            AddressingMode::Extension(ExtensionMode::Immediate) => false,
            _ => true,
        }
    }

    fn movem_store_mode_ok(&self, ea: AddressingMode) -> (r: bool)
        ensures
            r == movem_store_mode_ok(ea),
    {
        match ea {
            AddressingMode::AddressRegisterIndirect(_) => true,
            AddressingMode::AddressRegisterIndirectPreDecrement(_) => true,
            AddressingMode::AddressRegisterIndirectDisplacement(_) => true,
            AddressingMode::AddressRegisterIndirectIndex(_) => true,
            AddressingMode::Extension(ExtensionMode::Word) => true,
            AddressingMode::Extension(ExtensionMode::Long) => true,
            _ => false,
        }
    }

    #[verifier::loop_isolation(false)]
    fn movem_mem_to_reg_long(&mut self, inst: u16) -> (r: Result<(), Fault>)
        requires
            old(self).wf(),
        ensures
            final(self).wf(),
            (final(self)@, r) == spec_movem_mem_to_reg_long(old(self)@, inst),
    {
        if !AddressingMode::field_valid(inst) {
            return self.illegal();
        }
        let ea = AddressingMode::from(inst);
        let mask = self.fetch_word()?;
        if !self.movem_load_mode_ok(ea) {
            return Err(Fault::IllegalMode);
        }
        let postinc_reg: Option<u8> = match ea {
            AddressingMode::AddressRegisterIndirectPostIncrement(areg) => Some(areg),
            _ => None,
        };
        let start = match postinc_reg {
            Some(areg) => self.read_ar(areg),
            None => self.get_ea(ea)?,
        };
        let ghost s_start = self@;
        let mut cur = start;
        let mut reg: u8 = 0;
        while reg < 8
            invariant
                self.wf(),
                reg <= 8,
                spec_movem_load_long_d(s_start, mask, start, 0) == spec_movem_load_long_d(
                    self@,
                    mask,
                    cur,
                    reg,
                ),
            decreases 8 - reg,
        {
            if get_bits(mask, reg, 1) == 1 {
                let v = match self.mem_read_long(cur) {
                    Ok(v) => v,
                    Err(f) => {
                        return Err(f);
                    },
                };
                self.write_dr(reg, Size::Long, v);
                cur = cur.wrapping_add(4);
            }
            reg = reg + 1;
        }
        let mask2 = mask >> 8;
        let ghost s_mid = self@;
        let ghost cur_mid = cur;
        let mut reg2: u8 = 0;
        while reg2 < 8
            invariant
                self.wf(),
                reg2 <= 8,
                spec_movem_load_long_a(s_mid, mask2, cur_mid, 0) == spec_movem_load_long_a(
                    self@,
                    mask2,
                    cur,
                    reg2,
                ),
            decreases 8 - reg2,
        {
            if get_bits(mask2, reg2, 1) == 1 {
                let v = match self.mem_read_long(cur) {
                    Ok(v) => v,
                    Err(f) => {
                        return Err(f);
                    },
                };
                self.write_ar(reg2, v);
                cur = cur.wrapping_add(4);
            }
            reg2 = reg2 + 1;
        }
        if let Some(areg) = postinc_reg {
            self.write_ar(areg, cur);
        }
        Ok(())
    }

    #[verifier::loop_isolation(false)]
    pub fn movem_mem_to_reg_word(&mut self, inst: u16) -> (r: Result<(), Fault>)
        requires
            old(self).wf(),
        ensures
            final(self).wf(),
            (final(self)@, r) == spec_movem_mem_to_reg_word(old(self)@, inst),
    {
        if !AddressingMode::field_valid(inst) {
            return self.illegal();
        }
        let ea = AddressingMode::from(inst);
        let mask = self.fetch_word()?;
        if !self.movem_load_mode_ok(ea) {
            return Err(Fault::IllegalMode);
        }
        let postinc_reg: Option<u8> = match ea {
            AddressingMode::AddressRegisterIndirectPostIncrement(areg) => Some(areg),
            _ => None,
        };
        let start = match postinc_reg {
            Some(areg) => self.read_ar(areg),
            None => self.get_ea(ea)?,
        };
        let ghost s_start = self@;
        let mut cur = start;
        let mut reg: u8 = 0;
        while reg < 8
            invariant
                self.wf(),
                reg <= 8,
                spec_movem_load_word_d(s_start, mask, start, 0) == spec_movem_load_word_d(
                    self@,
                    mask,
                    cur,
                    reg,
                ),
            decreases 8 - reg,
        {
            if get_bits(mask, reg, 1) == 1 {
                let v = match self.mem_read_word(cur) {
                    Ok(v) => v,
                    Err(f) => {
                        return Err(f);
                    },
                };
                self.write_dr(reg, Size::Word, v as u32);
                cur = cur.wrapping_add(2);
            }
            reg = reg + 1;
        }
        let mask2 = mask >> 8;
        let ghost s_mid = self@;
        let ghost cur_mid = cur;
        let mut reg2: u8 = 0;
        while reg2 < 8
            invariant
                self.wf(),
                reg2 <= 8,
                spec_movem_load_word_a(s_mid, mask2, cur_mid, 0) == spec_movem_load_word_a(
                    self@,
                    mask2,
                    cur,
                    reg2,
                ),
            decreases 8 - reg2,
        {
            if get_bits(mask2, reg2, 1) == 1 {
                let v = match self.mem_read_word(cur) {
                    Ok(v) => v,
                    Err(f) => {
                        return Err(f);
                    },
                };
                let ext = sign_extend_16_to_32(v);
                self.write_ar(reg2, ext);
                cur = cur.wrapping_add(2);
            }
            reg2 = reg2 + 1;
        }
        if let Some(areg) = postinc_reg {
            self.write_ar(areg, cur);
        }
        Ok(())
    }

    #[verifier::loop_isolation(false)]
    fn movem_reg_to_mem_long(&mut self, inst: u16) -> (r: Result<(), Fault>)
        requires
            old(self).wf(),
        ensures
            final(self).wf(),
            (final(self)@, r) == spec_movem_reg_to_mem_long(old(self)@, inst),
    {
        if !AddressingMode::field_valid(inst) {
            return self.illegal();
        }
        let ea = AddressingMode::from(inst);
        let mask = self.fetch_word()?;
        if !self.movem_store_mode_ok(ea) {
            return Err(Fault::IllegalMode);
        }
        if let AddressingMode::AddressRegisterIndirectPreDecrement(areg) = ea {
            let ghost s_start = self@;
            let mut reg: u8 = 0;
            while reg < 8
                invariant
                    self.wf(),
                    reg <= 8,
                    spec_movem_predec_long_a(s_start, areg, mask, 0) == spec_movem_predec_long_a(
                        self@,
                        areg,
                        mask,
                        reg,
                    ),
                    areg < 8,
                decreases 8 - reg,
            {
                if get_bits(mask, reg, 1) == 1 {
                    let val = self.read_ar(7 - reg);
                    self.write_ea_long(
                        AddressingMode::AddressRegisterIndirectPreDecrement(areg),
                        val,
                    )?;
                }
                reg = reg + 1;
            }
            let mask2 = mask >> 8;
            let ghost s_mid = self@;
            let mut reg2: u8 = 0;
            while reg2 < 8
                invariant
                    self.wf(),
                    reg2 <= 8,
                    spec_movem_predec_long_d(s_mid, areg, mask2, 0) == spec_movem_predec_long_d(
                        self@,
                        areg,
                        mask2,
                        reg2,
                    ),
                    areg < 8,
                decreases 8 - reg2,
            {
                if get_bits(mask2, reg2, 1) == 1 {
                    let val = self.read_dr(7 - reg2);
                    self.write_ea_long(
                        AddressingMode::AddressRegisterIndirectPreDecrement(areg),
                        val,
                    )?;
                }
                reg2 = reg2 + 1;
            }
            return Ok(());
        }
        let start = self.get_ea(ea)?;
        let ghost s_start = self@;
        let mut cur = start;
        let mut reg: u8 = 0;
        while reg < 8
            invariant
                self.wf(),
                reg <= 8,
                spec_movem_store_long_d(s_start, mask, start, 0) == spec_movem_store_long_d(
                    self@,
                    mask,
                    cur,
                    reg,
                ),
            decreases 8 - reg,
        {
            if get_bits(mask, reg, 1) == 1 {
                let val = self.read_dr(reg);
                match self.mem_write_long(cur, val) {
                    Ok(_) => {},
                    Err(f) => {
                        return Err(f);
                    },
                }
                cur = cur.wrapping_add(4);
            }
            reg = reg + 1;
        }
        let mask2 = mask >> 8;
        let ghost s_mid = self@;
        let ghost cur_mid = cur;
        let mut reg2: u8 = 0;
        while reg2 < 8
            invariant
                self.wf(),
                reg2 <= 8,
                spec_movem_store_long_a(s_mid, mask2, cur_mid, 0) == spec_movem_store_long_a(
                    self@,
                    mask2,
                    cur,
                    reg2,
                ),
            decreases 8 - reg2,
        {
            if get_bits(mask2, reg2, 1) == 1 {
                let val = self.read_ar(reg2);
                match self.mem_write_long(cur, val) {
                    Ok(_) => {},
                    Err(f) => {
                        return Err(f);
                    },
                }
                cur = cur.wrapping_add(4);
            }
            reg2 = reg2 + 1;
        }
        Ok(())
    }

    #[verifier::loop_isolation(false)]
    fn movem_reg_to_mem_word(&mut self, inst: u16) -> (r: Result<(), Fault>)
        requires
            old(self).wf(),
        ensures
            final(self).wf(),
            (final(self)@, r) == spec_movem_reg_to_mem_word(old(self)@, inst),
    {
        if !AddressingMode::field_valid(inst) {
            return self.illegal();
        }
        let ea = AddressingMode::from(inst);
        let mask = self.fetch_word()?;
        if !self.movem_store_mode_ok(ea) {
            return Err(Fault::IllegalMode);
        }
        if let AddressingMode::AddressRegisterIndirectPreDecrement(areg) = ea {
            let ghost s_start = self@;
            let mut reg: u8 = 0;
            while reg < 8
                invariant
                    self.wf(),
                    reg <= 8,
                    spec_movem_predec_word_a(s_start, areg, mask, 0) == spec_movem_predec_word_a(
                        self@,
                        areg,
                        mask,
                        reg,
                    ),
                    areg < 8,
                decreases 8 - reg,
            {
                if get_bits(mask, reg, 1) == 1 {
                    let val = self.read_ar(7 - reg) as u16;
                    self.write_ea_word(
                        AddressingMode::AddressRegisterIndirectPreDecrement(areg),
                        val,
                    )?;
                }
                reg = reg + 1;
            }
            let mask2 = mask >> 8;
            let ghost s_mid = self@;
            let mut reg2: u8 = 0;
            while reg2 < 8
                invariant
                    self.wf(),
                    reg2 <= 8,
                    spec_movem_predec_word_d(s_mid, areg, mask2, 0) == spec_movem_predec_word_d(
                        self@,
                        areg,
                        mask2,
                        reg2,
                    ),
                    areg < 8,
                decreases 8 - reg2,
            {
                if get_bits(mask2, reg2, 1) == 1 {
                    let val = self.read_dr(7 - reg2) as u16;
                    self.write_ea_word(
                        AddressingMode::AddressRegisterIndirectPreDecrement(areg),
                        val,
                    )?;
                }
                reg2 = reg2 + 1;
            }
            return Ok(());
        }
        let start = self.get_ea(ea)?;
        let ghost s_start = self@;
        let mut cur = start;
        let mut reg: u8 = 0;
        while reg < 8
            invariant
                self.wf(),
                reg <= 8,
                spec_movem_store_word_d(s_start, mask, start, 0) == spec_movem_store_word_d(
                    self@,
                    mask,
                    cur,
                    reg,
                ),
            decreases 8 - reg,
        {
            if get_bits(mask, reg, 1) == 1 {
                let val = self.read_dr(reg) as u16;
                match self.mem_write_word(cur, val) {
                    Ok(_) => {},
                    Err(f) => {
                        return Err(f);
                    },
                }
                cur = cur.wrapping_add(2);
            }
            reg = reg + 1;
        }
        let mask2 = mask >> 8;
        let ghost s_mid = self@;
        let ghost cur_mid = cur;
        let mut reg2: u8 = 0;
        while reg2 < 8
            invariant
                self.wf(),
                reg2 <= 8,
                spec_movem_store_word_a(s_mid, mask2, cur_mid, 0) == spec_movem_store_word_a(
                    self@,
                    mask2,
                    cur,
                    reg2,
                ),
            decreases 8 - reg2,
        {
            if get_bits(mask2, reg2, 1) == 1 {
                let val = self.read_ar(reg2) as u16;
                match self.mem_write_word(cur, val) {
                    Ok(_) => {},
                    Err(f) => {
                        return Err(f);
                    },
                }
                cur = cur.wrapping_add(2);
            }
            reg2 = reg2 + 1;
        }
        Ok(())
    }

    /// Move-multiple-registers, all four forms.
    pub fn movem(&mut self, inst: u16) -> (r: Result<(), Fault>)
        requires
            old(self).wf(),
        ensures
            final(self).wf(),
            (final(self)@, r) == spec_movem(old(self)@, inst),
    {
        let long = get_bits(inst, 6, 1) == 1;
        let to_reg = get_bits(inst, 10, 1) == 1;
        if long {
            if to_reg {
                self.movem_mem_to_reg_long(inst)
            } else {
                self.movem_reg_to_mem_long(inst)
            }
        } else {
            if to_reg {
                self.movem_mem_to_reg_word(inst)
            } else {
                self.movem_reg_to_mem_word(inst)
            }
        }
    }
}

} // verus!
