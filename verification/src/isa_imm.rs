use vstd::prelude::*;

use crate::cpu::spec_fetch_long;
use crate::cpu::spec_fetch_word;
use crate::cpu::spec_supervisor;
use crate::cpu::spec_trap_vec;
use crate::cpu::Cpu;
use crate::cpu::CpuState;
use crate::constants::Vector;
use crate::ea::spec_read_ea;
use crate::ea::spec_write_ea;
use crate::flags::spec_flags_logic;
use crate::isa_util::spec_illegal;
use crate::types::ea_field_valid;
use crate::types::spec_decode_ea;
use crate::types::value_to_u32;
use crate::types::AddressingMode;
use crate::types::Fault;
use crate::types::Size;
use crate::types::Value;
use crate::util::get_bits;
use crate::util::spec_get_bits;

verus! {

/// An immediate of the operand size taken from the instruction stream; a
/// byte immediate occupies the low half of a word.
pub open spec fn spec_fetch_imm(s: CpuState, size: Size) -> (CpuState, Result<u32, Fault>) {
    match size {
        Size::Byte => {
            let (s1, r1) = spec_fetch_word(s);
            match r1 {
                Ok(w) => (s1, Ok((w & 0xFF) as u32)),
                Err(f) => (s1, Err(f)),
            }
        },
        Size::Word => {
            let (s1, r1) = spec_fetch_word(s);
            match r1 {
                Ok(w) => (s1, Ok(w as u32)),
                Err(f) => (s1, Err(f)),
            }
        },
        Size::Long => spec_fetch_long(s),
    }
}

/// ORI to CCR: the immediate's low byte is or-ed into the flags.
pub open spec fn spec_ori_to_ccr(s: CpuState) -> (CpuState, Result<(), Fault>) {
    let (s1, r1) = spec_fetch_word(s);
    match r1 {
        Ok(w) => {
            let val = w & 0xFF;
            (
                CpuState { sr: (s1.sr & 0xFF00) | ((s1.sr & 0xFF) | val), ..s1 },
                Ok(()),
            )
        },
        Err(f) => (s1, Err(f)),
    }
}

/// ORI to SR: privileged; the defined status bits are or-ed in.
pub open spec fn spec_ori_to_sr(s: CpuState) -> (CpuState, Result<(), Fault>) {
    if !spec_supervisor(s.sr) {
        spec_trap_vec(s, 0x20)
    } else {
        let (s1, r1) = spec_fetch_word(s);
        match r1 {
            Ok(w) => (CpuState { sr: s1.sr | (w & 0xA7FF), ..s1 }, Ok(())),
            Err(f) => (s1, Err(f)),
        }
    }
}

/// ORI: an immediate or-ed into the operand, flags following the result.
pub open spec fn spec_ori(s: CpuState, inst: u16) -> (CpuState, Result<(), Fault>) {
    let bits = spec_get_bits(inst, 6, 2);
    if bits == 3 || !ea_field_valid(inst) {
        spec_illegal(s)
    } else {
        let size = crate::util::spec_decode_size(bits, crate::util::SizeCoding::Pink);
        let ea = spec_decode_ea(inst);
        let (s1, r1) = spec_read_ea(s, ea, size);
        match r1 {
            Err(f) => (s1, Err(f)),
            Ok(v) => {
                let (s2, r2) = spec_fetch_imm(s1, size);
                match r2 {
                    Err(f) => (s2, Err(f)),
                    Ok(imm) => {
                        let res = value_to_u32(v) | imm;
                        let (s3, r3) = spec_write_ea(s2, ea, size, Value::Long(res));
                        match r3 {
                            Err(f) => (s3, Err(f)),
                            Ok(_) => (
                                CpuState { sr: spec_flags_logic(s3.sr, res, size), ..s3 },
                                Ok(()),
                            ),
                        }
                    },
                }
            },
        }
    }
}

pub open spec fn spec_ori_family(s: CpuState, inst: u16) -> (CpuState, Result<(), Fault>) {
    if inst == 0x003C {
        spec_ori_to_ccr(s)
    } else if inst == 0x007C {
        spec_ori_to_sr(s)
    } else {
        spec_ori(s, inst)
    }
}

/// ANDI to CCR: the immediate's low byte is and-ed into the flags.
pub open spec fn spec_andi_to_ccr(s: CpuState) -> (CpuState, Result<(), Fault>) {
    let (s1, r1) = spec_fetch_word(s);
    match r1 {
        Ok(w) => {
            let val = w & 0xFF;
            (
                CpuState { sr: (s1.sr & 0xFF00) | ((s1.sr & 0xFF) & val), ..s1 },
                Ok(()),
            )
        },
        Err(f) => (s1, Err(f)),
    }
}

/// ANDI to SR: privileged; the status register is and-ed with the masked
/// immediate.
pub open spec fn spec_andi_to_sr(s: CpuState) -> (CpuState, Result<(), Fault>) {
    if !spec_supervisor(s.sr) {
        spec_trap_vec(s, 0x20)
    } else {
        let (s1, r1) = spec_fetch_word(s);
        match r1 {
            Ok(w) => (CpuState { sr: s1.sr & (w & 0xA7FF), ..s1 }, Ok(())),
            Err(f) => (s1, Err(f)),
        }
    }
}

pub open spec fn spec_andi_family(s: CpuState, inst: u16) -> (CpuState, Result<(), Fault>) {
    if inst == 0x023C {
        spec_andi_to_ccr(s)
    } else if inst == 0x027C {
        spec_andi_to_sr(s)
    } else {
        (s, Err(Fault::Unimplemented))
    }
}

/// EORI to CCR: the immediate's low byte is exclusive-or-ed into the flags.
pub open spec fn spec_eori_to_ccr(s: CpuState) -> (CpuState, Result<(), Fault>) {
    let (s1, r1) = spec_fetch_word(s);
    match r1 {
        Ok(w) => {
            let val = w & 0xFF;
            (
                CpuState { sr: (s1.sr & 0xFF00) | ((s1.sr & 0xFF) ^ val), ..s1 },
                Ok(()),
            )
        },
        Err(f) => (s1, Err(f)),
    }
}

pub open spec fn spec_eori_to_sr(s: CpuState) -> (CpuState, Result<(), Fault>) {
    if !spec_supervisor(s.sr) {
        spec_trap_vec(s, 0x20)
    } else {
        let (s1, r1) = spec_fetch_word(s);
        match r1 {
            Ok(w) => (CpuState { sr: s1.sr ^ (w & 0xA7FF), ..s1 }, Ok(())),
            Err(f) => (s1, Err(f)),
        }
    }
}

/// EORI: an immediate exclusive-or-ed into the operand.
pub open spec fn spec_eori(s: CpuState, inst: u16) -> (CpuState, Result<(), Fault>) {
    let bits = spec_get_bits(inst, 6, 2);
    if bits == 3 || !ea_field_valid(inst) {
        spec_illegal(s)
    } else {
        let size = crate::util::spec_decode_size(bits, crate::util::SizeCoding::Pink);
        let ea = spec_decode_ea(inst);
        let (s1, r1) = spec_read_ea(s, ea, size);
        match r1 {
            Err(f) => (s1, Err(f)),
            Ok(v) => {
                let (s2, r2) = spec_fetch_imm(s1, size);
                match r2 {
                    Err(f) => (s2, Err(f)),
                    Ok(imm) => {
                        let res = imm ^ value_to_u32(v);
                        let (s3, r3) = spec_write_ea(s2, ea, size, Value::Long(res));
                        match r3 {
                            Err(f) => (s3, Err(f)),
                            Ok(_) => (
                                CpuState { sr: spec_flags_logic(s3.sr, res, size), ..s3 },
                                Ok(()),
                            ),
                        }
                    },
                }
            },
        }
    }
}

pub open spec fn spec_eori_family(s: CpuState, inst: u16) -> (CpuState, Result<(), Fault>) {
    if inst == 0x0A3C {
        spec_eori_to_ccr(s)
    } else if inst == 0x0A7C {
        spec_eori_to_sr(s)
    } else {
        spec_eori(s, inst)
    }
}

impl Cpu {
    fn fetch_imm(&mut self, size: Size) -> (r: Result<u32, Fault>)
        requires
            old(self).wf(),
        ensures
            final(self).wf(),
            (final(self)@, r) == spec_fetch_imm(old(self)@, size),
    {
        match size {
            Size::Byte => {
                let w = self.fetch_word()?;
                Ok((w & 0xFF) as u32)
            },
            Size::Word => {
                let w = self.fetch_word()?;
                Ok(w as u32)
            },
            Size::Long => self.fetch_long(),
        }
    }

    fn ori_to_ccr(&mut self) -> (r: Result<(), Fault>)
        requires
            old(self).wf(),
        ensures
            final(self).wf(),
            (final(self)@, r) == spec_ori_to_ccr(old(self)@),
    {
        let w = self.fetch_word()?;
        let val = w & 0xFF;
        let old_sr = self.read_sr();
        self.write_sr((old_sr & 0xFF00) | ((old_sr & 0xFF) | val));
        Ok(())
    }

    fn ori_to_sr(&mut self) -> (r: Result<(), Fault>)
        requires
            old(self).wf(),
        ensures
            final(self).wf(),
            (final(self)@, r) == spec_ori_to_sr(old(self)@),
    {
        if !self.is_supervisor_mode() {
            return self.trap_vec(Vector::PrivilegeViolation.offset());
        }
        let w = self.fetch_word()?;
        let old_sr = self.read_sr();
        self.write_sr(old_sr | (w & 0xA7FF));
        Ok(())
    }

    fn ori(&mut self, inst: u16) -> (r: Result<(), Fault>)
        requires
            old(self).wf(),
        ensures
            final(self).wf(),
            (final(self)@, r) == spec_ori(old(self)@, inst),
    {
        let size = match self.size_pink(get_bits(inst, 6, 2)) {
            Some(size) => size,
            None => {
                return self.illegal();
            },
        };
        if !AddressingMode::field_valid(inst) {
            return self.illegal();
        }
        let ea = AddressingMode::from(inst);
        let val = self.read_ea(ea, size)?;
        let imm = self.fetch_imm(size)?;
        let res = val.to_u32() | imm;
        self.write_ea(ea, size, Value::Long(res))?;
        self.set_flags_logic(res, size);
        Ok(())
    }

    pub(crate) fn ori_family(&mut self, inst: u16) -> (r: Result<(), Fault>)
        requires
            old(self).wf(),
        ensures
            final(self).wf(),
            (final(self)@, r) == spec_ori_family(old(self)@, inst),
    {
        if inst == 0b0000_0000_0011_1100 {
            self.ori_to_ccr()
        } else if inst == 0b0000_0000_0111_1100 {
            self.ori_to_sr()
        } else {
            self.ori(inst)
        }
    }

    fn andi_to_ccr(&mut self) -> (r: Result<(), Fault>)
        requires
            old(self).wf(),
        ensures
            final(self).wf(),
            (final(self)@, r) == spec_andi_to_ccr(old(self)@),
    {
        let w = self.fetch_word()?;
        let val = w & 0xFF;
        let old_sr = self.read_sr();
        self.write_sr((old_sr & 0xFF00) | ((old_sr & 0xFF) & val));
        Ok(())
    }

    fn andi_to_sr(&mut self) -> (r: Result<(), Fault>)
        requires
            old(self).wf(),
        ensures
            final(self).wf(),
            (final(self)@, r) == spec_andi_to_sr(old(self)@),
    {
        if !self.is_supervisor_mode() {
            return self.trap_vec(Vector::PrivilegeViolation.offset());
        }
        let w = self.fetch_word()?;
        let old_sr = self.read_sr();
        self.write_sr(old_sr & (w & 0xA7FF));
        Ok(())
    }

    pub(crate) fn andi_family(&mut self, inst: u16) -> (r: Result<(), Fault>)
        requires
            old(self).wf(),
        ensures
            final(self).wf(),
            (final(self)@, r) == spec_andi_family(old(self)@, inst),
    {
        if inst == 0b0000_0010_0011_1100 {
            self.andi_to_ccr()
        } else if inst == 0b0000_0010_0111_1100 {
            self.andi_to_sr()
        } else {
            Err(Fault::Unimplemented)
        }
    }

    fn eori_to_ccr(&mut self) -> (r: Result<(), Fault>)
        requires
            old(self).wf(),
        ensures
            final(self).wf(),
            (final(self)@, r) == spec_eori_to_ccr(old(self)@),
    {
        let w = self.fetch_word()?;
        let val = w & 0xFF;
        let old_sr = self.read_sr();
        self.write_sr((old_sr & 0xFF00) | ((old_sr & 0xFF) ^ val));
        Ok(())
    }

    fn eori_to_sr(&mut self) -> (r: Result<(), Fault>)
        requires
            old(self).wf(),
        ensures
            final(self).wf(),
            (final(self)@, r) == spec_eori_to_sr(old(self)@),
    {
        if !self.is_supervisor_mode() {
            return self.trap_vec(Vector::PrivilegeViolation.offset());
        }
        let w = self.fetch_word()?;
        let old_sr = self.read_sr();
        self.write_sr(old_sr ^ (w & 0xA7FF));
        Ok(())
    }

    fn eori(&mut self, inst: u16) -> (r: Result<(), Fault>)
        requires
            old(self).wf(),
        ensures
            final(self).wf(),
            (final(self)@, r) == spec_eori(old(self)@, inst),
    {
        let size = match self.size_pink(get_bits(inst, 6, 2)) {
            Some(size) => size,
            None => {
                return self.illegal();
            },
        };
        if !AddressingMode::field_valid(inst) {
            return self.illegal();
        }
        let ea = AddressingMode::from(inst);
        let val = self.read_ea(ea, size)?;
        let imm = self.fetch_imm(size)?;
        let res = imm ^ val.to_u32();
        self.write_ea(ea, size, Value::Long(res))?;
        self.set_flags_logic(res, size);
        Ok(())
    }

    pub(crate) fn eori_family(&mut self, inst: u16) -> (r: Result<(), Fault>)
        requires
            old(self).wf(),
        ensures
            final(self).wf(),
            (final(self)@, r) == spec_eori_family(old(self)@, inst),
    {
        if inst == 0b0000_1010_0011_1100 {
            self.eori_to_ccr()
        } else if inst == 0b0000_1010_0111_1100 {
            self.eori_to_sr()
        } else {
            self.eori(inst)
        }
    }
}

} // verus!
