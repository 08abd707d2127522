use vstd::prelude::*;

use crate::cpu::spec_set_ccr;
use crate::cpu::Cpu;
use crate::cpu::CpuState;
use crate::cpu::StatusRegister;
use crate::types::Size;
use crate::util::is_carry;
use crate::util::is_negative;
use crate::util::is_overflow;
use crate::util::is_zero;
use crate::util::spec_is_carry;
use crate::util::spec_is_negative;
use crate::util::spec_is_overflow;
use crate::util::spec_is_zero;

verus! {

/// Borrow out of a subtraction `a - b == res` at width `size`:
/// `(!sa & sb) | (!sa & sr) | (sb & sr)` over the three sign bits.
pub open spec fn spec_sub_carry(a: u32, b: u32, res: u32, size: Size) -> bool {
    let sa = spec_is_negative(a, size);
    let sb = spec_is_negative(b, size);
    let sr = spec_is_negative(res, size);
    (!sa && sb) || (!sa && sr) || (sb && sr)
}

pub fn sub_set_carry(a: u32, b: u32, res: u32, size: Size) -> (r: bool)
    ensures
        r == spec_sub_carry(a, b, res, size),
{
    let sa = is_negative(a, size);
    let sb = is_negative(b, size);
    let sr = is_negative(res, size);
    (!sa && sb) || (!sa && sr) || (sb && sr)
}

/// Signed overflow of a subtraction `a - b == res` at width `size`:
/// `(sa & !sb & !sr) | (!sa & sb & sr)` over the three sign bits.
pub open spec fn spec_sub_overflow(a: u32, b: u32, res: u32, size: Size) -> bool {
    let sa = spec_is_negative(a, size);
    let sb = spec_is_negative(b, size);
    let sr = spec_is_negative(res, size);
    (sa && !sb && !sr) || (!sa && sb && sr)
}

pub fn sub_set_overflow(a: u32, b: u32, res: u32, size: Size) -> (r: bool)
    ensures
        r == spec_sub_overflow(a, b, res, size),
{
    let sa = is_negative(a, size);
    let sb = is_negative(b, size);
    let sr = is_negative(res, size);
    (sa && !sb && !sr) || (!sa && sb && sr)
}

/// Flags after a move or logical operation: N and Z follow the result at its
/// width, V and C are cleared, X keeps its value.
pub open spec fn spec_flags_logic(sr: u16, res: u32, size: Size) -> u16 {
    let s1 = spec_set_ccr(sr, StatusRegister::N, spec_is_negative(res, size));
    let s2 = spec_set_ccr(s1, StatusRegister::Z, spec_is_zero(res, size));
    let s3 = spec_set_ccr(s2, StatusRegister::V, false);
    spec_set_ccr(s3, StatusRegister::C, false)
}

/// Flags after an addition: X and C take the carry, N and Z follow the
/// result at its width, V the signed overflow.
pub open spec fn spec_flags_add(sr: u16, val1: u32, val2: u32, res: u32, size: Size) -> u16 {
    let s1 = spec_set_ccr(sr, StatusRegister::X, spec_is_carry(val1, val2, res, size));
    let s2 = spec_set_ccr(s1, StatusRegister::C, spec_is_carry(val1, val2, res, size));
    let s3 = spec_set_ccr(s2, StatusRegister::N, spec_is_negative(res, size));
    let s4 = spec_set_ccr(s3, StatusRegister::Z, spec_is_zero(res, size));
    spec_set_ccr(s4, StatusRegister::V, spec_is_overflow(val1, val2, res, size))
}

/// Flags after a subtraction `val1 - val2 == res`: X and C take the borrow,
/// N and Z follow the result at its width, V the signed overflow.
pub open spec fn spec_flags_sub(sr: u16, val1: u32, val2: u32, res: u32, size: Size) -> u16 {
    let s1 = spec_set_ccr(sr, StatusRegister::X, spec_sub_carry(val1, val2, res, size));
    let s2 = spec_set_ccr(s1, StatusRegister::C, spec_sub_carry(val1, val2, res, size));
    let s3 = spec_set_ccr(s2, StatusRegister::N, spec_is_negative(res, size));
    let s4 = spec_set_ccr(s3, StatusRegister::Z, spec_is_zero(res, size));
    spec_set_ccr(s4, StatusRegister::V, spec_sub_overflow(val1, val2, res, size))
}

/// Flags after a compare `val1 - val2 == res`: as a subtraction, but X keeps
/// its value.
pub open spec fn spec_flags_cmp(sr: u16, val1: u32, val2: u32, res: u32, size: Size) -> u16 {
    let s1 = spec_set_ccr(sr, StatusRegister::N, spec_is_negative(res, size));
    let s2 = spec_set_ccr(s1, StatusRegister::Z, spec_is_zero(res, size));
    let s3 = spec_set_ccr(s2, StatusRegister::V, spec_sub_overflow(val1, val2, res, size));
    spec_set_ccr(s3, StatusRegister::C, spec_sub_carry(val1, val2, res, size))
}

impl Cpu {
    pub(crate) fn set_flags_logic(&mut self, res: u32, size: Size)
        requires
            old(self).wf(),
        ensures
            final(self).wf(),
            final(self)@ == (CpuState {
                sr: spec_flags_logic(old(self)@.sr, res, size),
                ..old(self)@
            }),
    {
        let n = is_negative(res, size);
        let z = is_zero(res, size);
        self.write_ccr(StatusRegister::N, n);
        self.write_ccr(StatusRegister::Z, z);
        self.write_ccr(StatusRegister::V, false);
        self.write_ccr(StatusRegister::C, false);
    }

    pub(crate) fn set_flags_add(&mut self, val1: u32, val2: u32, res: u32, size: Size)
        requires
            old(self).wf(),
        ensures
            final(self).wf(),
            final(self)@ == (CpuState {
                sr: spec_flags_add(old(self)@.sr, val1, val2, res, size),
                ..old(self)@
            }),
    {
        let c = is_carry(val1, val2, res, size);
        let n = is_negative(res, size);
        let z = is_zero(res, size);
        let v = is_overflow(val1, val2, res, size);
        self.write_ccr(StatusRegister::X, c);
        self.write_ccr(StatusRegister::C, c);
        self.write_ccr(StatusRegister::N, n);
        self.write_ccr(StatusRegister::Z, z);
        self.write_ccr(StatusRegister::V, v);
    }

    pub(crate) fn set_flags_sub(&mut self, val1: u32, val2: u32, res: u32, size: Size)
        requires
            old(self).wf(),
        ensures
            final(self).wf(),
            final(self)@ == (CpuState {
                sr: spec_flags_sub(old(self)@.sr, val1, val2, res, size),
                ..old(self)@
            }),
    {
        let c = sub_set_carry(val1, val2, res, size);
        let n = is_negative(res, size);
        let z = is_zero(res, size);
        let v = sub_set_overflow(val1, val2, res, size);
        self.write_ccr(StatusRegister::X, c);
        self.write_ccr(StatusRegister::C, c);
        self.write_ccr(StatusRegister::N, n);
        self.write_ccr(StatusRegister::Z, z);
        self.write_ccr(StatusRegister::V, v);
    }

    pub(crate) fn set_flags_cmp(&mut self, val1: u32, val2: u32, res: u32, size: Size)
        requires
            old(self).wf(),
        ensures
            final(self).wf(),
            final(self)@ == (CpuState {
                sr: spec_flags_cmp(old(self)@.sr, val1, val2, res, size),
                ..old(self)@
            }),
    {
        let n = is_negative(res, size);
        let z = is_zero(res, size);
        let v = sub_set_overflow(val1, val2, res, size);
        let c = sub_set_carry(val1, val2, res, size);
        self.write_ccr(StatusRegister::N, n);
        self.write_ccr(StatusRegister::Z, z);
        self.write_ccr(StatusRegister::V, v);
        self.write_ccr(StatusRegister::C, c);
    }
}

} // verus!
