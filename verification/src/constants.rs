use vstd::prelude::*;

verus! {

/// Exception vectors this core raises.  Each names a 32-bit entry in the
/// vector table; `offset` is its byte address, vector number times four.
/// `Trap` is the base of the sixteen TRAP #n vectors (numbers 32 to 47).
#[derive(Debug, Copy, Clone, PartialEq, Eq, Structural)]
pub enum Vector {
    IllegalInstruction,
    Chk,
    PrivilegeViolation,
    Trap,
}

pub open spec fn spec_vector_offset(v: Vector) -> u32 {
    match v {
        Vector::IllegalInstruction => 0x10,
        Vector::Chk => 0x18,
        Vector::PrivilegeViolation => 0x20,
        Vector::Trap => 0x80,
    }
}

impl Vector {
    pub fn offset(self) -> (r: u32)
        ensures
            r == spec_vector_offset(self),
    {
        match self {
            Vector::IllegalInstruction => 0x10,
            Vector::Chk => 0x18,
            Vector::PrivilegeViolation => 0x20,
            Vector::Trap => 0x80,
        }
    }
}

} // verus!
