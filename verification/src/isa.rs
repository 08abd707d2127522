use vstd::prelude::*;

use crate::cpu::spec_fetch_word;
use crate::cpu::Cpu;
use crate::cpu::CpuState;
use crate::isa_add::spec_add_family;
use crate::isa_add::spec_addi;
use crate::isa_bit::spec_bit_family;
use crate::isa_branch::spec_branch_family;
use crate::isa_cmp::spec_cmp_family;
use crate::isa_div::spec_div_family;
use crate::isa_imm::spec_andi_family;
use crate::isa_imm::spec_eori_family;
use crate::isa_imm::spec_ori_family;
use crate::isa_mathq::spec_mathq_family;
use crate::isa_move::spec_move_family;
use crate::isa_move::spec_moveq;
use crate::isa_mul::spec_mul_family;
use crate::isa_rot::spec_rot_family;
use crate::isa_sub::spec_sub_family;
use crate::isa_util::spec_halt;
use crate::isa_util::spec_illegal;
use crate::isa_util::spec_util_family;
use crate::types::Fault;
use crate::util::get_bits;
use crate::util::spec_get_bits;

verus! {

/// The immediate and bit-manipulation family (top nibble zero).
pub open spec fn spec_zero_family(s: CpuState, inst: u16) -> (CpuState, Result<(), Fault>) {
    if spec_get_bits(inst, 8, 1) == 1 {
        spec_bit_family(s, inst)
    } else if 0x0800 <= inst && inst <= 0x08FF {
        spec_bit_family(s, inst)
    } else if inst <= 0x00BF {
        spec_ori_family(s, inst)
    } else if 0x0200 <= inst && inst <= 0x02FF {
        spec_andi_family(s, inst)
    } else if 0x0400 <= inst && inst <= 0x04FF {
        (s, Err(Fault::Unimplemented))
    } else if 0x0600 <= inst && inst <= 0x06FF {
        spec_addi(s, inst)
    } else if 0x0A00 <= inst && inst <= 0x0AFF {
        spec_eori_family(s, inst)
    } else {
        spec_illegal(s)
    }
}

/// Top-level decode: the top nibble of the opcode picks the family; the
/// all-ones word is the halt convention, and anything unassigned takes the
/// illegal-instruction trap.
pub open spec fn spec_exec(s: CpuState, inst: u16) -> (CpuState, Result<(), Fault>) {
    if inst <= 0x0FFF {
        spec_zero_family(s, inst)
    } else if inst <= 0x3FFF {
        spec_move_family(s, inst)
    } else if 0x40C0 <= inst && inst <= 0x4FFF {
        spec_util_family(s, inst)
    } else if 0x5000 <= inst && inst <= 0x5FCF {
        spec_mathq_family(s, inst)
    } else if 0x6000 <= inst && inst <= 0x6FFF {
        spec_branch_family(s, inst)
    } else if 0x7000 <= inst && inst <= 0x7EFF {
        spec_moveq(s, inst)
    } else if 0x80C0 <= inst && inst <= 0x8EFF {
        spec_div_family(s, inst)
    } else if 0x9000 <= inst && inst <= 0x9FFF {
        spec_sub_family(s, inst)
    } else if 0xB000 <= inst && inst <= 0xBFFF {
        spec_cmp_family(s, inst)
    } else if 0xC0C0 <= inst && inst <= 0xCEFF {
        spec_mul_family(s, inst)
    } else if 0xD000 <= inst && inst <= 0xDFFF {
        spec_add_family(s, inst)
    } else if 0xE000 <= inst && inst <= 0xEFFF {
        spec_rot_family(s, inst)
    } else if inst == 0xFFFF {
        (spec_halt(s), Ok(()))
    } else {
        spec_illegal(s)
    }
}

/// One fetch-decode-execute cycle: the opcode word at PC is consumed, then
/// its family handler transforms the state.
#[verifier::opaque]
pub open spec fn spec_step(s: CpuState) -> (CpuState, Result<(), Fault>) {
    let (s1, r1) = spec_fetch_word(s);
    match r1 {
        Ok(inst) => spec_exec(s1, inst),
        Err(f) => (s1, Err(f)),
    }
}

/// The machine after `n` fault-free steps; a fault within them ends the
/// iteration with that fault.
#[verifier::opaque]
pub open spec fn spec_step_n(s: CpuState, n: nat) -> (CpuState, Result<(), Fault>)
    decreases n,
{
    if n == 0 {
        (s, Ok(()))
    } else {
        let (s1, r1) = spec_step(s);
        match r1 {
            Ok(_) => spec_step_n(s1, (n - 1) as nat),
            Err(f) => (s1, Err(f)),
        }
    }
}

/// Running one step after `n` good ones is the same as running `n + 1`.
proof fn lemma_step_n_snoc(s: CpuState, n: nat)
    requires
        spec_step_n(s, n).1 is Ok,
    ensures
        ({
            let s_n = spec_step_n(s, n).0;
            let (s2, r2) = spec_step(s_n);
            spec_step_n(s, n + 1) == match r2 {
                Ok(_) => (s2, Ok::<(), Fault>(())),
                Err(f) => (s2, Err(f)),
            }
        }),
    decreases n,
{
    reveal(spec_step_n);
    if n == 0 {
        let (s1, r1) = spec_step(s);
        match r1 {
            Ok(_) => {
                assert(spec_step_n(s1, 0) == (s1, Ok::<(), Fault>(())));
            },
            Err(_) => {},
        }
    } else {
        let (s1, r1) = spec_step(s);
        assert(r1 is Ok);
        lemma_step_n_snoc(s1, (n - 1) as nat);
    }
}

/// Once the step chain has failed, every longer iteration reports the same
/// failure from the same state.
proof fn lemma_step_n_error_persists(s: CpuState, m: nat, n: nat)
    requires
        m <= n,
        spec_step_n(s, m).1 is Err,
    ensures
        spec_step_n(s, n) == spec_step_n(s, m),
    decreases m,
{
    reveal(spec_step_n);
    if m == 0 {
        assert(false);
    } else {
        let (s1, r1) = spec_step(s);
        match r1 {
            Ok(_) => {
                lemma_step_n_error_persists(s1, (m - 1) as nat, (n - 1) as nat);
            },
            Err(_) => {},
        }
    }
}

/// What a finished driver loop reports: a clean halt after some number of
/// steps, a stall with the machine still running, or the fault of the step
/// that stopped it.
pub open spec fn spec_run_outcome(s0: CpuState, s_end: CpuState, r: Result<(), Fault>, n: nat) -> bool {
    let (s2, r2) = spec_step_n(s0, n);
    s_end == s2 && (match r {
        Ok(_) => r2 is Ok && s2.halted,
        Err(f) => r2 == Err::<(), Fault>(f) || (f == Fault::Stalled && r2 is Ok && !s2.halted),
    })
}

impl Cpu {
    pub fn zero_family(&mut self, inst: u16) -> (r: Result<(), Fault>)
        requires
            old(self).wf(),
        ensures
            final(self).wf(),
            (final(self)@, r) == spec_zero_family(old(self)@, inst),
    {
        if get_bits(inst, 8, 1) == 1 {
            self.bit_family(inst)
        } else if 0x0800 <= inst && inst <= 0x08FF {
            self.bit_family(inst)
        } else if inst <= 0x00BF {
            self.ori_family(inst)
        } else if 0x0200 <= inst && inst <= 0x02FF {
            self.andi_family(inst)
        } else if 0x0400 <= inst && inst <= 0x04FF {
            Err(Fault::Unimplemented)
        } else if 0x0600 <= inst && inst <= 0x06FF {
            self.addi(inst)
        } else if 0x0A00 <= inst && inst <= 0x0AFF {
            self.eori_family(inst)
        } else {
            self.illegal()
        }
    }

    pub(crate) fn exec(&mut self, inst: u16) -> (r: Result<(), Fault>)
        requires
            old(self).wf(),
        ensures
            final(self).wf(),
            (final(self)@, r) == spec_exec(old(self)@, inst),
    {
        if inst <= 0x0FFF {
            self.zero_family(inst)
        } else if inst <= 0x3FFF {
            self.move_family(inst)
        } else if 0x40C0 <= inst && inst <= 0x4FFF {
            self.util_family(inst)
        } else if 0x5000 <= inst && inst <= 0x5FCF {
            self.mathq_family(inst)
        } else if 0x6000 <= inst && inst <= 0x6FFF {
            self.branch_family(inst)
        } else if 0x7000 <= inst && inst <= 0x7EFF {
            self.moveq(inst)
        } else if 0x80C0 <= inst && inst <= 0x8EFF {
            self.div_family(inst)
        } else if 0x9000 <= inst && inst <= 0x9FFF {
            self.sub_family(inst)
        } else if 0xB000 <= inst && inst <= 0xBFFF {
            self.cmp_family(inst)
        } else if 0xC0C0 <= inst && inst <= 0xCEFF {
            self.mul_family(inst)
        } else if 0xD000 <= inst && inst <= 0xDFFF {
            self.add_family(inst)
        } else if 0xE000 <= inst && inst <= 0xEFFF {
            self.rot_family(inst)
        } else if inst == 0xFFFF {
            self.halt();
            Ok(())
        } else {
            self.illegal()
        }
    }

    /// Execute exactly one instruction.
    pub fn step(&mut self) -> (r: Result<(), Fault>)
        requires
            old(self).wf(),
        ensures
            final(self).wf(),
            (final(self)@, r) == spec_step(old(self)@),
    {
        proof {
            reveal(spec_step);
        }
        let inst = self.fetch_word()?;
        self.exec(inst)
    }

    /// Drive the fetch-decode-execute loop until the halt convention runs or
    /// a fault stops the machine.  An enormous step budget bounds the loop;
    /// a program that exhausts it reports the machine as stalled.
    #[verifier::rlimit(100)]
    pub fn run(&mut self) -> (r: Result<(), Fault>)
        requires
            old(self).wf(),
        ensures
            final(self).wf(),
            r matches Ok(_) ==> final(self)@.halted,
            exists|n: nat| spec_run_outcome(old(self)@, final(self)@, r, n),
            r == Err::<(), Fault>(Fault::Stalled) ==> spec_run_outcome(
                old(self)@,
                final(self)@,
                r,
                0xFFFF_FFFF_FFFF_FFFF as nat,
            ),
    {
        let mut budget: u64 = 0xFFFF_FFFF_FFFF_FFFF;
        let ghost mut k: nat = 0;
        proof {
            reveal(spec_step_n);
            assert(spec_step_n(self@, 0) == (self@, Ok::<(), Fault>(())));
        }
        while !self.halted && budget > 0
            invariant
                self.wf(),
                spec_step_n(old(self)@, k) == (self@, Ok::<(), Fault>(())),
                k + budget == 0xFFFF_FFFF_FFFF_FFFF,
            decreases budget,
        {
            proof {
                lemma_step_n_snoc(old(self)@, k);
            }
            match self.step() {
                Ok(_) => {
                    proof {
                        k = k + 1;
                    }
                },
                Err(f) => {
                    proof {
                        assert(spec_run_outcome(old(self)@, self@, Err(f), k + 1));
                        if f == Fault::Stalled {
                            lemma_step_n_error_persists(
                                old(self)@,
                                k + 1,
                                0xFFFF_FFFF_FFFF_FFFF as nat,
                            );
                            assert(spec_run_outcome(
                                old(self)@,
                                self@,
                                Err(f),
                                0xFFFF_FFFF_FFFF_FFFF as nat,
                            ));
                        }
                    }
                    return Err(f);
                },
            }
            budget = budget - 1;
        }
        if self.halted {
            proof {
                assert(spec_run_outcome(old(self)@, self@, Ok(()), k));
            }
            Ok(())
        } else {
            proof {
                assert(k == 0xFFFF_FFFF_FFFF_FFFF as nat);
                assert(spec_run_outcome(old(self)@, self@, Err(Fault::Stalled), k));
            }
            Err(Fault::Stalled)
        }
    }
}

} // verus!
