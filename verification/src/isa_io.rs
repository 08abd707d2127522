use vstd::prelude::*;

use crate::cpu::spec_read_ar;
use crate::cpu::Cpu;
use crate::cpu::CpuState;
use crate::mmu::mask24;
use crate::mmu::RAM_SIZE;
use crate::types::Fault;

verus! {

/// Decimal digits of `n`, most significant first.
pub open spec fn spec_decimal(n: u32) -> Seq<u8>
    decreases n,
{
    if n < 10 {
        seq![(0x30 + n) as u8]
    } else {
        spec_decimal(n / 10).push((0x30 + n % 10) as u8)
    }
}

/// The textual form of `n` read as a 32-bit two's-complement number: a minus
/// sign and the digits of its magnitude.
pub open spec fn spec_signed_decimal(n: u32) -> Seq<u8> {
    if n < 0x80000000 {
        spec_decimal(n)
    } else {
        seq![0x2Du8] + spec_decimal(0u32.wrapping_sub(n))
    }
}

/// The byte `j` places past `addr`, the address wrapping as the scan walks.
pub open spec fn byte_past(mem: Seq<u8>, addr: u32, j: nat) -> u8 {
    mem[mask24(addr.wrapping_add(j as u32)) as int]
}

/// The bytes from `addr` up to (not including) the first zero byte; `fuel`
/// bounds the scan so that a memory image without a terminator ends it.
pub open spec fn spec_cstring(mem: Seq<u8>, addr: u32, fuel: nat) -> Seq<u8>
    decreases fuel,
{
    if fuel == 0 {
        Seq::empty()
    } else if mem[mask24(addr) as int] == 0 {
        Seq::empty()
    } else {
        seq![mem[mask24(addr) as int]] + spec_cstring(mem, addr.wrapping_add(1), (fuel - 1) as nat)
    }
}

/// The console trap's effect on the machine state: what the selected task
/// appends to the output buffer, and whether it halts the processor.
pub open spec fn spec_console_trap(s: CpuState) -> (CpuState, Result<(), Fault>) {
    let task = s.dr[0];
    if task == 3 {
        (
            CpuState { out: s.out + spec_signed_decimal(s.dr[1]).push(0x0A), ..s },
            Ok(()),
        )
    } else if task == 9 {
        (CpuState { pc: s.pc.wrapping_sub(2), halted: true, ..s }, Ok(()))
    } else if task == 13 {
        (
            CpuState {
                out: s.out + spec_cstring(s.mem, spec_read_ar(s, 1), RAM_SIZE as nat).push(0x0A),
                ..s
            },
            Ok(()),
        )
    } else if task == 14 {
        (
            CpuState {
                out: s.out + spec_cstring(s.mem, spec_read_ar(s, 1), RAM_SIZE as nat),
                ..s
            },
            Ok(()),
        )
    } else {
        (s, Err(Fault::Unimplemented))
    }
}

impl Cpu {
    /// Append the decimal digits of `n` to the console buffer.
    fn print_decimal(&mut self, n: u32)
        requires
            old(self).wf(),
        ensures
            final(self).wf(),
            final(self)@ == (CpuState { out: old(self)@.out + spec_decimal(n), ..old(self)@ }),
        decreases n,
    {
        if n >= 10 {
            self.print_decimal(n / 10);
        }
        self.console.push(0x30 + (n % 10) as u8);
        proof {
            if n < 10 {
                assert(old(self)@.out + spec_decimal(n) =~= self@.out);
            } else {
                assert(old(self)@.out + spec_decimal(n) =~= self@.out);
            }
            assert(self@ =~= (CpuState { out: old(self)@.out + spec_decimal(n), ..old(self)@ }));
        }
    }

    /// TRAP #15, task 3: the signed number in D1, in decimal, as one line.
    pub(crate) fn display_signed_int(&mut self)
        requires
            old(self).wf(),
        ensures
            final(self).wf(),
            final(self)@ == (CpuState {
                out: old(self)@.out + spec_signed_decimal(old(self)@.dr[1]).push(0x0A),
                ..old(self)@
            }),
    {
        let num = self.read_dr(1);
        if num >= 0x80000000 {
            self.console.push(0x2D);
            self.print_decimal(0u32.wrapping_sub(num));
        } else {
            self.print_decimal(num);
        }
        self.console.push(0x0A);
        proof {
            assert(self@ =~= (CpuState {
                out: old(self)@.out + spec_signed_decimal(old(self)@.dr[1]).push(0x0A),
                ..old(self)@
            }));
        }
    }

    /// TRAP #15, tasks 13 and 14: the zero-terminated string at the address
    /// in A1, copied to the console buffer.
    pub(crate) fn print_string_terminated(&mut self)
        requires
            old(self).wf(),
        ensures
            final(self).wf(),
            final(self)@ == (CpuState {
                out: old(self)@.out + spec_cstring(
                    old(self)@.mem,
                    spec_read_ar(old(self)@, 1),
                    RAM_SIZE as nat,
                ),
                ..old(self)@
            }),
    {
        let start = self.read_ar(1);
        let ghost mem = self@.mem;
        proof {
            assert(old(self)@.out + spec_cstring(mem, start, 0) =~= old(self)@.out);
            assert(self@ =~= (CpuState {
                out: old(self)@.out + spec_cstring(mem, start, 0),
                ..old(self)@
            }));
        }
        let mut i: usize = 0;
        while i < RAM_SIZE
            invariant
                self.wf(),
                i <= RAM_SIZE,
                self@ == (CpuState {
                    out: old(self)@.out + spec_cstring(mem, start, i as nat),
                    ..old(self)@
                }),
                mem == self@.mem,
                start == spec_read_ar(old(self)@, 1),
                forall|j: nat| j < i ==> byte_past(mem, start, j) != 0,
            decreases RAM_SIZE - i,
        {
            let addr = start.wrapping_add(i as u32);
            let byte = self.mmu.read_byte(addr);
            proof {
                assert(byte == byte_past(mem, start, i as nat));
            }
            if byte == 0 {
                proof {
                    lemma_cstring_stops(mem, start, i as nat, RAM_SIZE as nat);
                }
                return ;
            }
            self.console.push(byte);
            proof {
                lemma_cstring_extends(mem, start, i as nat);
                assert(self@.out =~= old(self)@.out + spec_cstring(mem, start, (i + 1) as nat));
            }
            i = i + 1;
        }
        proof {
            assert(i == RAM_SIZE);
        }
    }

    /// TRAP #15, task 9: stop the machine.
    pub(crate) fn io_halt(&mut self)
        requires
            old(self).wf(),
        ensures
            final(self).wf(),
            final(self)@ == (CpuState {
                pc: old(self)@.pc.wrapping_sub(2),
                halted: true,
                ..old(self)@
            }),
    {
        self.halt()
    }

    /// TRAP #15: D0 selects a console task; unknown tasks are faults.
    pub(crate) fn console_trap(&mut self) -> (r: Result<(), Fault>)
        requires
            old(self).wf(),
        ensures
            final(self).wf(),
            (final(self)@, r) == spec_console_trap(old(self)@),
    {
        let task = self.read_dr(0);
        if task == 3 {
            self.display_signed_int();
            Ok(())
        } else if task == 9 {
            self.io_halt();
            Ok(())
        } else if task == 13 {
            self.print_string_terminated();
            self.console.push(0x0A);
            proof {
                assert(self@ =~= (CpuState {
                    out: old(self)@.out + spec_cstring(
                        old(self)@.mem,
                        spec_read_ar(old(self)@, 1),
                        RAM_SIZE as nat,
                    ).push(0x0A),
                    ..old(self)@
                }));
            }
            Ok(())
        } else if task == 14 {
            self.print_string_terminated();
            Ok(())
        } else {
            Err(Fault::Unimplemented)
        }
    }
}

/// A scan that found no zero byte in `i` steps and stops there reads the same
/// string as any longer scan whose next byte is zero.
proof fn lemma_cstring_stops(mem: Seq<u8>, start: u32, i: nat, fuel: nat)
    requires
        i <= 0x1000000,
        i < fuel,
        mem[mask24(start.wrapping_add(i as u32)) as int] == 0,
        forall|j: nat| j < i ==> byte_past(mem, start, j) != 0,
    ensures
        spec_cstring(mem, start, fuel) == spec_cstring(mem, start, i),
    decreases i,
{
    if i == 0 {
        assert(start.wrapping_add(0u32) == start);
    } else {
        assert(byte_past(mem, start, 0) != 0);
        assert(start.wrapping_add(0u32) == start);
        assert forall|j: nat| j < (i - 1) as nat implies byte_past(
            mem,
            start.wrapping_add(1u32),
            j,
        ) != 0 by {
            assert(start.wrapping_add(1u32).wrapping_add(j as u32) == start.wrapping_add(
                (j + 1) as u32,
            ));
            assert(byte_past(mem, start, (j + 1) as nat) != 0);
        }
        assert(start.wrapping_add(1u32).wrapping_add((i - 1) as u32) == start.wrapping_add(
            i as u32,
        ));
        lemma_cstring_stops(mem, start.wrapping_add(1u32), (i - 1) as nat, (fuel - 1) as nat);
    }
}

/// Extending a scan past one more non-zero byte appends that byte.
proof fn lemma_cstring_extends(mem: Seq<u8>, start: u32, i: nat)
    requires
        i <= 0x1000000,
        forall|j: nat| j <= i ==> byte_past(mem, start, j) != 0,
    ensures
        spec_cstring(mem, start, i + 1) == spec_cstring(mem, start, i).push(
            mem[mask24(start.wrapping_add(i as u32)) as int],
        ),
    decreases i,
{
    assert(start.wrapping_add(0u32) == start);
    assert(byte_past(mem, start, 0) != 0);
    if i == 0 {
        assert(spec_cstring(mem, start.wrapping_add(1u32), 0) =~= Seq::<u8>::empty());
        assert(spec_cstring(mem, start, 1) =~= Seq::empty().push(mem[mask24(start) as int]));
    } else {
        assert forall|j: nat| j <= (i - 1) as nat implies byte_past(
            mem,
            start.wrapping_add(1u32),
            j,
        ) != 0 by {
            assert(start.wrapping_add(1u32).wrapping_add(j as u32) == start.wrapping_add(
                (j + 1) as u32,
            ));
            assert(byte_past(mem, start, (j + 1) as nat) != 0);
        }
        let b0 = mem[mask24(start) as int];
        let tail = start.wrapping_add(1u32);
        lemma_cstring_extends(mem, tail, (i - 1) as nat);
        assert(tail.wrapping_add((i - 1) as u32) == start.wrapping_add(i as u32));
        assert(spec_cstring(mem, start, i + 1) == seq![b0] + spec_cstring(mem, tail, i));
        assert(spec_cstring(mem, start, i) == seq![b0] + spec_cstring(mem, tail, (i - 1) as nat));
        assert(spec_cstring(mem, tail, i) == spec_cstring(mem, tail, (i - 1) as nat).push(
            mem[mask24(start.wrapping_add(i as u32)) as int],
        ));
        assert(spec_cstring(mem, start, i + 1) =~= spec_cstring(mem, start, i).push(
            mem[mask24(start.wrapping_add(i as u32)) as int],
        ));
    }
}

} // verus!
