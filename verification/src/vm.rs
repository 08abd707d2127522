use vstd::prelude::*;

use crate::cpu::spec_ccr;
use crate::cpu::spec_with_active_sp;
use crate::cpu::Cpu;
use crate::cpu::CpuState;
use crate::cpu::StatusRegister;
use crate::isa::spec_run_outcome;
use crate::isa::spec_step;
use crate::mmu::RAM_SIZE;
use crate::types::Fault;

verus! {

/// The virtual machine: the processor together with the small amount of
/// bookkeeping its drivers keep (a memory-view cursor).
pub struct VM {
    pub cpu: Cpu,
    pub mem_cursor: usize,
    pub inst_time: u128,
}

impl View for VM {
    type V = CpuState;

    open spec fn view(&self) -> CpuState {
        self.cpu@
    }
}

impl VM {
    pub open spec fn wf(&self) -> bool {
        self.cpu.wf()
    }

    pub fn new() -> (r: Self)
        ensures
            r.wf(),
            r.mem_cursor == 0,
            r.inst_time == 1,
            r@.sr == 0x2000,
            r@.pc == 0,
            forall|i: int| 0 <= i < 8 ==> r@.dr[i] == 0,
            forall|i: int| 0 <= i < 7 ==> r@.ar[i] == 0,
            r@.usp == 0x00FF0000,
            r@.ssp == 0x01000000,
            forall|i: int| 0 <= i < RAM_SIZE ==> r@.mem[i] == 0,
            r@.out.len() == 0,
            !r@.halted,
    {
        Self { cpu: Cpu::default(), mem_cursor: 0, inst_time: 1 }
    }

    /// Copy a program image into memory starting at address 0.
    pub fn load(&mut self, rom: &[u8])
        requires
            old(self).wf(),
            rom@.len() <= 0xFFFFFF,
        ensures
            final(self).wf(),
            final(self)@.mem.len() == old(self)@.mem.len(),
            forall|i: int|
                0 <= i < final(self)@.mem.len() ==> final(self)@.mem[i] == if i < rom@.len() {
                    rom@[i]
                } else {
                    old(self)@.mem[i]
                },
            final(self)@ == (CpuState { mem: final(self)@.mem, ..old(self)@ }),
    {
        self.cpu.load(rom);
    }

    /// Run until the program halts or the machine faults.
    pub fn run(&mut self) -> (r: Result<(), Fault>)
        requires
            old(self).wf(),
        ensures
            final(self).wf(),
            r matches Ok(_) ==> final(self)@.halted,
            exists|n: nat| spec_run_outcome(old(self)@, final(self)@, r, n),
            r == Err::<(), Fault>(Fault::Stalled) ==> spec_run_outcome(
                old(self)@,
                final(self)@,
                r,
                0xFFFF_FFFF_FFFF_FFFF as nat,
            ),
    {
        let r = self.cpu.run();
        proof {
            let n0 = choose|n: nat| spec_run_outcome(old(self).cpu@, self.cpu@, r, n);
            assert(spec_run_outcome(old(self)@, self@, r, n0));
        }
        r
    }

    /// Execute exactly one instruction.
    pub fn step(&mut self) -> (r: Result<(), Fault>)
        requires
            old(self).wf(),
        ensures
            final(self).wf(),
            (final(self)@, r) == spec_step(old(self)@),
    {
        self.cpu.step()
    }

    pub fn set_pc(&mut self, pc: u32)
        requires
            old(self).wf(),
        ensures
            final(self).wf(),
            final(self)@ == (CpuState { pc, ..old(self)@ }),
    {
        self.cpu.write_pc(pc);
    }

    /// Set the stack pointer that the current mode selects.
    pub fn set_sp(&mut self, sp: u32)
        requires
            old(self).wf(),
        ensures
            final(self).wf(),
            final(self)@ == spec_with_active_sp(old(self)@, sp),
    {
        self.cpu.write_sp(sp);
    }

    pub fn read_pc(&self) -> (r: u32)
        ensures
            r == self@.pc,
    {
        self.cpu.read_pc()
    }

    pub fn read_ccr(&self, sr: StatusRegister) -> (r: bool)
        ensures
            r == spec_ccr(self@.sr, sr),
    {
        self.cpu.read_ccr(sr)
    }

    pub fn read_ssp(&self) -> (r: u32)
        ensures
            r == self@.ssp,
    {
        self.cpu.read_ssp()
    }

    pub fn read_usp(&self) -> (r: u32)
        ensures
            r == self@.usp,
    {
        self.cpu.read_usp()
    }

    pub fn read_sr(&self) -> (r: u16)
        ensures
            r == self@.sr,
    {
        self.cpu.read_sr()
    }

    /// The whole memory image, for display.
    pub fn memory_slice(&self) -> (r: &[u8])
        ensures
            r@ == self@.mem,
    {
        self.cpu.mmu.get_slice()
    }

    /// The seven general address registers, for display.
    pub fn read_ar(&self) -> (r: &[u32])
        ensures
            r@ == self@.ar,
    {
        self.cpu.addr_registers.as_slice()
    }

    /// The eight data registers, for display.
    pub fn read_dr(&self) -> (r: &[u32])
        ensures
            r@ == self@.dr,
    {
        self.cpu.data_registers.as_slice()
    }
}

} // verus!
