//! The machine: one hart composed with one bus, and the run loop.

use vstd::prelude::*;

use crate::memory::mmap::Mmap;
use crate::processor::core_view;
use crate::processor::exception::Trap;
use crate::processor::hart::Hart;
use crate::processor::semantics::{run_steps, CoreView};
use crate::processor::Cpu;

verus! {

/// One hart and the bus it executes against.
#[derive(Debug)]
pub struct Machine {
    cpu: Hart,
    bus: Mmap,
}

impl Machine {
    /// The machine's hart.
    pub closed spec fn cpu_spec(&self) -> Hart {
        self.cpu
    }

    /// The machine's bus.
    pub closed spec fn bus_spec(&self) -> Mmap {
        self.bus
    }

    /// Compose a hart with a bus.
    pub fn new(cpu: Hart, bus: Mmap) -> (r: Machine)
        ensures
            r.cpu_spec() == cpu,
            r.bus_spec() == bus,
    {
        Machine { cpu, bus }
    }

    /// Borrow the hart, to report its state when a trap ends the run.
    pub fn cpu(&self) -> (r: &Hart)
        ensures
            *r == self.cpu_spec(),
    {
        &self.cpu
    }

    /// The architectural state the machine currently denotes.
    pub open spec fn state(&self) -> CoreView {
        core_view(self.cpu_spec(), self.bus_spec())
    }

    /// Run the fetch-decode-execute loop until a step traps, or until
    /// `max_steps` instructions have been executed without one. A trap ends
    /// the run with `Err`; `Ok` means the budget ran out first, and the
    /// caller may simply run on. The state reached and the outcome are
    /// exactly those of `run_steps`.
    pub fn start(&mut self, max_steps: u64) -> (r: Result<(), Trap>)
        requires
            old(self).cpu_spec().wf(),
        ensures
            final(self).cpu_spec().wf(),
            (final(self).state(), r) == run_steps(old(self).state(), max_steps as nat),
    {
        let mut left = max_steps;
        while left > 0
            invariant
                self.cpu_spec().wf(),
                run_steps(old(self).state(), max_steps as nat) == run_steps(
                    self.state(),
                    left as nat,
                ),
            decreases left,
        {
            match self.cpu.step(&mut self.bus) {
                Ok(u) => {
                },
                Err(t) => {
                    return Err(t);
                },
            }
            left = left - 1;
        }
        Ok(())
    }
}

} // verus!
