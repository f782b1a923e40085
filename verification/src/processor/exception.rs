//! Traps raised by the processor core.

use vstd::prelude::*;

verus! {

/// A synchronous exceptional condition that terminates the run.
///
/// The core generates `IllegalInstruction` and, through the `Memory`
/// variant, the bus traps. The remaining kinds preserve the RISC-V trap
/// taxonomy for a future privileged-mode extension; nothing here produces
/// them.
#[derive(Clone, Copy, Debug, PartialEq, Eq, Structural)]
pub enum Trap {
    /// No executor's predicate matched the fetched encoding.
    IllegalInstruction { inst: u32 },
    Breakpoint { addr: u64 },
    UserEcall,
    SupervisorEcall,
    VirtualSupervisorEcall,
    MachineEcall,
    FetchPageFault { addr: u64 },
    LoadPageFault { addr: u64 },
    StorePageFault { addr: u64 },
    DoubleTrap,
    SoftwareCheckFault,
    HardwareErrorFault,
    FetchGuestPageFault { addr: u64 },
    LoadGuestPageFault { addr: u64 },
    VirtualInstruction,
    StoreGuestPageFault { addr: u64 },
    /// An alignment or region violation reported by the bus.
    Memory(crate::memory::exception::Trap),
}

} // verus!
