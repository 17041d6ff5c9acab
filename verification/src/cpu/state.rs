//! A read-only snapshot of the processor's observable state, for display,
//! debugging and external inspection.

use vstd::prelude::*;

verus! {

/// Snapshot of every register, flag and counter at a point in time.
///
/// The current-interrupt-level slot is reserved: the interrupt system is
/// not implemented and the field is always absent.
#[derive(Debug, Clone, PartialEq, Eq)]
pub struct CpuState {
    /// Accumulator.
    pub acc: u16,
    /// Extension register.
    pub ext: u16,
    /// Instruction address register (program counter).
    pub iar: u16,
    /// Index register 1.
    pub xr1: u16,
    /// Index register 2.
    pub xr2: u16,
    /// Index register 3.
    pub xr3: u16,
    /// Carry flag.
    pub carry: bool,
    /// Overflow flag.
    pub overflow: bool,
    /// Wait flag (processor halted).
    pub wait: bool,
    /// Number of instructions executed.
    pub instruction_count: u64,
    /// Reserved: interrupt level being serviced, always absent.
    pub current_interrupt_level: Option<u8>,
}

impl CpuState {
    /// Creates a zeroed snapshot.
    pub fn new() -> (r: CpuState)
        ensures
            r == CpuState::spec_zero(),
    {
        CpuState {
            acc: 0,
            ext: 0,
            iar: 0,
            xr1: 0,
            xr2: 0,
            xr3: 0,
            carry: false,
            overflow: false,
            wait: false,
            instruction_count: 0,
            current_interrupt_level: None,
        }
    }

    /// The all-zero snapshot.
    pub open spec fn spec_zero() -> CpuState {
        CpuState {
            acc: 0u16,
            ext: 0u16,
            iar: 0u16,
            xr1: 0u16,
            xr2: 0u16,
            xr3: 0u16,
            carry: false,
            overflow: false,
            wait: false,
            instruction_count: 0u64,
            current_interrupt_level: None,
        }
    }

    /// The accumulator and extension combined into one 32-bit value, the
    /// accumulator in the high half.
    pub fn acc_ext(&self) -> (r: u32)
        ensures
            r == self.acc * 0x10000 + self.ext,
    {
        (self.acc as u32) * 0x10000 + (self.ext as u32)
    }

    /// Whether the processor is halted.
    pub fn is_halted(&self) -> (r: bool)
        ensures
            r == self.wait,
    {
        self.wait
    }

    /// Whether carry or overflow is set.
    pub fn has_status_flags(&self) -> (r: bool)
        ensures
            r == (self.carry || self.overflow),
    {
        self.carry || self.overflow
    }
}

} // verus!
