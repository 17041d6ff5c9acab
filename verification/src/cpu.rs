//! The central processing unit: registers, memory, attached devices, and
//! the fetch–decode–execute cycle.
//!
//! The machine's behaviour is stated as specification functions over an
//! abstract model ([`CpuModel`]): `spec_step` says what one instruction
//! step does, `spec_run` what a bounded run does, and the executable
//! `step` and `run` are proved to implement them exactly.

pub mod executor;
pub mod memory;
pub mod registers;
pub mod state;

pub use memory::Memory;
pub use registers::{IndexRegisters, StatusFlags};
pub use state::CpuState;

use vstd::prelude::*;

verus! {

use crate::cpu::executor::spec_execute;
use crate::cpu::memory::DEFAULT_MEMORY_WORDS;
use crate::cpu::registers::{spec_xr_get, spec_xr_set};
use crate::devices::{spec_device_code, spec_device_index, AttachedDevice, DeviceModel};
use crate::devices::lemma_device_index;
use crate::error::{spec_cpu_result, CpuError, CpuErrorModel};
use crate::instructions::{
    spec_decode, spec_ea, spec_is_long, spec_opcode_from_byte, spec_wadd16, InstructionInfo,
    OpCode,
};
use crate::error::InstructionError;

/// Abstract state of the whole machine: registers, flags, memory contents,
/// instruction counter and the attached devices.
pub struct CpuModel {
    /// Accumulator.
    pub acc: u16,
    /// Extension register.
    pub ext: u16,
    /// Instruction address register (program counter).
    pub iar: u16,
    /// The three index registers.
    pub xr: IndexRegisters,
    /// Carry, overflow and wait.
    pub flags: StatusFlags,
    /// Memory contents.
    pub mem: Seq<u16>,
    /// Number of instructions executed.
    pub instruction_count: u64,
    /// The attached devices, in attachment order.
    pub devices: Seq<DeviceModel>,
}

/// The processor: accumulator, extension, program counter, index
/// registers, status flags, memory, instruction counter and attached
/// devices.
pub struct Cpu {
    /// Accumulator.
    pub acc: u16,
    /// Extension register.
    pub ext: u16,
    /// Instruction address register (program counter).
    pub iar: u16,
    /// The three index registers.
    pub index_registers: IndexRegisters,
    /// Carry, overflow and wait.
    pub status_flags: StatusFlags,
    /// Main memory.
    pub memory: Memory,
    /// Number of instructions executed.
    pub instruction_count: u64,
    /// The attached devices, in attachment order.
    pub devices: Vec<AttachedDevice>,
}

impl View for Cpu {
    type V = CpuModel;

    open spec fn view(&self) -> CpuModel {
        CpuModel {
            acc: self.acc,
            ext: self.ext,
            iar: self.iar,
            xr: self.index_registers,
            flags: self.status_flags,
            mem: self.memory@,
            instruction_count: self.instruction_count,
            devices: self.devices@.map_values(|d: AttachedDevice| d@),
        }
    }
}

/// A machine model after `reset`: registers, flags and the counter are
/// zeroed; memory contents and devices are untouched.
pub open spec fn spec_reset(m: CpuModel) -> CpuModel {
    CpuModel {
        acc: 0u16,
        ext: 0u16,
        iar: 0u16,
        xr: IndexRegisters { xr1: 0u16, xr2: 0u16, xr3: 0u16 },
        flags: StatusFlags { carry: false, overflow: false, wait: false },
        instruction_count: 0u64,
        ..m
    }
}

/// A machine model after a bounds-checked write: the memory cell changes,
/// and a write to address 1, 2 or 3 also lands in the aliased index
/// register. Meaningful for an in-bounds address.
pub open spec fn spec_write_memory(m: CpuModel, address: int, value: u16) -> CpuModel {
    let xr = if address == 1 {
        IndexRegisters { xr1: value, ..m.xr }
    } else if address == 2 {
        IndexRegisters { xr2: value, ..m.xr }
    } else if address == 3 {
        IndexRegisters { xr3: value, ..m.xr }
    } else {
        m.xr
    };
    CpuModel { mem: m.mem.update(address, value), xr, ..m }
}

/// A machine model after an index register write through a tag: the
/// register changes, and its memory-mapped alias (address 1, 2 or 3)
/// changes with it when that address exists. Tag 0 and tags above 3 change
/// nothing.
pub open spec fn spec_set_index_register(m: CpuModel, tag: u8, value: u16) -> CpuModel {
    let m1 = CpuModel { xr: spec_xr_set(m.xr, tag, value), ..m };
    if 1 <= tag && tag <= 3 && (tag as int) < m.mem.len() {
        CpuModel { mem: m.mem.update(tag as int, value), ..m1 }
    } else {
        m1
    }
}

/// What an instruction fetch at the program counter yields: the first
/// word, and the second exactly for a long-format opcode. An unreadable
/// word is a memory violation; an undefined opcode byte is an invalid
/// instruction at the program counter.
pub open spec fn spec_fetch_words(m: CpuModel) -> Result<(u16, Option<u16>), CpuError> {
    if m.iar >= m.mem.len() {
        Err(CpuError::MemoryViolation(m.iar))
    } else {
        let w1 = m.mem[m.iar as int];
        match spec_opcode_from_byte((w1 / 256) as u8) {
            None => Err(CpuError::InvalidInstruction(m.iar)),
            Some(op) => {
                if spec_is_long(op) {
                    if m.iar + 1 < m.mem.len() {
                        Ok((w1, Some(m.mem[m.iar + 1])))
                    } else {
                        Err(CpuError::MemoryViolation((m.iar + 1) as u16))
                    }
                } else {
                    Ok((w1, None))
                }
            },
        }
    }
}

/// What fetching and decoding at the program counter yields; a decode
/// failure is reported as an invalid instruction at the program counter.
pub open spec fn spec_fetch_decode(m: CpuModel) -> Result<InstructionInfo, CpuError> {
    match spec_fetch_words(m) {
        Err(e) => Err(e),
        Ok((w1, w2)) => match spec_decode(w1, w2) {
            Ok(i) => Ok(i),
            Err(_) => Err(CpuError::InvalidInstruction(m.iar)),
        },
    }
}

/// What resolving an instruction's effective address against the machine
/// yields: the index register its tag selects feeds the resolution, and a
/// failed indirect read surfaces as the underlying memory violation.
pub open spec fn spec_cpu_ea(m: CpuModel, i: InstructionInfo) -> Result<u16, CpuError> {
    match spec_ea(i.tag, i.indirect, i.displacement, spec_xr_get(m.xr, i.tag), m.mem) {
        Ok(a) => Ok(a),
        Err(InstructionError::MemoryError(c)) => Err(c),
        Err(_) => Err(CpuError::InvalidInstruction(m.iar)),
    }
}

/// Whether the opcode is one of the index-register instructions, whose
/// tag names the operand register instead of joining the address
/// resolution.
pub open spec fn spec_is_index_op(op: OpCode) -> bool {
    op == OpCode::LDX || op == OpCode::STX || op == OpCode::MDX
}

/// The instruction counter after one more instruction, wrapping at the
/// 64-bit limit.
pub open spec fn spec_count_up(c: u64) -> u64 {
    if c == 0xFFFF_FFFF_FFFF_FFFFu64 {
        0u64
    } else {
        (c + 1) as u64
    }
}

/// What one processor step does. A halted machine refuses with
/// `WaitState` and stays put. Otherwise the instruction at the program
/// counter is fetched and decoded, its effective address resolved (with
/// the tag held out of the resolution for the index-register
/// instructions), the program counter advanced by the instruction's full
/// size, the instruction executed, and — on success — the instruction
/// counter raised. A failure leaves whatever the failing stage had
/// already changed.
pub open spec fn spec_step(m: CpuModel) -> (CpuModel, Result<(), CpuErrorModel>) {
    if m.flags.wait {
        (m, Err(CpuErrorModel::WaitState))
    } else {
        match spec_fetch_decode(m) {
            Err(e) => (m, Err(e@)),
            Ok(instr) => {
                let addr_instr = if spec_is_index_op(instr.opcode) {
                    InstructionInfo { tag: 0u8, ..instr }
                } else {
                    instr
                };
                match spec_cpu_ea(m, addr_instr) {
                    Err(e) => (m, Err(e@)),
                    Ok(ea) => {
                        let advanced = CpuModel {
                            iar: spec_wadd16(m.iar, instr.spec_size()),
                            ..m
                        };
                        let executed = spec_execute(advanced, instr, ea);
                        match executed.1 {
                            Ok(()) => (
                                CpuModel {
                                    instruction_count: spec_count_up(
                                        executed.0.instruction_count,
                                    ),
                                    ..executed.0
                                },
                                Ok(()),
                            ),
                            Err(e) => (executed.0, Err(e)),
                        }
                    },
                }
            },
        }
    }
}

/// What a bounded run does: steps are taken until `max` are done or one
/// step fails (a halt or a fault); the second component counts the steps
/// that succeeded.
pub open spec fn spec_run(m: CpuModel, max: u64) -> (CpuModel, u64)
    decreases max,
{
    if max == 0 {
        (m, 0u64)
    } else {
        let stepped = spec_step(m);
        if stepped.1 is Err {
            (stepped.0, 0u64)
        } else {
            let rest = spec_run(stepped.0, (max - 1) as u64);
            (rest.0, (rest.1 + 1) as u64)
        }
    }
}

/// Memory and the index registers alias: a write to any in-bounds address
/// reads back as the written word, and a write to address 1, 2 or 3 also
/// lands in the corresponding index register.
pub proof fn lemma_memory_write_read(m: CpuModel, a: int, v: u16)
    requires
        0 <= a < m.mem.len(),
    ensures
        spec_write_memory(m, a, v).mem[a] == v,
        a == 1 ==> spec_write_memory(m, a, v).xr.xr1 == v,
        a == 2 ==> spec_write_memory(m, a, v).xr.xr2 == v,
        a == 3 ==> spec_write_memory(m, a, v).xr.xr3 == v,
        forall|b: int| 0 <= b < m.mem.len() && b != a ==> spec_write_memory(m, a, v).mem[b]
            == m.mem[b],
{
}

/// The aliasing holds the other way round too: a write to index register
/// 1, 2 or 3 lands in its memory-mapped cell, whenever memory reaches
/// that far.
pub proof fn lemma_index_register_alias(m: CpuModel, tag: u8, v: u16)
    requires
        1 <= tag <= 3,
        (tag as int) < m.mem.len(),
    ensures
        spec_set_index_register(m, tag, v).mem[tag as int] == v,
        spec_xr_get(spec_set_index_register(m, tag, v).xr, tag) == v,
{
}

/// A halted machine refuses to step: the attempt fails as a wait-state
/// signal and nothing changes, the instruction counter included.
pub proof fn lemma_wait_refuses_step(m: CpuModel)
    requires
        m.flags.wait,
    ensures
        spec_step(m) == (m, Err::<(), CpuErrorModel>(CpuErrorModel::WaitState)),
        spec_step(m).0.instruction_count == m.instruction_count,
{
}

/// A bounded run never counts more steps than its bound.
pub proof fn lemma_run_count(m: CpuModel, max: u64)
    ensures
        spec_run(m, max).1 <= max,
    decreases max,
{
    if max > 0 {
        let stepped = spec_step(m);
        if !(stepped.1 is Err) {
            lemma_run_count(stepped.0, (max - 1) as u64);
        }
    }
}

impl Cpu {
    /// Creates a processor with the default memory size, everything
    /// zeroed and no devices attached.
    pub fn new() -> (r: Cpu)
        ensures
            r@ == spec_reset(r@),
            r@.mem.len() == DEFAULT_MEMORY_WORDS,
            forall|i: int| 0 <= i < r@.mem.len() ==> r@.mem[i] == 0u16,
            r@.devices.len() == 0,
    {
        Cpu::with_memory_size(DEFAULT_MEMORY_WORDS)
    }

    /// Creates a processor with `size` words of memory, everything zeroed
    /// and no devices attached.
    pub fn with_memory_size(size: usize) -> (r: Cpu)
        ensures
            r@ == spec_reset(r@),
            r@.mem.len() == size,
            forall|i: int| 0 <= i < r@.mem.len() ==> r@.mem[i] == 0u16,
            r@.devices.len() == 0,
    {
        let r = Cpu {
            acc: 0,
            ext: 0,
            iar: 0,
            index_registers: IndexRegisters::new(),
            status_flags: StatusFlags::new(),
            memory: Memory::with_size(size),
            instruction_count: 0,
            devices: Vec::new(),
        };
        proof {
            assert(r@.devices =~= Seq::<DeviceModel>::empty());
        }
        r
    }

    /// Zeroes every register, flag and the instruction counter; memory
    /// contents and attached devices stay as they are.
    pub fn reset(&mut self)
        ensures
            final(self)@ == spec_reset(old(self)@),
    {
        self.acc = 0;
        self.ext = 0;
        self.iar = 0;
        self.index_registers.reset();
        self.status_flags.reset();
        self.instruction_count = 0;
    }

    /// The observable state as a snapshot; the interrupt-level slot is
    /// reserved and always absent.
    pub fn get_state(&self) -> (r: CpuState)
        ensures
            r == (CpuState {
                acc: self@.acc,
                ext: self@.ext,
                iar: self@.iar,
                xr1: self@.xr.xr1,
                xr2: self@.xr.xr2,
                xr3: self@.xr.xr3,
                carry: self@.flags.carry,
                overflow: self@.flags.overflow,
                wait: self@.flags.wait,
                instruction_count: self@.instruction_count,
                current_interrupt_level: None::<u8>,
            }),
    {
        CpuState {
            acc: self.acc,
            ext: self.ext,
            iar: self.iar,
            xr1: self.index_registers.xr1,
            xr2: self.index_registers.xr2,
            xr3: self.index_registers.xr3,
            carry: self.status_flags.carry,
            overflow: self.status_flags.overflow,
            wait: self.status_flags.wait,
            instruction_count: self.instruction_count,
            current_interrupt_level: None,
        }
    }

    /// The accumulator.
    pub fn get_acc(&self) -> (r: u16)
        ensures
            r == self@.acc,
    {
        self.acc
    }

    /// Sets the accumulator.
    pub fn set_acc(&mut self, value: u16)
        ensures
            final(self)@ == (CpuModel { acc: value, ..old(self)@ }),
    {
        self.acc = value;
    }

    /// The extension register.
    pub fn get_ext(&self) -> (r: u16)
        ensures
            r == self@.ext,
    {
        self.ext
    }

    /// Sets the extension register.
    pub fn set_ext(&mut self, value: u16)
        ensures
            final(self)@ == (CpuModel { ext: value, ..old(self)@ }),
    {
        self.ext = value;
    }

    /// Accumulator and extension combined, the accumulator in the high
    /// half.
    pub fn get_acc_ext(&self) -> (r: u32)
        ensures
            r == self@.acc * 0x10000 + self@.ext,
    {
        (self.acc as u32) * 0x10000 + (self.ext as u32)
    }

    /// Splits a 32-bit value into the accumulator (high half) and the
    /// extension register (low half).
    pub fn set_acc_ext(&mut self, value: u32)
        ensures
            final(self)@ == (CpuModel {
                acc: (value / 0x10000) as u16,
                ext: (value % 0x10000) as u16,
                ..old(self)@
            }),
    {
        self.acc = (value / 0x10000) as u16;
        self.ext = (value % 0x10000) as u16;
    }

    /// The instruction address register.
    pub fn get_iar(&self) -> (r: u16)
        ensures
            r == self@.iar,
    {
        self.iar
    }

    /// Sets the instruction address register.
    pub fn set_iar(&mut self, value: u16)
        ensures
            final(self)@ == (CpuModel { iar: value, ..old(self)@ }),
    {
        self.iar = value;
    }

    /// Advances the instruction address register, wrapping at the 16-bit
    /// limit.
    pub fn increment_iar(&mut self, amount: u16)
        ensures
            final(self)@ == (CpuModel {
                iar: spec_wadd16(old(self)@.iar, amount),
                ..old(self)@
            }),
    {
        let sum: u32 = self.iar as u32 + amount as u32;
        self.iar = (sum % 0x10000) as u16;
    }

    /// Reads the index register a tag selects; tag 0 and invalid tags
    /// read as zero.
    pub fn get_index_register(&self, tag: u8) -> (r: u16)
        ensures
            r == spec_xr_get(self@.xr, tag),
    {
        self.index_registers.get(tag)
    }

    /// Writes the index register a tag selects and keeps its
    /// memory-mapped alias (address 1, 2 or 3) in step; tag 0 and invalid
    /// tags change nothing.
    pub fn set_index_register(&mut self, tag: u8, value: u16)
        ensures
            final(self)@ == spec_set_index_register(old(self)@, tag, value),
    {
        self.index_registers.set(tag, value);
        if 1 <= tag && tag <= 3 {
            let _ = self.memory.write(tag as usize, value);
        }
    }

    /// The carry flag.
    pub fn get_carry(&self) -> (r: bool)
        ensures
            r == self@.flags.carry,
    {
        self.status_flags.carry
    }

    /// Sets the carry flag.
    pub fn set_carry(&mut self, value: bool)
        ensures
            final(self)@ == (CpuModel {
                flags: StatusFlags { carry: value, ..old(self)@.flags },
                ..old(self)@
            }),
    {
        self.status_flags.carry = value;
    }

    /// The overflow flag.
    pub fn get_overflow(&self) -> (r: bool)
        ensures
            r == self@.flags.overflow,
    {
        self.status_flags.overflow
    }

    /// Sets the overflow flag.
    pub fn set_overflow(&mut self, value: bool)
        ensures
            final(self)@ == (CpuModel {
                flags: StatusFlags { overflow: value, ..old(self)@.flags },
                ..old(self)@
            }),
    {
        self.status_flags.overflow = value;
    }

    /// The wait flag.
    pub fn get_wait(&self) -> (r: bool)
        ensures
            r == self@.flags.wait,
    {
        self.status_flags.wait
    }

    /// Sets the wait flag.
    pub fn set_wait(&mut self, value: bool)
        ensures
            final(self)@ == (CpuModel {
                flags: StatusFlags { wait: value, ..old(self)@.flags },
                ..old(self)@
            }),
    {
        self.status_flags.wait = value;
    }

    /// Reads one memory word, bounds checked.
    pub fn read_memory(&self, address: usize) -> (r: Result<u16, CpuError>)
        ensures
            address < self@.mem.len() ==> r == Ok::<u16, CpuError>(self@.mem[address as int]),
            address >= self@.mem.len() ==> r == Err::<u16, CpuError>(
                CpuError::MemoryViolation(address as u16),
            ),
    {
        self.memory.read(address)
    }

    /// Writes one memory word, bounds checked; a write to address 1, 2 or
    /// 3 also lands in the aliased index register.
    pub fn write_memory(&mut self, address: usize, value: u16) -> (r: Result<(), CpuError>)
        ensures
            address < old(self)@.mem.len() ==> r == Ok::<(), CpuError>(()) && final(self)@
                == spec_write_memory(old(self)@, address as int, value),
            address >= old(self)@.mem.len() ==> r == Err::<(), CpuError>(
                CpuError::MemoryViolation(address as u16),
            ) && final(self)@ == old(self)@,
    {
        match self.memory.write(address, value) {
            Ok(()) => {
                if address == 1 {
                    self.index_registers.xr1 = value;
                } else if address == 2 {
                    self.index_registers.xr2 = value;
                } else if address == 3 {
                    self.index_registers.xr3 = value;
                }
                Ok(())
            },
            Err(e) => Err(e),
        }
    }

    /// Reads up to `count` words starting at `address`, stopping at the
    /// end of memory.
    pub fn read_memory_range(&self, address: usize, count: usize) -> (r: Vec<u16>)
        ensures
            r@ == Memory::spec_read_range(self@.mem, address as int, count as int),
    {
        self.memory.read_range(address, count)
    }

    /// Writes a block of words starting at `address`, bounds checked at
    /// the start and clipped at the end of memory; words landing on
    /// addresses 1, 2 and 3 also land in the aliased index registers.
    pub fn write_memory_range(&mut self, address: usize, values: &[u16]) -> (r: Result<
        (),
        CpuError,
    >)
        ensures
            address >= old(self)@.mem.len() ==> r == Err::<(), CpuError>(
                CpuError::MemoryViolation(address as u16),
            ) && final(self)@ == old(self)@,
            address < old(self)@.mem.len() ==> {
                &&& r == Ok::<(), CpuError>(())
                &&& final(self)@.mem.len() == old(self)@.mem.len()
                &&& forall|i: int|
                    0 <= i < old(self)@.mem.len() ==> final(self)@.mem[i] == (
                    if address <= i < address + values@.len() {
                        values@[i - address]
                    } else {
                        old(self)@.mem[i]
                    })
                &&& final(self)@.xr.xr1 == (if address <= 1 < address + values@.len() {
                    values@[1 - address]
                } else {
                    old(self)@.xr.xr1
                })
                &&& final(self)@.xr.xr2 == (if address <= 2 < address + values@.len() {
                    values@[2 - address]
                } else {
                    old(self)@.xr.xr2
                })
                &&& final(self)@.xr.xr3 == (if address <= 3 < address + values@.len() {
                    values@[3 - address]
                } else {
                    old(self)@.xr.xr3
                })
                &&& final(self)@ == (CpuModel {
                    mem: final(self)@.mem,
                    xr: final(self)@.xr,
                    ..old(self)@
                })
            },
    {
        match self.memory.write_range(address, values) {
            Ok(()) => {
                if address <= 1 && 1 - address < values.len() {
                    self.index_registers.xr1 = values[1 - address];
                }
                if address <= 2 && 2 - address < values.len() {
                    self.index_registers.xr2 = values[2 - address];
                }
                if address <= 3 && 3 - address < values.len() {
                    self.index_registers.xr3 = values[3 - address];
                }
                Ok(())
            },
            Err(e) => Err(e),
        }
    }

    /// The number of instructions executed so far.
    pub fn get_instruction_count(&self) -> (r: u64)
        ensures
            r == self@.instruction_count,
    {
        self.instruction_count
    }

    /// Counts one more executed instruction.
    pub fn increment_instruction_count(&mut self)
        ensures
            final(self)@ == (CpuModel {
                instruction_count: spec_count_up(old(self)@.instruction_count),
                ..old(self)@
            }),
    {
        if self.instruction_count == 0xFFFF_FFFF_FFFF_FFFFu64 {
            self.instruction_count = 0;
        } else {
            self.instruction_count = self.instruction_count + 1;
        }
    }

    /// Attaches a device; a second device with the same code is refused.
    pub fn attach_device(&mut self, device: AttachedDevice) -> (r: Result<(), CpuError>)
        ensures
            ({
                let idx = spec_device_index(old(self)@.devices, spec_device_code(device@));
                if idx == -1 {
                    &&& r == Ok::<(), CpuError>(())
                    &&& final(self)@ == (CpuModel {
                        devices: old(self)@.devices.push(device@),
                        ..old(self)@
                    })
                } else {
                    &&& r matches Err(CpuError::DeviceError(m)) && m@
                        == "Device code already attached"@
                    &&& final(self)@ == old(self)@
                }
            }),
    {
        proof {
            lemma_device_index(self@.devices, spec_device_code(device@));
        }
        let code = device.device_code();
        let n = self.devices.len();
        let mut i: usize = 0;
        while i < n
            invariant
                i <= n,
                n == self@.devices.len(),
                *self == *old(self),
                forall|j: int| 0 <= j < i ==> spec_device_code(self@.devices[j]) != code,
                code == spec_device_code(device@),
            decreases n - i,
        {
            if self.devices[i].device_code() == code {
                proof {
                    assert(self@.devices[i as int] == self.devices@[i as int]@);
                    assert(spec_device_code(self@.devices[i as int]) == code);
                    lemma_device_index(old(self)@.devices, code);
                    assert(spec_device_index(old(self)@.devices, code) != -1);
                }
                return Err(CpuError::DeviceError(String::from_str("Device code already attached")));
            }
            i = i + 1;
        }
        proof {
            lemma_device_index(old(self)@.devices, code);
        }
        self.devices.push(device);
        proof {
            assert(self@.devices =~= old(self)@.devices.push(device@));
        }
        Ok(())
    }

    /// Borrows the attached device carrying `code`, if one is attached.
    pub fn get_device_ref(&self, code: u8) -> (r: Option<&AttachedDevice>)
        ensures
            ({
                let idx = spec_device_index(self@.devices, code);
                if idx == -1 {
                    r is None
                } else {
                    r matches Some(d) && d@ == self@.devices[idx]
                }
            }),
    {
        proof {
            lemma_device_index(self@.devices, code);
        }
        let n = self.devices.len();
        let mut i: usize = 0;
        while i < n
            invariant
                i <= n,
                n == self@.devices.len(),
                forall|j: int| 0 <= j < i ==> spec_device_code(self@.devices[j]) != code,
            decreases n - i,
        {
            if self.devices[i].device_code() == code {
                proof {
                    assert(self@.devices[i as int] == self.devices@[i as int]@);
                    lemma_device_index(self@.devices, code);
                }
                return Some(&self.devices[i]);
            }
            i = i + 1;
        }
        proof {
            lemma_device_index(self@.devices, code);
        }
        None
    }

    /// Mutably borrows the attached device carrying `code`, if one is
    /// attached; what the caller does through the borrow becomes the
    /// device's new state.
    pub fn get_device_mut_ref(&mut self, code: u8) -> (r: Option<&mut AttachedDevice>)
        ensures
            ({
                let idx = spec_device_index(old(self)@.devices, code);
                if idx == -1 {
                    r is None && *final(self) == *old(self)
                } else {
                    &&& r is Some
                    &&& (*r.unwrap())@ == old(self)@.devices[idx]
                    &&& final(self)@ == (CpuModel {
                        devices: old(self)@.devices.update(idx, (*final(r.unwrap()))@),
                        ..old(self)@
                    })
                }
            }),
    {
        proof {
            lemma_device_index(self@.devices, code);
        }
        let n = self.devices.len();
        let mut i: usize = 0;
        while i < n
            invariant
                i <= n,
                n == self@.devices.len(),
                *self == *old(self),
                forall|j: int| 0 <= j < i ==> spec_device_code(self@.devices[j]) != code,
            decreases n - i,
        {
            if self.devices[i].device_code() == code {
                proof {
                    assert(self@.devices[i as int] == self.devices@[i as int]@);
                    lemma_device_index(old(self)@.devices, code);
                    assert forall|x: AttachedDevice| (#[trigger] self.devices@.update(
                        i as int,
                        x,
                    )).map_values(|d: AttachedDevice| d@) == self@.devices.update(
                        i as int,
                        x@,
                    ) by {
                        assert(self.devices@.update(i as int, x).map_values(
                            |d: AttachedDevice| d@,
                        ) =~= self@.devices.update(i as int, x@));
                    };
                }
                return Some(&mut self.devices[i]);
            }
            i = i + 1;
        }
        proof {
            lemma_device_index(old(self)@.devices, code);
        }
        None
    }

    /// Fetches the instruction word(s) at the program counter: one word,
    /// plus the second word exactly for a long-format opcode. The program
    /// counter does not move.
    pub fn fetch_instruction(&self) -> (r: Result<(u16, Option<u16>), CpuError>)
        ensures
            r == spec_fetch_words(self@),
    {
        let word1 = match self.read_memory(self.iar as usize) {
            Ok(w) => w,
            Err(e) => {
                return Err(e);
            },
        };
        let opcode = match OpCode::from_word(word1) {
            Ok(op) => op,
            Err(_) => {
                return Err(CpuError::InvalidInstruction(self.iar));
            },
        };
        if opcode.is_long_format() {
            match self.read_memory(self.iar as usize + 1) {
                Ok(w2) => Ok((word1, Some(w2))),
                Err(e) => Err(e),
            }
        } else {
            Ok((word1, None))
        }
    }

    /// Fetches and decodes the instruction at the program counter.
    pub fn fetch_and_decode(&self) -> (r: Result<InstructionInfo, CpuError>)
        ensures
            r == spec_fetch_decode(self@),
    {
        let (word1, word2) = match self.fetch_instruction() {
            Ok(p) => p,
            Err(e) => {
                return Err(e);
            },
        };
        match InstructionInfo::decode(word1, word2) {
            Ok(i) => Ok(i),
            Err(_) => Err(CpuError::InvalidInstruction(self.iar)),
        }
    }

    /// Resolves an instruction's effective address against this machine's
    /// index registers and memory, and records it in the instruction.
    pub fn calculate_effective_address(&self, instr: &mut InstructionInfo) -> (r: Result<
        u16,
        CpuError,
    >)
        ensures
            r == spec_cpu_ea(self@, *old(instr)),
            r matches Ok(a) ==> *final(instr) == (InstructionInfo {
                effective_address: Some(a),
                ..*old(instr)
            }),
            r is Err ==> *final(instr) == *old(instr),
    {
        let index_value = self.index_registers.get(instr.tag);
        match instr.calculate_effective_address(index_value, &self.memory) {
            Ok(a) => Ok(a),
            Err(InstructionError::MemoryError(c)) => Err(c),
            Err(_) => Err(CpuError::InvalidInstruction(self.iar)),
        }
    }

    /// Performs one full fetch–decode–execute step, exactly as
    /// `spec_step` describes: a halted machine refuses with `WaitState`;
    /// otherwise the program counter advances by the instruction's size
    /// before the handler runs (branch and skip handlers then override
    /// it), and the instruction counter grows only on success.
    pub fn step(&mut self) -> (r: Result<(), CpuError>)
        ensures
            final(self)@ == spec_step(old(self)@).0,
            spec_cpu_result(r) == spec_step(old(self)@).1,
    {
        if self.status_flags.wait {
            return Err(CpuError::WaitState);
        }
        let mut instr = match self.fetch_and_decode() {
            Ok(i) => i,
            Err(e) => {
                return Err(e);
            },
        };
        let effective_address = match instr.opcode {
            OpCode::LDX | OpCode::STX | OpCode::MDX => {
                // The tag names the operand register here, so the address
                // is resolved as if no index register were selected.
                let saved_tag = instr.tag;
                instr.tag = 0;
                let ea = match self.calculate_effective_address(&mut instr) {
                    Ok(a) => a,
                    Err(e) => {
                        return Err(e);
                    },
                };
                instr.tag = saved_tag;
                ea
            },
            _ => {
                match self.calculate_effective_address(&mut instr) {
                    Ok(a) => a,
                    Err(e) => {
                        return Err(e);
                    },
                }
            },
        };
        let instruction_size = instr.size_in_words();
        self.increment_iar(instruction_size);
        match self.execute_instruction(&instr, effective_address) {
            Ok(()) => {},
            Err(e) => {
                return Err(e);
            },
        }
        self.increment_instruction_count();
        Ok(())
    }

    /// Runs up to `max_steps` instructions, stopping at the first step
    /// that fails (a halt or a fault), and reports how many executed.
    pub fn run(&mut self, max_steps: u64) -> (r: u64)
        ensures
            final(self)@ == spec_run(old(self)@, max_steps).0,
            r == spec_run(old(self)@, max_steps).1,
    {
        let mut i: u64 = 0;
        while i < max_steps
            invariant
                i <= max_steps,
                spec_run(old(self)@, max_steps).0 == spec_run(self@, (max_steps - i) as u64).0,
                spec_run(old(self)@, max_steps).1 == i + spec_run(
                    self@,
                    (max_steps - i) as u64,
                ).1,
            decreases max_steps - i,
        {
            let ghost pre = self@;
            let ghost remaining = (max_steps - i) as u64;
            match self.step() {
                Ok(()) => {
                    proof {
                        lemma_run_count(self@, (remaining - 1) as u64);
                        assert(spec_run(pre, remaining).0 == spec_run(
                            self@,
                            (remaining - 1) as u64,
                        ).0);
                        assert(spec_run(pre, remaining).1 == 1 + spec_run(
                            self@,
                            (remaining - 1) as u64,
                        ).1);
                    }
                    i = i + 1;
                },
                Err(_) => {
                    proof {
                        assert(spec_run(pre, remaining).0 == self@);
                        assert(spec_run(pre, remaining).1 == 0);
                    }
                    return i;
                },
            }
        }
        i
    }
}

} // verus!
