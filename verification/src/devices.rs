//! The input/output channel: channel-command decoding and the devices a
//! processor can carry.
//!
//! A channel command (IOCC) is a two-word structure: word one holds the
//! word-count/address pointer (WCA); word two packs a 5-bit device code, a
//! 3-bit function code and 8 modifier bits. The processor dispatches a
//! decoded command to the attached device carrying its device code.

use vstd::prelude::*;

verus! {

use crate::error::CpuError;

pub mod card_reader;
pub mod keyboard;
pub mod printer;

pub use card_reader::{Card, Device2501};
pub use keyboard::DeviceConsoleKeyboard;
pub use printer::DeviceConsolePrinter;

/// The eight channel function codes.
#[derive(Debug, Clone, Copy, PartialEq, Eq, Structural)]
pub enum DeviceFunction {
    /// Sense device status.
    Sense,
    /// Control operation.
    Control,
    /// Initiate a block read.
    InitRead,
    /// Read one datum (character-mode devices).
    Read,
    /// Initiate a block write.
    InitWrite,
    /// Write one datum (character-mode devices).
    Write,
    /// Sense interrupt level status word.
    SenseIlsw,
    /// Reserved, undefined.
    Reserved,
}

/// The 3-bit code of each function.
pub open spec fn spec_function_bits(f: DeviceFunction) -> u8 {
    match f {
        DeviceFunction::Sense => 0u8,
        DeviceFunction::Control => 1u8,
        DeviceFunction::InitRead => 2u8,
        DeviceFunction::Read => 3u8,
        DeviceFunction::InitWrite => 4u8,
        DeviceFunction::Write => 5u8,
        DeviceFunction::SenseIlsw => 6u8,
        DeviceFunction::Reserved => 7u8,
    }
}

/// The function selected by the low 3 bits of a byte; every 3-bit value is
/// a defined function.
pub open spec fn spec_function_from_bits(bits: u8) -> DeviceFunction {
    let b = bits % 8;
    if b == 0 {
        DeviceFunction::Sense
    } else if b == 1 {
        DeviceFunction::Control
    } else if b == 2 {
        DeviceFunction::InitRead
    } else if b == 3 {
        DeviceFunction::Read
    } else if b == 4 {
        DeviceFunction::InitWrite
    } else if b == 5 {
        DeviceFunction::Write
    } else if b == 6 {
        DeviceFunction::SenseIlsw
    } else {
        DeviceFunction::Reserved
    }
}

/// The variant name, as debug output renders it.
pub open spec fn spec_function_name(f: DeviceFunction) -> Seq<char> {
    match f {
        DeviceFunction::Sense => "Sense"@,
        DeviceFunction::Control => "Control"@,
        DeviceFunction::InitRead => "InitRead"@,
        DeviceFunction::Read => "Read"@,
        DeviceFunction::InitWrite => "InitWrite"@,
        DeviceFunction::Write => "Write"@,
        DeviceFunction::SenseIlsw => "SenseIlsw"@,
        DeviceFunction::Reserved => "Reserved"@,
    }
}

impl DeviceFunction {
    /// Decodes the function from the low 3 bits of a byte; every 3-bit
    /// value names a function, so this never fails.
    pub fn from_bits(bits: u8) -> (r: Option<DeviceFunction>)
        ensures
            r == Some(spec_function_from_bits(bits)),
    {
        let b = bits % 8;
        if b == 0 {
            Some(DeviceFunction::Sense)
        } else if b == 1 {
            Some(DeviceFunction::Control)
        } else if b == 2 {
            Some(DeviceFunction::InitRead)
        } else if b == 3 {
            Some(DeviceFunction::Read)
        } else if b == 4 {
            Some(DeviceFunction::InitWrite)
        } else if b == 5 {
            Some(DeviceFunction::Write)
        } else if b == 6 {
            Some(DeviceFunction::SenseIlsw)
        } else {
            Some(DeviceFunction::Reserved)
        }
    }

    /// The 3-bit code of this function.
    pub fn to_bits(self) -> (r: u8)
        ensures
            r == spec_function_bits(self),
    {
        match self {
            DeviceFunction::Sense => 0,
            DeviceFunction::Control => 1,
            DeviceFunction::InitRead => 2,
            DeviceFunction::Read => 3,
            DeviceFunction::InitWrite => 4,
            DeviceFunction::Write => 5,
            DeviceFunction::SenseIlsw => 6,
            DeviceFunction::Reserved => 7,
        }
    }

    /// The variant name as a string.
    pub fn name(self) -> (r: String)
        ensures
            r@ == spec_function_name(self),
    {
        match self {
            DeviceFunction::Sense => String::from_str("Sense"),
            DeviceFunction::Control => String::from_str("Control"),
            DeviceFunction::InitRead => String::from_str("InitRead"),
            DeviceFunction::Read => String::from_str("Read"),
            DeviceFunction::InitWrite => String::from_str("InitWrite"),
            DeviceFunction::Write => String::from_str("Write"),
            DeviceFunction::SenseIlsw => String::from_str("SenseIlsw"),
            DeviceFunction::Reserved => String::from_str("Reserved"),
        }
    }
}

/// A decoded channel command.
#[derive(Debug, Clone, Copy, PartialEq, Eq, Structural)]
pub struct Iocc {
    /// Word count address: points at the word count or data cell.
    pub wca: u16,
    /// Device code, 5 bits.
    pub device_code: u8,
    /// Function code.
    pub function: DeviceFunction,
    /// Modifier bits.
    pub modifiers: u8,
}

/// The command decoded from its two words: the WCA is word one; word two
/// holds the device code in its top 5 bits, the function in the next 3,
/// and the modifiers in the low byte.
pub open spec fn spec_iocc_decode(word1: u16, word2: u16) -> Iocc {
    Iocc {
        wca: word1,
        device_code: (word2 / 2048) as u8,
        function: spec_function_from_bits(((word2 / 256) % 8) as u8),
        modifiers: (word2 % 256) as u8,
    }
}

/// The two words a command encodes to; a device code above 31 loses its
/// high bits, as the 5-bit field cannot hold them.
pub open spec fn spec_iocc_encode(iocc: Iocc) -> (u16, u16) {
    (
        iocc.wca,
        (((iocc.device_code as int) * 2048 + (spec_function_bits(iocc.function) as int) * 256
            + iocc.modifiers as int) % 0x10000) as u16,
    )
}

impl Iocc {
    /// Decodes a channel command from its two words. Every 3-bit value is
    /// a defined function, so decoding always succeeds.
    pub fn decode(word1: u16, word2: u16) -> (r: Result<Iocc, CpuError>)
        ensures
            r == Ok::<Iocc, CpuError>(spec_iocc_decode(word1, word2)),
    {
        let device_code = (word2 / 2048) as u8;
        let function_bits = ((word2 / 256) % 8) as u8;
        let modifiers = (word2 % 256) as u8;
        match DeviceFunction::from_bits(function_bits) {
            Some(function) => Ok(Iocc { wca: word1, device_code, function, modifiers }),
            None => Err(CpuError::InvalidDevice(device_code)),
        }
    }

    /// Encodes the command into its two words.
    pub fn encode(&self) -> (r: (u16, u16))
        ensures
            r == spec_iocc_encode(*self),
    {
        let word2: u32 = (self.device_code as u32) * 2048 + (self.function.to_bits() as u32) * 256
            + (self.modifiers as u32);
        (self.wca, (word2 % 0x10000) as u16)
    }

    /// Encoding and decoding invert each other for every command whose
    /// device code fits its 5-bit field.
    pub proof fn lemma_iocc_round_trip(iocc: Iocc)
        requires
            iocc.device_code < 32,
        ensures
            spec_iocc_decode(spec_iocc_encode(iocc).0, spec_iocc_encode(iocc).1) == iocc,
    {
        let c = iocc.device_code as int;
        let f = spec_function_bits(iocc.function) as int;
        let m = iocc.modifiers as int;
        let w2 = c * 2048 + f * 256 + m;
        assert(0 <= w2 < 65536);
        assert(w2 / 2048 == c) by (nonlinear_arith)
            requires
                w2 == c * 2048 + f * 256 + m,
                0 <= c < 32,
                0 <= f < 8,
                0 <= m < 256,
        ;
        assert((w2 / 256) % 8 == f) by (nonlinear_arith)
            requires
                w2 == c * 2048 + f * 256 + m,
                0 <= c < 32,
                0 <= f < 8,
                0 <= m < 256,
        ;
        assert(w2 % 256 == m) by (nonlinear_arith)
            requires
                w2 == c * 2048 + f * 256 + m,
                0 <= c < 32,
                0 <= f < 8,
                0 <= m < 256,
        ;
        assert(spec_function_from_bits(spec_function_bits(iocc.function))
            == iocc.function);
    }
}

/// What every input/output device offers the processor: a stable device
/// code, channel-command execution against memory, a busy probe and a
/// reset.
pub trait Device {
    /// The 5-bit device code the processor dispatches on.
    fn device_code(&self) -> u8;

    /// The device's display name.
    fn device_name(&self) -> &'static str;

    /// Executes one decoded channel command; devices may transfer blocks
    /// directly into memory.
    fn execute_iocc(&mut self, iocc: &Iocc, memory: &mut Vec<u16>) -> Result<(), CpuError>;

    /// Whether an operation is in progress.
    fn is_busy(&self) -> bool;

    /// Returns the device to its initial state.
    fn reset(&mut self);
}

/// Abstract state of one attached device, for contracts.
pub enum DeviceModel {
    /// A console keyboard: its pending input, oldest first.
    Keyboard { buffer: Seq<u16>, busy: bool },
    /// A console printer: everything printed so far.
    Printer { output: Seq<u16>, busy: bool },
    /// A card reader: the hopper (each card 80 words) and its transfer
    /// state.
    CardReader {
        hopper: Seq<Seq<u16>>,
        read_in_progress: bool,
        operation_complete: bool,
        last_card: bool,
        read_address: u16,
        read_count: u16,
    },
}

/// The device code of a modelled device: 1 for the keyboard, 2 for the
/// printer, 9 for the card reader.
pub open spec fn spec_device_code(d: DeviceModel) -> u8 {
    match d {
        DeviceModel::Keyboard { .. } => 1u8,
        DeviceModel::Printer { .. } => 2u8,
        DeviceModel::CardReader { .. } => 9u8,
    }
}

/// One of the devices a processor can carry, dispatched by device code.
pub enum AttachedDevice {
    /// Console keyboard, device code 1.
    Keyboard(DeviceConsoleKeyboard),
    /// Console printer, device code 2.
    Printer(DeviceConsolePrinter),
    /// Card reader, device code 9.
    CardReader(Device2501),
}

impl View for AttachedDevice {
    type V = DeviceModel;

    open spec fn view(&self) -> DeviceModel {
        match self {
            AttachedDevice::Keyboard(k) => DeviceModel::Keyboard {
                buffer: k.input_buffer@,
                busy: k.busy,
            },
            AttachedDevice::Printer(p) => DeviceModel::Printer {
                output: p.output_buffer@,
                busy: p.busy,
            },
            AttachedDevice::CardReader(c) => DeviceModel::CardReader {
                hopper: c.hopper@.map_values(|card: Card| card.columns@),
                read_in_progress: c.read_in_progress,
                operation_complete: c.operation_complete,
                last_card: c.last_card,
                read_address: c.read_address,
                read_count: c.read_count,
            },
        }
    }
}

impl AttachedDevice {
    /// The 5-bit code the processor dispatches on.
    pub fn device_code(&self) -> (r: u8)
        ensures
            r == spec_device_code(self@),
    {
        match self {
            AttachedDevice::Keyboard(k) => k.device_code(),
            AttachedDevice::Printer(p) => p.device_code(),
            AttachedDevice::CardReader(c) => c.device_code(),
        }
    }

    /// Executes one channel command on the device this value carries.
    pub fn execute_iocc(&mut self, iocc: &Iocc, memory: &mut Vec<u16>) -> (r: Result<
        (),
        CpuError,
    >)
        ensures
            ({
                let stepped = spec_device_step(old(self)@, *iocc, old(memory)@);
                &&& final(self)@ == stepped.0
                &&& final(memory)@ == stepped.1
                &&& crate::error::spec_cpu_result(r) == stepped.2
            }),
    {
        match self {
            AttachedDevice::Keyboard(k) => k.execute_iocc(iocc, memory),
            AttachedDevice::Printer(p) => p.execute_iocc(iocc, memory),
            AttachedDevice::CardReader(c) => c.execute_iocc(iocc, memory),
        }
    }

    /// Whether an operation is in progress.
    pub fn is_busy(&self) -> (r: bool)
        ensures
            r == spec_device_busy(self@),
    {
        match self {
            AttachedDevice::Keyboard(k) => k.is_busy(),
            AttachedDevice::Printer(p) => p.is_busy(),
            AttachedDevice::CardReader(c) => c.is_busy(),
        }
    }

    /// Returns the device to its initial state; a card reader keeps its
    /// hopper.
    pub fn reset(&mut self)
        ensures
            final(self)@ == spec_device_reset(old(self)@),
    {
        match self {
            AttachedDevice::Keyboard(k) => k.reset(),
            AttachedDevice::Printer(p) => p.reset(),
            AttachedDevice::CardReader(c) => c.reset(),
        }
    }
}

/// The position of the first modelled device carrying `code`, or -1 when
/// none does.
pub open spec fn spec_device_index(devs: Seq<DeviceModel>, code: u8) -> int
    decreases devs.len(),
{
    if devs.len() == 0 {
        -1int
    } else if spec_device_code(devs[0]) == code {
        0int
    } else {
        let rest = spec_device_index(devs.subrange(1, devs.len() as int), code);
        if rest == -1 {
            -1int
        } else {
            rest + 1
        }
    }
}

/// `spec_device_index` names the first device with the code: a found
/// index is in range, carries the code, and nothing before it does; -1
/// means no device carries it.
pub proof fn lemma_device_index(devs: Seq<DeviceModel>, code: u8)
    ensures
        spec_device_index(devs, code) == -1 ==> forall|j: int|
            0 <= j < devs.len() ==> spec_device_code(devs[j]) != code,
        spec_device_index(devs, code) != -1 ==> {
            let i = spec_device_index(devs, code);
            &&& 0 <= i < devs.len()
            &&& spec_device_code(devs[i]) == code
            &&& forall|j: int| 0 <= j < i ==> spec_device_code(devs[j]) != code
        },
    decreases devs.len(),
{
    if devs.len() > 0 && spec_device_code(devs[0]) != code {
        let rest = devs.subrange(1, devs.len() as int);
        lemma_device_index(rest, code);
        assert(forall|j: int| 1 <= j < devs.len() ==> devs[j] == rest[j - 1]);
    }
}

/// Whether a modelled device reports busy.
pub open spec fn spec_device_busy(d: DeviceModel) -> bool {
    match d {
        DeviceModel::Keyboard { busy, .. } => busy,
        DeviceModel::Printer { busy, .. } => busy,
        DeviceModel::CardReader { read_in_progress, .. } => read_in_progress,
    }
}

/// A modelled device after a reset: buffers of the console devices are
/// dropped, the card reader clears its transfer state but keeps its
/// hopper.
pub open spec fn spec_device_reset(d: DeviceModel) -> DeviceModel {
    match d {
        DeviceModel::Keyboard { .. } => DeviceModel::Keyboard {
            buffer: Seq::empty(),
            busy: false,
        },
        DeviceModel::Printer { .. } => DeviceModel::Printer { output: Seq::empty(), busy: false },
        DeviceModel::CardReader { hopper, .. } => DeviceModel::CardReader {
            hopper,
            read_in_progress: false,
            operation_complete: false,
            last_card: false,
            read_address: 0u16,
            read_count: 0u16,
        },
    }
}

/// How one channel command changes a modelled device and memory, and what
/// it returns. This is the dispatch contract the execution engine relies
/// on.
pub open spec fn spec_device_step(pre: DeviceModel, iocc: Iocc, mem: Seq<u16>) -> (
    DeviceModel,
    Seq<u16>,
    Result<(), crate::error::CpuErrorModel>,
) {
    match pre {
        DeviceModel::Keyboard { buffer, busy } => keyboard::spec_keyboard_step(
            buffer,
            busy,
            iocc,
            mem,
        ),
        DeviceModel::Printer { output, busy } => printer::spec_printer_step(
            output,
            busy,
            iocc,
            mem,
        ),
        DeviceModel::CardReader { .. } => card_reader::spec_card_reader_step(pre, iocc, mem),
    }
}

} // verus!
