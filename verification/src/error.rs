//! Error types for the emulator core: processor faults, instruction decode
//! failures, assembly errors and device errors, each with a rendered
//! human-readable message.

use vstd::prelude::*;

verus! {

use crate::text::{
    dec_string_i32, dec_string_u64, hex2_string, hex4_string, spec_dec_digits, spec_dec_i64,
    spec_hex2, spec_hex4,
};

/// Errors that can occur during CPU operations.
#[derive(Debug, Clone, PartialEq, Eq)]
pub enum CpuError {
    /// Invalid instruction encountered at the given address.
    InvalidInstruction(u16),
    /// Memory access out of bounds.
    MemoryViolation(u16),
    /// A device rejected a channel command, with a description.
    DeviceError(String),
    /// No attached device carries this device code, or the command was one
    /// the device does not implement.
    InvalidDevice(u8),
    /// A channel command named an address outside memory.
    InvalidAddress(u16),
    /// Execution was attempted while the processor is halted.
    WaitState,
}

/// The message text of a CPU error.
pub open spec fn spec_cpu_error_message(e: CpuError) -> Seq<char> {
    match e {
        CpuError::InvalidInstruction(a) => "Invalid instruction at address 0x"@ + spec_hex4(a),
        CpuError::MemoryViolation(a) => "Memory access violation at address 0x"@ + spec_hex4(a),
        CpuError::DeviceError(s) => "Device error: "@ + s@,
        CpuError::InvalidDevice(c) => "Invalid device: 0x"@ + spec_hex2(c),
        CpuError::InvalidAddress(a) => "Invalid address: 0x"@ + spec_hex4(a),
        CpuError::WaitState => "Execution halted by WAIT instruction"@,
    }
}

impl CpuError {
    /// Human-readable description of the error.
    pub fn message(&self) -> (r: String)
        ensures
            r@ == spec_cpu_error_message(*self),
    {
        match self {
            CpuError::InvalidInstruction(a) => {
                let s = String::from_str("Invalid instruction at address 0x");
                s.concat(hex4_string(*a).as_str())
            },
            CpuError::MemoryViolation(a) => {
                let s = String::from_str("Memory access violation at address 0x");
                s.concat(hex4_string(*a).as_str())
            },
            CpuError::DeviceError(d) => {
                let s = String::from_str("Device error: ");
                s.concat(d.as_str())
            },
            CpuError::InvalidDevice(c) => {
                let s = String::from_str("Invalid device: 0x");
                s.concat(hex2_string(*c).as_str())
            },
            CpuError::InvalidAddress(a) => {
                let s = String::from_str("Invalid address: 0x");
                s.concat(hex4_string(*a).as_str())
            },
            CpuError::WaitState => String::from_str("Execution halted by WAIT instruction"),
        }
    }
}

/// The abstract form of a CPU error: the same cases, with device-error
/// text as a character sequence. Contracts over the machine model speak of
/// this form, since specifications cannot build `String` values.
pub enum CpuErrorModel {
    /// Invalid instruction encountered at the given address.
    InvalidInstruction(u16),
    /// Memory access out of bounds.
    MemoryViolation(u16),
    /// A device rejected a channel command, with a description.
    DeviceError(Seq<char>),
    /// No attached device carries this device code, or the command was one
    /// the device does not implement.
    InvalidDevice(u8),
    /// A channel command named an address outside memory.
    InvalidAddress(u16),
    /// Execution was attempted while the processor is halted.
    WaitState,
}

impl View for CpuError {
    type V = CpuErrorModel;

    open spec fn view(&self) -> CpuErrorModel {
        match self {
            CpuError::InvalidInstruction(a) => CpuErrorModel::InvalidInstruction(*a),
            CpuError::MemoryViolation(a) => CpuErrorModel::MemoryViolation(*a),
            CpuError::DeviceError(s) => CpuErrorModel::DeviceError(s@),
            CpuError::InvalidDevice(c) => CpuErrorModel::InvalidDevice(*c),
            CpuError::InvalidAddress(a) => CpuErrorModel::InvalidAddress(*a),
            CpuError::WaitState => CpuErrorModel::WaitState,
        }
    }
}

/// The abstract form of a CPU operation's outcome.
pub open spec fn spec_cpu_result(r: Result<(), CpuError>) -> Result<(), CpuErrorModel> {
    match r {
        Ok(()) => Ok(()),
        Err(e) => Err(e@),
    }
}

/// Errors that can occur while decoding an instruction.
#[derive(Debug, Clone, PartialEq, Eq)]
pub enum InstructionError {
    /// The opcode byte is not one of the defined instruction codes.
    InvalidOpcode(u8),
    /// A long-format instruction was decoded without its second word.
    MissingDisplacement,
    /// A memory access failed during decode or address resolution.
    MemoryError(CpuError),
}

/// The message text of an instruction error.
pub open spec fn spec_instruction_error_message(e: InstructionError) -> Seq<char> {
    match e {
        InstructionError::InvalidOpcode(b) => "Invalid opcode: 0x"@ + spec_hex2(b),
        InstructionError::MissingDisplacement => (
        "Missing displacement word for long format instruction"@
        ),
        InstructionError::MemoryError(c) => "Memory access error: "@ + spec_cpu_error_message(c),
    }
}

impl InstructionError {
    /// Human-readable description of the error.
    pub fn message(&self) -> (r: String)
        ensures
            r@ == spec_instruction_error_message(*self),
    {
        match self {
            InstructionError::InvalidOpcode(b) => {
                let s = String::from_str("Invalid opcode: 0x");
                s.concat(hex2_string(*b).as_str())
            },
            InstructionError::MissingDisplacement => {
                String::from_str("Missing displacement word for long format instruction")
            },
            InstructionError::MemoryError(c) => {
                let s = String::from_str("Memory access error: ");
                s.concat(c.message().as_str())
            },
        }
    }
}

impl From<CpuError> for InstructionError {
    /// A memory fault surfaced while handling an instruction.
    fn from(e: CpuError) -> (r: InstructionError)
        ensures
            r == InstructionError::MemoryError(e),
    {
        InstructionError::MemoryError(e)
    }
}

impl vstd::std_specs::convert::FromSpecImpl<CpuError> for InstructionError {
    open spec fn obeys_from_spec() -> bool {
        true
    }

    open spec fn from_spec(e: CpuError) -> InstructionError {
        InstructionError::MemoryError(e)
    }
}

/// Errors that can occur during assembly.
#[derive(Debug, Clone, PartialEq, Eq)]
pub enum AssemblerError {
    /// Syntax error in the source, tagged with its 1-indexed line.
    SyntaxError { line: usize, message: String },
    /// An operand referenced a symbol that is never defined.
    UndefinedSymbol(String),
    /// The same label was defined twice.
    DuplicateLabel(String),
    /// An address operand is not usable.
    InvalidAddress(u16),
    /// A value does not fit the field it is destined for.
    ValueOutOfRange(i32),
}

/// The message text of an assembler error.
pub open spec fn spec_assembler_error_message(e: AssemblerError) -> Seq<char> {
    match e {
        AssemblerError::SyntaxError { line, message } => "Syntax error on line "@ + spec_dec_digits(
            line as nat,
        ) + ": "@ + message@,
        AssemblerError::UndefinedSymbol(s) => "Undefined symbol: "@ + s@,
        AssemblerError::DuplicateLabel(s) => "Duplicate label: "@ + s@,
        AssemblerError::InvalidAddress(a) => "Invalid address: 0x"@ + spec_hex4(a),
        AssemblerError::ValueOutOfRange(v) => "Value out of range: "@ + spec_dec_i64(v as int),
    }
}

impl AssemblerError {
    /// Human-readable description of the error.
    pub fn message(&self) -> (r: String)
        ensures
            r@ == spec_assembler_error_message(*self),
    {
        match self {
            AssemblerError::SyntaxError { line, message } => {
                let s = String::from_str("Syntax error on line ");
                let s = s.concat(dec_string_u64(*line as u64).as_str());
                let s = s.concat(": ");
                s.concat(message.as_str())
            },
            AssemblerError::UndefinedSymbol(n) => {
                let s = String::from_str("Undefined symbol: ");
                s.concat(n.as_str())
            },
            AssemblerError::DuplicateLabel(n) => {
                let s = String::from_str("Duplicate label: ");
                s.concat(n.as_str())
            },
            AssemblerError::InvalidAddress(a) => {
                let s = String::from_str("Invalid address: 0x");
                s.concat(hex4_string(*a).as_str())
            },
            AssemblerError::ValueOutOfRange(v) => {
                let s = String::from_str("Value out of range: ");
                s.concat(dec_string_i32(*v).as_str())
            },
        }
    }
}

/// Errors that can occur during device operations.
#[derive(Debug, Clone, PartialEq, Eq)]
pub enum DeviceError {
    /// The device is not ready to act.
    NotReady,
    /// The function code is not one the device supports.
    UnsupportedFunction(u8),
    /// An input/output failure, with a description.
    IoError(String),
}

/// The message text of a device error.
pub open spec fn spec_device_error_message(e: DeviceError) -> Seq<char> {
    match e {
        DeviceError::NotReady => "Device not ready"@,
        DeviceError::UnsupportedFunction(f) => "Unsupported function: "@ + spec_dec_digits(
            f as nat,
        ),
        DeviceError::IoError(s) => "I/O error: "@ + s@,
    }
}

impl DeviceError {
    /// Human-readable description of the error.
    pub fn message(&self) -> (r: String)
        ensures
            r@ == spec_device_error_message(*self),
    {
        match self {
            DeviceError::NotReady => String::from_str("Device not ready"),
            DeviceError::UnsupportedFunction(f) => {
                let s = String::from_str("Unsupported function: ");
                s.concat(dec_string_u64(*f as u64).as_str())
            },
            DeviceError::IoError(d) => {
                let s = String::from_str("I/O error: ");
                s.concat(d.as_str())
            },
        }
    }
}

} // verus!
