//! Instruction decoding: opcodes, the short/long encoding formats, and
//! effective-address resolution.
//!
//! An instruction word holds the opcode in its top 8 bits, a 2-bit index
//! register tag, an indirect-addressing flag, and — for the short format —
//! a 5-bit displacement. Long-format instructions carry their displacement
//! in a second word; decoding a long-format opcode without one is an error,
//! never a default.

use vstd::prelude::*;

verus! {

use crate::cpu::memory::Memory;
use crate::error::{CpuError, InstructionError};

/// The operation codes of the instruction set.
#[derive(Debug, Clone, Copy, PartialEq, Eq, Structural)]
pub enum OpCode {
    /// Load accumulator.
    LD,
    /// Load accumulator and extension (double).
    LDD,
    /// Store accumulator.
    STO,
    /// Store accumulator and extension (double).
    STD,
    /// Add to accumulator.
    A,
    /// Add double to accumulator:extension.
    AD,
    /// Subtract from accumulator.
    S,
    /// Subtract double from accumulator:extension.
    SD,
    /// Multiply accumulator; product fills accumulator:extension.
    M,
    /// Divide accumulator:extension; quotient and remainder split.
    D,
    /// Bitwise AND into the accumulator.
    AND,
    /// Bitwise OR into the accumulator.
    OR,
    /// Bitwise exclusive OR into the accumulator.
    EOR,
    /// Shift left accumulator.
    SLA,
    /// Shift left accumulator and extension.
    SLCA,
    /// Shift right accumulator, arithmetic.
    SRA,
    /// Shift right accumulator and extension, logical.
    SRT,
    /// Branch and store the instruction address register.
    BSI,
    /// Branch on condition.
    BC,
    /// Branch and store on condition.
    BSC,
    /// Load index register.
    LDX,
    /// Store index register.
    STX,
    /// Modify index and skip.
    MDX,
    /// Halt the processor.
    WAIT,
    /// Load status word.
    LDS,
    /// Store status word.
    STS,
    /// Execute input/output channel command.
    XIO,
    /// Sense device status (reserved, not executable).
    SDS,
}

/// The byte value that encodes each opcode in the top 8 bits of the first
/// instruction word.
pub open spec fn spec_opcode_byte(op: OpCode) -> u8 {
    match op {
        OpCode::LD => 0x60u8,
        OpCode::LDD => 0x68u8,
        OpCode::STO => 0x70u8,
        OpCode::STD => 0x78u8,
        OpCode::A => 0xE0u8,
        OpCode::AD => 0xE8u8,
        OpCode::S => 0xC0u8,
        OpCode::SD => 0xC8u8,
        OpCode::M => 0xF0u8,
        OpCode::D => 0xF8u8,
        OpCode::AND => 0x80u8,
        OpCode::OR => 0x90u8,
        OpCode::EOR => 0x98u8,
        OpCode::SLA => 0x20u8,
        OpCode::SLCA => 0x28u8,
        OpCode::SRA => 0x30u8,
        OpCode::SRT => 0x38u8,
        OpCode::BSI => 0x48u8,
        OpCode::BC => 0x40u8,
        OpCode::BSC => 0x50u8,
        OpCode::LDX => 0x74u8,
        OpCode::STX => 0x54u8,
        OpCode::MDX => 0x58u8,
        OpCode::WAIT => 0xB0u8,
        OpCode::LDS => 0xC4u8,
        OpCode::STS => 0xCCu8,
        OpCode::XIO => 0x44u8,
        OpCode::SDS => 0x4Cu8,
    }
}

/// The opcode a byte decodes to, if any: only the 28 defined byte values
/// are valid.
pub open spec fn spec_opcode_from_byte(b: u8) -> Option<OpCode> {
    if b == 0x60 {
        Some(OpCode::LD)
    } else if b == 0x68 {
        Some(OpCode::LDD)
    } else if b == 0x70 {
        Some(OpCode::STO)
    } else if b == 0x78 {
        Some(OpCode::STD)
    } else if b == 0xE0 {
        Some(OpCode::A)
    } else if b == 0xE8 {
        Some(OpCode::AD)
    } else if b == 0xC0 {
        Some(OpCode::S)
    } else if b == 0xC8 {
        Some(OpCode::SD)
    } else if b == 0xF0 {
        Some(OpCode::M)
    } else if b == 0xF8 {
        Some(OpCode::D)
    } else if b == 0x80 {
        Some(OpCode::AND)
    } else if b == 0x90 {
        Some(OpCode::OR)
    } else if b == 0x98 {
        Some(OpCode::EOR)
    } else if b == 0x20 {
        Some(OpCode::SLA)
    } else if b == 0x28 {
        Some(OpCode::SLCA)
    } else if b == 0x30 {
        Some(OpCode::SRA)
    } else if b == 0x38 {
        Some(OpCode::SRT)
    } else if b == 0x48 {
        Some(OpCode::BSI)
    } else if b == 0x40 {
        Some(OpCode::BC)
    } else if b == 0x50 {
        Some(OpCode::BSC)
    } else if b == 0x74 {
        Some(OpCode::LDX)
    } else if b == 0x54 {
        Some(OpCode::STX)
    } else if b == 0x58 {
        Some(OpCode::MDX)
    } else if b == 0xB0 {
        Some(OpCode::WAIT)
    } else if b == 0xC4 {
        Some(OpCode::LDS)
    } else if b == 0xCC {
        Some(OpCode::STS)
    } else if b == 0x44 {
        Some(OpCode::XIO)
    } else if b == 0x4C {
        Some(OpCode::SDS)
    } else {
        None
    }
}

/// Whether an opcode takes the two-word (long) encoding: the load/store
/// family, all arithmetic, the logic group, branch-and-store, and the
/// three index-register instructions. Everything else — the shifts, the
/// conditional branches, the status words, halt, the channel-command
/// instruction and the reserved sense opcode — is one word.
pub open spec fn spec_is_long(op: OpCode) -> bool {
    match op {
        OpCode::LD => true,
        OpCode::LDD => true,
        OpCode::STO => true,
        OpCode::STD => true,
        OpCode::A => true,
        OpCode::AD => true,
        OpCode::S => true,
        OpCode::SD => true,
        OpCode::M => true,
        OpCode::D => true,
        OpCode::AND => true,
        OpCode::OR => true,
        OpCode::EOR => true,
        OpCode::BSI => true,
        OpCode::LDX => true,
        OpCode::STX => true,
        OpCode::MDX => true,
        _ => false,
    }
}

impl OpCode {
    /// Decodes the opcode from the top 8 bits of an instruction word; any
    /// byte value outside the 28 defined codes is an invalid-opcode error
    /// carrying that byte.
    pub fn from_word(word: u16) -> (r: Result<OpCode, InstructionError>)
        ensures
            r == (match spec_opcode_from_byte((word / 256) as u8) {
                Some(op) => Ok::<OpCode, InstructionError>(op),
                None => Err::<OpCode, InstructionError>(
                    InstructionError::InvalidOpcode((word / 256) as u8),
                ),
            }),
    {
        let opcode = (word / 256) as u8;
        match opcode_from_byte(opcode) {
            Some(op) => Ok(op),
            None => Err(InstructionError::InvalidOpcode(opcode)),
        }
    }

    /// Whether this opcode requires the two-word encoding.
    pub fn is_long_format(self) -> (r: bool)
        ensures
            r == spec_is_long(self),
    {
        match self {
            OpCode::LD => true,
            OpCode::LDD => true,
            OpCode::STO => true,
            OpCode::STD => true,
            OpCode::A => true,
            OpCode::AD => true,
            OpCode::S => true,
            OpCode::SD => true,
            OpCode::M => true,
            OpCode::D => true,
            OpCode::AND => true,
            OpCode::OR => true,
            OpCode::EOR => true,
            OpCode::BSI => true,
            OpCode::LDX => true,
            OpCode::STX => true,
            OpCode::MDX => true,
            _ => false,
        }
    }

    /// The byte value that encodes this opcode.
    pub fn to_byte(self) -> (r: u8)
        ensures
            r == spec_opcode_byte(self),
    {
        match self {
            OpCode::LD => 0x60,
            OpCode::LDD => 0x68,
            OpCode::STO => 0x70,
            OpCode::STD => 0x78,
            OpCode::A => 0xE0,
            OpCode::AD => 0xE8,
            OpCode::S => 0xC0,
            OpCode::SD => 0xC8,
            OpCode::M => 0xF0,
            OpCode::D => 0xF8,
            OpCode::AND => 0x80,
            OpCode::OR => 0x90,
            OpCode::EOR => 0x98,
            OpCode::SLA => 0x20,
            OpCode::SLCA => 0x28,
            OpCode::SRA => 0x30,
            OpCode::SRT => 0x38,
            OpCode::BSI => 0x48,
            OpCode::BC => 0x40,
            OpCode::BSC => 0x50,
            OpCode::LDX => 0x74,
            OpCode::STX => 0x54,
            OpCode::MDX => 0x58,
            OpCode::WAIT => 0xB0,
            OpCode::LDS => 0xC4,
            OpCode::STS => 0xCC,
            OpCode::XIO => 0x44,
            OpCode::SDS => 0x4C,
        }
    }
}

/// Decodes a byte to its opcode, if the byte is one of the defined codes.
fn opcode_from_byte(b: u8) -> (r: Option<OpCode>)
    ensures
        r == spec_opcode_from_byte(b),
{
    if b == 0x60 {
        Some(OpCode::LD)
    } else if b == 0x68 {
        Some(OpCode::LDD)
    } else if b == 0x70 {
        Some(OpCode::STO)
    } else if b == 0x78 {
        Some(OpCode::STD)
    } else if b == 0xE0 {
        Some(OpCode::A)
    } else if b == 0xE8 {
        Some(OpCode::AD)
    } else if b == 0xC0 {
        Some(OpCode::S)
    } else if b == 0xC8 {
        Some(OpCode::SD)
    } else if b == 0xF0 {
        Some(OpCode::M)
    } else if b == 0xF8 {
        Some(OpCode::D)
    } else if b == 0x80 {
        Some(OpCode::AND)
    } else if b == 0x90 {
        Some(OpCode::OR)
    } else if b == 0x98 {
        Some(OpCode::EOR)
    } else if b == 0x20 {
        Some(OpCode::SLA)
    } else if b == 0x28 {
        Some(OpCode::SLCA)
    } else if b == 0x30 {
        Some(OpCode::SRA)
    } else if b == 0x38 {
        Some(OpCode::SRT)
    } else if b == 0x48 {
        Some(OpCode::BSI)
    } else if b == 0x40 {
        Some(OpCode::BC)
    } else if b == 0x50 {
        Some(OpCode::BSC)
    } else if b == 0x74 {
        Some(OpCode::LDX)
    } else if b == 0x54 {
        Some(OpCode::STX)
    } else if b == 0x58 {
        Some(OpCode::MDX)
    } else if b == 0xB0 {
        Some(OpCode::WAIT)
    } else if b == 0xC4 {
        Some(OpCode::LDS)
    } else if b == 0xCC {
        Some(OpCode::STS)
    } else if b == 0x44 {
        Some(OpCode::XIO)
    } else if b == 0x4C {
        Some(OpCode::SDS)
    } else {
        None
    }
}

/// Instruction encoding width: one word or two.
#[derive(Debug, Clone, Copy, PartialEq, Eq, Structural)]
pub enum InstructionFormat {
    /// One 16-bit word.
    Short,
    /// Two 16-bit words.
    Long,
}

/// A decoded instruction: opcode, format, index register tag (0 means
/// none), indirect flag, displacement, and — once execution has resolved
/// it — the effective address.
#[derive(Debug, Clone, PartialEq, Eq)]
pub struct InstructionInfo {
    /// Operation code.
    pub opcode: OpCode,
    /// Encoding width.
    pub format: InstructionFormat,
    /// Index register tag: 0 = none, 1..3 select a register.
    pub tag: u8,
    /// Indirect addressing flag.
    pub indirect: bool,
    /// Displacement: the low 5 bits of word one for the short format, the
    /// whole second word for the long format.
    pub displacement: u16,
    /// Effective address, filled in during execution, never by decode.
    pub effective_address: Option<u16>,
}

/// What decoding one or two instruction words yields: the opcode from the
/// top byte, the tag from bits 6..7, the indirect flag from bit 5, and the
/// displacement from the second word (long) or the low 5 bits (short). A
/// long-format opcode with no second word is a missing-displacement error.
pub open spec fn spec_decode(word1: u16, word2: Option<u16>) -> Result<
    InstructionInfo,
    InstructionError,
> {
    match spec_opcode_from_byte((word1 / 256) as u8) {
        None => Err(InstructionError::InvalidOpcode((word1 / 256) as u8)),
        Some(op) => {
            let tag = ((word1 / 64) % 4) as u8;
            let indirect = (word1 / 32) % 2 == 1;
            if spec_is_long(op) {
                match word2 {
                    None => Err(InstructionError::MissingDisplacement),
                    Some(d) => Ok(
                        InstructionInfo {
                            opcode: op,
                            format: InstructionFormat::Long,
                            tag,
                            indirect,
                            displacement: d,
                            effective_address: None,
                        },
                    ),
                }
            } else {
                Ok(
                    InstructionInfo {
                        opcode: op,
                        format: InstructionFormat::Short,
                        tag,
                        indirect,
                        displacement: word1 % 32,
                        effective_address: None,
                    },
                )
            }
        },
    }
}

/// The instruction words an instruction encodes to: the first word packs
/// opcode, tag and indirect flag (plus the displacement for the short
/// format); the long format appends the displacement word.
pub open spec fn spec_encode(i: InstructionInfo) -> Seq<u16> {
    let base = (spec_opcode_byte(i.opcode) as int) * 256 + (i.tag as int) * 64 + (if i.indirect {
        32int
    } else {
        0int
    });
    if i.format == InstructionFormat::Long {
        seq![base as u16, i.displacement]
    } else {
        seq![(base + i.displacement as int) as u16]
    }
}

/// A decoded instruction that an encoder can produce: the tag fits its two
/// bits, the format matches the opcode's, a short displacement fits its
/// five bits, and no effective address has been resolved yet.
pub open spec fn spec_encodable(i: InstructionInfo) -> bool {
    &&& i.tag < 4
    &&& i.format == (if spec_is_long(i.opcode) {
        InstructionFormat::Long
    } else {
        InstructionFormat::Short
    })
    &&& (i.format == InstructionFormat::Short ==> i.displacement < 32)
    &&& i.effective_address is None
}

/// Decoding inverts encoding: every encodable instruction decodes from its
/// own encoding back to itself.
pub proof fn lemma_decode_encode(i: InstructionInfo)
    requires
        spec_encodable(i),
    ensures
        i.format == InstructionFormat::Long ==> spec_encode(i).len() == 2 && spec_decode(
            spec_encode(i)[0],
            Some(spec_encode(i)[1]),
        ) == Ok::<InstructionInfo, InstructionError>(i),
        i.format == InstructionFormat::Short ==> spec_encode(i).len() == 1 && spec_decode(
            spec_encode(i)[0],
            None,
        ) == Ok::<InstructionInfo, InstructionError>(i),
{
    let b = spec_opcode_byte(i.opcode) as int;
    let t = i.tag as int;
    let ind = if i.indirect {
        1int
    } else {
        0int
    };
    let d = if i.format == InstructionFormat::Short {
        i.displacement as int
    } else {
        0int
    };
    let w1 = b * 256 + t * 64 + ind * 32 + d;
    assert(spec_encode(i)[0] == w1 as u16);
    assert(0 <= w1 < 65536);
    assert(w1 as u16 as int == w1);
    assert(w1 / 256 == b) by (nonlinear_arith)
        requires
            w1 == b * 256 + t * 64 + ind * 32 + d,
            0 <= t < 4,
            0 <= ind < 2,
            0 <= d < 32,
            0 <= b < 256,
    ;
    assert((w1 / 64) % 4 == t) by (nonlinear_arith)
        requires
            w1 == b * 256 + t * 64 + ind * 32 + d,
            0 <= t < 4,
            0 <= ind < 2,
            0 <= d < 32,
            0 <= b < 256,
    ;
    assert((w1 / 32) % 2 == ind) by (nonlinear_arith)
        requires
            w1 == b * 256 + t * 64 + ind * 32 + d,
            0 <= t < 4,
            0 <= ind < 2,
            0 <= d < 32,
            0 <= b < 256,
    ;
    assert(w1 % 32 == d) by (nonlinear_arith)
        requires
            w1 == b * 256 + t * 64 + ind * 32 + d,
            0 <= t < 4,
            0 <= ind < 2,
            0 <= d < 32,
            0 <= b < 256,
    ;
    assert(spec_opcode_from_byte(spec_opcode_byte(i.opcode)) == Some(i.opcode));
}

/// The wrapping 16-bit sum of two words.
pub open spec fn spec_wadd16(a: u16, b: u16) -> u16 {
    ((a + b) % 0x10000) as u16
}

/// What effective-address resolution yields for the given fields, index
/// register value and memory: the displacement, plus the index register if
/// the tag selects one (wrapping), then one level of indirection through
/// memory if the indirect flag is set.
pub open spec fn spec_ea(
    tag: u8,
    indirect: bool,
    displacement: u16,
    index_value: u16,
    mem: Seq<u16>,
) -> Result<u16, InstructionError> {
    let base = if tag != 0 {
        spec_wadd16(displacement, index_value)
    } else {
        displacement
    };
    if indirect {
        if base < mem.len() {
            Ok(mem[base as int])
        } else {
            Err(InstructionError::MemoryError(CpuError::MemoryViolation(base)))
        }
    } else {
        Ok(base)
    }
}

impl InstructionInfo {
    /// Decodes an instruction from its first word and, for the long
    /// format, its second.
    pub fn decode(word1: u16, word2: Option<u16>) -> (r: Result<InstructionInfo, InstructionError>)
        ensures
            r == spec_decode(word1, word2),
    {
        let opcode = OpCode::from_word(word1)?;
        let tag = ((word1 / 64) % 4) as u8;
        let indirect = (word1 / 32) % 2 == 1;
        if opcode.is_long_format() {
            match word2 {
                None => Err(InstructionError::MissingDisplacement),
                Some(d) => Ok(
                    InstructionInfo {
                        opcode,
                        format: InstructionFormat::Long,
                        tag,
                        indirect,
                        displacement: d,
                        effective_address: None,
                    },
                ),
            }
        } else {
            Ok(
                InstructionInfo {
                    opcode,
                    format: InstructionFormat::Short,
                    tag,
                    indirect,
                    displacement: word1 % 32,
                    effective_address: None,
                },
            )
        }
    }

    /// Resolves the effective address against the given index register
    /// value and memory, records it in the instruction, and returns it.
    pub fn calculate_effective_address(&mut self, index_value: u16, mem: &Memory) -> (r: Result<
        u16,
        InstructionError,
    >)
        ensures
            r == spec_ea(
                old(self).tag,
                old(self).indirect,
                old(self).displacement,
                index_value,
                mem@,
            ),
            r matches Ok(a) ==> *final(self) == (InstructionInfo {
                effective_address: Some(a),
                ..*old(self)
            }),
            r is Err ==> *final(self) == *old(self),
    {
        let base: u16 = if self.tag != 0 {
            let sum: u32 = self.displacement as u32 + index_value as u32;
            (sum % 0x10000) as u16
        } else {
            self.displacement
        };
        let address: u16 = if self.indirect {
            match mem.read(base as usize) {
                Ok(w) => w,
                Err(e) => {
                    return Err(InstructionError::MemoryError(e));
                },
            }
        } else {
            base
        };
        self.effective_address = Some(address);
        Ok(address)
    }

    /// The instruction's size in words: one for the short format, two for
    /// the long.
    pub fn size_in_words(&self) -> (r: u16)
        ensures
            r == self.spec_size(),
    {
        match self.format {
            InstructionFormat::Short => 1,
            InstructionFormat::Long => 2,
        }
    }

    /// One word for the short format, two for the long.
    pub open spec fn spec_size(&self) -> u16 {
        if self.format == InstructionFormat::Long {
            2u16
        } else {
            1u16
        }
    }
}

} // verus!
