//! Console printer device, device code 2: a character-mode output device.
//!
//! Programs sense readiness (this printer is always ready) and write
//! characters one at a time; printed characters accumulate in the output
//! buffer for inspection.

use vstd::prelude::*;

verus! {

use crate::devices::{spec_function_name, Device, DeviceFunction, DeviceModel, Iocc};
use crate::error::{CpuError, CpuErrorModel};
use crate::text::chars_to_string;

/// Console printer: everything printed so far and a busy flag.
pub struct DeviceConsolePrinter {
    /// Characters printed so far, as words, oldest first.
    pub output_buffer: Vec<u16>,
    /// Whether an operation is in progress.
    pub busy: bool,
}

/// Whether a word is a valid Unicode scalar value (the 16-bit surrogate
/// range is not).
pub open spec fn spec_word_is_char(w: u16) -> bool {
    w < 0xD800 || w > 0xDFFF
}

/// How one channel command changes a printer that has printed `output`:
/// Sense writes 1 (always ready) into the WCA cell if it is in bounds;
/// Write appends the WCA cell's word to the output, and fails if the WCA
/// is out of bounds; every other function fails. Memory changes only on
/// Sense.
pub open spec fn spec_printer_step(output: Seq<u16>, busy: bool, iocc: Iocc, mem: Seq<u16>) -> (
    DeviceModel,
    Seq<u16>,
    Result<(), CpuErrorModel>,
) {
    match iocc.function {
        DeviceFunction::Sense => (
            DeviceModel::Printer { output, busy },
            if iocc.wca < mem.len() {
                mem.update(iocc.wca as int, 1u16)
            } else {
                mem
            },
            Ok(()),
        ),
        DeviceFunction::Write => {
            if iocc.wca < mem.len() {
                (
                    DeviceModel::Printer { output: output.push(mem[iocc.wca as int]), busy },
                    mem,
                    Ok(()),
                )
            } else {
                (
                    DeviceModel::Printer { output, busy },
                    mem,
                    Err(CpuErrorModel::DeviceError("Printer: Invalid memory address"@)),
                )
            }
        },
        _ => (
            DeviceModel::Printer { output, busy },
            mem,
            Err(
                CpuErrorModel::DeviceError(
                    "Printer: Unsupported function "@ + spec_function_name(iocc.function),
                ),
            ),
        ),
    }
}

/// Relies on std's `char::from_u32`: `Some` exactly for the Unicode
/// scalar values (everything below 0x110000 except the surrogate range),
/// and the returned character has that code point.
#[verifier::external_body]
fn char_from_u32(u: u32) -> (r: Option<char>)
    ensures
        r is Some <==> (u < 0xD800 || (0xDFFF < u && u < 0x110000)),
        r matches Some(c) ==> c as u32 == u,
{
    char::from_u32(u)
}

impl DeviceConsolePrinter {
    /// Creates a printer with empty output.
    pub fn new() -> (r: DeviceConsolePrinter)
        ensures
            r.output_buffer@ == Seq::<u16>::empty(),
            r.busy == false,
    {
        DeviceConsolePrinter { output_buffer: Vec::new(), busy: false }
    }

    /// The printed output as text: each word becomes the character with
    /// its code point, or `'?'` where the word is no valid character.
    pub fn get_output(&self) -> (r: String)
        ensures
            r@.len() == self.output_buffer@.len(),
            forall|i: int|
                0 <= i < r@.len() ==> (if spec_word_is_char(self.output_buffer@[i]) {
                    r@[i] as u32 == self.output_buffer@[i]
                } else {
                    r@[i] == '?'
                }),
    {
        let mut chars: Vec<char> = Vec::new();
        let mut i: usize = 0;
        while i < self.output_buffer.len()
            invariant
                i <= self.output_buffer@.len(),
                chars@.len() == i,
                forall|j: int|
                    0 <= j < i ==> (if spec_word_is_char(self.output_buffer@[j]) {
                        chars@[j] as u32 == self.output_buffer@[j]
                    } else {
                        chars@[j] == '?'
                    }),
            decreases self.output_buffer@.len() - i,
        {
            let w = self.output_buffer[i];
            let c = match char_from_u32(w as u32) {
                Some(c) => c,
                None => '?',
            };
            chars.push(c);
            i = i + 1;
        }
        chars_to_string(&chars)
    }

    /// The raw printed words.
    pub fn get_output_raw(&self) -> (r: &[u16])
        ensures
            r@ == self.output_buffer@,
    {
        self.output_buffer.as_slice()
    }

    /// Drops everything printed so far.
    pub fn clear_output(&mut self)
        ensures
            final(self).output_buffer@ == Seq::<u16>::empty(),
            final(self).busy == old(self).busy,
    {
        self.output_buffer.clear();
    }

    /// Appends one word to the output.
    fn write_char(&mut self, ch: u16)
        ensures
            final(self).output_buffer@ == old(self).output_buffer@.push(ch),
            final(self).busy == old(self).busy,
    {
        self.output_buffer.push(ch);
    }

    /// The device code, 2.
    pub fn device_code(&self) -> (r: u8)
        ensures
            r == 2u8,
    {
        2
    }

    /// The device's display name.
    pub fn device_name(&self) -> (r: &'static str)
        ensures
            r@ == "Console Printer"@,
    {
        "Console Printer"
    }

    /// Whether an operation is in progress.
    pub fn is_busy(&self) -> (r: bool)
        ensures
            r == self.busy,
    {
        self.busy
    }

    /// Drops the output and clears the busy flag.
    pub fn reset(&mut self)
        ensures
            final(self).output_buffer@ == Seq::<u16>::empty(),
            final(self).busy == false,
    {
        self.output_buffer.clear();
        self.busy = false;
    }

    /// Executes one channel command: Sense reports ready, Write prints the
    /// word the WCA points at.
    pub fn execute_iocc(&mut self, iocc: &Iocc, memory: &mut Vec<u16>) -> (r: Result<
        (),
        CpuError,
    >)
        ensures
            ({
                let stepped = spec_printer_step(
                    old(self).output_buffer@,
                    old(self).busy,
                    *iocc,
                    old(memory)@,
                );
                &&& DeviceModel::Printer {
                    output: final(self).output_buffer@,
                    busy: final(self).busy,
                } == stepped.0
                &&& final(memory)@ == stepped.1
                &&& crate::error::spec_cpu_result(r) == stepped.2
            }),
    {
        match iocc.function {
            DeviceFunction::Sense => {
                let idx = iocc.wca as usize;
                if idx < memory.len() {
                    memory[idx] = 1;
                }
                Ok(())
            },
            DeviceFunction::Write => {
                let idx = iocc.wca as usize;
                if idx < memory.len() {
                    let ch = memory[idx];
                    self.write_char(ch);
                    Ok(())
                } else {
                    Err(
                        CpuError::DeviceError(String::from_str("Printer: Invalid memory address")),
                    )
                }
            },
            _ => {
                let msg = String::from_str("Printer: Unsupported function ");
                Err(CpuError::DeviceError(msg.concat(iocc.function.name().as_str())))
            },
        }
    }
}

impl Device for DeviceConsolePrinter {
    fn device_code(&self) -> u8 {
        DeviceConsolePrinter::device_code(self)
    }

    fn device_name(&self) -> &'static str {
        DeviceConsolePrinter::device_name(self)
    }

    fn execute_iocc(&mut self, iocc: &Iocc, memory: &mut Vec<u16>) -> Result<(), CpuError> {
        DeviceConsolePrinter::execute_iocc(self, iocc, memory)
    }

    fn is_busy(&self) -> bool {
        DeviceConsolePrinter::is_busy(self)
    }

    fn reset(&mut self) {
        DeviceConsolePrinter::reset(self)
    }
}

} // verus!
