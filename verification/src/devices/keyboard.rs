//! Console keyboard device, device code 1: a character-mode input device.
//!
//! Programs sense whether a character is ready, then read characters one
//! at a time; typed characters queue in the input buffer.

use vstd::prelude::*;

verus! {

use std::collections::VecDeque;

use crate::devices::{spec_function_name, Device, DeviceFunction, DeviceModel, Iocc};
use crate::error::{CpuError, CpuErrorModel};
use crate::text::str_to_chars;

/// Console keyboard: queued input characters and a busy flag.
pub struct DeviceConsoleKeyboard {
    /// Characters waiting to be read, oldest first.
    pub input_buffer: VecDeque<u16>,
    /// Whether an operation is in progress.
    pub busy: bool,
}

/// How one channel command changes a keyboard with pending input `buffer`:
/// Sense writes 1 (character ready) or 0 into the WCA cell if it is in
/// bounds; Read consumes the oldest character into the WCA cell, or fails
/// when none is pending; every other function fails. The buffer alone
/// changes, and only on a successful Read.
pub open spec fn spec_keyboard_step(buffer: Seq<u16>, busy: bool, iocc: Iocc, mem: Seq<u16>) -> (
    DeviceModel,
    Seq<u16>,
    Result<(), CpuErrorModel>,
) {
    match iocc.function {
        DeviceFunction::Sense => (
            DeviceModel::Keyboard { buffer, busy },
            if iocc.wca < mem.len() {
                mem.update(iocc.wca as int, if buffer.len() > 0 {
                    1u16
                } else {
                    0u16
                })
            } else {
                mem
            },
            Ok(()),
        ),
        DeviceFunction::Read => {
            if buffer.len() > 0 {
                (
                    DeviceModel::Keyboard { buffer: buffer.subrange(1, buffer.len() as int), busy },
                    if iocc.wca < mem.len() {
                        mem.update(iocc.wca as int, buffer[0])
                    } else {
                        mem
                    },
                    Ok(()),
                )
            } else {
                (
                    DeviceModel::Keyboard { buffer, busy },
                    mem,
                    Err(CpuErrorModel::DeviceError("Keyboard: No character available"@)),
                )
            }
        },
        _ => (
            DeviceModel::Keyboard { buffer, busy },
            mem,
            Err(
                CpuErrorModel::DeviceError(
                    "Keyboard: Unsupported function "@ + spec_function_name(iocc.function),
                ),
            ),
        ),
    }
}

impl DeviceConsoleKeyboard {
    /// Creates a keyboard with an empty input buffer.
    pub fn new() -> (r: DeviceConsoleKeyboard)
        ensures
            r.input_buffer@ == Seq::<u16>::empty(),
            r.busy == false,
    {
        DeviceConsoleKeyboard { input_buffer: VecDeque::new(), busy: false }
    }

    /// Queues one typed character.
    pub fn type_char(&mut self, ch: u16)
        ensures
            final(self).input_buffer@ == old(self).input_buffer@.push(ch),
            final(self).busy == old(self).busy,
    {
        self.input_buffer.push_back(ch);
    }

    /// Queues every character of a string, in order, each as its code
    /// point truncated to a word.
    pub fn type_string(&mut self, s: &str)
        ensures
            final(self).input_buffer@ == old(self).input_buffer@ + s@.map_values(
                |c: char| c as u16,
            ),
            final(self).busy == old(self).busy,
    {
        let chars = str_to_chars(s);
        let mut i: usize = 0;
        while i < chars.len()
            invariant
                i <= chars@.len(),
                chars@ == s@,
                self.busy == old(self).busy,
                self.input_buffer@ == old(self).input_buffer@ + s@.subrange(
                    0,
                    i as int,
                ).map_values(|c: char| c as u16),
            decreases chars@.len() - i,
        {
            self.input_buffer.push_back(chars[i] as u16);
            proof {
                assert(s@.subrange(0, i + 1).map_values(|c: char| c as u16) =~= s@.subrange(
                    0,
                    i as int,
                ).map_values(|c: char| c as u16).push(s@[i as int] as u16));
            }
            i = i + 1;
        }
        proof {
            assert(s@.subrange(0, s@.len() as int) =~= s@);
        }
    }

    /// Whether a character is waiting to be read.
    pub fn has_char(&self) -> (r: bool)
        ensures
            r == (self.input_buffer@.len() > 0),
    {
        self.input_buffer.len() > 0
    }

    /// Takes the oldest pending character, if any.
    fn read_char(&mut self) -> (r: Option<u16>)
        ensures
            old(self).input_buffer@.len() == 0 ==> r is None && final(self).input_buffer@ == old(
                self,
            ).input_buffer@ && final(self).busy == old(self).busy,
            old(self).input_buffer@.len() > 0 ==> {
                &&& r == Some(old(self).input_buffer@[0])
                &&& final(self).input_buffer@ == old(self).input_buffer@.subrange(
                    1,
                    old(self).input_buffer@.len() as int,
                )
                &&& final(self).busy == old(self).busy
            },
    {
        self.input_buffer.pop_front()
    }

    /// The device code, 1.
    pub fn device_code(&self) -> (r: u8)
        ensures
            r == 1u8,
    {
        1
    }

    /// The device's display name.
    pub fn device_name(&self) -> (r: &'static str)
        ensures
            r@ == "Console Keyboard"@,
    {
        "Console Keyboard"
    }

    /// Whether an operation is in progress.
    pub fn is_busy(&self) -> (r: bool)
        ensures
            r == self.busy,
    {
        self.busy
    }

    /// Drops pending input and clears the busy flag.
    pub fn reset(&mut self)
        ensures
            final(self).input_buffer@ == Seq::<u16>::empty(),
            final(self).busy == false,
    {
        self.input_buffer.clear();
        self.busy = false;
    }

    /// Executes one channel command: Sense reports whether a character is
    /// ready, Read consumes one character into memory.
    pub fn execute_iocc(&mut self, iocc: &Iocc, memory: &mut Vec<u16>) -> (r: Result<
        (),
        CpuError,
    >)
        ensures
            ({
                let stepped = spec_keyboard_step(
                    old(self).input_buffer@,
                    old(self).busy,
                    *iocc,
                    old(memory)@,
                );
                &&& DeviceModel::Keyboard {
                    buffer: final(self).input_buffer@,
                    busy: final(self).busy,
                } == stepped.0
                &&& final(memory)@ == stepped.1
                &&& crate::error::spec_cpu_result(r) == stepped.2
            }),
    {
        match iocc.function {
            DeviceFunction::Sense => {
                let status: u16 = if self.has_char() {
                    1
                } else {
                    0
                };
                let idx = iocc.wca as usize;
                if idx < memory.len() {
                    memory[idx] = status;
                }
                Ok(())
            },
            DeviceFunction::Read => {
                match self.read_char() {
                    Some(ch) => {
                        let idx = iocc.wca as usize;
                        if idx < memory.len() {
                            memory[idx] = ch;
                        }
                        Ok(())
                    },
                    None => Err(
                        CpuError::DeviceError(
                            String::from_str("Keyboard: No character available"),
                        ),
                    ),
                }
            },
            _ => {
                let msg = String::from_str("Keyboard: Unsupported function ");
                Err(CpuError::DeviceError(msg.concat(iocc.function.name().as_str())))
            },
        }
    }
}

impl Device for DeviceConsoleKeyboard {
    fn device_code(&self) -> u8 {
        DeviceConsoleKeyboard::device_code(self)
    }

    fn device_name(&self) -> &'static str {
        DeviceConsoleKeyboard::device_name(self)
    }

    fn execute_iocc(&mut self, iocc: &Iocc, memory: &mut Vec<u16>) -> Result<(), CpuError> {
        DeviceConsoleKeyboard::execute_iocc(self, iocc, memory)
    }

    fn is_busy(&self) -> bool {
        DeviceConsoleKeyboard::is_busy(self)
    }

    fn reset(&mut self) {
        DeviceConsoleKeyboard::reset(self)
    }
}

} // verus!
