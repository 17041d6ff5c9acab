//! Card reader device, device code 9: a block-mode input device.
//!
//! Cards hold 80 columns of one word each and queue in a hopper. A read is
//! initiated by a channel command whose WCA cell holds the negated word
//! count; the data lands at the following addresses in one block transfer.

use vstd::prelude::*;

verus! {

use std::collections::VecDeque;

use crate::devices::{Device, DeviceFunction, DeviceModel, Iocc};
use crate::error::{CpuError, CpuErrorModel};

/// One punched card: 80 columns of one 16-bit word each.
#[derive(Debug, Clone, PartialEq, Eq)]
pub struct Card {
    /// The card's 80 column words.
    pub columns: Vec<u16>,
}

/// The number of columns on a card.
pub const CARD_COLUMNS: usize = 80;

impl Card {
    /// Creates a blank card, all columns zero.
    pub fn new() -> (r: Card)
        ensures
            r.columns@.len() == CARD_COLUMNS,
            forall|i: int| 0 <= i < CARD_COLUMNS ==> r.columns@[i] == 0u16,
    {
        Card { columns: vec![0u16; CARD_COLUMNS] }
    }

    /// Creates a card holding the given words: data beyond 80 columns is
    /// dropped, missing columns stay zero.
    pub fn from_data(data: &[u16]) -> (r: Card)
        ensures
            r.columns@.len() == CARD_COLUMNS,
            forall|i: int|
                0 <= i < CARD_COLUMNS ==> r.columns@[i] == (if i < data@.len() {
                    data@[i]
                } else {
                    0u16
                }),
    {
        let mut columns: Vec<u16> = Vec::new();
        let mut i: usize = 0;
        while i < CARD_COLUMNS
            invariant
                i <= CARD_COLUMNS,
                columns@.len() == i,
                forall|j: int|
                    0 <= j < i ==> columns@[j] == (if j < data@.len() {
                        data@[j]
                    } else {
                        0u16
                    }),
            decreases CARD_COLUMNS - i,
        {
            if i < data.len() {
                columns.push(data[i]);
            } else {
                columns.push(0);
            }
            i = i + 1;
        }
        Card { columns }
    }
}

/// Card reader: the hopper of waiting cards and the state of the current
/// transfer.
pub struct Device2501 {
    /// Cards waiting to be read, next card first.
    pub hopper: VecDeque<Card>,
    /// Whether a read has been initiated and not yet completed.
    pub read_in_progress: bool,
    /// Whether the last operation completed.
    pub operation_complete: bool,
    /// Whether the card just read was the last one in the hopper.
    pub last_card: bool,
    /// Destination address of the current transfer.
    pub read_address: u16,
    /// Number of words the current transfer moves.
    pub read_count: u16,
}

/// The model of a reader's card hopper: each card as its column words.
pub open spec fn spec_hopper(d: Device2501) -> Seq<Seq<u16>> {
    d.hopper@.map_values(|card: Card| card.columns@)
}

/// What one block transfer does: with a read in progress and a card
/// waiting, the next card leaves the hopper; when its words fit in memory
/// they are copied to the read address and the transfer completes, else
/// nothing further happens and the card is lost.
pub open spec fn spec_execute_read(pre: DeviceModel, mem: Seq<u16>) -> (DeviceModel, Seq<u16>, bool) {
    match pre {
        DeviceModel::CardReader {
            hopper,
            read_in_progress,
            operation_complete,
            last_card,
            read_address,
            read_count,
        } => {
            if !read_in_progress || hopper.len() == 0 {
                (pre, mem, false)
            } else {
                let card = hopper[0];
                let rest = hopper.subrange(1, hopper.len() as int);
                let count = if read_count < 80 {
                    read_count as int
                } else {
                    80int
                };
                if read_address + count <= mem.len() && count <= card.len() {
                    let mem2 = Seq::new(
                        mem.len(),
                        |i: int|
                            if read_address <= i < read_address + count {
                                card[i - read_address]
                            } else {
                                mem[i]
                            },
                    );
                    (
                        DeviceModel::CardReader {
                            hopper: rest,
                            read_in_progress: false,
                            operation_complete: true,
                            last_card: rest.len() == 0,
                            read_address,
                            read_count,
                        },
                        mem2,
                        true,
                    )
                } else {
                    (
                        DeviceModel::CardReader {
                            hopper: rest,
                            read_in_progress,
                            operation_complete,
                            last_card,
                            read_address,
                            read_count,
                        },
                        mem,
                        false,
                    )
                }
            }
        },
        _ => (pre, mem, false),
    }
}

/// The reader's status word: bit 0x1000 last card, 0x0800 operation
/// complete, 0x0002 busy, 0x0001 not ready (hopper empty with nothing
/// completing).
pub open spec fn spec_reader_status(d: DeviceModel) -> u16 {
    match d {
        DeviceModel::CardReader {
            hopper,
            read_in_progress,
            operation_complete,
            last_card,
            ..
        } => ((if last_card {
            0x1000int
        } else {
            0int
        }) + (if operation_complete {
            0x800int
        } else {
            0int
        }) + (if read_in_progress {
            0x2int
        } else {
            0int
        }) + (if hopper.len() == 0 && !operation_complete {
            0x1int
        } else {
            0int
        })) as u16,
        _ => 0u16,
    }
}

/// How one channel command changes the reader: Sense clears the completion
/// flags when modifier bit 0 is set; InitRead reads the negated word count
/// from the WCA cell and transfers the next card at once; any other
/// function is refused as invalid for this device.
pub open spec fn spec_card_reader_step(pre: DeviceModel, iocc: Iocc, mem: Seq<u16>) -> (
    DeviceModel,
    Seq<u16>,
    Result<(), CpuErrorModel>,
) {
    match pre {
        DeviceModel::CardReader {
            hopper,
            read_in_progress,
            operation_complete,
            last_card,
            read_address,
            read_count,
        } => {
            match iocc.function {
                DeviceFunction::Sense => (
                    if iocc.modifiers % 2 == 1 {
                        DeviceModel::CardReader {
                            hopper,
                            read_in_progress,
                            operation_complete: false,
                            last_card: false,
                            read_address,
                            read_count,
                        }
                    } else {
                        pre
                    },
                    mem,
                    Ok(()),
                ),
                DeviceFunction::InitRead => {
                    if read_in_progress {
                        (pre, mem, Ok(()))
                    } else if iocc.wca >= mem.len() {
                        (pre, mem, Err(CpuErrorModel::InvalidAddress(iocc.wca)))
                    } else {
                        let wc = mem[iocc.wca as int];
                        let count: u16 = if wc > 0x8000 {
                            (0x10000 - wc) as u16
                        } else {
                            0u16
                        };
                        let clipped: u16 = if count < 80 {
                            count
                        } else {
                            80u16
                        };
                        let started = DeviceModel::CardReader {
                            hopper,
                            read_in_progress: true,
                            operation_complete,
                            last_card,
                            read_address: ((iocc.wca + 1) % 0x10000) as u16,
                            read_count: clipped,
                        };
                        let stepped = spec_execute_read(started, mem);
                        (stepped.0, stepped.1, Ok(()))
                    }
                },
                _ => (pre, mem, Err(CpuErrorModel::InvalidDevice(9u8))),
            }
        },
        _ => (pre, mem, Ok(())),
    }
}

impl Device2501 {
    /// Creates a reader with an empty hopper.
    pub fn new() -> (r: Device2501)
        ensures
            r.hopper@.len() == 0,
            r.read_in_progress == false,
            r.operation_complete == false,
            r.last_card == false,
            r.read_address == 0u16,
            r.read_count == 0u16,
    {
        Device2501 {
            hopper: VecDeque::new(),
            read_in_progress: false,
            operation_complete: false,
            last_card: false,
            read_address: 0,
            read_count: 0,
        }
    }

    /// Places one card at the back of the hopper.
    pub fn load_card(&mut self, card: Card)
        ensures
            final(self).hopper@ == old(self).hopper@.push(card),
            final(self).read_in_progress == old(self).read_in_progress,
            final(self).operation_complete == old(self).operation_complete,
            final(self).last_card == old(self).last_card,
            final(self).read_address == old(self).read_address,
            final(self).read_count == old(self).read_count,
    {
        self.hopper.push_back(card);
    }

    /// Places the given cards at the back of the hopper, in order.
    pub fn load_cards(&mut self, cards: Vec<Card>)
        ensures
            final(self).hopper@ == old(self).hopper@ + cards@,
            final(self).read_in_progress == old(self).read_in_progress,
            final(self).operation_complete == old(self).operation_complete,
            final(self).last_card == old(self).last_card,
            final(self).read_address == old(self).read_address,
            final(self).read_count == old(self).read_count,
    {
        let mut cards = cards;
        let ghost orig = cards@;
        while cards.len() > 0
            invariant
                self.hopper@ + cards@ == old(self).hopper@ + orig,
                self.read_in_progress == old(self).read_in_progress,
                self.operation_complete == old(self).operation_complete,
                self.last_card == old(self).last_card,
                self.read_address == old(self).read_address,
                self.read_count == old(self).read_count,
            decreases cards@.len(),
        {
            let card = cards.remove(0);
            self.hopper.push_back(card);
            proof {
                assert(self.hopper@ + cards@ =~= old(self).hopper@ + orig);
            }
        }
        proof {
            assert(self.hopper@ =~= self.hopper@ + cards@);
        }
    }

    /// Whether the hopper is empty.
    pub fn is_empty(&self) -> (r: bool)
        ensures
            r == (self.hopper@.len() == 0),
    {
        self.hopper.len() == 0
    }

    /// The number of cards waiting in the hopper.
    pub fn card_count(&self) -> (r: usize)
        ensures
            r == self.hopper@.len(),
    {
        self.hopper.len()
    }

    /// Performs the pending block transfer: moves the next card's words
    /// into memory at the read address and reports whether a card was
    /// read.
    pub fn execute_read(&mut self, memory: &mut Vec<u16>) -> (r: bool)
        ensures
            ({
                let stepped = spec_execute_read(
                    DeviceModel::CardReader {
                        hopper: spec_hopper(*old(self)),
                        read_in_progress: old(self).read_in_progress,
                        operation_complete: old(self).operation_complete,
                        last_card: old(self).last_card,
                        read_address: old(self).read_address,
                        read_count: old(self).read_count,
                    },
                    old(memory)@,
                );
                &&& stepped.0 == DeviceModel::CardReader {
                    hopper: spec_hopper(*final(self)),
                    read_in_progress: final(self).read_in_progress,
                    operation_complete: final(self).operation_complete,
                    last_card: final(self).last_card,
                    read_address: final(self).read_address,
                    read_count: final(self).read_count,
                }
                &&& stepped.1 == final(memory)@
                &&& stepped.2 == r
            }),
    {
        if !self.read_in_progress || self.hopper.len() == 0 {
            return false;
        }
        let card = match self.hopper.pop_front() {
            Some(c) => c,
            None => {
                return false;
            },
        };
        let count: usize = if self.read_count < 80 {
            self.read_count as usize
        } else {
            80
        };
        let addr = self.read_address as usize;
        if card.columns.len() < count {
            // A card always holds 80 columns and the count is clipped to
            // 80, so the transfer never runs off the card; a shorter card
            // can only arrive through direct field manipulation and moves
            // nothing.
            proof {
                assert(spec_hopper(*self) =~= spec_hopper(*old(self)).subrange(
                    1,
                    spec_hopper(*old(self)).len() as int,
                ));
            }
            return false;
        }
        if addr <= memory.len() && count <= memory.len() - addr {
            let mut j: usize = 0;
            while j < count
                invariant
                    j <= count,
                    count <= card.columns@.len(),
                    addr + count <= memory@.len(),
                    memory@.len() <= usize::MAX,
                    memory@.len() == old(memory)@.len(),
                    forall|k: int|
                        0 <= k < memory@.len() ==> memory@[k] == (if addr <= k < addr + j {
                            card.columns@[k - addr]
                        } else {
                            old(memory)@[k]
                        }),
                decreases count - j,
            {
                let slot = addr + j;
                memory[slot] = card.columns[j];
                j = j + 1;
            }
            self.last_card = self.hopper.len() == 0;
            self.operation_complete = true;
            self.read_in_progress = false;
            proof {
                let pre_model = DeviceModel::CardReader {
                    hopper: spec_hopper(*old(self)),
                    read_in_progress: old(self).read_in_progress,
                    operation_complete: old(self).operation_complete,
                    last_card: old(self).last_card,
                    read_address: old(self).read_address,
                    read_count: old(self).read_count,
                };
                let stepped = spec_execute_read(pre_model, old(memory)@);
                assert(spec_hopper(*self) =~= spec_hopper(*old(self)).subrange(
                    1,
                    spec_hopper(*old(self)).len() as int,
                ));
                assert(memory@ =~= stepped.1);
            }
            true
        } else {
            proof {
                assert(spec_hopper(*self) =~= spec_hopper(*old(self)).subrange(
                    1,
                    spec_hopper(*old(self)).len() as int,
                ));
            }
            false
        }
    }

    /// The status word describing the reader's state.
    fn get_status(&self) -> (r: u16)
        ensures
            r == spec_reader_status(
                DeviceModel::CardReader {
                    hopper: spec_hopper(*self),
                    read_in_progress: self.read_in_progress,
                    operation_complete: self.operation_complete,
                    last_card: self.last_card,
                    read_address: self.read_address,
                    read_count: self.read_count,
                },
            ),
    {
        let mut status: u16 = 0;
        if self.last_card {
            status = status + 0x1000;
        }
        if self.operation_complete {
            status = status + 0x0800;
        }
        if self.read_in_progress {
            status = status + 0x0002;
        }
        if self.hopper.len() == 0 && !self.operation_complete {
            status = status + 0x0001;
        }
        status
    }

    /// Clears the completion flags, as a Sense with modifier bit 0 asks.
    fn clear_status(&mut self)
        ensures
            final(self).operation_complete == false,
            final(self).last_card == false,
            final(self).hopper@ == old(self).hopper@,
            final(self).read_in_progress == old(self).read_in_progress,
            final(self).read_address == old(self).read_address,
            final(self).read_count == old(self).read_count,
    {
        self.operation_complete = false;
        self.last_card = false;
    }

    /// The device code, 9.
    pub fn device_code(&self) -> (r: u8)
        ensures
            r == 9u8,
    {
        9
    }

    /// The device's display name.
    pub fn device_name(&self) -> (r: &'static str)
        ensures
            r@ == "2501 Card Reader"@,
    {
        "2501 Card Reader"
    }

    /// Whether a read is in progress.
    pub fn is_busy(&self) -> (r: bool)
        ensures
            r == self.read_in_progress,
    {
        self.read_in_progress
    }

    /// Clears the transfer state; the hopper keeps its cards.
    pub fn reset(&mut self)
        ensures
            final(self).hopper@ == old(self).hopper@,
            final(self).read_in_progress == false,
            final(self).operation_complete == false,
            final(self).last_card == false,
            final(self).read_address == 0u16,
            final(self).read_count == 0u16,
    {
        self.read_in_progress = false;
        self.operation_complete = false;
        self.last_card = false;
        self.read_address = 0;
        self.read_count = 0;
    }

    /// Executes one channel command: Sense optionally clears the
    /// completion flags, InitRead starts and at once performs a block
    /// transfer of the next card.
    pub fn execute_iocc(&mut self, iocc: &Iocc, memory: &mut Vec<u16>) -> (r: Result<
        (),
        CpuError,
    >)
        ensures
            ({
                let stepped = spec_card_reader_step(
                    DeviceModel::CardReader {
                        hopper: spec_hopper(*old(self)),
                        read_in_progress: old(self).read_in_progress,
                        operation_complete: old(self).operation_complete,
                        last_card: old(self).last_card,
                        read_address: old(self).read_address,
                        read_count: old(self).read_count,
                    },
                    *iocc,
                    old(memory)@,
                );
                &&& DeviceModel::CardReader {
                    hopper: spec_hopper(*final(self)),
                    read_in_progress: final(self).read_in_progress,
                    operation_complete: final(self).operation_complete,
                    last_card: final(self).last_card,
                    read_address: final(self).read_address,
                    read_count: final(self).read_count,
                } == stepped.0
                &&& final(memory)@ == stepped.1
                &&& crate::error::spec_cpu_result(r) == stepped.2
            }),
    {
        match iocc.function {
            DeviceFunction::Sense => {
                if iocc.modifiers % 2 == 1 {
                    self.clear_status();
                }
                Ok(())
            },
            DeviceFunction::InitRead => {
                if !self.read_in_progress {
                    let wca = iocc.wca as usize;
                    if wca >= memory.len() {
                        return Err(CpuError::InvalidAddress(iocc.wca));
                    }
                    let wc = memory[wca];
                    let count: u16 = if wc > 0x8000 {
                        // The cell holds the negated word count.
                        (0x10000u32 - wc as u32) as u16
                    } else {
                        0
                    };
                    self.read_address = ((iocc.wca as u32 + 1) % 0x10000) as u16;
                    self.read_count = if count < 80 {
                        count
                    } else {
                        80
                    };
                    self.read_in_progress = true;
                    self.execute_read(memory);
                }
                Ok(())
            },
            _ => Err(CpuError::InvalidDevice(9)),
        }
    }
}

impl Device for Device2501 {
    fn device_code(&self) -> u8 {
        Device2501::device_code(self)
    }

    fn device_name(&self) -> &'static str {
        Device2501::device_name(self)
    }

    fn execute_iocc(&mut self, iocc: &Iocc, memory: &mut Vec<u16>) -> Result<(), CpuError> {
        Device2501::execute_iocc(self, iocc, memory)
    }

    fn is_busy(&self) -> bool {
        Device2501::is_busy(self)
    }

    fn reset(&mut self) {
        Device2501::reset(self)
    }
}

} // verus!
