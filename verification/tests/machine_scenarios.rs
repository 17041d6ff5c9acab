//! Scenario tests over the whole machine: encode/decode round trips,
//! register aliasing, counter advances, arithmetic flag cases, division,
//! skips, halting, the channel-command path, the card reader, and one
//! exact assembly.

use s1130_core::assembler::Assembler;
use s1130_core::devices::{
    AttachedDevice, Card, Device2501, DeviceConsoleKeyboard, DeviceConsolePrinter, DeviceFunction,
    Iocc,
};
use s1130_core::{Cpu, CpuError, InstructionFormat, InstructionInfo, OpCode};

#[test]
fn test_decode_of_encoding_round_trips() {
    // A long-format instruction: opcode byte, tag and indirect flag in
    // word one, displacement in word two.
    let word1 = 0x60u16 * 256 + 2 * 64 + 32;
    let instr = InstructionInfo::decode(word1, Some(0xBEEF)).unwrap();
    assert_eq!(instr.opcode, OpCode::LD);
    assert_eq!(instr.format, InstructionFormat::Long);
    assert_eq!(instr.tag, 2);
    assert!(instr.indirect);
    assert_eq!(instr.displacement, 0xBEEF);

    // A short-format instruction carries its displacement in the low five
    // bits of the single word.
    let word = 0x20u16 * 256 + 1 * 64 + 17;
    let instr = InstructionInfo::decode(word, None).unwrap();
    assert_eq!(instr.opcode, OpCode::SLA);
    assert_eq!(instr.format, InstructionFormat::Short);
    assert_eq!(instr.tag, 1);
    assert!(!instr.indirect);
    assert_eq!(instr.displacement, 17);
}

#[test]
fn test_memory_and_register_alias_both_ways() {
    let mut cpu = Cpu::new();

    // Any address reads back what was written.
    cpu.write_memory(0x0300, 0x4711).unwrap();
    assert_eq!(cpu.read_memory(0x0300).unwrap(), 0x4711);

    // Writing memory cells 1..3 updates the index registers.
    cpu.write_memory(1, 0x0101).unwrap();
    cpu.write_memory(2, 0x0202).unwrap();
    cpu.write_memory(3, 0x0303).unwrap();
    assert_eq!(cpu.get_index_register(1), 0x0101);
    assert_eq!(cpu.get_index_register(2), 0x0202);
    assert_eq!(cpu.get_index_register(3), 0x0303);

    // Writing the registers updates the memory cells.
    cpu.set_index_register(1, 0x1110);
    cpu.set_index_register(2, 0x2220);
    cpu.set_index_register(3, 0x3330);
    assert_eq!(cpu.read_memory(1).unwrap(), 0x1110);
    assert_eq!(cpu.read_memory(2).unwrap(), 0x2220);
    assert_eq!(cpu.read_memory(3).unwrap(), 0x3330);
}

#[test]
fn test_iar_advance_short_and_long() {
    // A short instruction advances the counter by exactly one.
    let mut cpu = Cpu::new();
    cpu.set_iar(0x0400);
    cpu.write_memory(0x0400, 0x2001).unwrap();
    cpu.step().unwrap();
    assert_eq!(cpu.get_iar(), 0x0401);

    // A long instruction advances it by exactly two.
    let mut cpu = Cpu::new();
    cpu.set_iar(0x0400);
    cpu.write_memory(0x0400, 0x6000).unwrap();
    cpu.write_memory(0x0401, 0x0500).unwrap();
    cpu.step().unwrap();
    assert_eq!(cpu.get_iar(), 0x0402);

    // A branch sees the advanced counter before overriding it: the
    // stored return address is the word after the two-word branch.
    let mut cpu = Cpu::new();
    cpu.set_iar(0x0400);
    cpu.write_memory(0x0400, 0x4800).unwrap();
    cpu.write_memory(0x0401, 0x0600).unwrap();
    cpu.step().unwrap();
    assert_eq!(cpu.read_memory(0x0600).unwrap(), 0x0402);
    assert_eq!(cpu.get_iar(), 0x0601);
}

#[test]
fn test_assemble_org_ld_dc_exact_words() {
    // Operation lines are indented: a line starting in column one always
    // supplies a label.
    let mut assembler = Assembler::new();
    let program = assembler
        .assemble(" ORG /0100\n LD A\nA DC /0005\n END")
        .unwrap();

    assert_eq!(program.origin, 0x0100);
    assert_eq!(program.symbols.len(), 1);
    assert_eq!(program.symbols.lookup("A"), Some(0x0102));
    assert_eq!(program.words, vec![0x6000, 0x0102, 0x0005]);
}

#[test]
fn test_add_unsigned_wrap_sets_carry_only() {
    let mut cpu = Cpu::new();
    cpu.set_iar(0x0100);
    cpu.set_acc(0xFFFF);
    cpu.write_memory(0x0100, 0xE000).unwrap();
    cpu.write_memory(0x0101, 0x0200).unwrap();
    cpu.write_memory(0x0200, 1).unwrap();

    cpu.step().unwrap();

    assert_eq!(cpu.get_acc(), 0);
    assert!(cpu.get_carry());
    assert!(!cpu.get_overflow());
}

#[test]
fn test_add_signed_overflow_sets_overflow() {
    let mut cpu = Cpu::new();
    cpu.set_iar(0x0100);
    cpu.set_acc(0x7FFF);
    cpu.write_memory(0x0100, 0xE000).unwrap();
    cpu.write_memory(0x0101, 0x0200).unwrap();
    cpu.write_memory(0x0200, 1).unwrap();

    cpu.step().unwrap();

    assert_eq!(cpu.get_acc(), 0x8000);
    assert!(cpu.get_overflow());
}

#[test]
fn test_divide_by_zero_leaves_registers() {
    let mut cpu = Cpu::new();
    cpu.set_iar(0x0100);
    cpu.set_acc_ext(100);
    cpu.write_memory(0x0100, 0xF800).unwrap();
    cpu.write_memory(0x0101, 0x0200).unwrap();
    cpu.write_memory(0x0200, 0).unwrap();

    cpu.step().unwrap();

    assert!(cpu.get_overflow());
    assert_eq!(cpu.get_acc_ext(), 100);
}

#[test]
fn test_divide_truncates_toward_zero() {
    let mut cpu = Cpu::new();
    cpu.set_iar(0x0100);
    cpu.set_acc_ext((-7i32) as u32);
    cpu.write_memory(0x0100, 0xF800).unwrap();
    cpu.write_memory(0x0101, 0x0200).unwrap();
    cpu.write_memory(0x0200, 2).unwrap();

    cpu.step().unwrap();

    assert_eq!(cpu.get_acc() as i16, -3);
    assert_eq!(cpu.get_ext() as i16, -1);
    assert!(!cpu.get_overflow());
}

#[test]
fn test_divide_quotient_overflow() {
    let mut cpu = Cpu::new();
    cpu.set_iar(0x0100);
    cpu.set_acc_ext(0x0100_0000);
    cpu.write_memory(0x0100, 0xF800).unwrap();
    cpu.write_memory(0x0101, 0x0200).unwrap();
    cpu.write_memory(0x0200, 1).unwrap();

    cpu.step().unwrap();

    assert!(cpu.get_overflow());
    assert_eq!(cpu.get_acc_ext(), 0x0100_0000);
}

#[test]
fn test_wait_step_does_not_count() {
    let mut cpu = Cpu::new();
    cpu.set_iar(0x0100);
    cpu.write_memory(0x0100, 0xB000).unwrap();

    cpu.step().unwrap();
    assert!(cpu.get_wait());
    assert_eq!(cpu.get_instruction_count(), 1);

    let result = cpu.step();
    assert!(matches!(result, Err(CpuError::WaitState)));
    assert_eq!(cpu.get_instruction_count(), 1);
}

#[test]
fn test_shift_by_zero_changes_nothing() {
    let mut cpu = Cpu::new();
    cpu.set_iar(0x0100);
    cpu.set_acc(0x1234);
    cpu.set_carry(false);
    cpu.write_memory(0x0100, 0x2000).unwrap();

    cpu.step().unwrap();

    assert_eq!(cpu.get_acc(), 0x1234);
    assert!(!cpu.get_carry());
}

#[test]
fn test_xio_without_device_is_invalid_device() {
    let mut cpu = Cpu::new();
    cpu.set_iar(0x0100);
    // XIO is one word; the command block at 0x0200 is reached through
    // the indirect pointer in low memory.
    cpu.write_memory(0x0100, 0x4430).unwrap();
    cpu.write_memory(0x0010, 0x0200).unwrap();
    cpu.write_memory(0x0200, 0x0050).unwrap();
    cpu.write_memory(0x0201, 0x0B00).unwrap();

    let result = cpu.step();
    assert!(matches!(result, Err(CpuError::InvalidDevice(1))));
}

#[test]
fn test_keyboard_read_empty_fails() {
    let mut kb = DeviceConsoleKeyboard::new();
    let mut memory = vec![0u16; 16];
    let iocc = Iocc {
        wca: 4,
        device_code: 1,
        function: DeviceFunction::Read,
        modifiers: 0,
    };
    let result = kb.execute_iocc(&iocc, &mut memory);
    assert!(matches!(result, Err(CpuError::DeviceError(_))));
}

#[test]
fn test_printer_rejects_read() {
    let mut printer = DeviceConsolePrinter::new();
    let mut memory = vec![0u16; 16];
    let iocc = Iocc {
        wca: 4,
        device_code: 2,
        function: DeviceFunction::Read,
        modifiers: 0,
    };
    let result = printer.execute_iocc(&iocc, &mut memory);
    assert!(matches!(result, Err(CpuError::DeviceError(_))));
}

#[test]
fn test_card_from_data_pads_and_clips() {
    let card = Card::from_data(&[7, 8, 9]);
    assert_eq!(card.columns.len(), 80);
    assert_eq!(card.columns[0], 7);
    assert_eq!(card.columns[2], 9);
    assert_eq!(card.columns[3], 0);

    let long = vec![1u16; 100];
    let card = Card::from_data(&long);
    assert_eq!(card.columns.len(), 80);
}

#[test]
fn test_card_reader_init_read_transfers_card() {
    let mut reader = Device2501::new();
    assert!(reader.is_empty());
    reader.load_card(Card::from_data(&[7, 8, 9]));
    assert_eq!(reader.card_count(), 1);

    let mut memory = vec![0u16; 32];
    // The WCA cell holds the negated word count; the data lands right
    // after it.
    memory[10] = (-3i16) as u16;
    let iocc = Iocc {
        wca: 10,
        device_code: 9,
        function: DeviceFunction::InitRead,
        modifiers: 0,
    };
    reader.execute_iocc(&iocc, &mut memory).unwrap();

    assert_eq!(memory[11], 7);
    assert_eq!(memory[12], 8);
    assert_eq!(memory[13], 9);
    assert!(reader.is_empty());
    assert!(!reader.is_busy());
}

#[test]
fn test_card_reader_rejects_write() {
    let mut reader = Device2501::new();
    let mut memory = vec![0u16; 16];
    let iocc = Iocc {
        wca: 4,
        device_code: 9,
        function: DeviceFunction::Write,
        modifiers: 0,
    };
    let result = reader.execute_iocc(&iocc, &mut memory);
    assert!(matches!(result, Err(CpuError::InvalidDevice(9))));
}

#[test]
fn test_xio_basic() {
    let mut cpu = Cpu::new();

    let mut keyboard = DeviceConsoleKeyboard::new();
    keyboard.type_char(b'A' as u16);

    cpu.attach_device(AttachedDevice::Keyboard(keyboard)).unwrap();
    cpu.attach_device(AttachedDevice::Printer(DeviceConsolePrinter::new()))
        .unwrap();

    let source = r#"
        ORG 0x100

        LDX 1,KRPTR     * XR1 -> keyboard read command
        LDX 2,PWPTR     * XR2 -> printer write command
        XIO 0,1
        LD  CHAR
        XIO 0,2
        WAIT

KRPTR   DC  KREAD
PWPTR   DC  PWRITE

KREAD   DC  CHAR
        DC  0x0B00      * Device 1 (0x0800), Function 3 (0x0300)

PWRITE  DC  CHAR
        DC  0x1500      * Device 2 (0x1000), Function 5 (0x0500)

CHAR    BSS 1
    "#;

    let mut assembler = Assembler::new();
    let program = assembler.assemble(source).unwrap();

    cpu.write_memory_range(program.origin as usize, &program.words)
        .unwrap();
    cpu.set_iar(program.origin);

    for _ in 0..10 {
        match cpu.step() {
            Ok(()) => {}
            Err(_) => break,
        }
        if cpu.get_wait() {
            break;
        }
    }

    let printer_device = cpu.get_device_mut_ref(2).unwrap();
    let output = match printer_device {
        AttachedDevice::Printer(p) => p.get_output(),
        _ => panic!("Expected the console printer at device code 2"),
    };

    assert_eq!(output, "A");
}

#[test]
fn test_attach_device_rejects_duplicate_code() {
    let mut cpu = Cpu::new();
    cpu.attach_device(AttachedDevice::Keyboard(DeviceConsoleKeyboard::new()))
        .unwrap();
    let result = cpu.attach_device(AttachedDevice::Keyboard(DeviceConsoleKeyboard::new()));
    assert!(matches!(result, Err(CpuError::DeviceError(_))));
}

#[test]
fn test_assembler_error_messages() {
    let mut assembler = Assembler::new();

    let result = assembler.assemble("    DC");
    match result {
        Err(e) => assert_eq!(e.message(), "Syntax error on line 1: DC requires an operand"),
        Ok(_) => panic!("DC without operand should fail"),
    }

    let result = assembler.assemble("    BSS");
    match result {
        Err(e) => assert_eq!(
            e.message(),
            "Syntax error on line 1: BSS requires a size operand"
        ),
        Ok(_) => panic!("BSS without operand should fail"),
    }

    let result = assembler.assemble("    LD 0,7");
    match result {
        Err(e) => assert_eq!(
            e.message(),
            "Syntax error on line 1: Index register must be 0-3, got 7"
        ),
        Ok(_) => panic!("Tag above 3 should fail"),
    }

    let result = assembler.assemble("    DC 99999");
    assert!(result.is_err(), "A value past 16 bits should fail");

    let result = assembler.assemble("    DC 0899");
    assert!(result.is_err(), "Octal digits past 7 should fail");
}

#[test]
fn test_lexer_rejects_unexpected_character() {
    let mut lexer = s1130_core::assembler::Lexer::new("%");
    let result = lexer.next_token();
    assert!(result.is_err());
}

#[test]
fn test_step_out_of_bounds_fetch_fails() {
    let mut cpu = Cpu::with_memory_size(16);
    cpu.set_iar(100);
    let result = cpu.step();
    assert!(matches!(result, Err(CpuError::MemoryViolation(100))));
}

#[test]
fn test_error_message_variants() {
    assert_eq!(
        CpuError::InvalidInstruction(0x0100).message(),
        "Invalid instruction at address 0x0100"
    );
    assert_eq!(CpuError::InvalidDevice(9).message(), "Invalid device: 0x09");
    assert_eq!(
        CpuError::InvalidAddress(0x0042).message(),
        "Invalid address: 0x0042"
    );
    assert_eq!(
        CpuError::WaitState.message(),
        "Execution halted by WAIT instruction"
    );
    assert_eq!(
        s1130_core::AssemblerError::DuplicateLabel("X".to_string()).message(),
        "Duplicate label: X"
    );
    assert_eq!(
        s1130_core::AssemblerError::UndefinedSymbol("Y".to_string()).message(),
        "Undefined symbol: Y"
    );
    assert_eq!(
        s1130_core::AssemblerError::ValueOutOfRange(-5).message(),
        "Value out of range: -5"
    );
    assert_eq!(
        s1130_core::InstructionError::InvalidOpcode(0xFF).message(),
        "Invalid opcode: 0xff"
    );
    assert_eq!(
        s1130_core::InstructionError::MissingDisplacement.message(),
        "Missing displacement word for long format instruction"
    );
    assert_eq!(
        s1130_core::DeviceError::NotReady.message(),
        "Device not ready"
    );
    assert_eq!(
        s1130_core::DeviceError::UnsupportedFunction(6).message(),
        "Unsupported function: 6"
    );
    assert_eq!(
        s1130_core::DeviceError::IoError("boom".to_string()).message(),
        "I/O error: boom"
    );
}

#[test]
fn test_card_reader_load_cards_and_direct_read() {
    let mut reader = Device2501::new();
    reader.load_cards(vec![Card::from_data(&[1, 2]), Card::from_data(&[3, 4])]);
    assert_eq!(reader.card_count(), 2);

    let mut memory = vec![0u16; 16];
    memory[0] = (-2i16) as u16;
    let iocc = Iocc {
        wca: 0,
        device_code: 9,
        function: DeviceFunction::InitRead,
        modifiers: 0,
    };
    reader.execute_iocc(&iocc, &mut memory).unwrap();
    assert_eq!(memory[1], 1);
    assert_eq!(memory[2], 2);
    assert_eq!(reader.card_count(), 1);

    // A second transfer through the public block-transfer entry point.
    reader.read_address = 5;
    reader.read_count = 2;
    reader.read_in_progress = true;
    let moved = reader.execute_read(&mut memory);
    assert!(moved);
    assert_eq!(memory[5], 3);
    assert_eq!(memory[6], 4);
    assert!(reader.is_empty());
}

#[test]
fn test_card_reader_sense_clears_status() {
    let mut reader = Device2501::new();
    reader.operation_complete = true;
    reader.last_card = true;

    let mut memory = vec![0u16; 8];
    let iocc = Iocc {
        wca: 0,
        device_code: 9,
        function: DeviceFunction::Sense,
        modifiers: 1,
    };
    reader.execute_iocc(&iocc, &mut memory).unwrap();
    assert!(!reader.operation_complete);
    assert!(!reader.last_card);
}

#[test]
fn test_tokenize_stops_at_error() {
    let mut lexer = s1130_core::assembler::Lexer::new("LD 100\n%");
    let result = lexer.tokenize();
    assert!(result.is_err());
}
