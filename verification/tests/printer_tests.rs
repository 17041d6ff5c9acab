//! Console printer device tests.

use s1130_core::devices::{DeviceConsolePrinter, DeviceFunction, Iocc};

#[test]
fn test_printer_creation() {
    let printer = DeviceConsolePrinter::new();
    assert_eq!(printer.device_code(), 2);
    assert_eq!(printer.device_name(), "Console Printer");
    assert_eq!(printer.get_output(), "");
}

#[test]
fn printer_test_sense_operation() {
    let mut printer = DeviceConsolePrinter::new();
    let mut memory = vec![0u16; 100];

    let iocc = Iocc {
        wca: 50,
        device_code: 2,
        function: DeviceFunction::Sense,
        modifiers: 0,
    };

    printer.execute_iocc(&iocc, &mut memory).unwrap();
    assert_eq!(memory[50], 1);
}

#[test]
fn test_write_operation() {
    let mut printer = DeviceConsolePrinter::new();
    let mut memory = vec![0u16; 100];

    memory[50] = b'A' as u16;

    let iocc = Iocc {
        wca: 50,
        device_code: 2,
        function: DeviceFunction::Write,
        modifiers: 0,
    };

    printer.execute_iocc(&iocc, &mut memory).unwrap();
    assert_eq!(printer.get_output(), "A");
}

#[test]
fn test_write_multiple_chars() {
    let mut printer = DeviceConsolePrinter::new();
    let mut memory = vec![0u16; 100];

    for ch in "HELLO".chars() {
        memory[50] = ch as u16;
        let iocc = Iocc {
            wca: 50,
            device_code: 2,
            function: DeviceFunction::Write,
            modifiers: 0,
        };
        printer.execute_iocc(&iocc, &mut memory).unwrap();
    }

    assert_eq!(printer.get_output(), "HELLO");
}

#[test]
fn test_clear_output() {
    let mut printer = DeviceConsolePrinter::new();
    printer.output_buffer.push(b'A' as u16);
    assert_eq!(printer.get_output(), "A");

    printer.clear_output();
    assert_eq!(printer.get_output(), "");
}
