//! The execution engine: one handler per opcode, each proved against a
//! specification function over the machine model.
//!
//! Unless a case below names them, carry and overflow are untouched; a
//! handler that fails leaves behind exactly what it had already changed
//! (the two-word store is the one case with a partial effect).

use vstd::prelude::*;

verus! {

use crate::cpu::registers::{
    spec_flags_from_word, spec_flags_word, spec_xr_get, StatusFlags,
};
use crate::cpu::{
    spec_count_up, spec_fetch_decode, spec_set_index_register, spec_write_memory, Cpu, CpuModel,
};
use crate::devices::{
    lemma_device_index, spec_device_code, spec_device_index, spec_device_step, spec_iocc_decode,
    Iocc,
};
use crate::error::{spec_cpu_result, CpuError, CpuErrorModel};
use crate::instructions::{spec_wadd16, InstructionInfo, OpCode};

/// A 16-bit word read as a signed value.
pub open spec fn spec_as_i16(x: u16) -> int {
    if x >= 0x8000 {
        x - 0x10000
    } else {
        x as int
    }
}

/// A 32-bit word read as a signed value.
pub open spec fn spec_as_i32(x: u32) -> int {
    if x >= 0x8000_0000 {
        x - 0x1_0000_0000
    } else {
        x as int
    }
}

/// A value reduced to 16 bits, two's complement.
pub open spec fn spec_wrap16(i: int) -> u16 {
    (i % 0x10000) as u16
}

/// A value reduced to 32 bits, two's complement.
pub open spec fn spec_wrap32(i: int) -> u32 {
    (i % 0x1_0000_0000) as u32
}

/// The accumulator:extension pair as one 32-bit value.
pub open spec fn spec_acc_ext(m: CpuModel) -> u32 {
    (m.acc * 0x10000 + m.ext) as u32
}

/// The machine with the accumulator:extension pair set from one 32-bit
/// value.
pub open spec fn spec_with_acc_ext(m: CpuModel, v: u32) -> CpuModel {
    CpuModel { acc: (v / 0x10000) as u16, ext: (v % 0x10000) as u16, ..m }
}

/// Truncating division, as the hardware divides: the quotient of the
/// magnitudes, negative when the signs differ.
pub open spec fn spec_trunc_div(a: int, b: int) -> int {
    let q = abs(a) / abs(b);
    if (a < 0) != (b < 0) {
        -q
    } else {
        q
    }
}

/// The remainder of truncating division: the remainder of the magnitudes,
/// carrying the dividend's sign.
pub open spec fn spec_trunc_rem(a: int, b: int) -> int {
    let r = abs(a) % abs(b);
    if a < 0 {
        -r
    } else {
        r
    }
}

/// The magnitude of a value.
pub open spec fn abs(a: int) -> int {
    if a < 0 {
        -a
    } else {
        a
    }
}

/// The branch condition a tag selects: 0 always, 1 carry set, 2 overflow
/// set, 3 carry clear; any other tag never branches.
pub open spec fn spec_branch_cond(f: StatusFlags, tag: u8) -> bool {
    if tag == 0 {
        true
    } else if tag == 1 {
        f.carry
    } else if tag == 2 {
        f.overflow
    } else if tag == 3 {
        !f.carry
    } else {
        false
    }
}

/// A failed memory access at `a`.
pub open spec fn spec_mem_fault(m: CpuModel, a: u16) -> (CpuModel, Result<(), CpuErrorModel>) {
    (m, Err(CpuErrorModel::MemoryViolation(a)))
}

/// Load: the addressed word becomes the accumulator. No flags.
pub open spec fn spec_exec_ld(m: CpuModel, ea: u16) -> (CpuModel, Result<(), CpuErrorModel>) {
    if ea < m.mem.len() {
        (CpuModel { acc: m.mem[ea as int], ..m }, Ok(()))
    } else {
        spec_mem_fault(m, ea)
    }
}

/// Load double: two consecutive words become accumulator and extension.
/// No flags.
pub open spec fn spec_exec_ldd(m: CpuModel, ea: u16) -> (CpuModel, Result<(), CpuErrorModel>) {
    if ea >= m.mem.len() {
        spec_mem_fault(m, ea)
    } else if ea + 1 >= m.mem.len() {
        spec_mem_fault(m, (ea + 1) as u16)
    } else {
        (CpuModel { acc: m.mem[ea as int], ext: m.mem[ea as int + 1], ..m }, Ok(()))
    }
}

/// Store: the accumulator goes to the addressed word. No flags.
pub open spec fn spec_exec_sto(m: CpuModel, ea: u16) -> (CpuModel, Result<(), CpuErrorModel>) {
    if ea < m.mem.len() {
        (spec_write_memory(m, ea as int, m.acc), Ok(()))
    } else {
        spec_mem_fault(m, ea)
    }
}

/// Store double: accumulator then extension go to two consecutive words;
/// if only the second is out of bounds, the first write stands. No flags.
pub open spec fn spec_exec_std(m: CpuModel, ea: u16) -> (CpuModel, Result<(), CpuErrorModel>) {
    if ea >= m.mem.len() {
        spec_mem_fault(m, ea)
    } else {
        let m1 = spec_write_memory(m, ea as int, m.acc);
        if ea + 1 >= m1.mem.len() {
            spec_mem_fault(m1, (ea + 1) as u16)
        } else {
            (spec_write_memory(m1, ea as int + 1, m.ext), Ok(()))
        }
    }
}

/// Add: the addressed word is added to the accumulator. Carry is the
/// unsigned carry out of bit 15; overflow is signed 16-bit overflow.
pub open spec fn spec_exec_a(m: CpuModel, ea: u16) -> (CpuModel, Result<(), CpuErrorModel>) {
    if ea >= m.mem.len() {
        spec_mem_fault(m, ea)
    } else {
        let operand = m.mem[ea as int];
        let signed_sum = spec_as_i16(m.acc) + spec_as_i16(operand);
        (
            CpuModel {
                acc: spec_wrap16(m.acc + operand),
                flags: StatusFlags {
                    carry: m.acc + operand > 0xFFFF,
                    overflow: signed_sum > 32767 || signed_sum < -32768,
                    wait: m.flags.wait,
                },
                ..m
            },
            Ok(()),
        )
    }
}

/// Subtract: the addressed word is subtracted from the accumulator.
/// Carry is the unsigned borrow; overflow is signed 16-bit overflow.
pub open spec fn spec_exec_s(m: CpuModel, ea: u16) -> (CpuModel, Result<(), CpuErrorModel>) {
    if ea >= m.mem.len() {
        spec_mem_fault(m, ea)
    } else {
        let operand = m.mem[ea as int];
        let signed_diff = spec_as_i16(m.acc) - spec_as_i16(operand);
        (
            CpuModel {
                acc: spec_wrap16(m.acc - operand),
                flags: StatusFlags {
                    carry: m.acc < operand,
                    overflow: signed_diff > 32767 || signed_diff < -32768,
                    wait: m.flags.wait,
                },
                ..m
            },
            Ok(()),
        )
    }
}

/// Add double: a 32-bit operand (high word first) is added to
/// accumulator:extension. Carry is the unsigned carry out of bit 31;
/// overflow is signed 32-bit overflow.
pub open spec fn spec_exec_ad(m: CpuModel, ea: u16) -> (CpuModel, Result<(), CpuErrorModel>) {
    if ea >= m.mem.len() {
        spec_mem_fault(m, ea)
    } else if ea + 1 >= m.mem.len() {
        spec_mem_fault(m, (ea + 1) as u16)
    } else {
        let operand = (m.mem[ea as int] * 0x10000 + m.mem[ea as int + 1]) as u32;
        let ae = spec_acc_ext(m);
        let signed_sum = spec_as_i32(ae) + spec_as_i32(operand);
        let m1 = spec_with_acc_ext(m, spec_wrap32(ae + operand));
        (
            CpuModel {
                flags: StatusFlags {
                    carry: ae + operand > 0xFFFF_FFFF,
                    overflow: signed_sum > 0x7FFF_FFFF || signed_sum < -0x8000_0000,
                    wait: m.flags.wait,
                },
                ..m1
            },
            Ok(()),
        )
    }
}

/// Subtract double: a 32-bit operand (high word first) is subtracted from
/// accumulator:extension. Carry is the unsigned borrow; overflow is
/// signed 32-bit overflow.
pub open spec fn spec_exec_sd(m: CpuModel, ea: u16) -> (CpuModel, Result<(), CpuErrorModel>) {
    if ea >= m.mem.len() {
        spec_mem_fault(m, ea)
    } else if ea + 1 >= m.mem.len() {
        spec_mem_fault(m, (ea + 1) as u16)
    } else {
        let operand = (m.mem[ea as int] * 0x10000 + m.mem[ea as int + 1]) as u32;
        let ae = spec_acc_ext(m);
        let signed_diff = spec_as_i32(ae) - spec_as_i32(operand);
        let m1 = spec_with_acc_ext(m, spec_wrap32(ae - operand));
        (
            CpuModel {
                flags: StatusFlags {
                    carry: ae < operand,
                    overflow: signed_diff > 0x7FFF_FFFF || signed_diff < -0x8000_0000,
                    wait: m.flags.wait,
                },
                ..m1
            },
            Ok(()),
        )
    }
}

/// Multiply: the signed product of the accumulator and the addressed word
/// fills accumulator:extension. No flags.
pub open spec fn spec_exec_m(m: CpuModel, ea: u16) -> (CpuModel, Result<(), CpuErrorModel>) {
    if ea >= m.mem.len() {
        spec_mem_fault(m, ea)
    } else {
        let product = spec_as_i16(m.acc) * spec_as_i16(m.mem[ea as int]);
        (spec_with_acc_ext(m, spec_wrap32(product)), Ok(()))
    }
}

/// Divide: accumulator:extension divided by the addressed word, quotient
/// to the accumulator, remainder to the extension. Division by zero or a
/// quotient outside the signed 16-bit range sets overflow and leaves both
/// registers unchanged; otherwise overflow is cleared.
pub open spec fn spec_exec_d(m: CpuModel, ea: u16) -> (CpuModel, Result<(), CpuErrorModel>) {
    if ea >= m.mem.len() {
        spec_mem_fault(m, ea)
    } else {
        let divisor = spec_as_i16(m.mem[ea as int]);
        if divisor == 0 {
            (
                CpuModel {
                    flags: StatusFlags { overflow: true, ..m.flags },
                    ..m
                },
                Ok(()),
            )
        } else {
            let dividend = spec_as_i32(spec_acc_ext(m));
            let quotient = spec_trunc_div(dividend, divisor);
            let remainder = spec_trunc_rem(dividend, divisor);
            if quotient > 32767 || quotient < -32768 {
                (
                    CpuModel {
                        flags: StatusFlags { overflow: true, ..m.flags },
                        ..m
                    },
                    Ok(()),
                )
            } else {
                (
                    CpuModel {
                        acc: spec_wrap16(quotient),
                        ext: spec_wrap16(remainder),
                        flags: StatusFlags { overflow: false, ..m.flags },
                        ..m
                    },
                    Ok(()),
                )
            }
        }
    }
}

/// Bitwise AND of the accumulator with the addressed word. No flags.
pub open spec fn spec_exec_and(m: CpuModel, ea: u16) -> (CpuModel, Result<(), CpuErrorModel>) {
    if ea < m.mem.len() {
        (CpuModel { acc: m.acc & m.mem[ea as int], ..m }, Ok(()))
    } else {
        spec_mem_fault(m, ea)
    }
}

/// Bitwise OR of the accumulator with the addressed word. No flags.
pub open spec fn spec_exec_or(m: CpuModel, ea: u16) -> (CpuModel, Result<(), CpuErrorModel>) {
    if ea < m.mem.len() {
        (CpuModel { acc: m.acc | m.mem[ea as int], ..m }, Ok(()))
    } else {
        spec_mem_fault(m, ea)
    }
}

/// Bitwise exclusive OR of the accumulator with the addressed word. No
/// flags.
pub open spec fn spec_exec_eor(m: CpuModel, ea: u16) -> (CpuModel, Result<(), CpuErrorModel>) {
    if ea < m.mem.len() {
        (CpuModel { acc: m.acc ^ m.mem[ea as int], ..m }, Ok(()))
    } else {
        spec_mem_fault(m, ea)
    }
}

/// Shift left accumulator, logical, by the low 5 bits of the count; zero
/// is a no-op. Carry is the last bit shifted out; shifting 16 or more
/// empties the register.
pub open spec fn spec_exec_sla(m: CpuModel, count: u16) -> (CpuModel, Result<(), CpuErrorModel>) {
    let n = count % 32;
    if n == 0 {
        (m, Ok(()))
    } else if n < 16 {
        (
            CpuModel {
                acc: m.acc << n,
                flags: StatusFlags { carry: (m.acc >> (16 - n)) & 1 != 0, ..m.flags },
                ..m
            },
            Ok(()),
        )
    } else {
        (
            CpuModel {
                acc: 0u16,
                flags: StatusFlags { carry: n == 16 && m.acc & 1 != 0, ..m.flags },
                ..m
            },
            Ok(()),
        )
    }
}

/// Shift left accumulator:extension, logical, by the low 5 bits of the
/// count; zero is a no-op. Carry is the last bit shifted out.
pub open spec fn spec_exec_slca(m: CpuModel, count: u16) -> (CpuModel, Result<(), CpuErrorModel>) {
    let n = count % 32;
    if n == 0 {
        (m, Ok(()))
    } else {
        let ae = spec_acc_ext(m) as u64;
        (
            CpuModel {
                flags: StatusFlags { carry: (ae >> ((32 - n) as u64)) & 1 != 0, ..m.flags },
                ..spec_with_acc_ext(m, ((ae << (n as u64)) % 0x1_0000_0000) as u32)
            },
            Ok(()),
        )
    }
}

/// Shift right accumulator, arithmetic (sign extending), by the low 5
/// bits of the count; zero is a no-op. Carry is the last bit shifted out;
/// shifting 16 or more leaves only the sign.
pub open spec fn spec_exec_sra(m: CpuModel, count: u16) -> (CpuModel, Result<(), CpuErrorModel>) {
    let n = count % 32;
    if n == 0 {
        (m, Ok(()))
    } else if n < 16 {
        (
            CpuModel {
                acc: ((m.acc as i16) >> n) as u16,
                flags: StatusFlags { carry: (m.acc >> (n - 1)) & 1 != 0, ..m.flags },
                ..m
            },
            Ok(()),
        )
    } else {
        (
            CpuModel {
                acc: if m.acc >= 0x8000 {
                    0xFFFFu16
                } else {
                    0u16
                },
                flags: StatusFlags { carry: m.acc >= 0x8000, ..m.flags },
                ..m
            },
            Ok(()),
        )
    }
}

/// Shift right accumulator:extension, logical (zero filling), by the low
/// 5 bits of the count; zero is a no-op. Carry is the last bit shifted
/// out.
pub open spec fn spec_exec_srt(m: CpuModel, count: u16) -> (CpuModel, Result<(), CpuErrorModel>) {
    let n = count % 32;
    if n == 0 {
        (m, Ok(()))
    } else {
        let ae = spec_acc_ext(m);
        (
            CpuModel {
                flags: StatusFlags { carry: (ae >> ((n - 1) as u32)) & 1 != 0, ..m.flags },
                ..spec_with_acc_ext(m, ae >> (n as u32))
            },
            Ok(()),
        )
    }
}

/// Branch and store: the current program counter (already past this
/// instruction) is stored at the effective address, and execution
/// continues right after it.
pub open spec fn spec_exec_bsi(m: CpuModel, ea: u16) -> (CpuModel, Result<(), CpuErrorModel>) {
    if ea < m.mem.len() {
        let m1 = spec_write_memory(m, ea as int, m.iar);
        (CpuModel { iar: spec_wadd16(ea, 1), ..m1 }, Ok(()))
    } else {
        spec_mem_fault(m, ea)
    }
}

/// Branch on condition: the program counter moves to the effective
/// address when the tag's condition holds.
pub open spec fn spec_exec_bc(m: CpuModel, ea: u16, tag: u8) -> (
    CpuModel,
    Result<(), CpuErrorModel>,
) {
    if spec_branch_cond(m.flags, tag) {
        (CpuModel { iar: ea, ..m }, Ok(()))
    } else {
        (m, Ok(()))
    }
}

/// Branch and store on condition: acts as branch-and-store when the
/// tag's condition holds, else the program counter just keeps its normal
/// advance.
pub open spec fn spec_exec_bsc(m: CpuModel, ea: u16, tag: u8) -> (
    CpuModel,
    Result<(), CpuErrorModel>,
) {
    if spec_branch_cond(m.flags, tag) {
        spec_exec_bsi(m, ea)
    } else {
        (m, Ok(()))
    }
}

/// Load index register: the addressed word goes to the register the tag
/// names; tag 0 is a no-op.
pub open spec fn spec_exec_ldx(m: CpuModel, ea: u16, tag: u8) -> (
    CpuModel,
    Result<(), CpuErrorModel>,
) {
    if tag == 0 {
        (m, Ok(()))
    } else if ea < m.mem.len() {
        (spec_set_index_register(m, tag, m.mem[ea as int]), Ok(()))
    } else {
        spec_mem_fault(m, ea)
    }
}

/// Store index register: the register the tag names goes to the
/// addressed word; tag 0 is a no-op.
pub open spec fn spec_exec_stx(m: CpuModel, ea: u16, tag: u8) -> (
    CpuModel,
    Result<(), CpuErrorModel>,
) {
    if tag == 0 {
        (m, Ok(()))
    } else if ea < m.mem.len() {
        (spec_write_memory(m, ea as int, spec_xr_get(m.xr, tag)), Ok(()))
    } else {
        spec_mem_fault(m, ea)
    }
}

/// Modify index and skip: the addressed word is added (signed, wrapping)
/// to the register the tag names; when the result is exactly zero, the
/// instruction that follows is skipped — the program counter advances by
/// that instruction's own decoded size. Tag 0 is a no-op.
pub open spec fn spec_exec_mdx(m: CpuModel, ea: u16, tag: u8) -> (
    CpuModel,
    Result<(), CpuErrorModel>,
) {
    if tag == 0 {
        (m, Ok(()))
    } else if ea >= m.mem.len() {
        spec_mem_fault(m, ea)
    } else {
        let result = spec_wrap16(spec_xr_get(m.xr, tag) + m.mem[ea as int]);
        let m1 = spec_set_index_register(m, tag, result);
        if result == 0 {
            match spec_fetch_decode(m1) {
                Err(e) => (m1, Err(e@)),
                Ok(next) => (
                    CpuModel { iar: spec_wadd16(m1.iar, next.spec_size()), ..m1 },
                    Ok(()),
                ),
            }
        } else {
            (m1, Ok(()))
        }
    }
}

/// Load status: carry and overflow come from bits 15 and 14 of the
/// addressed word; the wait flag is never loaded.
pub open spec fn spec_exec_lds(m: CpuModel, ea: u16) -> (CpuModel, Result<(), CpuErrorModel>) {
    if ea >= m.mem.len() {
        spec_mem_fault(m, ea)
    } else {
        let loaded = spec_flags_from_word(m.mem[ea as int]);
        (
            CpuModel {
                flags: StatusFlags {
                    carry: loaded.carry,
                    overflow: loaded.overflow,
                    wait: m.flags.wait,
                },
                ..m
            },
            Ok(()),
        )
    }
}

/// Store status: carry and overflow packed into bits 15 and 14 go to the
/// addressed word; the wait flag is never stored.
pub open spec fn spec_exec_sts(m: CpuModel, ea: u16) -> (CpuModel, Result<(), CpuErrorModel>) {
    if ea < m.mem.len() {
        (spec_write_memory(m, ea as int, spec_flags_word(m.flags)), Ok(()))
    } else {
        spec_mem_fault(m, ea)
    }
}

/// Halt: the wait flag is set; no further step succeeds until the flag is
/// cleared from outside.
pub open spec fn spec_exec_wait(m: CpuModel) -> (CpuModel, Result<(), CpuErrorModel>) {
    (CpuModel { flags: StatusFlags { wait: true, ..m.flags }, ..m }, Ok(()))
}

/// Execute channel command: the two command words at the effective
/// address are decoded and dispatched to the attached device carrying the
/// decoded device code; without such a device the command is an
/// invalid-device fault. The device may change memory directly.
pub open spec fn spec_exec_xio(m: CpuModel, ea: u16) -> (CpuModel, Result<(), CpuErrorModel>) {
    if ea >= m.mem.len() {
        spec_mem_fault(m, ea)
    } else if ea + 1 >= m.mem.len() {
        spec_mem_fault(m, (ea + 1) as u16)
    } else {
        let iocc = spec_iocc_decode(m.mem[ea as int], m.mem[ea as int + 1]);
        let idx = spec_device_index(m.devices, iocc.device_code);
        if idx == -1 {
            (m, Err(CpuErrorModel::InvalidDevice(iocc.device_code)))
        } else {
            let stepped = spec_device_step(m.devices[idx], iocc, m.mem);
            (
                CpuModel { devices: m.devices.update(idx, stepped.0), mem: stepped.1, ..m },
                stepped.2,
            )
        }
    }
}

/// What executing one decoded instruction does to the machine, given its
/// resolved effective address. The program counter has already advanced
/// past the instruction. The reserved sense-device opcode is an
/// invalid-instruction fault.
pub open spec fn spec_execute(m: CpuModel, instr: InstructionInfo, ea: u16) -> (
    CpuModel,
    Result<(), CpuErrorModel>,
) {
    match instr.opcode {
        OpCode::LD => spec_exec_ld(m, ea),
        OpCode::LDD => spec_exec_ldd(m, ea),
        OpCode::STO => spec_exec_sto(m, ea),
        OpCode::STD => spec_exec_std(m, ea),
        OpCode::A => spec_exec_a(m, ea),
        OpCode::AD => spec_exec_ad(m, ea),
        OpCode::S => spec_exec_s(m, ea),
        OpCode::SD => spec_exec_sd(m, ea),
        OpCode::M => spec_exec_m(m, ea),
        OpCode::D => spec_exec_d(m, ea),
        OpCode::AND => spec_exec_and(m, ea),
        OpCode::OR => spec_exec_or(m, ea),
        OpCode::EOR => spec_exec_eor(m, ea),
        OpCode::SLA => spec_exec_sla(m, instr.displacement),
        OpCode::SLCA => spec_exec_slca(m, instr.displacement),
        OpCode::SRA => spec_exec_sra(m, instr.displacement),
        OpCode::SRT => spec_exec_srt(m, instr.displacement),
        OpCode::BSI => spec_exec_bsi(m, ea),
        OpCode::BC => spec_exec_bc(m, ea, instr.tag),
        OpCode::BSC => spec_exec_bsc(m, ea, instr.tag),
        OpCode::LDX => spec_exec_ldx(m, ea, instr.tag),
        OpCode::STX => spec_exec_stx(m, ea, instr.tag),
        OpCode::MDX => spec_exec_mdx(m, ea, instr.tag),
        OpCode::WAIT => spec_exec_wait(m),
        OpCode::LDS => spec_exec_lds(m, ea),
        OpCode::STS => spec_exec_sts(m, ea),
        OpCode::XIO => spec_exec_xio(m, ea),
        OpCode::SDS => (m, Err(CpuErrorModel::InvalidInstruction(m.iar))),
    }
}

/// One step advances the program counter by exactly the instruction's
/// size — one word for the short format, two for the long — for every
/// instruction that does not itself write the counter; that advance
/// stands even when the handler then fails. The branch, branch-and-store
/// and modify-index instructions override the advanced counter
/// afterwards, from that same advanced value.
pub proof fn lemma_step_advances_iar(m: CpuModel, instr: InstructionInfo, ea: u16)
    requires
        !m.flags.wait,
        spec_fetch_decode(m) == Ok::<InstructionInfo, CpuError>(instr),
        crate::cpu::spec_cpu_ea(
            m,
            if crate::cpu::spec_is_index_op(instr.opcode) {
                InstructionInfo { tag: 0u8, ..instr }
            } else {
                instr
            },
        ) == Ok::<u16, CpuError>(ea),
        !(instr.opcode == OpCode::BC || instr.opcode == OpCode::BSC || instr.opcode
            == OpCode::BSI || instr.opcode == OpCode::MDX),
    ensures
        crate::cpu::spec_step(m).0.iar == spec_wadd16(m.iar, instr.spec_size()),
{
    let advanced = CpuModel { iar: spec_wadd16(m.iar, instr.spec_size()), ..m };
    let executed = spec_execute(advanced, instr, ea);
    assert(executed.0.iar == advanced.iar);
}

/// When modify-index brings the selected register to exactly zero, the
/// instruction that follows is skipped: on top of the normal advance the
/// counter moves by that next instruction's own decoded size.
pub proof fn lemma_mdx_skip(m: CpuModel, ea: u16, tag: u8, next: InstructionInfo)
    requires
        1 <= tag <= 3,
        ea < m.mem.len(),
        spec_wrap16(spec_xr_get(m.xr, tag) + m.mem[ea as int]) == 0,
        spec_fetch_decode(spec_set_index_register(m, tag, 0u16)) == Ok::<
            InstructionInfo,
            CpuError,
        >(next),
    ensures
        spec_exec_mdx(m, ea, tag).1 == Ok::<(), CpuErrorModel>(()),
        spec_exec_mdx(m, ea, tag).0.iar == spec_wadd16(m.iar, next.spec_size()),
{
}

/// The halt instruction sets the wait flag and succeeds; everything else
/// is untouched.
pub proof fn lemma_wait_sets_flag(m: CpuModel)
    ensures
        spec_exec_wait(m).1 == Ok::<(), CpuErrorModel>(()),
        spec_exec_wait(m).0 == (CpuModel {
            flags: StatusFlags { wait: true, ..m.flags },
            ..m
        }),
{
}

/// A 16-bit word as a signed value, widened.
fn as_i16_val(x: u16) -> (r: i32)
    ensures
        r == spec_as_i16(x),
{
    if x >= 0x8000 {
        x as i32 - 0x10000
    } else {
        x as i32
    }
}

/// A 32-bit word as a signed value, widened.
fn as_i32_val(x: u32) -> (r: i64)
    ensures
        r == spec_as_i32(x),
{
    if x >= 0x8000_0000 {
        x as i64 - 0x1_0000_0000
    } else {
        x as i64
    }
}

impl Cpu {
    /// Dispatches one decoded instruction to its handler; the effective
    /// address has been resolved and the program counter already advanced
    /// past the instruction.
    pub fn execute_instruction(&mut self, instr: &InstructionInfo, effective_address: u16) -> (r:
        Result<(), CpuError>)
        ensures
            final(self)@ == spec_execute(old(self)@, *instr, effective_address).0,
            spec_cpu_result(r) == spec_execute(old(self)@, *instr, effective_address).1,
    {
        match instr.opcode {
            OpCode::LD => self.execute_ld(effective_address),
            OpCode::LDD => self.execute_ldd(effective_address),
            OpCode::STO => self.execute_sto(effective_address),
            OpCode::STD => self.execute_std(effective_address),
            OpCode::A => self.execute_a(effective_address),
            OpCode::AD => self.execute_ad(effective_address),
            OpCode::S => self.execute_s(effective_address),
            OpCode::SD => self.execute_sd(effective_address),
            OpCode::M => self.execute_m(effective_address),
            OpCode::D => self.execute_d(effective_address),
            OpCode::AND => self.execute_and(effective_address),
            OpCode::OR => self.execute_or(effective_address),
            OpCode::EOR => self.execute_eor(effective_address),
            OpCode::SLA => self.execute_sla(instr.displacement),
            OpCode::SLCA => self.execute_slca(instr.displacement),
            OpCode::SRA => self.execute_sra(instr.displacement),
            OpCode::SRT => self.execute_srt(instr.displacement),
            OpCode::BSI => self.execute_bsi(effective_address),
            OpCode::BC => self.execute_bc(effective_address, instr.tag),
            OpCode::BSC => self.execute_bsc(effective_address, instr.tag),
            OpCode::LDX => self.execute_ldx(effective_address, instr.tag),
            OpCode::STX => self.execute_stx(effective_address, instr.tag),
            OpCode::MDX => self.execute_mdx(effective_address, instr.tag),
            OpCode::WAIT => self.execute_wait(),
            OpCode::LDS => self.execute_lds(effective_address),
            OpCode::STS => self.execute_sts(effective_address),
            OpCode::XIO => self.execute_xio(effective_address),
            OpCode::SDS => Err(CpuError::InvalidInstruction(self.iar)),
        }
    }

    fn execute_ld(&mut self, address: u16) -> (r: Result<(), CpuError>)
        ensures
            final(self)@ == spec_exec_ld(old(self)@, address).0,
            spec_cpu_result(r) == spec_exec_ld(old(self)@, address).1,
    {
        let value = match self.read_memory(address as usize) {
            Ok(v) => v,
            Err(e) => {
                return Err(e);
            },
        };
        self.set_acc(value);
        Ok(())
    }

    fn execute_ldd(&mut self, address: u16) -> (r: Result<(), CpuError>)
        ensures
            final(self)@ == spec_exec_ldd(old(self)@, address).0,
            spec_cpu_result(r) == spec_exec_ldd(old(self)@, address).1,
    {
        let acc_value = match self.read_memory(address as usize) {
            Ok(v) => v,
            Err(e) => {
                return Err(e);
            },
        };
        let ext_value = match self.read_memory(address as usize + 1) {
            Ok(v) => v,
            Err(e) => {
                return Err(e);
            },
        };
        self.set_acc(acc_value);
        self.set_ext(ext_value);
        Ok(())
    }

    fn execute_sto(&mut self, address: u16) -> (r: Result<(), CpuError>)
        ensures
            final(self)@ == spec_exec_sto(old(self)@, address).0,
            spec_cpu_result(r) == spec_exec_sto(old(self)@, address).1,
    {
        let value = self.get_acc();
        match self.write_memory(address as usize, value) {
            Ok(()) => Ok(()),
            Err(e) => Err(e),
        }
    }

    fn execute_std(&mut self, address: u16) -> (r: Result<(), CpuError>)
        ensures
            final(self)@ == spec_exec_std(old(self)@, address).0,
            spec_cpu_result(r) == spec_exec_std(old(self)@, address).1,
    {
        let acc_value = self.get_acc();
        let ext_value = self.get_ext();
        match self.write_memory(address as usize, acc_value) {
            Ok(()) => {},
            Err(e) => {
                return Err(e);
            },
        }
        match self.write_memory(address as usize + 1, ext_value) {
            Ok(()) => Ok(()),
            Err(e) => Err(e),
        }
    }

    fn execute_a(&mut self, address: u16) -> (r: Result<(), CpuError>)
        ensures
            final(self)@ == spec_exec_a(old(self)@, address).0,
            spec_cpu_result(r) == spec_exec_a(old(self)@, address).1,
    {
        let operand = match self.read_memory(address as usize) {
            Ok(v) => v,
            Err(e) => {
                return Err(e);
            },
        };
        let acc = self.get_acc();
        let sum: u32 = acc as u32 + operand as u32;
        let signed_sum: i32 = as_i16_val(acc) + as_i16_val(operand);
        self.set_acc((sum % 0x10000) as u16);
        self.set_carry(sum > 0xFFFF);
        self.set_overflow(signed_sum > 32767 || signed_sum < -32768);
        Ok(())
    }

    fn execute_s(&mut self, address: u16) -> (r: Result<(), CpuError>)
        ensures
            final(self)@ == spec_exec_s(old(self)@, address).0,
            spec_cpu_result(r) == spec_exec_s(old(self)@, address).1,
    {
        let operand = match self.read_memory(address as usize) {
            Ok(v) => v,
            Err(e) => {
                return Err(e);
            },
        };
        let acc = self.get_acc();
        let diff: u32 = (acc as u32 + 0x10000) - operand as u32;
        let signed_diff: i32 = as_i16_val(acc) - as_i16_val(operand);
        self.set_acc((diff % 0x10000) as u16);
        self.set_carry(acc < operand);
        self.set_overflow(signed_diff > 32767 || signed_diff < -32768);
        Ok(())
    }

    fn execute_ad(&mut self, address: u16) -> (r: Result<(), CpuError>)
        ensures
            final(self)@ == spec_exec_ad(old(self)@, address).0,
            spec_cpu_result(r) == spec_exec_ad(old(self)@, address).1,
    {
        let high = match self.read_memory(address as usize) {
            Ok(v) => v,
            Err(e) => {
                return Err(e);
            },
        };
        let low = match self.read_memory(address as usize + 1) {
            Ok(v) => v,
            Err(e) => {
                return Err(e);
            },
        };
        let operand: u32 = (high as u32) * 0x10000 + (low as u32);
        let ae = self.get_acc_ext();
        let sum: u64 = ae as u64 + operand as u64;
        let signed_sum: i64 = as_i32_val(ae) + as_i32_val(operand);
        self.set_acc_ext((sum % 0x1_0000_0000) as u32);
        self.set_carry(sum > 0xFFFF_FFFF);
        self.set_overflow(signed_sum > 0x7FFF_FFFF || signed_sum < -0x8000_0000);
        Ok(())
    }

    fn execute_sd(&mut self, address: u16) -> (r: Result<(), CpuError>)
        ensures
            final(self)@ == spec_exec_sd(old(self)@, address).0,
            spec_cpu_result(r) == spec_exec_sd(old(self)@, address).1,
    {
        let high = match self.read_memory(address as usize) {
            Ok(v) => v,
            Err(e) => {
                return Err(e);
            },
        };
        let low = match self.read_memory(address as usize + 1) {
            Ok(v) => v,
            Err(e) => {
                return Err(e);
            },
        };
        let operand: u32 = (high as u32) * 0x10000 + (low as u32);
        let ae = self.get_acc_ext();
        let diff: u64 = (ae as u64 + 0x1_0000_0000) - operand as u64;
        let signed_diff: i64 = as_i32_val(ae) - as_i32_val(operand);
        self.set_acc_ext((diff % 0x1_0000_0000) as u32);
        self.set_carry(ae < operand);
        self.set_overflow(signed_diff > 0x7FFF_FFFF || signed_diff < -0x8000_0000);
        Ok(())
    }

    fn execute_m(&mut self, address: u16) -> (r: Result<(), CpuError>)
        ensures
            final(self)@ == spec_exec_m(old(self)@, address).0,
            spec_cpu_result(r) == spec_exec_m(old(self)@, address).1,
    {
        let operand = match self.read_memory(address as usize) {
            Ok(v) => v,
            Err(e) => {
                return Err(e);
            },
        };
        let a: i64 = as_i16_val(self.get_acc()) as i64;
        let b: i64 = as_i16_val(operand) as i64;
        proof {
            assert(-0x4000_0000 <= a * b && a * b <= 0x4000_0000) by (nonlinear_arith)
                requires
                    -0x8000 <= a <= 0x7FFF,
                    -0x8000 <= b <= 0x7FFF,
            ;
        }
        let product: i64 = a * b;
        let bits: u32 = if product < 0 {
            (product + 0x1_0000_0000) as u32
        } else {
            product as u32
        };
        proof {
            assert(bits == spec_wrap32(a * b));
        }
        self.set_acc_ext(bits);
        Ok(())
    }

    fn execute_d(&mut self, address: u16) -> (r: Result<(), CpuError>)
        ensures
            final(self)@ == spec_exec_d(old(self)@, address).0,
            spec_cpu_result(r) == spec_exec_d(old(self)@, address).1,
    {
        let divisor_word = match self.read_memory(address as usize) {
            Ok(v) => v,
            Err(e) => {
                return Err(e);
            },
        };
        let divisor: i64 = as_i16_val(divisor_word) as i64;
        if divisor == 0 {
            self.set_overflow(true);
            return Ok(());
        }
        let dividend: i64 = as_i32_val(self.get_acc_ext());
        let dividend_mag: u64 = if dividend < 0 {
            (-dividend) as u64
        } else {
            dividend as u64
        };
        let divisor_mag: u64 = if divisor < 0 {
            (-divisor) as u64
        } else {
            divisor as u64
        };
        let quotient_mag: u64 = dividend_mag / divisor_mag;
        let remainder_mag: u64 = dividend_mag % divisor_mag;
        let quotient: i64 = if (dividend < 0) != (divisor < 0) {
            -(quotient_mag as i64)
        } else {
            quotient_mag as i64
        };
        let remainder: i64 = if dividend < 0 {
            -(remainder_mag as i64)
        } else {
            remainder_mag as i64
        };
        if quotient > 32767 || quotient < -32768 {
            self.set_overflow(true);
            return Ok(());
        }
        let acc_bits: u16 = if quotient < 0 {
            (quotient + 0x10000) as u16
        } else {
            quotient as u16
        };
        let ext_bits: u16 = if remainder < 0 {
            (remainder + 0x10000) as u16
        } else {
            remainder as u16
        };
        self.set_acc(acc_bits);
        self.set_ext(ext_bits);
        self.set_overflow(false);
        Ok(())
    }

    fn execute_and(&mut self, address: u16) -> (r: Result<(), CpuError>)
        ensures
            final(self)@ == spec_exec_and(old(self)@, address).0,
            spec_cpu_result(r) == spec_exec_and(old(self)@, address).1,
    {
        let operand = match self.read_memory(address as usize) {
            Ok(v) => v,
            Err(e) => {
                return Err(e);
            },
        };
        let result = self.get_acc() & operand;
        self.set_acc(result);
        Ok(())
    }

    fn execute_or(&mut self, address: u16) -> (r: Result<(), CpuError>)
        ensures
            final(self)@ == spec_exec_or(old(self)@, address).0,
            spec_cpu_result(r) == spec_exec_or(old(self)@, address).1,
    {
        let operand = match self.read_memory(address as usize) {
            Ok(v) => v,
            Err(e) => {
                return Err(e);
            },
        };
        let result = self.get_acc() | operand;
        self.set_acc(result);
        Ok(())
    }

    fn execute_eor(&mut self, address: u16) -> (r: Result<(), CpuError>)
        ensures
            final(self)@ == spec_exec_eor(old(self)@, address).0,
            spec_cpu_result(r) == spec_exec_eor(old(self)@, address).1,
    {
        let operand = match self.read_memory(address as usize) {
            Ok(v) => v,
            Err(e) => {
                return Err(e);
            },
        };
        let result = self.get_acc() ^ operand;
        self.set_acc(result);
        Ok(())
    }

    fn execute_sla(&mut self, count: u16) -> (r: Result<(), CpuError>)
        ensures
            final(self)@ == spec_exec_sla(old(self)@, count).0,
            spec_cpu_result(r) == spec_exec_sla(old(self)@, count).1,
    {
        let n = count % 32;
        if n == 0 {
            return Ok(());
        }
        let acc = self.get_acc();
        if n < 16 {
            let carry = (acc >> (16 - n)) & 1 != 0;
            self.set_acc(acc << n);
            self.set_carry(carry);
        } else {
            self.set_acc(0);
            self.set_carry(n == 16 && acc & 1 != 0);
        }
        Ok(())
    }

    fn execute_slca(&mut self, count: u16) -> (r: Result<(), CpuError>)
        ensures
            final(self)@ == spec_exec_slca(old(self)@, count).0,
            spec_cpu_result(r) == spec_exec_slca(old(self)@, count).1,
    {
        let n = count % 32;
        if n == 0 {
            return Ok(());
        }
        let ae = self.get_acc_ext() as u64;
        let carry = (ae >> ((32 - n) as u64)) & 1 != 0;
        let result = ((ae << (n as u64)) % 0x1_0000_0000) as u32;
        self.set_acc_ext(result);
        self.set_carry(carry);
        Ok(())
    }

    fn execute_sra(&mut self, count: u16) -> (r: Result<(), CpuError>)
        ensures
            final(self)@ == spec_exec_sra(old(self)@, count).0,
            spec_cpu_result(r) == spec_exec_sra(old(self)@, count).1,
    {
        let n = count % 32;
        if n == 0 {
            return Ok(());
        }
        let acc = self.get_acc();
        if n < 16 {
            let carry = (acc >> (n - 1)) & 1 != 0;
            self.set_acc(((acc as i16) >> n) as u16);
            self.set_carry(carry);
        } else {
            let negative = acc >= 0x8000;
            self.set_acc(if negative {
                0xFFFF
            } else {
                0
            });
            self.set_carry(negative);
        }
        Ok(())
    }

    fn execute_srt(&mut self, count: u16) -> (r: Result<(), CpuError>)
        ensures
            final(self)@ == spec_exec_srt(old(self)@, count).0,
            spec_cpu_result(r) == spec_exec_srt(old(self)@, count).1,
    {
        let n = count % 32;
        if n == 0 {
            return Ok(());
        }
        let ae = self.get_acc_ext();
        let carry = (ae >> ((n - 1) as u32)) & 1 != 0;
        let result = ae >> (n as u32);
        self.set_acc_ext(result);
        self.set_carry(carry);
        Ok(())
    }

    fn execute_bsi(&mut self, address: u16) -> (r: Result<(), CpuError>)
        ensures
            final(self)@ == spec_exec_bsi(old(self)@, address).0,
            spec_cpu_result(r) == spec_exec_bsi(old(self)@, address).1,
    {
        let return_address = self.get_iar();
        match self.write_memory(address as usize, return_address) {
            Ok(()) => {},
            Err(e) => {
                return Err(e);
            },
        }
        let target: u32 = address as u32 + 1;
        self.set_iar((target % 0x10000) as u16);
        Ok(())
    }

    fn execute_bc(&mut self, address: u16, tag: u8) -> (r: Result<(), CpuError>)
        ensures
            final(self)@ == spec_exec_bc(old(self)@, address, tag).0,
            spec_cpu_result(r) == spec_exec_bc(old(self)@, address, tag).1,
    {
        if self.check_branch_condition(tag) {
            self.set_iar(address);
        }
        Ok(())
    }

    fn execute_bsc(&mut self, address: u16, tag: u8) -> (r: Result<(), CpuError>)
        ensures
            final(self)@ == spec_exec_bsc(old(self)@, address, tag).0,
            spec_cpu_result(r) == spec_exec_bsc(old(self)@, address, tag).1,
    {
        if self.check_branch_condition(tag) {
            self.execute_bsi(address)
        } else {
            Ok(())
        }
    }

    /// Whether the branch condition a tag selects holds right now.
    fn check_branch_condition(&self, tag: u8) -> (r: bool)
        ensures
            r == spec_branch_cond(self@.flags, tag),
    {
        if tag == 0 {
            true
        } else if tag == 1 {
            self.get_carry()
        } else if tag == 2 {
            self.get_overflow()
        } else if tag == 3 {
            !self.get_carry()
        } else {
            false
        }
    }

    fn execute_ldx(&mut self, address: u16, tag: u8) -> (r: Result<(), CpuError>)
        ensures
            final(self)@ == spec_exec_ldx(old(self)@, address, tag).0,
            spec_cpu_result(r) == spec_exec_ldx(old(self)@, address, tag).1,
    {
        if tag == 0 {
            return Ok(());
        }
        let value = match self.read_memory(address as usize) {
            Ok(v) => v,
            Err(e) => {
                return Err(e);
            },
        };
        self.set_index_register(tag, value);
        Ok(())
    }

    fn execute_stx(&mut self, address: u16, tag: u8) -> (r: Result<(), CpuError>)
        ensures
            final(self)@ == spec_exec_stx(old(self)@, address, tag).0,
            spec_cpu_result(r) == spec_exec_stx(old(self)@, address, tag).1,
    {
        if tag == 0 {
            return Ok(());
        }
        let value = self.get_index_register(tag);
        match self.write_memory(address as usize, value) {
            Ok(()) => Ok(()),
            Err(e) => Err(e),
        }
    }

    fn execute_mdx(&mut self, address: u16, tag: u8) -> (r: Result<(), CpuError>)
        ensures
            final(self)@ == spec_exec_mdx(old(self)@, address, tag).0,
            spec_cpu_result(r) == spec_exec_mdx(old(self)@, address, tag).1,
    {
        if tag == 0 {
            return Ok(());
        }
        let operand = match self.read_memory(address as usize) {
            Ok(v) => v,
            Err(e) => {
                return Err(e);
            },
        };
        let index_value = self.get_index_register(tag);
        let sum: u32 = index_value as u32 + operand as u32;
        let result = (sum % 0x10000) as u16;
        self.set_index_register(tag, result);
        if result == 0 {
            let next_instr = match self.fetch_and_decode() {
                Ok(i) => i,
                Err(e) => {
                    return Err(e);
                },
            };
            self.increment_iar(next_instr.size_in_words());
        }
        Ok(())
    }

    fn execute_lds(&mut self, address: u16) -> (r: Result<(), CpuError>)
        ensures
            final(self)@ == spec_exec_lds(old(self)@, address).0,
            spec_cpu_result(r) == spec_exec_lds(old(self)@, address).1,
    {
        let value = match self.read_memory(address as usize) {
            Ok(v) => v,
            Err(e) => {
                return Err(e);
            },
        };
        let flags = StatusFlags::from_word(value);
        self.set_carry(flags.carry);
        self.set_overflow(flags.overflow);
        Ok(())
    }

    fn execute_sts(&mut self, address: u16) -> (r: Result<(), CpuError>)
        ensures
            final(self)@ == spec_exec_sts(old(self)@, address).0,
            spec_cpu_result(r) == spec_exec_sts(old(self)@, address).1,
    {
        let flags = StatusFlags {
            carry: self.get_carry(),
            overflow: self.get_overflow(),
            wait: self.get_wait(),
        };
        let word = flags.to_word();
        match self.write_memory(address as usize, word) {
            Ok(()) => Ok(()),
            Err(e) => Err(e),
        }
    }

    fn execute_wait(&mut self) -> (r: Result<(), CpuError>)
        ensures
            final(self)@ == spec_exec_wait(old(self)@).0,
            spec_cpu_result(r) == spec_exec_wait(old(self)@).1,
    {
        self.set_wait(true);
        Ok(())
    }

    fn execute_xio(&mut self, address: u16) -> (r: Result<(), CpuError>)
        ensures
            final(self)@ == spec_exec_xio(old(self)@, address).0,
            spec_cpu_result(r) == spec_exec_xio(old(self)@, address).1,
    {
        let word1 = match self.read_memory(address as usize) {
            Ok(v) => v,
            Err(e) => {
                return Err(e);
            },
        };
        let word2 = match self.read_memory(address as usize + 1) {
            Ok(v) => v,
            Err(e) => {
                return Err(e);
            },
        };
        let iocc = match Iocc::decode(word1, word2) {
            Ok(i) => i,
            Err(e) => {
                return Err(e);
            },
        };
        proof {
            lemma_device_index(self@.devices, iocc.device_code);
        }
        let n = self.devices.len();
        let mut i: usize = 0;
        while i < n
            invariant
                i <= n,
                n == self@.devices.len(),
                *self == *old(self),
                address as int + 1 < old(self)@.mem.len(),
                iocc == spec_iocc_decode(
                    old(self)@.mem[address as int],
                    old(self)@.mem[address as int + 1],
                ),
                forall|j: int|
                    0 <= j < i ==> spec_device_code(self@.devices[j]) != iocc.device_code,
            decreases n - i,
        {
            if self.devices[i].device_code() == iocc.device_code {
                proof {
                    assert(self@.devices[i as int] == self.devices@[i as int]@);
                    lemma_device_index(old(self)@.devices, iocc.device_code);
                }
                let ghost pre_vec = self.devices@;
                let ghost pre_devices = self@.devices;
                let mut device = self.devices.remove(i);
                proof {
                    assert(device@ == pre_devices[i as int]);
                }
                let result = device.execute_iocc(&iocc, &mut self.memory.data);
                self.devices.insert(i, device);
                proof {
                    let ghost_dev = self.devices@[i as int];
                    assert(self.devices@ =~= pre_vec.update(i as int, ghost_dev));
                    assert(self@.devices =~= pre_devices.update(i as int, ghost_dev@));
                }
                return result;
            }
            i = i + 1;
        }
        proof {
            lemma_device_index(old(self)@.devices, iocc.device_code);
        }
        Err(CpuError::InvalidDevice(iocc.device_code))
    }
}

} // verus!
