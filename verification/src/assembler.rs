//! The two-pass assembler: lexer, line parser, symbol table, and the
//! address-assignment and code-generation passes.
//!
//! Pass one walks the parsed lines assigning addresses and defining
//! labels; pass two walks them again emitting binary words, with every
//! symbol now resolvable. The whole pipeline is specified functionally:
//! `spec_assemble` says what assembling a source text yields, and
//! `assemble` is proved to implement it.

pub mod lexer;
pub mod parser;
pub mod symbols;

pub use lexer::{Lexer, Token};
pub use parser::{parse_source, Operation, ParsedLine};
pub use symbols::SymbolTable;

use vstd::prelude::*;

verus! {

use crate::assembler::parser::{spec_parse_source, LineModel, OpModel};
use crate::error::AssemblerError;
use crate::instructions::{spec_encode, spec_is_long, InstructionFormat, InstructionInfo, OpCode};
use crate::text::{
    chars_eq_str, chars_to_string, dec_string_u64, find_char, rfind_char, parse_radix_u16,
    spec_dec_digits, spec_find_idx, spec_radix_val, spec_rfind_idx, spec_trim, str_to_chars,
    trim_chars,
};

/// A finished assembly: the emitted words, the origin address, the final
/// symbol table, and the optional entry point.
#[derive(Debug, Clone)]
pub struct AssembledProgram {
    /// The emitted binary words, in address order from the origin.
    pub words: Vec<u16>,
    /// The address the words load at.
    pub origin: u16,
    /// The symbol table as it stood at the end of assembly.
    pub symbols: SymbolTable,
    /// The entry point the END directive named, if it named one.
    pub entry_point: Option<u16>,
}

/// Abstract form of a finished assembly.
pub struct ProgramModel {
    /// The emitted binary words.
    pub words: Seq<u16>,
    /// The address the words load at.
    pub origin: u16,
    /// The defined symbols.
    pub symbols: Map<Seq<char>, u16>,
    /// The defined symbol names, in definition order.
    pub names: Seq<Seq<char>>,
    /// The entry point, if the source named one.
    pub entry_point: Option<u16>,
}

impl View for AssembledProgram {
    type V = ProgramModel;

    open spec fn view(&self) -> ProgramModel {
        ProgramModel {
            words: self.words@,
            origin: self.origin,
            symbols: self.symbols.spec_map(),
            names: self.symbols.spec_names(),
            entry_point: self.entry_point,
        }
    }
}

/// Whether `r` is the syntax error with the given 1-indexed line and
/// message.
pub open spec fn spec_err_is<T>(r: Result<T, AssemblerError>, ln: int, msg: Seq<char>) -> bool {
    r matches Err(AssemblerError::SyntaxError { line, message }) && line == ln && message@ == msg
}

/// What evaluating an operand expression yields: a previously defined
/// symbol's address, or a number — hexadecimal behind `/` or `0x`/`0X`,
/// octal behind a leading zero, else decimal — or the message of the
/// error.
pub open spec fn spec_parse_expr(table: Map<Seq<char>, u16>, raw: Seq<char>) -> Result<
    u16,
    Seq<char>,
> {
    let e = spec_trim(raw);
    if table.contains_key(e) {
        Ok(table[e])
    } else if e.len() >= 1 && e[0] == '/' {
        let v = spec_radix_val(e.subrange(1, e.len() as int), 16);
        if 0 <= v <= 0xFFFF {
            Ok(v as u16)
        } else {
            Err("Invalid hex literal: "@ + e)
        }
    } else if e.len() >= 2 && e[0] == '0' && (e[1] == 'x' || e[1] == 'X') {
        let v = spec_radix_val(e.subrange(2, e.len() as int), 16);
        if 0 <= v <= 0xFFFF {
            Ok(v as u16)
        } else {
            Err("Invalid hex literal: "@ + e)
        }
    } else if e.len() > 1 && e[0] == '0' {
        let v = spec_radix_val(e.subrange(1, e.len() as int), 8);
        if 0 <= v <= 0xFFFF {
            Ok(v as u16)
        } else {
            Err("Invalid octal literal: "@ + e)
        }
    } else {
        let v = spec_radix_val(e, 10);
        if 0 <= v <= 0xFFFF {
            Ok(v as u16)
        } else {
            Err("Undefined symbol or invalid number: "@ + e)
        }
    }
}

/// What parsing an index-register tag yields: a decimal value up to 3, or
/// the message of the error.
pub open spec fn spec_parse_tag(tagtxt: Seq<char>) -> Result<u8, Seq<char>> {
    let tv = spec_radix_val(tagtxt, 10);
    if tv < 0 || tv > 255 {
        Err("Invalid index register: "@ + tagtxt)
    } else if tv > 3 {
        Err("Index register must be 0-3, got "@ + spec_dec_digits(tv as nat))
    } else {
        Ok(tv as u8)
    }
}

/// What parsing a normal operand yields: displacement, tag and indirect
/// flag. A leading slash or asterisk marks indirect addressing; a
/// trailing comma part names the index register.
pub open spec fn spec_parse_operand(table: Map<Seq<char>, u16>, raw: Seq<char>) -> Result<
    (u16, u8, bool),
    Seq<char>,
> {
    let t = spec_trim(raw);
    let ind = t.len() > 0 && (t[0] == '/' || t[0] == '*');
    let t2 = if ind {
        t.subrange(1, t.len() as int)
    } else {
        t
    };
    let c = spec_rfind_idx(t2, ',');
    if c >= 0 {
        let addr = t2.subrange(0, c);
        let tagtxt = spec_trim(t2.subrange(c + 1, t2.len() as int));
        match spec_parse_tag(tagtxt) {
            Err(m) => Err(m),
            Ok(tag) => match spec_parse_expr(table, addr) {
                Err(m) => Err(m),
                Ok(d) => Ok((d, tag, ind)),
            },
        }
    } else {
        match spec_parse_expr(table, t2) {
            Err(m) => Err(m),
            Ok(d) => Ok((d, 0u8, ind)),
        }
    }
}

/// What parsing an index-register operand yields: the reversed syntax
/// `tag,address`; without a comma the whole text is the address and the
/// tag is 0.
pub open spec fn spec_parse_index_operand(table: Map<Seq<char>, u16>, raw: Seq<char>) -> Result<
    (u16, u8, bool),
    Seq<char>,
> {
    let t = spec_trim(raw);
    let ind = t.len() > 0 && (t[0] == '/' || t[0] == '*');
    let t2 = if ind {
        t.subrange(1, t.len() as int)
    } else {
        t
    };
    let c = spec_find_idx(t2, ',', 0);
    if c < t2.len() {
        let tagtxt = spec_trim(t2.subrange(0, c));
        let addr = spec_trim(t2.subrange(c + 1, t2.len() as int));
        match spec_parse_tag(tagtxt) {
            Err(m) => Err(m),
            Ok(tag) => match spec_parse_expr(table, addr) {
                Err(m) => Err(m),
                Ok(d) => Ok((d, tag, ind)),
            },
        }
    } else {
        match spec_parse_expr(table, t2) {
            Err(m) => Err(m),
            Ok(d) => Ok((d, 0u8, ind)),
        }
    }
}

/// The opcode an upper-cased mnemonic names, if any.
pub open spec fn spec_mnemonic_opcode(u: Seq<char>) -> Option<OpCode> {
    if u == "LD"@ {
        Some(OpCode::LD)
    } else if u == "LDD"@ {
        Some(OpCode::LDD)
    } else if u == "STO"@ {
        Some(OpCode::STO)
    } else if u == "STD"@ {
        Some(OpCode::STD)
    } else if u == "A"@ {
        Some(OpCode::A)
    } else if u == "AD"@ {
        Some(OpCode::AD)
    } else if u == "S"@ {
        Some(OpCode::S)
    } else if u == "SD"@ {
        Some(OpCode::SD)
    } else if u == "M"@ {
        Some(OpCode::M)
    } else if u == "D"@ {
        Some(OpCode::D)
    } else if u == "AND"@ {
        Some(OpCode::AND)
    } else if u == "OR"@ {
        Some(OpCode::OR)
    } else if u == "EOR"@ {
        Some(OpCode::EOR)
    } else if u == "SLA"@ {
        Some(OpCode::SLA)
    } else if u == "SLCA"@ {
        Some(OpCode::SLCA)
    } else if u == "SRA"@ {
        Some(OpCode::SRA)
    } else if u == "SRT"@ {
        Some(OpCode::SRT)
    } else if u == "BSI"@ {
        Some(OpCode::BSI)
    } else if u == "BC"@ {
        Some(OpCode::BC)
    } else if u == "BSC"@ {
        Some(OpCode::BSC)
    } else if u == "LDX"@ {
        Some(OpCode::LDX)
    } else if u == "STX"@ {
        Some(OpCode::STX)
    } else if u == "MDX"@ {
        Some(OpCode::MDX)
    } else if u == "WAIT"@ {
        Some(OpCode::WAIT)
    } else if u == "LDS"@ {
        Some(OpCode::LDS)
    } else if u == "STS"@ {
        Some(OpCode::STS)
    } else if u == "XIO"@ {
        Some(OpCode::XIO)
    } else if u == "SDS"@ {
        Some(OpCode::SDS)
    } else {
        None
    }
}

/// What encoding one instruction yields: its one or two words, or the
/// message of the error. The index-register instructions use the
/// reversed operand syntax; a missing operand encodes as displacement 0,
/// tag 0, direct.
pub open spec fn spec_encode_instruction(
    table: Map<Seq<char>, u16>,
    mnemonic: Seq<char>,
    operand: Option<Seq<char>>,
) -> Result<Seq<u16>, Seq<char>> {
    match spec_mnemonic_opcode(mnemonic) {
        None => Err("Unknown instruction: "@ + mnemonic),
        Some(op) => {
            let parsed = match operand {
                Some(o) => if crate::cpu::spec_is_index_op(op) {
                    spec_parse_index_operand(table, o)
                } else {
                    spec_parse_operand(table, o)
                },
                None => Ok((0u16, 0u8, false)),
            };
            match parsed {
                Err(m) => Err(m),
                Ok((disp, tag, ind)) => {
                    let long = spec_is_long(op);
                    Ok(
                        spec_encode(
                            InstructionInfo {
                                opcode: op,
                                format: if long {
                                    InstructionFormat::Long
                                } else {
                                    InstructionFormat::Short
                                },
                                tag,
                                indirect: ind,
                                displacement: if long {
                                    disp
                                } else {
                                    (disp % 32) as u16
                                },
                                effective_address: None,
                            },
                        ),
                    )
                },
            }
        },
    }
}

/// The size in words an operation occupies in pass one: one or two for an
/// instruction by its format, nothing for anything else.
pub open spec fn spec_instr_size(mnemonic: Seq<char>) -> Option<u16> {
    match spec_mnemonic_opcode(mnemonic) {
        None => None,
        Some(op) => Some(
            if spec_is_long(op) {
                2u16
            } else {
                1u16
            },
        ),
    }
}

/// State of the address-assignment pass: the symbols so far, the
/// location counter, and the origin once an ORG has set it.
pub struct Pass1Model {
    /// The symbols defined so far.
    pub table: Map<Seq<char>, u16>,
    /// Their names in definition order.
    pub names: Seq<Seq<char>>,
    /// The location counter.
    pub lc: u16,
    /// The origin, once the first ORG has set it.
    pub origin: Option<u16>,
}

/// The location counter advanced by `n`, wrapping at the 16-bit limit.
pub open spec fn spec_lc_add(lc: u16, n: u16) -> u16 {
    ((lc + n) % 0x10000) as u16
}

/// What pass one does to its state at one line: a label is defined at the
/// current location counter (a second definition of the same name is an
/// error), then the counter advances by the operation's size; ORG moves
/// the counter and — the first time — fixes the origin.
#[verifier::opaque]
pub open spec fn spec_pass1_line(st: Pass1Model, lm: LineModel, line_no: int) -> Result<
    Pass1Model,
    (int, Seq<char>),
> {
    let labeled = match lm.label {
        Some(l) => {
            if st.table.contains_key(l) {
                Err((line_no + 1, "Duplicate label: "@ + l))
            } else {
                Ok(
                    Pass1Model {
                        table: st.table.insert(l, st.lc),
                        names: st.names.push(l),
                        ..st
                    },
                )
            }
        },
        None => Ok(st),
    };
    match labeled {
        Err(e) => Err(e),
        Ok(st1) => {
            match lm.op {
                OpModel::Instruction(mn) => {
                    match spec_instr_size(mn) {
                        None => Err((0, "Unknown instruction: "@ + mn)),
                        Some(sz) => Ok(Pass1Model { lc: spec_lc_add(st1.lc, sz), ..st1 }),
                    }
                },
                OpModel::PseudoOp(p) => {
                    if p == "ORG"@ {
                        match lm.operand {
                            Some(o) => match spec_parse_expr(st1.table, o) {
                                Err(m) => Err((line_no + 1, m)),
                                Ok(v) => Ok(
                                    Pass1Model {
                                        lc: v,
                                        origin: if st1.origin is None {
                                            Some(v)
                                        } else {
                                            st1.origin
                                        },
                                        ..st1
                                    },
                                ),
                            },
                            None => Ok(st1),
                        }
                    } else if p == "DC"@ {
                        Ok(Pass1Model { lc: spec_lc_add(st1.lc, 1), ..st1 })
                    } else if p == "BSS"@ {
                        match lm.operand {
                            Some(o) => match spec_parse_expr(st1.table, o) {
                                Err(m) => Err((line_no + 1, m)),
                                Ok(v) => Ok(Pass1Model { lc: spec_lc_add(st1.lc, v), ..st1 }),
                            },
                            None => Ok(st1),
                        }
                    } else if p == "END"@ || p == "EQU"@ {
                        Ok(st1)
                    } else {
                        Err((line_no + 1, "Unknown pseudo-op: "@ + p))
                    }
                },
                OpModel::Nothing => Ok(st1),
            }
        },
    }
}

/// What pass one yields from line `i` on.
pub open spec fn spec_pass1(lines: Seq<LineModel>, i: int, st: Pass1Model) -> Result<
    Pass1Model,
    (int, Seq<char>),
>
    decreases lines.len() - i,
{
    if i < 0 || i >= lines.len() {
        Ok(st)
    } else {
        match spec_pass1_line(st, lines[i], i) {
            Err(e) => Err(e),
            Ok(st1) => spec_pass1(lines, i + 1, st1),
        }
    }
}

/// State of the code-generation pass: the words emitted so far, the
/// location counter, and the entry point once END has named one.
pub struct Pass2Model {
    /// The words emitted so far.
    pub words: Seq<u16>,
    /// The location counter.
    pub lc: u16,
    /// The entry point, once END has named one.
    pub entry: Option<u16>,
}

/// What pass two does to its state at one line: instructions encode to
/// their words, DC emits its evaluated operand, BSS emits its count of
/// zero words, ORG moves the location counter, END records the entry
/// point.
#[verifier::opaque]
pub open spec fn spec_pass2_line(
    table: Map<Seq<char>, u16>,
    st: Pass2Model,
    lm: LineModel,
    line_no: int,
) -> Result<Pass2Model, (int, Seq<char>)> {
    match lm.op {
        OpModel::Instruction(mn) => {
            match spec_encode_instruction(table, mn, lm.operand) {
                Err(m) => Err((line_no + 1, m)),
                Ok(ws) => Ok(
                    Pass2Model {
                        words: st.words + ws,
                        lc: spec_lc_add(st.lc, ws.len() as u16),
                        ..st
                    },
                ),
            }
        },
        OpModel::PseudoOp(p) => {
            if p == "ORG"@ {
                match lm.operand {
                    Some(o) => match spec_parse_expr(table, o) {
                        Err(m) => Err((line_no + 1, m)),
                        Ok(v) => Ok(Pass2Model { lc: v, ..st }),
                    },
                    None => Ok(st),
                }
            } else if p == "DC"@ {
                match lm.operand {
                    Some(o) => match spec_parse_expr(table, o) {
                        Err(m) => Err((line_no + 1, m)),
                        Ok(v) => Ok(
                            Pass2Model {
                                words: st.words.push(v),
                                lc: spec_lc_add(st.lc, 1),
                                ..st
                            },
                        ),
                    },
                    None => Err((line_no + 1, "DC requires an operand"@)),
                }
            } else if p == "BSS"@ {
                match lm.operand {
                    Some(o) => match spec_parse_expr(table, o) {
                        Err(m) => Err((line_no + 1, m)),
                        Ok(v) => Ok(
                            Pass2Model {
                                words: st.words + Seq::new(v as nat, |k: int| 0u16),
                                lc: spec_lc_add(st.lc, v),
                                ..st
                            },
                        ),
                    },
                    None => Err((line_no + 1, "BSS requires a size operand"@)),
                }
            } else if p == "END"@ {
                match lm.operand {
                    Some(o) => match spec_parse_expr(table, o) {
                        Err(m) => Err((line_no + 1, m)),
                        Ok(v) => Ok(Pass2Model { entry: Some(v), ..st }),
                    },
                    None => Ok(st),
                }
            } else {
                Ok(st)
            }
        },
        OpModel::Nothing => Ok(st),
    }
}

/// What pass two yields from line `i` on.
pub open spec fn spec_pass2(
    lines: Seq<LineModel>,
    i: int,
    table: Map<Seq<char>, u16>,
    st: Pass2Model,
) -> Result<Pass2Model, (int, Seq<char>)>
    decreases lines.len() - i,
{
    if i < 0 || i >= lines.len() {
        Ok(st)
    } else {
        match spec_pass2_line(table, st, lines[i], i) {
            Err(e) => Err(e),
            Ok(st1) => spec_pass2(lines, i + 1, table, st1),
        }
    }
}

/// What assembling a source text yields: the parsed lines put through
/// pass one and pass two, or the first error with its 1-indexed line.
/// The reported origin is the first ORG's value, or 0 without one.
pub open spec fn spec_assemble(src: Seq<char>) -> Result<ProgramModel, (int, Seq<char>)> {
    match spec_parse_source(src) {
        Err(e) => Err(e),
        Ok(lines) => {
            let init1 = Pass1Model {
                table: Map::empty(),
                names: Seq::empty(),
                lc: 0u16,
                origin: None,
            };
            match spec_pass1(lines, 0, init1) {
                Err(e) => Err(e),
                Ok(p1) => {
                    let init2 = Pass2Model { words: Seq::empty(), lc: 0u16, entry: None };
                    match spec_pass2(lines, 0, p1.table, init2) {
                        Err(e) => Err(e),
                        Ok(p2) => Ok(
                            ProgramModel {
                                words: p2.words,
                                origin: match p1.origin {
                                    Some(o) => o,
                                    None => 0u16,
                                },
                                symbols: p1.table,
                                names: p1.names,
                                entry_point: p2.entry,
                            },
                        ),
                    }
                },
            }
        },
    }
}

/// Evaluates an operand expression against the symbol table; an error is
/// a syntax error on line `line_num + 1`.
fn parse_expression(table: &SymbolTable, expr: &str, line_num: usize) -> (r: Result<
    u16,
    AssemblerError,
>)
    requires
        table.wf(),
        line_num < usize::MAX,
    ensures
        (match spec_parse_expr(table.spec_map(), expr@) {
            Ok(v) => r == Ok::<u16, AssemblerError>(v),
            Err(m) => r matches Err(AssemblerError::SyntaxError { line, message }) && line
                == line_num + 1 && message@ == m,
        }),
{
    let chars = str_to_chars(expr);
    let e = trim_chars(&chars);
    proof {
        crate::text::lemma_trim_idempotent(chars@);
    }
    parse_expression_chars(table, &e, line_num)
}

/// Evaluates an already-trimmed operand expression.
fn parse_expression_chars(table: &SymbolTable, e: &Vec<char>, line_num: usize) -> (r: Result<
    u16,
    AssemblerError,
>)
    requires
        table.wf(),
        line_num < usize::MAX,
        e@ == spec_trim(e@),
    ensures
        (match spec_parse_expr(table.spec_map(), e@) {
            Ok(v) => r == Ok::<u16, AssemblerError>(v),
            Err(m) => r matches Err(AssemblerError::SyntaxError { line, message }) && line
                == line_num + 1 && message@ == m,
        }),
{
    let key = chars_to_string(e);
    if let Some(v) = table.lookup(key.as_str()) {
        return Ok(v);
    }
    if e.len() >= 1 && e[0] == '/' {
        match parse_radix_u16(e, 1, 16) {
            Some(v) => Ok(v),
            None => Err(
                AssemblerError::SyntaxError {
                    line: line_num + 1,
                    message: String::from_str("Invalid hex literal: ").concat(key.as_str()),
                },
            ),
        }
    } else if e.len() >= 2 && e[0] == '0' && (e[1] == 'x' || e[1] == 'X') {
        match parse_radix_u16(e, 2, 16) {
            Some(v) => Ok(v),
            None => Err(
                AssemblerError::SyntaxError {
                    line: line_num + 1,
                    message: String::from_str("Invalid hex literal: ").concat(key.as_str()),
                },
            ),
        }
    } else if e.len() > 1 && e[0] == '0' {
        match parse_radix_u16(e, 1, 8) {
            Some(v) => Ok(v),
            None => Err(
                AssemblerError::SyntaxError {
                    line: line_num + 1,
                    message: String::from_str("Invalid octal literal: ").concat(key.as_str()),
                },
            ),
        }
    } else {
        proof {
            assert(e@.subrange(0, e@.len() as int) =~= e@);
        }
        match parse_radix_u16(e, 0, 10) {
            Some(v) => Ok(v),
            None => Err(
                AssemblerError::SyntaxError {
                    line: line_num + 1,
                    message: String::from_str("Undefined symbol or invalid number: ").concat(
                        key.as_str(),
                    ),
                },
            ),
        }
    }
}

/// Parses the trailing or leading index-register tag text.
fn parse_tag(tagtxt: &Vec<char>, line_num: usize) -> (r: Result<u8, AssemblerError>)
    requires
        line_num < usize::MAX,
    ensures
        (match spec_parse_tag(tagtxt@) {
            Ok(v) => r == Ok::<u8, AssemblerError>(v),
            Err(m) => r matches Err(AssemblerError::SyntaxError { line, message }) && line
                == line_num + 1 && message@ == m,
        }),
{
    proof {
        assert(tagtxt@.subrange(0, tagtxt@.len() as int) =~= tagtxt@);
    }
    match parse_radix_u16(tagtxt, 0, 10) {
        None => Err(
            AssemblerError::SyntaxError {
                line: line_num + 1,
                message: String::from_str("Invalid index register: ").concat(
                    chars_to_string(tagtxt).as_str(),
                ),
            },
        ),
        Some(v) => {
            if v > 255 {
                Err(
                    AssemblerError::SyntaxError {
                        line: line_num + 1,
                        message: String::from_str("Invalid index register: ").concat(
                            chars_to_string(tagtxt).as_str(),
                        ),
                    },
                )
            } else if v > 3 {
                Err(
                    AssemblerError::SyntaxError {
                        line: line_num + 1,
                        message: String::from_str("Index register must be 0-3, got ").concat(
                            dec_string_u64(v as u64).as_str(),
                        ),
                    },
                )
            } else {
                Ok(v as u8)
            }
        },
    }
}

/// Copies the characters of `v` between `from` and `to`.
fn slice_chars(v: &Vec<char>, from: usize, to: usize) -> (r: Vec<char>)
    requires
        from <= to <= v@.len(),
    ensures
        r@ == v@.subrange(from as int, to as int),
{
    let mut r: Vec<char> = Vec::new();
    let mut i: usize = from;
    while i < to
        invariant
            from <= i <= to <= v@.len(),
            r@ == v@.subrange(from as int, i as int),
        decreases to - i,
    {
        r.push(v[i]);
        proof {
            assert(v@.subrange(from as int, i + 1) =~= v@.subrange(from as int, i as int).push(
                v@[i as int],
            ));
        }
        i = i + 1;
    }
    r
}

/// Parses a normal operand into displacement, tag and indirect flag.
fn parse_operand(table: &SymbolTable, operand: &str, line_num: usize) -> (r: Result<
    (u16, u8, bool),
    AssemblerError,
>)
    requires
        table.wf(),
        line_num < usize::MAX,
    ensures
        (match spec_parse_operand(table.spec_map(), operand@) {
            Ok(v) => r == Ok::<(u16, u8, bool), AssemblerError>(v),
            Err(m) => r matches Err(AssemblerError::SyntaxError { line, message }) && line
                == line_num + 1 && message@ == m,
        }),
{
    let chars = str_to_chars(operand);
    let t = trim_chars(&chars);
    let ind = t.len() > 0 && (t[0] == '/' || t[0] == '*');
    let t2 = if ind {
        slice_chars(&t, 1, t.len())
    } else {
        t
    };
    match rfind_char(&t2, ',') {
        Some(c) => {
            let addr = slice_chars(&t2, 0, c);
            let tagraw = slice_chars(&t2, c + 1, t2.len());
            let tagtxt = trim_chars(&tagraw);
            let tag = match parse_tag(&tagtxt, line_num) {
                Ok(v) => v,
                Err(e) => {
                    return Err(e);
                },
            };
            let trimmed_addr = trim_chars(&addr);
            proof {
                crate::text::lemma_trim_idempotent(addr@);
            }
            match parse_expression_chars(table, &trimmed_addr, line_num) {
                Ok(d) => Ok((d, tag, ind)),
                Err(e) => Err(e),
            }
        },
        None => {
            let trimmed = trim_chars(&t2);
            proof {
                crate::text::lemma_trim_idempotent(t2@);
            }
            match parse_expression_chars(table, &trimmed, line_num) {
                Ok(d) => Ok((d, 0, ind)),
                Err(e) => Err(e),
            }
        },
    }
}

/// Parses an index-register operand: `tag,address`, the reversed syntax.
fn parse_index_operand(table: &SymbolTable, operand: &str, line_num: usize) -> (r: Result<
    (u16, u8, bool),
    AssemblerError,
>)
    requires
        table.wf(),
        line_num < usize::MAX,
    ensures
        (match spec_parse_index_operand(table.spec_map(), operand@) {
            Ok(v) => r == Ok::<(u16, u8, bool), AssemblerError>(v),
            Err(m) => r matches Err(AssemblerError::SyntaxError { line, message }) && line
                == line_num + 1 && message@ == m,
        }),
{
    let chars = str_to_chars(operand);
    let t = trim_chars(&chars);
    let ind = t.len() > 0 && (t[0] == '/' || t[0] == '*');
    let t2 = if ind {
        slice_chars(&t, 1, t.len())
    } else {
        t
    };
    let c = find_char(&t2, ',', 0);
    if c < t2.len() {
        let tagraw = slice_chars(&t2, 0, c);
        let tagtxt = trim_chars(&tagraw);
        let addrraw = slice_chars(&t2, c + 1, t2.len());
        let addr = trim_chars(&addrraw);
        let tag = match parse_tag(&tagtxt, line_num) {
            Ok(v) => v,
            Err(e) => {
                return Err(e);
            },
        };
        proof {
            crate::text::lemma_trim_idempotent(addrraw@);
        }
        match parse_expression_chars(table, &addr, line_num) {
            Ok(d) => Ok((d, tag, ind)),
            Err(e) => Err(e),
        }
    } else {
        let trimmed = trim_chars(&t2);
        proof {
            crate::text::lemma_trim_idempotent(t2@);
        }
        match parse_expression_chars(table, &trimmed, line_num) {
            Ok(d) => Ok((d, 0, ind)),
            Err(e) => Err(e),
        }
    }
}

/// The opcode a mnemonic names, if any.
fn mnemonic_opcode(mnemonic: &str) -> (r: Option<OpCode>)
    ensures
        r == spec_mnemonic_opcode(mnemonic@),
{
    let u = str_to_chars(mnemonic);
    if chars_eq_str(&u, "LD") {
        Some(OpCode::LD)
    } else if chars_eq_str(&u, "LDD") {
        Some(OpCode::LDD)
    } else if chars_eq_str(&u, "STO") {
        Some(OpCode::STO)
    } else if chars_eq_str(&u, "STD") {
        Some(OpCode::STD)
    } else if chars_eq_str(&u, "A") {
        Some(OpCode::A)
    } else if chars_eq_str(&u, "AD") {
        Some(OpCode::AD)
    } else if chars_eq_str(&u, "S") {
        Some(OpCode::S)
    } else if chars_eq_str(&u, "SD") {
        Some(OpCode::SD)
    } else if chars_eq_str(&u, "M") {
        Some(OpCode::M)
    } else if chars_eq_str(&u, "D") {
        Some(OpCode::D)
    } else if chars_eq_str(&u, "AND") {
        Some(OpCode::AND)
    } else if chars_eq_str(&u, "OR") {
        Some(OpCode::OR)
    } else if chars_eq_str(&u, "EOR") {
        Some(OpCode::EOR)
    } else if chars_eq_str(&u, "SLA") {
        Some(OpCode::SLA)
    } else if chars_eq_str(&u, "SLCA") {
        Some(OpCode::SLCA)
    } else if chars_eq_str(&u, "SRA") {
        Some(OpCode::SRA)
    } else if chars_eq_str(&u, "SRT") {
        Some(OpCode::SRT)
    } else if chars_eq_str(&u, "BSI") {
        Some(OpCode::BSI)
    } else if chars_eq_str(&u, "BC") {
        Some(OpCode::BC)
    } else if chars_eq_str(&u, "BSC") {
        Some(OpCode::BSC)
    } else if chars_eq_str(&u, "LDX") {
        Some(OpCode::LDX)
    } else if chars_eq_str(&u, "STX") {
        Some(OpCode::STX)
    } else if chars_eq_str(&u, "MDX") {
        Some(OpCode::MDX)
    } else if chars_eq_str(&u, "WAIT") {
        Some(OpCode::WAIT)
    } else if chars_eq_str(&u, "LDS") {
        Some(OpCode::LDS)
    } else if chars_eq_str(&u, "STS") {
        Some(OpCode::STS)
    } else if chars_eq_str(&u, "XIO") {
        Some(OpCode::XIO)
    } else if chars_eq_str(&u, "SDS") {
        Some(OpCode::SDS)
    } else {
        None
    }
}

/// Encodes one instruction into its one or two words.
fn encode_instruction(
    table: &SymbolTable,
    mnemonic: &str,
    operand: &Option<String>,
    line_num: usize,
) -> (r: Result<Vec<u16>, AssemblerError>)
    requires
        table.wf(),
        line_num < usize::MAX,
    ensures
        (match spec_encode_instruction(
            table.spec_map(),
            mnemonic@,
            match operand {
                Some(o) => Some(o@),
                None => None,
            },
        ) {
            Ok(ws) => r matches Ok(v) && v@ == ws,
            Err(m) => r matches Err(AssemblerError::SyntaxError { line, message }) && line
                == line_num + 1 && message@ == m,
        }),
{
    let op = match mnemonic_opcode(mnemonic) {
        Some(op) => op,
        None => {
            return Err(
                AssemblerError::SyntaxError {
                    line: line_num + 1,
                    message: String::from_str("Unknown instruction: ").concat(mnemonic),
                },
            );
        },
    };
    let is_index = match op {
        OpCode::LDX | OpCode::STX | OpCode::MDX => true,
        _ => false,
    };
    let (displacement, tag, indirect) = match operand {
        Some(o) => {
            let parsed = if is_index {
                parse_index_operand(table, o.as_str(), line_num)
            } else {
                parse_operand(table, o.as_str(), line_num)
            };
            match parsed {
                Ok(v) => v,
                Err(e) => {
                    return Err(e);
                },
            }
        },
        None => (0u16, 0u8, false),
    };
    let opcode_byte = op.to_byte();
    let base: u32 = (opcode_byte as u32) * 256 + (tag as u32) * 64 + (if indirect {
        32u32
    } else {
        0u32
    });
    if op.is_long_format() {
        let word1 = base as u16;
        Ok(vec![word1, displacement])
    } else {
        let word1 = (base + (displacement as u32) % 32) as u16;
        Ok(vec![word1])
    }
}

/// The size in words an operation occupies, for pass one.
fn get_instruction_size(op: &Operation) -> (r: Result<u16, AssemblerError>)
    ensures
        (match op@ {
            OpModel::Instruction(mn) => match spec_instr_size(mn) {
                Some(sz) => r == Ok::<u16, AssemblerError>(sz),
                None => r matches Err(AssemblerError::SyntaxError { line, message }) && line == 0
                    && message@ == "Unknown instruction: "@ + mn,
            },
            _ => r == Ok::<u16, AssemblerError>(0u16),
        }),
{
    match op {
        Operation::Instruction(mn) => {
            match mnemonic_opcode(mn.as_str()) {
                Some(oc) => Ok(
                    if oc.is_long_format() {
                        2
                    } else {
                        1
                    },
                ),
                None => Err(
                    AssemblerError::SyntaxError {
                        line: 0,
                        message: String::from_str("Unknown instruction: ").concat(mn.as_str()),
                    },
                ),
            }
        },
        _ => Ok(0),
    }
}

/// The two-pass assembler. One instance may assemble repeatedly; every
/// run starts from a clean state.
pub struct Assembler {
    /// The symbol table of the current or last run.
    pub symbols: SymbolTable,
    /// The location counter of the current pass.
    pub location_counter: u16,
    /// The origin, once the first ORG of the run has set it.
    pub origin: Option<u16>,
    /// The entry point, once END has named one.
    pub entry_point: Option<u16>,
}

impl Assembler {
    /// Creates an assembler with a clean state.
    pub fn new() -> (r: Assembler)
        ensures
            r.symbols.wf(),
    {
        Assembler {
            symbols: SymbolTable::new(),
            location_counter: 0,
            origin: None,
            entry_point: None,
        }
    }

    /// Assembles a source text into its binary form, exactly as
    /// `spec_assemble` describes: pass one assigns addresses and defines
    /// the labels, pass two emits the words.
    pub fn assemble(&mut self, source: &str) -> (r: Result<AssembledProgram, AssemblerError>)
        ensures
            (match spec_assemble(source@) {
                Ok(pm) => r matches Ok(p) && p@ == pm,
                Err((ln, msg)) => spec_err_is(r, ln, msg),
            }),
    {
        self.symbols.clear();
        self.location_counter = 0;
        self.origin = None;
        self.entry_point = None;
        let lines = match crate::assembler::parser::parse_source(source) {
            Ok(v) => v,
            Err(e) => {
                return Err(e);
            },
        };
        match self.pass1(&lines) {
            Ok(()) => {},
            Err(e) => {
                return Err(e);
            },
        }
        let words = match self.pass2(&lines) {
            Ok(w) => w,
            Err(e) => {
                return Err(e);
            },
        };
        Ok(
            AssembledProgram {
                words,
                origin: match self.origin {
                    Some(o) => o,
                    None => 0,
                },
                symbols: self.symbols.clone_table(),
                entry_point: self.entry_point,
            },
        )
    }

    /// Pass one: walks the lines defining labels and assigning addresses.
    #[verifier::rlimit(100)]
    #[verifier::spinoff_prover]
    fn pass1(&mut self, lines: &Vec<ParsedLine>) -> (r: Result<(), AssemblerError>)
        requires
            old(self).symbols.wf(),
            old(self).symbols.spec_map() == Map::<Seq<char>, u16>::empty(),
            old(self).symbols.spec_names() == Seq::<Seq<char>>::empty(),
            old(self).location_counter == 0,
            old(self).origin is None,
        ensures
            final(self).symbols.wf(),
            final(self).entry_point == old(self).entry_point,
            ({
                let lv = crate::assembler::parser::spec_line_models(lines@);
                let init = Pass1Model {
                    table: Map::empty(),
                    names: Seq::empty(),
                    lc: 0u16,
                    origin: None,
                };
                match spec_pass1(lv, 0, init) {
                    Ok(p1) => {
                        &&& r == Ok::<(), AssemblerError>(())
                        &&& final(self).symbols.spec_map() == p1.table
                        &&& final(self).symbols.spec_names() == p1.names
                        &&& final(self).location_counter == p1.lc
                        &&& final(self).origin == p1.origin
                    },
                    Err((ln, msg)) => spec_err_is(r, ln, msg),
                }
            }),
    {
        let ghost lv = crate::assembler::parser::spec_line_models(lines@);
        let ghost init = Pass1Model {
            table: Map::empty(),
            names: Seq::empty(),
            lc: 0u16,
            origin: None,
        };
        let n = lines.len();
        let mut i: usize = 0;
        while i < n
            invariant
                i <= n,
                n == lines@.len(),
                lv == crate::assembler::parser::spec_line_models(lines@),
                init == (Pass1Model {
                    table: Map::<Seq<char>, u16>::empty(),
                    names: Seq::<Seq<char>>::empty(),
                    lc: 0u16,
                    origin: None::<u16>,
                }),
                self.symbols.wf(),
                self.entry_point == old(self).entry_point,
                spec_pass1(lv, 0, init) == spec_pass1(
                    lv,
                    i as int,
                    Pass1Model {
                        table: self.symbols.spec_map(),
                        names: self.symbols.spec_names(),
                        lc: self.location_counter,
                        origin: self.origin,
                    },
                ),
            decreases n - i,
        {
            let ghost st = Pass1Model {
                table: self.symbols.spec_map(),
                names: self.symbols.spec_names(),
                lc: self.location_counter,
                origin: self.origin,
            };
            proof {
                assert(lv[i as int] == lines@[i as int]@);
            }
            let step = self.pass1_line(&lines[i], i);
            proof {
                match spec_pass1_line(st, lv[i as int], i as int) {
                    Ok(st1) => {
                        assert(step == Ok::<(), AssemblerError>(()));
                    },
                    Err((ln, msg)) => {
                        assert(spec_err_is(step, ln, msg));
                    },
                }
            }
            match step {
                Ok(()) => {},
                Err(e) => {
                    proof {
                        assert(spec_pass1(lv, 0, init) == spec_pass1_line(
                            st,
                            lv[i as int],
                            i as int,
                        ));
                    }
                    return Err(e);
                },
            }
            proof {
                let st1 = Pass1Model {
                    table: self.symbols.spec_map(),
                    names: self.symbols.spec_names(),
                    lc: self.location_counter,
                    origin: self.origin,
                };
                assert(spec_pass1(lv, i as int, st) == spec_pass1(lv, i + 1, st1));
            }
            i = i + 1;
        }
        Ok(())
    }

    /// One line of pass one: define its label at the location counter,
    /// then advance the counter by the operation's size.
    #[verifier::rlimit(100)]
    fn pass1_line(&mut self, line: &ParsedLine, i: usize) -> (r: Result<(), AssemblerError>)
        requires
            old(self).symbols.wf(),
            i < usize::MAX,
        ensures
            final(self).symbols.wf(),
            final(self).entry_point == old(self).entry_point,
            ({
                let st = Pass1Model {
                    table: old(self).symbols.spec_map(),
                    names: old(self).symbols.spec_names(),
                    lc: old(self).location_counter,
                    origin: old(self).origin,
                };
                match spec_pass1_line(st, line@, i as int) {
                    Ok(st1) => {
                        &&& r == Ok::<(), AssemblerError>(())
                        &&& final(self).symbols.spec_map() == st1.table
                        &&& final(self).symbols.spec_names() == st1.names
                        &&& final(self).location_counter == st1.lc
                        &&& final(self).origin == st1.origin
                    },
                    Err((ln, msg)) => spec_err_is(r, ln, msg),
                }
            }),
    {
        proof {
            reveal(spec_pass1_line);
        }
        if let Some(label) = &line.label {
            match self.symbols.define(label.as_str(), self.location_counter) {
                Ok(()) => {},
                Err(e) => {
                    return Err(
                        AssemblerError::SyntaxError {
                            line: i + 1,
                            message: e.message(),
                        },
                    );
                },
            }
        }
        match &line.operation {
            Operation::Instruction(_) => {
                let size = match get_instruction_size(&line.operation) {
                    Ok(s) => s,
                    Err(e) => {
                        return Err(e);
                    },
                };
                let sum: u32 = self.location_counter as u32 + size as u32;
                self.location_counter = (sum % 0x10000) as u16;
            },
            Operation::PseudoOp(p) => {
                if chars_eq_str(&str_to_chars(p.as_str()), "ORG") {
                    if let Some(o) = &line.operand {
                        let v = match parse_expression(&self.symbols, o.as_str(), i) {
                            Ok(v) => v,
                            Err(e) => {
                                return Err(e);
                            },
                        };
                        self.location_counter = v;
                        if self.origin.is_none() {
                            self.origin = Some(v);
                        }
                    }
                } else if chars_eq_str(&str_to_chars(p.as_str()), "DC") {
                    let sum: u32 = self.location_counter as u32 + 1;
                    self.location_counter = (sum % 0x10000) as u16;
                } else if chars_eq_str(&str_to_chars(p.as_str()), "BSS") {
                    if let Some(o) = &line.operand {
                        let v = match parse_expression(&self.symbols, o.as_str(), i) {
                            Ok(v) => v,
                            Err(e) => {
                                return Err(e);
                            },
                        };
                        let sum: u32 = self.location_counter as u32 + v as u32;
                        self.location_counter = (sum % 0x10000) as u16;
                    }
                } else if chars_eq_str(&str_to_chars(p.as_str()), "END") || chars_eq_str(
                    &str_to_chars(p.as_str()),
                    "EQU",
                ) {
                    // Neither advances the location counter.
                } else {
                    let msg = String::from_str("Unknown pseudo-op: ");
                    return Err(
                        AssemblerError::SyntaxError {
                            line: i + 1,
                            message: msg.concat(p.as_str()),
                        },
                    );
                }
            },
            Operation::Nothing => {},
        }
        Ok(())
    }

    /// Pass two: walks the lines again, emitting the binary words.
    #[verifier::rlimit(100)]
    fn pass2(&mut self, lines: &Vec<ParsedLine>) -> (r: Result<Vec<u16>, AssemblerError>)
        requires
            old(self).symbols.wf(),
        ensures
            final(self).symbols.wf(),
            final(self).symbols.spec_map() == old(self).symbols.spec_map(),
            final(self).symbols.spec_names() == old(self).symbols.spec_names(),
            final(self).origin == old(self).origin,
            ({
                let lv = crate::assembler::parser::spec_line_models(lines@);
                let init = Pass2Model { words: Seq::empty(), lc: 0u16, entry: None };
                match spec_pass2(lv, 0, old(self).symbols.spec_map(), init) {
                    Ok(p2) => {
                        &&& r matches Ok(w) && w@ == p2.words
                        &&& final(self).entry_point == (match p2.entry {
                            Some(e) => Some(e),
                            None => old(self).entry_point,
                        })
                    },
                    Err((ln, msg)) => spec_err_is(r, ln, msg),
                }
            }),
    {
        let ghost lv = crate::assembler::parser::spec_line_models(lines@);
        let ghost table = self.symbols.spec_map();
        let mut words: Vec<u16> = Vec::new();
        self.location_counter = 0;
        let n = lines.len();
        let mut i: usize = 0;
        let mut entry_seen = false;
        while i < n
            invariant
                i <= n,
                n == lines@.len(),
                lv == crate::assembler::parser::spec_line_models(lines@),
                self.symbols.wf(),
                self.symbols.spec_map() == old(self).symbols.spec_map(),
                self.symbols.spec_names() == old(self).symbols.spec_names(),
                self.origin == old(self).origin,
                table == old(self).symbols.spec_map(),
                !entry_seen ==> self.entry_point == old(self).entry_point,
                spec_pass2(lv, 0, table, Pass2Model { words: Seq::empty(), lc: 0u16, entry: None })
                    == spec_pass2(
                    lv,
                    i as int,
                    table,
                    Pass2Model {
                        words: words@,
                        lc: self.location_counter,
                        entry: if entry_seen {
                            match self.entry_point {
                                Some(e) => Some(e),
                                None => None,
                            }
                        } else {
                            None
                        },
                    },
                ),
                entry_seen ==> self.entry_point is Some,
            decreases n - i,
        {
            let ghost st = Pass2Model {
                words: words@,
                lc: self.location_counter,
                entry: if entry_seen {
                    self.entry_point
                } else {
                    None
                },
            };
            proof {
                reveal(spec_pass2_line);
                assert(lv[i as int] == lines@[i as int]@);
            }
            let line = &lines[i];
            match &line.operation {
                Operation::Instruction(mn) => {
                    let encoded = match encode_instruction(
                        &self.symbols,
                        mn.as_str(),
                        &line.operand,
                        i,
                    ) {
                        Ok(w) => w,
                        Err(e) => {
                            return Err(e);
                        },
                    };
                    let ghost pre_words = words@;
                    let mut encoded = encoded;
                    let elen = encoded.len();
                    words.append(&mut encoded);
                    let sum: u32 = self.location_counter as u32 + elen as u32;
                    self.location_counter = (sum % 0x10000) as u16;
                    proof {
                        assert(words@ == pre_words + spec_pass2_words_of(lv[i as int], table));
                    }
                },
                Operation::PseudoOp(p) => {
                    if chars_eq_str(&str_to_chars(p.as_str()), "ORG") {
                        if let Some(o) = &line.operand {
                            let v = match parse_expression(&self.symbols, o.as_str(), i) {
                                Ok(v) => v,
                                Err(e) => {
                                    return Err(e);
                                },
                            };
                            self.location_counter = v;
                        }
                    } else if chars_eq_str(&str_to_chars(p.as_str()), "DC") {
                        match &line.operand {
                            Some(o) => {
                                let v = match parse_expression(&self.symbols, o.as_str(), i) {
                                    Ok(v) => v,
                                    Err(e) => {
                                        return Err(e);
                                    },
                                };
                                words.push(v);
                                let sum: u32 = self.location_counter as u32 + 1;
                                self.location_counter = (sum % 0x10000) as u16;
                            },
                            None => {
                                return Err(
                                    AssemblerError::SyntaxError {
                                        line: i + 1,
                                        message: String::from_str("DC requires an operand"),
                                    },
                                );
                            },
                        }
                    } else if chars_eq_str(&str_to_chars(p.as_str()), "BSS") {
                        match &line.operand {
                            Some(o) => {
                                let v = match parse_expression(&self.symbols, o.as_str(), i) {
                                    Ok(v) => v,
                                    Err(e) => {
                                        return Err(e);
                                    },
                                };
                                let ghost pre_words = words@;
                                let mut k: u16 = 0;
                                while k < v
                                    invariant
                                        k <= v,
                                        words@ == pre_words + Seq::new(
                                            k as nat,
                                            |x: int| 0u16,
                                        ),
                                    decreases v - k,
                                {
                                    words.push(0);
                                    proof {
                                        assert(pre_words + Seq::new((k + 1) as nat, |x: int| 0u16)
                                            =~= (pre_words + Seq::new(
                                            k as nat,
                                            |x: int| 0u16,
                                        )).push(0u16));
                                    }
                                    k = k + 1;
                                }
                                let sum: u32 = self.location_counter as u32 + v as u32;
                                self.location_counter = (sum % 0x10000) as u16;
                            },
                            None => {
                                return Err(
                                    AssemblerError::SyntaxError {
                                        line: i + 1,
                                        message: String::from_str("BSS requires a size operand"),
                                    },
                                );
                            },
                        }
                    } else if chars_eq_str(&str_to_chars(p.as_str()), "END") {
                        if let Some(o) = &line.operand {
                            let v = match parse_expression(&self.symbols, o.as_str(), i) {
                                Ok(v) => v,
                                Err(e) => {
                                    return Err(e);
                                },
                            };
                            self.entry_point = Some(v);
                            entry_seen = true;
                        }
                    } else {
                        // EQU and anything else emit nothing in pass two.
                    }
                },
                Operation::Nothing => {},
            }
            proof {
                let st1 = Pass2Model {
                    words: words@,
                    lc: self.location_counter,
                    entry: if entry_seen {
                        self.entry_point
                    } else {
                        None
                    },
                };
                assert(spec_pass2_line(table, st, lv[i as int], i as int) == Ok::<
                    Pass2Model,
                    (int, Seq<char>),
                >(st1));
                assert(spec_pass2(lv, i as int, table, st) == spec_pass2(lv, i + 1, table, st1));
            }
            i = i + 1;
        }
        Ok(words)
    }
}

/// The words one line emits in pass two, when it emits without error.
pub open spec fn spec_pass2_words_of(lm: LineModel, table: Map<Seq<char>, u16>) -> Seq<u16> {
    match lm.op {
        OpModel::Instruction(mn) => match spec_encode_instruction(table, mn, lm.operand) {
            Ok(ws) => ws,
            Err(_) => Seq::empty(),
        },
        _ => Seq::empty(),
    }
}

impl SymbolTable {
    /// A copy of the table, for the assembly's output snapshot.
    pub fn clone_table(&self) -> (r: SymbolTable)
        ensures
            r.entries@ == self.entries@,
            r.spec_map() == self.spec_map(),
            r.spec_names() == self.spec_names(),
    {
        SymbolTable { entries: self.get_all() }
    }
}

} // verus!
