//! The line parser: turns raw source lines into structured lines of
//! label, operation and operand.
//!
//! A line beginning with non-blank text supplies a label; a line
//! beginning with blank space does not. A line whose first non-blank
//! character is an asterisk is a comment; an asterisk later in a line
//! cuts off an inline comment.

use vstd::prelude::*;

verus! {

use crate::error::AssemblerError;
use crate::text::{
    chars_eq_str, chars_to_string, find_char, is_space, join_tokens, spec_find_idx, spec_is_space,
    spec_join_sp, spec_skip_spaces_idx, spec_tokens, spec_trim, spec_upper, split_lines,
    split_tokens, str_to_chars, trim_chars, upper_chars,
};

/// Abstract form of an operation.
pub enum OpModel {
    /// A machine instruction, by its upper-cased mnemonic.
    Instruction(Seq<char>),
    /// A pseudo-operation, by its upper-cased name.
    PseudoOp(Seq<char>),
    /// No operation: a blank or comment line, or a bare label.
    Nothing,
}

/// Abstract form of a parsed line.
pub struct LineModel {
    /// The label, when the line starts in column one.
    pub label: Option<Seq<char>>,
    /// The operation.
    pub op: OpModel,
    /// The raw operand text, blank-normalized.
    pub operand: Option<Seq<char>>,
}

/// The operation of a parsed line: a machine instruction, a pseudo-op, or
/// nothing.
#[derive(Debug, Clone)]
pub enum Operation {
    /// A machine instruction, by its upper-cased mnemonic.
    Instruction(String),
    /// A pseudo-operation, by its upper-cased name.
    PseudoOp(String),
    /// No operation: a blank or comment line, or a bare label.
    Nothing,
}

impl View for Operation {
    type V = OpModel;

    open spec fn view(&self) -> OpModel {
        match self {
            Operation::Instruction(s) => OpModel::Instruction(s@),
            Operation::PseudoOp(s) => OpModel::PseudoOp(s@),
            Operation::Nothing => OpModel::Nothing,
        }
    }
}

/// One parsed source line: an optional label, an operation, an optional
/// operand.
#[derive(Debug, Clone)]
pub struct ParsedLine {
    /// The label, when the line starts in column one.
    pub label: Option<String>,
    /// The operation.
    pub operation: Operation,
    /// The raw operand text, blank-normalized.
    pub operand: Option<String>,
}

impl View for ParsedLine {
    type V = LineModel;

    open spec fn view(&self) -> LineModel {
        LineModel {
            label: match &self.label {
                Some(s) => Some(s@),
                None => None,
            },
            op: self.operation@,
            operand: match &self.operand {
                Some(s) => Some(s@),
                None => None,
            },
        }
    }
}

/// Whether an upper-cased word is one of the 28 instruction mnemonics.
pub open spec fn spec_is_instruction_name(u: Seq<char>) -> bool {
    ||| u == "LD"@
    ||| u == "LDD"@
    ||| u == "STO"@
    ||| u == "STD"@
    ||| u == "A"@
    ||| u == "AD"@
    ||| u == "S"@
    ||| u == "SD"@
    ||| u == "M"@
    ||| u == "D"@
    ||| u == "AND"@
    ||| u == "OR"@
    ||| u == "EOR"@
    ||| u == "SLA"@
    ||| u == "SLCA"@
    ||| u == "SRA"@
    ||| u == "SRT"@
    ||| u == "BSI"@
    ||| u == "BSC"@
    ||| u == "BC"@
    ||| u == "LDX"@
    ||| u == "STX"@
    ||| u == "MDX"@
    ||| u == "WAIT"@
    ||| u == "LDS"@
    ||| u == "STS"@
    ||| u == "XIO"@
    ||| u == "SDS"@
}

/// Whether an upper-cased word is one of the five pseudo-operations.
pub open spec fn spec_is_pseudo_name(u: Seq<char>) -> bool {
    ||| u == "ORG"@
    ||| u == "DC"@
    ||| u == "BSS"@
    ||| u == "END"@
    ||| u == "EQU"@
}

/// Whether a word names an instruction, in any letter case.
pub fn is_instruction(s: &str) -> (r: bool)
    ensures
        r == spec_is_instruction_name(spec_upper(s@)),
{
    let u = upper_chars(&str_to_chars(s));
    is_instruction_chars(&u)
}

/// Whether an upper-cased character vector names an instruction.
pub(crate) fn is_instruction_chars(u: &Vec<char>) -> (r: bool)
    ensures
        r == spec_is_instruction_name(u@),
{
    chars_eq_str(u, "LD") || chars_eq_str(u, "LDD") || chars_eq_str(u, "STO") || chars_eq_str(
        u,
        "STD",
    ) || chars_eq_str(u, "A") || chars_eq_str(u, "AD") || chars_eq_str(u, "S") || chars_eq_str(
        u,
        "SD",
    ) || chars_eq_str(u, "M") || chars_eq_str(u, "D") || chars_eq_str(u, "AND") || chars_eq_str(
        u,
        "OR",
    ) || chars_eq_str(u, "EOR") || chars_eq_str(u, "SLA") || chars_eq_str(u, "SLCA")
        || chars_eq_str(u, "SRA") || chars_eq_str(u, "SRT") || chars_eq_str(u, "BSI")
        || chars_eq_str(u, "BSC") || chars_eq_str(u, "BC") || chars_eq_str(u, "LDX")
        || chars_eq_str(u, "STX") || chars_eq_str(u, "MDX") || chars_eq_str(u, "WAIT")
        || chars_eq_str(u, "LDS") || chars_eq_str(u, "STS") || chars_eq_str(u, "XIO")
        || chars_eq_str(u, "SDS")
}

/// Whether a word names a pseudo-operation, in any letter case.
pub fn is_pseudo_op(s: &str) -> (r: bool)
    ensures
        r == spec_is_pseudo_name(spec_upper(s@)),
{
    let u = upper_chars(&str_to_chars(s));
    is_pseudo_chars(&u)
}

/// Whether an upper-cased character vector names a pseudo-operation.
pub(crate) fn is_pseudo_chars(u: &Vec<char>) -> (r: bool)
    ensures
        r == spec_is_pseudo_name(u@),
{
    chars_eq_str(u, "ORG") || chars_eq_str(u, "DC") || chars_eq_str(u, "BSS") || chars_eq_str(
        u,
        "END",
    ) || chars_eq_str(u, "EQU")
}

/// A line carrying nothing: no label, no operation, no operand.
pub open spec fn spec_blank_line() -> LineModel {
    LineModel { label: None, op: OpModel::Nothing, operand: None }
}

/// The operand of a line whose operation stood at position `k - 1` of its
/// tokens: the remaining tokens joined with single blanks, or nothing.
pub open spec fn spec_operand_from(parts: Seq<Seq<char>>, k: int) -> Option<Seq<char>> {
    if parts.len() > k {
        Some(spec_join_sp(parts.subrange(k, parts.len() as int)))
    } else {
        None
    }
}

/// What parsing one source line yields: a structured line, or the message
/// of a syntax error. Blank lines and comment lines yield the empty line;
/// leading blank space decides whether the first token is a label.
pub open spec fn spec_parse_line(line: Seq<char>) -> Result<LineModel, Seq<char>> {
    if spec_trim(line).len() == 0 {
        Ok(spec_blank_line())
    } else {
        let a = spec_skip_spaces_idx(line, 0);
        if a < line.len() && line[a] == '*' {
            Ok(spec_blank_line())
        } else {
            let cut = spec_find_idx(line, '*', 0);
            let body = if cut < line.len() {
                line.subrange(0, cut)
            } else {
                line
            };
            let lead_ws = body.len() > 0 && spec_is_space(body[0]);
            let parts = spec_tokens(body);
            if parts.len() == 0 {
                Ok(spec_blank_line())
            } else if lead_ws {
                let u = spec_upper(parts[0]);
                if spec_is_instruction_name(u) {
                    Ok(
                        LineModel {
                            label: None,
                            op: OpModel::Instruction(u),
                            operand: spec_operand_from(parts, 1),
                        },
                    )
                } else if spec_is_pseudo_name(u) {
                    Ok(
                        LineModel {
                            label: None,
                            op: OpModel::PseudoOp(u),
                            operand: spec_operand_from(parts, 1),
                        },
                    )
                } else {
                    Err("Expected instruction or pseudo-op, got: "@ + parts[0])
                }
            } else {
                if parts.len() == 1 {
                    Ok(LineModel { label: Some(parts[0]), op: OpModel::Nothing, operand: None })
                } else {
                    let u = spec_upper(parts[1]);
                    if spec_is_instruction_name(u) {
                        Ok(
                            LineModel {
                                label: Some(parts[0]),
                                op: OpModel::Instruction(u),
                                operand: spec_operand_from(parts, 2),
                            },
                        )
                    } else if spec_is_pseudo_name(u) {
                        Ok(
                            LineModel {
                                label: Some(parts[0]),
                                op: OpModel::PseudoOp(u),
                                operand: spec_operand_from(parts, 2),
                            },
                        )
                    } else {
                        Err("Expected instruction or pseudo-op, got: "@ + parts[1])
                    }
                }
            }
        }
    }
}

/// Parses one source line; a syntax error carries the given 1-indexed
/// line number.
pub fn parse_line(line: &str, line_num: usize) -> (r: Result<ParsedLine, AssemblerError>)
    ensures
        (match spec_parse_line(line@) {
            Ok(lm) => r matches Ok(pl) && pl@ == lm,
            Err(msg) => r matches Err(AssemblerError::SyntaxError { line: l, message }) && l
                == line_num && message@ == msg,
        }),
{
    let chars = str_to_chars(line);
    let trimmed = trim_chars(&chars);
    if trimmed.len() == 0 {
        return Ok(ParsedLine { label: None, operation: Operation::Nothing, operand: None });
    }
    let n = chars.len();
    let mut a: usize = 0;
    while a < n && is_space(chars[a])
        invariant
            a <= n,
            n == chars@.len(),
            forall|j: int| 0 <= j < a ==> spec_is_space(chars@[j]),
        decreases n - a,
    {
        a = a + 1;
    }
    proof {
        crate::text::lemma_skip_spaces_char(chars@, 0, a as int);
    }
    if a < n && chars[a] == '*' {
        return Ok(ParsedLine { label: None, operation: Operation::Nothing, operand: None });
    }
    let cut = find_char(&chars, '*', 0);
    let blen = if cut < n {
        cut
    } else {
        n
    };
    let mut body: Vec<char> = Vec::new();
    let mut i: usize = 0;
    while i < blen
        invariant
            i <= blen <= n,
            n == chars@.len(),
            body@ == chars@.subrange(0, i as int),
        decreases blen - i,
    {
        body.push(chars[i]);
        proof {
            assert(chars@.subrange(0, i + 1) =~= chars@.subrange(0, i as int).push(
                chars@[i as int],
            ));
        }
        i = i + 1;
    }
    proof {
        if cut >= n {
            assert(body@ =~= chars@);
        }
    }
    let lead_ws = body.len() > 0 && is_space(body[0]);
    let parts = split_tokens(&body);
    let ghost parts_model = parts@.map_values(|t: Vec<char>| t@);
    if parts.len() == 0 {
        return Ok(ParsedLine { label: None, operation: Operation::Nothing, operand: None });
    }
    if lead_ws {
        let u = upper_chars(&parts[0]);
        proof {
            assert(parts_model[0] == parts@[0]@);
        }
        if is_instruction_chars(&u) {
            let operand = operand_from(&parts, 1);
            Ok(
                ParsedLine {
                    label: None,
                    operation: Operation::Instruction(chars_to_string(&u)),
                    operand,
                },
            )
        } else if is_pseudo_chars(&u) {
            let operand = operand_from(&parts, 1);
            Ok(
                ParsedLine {
                    label: None,
                    operation: Operation::PseudoOp(chars_to_string(&u)),
                    operand,
                },
            )
        } else {
            let msg = String::from_str("Expected instruction or pseudo-op, got: ");
            Err(
                AssemblerError::SyntaxError {
                    line: line_num,
                    message: msg.concat(chars_to_string(&parts[0]).as_str()),
                },
            )
        }
    } else {
        proof {
            assert(parts_model[0] == parts@[0]@);
        }
        let label = chars_to_string(&parts[0]);
        if parts.len() == 1 {
            return Ok(
                ParsedLine { label: Some(label), operation: Operation::Nothing, operand: None },
            );
        }
        let u = upper_chars(&parts[1]);
        proof {
            assert(parts_model[1] == parts@[1]@);
        }
        if is_instruction_chars(&u) {
            let operand = operand_from(&parts, 2);
            Ok(
                ParsedLine {
                    label: Some(label),
                    operation: Operation::Instruction(chars_to_string(&u)),
                    operand,
                },
            )
        } else if is_pseudo_chars(&u) {
            let operand = operand_from(&parts, 2);
            Ok(
                ParsedLine {
                    label: Some(label),
                    operation: Operation::PseudoOp(chars_to_string(&u)),
                    operand,
                },
            )
        } else {
            let msg = String::from_str("Expected instruction or pseudo-op, got: ");
            Err(
                AssemblerError::SyntaxError {
                    line: line_num,
                    message: msg.concat(chars_to_string(&parts[1]).as_str()),
                },
            )
        }
    }
}

/// Joins the tokens from position `k` on into the operand text, when any
/// are there.
fn operand_from(parts: &Vec<Vec<char>>, k: usize) -> (r: Option<String>)
    requires
        k <= parts@.len(),
    ensures
        (match r {
            Some(s) => spec_operand_from(parts@.map_values(|t: Vec<char>| t@), k as int) == Some(
                s@,
            ),
            None => spec_operand_from(parts@.map_values(|t: Vec<char>| t@), k as int)
                is None,
        }),
{
    if parts.len() > k {
        let joined = join_tokens(parts, k);
        Some(chars_to_string(&joined))
    } else {
        None
    }
}

/// The abstract forms of a run of parsed lines.
pub open spec fn spec_line_models(lines: Seq<ParsedLine>) -> Seq<LineModel> {
    lines.map_values(|p: ParsedLine| p@)
}

/// Whether a parsed line carries anything: a non-blank operation or a
/// label.
pub open spec fn spec_line_kept(lm: LineModel) -> bool {
    !(lm.op is Nothing) || lm.label is Some
}

/// What parsing a source text yields, from line `i` of its line list on:
/// the structured lines that carry anything, or the first error with its
/// 1-indexed line number.
pub open spec fn spec_parse_lines(lines: Seq<Seq<char>>, i: int) -> Result<
    Seq<LineModel>,
    (int, Seq<char>),
>
    decreases lines.len() - i,
{
    if i < 0 || i >= lines.len() {
        Ok(Seq::empty())
    } else {
        match spec_parse_line(lines[i]) {
            Err(msg) => Err((i + 1, msg)),
            Ok(lm) => match spec_parse_lines(lines, i + 1) {
                Err(e) => Err(e),
                Ok(rest) => if spec_line_kept(lm) {
                    Ok(seq![lm] + rest)
                } else {
                    Ok(rest)
                },
            },
        }
    }
}

/// What parsing a whole source text yields.
pub open spec fn spec_parse_source(src: Seq<char>) -> Result<Seq<LineModel>, (int, Seq<char>)> {
    spec_parse_lines(crate::text::spec_lines(src), 0)
}

/// Parses assembly source into its structured lines, dropping blank and
/// comment-only lines; the first syntax error aborts, tagged with its
/// 1-indexed source line.
pub fn parse_source(source: &str) -> (r: Result<Vec<ParsedLine>, AssemblerError>)
    ensures
        (match spec_parse_source(source@) {
            Ok(models) => r matches Ok(v) && spec_line_models(v@) == models,
            Err((ln, msg)) => r matches Err(AssemblerError::SyntaxError { line, message }) && line
                == ln && message@ == msg,
        }),
{
    let chars = str_to_chars(source);
    let lines = split_lines(&chars);
    let ghost lv = lines@.map_values(|t: Vec<char>| t@);
    let n = lines.len();
    let mut out: Vec<ParsedLine> = Vec::new();
    let mut i: usize = 0;
    while i < n
        invariant
            i <= n,
            n == lines@.len(),
            lv == lines@.map_values(|t: Vec<char>| t@),
            lv == crate::text::spec_lines(source@),
            ({
                let total = spec_parse_lines(lv, 0);
                match spec_parse_lines(lv, i as int) {
                    Ok(rest) => total == Ok::<Seq<LineModel>, (int, Seq<char>)>(
                        spec_line_models(out@) + rest,
                    ),
                    Err(e) => total == Err::<Seq<LineModel>, (int, Seq<char>)>(e),
                }
            }),
        decreases n - i,
    {
        let text = chars_to_string(&lines[i]);
        proof {
            assert(text@ == lv[i as int]);
        }
        let parsed = match parse_line(text.as_str(), i + 1) {
            Ok(p) => p,
            Err(e) => {
                return Err(e);
            },
        };
        let keep = match &parsed.operation {
            Operation::Nothing => parsed.label.is_some(),
            _ => true,
        };
        let ghost pre_out = spec_line_models(out@);
        if keep {
            out.push(parsed);
            proof {
                assert(spec_line_models(out@) =~= pre_out.push(out@.last()@));
            }
        }
        proof {
            match spec_parse_lines(lv, i + 1) {
                Ok(rest) => {
                    if spec_line_kept(parsed@) {
                        assert(pre_out.push(parsed@) + rest =~= pre_out + (seq![parsed@] + rest));
                    }
                },
                Err(_) => {},
            }
        }
        i = i + 1;
    }
    proof {
        assert(spec_line_models(out@) + Seq::<LineModel>::empty() =~= out@.map_values(
            |p: ParsedLine| p@,
        ));
    }
    Ok(out)
}

} // verus!
