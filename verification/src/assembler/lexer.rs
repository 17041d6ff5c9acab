//! The lexer: turns assembly source text into a token stream.
//!
//! Tokens are identifiers, instruction mnemonics, pseudo-operation names,
//! numbers (decimal, hexadecimal behind `0x`, octal behind a leading
//! zero), the punctuation comma, slash and asterisk, line breaks and the
//! end of input. An asterisk in column one opens a comment that runs to
//! the end of the line.

use vstd::prelude::*;

verus! {

use crate::assembler::parser::{spec_is_instruction_name, spec_is_pseudo_name};
use crate::error::AssemblerError;
use crate::text::{
    chars_to_string, spec_radix_val, spec_upper, str_to_chars, upper_chars,
};

/// A token of the assembly language.
#[derive(Debug, Clone, PartialEq, Eq)]
pub enum Token {
    /// A label (kept for callers that classify identifiers themselves;
    /// the lexer itself yields identifiers).
    Label(String),
    /// An instruction mnemonic, upper-cased.
    Instruction(String),
    /// A pseudo-operation name, upper-cased.
    PseudoOp(String),
    /// A numeric literal.
    Number(u16),
    /// An identifier, as written.
    Identifier(String),
    /// A comma.
    Comma,
    /// A slash.
    Slash,
    /// An asterisk outside column one.
    Asterisk,
    /// A line break, or a whole comment line.
    Newline,
    /// The end of the input.
    Eof,
}

/// Abstract form of a token.
pub enum TokenModel {
    /// A label.
    Label(Seq<char>),
    /// An instruction mnemonic, upper-cased.
    Instruction(Seq<char>),
    /// A pseudo-operation name, upper-cased.
    PseudoOp(Seq<char>),
    /// A numeric literal.
    Number(u16),
    /// An identifier, as written.
    Identifier(Seq<char>),
    /// A comma.
    Comma,
    /// A slash.
    Slash,
    /// An asterisk outside column one.
    Asterisk,
    /// A line break, or a whole comment line.
    Newline,
    /// The end of the input.
    Eof,
}

impl View for Token {
    type V = TokenModel;

    open spec fn view(&self) -> TokenModel {
        match self {
            Token::Label(s) => TokenModel::Label(s@),
            Token::Instruction(s) => TokenModel::Instruction(s@),
            Token::PseudoOp(s) => TokenModel::PseudoOp(s@),
            Token::Number(v) => TokenModel::Number(*v),
            Token::Identifier(s) => TokenModel::Identifier(s@),
            Token::Comma => TokenModel::Comma,
            Token::Slash => TokenModel::Slash,
            Token::Asterisk => TokenModel::Asterisk,
            Token::Newline => TokenModel::Newline,
            Token::Eof => TokenModel::Eof,
        }
    }
}

/// Whether a character is blank space inside a line: space, tab or
/// carriage return, but not a line feed.
pub open spec fn spec_is_blank(c: char) -> bool {
    c == ' ' || c == '\t' || c == '\r'
}

/// Whether a character is an ASCII decimal digit.
pub open spec fn spec_is_digit(c: char) -> bool {
    48 <= c as u32 && c as u32 <= 57
}

/// Whether a character is an ASCII hexadecimal digit.
pub open spec fn spec_is_hex_digit(c: char) -> bool {
    spec_is_digit(c) || (97 <= c as u32 && c as u32 <= 102) || (65 <= c as u32 && c as u32 <= 70)
}

/// Whether a character is an ASCII letter.
pub open spec fn spec_is_alpha(c: char) -> bool {
    (65 <= c as u32 && c as u32 <= 90) || (97 <= c as u32 && c as u32 <= 122)
}

/// Whether a character can continue an identifier: a letter, a digit or
/// an underscore.
pub open spec fn spec_is_ident_char(c: char) -> bool {
    spec_is_alpha(c) || spec_is_digit(c) || c == '_'
}

/// The first position at or after `i` past the run of blank space, or the
/// length.
pub open spec fn spec_scan_blank(src: Seq<char>, i: int) -> int
    decreases src.len() - i,
{
    if i < 0 || i >= src.len() {
        src.len() as int
    } else if spec_is_blank(src[i]) {
        spec_scan_blank(src, i + 1)
    } else {
        i
    }
}

/// Bounds of the scan.
pub proof fn lemma_scan_blank_bounds(src: Seq<char>, i: int)
    requires
        0 <= i <= src.len(),
    ensures
        i <= spec_scan_blank(src, i) <= src.len(),
    decreases src.len() - i,
{
    if i < src.len() && spec_is_blank(src[i]) {
        lemma_scan_blank_bounds(src, i + 1);
    }
}

/// The first position at or after `i` past the run of characters other than a line feed, or the
/// length.
pub open spec fn spec_scan_line(src: Seq<char>, i: int) -> int
    decreases src.len() - i,
{
    if i < 0 || i >= src.len() {
        src.len() as int
    } else if src[i] != '\n' {
        spec_scan_line(src, i + 1)
    } else {
        i
    }
}

/// Bounds of the scan.
pub proof fn lemma_scan_line_bounds(src: Seq<char>, i: int)
    requires
        0 <= i <= src.len(),
    ensures
        i <= spec_scan_line(src, i) <= src.len(),
    decreases src.len() - i,
{
    if i < src.len() && src[i] != '\n' {
        lemma_scan_line_bounds(src, i + 1);
    }
}

/// The first position at or after `i` past the run of decimal digits, or the
/// length.
pub open spec fn spec_scan_digits(src: Seq<char>, i: int) -> int
    decreases src.len() - i,
{
    if i < 0 || i >= src.len() {
        src.len() as int
    } else if spec_is_digit(src[i]) {
        spec_scan_digits(src, i + 1)
    } else {
        i
    }
}

/// Bounds of the scan.
pub proof fn lemma_scan_digits_bounds(src: Seq<char>, i: int)
    requires
        0 <= i <= src.len(),
    ensures
        i <= spec_scan_digits(src, i) <= src.len(),
    decreases src.len() - i,
{
    if i < src.len() && spec_is_digit(src[i]) {
        lemma_scan_digits_bounds(src, i + 1);
    }
}

/// The first position at or after `i` past the run of hexadecimal digits, or the
/// length.
pub open spec fn spec_scan_hex(src: Seq<char>, i: int) -> int
    decreases src.len() - i,
{
    if i < 0 || i >= src.len() {
        src.len() as int
    } else if spec_is_hex_digit(src[i]) {
        spec_scan_hex(src, i + 1)
    } else {
        i
    }
}

/// Bounds of the scan.
pub proof fn lemma_scan_hex_bounds(src: Seq<char>, i: int)
    requires
        0 <= i <= src.len(),
    ensures
        i <= spec_scan_hex(src, i) <= src.len(),
    decreases src.len() - i,
{
    if i < src.len() && spec_is_hex_digit(src[i]) {
        lemma_scan_hex_bounds(src, i + 1);
    }
}

/// The first position at or after `i` past the run of identifier characters, or the
/// length.
pub open spec fn spec_scan_ident(src: Seq<char>, i: int) -> int
    decreases src.len() - i,
{
    if i < 0 || i >= src.len() {
        src.len() as int
    } else if spec_is_ident_char(src[i]) {
        spec_scan_ident(src, i + 1)
    } else {
        i
    }
}

/// Bounds of the scan.
pub proof fn lemma_scan_ident_bounds(src: Seq<char>, i: int)
    requires
        0 <= i <= src.len(),
    ensures
        i <= spec_scan_ident(src, i) <= src.len(),
    decreases src.len() - i,
{
    if i < src.len() && spec_is_ident_char(src[i]) {
        lemma_scan_ident_bounds(src, i + 1);
    }
}

/// The scan stops exactly where the run ends.
pub proof fn lemma_scan_blank_char(src: Seq<char>, i: int, k: int)
    requires
        0 <= i <= k <= src.len(),
        forall|j: int| i <= j < k ==> spec_is_blank(src[j]),
        k == src.len() || !spec_is_blank(src[k]),
    ensures
        spec_scan_blank(src, i) == k,
    decreases k - i,
{
    if i < k {
        lemma_scan_blank_char(src, i + 1, k);
    }
}

/// The scan stops exactly where the run ends.
pub proof fn lemma_scan_line_char(src: Seq<char>, i: int, k: int)
    requires
        0 <= i <= k <= src.len(),
        forall|j: int| i <= j < k ==> src[j] != '\n',
        k == src.len() || src[k] == '\n',
    ensures
        spec_scan_line(src, i) == k,
    decreases k - i,
{
    if i < k {
        lemma_scan_line_char(src, i + 1, k);
    }
}

/// The scan stops exactly where the run ends.
pub proof fn lemma_scan_digits_char(src: Seq<char>, i: int, k: int)
    requires
        0 <= i <= k <= src.len(),
        forall|j: int| i <= j < k ==> spec_is_digit(src[j]),
        k == src.len() || !spec_is_digit(src[k]),
    ensures
        spec_scan_digits(src, i) == k,
    decreases k - i,
{
    if i < k {
        lemma_scan_digits_char(src, i + 1, k);
    }
}

/// The scan stops exactly where the run ends.
pub proof fn lemma_scan_hex_char(src: Seq<char>, i: int, k: int)
    requires
        0 <= i <= k <= src.len(),
        forall|j: int| i <= j < k ==> spec_is_hex_digit(src[j]),
        k == src.len() || !spec_is_hex_digit(src[k]),
    ensures
        spec_scan_hex(src, i) == k,
    decreases k - i,
{
    if i < k {
        lemma_scan_hex_char(src, i + 1, k);
    }
}

/// The scan stops exactly where the run ends.
pub proof fn lemma_scan_ident_char(src: Seq<char>, i: int, k: int)
    requires
        0 <= i <= k <= src.len(),
        forall|j: int| i <= j < k ==> spec_is_ident_char(src[j]),
        k == src.len() || !spec_is_ident_char(src[k]),
    ensures
        spec_scan_ident(src, i) == k,
    decreases k - i,
{
    if i < k {
        lemma_scan_ident_char(src, i + 1, k);
    }
}

/// One lexing step: the token or error, and the scanner state after it.
pub struct LexStep {
    /// The token, or the error's 1-indexed line and message.
    pub token: Result<TokenModel, (int, Seq<char>)>,
    /// Position after the step.
    pub pos: int,
    /// Line after the step.
    pub line: int,
    /// Column after the step.
    pub col: int,
}

/// A line count raised by one, saturating at the machine limit.
pub open spec fn spec_line_up(line: int) -> int {
    if line < usize::MAX {
        line + 1
    } else {
        line
    }
}

/// What scanning a number yields: hexadecimal digits behind `0x`/`0X`,
/// octal digits behind a leading zero, else decimal digits; a value past
/// 16 bits or a malformed digit run is an error on the number's line.
pub open spec fn spec_lex_number(src: Seq<char>, p: int, line: int, col: int) -> LexStep {
    if src[p] == '0' && p + 1 < src.len() && (src[p + 1] == 'x' || src[p + 1] == 'X') {
        let e = spec_scan_hex(src, p + 2);
        let digits = src.subrange(p + 2, e);
        let v = spec_radix_val(digits, 16);
        let step_col = col + (e - p);
        if 0 <= v <= 0xFFFF {
            LexStep { token: Ok(TokenModel::Number(v as u16)), pos: e, line, col: step_col }
        } else {
            LexStep {
                token: Err((line, "Invalid hexadecimal number: 0x"@ + digits)),
                pos: e,
                line,
                col: step_col,
            }
        }
    } else {
        let e = spec_scan_digits(src, p);
        let numstr = src.subrange(p, e);
        let step_col = col + (e - p);
        if src[p] == '0' && e - p > 1 {
            let v = spec_radix_val(src.subrange(p + 1, e), 8);
            if 0 <= v <= 0xFFFF {
                LexStep { token: Ok(TokenModel::Number(v as u16)), pos: e, line, col: step_col }
            } else {
                LexStep {
                    token: Err((line, "Invalid octal number: "@ + numstr)),
                    pos: e,
                    line,
                    col: step_col,
                }
            }
        } else {
            let v = spec_radix_val(numstr, 10);
            if 0 <= v <= 0xFFFF {
                LexStep { token: Ok(TokenModel::Number(v as u16)), pos: e, line, col: step_col }
            } else {
                LexStep {
                    token: Err((line, "Invalid decimal number: "@ + numstr)),
                    pos: e,
                    line,
                    col: step_col,
                }
            }
        }
    }
}

/// What one lexing step yields from the given scanner state: blanks are
/// skipped, then the character at hand decides the token. An asterisk in
/// column one swallows the whole line as a comment and yields its line
/// break.
pub open spec fn spec_next_token(src: Seq<char>, pos: int, line: int, col: int) -> LexStep {
    let p = spec_scan_blank(src, pos);
    let c2 = col + (p - pos);
    if p >= src.len() {
        LexStep { token: Ok(TokenModel::Eof), pos: p, line, col: c2 }
    } else {
        let c = src[p];
        if c == '\n' {
            LexStep { token: Ok(TokenModel::Newline), pos: p + 1, line: spec_line_up(line), col: 0 }
        } else if c == '*' && c2 == 0 {
            let e = spec_scan_line(src, p);
            if e < src.len() {
                LexStep {
                    token: Ok(TokenModel::Newline),
                    pos: e + 1,
                    line: spec_line_up(line),
                    col: 0,
                }
            } else {
                LexStep { token: Ok(TokenModel::Newline), pos: e, line, col: c2 + (e - p) }
            }
        } else if c == '*' {
            LexStep { token: Ok(TokenModel::Asterisk), pos: p + 1, line, col: c2 + 1 }
        } else if c == '/' {
            LexStep { token: Ok(TokenModel::Slash), pos: p + 1, line, col: c2 + 1 }
        } else if c == ',' {
            LexStep { token: Ok(TokenModel::Comma), pos: p + 1, line, col: c2 + 1 }
        } else if spec_is_digit(c) {
            spec_lex_number(src, p, line, c2)
        } else if spec_is_alpha(c) {
            let e = spec_scan_ident(src, p);
            let word = src.subrange(p, e);
            let u = spec_upper(word);
            let token = if spec_is_pseudo_name(u) {
                TokenModel::PseudoOp(u)
            } else if spec_is_instruction_name(u) {
                TokenModel::Instruction(u)
            } else {
                TokenModel::Identifier(word)
            };
            LexStep { token: Ok(token), pos: e, line, col: c2 + (e - p) }
        } else {
            LexStep {
                token: Err((line, "Unexpected character: '"@ + seq![c] + "'"@)),
                pos: p,
                line,
                col: c2,
            }
        }
    }
}

/// A lexing step stays within the input, and every token but the end of
/// input consumes at least one character.
pub proof fn lemma_next_token_advances(src: Seq<char>, pos: int, line: int, col: int)
    requires
        0 <= pos <= src.len(),
    ensures
        pos <= spec_next_token(src, pos, line, col).pos <= src.len(),
        (spec_next_token(src, pos, line, col).token matches Ok(t) && !(t is Eof))
            ==> spec_next_token(src, pos, line, col).pos > pos,
{
    lemma_scan_blank_bounds(src, pos);
    let p = spec_scan_blank(src, pos);
    if p < src.len() {
        let c = src[p];
        if c == '*' && col + (p - pos) == 0 {
            lemma_scan_line_bounds(src, p + 1);
            assert(spec_scan_line(src, p) == spec_scan_line(src, p + 1));
        } else if spec_is_digit(c) {
            if src[p] == '0' && p + 1 < src.len() && (src[p + 1] == 'x' || src[p + 1] == 'X') {
                lemma_scan_hex_bounds(src, p + 2);
            } else {
                lemma_scan_digits_bounds(src, p + 1);
                assert(spec_scan_digits(src, p) == spec_scan_digits(src, p + 1));
            }
        } else if spec_is_alpha(c) {
            lemma_scan_ident_bounds(src, p + 1);
            assert(spec_scan_ident(src, p) == spec_scan_ident(src, p + 1));
        }
    }
}

/// What tokenizing from a scanner state yields: the tokens up to and
/// including the end of input, or the first error.
pub open spec fn spec_tokenize(src: Seq<char>, pos: int, line: int, col: int) -> Result<
    Seq<TokenModel>,
    (int, Seq<char>),
>
    decreases src.len() - pos + 1,
    via spec_tokenize_dec
{
    if pos < 0 || pos > src.len() {
        Ok(Seq::empty())
    } else {
        let step = spec_next_token(src, pos, line, col);
        match step.token {
            Err(e) => Err(e),
            Ok(t) => {
                if t is Eof {
                    Ok(seq![TokenModel::Eof])
                } else {
                    match spec_tokenize(src, step.pos, step.line, step.col) {
                        Err(e) => Err(e),
                        Ok(rest) => Ok(seq![t] + rest),
                    }
                }
            },
        }
    }
}

#[via_fn]
proof fn spec_tokenize_dec(src: Seq<char>, pos: int, line: int, col: int) {
    if 0 <= pos <= src.len() {
        lemma_next_token_advances(src, pos, line, col);
    }
}

/// The lexer: the source characters and the scanning position.
pub struct Lexer {
    /// The source text as characters.
    pub source: Vec<char>,
    /// Position of the next character.
    pub position: usize,
    /// Current 1-indexed line.
    pub line: usize,
    /// Position within the current line.
    pub column: usize,
}

impl Lexer {
    /// The scanner state stays within the source, and the column never
    /// runs ahead of the position.
    pub open spec fn wf(&self) -> bool {
        &&& self.position <= self.source@.len()
        &&& self.column <= self.position
    }

    /// Creates a lexer at the start of the given source.
    pub fn new(source: &str) -> (r: Lexer)
        ensures
            r.source@ == source@,
            r.position == 0,
            r.line == 1,
            r.column == 0,
            r.wf(),
    {
        Lexer { source: str_to_chars(source), position: 0, line: 1, column: 0 }
    }

    /// Yields the next token, advancing the scanner past it.
    pub fn next_token(&mut self) -> (r: Result<Token, AssemblerError>)
        requires
            old(self).wf(),
        ensures
            final(self).wf(),
            final(self).source@ == old(self).source@,
            ({
                let step = spec_next_token(
                    old(self).source@,
                    old(self).position as int,
                    old(self).line as int,
                    old(self).column as int,
                );
                &&& final(self).position == step.pos
                &&& final(self).line == step.line
                &&& final(self).column == step.col
                &&& (match step.token {
                    Ok(t) => r matches Ok(tok) && tok@ == t,
                    Err((ln, msg)) => r matches Err(
                        AssemblerError::SyntaxError { line, message },
                    ) && line == ln && message@ == msg,
                })
            }),
    {
        let n = self.source.len();
        let start = self.position;
        while self.position < n && is_blank(self.source[self.position])
            invariant
                start <= self.position <= n,
                n == self.source@.len(),
                self.column - self.position == old(self).column - start,
                self.column <= self.position,
                self.line == old(self).line,
                self.source@ == old(self).source@,
                start == old(self).position,
                forall|j: int| start <= j < self.position ==> spec_is_blank(self.source@[j]),
            decreases n - self.position,
        {
            self.position = self.position + 1;
            self.column = self.column + 1;
        }
        proof {
            lemma_scan_blank_char(self.source@, start as int, self.position as int);
        }
        if self.position >= n {
            return Ok(Token::Eof);
        }
        let c = self.source[self.position];
        if c == '\n' {
            self.position = self.position + 1;
            if self.line < usize::MAX {
                self.line = self.line + 1;
            }
            self.column = 0;
            Ok(Token::Newline)
        } else if c == '*' && self.column == 0 {
            let comment_start = self.position;
            let ghost line0 = self.line;
            let ghost col0 = self.column;
            while self.position < n && self.source[self.position] != '\n'
                invariant
                    comment_start <= self.position <= n,
                    n == self.source@.len(),
                    self.source@ == old(self).source@,
                    self.line == line0,
                    self.column == col0,
                    self.column <= comment_start,
                    forall|j: int|
                        comment_start <= j < self.position ==> self.source@[j] != '\n',
                decreases n - self.position,
            {
                self.position = self.position + 1;
            }
            proof {
                lemma_scan_line_char(self.source@, comment_start as int, self.position as int);
            }
            if self.position < n {
                self.position = self.position + 1;
                if self.line < usize::MAX {
                    self.line = self.line + 1;
                }
                self.column = 0;
            } else {
                self.column = self.column + (self.position - comment_start);
            }
            Ok(Token::Newline)
        } else if c == '*' {
            self.position = self.position + 1;
            self.column = self.column + 1;
            Ok(Token::Asterisk)
        } else if c == '/' {
            self.position = self.position + 1;
            self.column = self.column + 1;
            Ok(Token::Slash)
        } else if c == ',' {
            self.position = self.position + 1;
            self.column = self.column + 1;
            Ok(Token::Comma)
        } else if is_digit(c) {
            self.read_number()
        } else if is_alpha(c) {
            let ghost p = self.position as int;
            let ghost line0 = self.line;
            let ghost col0 = self.column as int;
            let mut word: Vec<char> = Vec::new();
            while self.position < n && is_ident_char(self.source[self.position])
                invariant
                    0 <= p <= self.position <= n,
                    n == self.source@.len(),
                    self.source@ == old(self).source@,
                    self.line == line0,
                    self.column == col0 + (self.position - p),
                    self.column <= self.position,
                    word@ == self.source@.subrange(p, self.position as int),
                    forall|j: int|
                        p <= j < self.position ==> spec_is_ident_char(self.source@[j]),
                decreases n - self.position,
            {
                word.push(self.source[self.position]);
                proof {
                    assert(self.source@.subrange(p, self.position + 1) =~= self.source@.subrange(
                        p,
                        self.position as int,
                    ).push(self.source@[self.position as int]));
                }
                self.position = self.position + 1;
                self.column = self.column + 1;
            }
            proof {
                lemma_scan_ident_char(self.source@, p, self.position as int);
            }
            let upper = upper_chars(&word);
            if crate::assembler::parser::is_pseudo_chars(&upper) {
                Ok(Token::PseudoOp(chars_to_string(&upper)))
            } else if crate::assembler::parser::is_instruction_chars(&upper) {
                Ok(Token::Instruction(chars_to_string(&upper)))
            } else {
                Ok(Token::Identifier(chars_to_string(&word)))
            }
        } else {
            let mut msg_chars = str_to_chars("Unexpected character: '");
            msg_chars.push(c);
            msg_chars.push('\'');
            proof {
                reveal_strlit("'");
                assert("'"@ =~= seq!['\'']);
                assert(msg_chars@ =~= "Unexpected character: '"@ + seq![c] + "'"@);
            }
            Err(
                AssemblerError::SyntaxError {
                    line: self.line,
                    message: chars_to_string(&msg_chars),
                },
            )
        }
    }

    /// Reads a numeric literal at the current position.
    fn read_number(&mut self) -> (r: Result<Token, AssemblerError>)
        requires
            old(self).wf(),
            old(self).position < old(self).source@.len(),
            spec_is_digit(old(self).source@[old(self).position as int]),
        ensures
            final(self).wf(),
            final(self).source@ == old(self).source@,
            ({
                let step = spec_lex_number(
                    old(self).source@,
                    old(self).position as int,
                    old(self).line as int,
                    old(self).column as int,
                );
                &&& final(self).position == step.pos
                &&& final(self).line == step.line
                &&& final(self).column == step.col
                &&& (match step.token {
                    Ok(t) => r matches Ok(tok) && tok@ == t,
                    Err((ln, msg)) => r matches Err(
                        AssemblerError::SyntaxError { line, message },
                    ) && line == ln && message@ == msg,
                })
            }),
    {
        let n = self.source.len();
        let ghost p = self.position as int;
        if self.source[self.position] == '0' && self.position + 1 < n && (self.source[self.position
            + 1] == 'x' || self.source[self.position + 1] == 'X') {
            let digit_start = self.position + 2;
            let mut digits: Vec<char> = Vec::new();
            let mut i = digit_start;
            while i < n && is_hex_digit(self.source[i])
                invariant
                    digit_start <= i <= n,
                    n == self.source@.len(),
                    digits@ == self.source@.subrange(digit_start as int, i as int),
                    forall|j: int|
                        digit_start <= j < i ==> spec_is_hex_digit(self.source@[j]),
                decreases n - i,
            {
                digits.push(self.source[i]);
                proof {
                    assert(self.source@.subrange(digit_start as int, i + 1)
                        =~= self.source@.subrange(digit_start as int, i as int).push(
                        self.source@[i as int],
                    ));
                }
                i = i + 1;
            }
            proof {
                lemma_scan_hex_char(self.source@, digit_start as int, i as int);
            }
            self.column = self.column + (i - self.position);
            self.position = i;
            proof {
                assert(digits@.subrange(0, digits@.len() as int) =~= digits@);
            }
            match crate::text::parse_radix_u16(&digits, 0, 16) {
                Some(v) => Ok(Token::Number(v)),
                None => {
                    let msg = String::from_str("Invalid hexadecimal number: 0x");
                    Err(
                        AssemblerError::SyntaxError {
                            line: self.line,
                            message: msg.concat(chars_to_string(&digits).as_str()),
                        },
                    )
                },
            }
        } else {
            let mut numstr: Vec<char> = Vec::new();
            let mut i = self.position;
            while i < n && is_digit(self.source[i])
                invariant
                    0 <= p <= i <= n,
                    n == self.source@.len(),
                    numstr@ == self.source@.subrange(p, i as int),
                    forall|j: int| p <= j < i ==> spec_is_digit(self.source@[j]),
                decreases n - i,
            {
                numstr.push(self.source[i]);
                proof {
                    assert(self.source@.subrange(p, i + 1) =~= self.source@.subrange(
                        p,
                        i as int,
                    ).push(self.source@[i as int]));
                }
                i = i + 1;
            }
            proof {
                lemma_scan_digits_char(self.source@, p, i as int);
            }
            self.column = self.column + (i - self.position);
            self.position = i;
            if numstr.len() > 1 && numstr[0] == '0' {
                proof {
                    assert(numstr@.subrange(1, numstr@.len() as int) =~= self.source@.subrange(
                        p + 1,
                        i as int,
                    ));
                }
                match crate::text::parse_radix_u16(&numstr, 1, 8) {
                    Some(v) => Ok(Token::Number(v)),
                    None => {
                        let msg = String::from_str("Invalid octal number: ");
                        Err(
                            AssemblerError::SyntaxError {
                                line: self.line,
                                message: msg.concat(chars_to_string(&numstr).as_str()),
                            },
                        )
                    },
                }
            } else {
                proof {
                    assert(numstr@.subrange(0, numstr@.len() as int) =~= numstr@);
                }
                match crate::text::parse_radix_u16(&numstr, 0, 10) {
                    Some(v) => Ok(Token::Number(v)),
                    None => {
                        let msg = String::from_str("Invalid decimal number: ");
                        Err(
                            AssemblerError::SyntaxError {
                                line: self.line,
                                message: msg.concat(chars_to_string(&numstr).as_str()),
                            },
                        )
                    },
                }
            }
        }
    }

    /// Tokenizes the whole remaining input, ending with the end-of-input
    /// token; the first error aborts.
    pub fn tokenize(&mut self) -> (r: Result<Vec<Token>, AssemblerError>)
        requires
            old(self).wf(),
        ensures
            final(self).wf(),
            ({
                match spec_tokenize(
                    old(self).source@,
                    old(self).position as int,
                    old(self).line as int,
                    old(self).column as int,
                ) {
                    Ok(toks) => r matches Ok(v) && v@.map_values(|t: Token| t@) == toks,
                    Err((ln, msg)) => r matches Err(
                        AssemblerError::SyntaxError { line, message },
                    ) && line == ln && message@ == msg,
                }
            }),
    {
        let ghost src = self.source@;
        let mut tokens: Vec<Token> = Vec::new();
        loop
            invariant
                self.wf(),
                self.source@ == src,
                ({
                    let total = spec_tokenize(
                        old(self).source@,
                        old(self).position as int,
                        old(self).line as int,
                        old(self).column as int,
                    );
                    let rem = spec_tokenize(
                        src,
                        self.position as int,
                        self.line as int,
                        self.column as int,
                    );
                    match rem {
                        Ok(rest) => total == Ok::<Seq<TokenModel>, (int, Seq<char>)>(
                            tokens@.map_values(|t: Token| t@) + rest,
                        ),
                        Err(e) => total == Err::<Seq<TokenModel>, (int, Seq<char>)>(e),
                    }
                }),
            decreases src.len() - self.position + 1,
        {
            let ghost pre_pos = self.position as int;
            let ghost pre_line = self.line as int;
            let ghost pre_col = self.column as int;
            let token = match self.next_token() {
                Ok(t) => t,
                Err(e) => {
                    return Err(e);
                },
            };
            let is_eof = match &token {
                Token::Eof => true,
                _ => false,
            };
            let ghost pre_tokens = tokens@.map_values(|t: Token| t@);
            tokens.push(token);
            proof {
                assert(tokens@.map_values(|t: Token| t@) =~= pre_tokens.push(tokens@.last()@));
                lemma_next_token_advances(src, pre_pos, pre_line, pre_col);
                if !is_eof {
                    match spec_tokenize(
                        src,
                        self.position as int,
                        self.line as int,
                        self.column as int,
                    ) {
                        Ok(rest) => {
                            assert(pre_tokens.push(tokens@.last()@) + rest =~= pre_tokens + (seq![
                                tokens@.last()@,
                            ] + rest));
                        },
                        Err(_) => {},
                    }
                } else {
                    assert(pre_tokens.push(tokens@.last()@) =~= pre_tokens + seq![
                        TokenModel::Eof,
                    ]);
                }
            }
            if is_eof {
                return Ok(tokens);
            }
        }
    }
}

/// Whether a character is blank space inside a line, executably.
fn is_blank(c: char) -> (r: bool)
    ensures
        r == spec_is_blank(c),
{
    c == ' ' || c == '\t' || c == '\r'
}

/// Whether a character is an ASCII decimal digit, executably.
fn is_digit(c: char) -> (r: bool)
    ensures
        r == spec_is_digit(c),
{
    let u = c as u32;
    48 <= u && u <= 57
}

/// Whether a character is an ASCII hexadecimal digit, executably.
fn is_hex_digit(c: char) -> (r: bool)
    ensures
        r == spec_is_hex_digit(c),
{
    let u = c as u32;
    (48 <= u && u <= 57) || (97 <= u && u <= 102) || (65 <= u && u <= 70)
}

/// Whether a character is an ASCII letter, executably.
fn is_alpha(c: char) -> (r: bool)
    ensures
        r == spec_is_alpha(c),
{
    let u = c as u32;
    (65 <= u && u <= 90) || (97 <= u && u <= 122)
}

/// Whether a character can continue an identifier, executably.
fn is_ident_char(c: char) -> (r: bool)
    ensures
        r == spec_is_ident_char(c),
{
    is_alpha(c) || is_digit(c) || c == '_'
}

} // verus!
