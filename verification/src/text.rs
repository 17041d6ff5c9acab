//! Character and string helpers shared by the error messages, the lexer and
//! the parser: sequence/string conversion, case folding, and rendering of
//! numbers as decimal or hexadecimal text.

use vstd::prelude::*;

verus! {

/// Relies on std's `FromIterator` impl for `String`: collecting an iterator
/// of `char`s yields a string holding exactly those characters in order.
#[verifier::external_body]
pub fn chars_to_string(chars: &Vec<char>) -> (s: String)
    ensures
        s@ == chars@,
{
    chars.iter().collect()
}

/// Turns a string slice into the vector of its characters.
pub fn str_to_chars(s: &str) -> (r: Vec<char>)
    ensures
        r@ == s@,
{
    let n = s.unicode_len();
    let mut r: Vec<char> = Vec::new();
    let mut i: usize = 0;
    while i < n
        invariant
            i <= n,
            n == s@.len(),
            r@ == s@.subrange(0, i as int),
        decreases n - i,
    {
        r.push(s.get_char(i));
        proof {
            assert(s@.subrange(0, i + 1) =~= s@.subrange(0, i as int).push(s@[i as int]));
        }
        i = i + 1;
    }
    proof {
        assert(r@ =~= s@);
    }
    r
}

/// The decimal digit character for a value below ten.
pub open spec fn dec_digit_char(d: nat) -> char {
    if d == 0 {
        '0'
    } else if d == 1 {
        '1'
    } else if d == 2 {
        '2'
    } else if d == 3 {
        '3'
    } else if d == 4 {
        '4'
    } else if d == 5 {
        '5'
    } else if d == 6 {
        '6'
    } else if d == 7 {
        '7'
    } else if d == 8 {
        '8'
    } else {
        '9'
    }
}

/// The lower-case hexadecimal digit character for a value below sixteen.
pub open spec fn hex_digit_char(d: nat) -> char {
    if d < 10 {
        dec_digit_char(d)
    } else if d == 10 {
        'a'
    } else if d == 11 {
        'b'
    } else if d == 12 {
        'c'
    } else if d == 13 {
        'd'
    } else if d == 14 {
        'e'
    } else {
        'f'
    }
}

/// Decimal digit characters of `n`, most significant first, no leading zeros
/// (a single `'0'` for zero).
pub open spec fn spec_dec_digits(n: nat) -> Seq<char>
    decreases n,
{
    if n < 10 {
        seq![dec_digit_char(n)]
    } else {
        spec_dec_digits(n / 10).push(dec_digit_char(n % 10))
    }
}

/// The four hexadecimal digit characters of a 16-bit value, most significant
/// first, zero padded.
pub open spec fn spec_hex4(x: u16) -> Seq<char> {
    seq![
        hex_digit_char(((x / 4096) % 16) as nat),
        hex_digit_char(((x / 256) % 16) as nat),
        hex_digit_char(((x / 16) % 16) as nat),
        hex_digit_char((x % 16) as nat),
    ]
}

/// The two hexadecimal digit characters of a byte, most significant first,
/// zero padded.
pub open spec fn spec_hex2(x: u8) -> Seq<char> {
    seq![hex_digit_char(((x / 16) % 16) as nat), hex_digit_char((x % 16) as nat)]
}

fn dec_digit(d: u8) -> (c: char)
    requires
        d < 10,
    ensures
        c == dec_digit_char(d as nat),
{
    if d == 0 {
        '0'
    } else if d == 1 {
        '1'
    } else if d == 2 {
        '2'
    } else if d == 3 {
        '3'
    } else if d == 4 {
        '4'
    } else if d == 5 {
        '5'
    } else if d == 6 {
        '6'
    } else if d == 7 {
        '7'
    } else if d == 8 {
        '8'
    } else {
        '9'
    }
}

fn hex_digit(d: u8) -> (c: char)
    requires
        d < 16,
    ensures
        c == hex_digit_char(d as nat),
{
    if d < 10 {
        dec_digit(d)
    } else if d == 10 {
        'a'
    } else if d == 11 {
        'b'
    } else if d == 12 {
        'c'
    } else if d == 13 {
        'd'
    } else if d == 14 {
        'e'
    } else {
        'f'
    }
}

fn push_dec_digits(n: u64, out: &mut Vec<char>)
    ensures
        final(out)@ == old(out)@ + spec_dec_digits(n as nat),
    decreases n,
{
    if n < 10 {
        out.push(dec_digit(n as u8));
        proof {
            assert(out@ =~= old(out)@ + spec_dec_digits(n as nat));
        }
    } else {
        push_dec_digits(n / 10, out);
        out.push(dec_digit((n % 10) as u8));
        proof {
            assert(out@ =~= old(out)@ + spec_dec_digits(n as nat));
        }
    }
}

/// The decimal rendering of an unsigned number.
pub fn dec_string_u64(n: u64) -> (s: String)
    ensures
        s@ == spec_dec_digits(n as nat),
{
    let mut chars: Vec<char> = Vec::new();
    push_dec_digits(n, &mut chars);
    proof {
        assert(chars@ =~= spec_dec_digits(n as nat));
    }
    chars_to_string(&chars)
}

/// The decimal rendering of a signed number: a minus sign, then the digits
/// of its magnitude.
pub open spec fn spec_dec_i64(n: int) -> Seq<char> {
    if n < 0 {
        seq!['-'] + spec_dec_digits((-n) as nat)
    } else {
        spec_dec_digits(n as nat)
    }
}

/// The decimal rendering of a signed 32-bit number.
pub fn dec_string_i32(n: i32) -> (s: String)
    ensures
        s@ == spec_dec_i64(n as int),
{
    if n < 0 {
        let mag: u64 = (-(n as i64)) as u64;
        let mut chars: Vec<char> = Vec::new();
        chars.push('-');
        push_dec_digits(mag, &mut chars);
        proof {
            assert(chars@ =~= spec_dec_i64(n as int));
        }
        chars_to_string(&chars)
    } else {
        dec_string_u64(n as u64)
    }
}

/// The `0x`-free four-digit hexadecimal rendering of a 16-bit value.
pub fn hex4_string(x: u16) -> (s: String)
    ensures
        s@ == spec_hex4(x),
{
    let mut chars: Vec<char> = Vec::new();
    chars.push(hex_digit(((x / 4096) % 16) as u8));
    chars.push(hex_digit(((x / 256) % 16) as u8));
    chars.push(hex_digit(((x / 16) % 16) as u8));
    chars.push(hex_digit((x % 16) as u8));
    proof {
        assert(chars@ =~= spec_hex4(x));
    }
    chars_to_string(&chars)
}

/// The two-digit hexadecimal rendering of a byte.
pub fn hex2_string(x: u8) -> (s: String)
    ensures
        s@ == spec_hex2(x),
{
    let mut chars: Vec<char> = Vec::new();
    chars.push(hex_digit((x / 16) % 16));
    chars.push(hex_digit(x % 16));
    proof {
        assert(chars@ =~= spec_hex2(x));
    }
    chars_to_string(&chars)
}

/// ASCII upper-case folding of one character; other characters are kept.
pub open spec fn spec_upper_char(c: char) -> char {
    if 97 <= c as u32 && c as u32 <= 122 {
        (((c as u32) - 32) as u8) as char
    } else {
        c
    }
}

/// ASCII upper-case folding of a character sequence.
pub open spec fn spec_upper(s: Seq<char>) -> Seq<char> {
    s.map_values(|c: char| spec_upper_char(c))
}

/// Upper-cases one ASCII letter; leaves every other character unchanged.
pub fn upper_char(c: char) -> (r: char)
    ensures
        r == spec_upper_char(c),
{
    let u = c as u32;
    if 97 <= u && u <= 122 {
        ((u - 32) as u8) as char
    } else {
        c
    }
}

/// Upper-cases the ASCII letters of a character vector.
pub fn upper_chars(s: &Vec<char>) -> (r: Vec<char>)
    ensures
        r@ == spec_upper(s@),
{
    let mut r: Vec<char> = Vec::new();
    let mut i: usize = 0;
    while i < s.len()
        invariant
            i <= s@.len(),
            r@ == spec_upper(s@.subrange(0, i as int)),
        decreases s@.len() - i,
    {
        r.push(upper_char(s[i]));
        proof {
            assert(spec_upper(s@.subrange(0, i + 1)) =~= spec_upper(
                s@.subrange(0, i as int),
            ).push(spec_upper_char(s@[i as int])));
        }
        i = i + 1;
    }
    proof {
        assert(s@.subrange(0, s@.len() as int) =~= s@);
    }
    r
}

/// Whether a character counts as blank space for line splitting and
/// trimming: the ASCII blanks.
pub open spec fn spec_is_space(c: char) -> bool {
    c == ' ' || c == '\t' || c == '\r' || c == '\n'
}

/// Whether a character counts as blank space, executably.
pub fn is_space(c: char) -> (r: bool)
    ensures
        r == spec_is_space(c),
{
    c == ' ' || c == '\t' || c == '\r' || c == '\n'
}

/// The first position at or after `i` holding a non-space character, or
/// the length when only spaces remain.
pub open spec fn spec_skip_spaces_idx(s: Seq<char>, i: int) -> int
    decreases s.len() - i,
{
    if i < 0 || i >= s.len() {
        s.len() as int
    } else if spec_is_space(s[i]) {
        spec_skip_spaces_idx(s, i + 1)
    } else {
        i
    }
}

/// `spec_skip_spaces_idx` lands exactly past the run of spaces.
pub proof fn lemma_skip_spaces_char(s: Seq<char>, i: int, k: int)
    requires
        0 <= i <= k <= s.len(),
        forall|j: int| i <= j < k ==> spec_is_space(s[j]),
        k == s.len() || !spec_is_space(s[k]),
    ensures
        spec_skip_spaces_idx(s, i) == k,
    decreases k - i,
{
    if i < k {
        lemma_skip_spaces_char(s, i + 1, k);
    }
}

/// The first position at or after `i` holding a space, or the length when
/// none follows.
pub open spec fn spec_tok_end(s: Seq<char>, i: int) -> int
    decreases s.len() - i,
{
    if i < 0 || i >= s.len() {
        s.len() as int
    } else if spec_is_space(s[i]) {
        i
    } else {
        spec_tok_end(s, i + 1)
    }
}

/// Bounds of `spec_tok_end`.
pub proof fn lemma_tok_end_bounds(s: Seq<char>, i: int)
    requires
        0 <= i <= s.len(),
    ensures
        i <= spec_tok_end(s, i) <= s.len(),
    decreases s.len() - i,
{
    if i < s.len() && !spec_is_space(s[i]) {
        lemma_tok_end_bounds(s, i + 1);
    }
}

/// `spec_tok_end` lands exactly at the end of the run of non-spaces.
pub proof fn lemma_tok_end_char(s: Seq<char>, i: int, k: int)
    requires
        0 <= i <= k <= s.len(),
        forall|j: int| i <= j < k ==> !spec_is_space(s[j]),
        k == s.len() || spec_is_space(s[k]),
    ensures
        spec_tok_end(s, i) == k,
    decreases k - i,
{
    if i < k {
        lemma_tok_end_char(s, i + 1, k);
    }
}

/// The blank-separated tokens of `s` from position `i` on, in order; each
/// token is a maximal run of non-space characters.
pub open spec fn spec_tokens_from(s: Seq<char>, i: int) -> Seq<Seq<char>>
    decreases s.len() - i,
    via spec_tokens_from_dec
{
    if i < 0 || i >= s.len() {
        Seq::empty()
    } else if spec_is_space(s[i]) {
        spec_tokens_from(s, i + 1)
    } else {
        seq![s.subrange(i, spec_tok_end(s, i))] + spec_tokens_from(s, spec_tok_end(s, i))
    }
}

#[via_fn]
proof fn spec_tokens_from_dec(s: Seq<char>, i: int) {
    if 0 <= i && i < s.len() && !spec_is_space(s[i]) {
        lemma_tok_end_bounds(s, i + 1);
    }
}

/// The blank-separated tokens of a whole character sequence.
pub open spec fn spec_tokens(s: Seq<char>) -> Seq<Seq<char>> {
    spec_tokens_from(s, 0)
}

/// Splits a character vector into its blank-separated tokens.
pub fn split_tokens(s: &Vec<char>) -> (r: Vec<Vec<char>>)
    ensures
        r@.map_values(|t: Vec<char>| t@) == spec_tokens(s@),
{
    let n = s.len();
    let mut r: Vec<Vec<char>> = Vec::new();
    let mut i: usize = 0;
    while i < n
        invariant
            i <= n,
            n == s@.len(),
            r@.map_values(|t: Vec<char>| t@) + spec_tokens_from(s@, i as int) == spec_tokens(s@),
        decreases n - i,
    {
        if is_space(s[i]) {
            i = i + 1;
        } else {
            let start = i;
            let mut tok: Vec<char> = Vec::new();
            while i < n && !is_space(s[i])
                invariant
                    start <= i <= n,
                    n == s@.len(),
                    tok@ == s@.subrange(start as int, i as int),
                    forall|j: int| start <= j < i ==> !spec_is_space(s@[j]),
                decreases n - i,
            {
                tok.push(s[i]);
                proof {
                    assert(s@.subrange(start as int, i + 1) =~= s@.subrange(
                        start as int,
                        i as int,
                    ).push(s@[i as int]));
                }
                i = i + 1;
            }
            proof {
                lemma_tok_end_char(s@, start as int, i as int);
                assert((r@.map_values(|t: Vec<char>| t@)).push(tok@) =~= r@.map_values(
                    |t: Vec<char>| t@,
                ) + seq![tok@]);
            }
            let ghost pre_toks = r@.map_values(|t: Vec<char>| t@);
            r.push(tok);
            proof {
                assert(r@.map_values(|t: Vec<char>| t@) =~= pre_toks.push(
                    r@.last()@,
                ));
                assert(pre_toks + seq![s@.subrange(start as int, spec_tok_end(s@, start as int))]
                    + spec_tokens_from(s@, i as int) =~= pre_toks + (seq![s@.subrange(
                    start as int,
                    spec_tok_end(s@, start as int),
                )] + spec_tokens_from(s@, i as int)));
                assert(r@.map_values(|t: Vec<char>| t@) + spec_tokens_from(s@, i as int)
                    =~= spec_tokens(s@));
            }
        }
    }
    proof {
        assert(r@.map_values(|t: Vec<char>| t@) =~= spec_tokens(s@));
    }
    r
}

/// The position just before the trailing run of spaces that ends at `j`.
pub open spec fn spec_trim_end_idx(s: Seq<char>, j: int) -> int
    decreases j,
{
    if j <= 0 || j > s.len() {
        0int
    } else if spec_is_space(s[j - 1]) {
        spec_trim_end_idx(s, j - 1)
    } else {
        j
    }
}

/// `spec_trim_end_idx` lands exactly before the trailing spaces.
pub proof fn lemma_trim_end_char(s: Seq<char>, k: int, j: int)
    requires
        0 <= k <= j <= s.len(),
        forall|x: int| k <= x < j ==> spec_is_space(s[x]),
        k == 0 || !spec_is_space(s[k - 1]),
    ensures
        spec_trim_end_idx(s, j) == k,
    decreases j - k,
{
    if k < j {
        lemma_trim_end_char(s, k, j - 1);
    }
}

/// `s` without its leading and trailing blank space.
pub open spec fn spec_trim(s: Seq<char>) -> Seq<char> {
    let a = spec_skip_spaces_idx(s, 0);
    let b = spec_trim_end_idx(s, s.len() as int);
    if a <= b {
        s.subrange(a, b)
    } else {
        Seq::empty()
    }
}

/// Copies `s` without its leading and trailing blank space.
pub fn trim_chars(s: &Vec<char>) -> (r: Vec<char>)
    ensures
        r@ == spec_trim(s@),
{
    let n = s.len();
    let mut a: usize = 0;
    while a < n && is_space(s[a])
        invariant
            a <= n,
            n == s@.len(),
            forall|j: int| 0 <= j < a ==> spec_is_space(s@[j]),
        decreases n - a,
    {
        a = a + 1;
    }
    proof {
        lemma_skip_spaces_char(s@, 0, a as int);
    }
    let mut b: usize = n;
    while b > a && is_space(s[b - 1])
        invariant
            a <= b <= n,
            n == s@.len(),
            a == n || !spec_is_space(s@[a as int]),
            a < n ==> a < b,
            forall|j: int| b <= j < n ==> spec_is_space(s@[j]),
        decreases b,
    {
        b = b - 1;
    }
    let mut r: Vec<char> = Vec::new();
    let mut i: usize = a;
    while i < b
        invariant
            a <= i <= b <= n,
            n == s@.len(),
            r@ == s@.subrange(a as int, i as int),
        decreases b - i,
    {
        r.push(s[i]);
        proof {
            assert(s@.subrange(a as int, i + 1) =~= s@.subrange(a as int, i as int).push(
                s@[i as int],
            ));
        }
        i = i + 1;
    }
    proof {
        if a == n {
            lemma_trim_end_char(s@, 0, n as int);
        } else {
            lemma_trim_end_char(s@, b as int, n as int);
        }
        assert(r@ =~= spec_trim(s@));
    }
    r
}

/// Where the space skip stops, no space stands.
pub proof fn lemma_skip_spaces_stops(s: Seq<char>, i: int)
    requires
        0 <= i <= s.len(),
    ensures
        i <= spec_skip_spaces_idx(s, i) <= s.len(),
        spec_skip_spaces_idx(s, i) < s.len() ==> !spec_is_space(s[spec_skip_spaces_idx(s, i)]),
    decreases s.len() - i,
{
    if i < s.len() && spec_is_space(s[i]) {
        lemma_skip_spaces_stops(s, i + 1);
    }
}

/// Where the trailing-space trim stops, no space stands before it.
pub proof fn lemma_trim_end_stops(s: Seq<char>, j: int)
    requires
        0 <= j <= s.len(),
    ensures
        0 <= spec_trim_end_idx(s, j) <= j,
        spec_trim_end_idx(s, j) > 0 ==> !spec_is_space(s[spec_trim_end_idx(s, j) - 1]),
    decreases j,
{
    if j > 0 && spec_is_space(s[j - 1]) {
        lemma_trim_end_stops(s, j - 1);
    }
}

/// Trimming an already trimmed sequence changes nothing.
pub proof fn lemma_trim_idempotent(s: Seq<char>)
    ensures
        spec_trim(spec_trim(s)) == spec_trim(s),
{
    let a = spec_skip_spaces_idx(s, 0);
    let b = spec_trim_end_idx(s, s.len() as int);
    lemma_skip_spaces_stops(s, 0);
    lemma_trim_end_stops(s, s.len() as int);
    let t = spec_trim(s);
    if t.len() == 0 {
        assert(spec_trim(t) =~= t);
    } else {
        assert(t[0] == s[a] && !spec_is_space(t[0]));
        assert(t.last() == s[b - 1] && !spec_is_space(t.last()));
        assert(spec_skip_spaces_idx(t, 0) == 0);
        assert(spec_trim_end_idx(t, t.len() as int) == t.len());
        assert(spec_trim(t) =~= t);
    }
}

/// The first position at or after `i` holding `c`, or the length when `c`
/// does not occur there.
pub open spec fn spec_find_idx(s: Seq<char>, c: char, i: int) -> int
    decreases s.len() - i,
{
    if i < 0 || i >= s.len() {
        s.len() as int
    } else if s[i] == c {
        i
    } else {
        spec_find_idx(s, c, i + 1)
    }
}

/// `spec_find_idx` lands exactly on the first occurrence.
pub proof fn lemma_find_char(s: Seq<char>, c: char, i: int, k: int)
    requires
        0 <= i <= k <= s.len(),
        forall|j: int| i <= j < k ==> s[j] != c,
        k == s.len() || s[k] == c,
    ensures
        spec_find_idx(s, c, i) == k,
    decreases k - i,
{
    if i < k {
        lemma_find_char(s, c, i + 1, k);
    }
}

/// Finds the first occurrence of `c` at or after `start`, or the length.
pub fn find_char(s: &Vec<char>, c: char, start: usize) -> (r: usize)
    requires
        start <= s@.len(),
    ensures
        r == spec_find_idx(s@, c, start as int),
        start <= r <= s@.len(),
{
    let n = s.len();
    let mut i: usize = start;
    while i < n && s[i] != c
        invariant
            start <= i <= n,
            n == s@.len(),
            forall|j: int| start <= j < i ==> s@[j] != c,
        decreases n - i,
    {
        i = i + 1;
    }
    proof {
        lemma_find_char(s@, c, start as int, i as int);
    }
    i
}

/// The position of the last occurrence of `c`, or -1 when `c` does not
/// occur.
pub open spec fn spec_rfind_idx(s: Seq<char>, c: char) -> int
    decreases s.len(),
{
    if s.len() == 0 {
        -1int
    } else if s.last() == c {
        s.len() - 1
    } else {
        spec_rfind_idx(s.drop_last(), c)
    }
}

/// `spec_rfind_idx` lands exactly on the last occurrence.
pub proof fn lemma_rfind_char(s: Seq<char>, c: char, k: int)
    requires
        -1 <= k < s.len(),
        k >= 0 ==> s[k] == c,
        forall|j: int| k < j < s.len() ==> s[j] != c,
    ensures
        spec_rfind_idx(s, c) == k,
    decreases s.len(),
{
    if s.len() > 0 && s.last() != c {
        lemma_rfind_char(s.drop_last(), c, k);
    }
}

/// Finds the last occurrence of `c`, if any.
pub fn rfind_char(s: &Vec<char>, c: char) -> (r: Option<usize>)
    ensures
        r matches Some(i) ==> i < s@.len() && spec_rfind_idx(s@, c) == i,
        r is None ==> spec_rfind_idx(s@, c) == -1,
{
    let n = s.len();
    let mut i: usize = n;
    while i > 0
        invariant
            i <= n,
            n == s@.len(),
            forall|j: int| i <= j < n ==> s@[j] != c,
        decreases i,
    {
        if s[i - 1] == c {
            proof {
                lemma_rfind_char(s@, c, i - 1);
            }
            return Some(i - 1);
        }
        i = i - 1;
    }
    proof {
        lemma_rfind_char(s@, c, -1);
    }
    None
}

/// The position of the first line break at or after `i`.
pub open spec fn spec_line_end(s: Seq<char>, i: int) -> int {
    spec_find_idx(s, '\n', i)
}

/// The text lines of `s` from position `i` on: pieces split at line
/// feeds, each piece giving up a carriage return that stood right before
/// the line feed; a final line feed opens no further line.
pub open spec fn spec_lines_from(s: Seq<char>, i: int) -> Seq<Seq<char>>
    decreases s.len() - i,
    via spec_lines_from_dec
{
    if i < 0 || i >= s.len() {
        Seq::empty()
    } else {
        let j = spec_line_end(s, i);
        let raw = s.subrange(i, j);
        let line = if j < s.len() && raw.len() > 0 && raw.last() == '\r' {
            raw.drop_last()
        } else {
            raw
        };
        if j >= s.len() {
            seq![line]
        } else {
            seq![line] + spec_lines_from(s, j + 1)
        }
    }
}

#[via_fn]
proof fn spec_lines_from_dec(s: Seq<char>, i: int) {
    if 0 <= i && i < s.len() {
        lemma_find_bounds(s, '\n', i);
    }
}

/// Bounds of `spec_find_idx`.
pub proof fn lemma_find_bounds(s: Seq<char>, c: char, i: int)
    requires
        0 <= i <= s.len(),
    ensures
        i <= spec_find_idx(s, c, i) <= s.len(),
    decreases s.len() - i,
{
    if i < s.len() && s[i] != c {
        lemma_find_bounds(s, c, i + 1);
    }
}

/// The text lines of a whole character sequence.
pub open spec fn spec_lines(s: Seq<char>) -> Seq<Seq<char>> {
    spec_lines_from(s, 0)
}

/// Splits a character vector into its text lines.
pub fn split_lines(s: &Vec<char>) -> (r: Vec<Vec<char>>)
    ensures
        r@.map_values(|t: Vec<char>| t@) == spec_lines(s@),
{
    let n = s.len();
    let mut r: Vec<Vec<char>> = Vec::new();
    let mut i: usize = 0;
    while i < n
        invariant
            n == s@.len(),
            i <= n + 1,
            r@.map_values(|t: Vec<char>| t@) + spec_lines_from(s@, i as int) == spec_lines(s@),
        decreases n + 1 - i,
    {
        let j = find_char(s, '\n', i);
        let end = if j < n && j > i && s[j - 1] == '\r' {
            j - 1
        } else {
            j
        };
        let mut line: Vec<char> = Vec::new();
        let mut k: usize = i;
        while k < end
            invariant
                i <= k <= end,
                end <= n,
                n == s@.len(),
                line@ == s@.subrange(i as int, k as int),
            decreases end - k,
        {
            line.push(s[k]);
            proof {
                assert(s@.subrange(i as int, k + 1) =~= s@.subrange(i as int, k as int).push(
                    s@[k as int],
                ));
            }
            k = k + 1;
        }
        proof {
            let jj = spec_line_end(s@, i as int);
            let raw = s@.subrange(i as int, jj);
            if jj < s@.len() && raw.len() > 0 && raw.last() == '\r' {
                assert(line@ =~= raw.drop_last());
            } else {
                assert(line@ =~= raw);
            }
        }
        let ghost pre_lines = r@.map_values(|t: Vec<char>| t@);
        r.push(line);
        proof {
            assert(r@.map_values(|t: Vec<char>| t@) =~= pre_lines.push(r@.last()@));
            assert(r@.map_values(|t: Vec<char>| t@) + spec_lines_from(s@, j + 1 as int)
                =~= spec_lines(s@));
        }
        i = if j == n {
            n
        } else {
            j + 1
        };
    }
    proof {
        assert(r@.map_values(|t: Vec<char>| t@) =~= spec_lines(s@));
    }
    r
}

/// The value of a digit character in the given radix, or -1 when it is no
/// digit of that radix. Letters a–f and A–F carry the hexadecimal values
/// ten to fifteen.
pub open spec fn spec_digit_val(c: char, radix: int) -> int {
    let u = c as u32;
    let v = if 48 <= u && u <= 57 {
        u - 48
    } else if 97 <= u && u <= 102 {
        u - 87
    } else if 65 <= u && u <= 70 {
        u - 55
    } else {
        radix
    };
    if v < radix {
        v as int
    } else {
        -1int
    }
}

/// The numeric value of a digit run in the given radix, or -1 when the
/// run is empty or holds a non-digit.
pub open spec fn spec_radix_val(s: Seq<char>, radix: int) -> int
    decreases s.len(),
{
    if s.len() == 0 {
        -1int
    } else {
        let d = spec_digit_val(s.last(), radix);
        if d < 0 {
            -1int
        } else if s.len() == 1 {
            d
        } else {
            let p = spec_radix_val(s.drop_last(), radix);
            if p < 0 {
                -1int
            } else {
                p * radix + d
            }
        }
    }
}

/// A longer digit run is worth at least as much as its prefix.
pub proof fn lemma_radix_prefix(s: Seq<char>, radix: int, j: int)
    requires
        2 <= radix,
        1 <= j <= s.len(),
        spec_radix_val(s, radix) >= 0,
    ensures
        spec_radix_val(s.subrange(0, j), radix) >= 0,
        spec_radix_val(s.subrange(0, j), radix) <= spec_radix_val(s, radix),
    decreases s.len(),
{
    if j == s.len() {
        assert(s.subrange(0, j) =~= s);
    } else {
        let d = s.drop_last();
        assert(spec_radix_val(d, radix) >= 0);
        lemma_radix_prefix(d, radix, j);
        assert(d.subrange(0, j) =~= s.subrange(0, j));
        let p = spec_radix_val(d, radix);
        let dv = spec_digit_val(s.last(), radix);
        assert(spec_radix_val(s, radix) == p * radix + dv);
        assert(p * radix >= p) by (nonlinear_arith)
            requires
                p >= 0,
                radix >= 2,
        ;
    }
}

/// The value of one digit character in `radix`, executably.
pub fn digit_val(c: char, radix: u32) -> (r: Option<u32>)
    requires
        2 <= radix <= 16,
    ensures
        r matches Some(v) ==> spec_digit_val(c, radix as int) == v && v < radix,
        r is None ==> spec_digit_val(c, radix as int) == -1,
{
    let u = c as u32;
    let v: u32 = if 48 <= u && u <= 57 {
        u - 48
    } else if 97 <= u && u <= 102 {
        u - 87
    } else if 65 <= u && u <= 70 {
        u - 55
    } else {
        radix
    };
    if v < radix {
        Some(v)
    } else {
        None
    }
}

/// Reads a digit run in the given radix as a 16-bit value; an empty run,
/// a non-digit, or a value past 16 bits is refused.
pub fn parse_radix_u16(s: &Vec<char>, start: usize, radix: u32) -> (r: Option<u16>)
    requires
        2 <= radix <= 16,
        start <= s@.len(),
    ensures
        ({
            let v = spec_radix_val(s@.subrange(start as int, s@.len() as int), radix as int);
            match r {
                Some(x) => v == x,
                None => v < 0 || v > 0xFFFF,
            }
        }),
{
    let n = s.len();
    let ghost digits = s@.subrange(start as int, s@.len() as int);
    if start == n {
        return None;
    }
    let mut acc: u32 = 0;
    let mut i: usize = start;
    while i < n
        invariant
            start <= i <= n,
            n == s@.len(),
            digits == s@.subrange(start as int, s@.len() as int),
            i > start ==> acc == spec_radix_val(s@.subrange(start as int, i as int), radix as int)
                && acc <= 0xFFFF,
            i == start ==> acc == 0,
            2 <= radix <= 16,
        decreases n - i,
    {
        let d = match digit_val(s[i], radix) {
            Some(v) => v,
            None => {
                proof {
                    lemma_radix_digit_bad(digits, radix as int, i - start);
                }
                return None;
            },
        };
        proof {
            assert(acc * radix <= 0xFFFF * 16) by (nonlinear_arith)
                requires
                    acc <= 0xFFFF,
                    radix <= 16,
            ;
        }
        let next: u32 = acc * radix + d;
        proof {
            assert(s@.subrange(start as int, i + 1) =~= s@.subrange(start as int, i as int).push(
                s@[i as int],
            ));
            if i > start {
                assert(s@.subrange(start as int, i + 1).drop_last() =~= s@.subrange(
                    start as int,
                    i as int,
                ));
            }
        }
        if next > 0xFFFF {
            proof {
                let pref = s@.subrange(start as int, i + 1);
                assert(spec_radix_val(pref, radix as int) == next);
                assert(pref =~= digits.subrange(0, i + 1 - start));
                if spec_radix_val(digits, radix as int) >= 0 {
                    lemma_radix_prefix(digits, radix as int, i + 1 - start);
                }
            }
            return None;
        }
        acc = next;
        i = i + 1;
    }
    proof {
        assert(s@.subrange(start as int, n as int) =~= digits);
    }
    Some(acc as u16)
}

/// Whether a character vector spells exactly the given string.
pub fn chars_eq_str(t: &Vec<char>, s: &str) -> (r: bool)
    ensures
        r == (t@ == s@),
{
    let n = s.unicode_len();
    if t.len() != n {
        return false;
    }
    let mut i: usize = 0;
    while i < n
        invariant
            i <= n,
            n == s@.len(),
            t@.len() == n,
            forall|j: int| 0 <= j < i ==> t@[j] == s@[j],
        decreases n - i,
    {
        if t[i] != s.get_char(i) {
            return false;
        }
        i = i + 1;
    }
    proof {
        assert(t@ =~= s@);
    }
    true
}

/// The pieces joined with single blanks between them.
pub open spec fn spec_join_sp(parts: Seq<Seq<char>>) -> Seq<char>
    decreases parts.len(),
{
    if parts.len() == 0 {
        Seq::empty()
    } else if parts.len() == 1 {
        parts[0]
    } else {
        parts[0] + seq![' '] + spec_join_sp(parts.subrange(1, parts.len() as int))
    }
}

/// Joining one more piece appends a blank and the piece.
pub proof fn lemma_join_push(parts: Seq<Seq<char>>, t: Seq<char>)
    ensures
        parts.len() == 0 ==> spec_join_sp(parts.push(t)) == t,
        parts.len() > 0 ==> spec_join_sp(parts.push(t)) == spec_join_sp(parts) + seq![' '] + t,
    decreases parts.len(),
{
    if parts.len() > 0 {
        let rest = parts.subrange(1, parts.len() as int);
        lemma_join_push(rest, t);
        assert(parts.push(t).subrange(1, parts.push(t).len() as int) =~= rest.push(t));
        if parts.len() == 1 {
            assert(spec_join_sp(parts.push(t)) =~= parts[0] + seq![' '] + t);
            assert(spec_join_sp(parts) + seq![' '] + t =~= parts[0] + seq![' '] + t);
        } else {
            assert(spec_join_sp(parts.push(t)) =~= spec_join_sp(parts) + seq![' '] + t);
        }
    }
}

/// Joins the pieces from position `k` on with single blanks.
pub fn join_tokens(parts: &Vec<Vec<char>>, k: usize) -> (r: Vec<char>)
    requires
        k <= parts@.len(),
    ensures
        r@ == spec_join_sp(
            parts@.map_values(|t: Vec<char>| t@).subrange(k as int, parts@.len() as int),
        ),
{
    let ghost whole = parts@.map_values(|t: Vec<char>| t@);
    let n = parts.len();
    let mut r: Vec<char> = Vec::new();
    let mut i: usize = k;
    while i < n
        invariant
            k <= i <= n,
            n == parts@.len(),
            whole == parts@.map_values(|t: Vec<char>| t@),
            r@ == spec_join_sp(whole.subrange(k as int, i as int)),
        decreases n - i,
    {
        if i > k {
            r.push(' ');
        }
        let piece = &parts[i];
        let mut j: usize = 0;
        let ghost mid = r@;
        while j < piece.len()
            invariant
                j <= piece@.len(),
                piece@ == parts@[i as int]@,
                i < n,
                n == parts@.len(),
                r@ == mid + piece@.subrange(0, j as int),
            decreases piece@.len() - j,
        {
            r.push(piece[j]);
            proof {
                assert(piece@.subrange(0, j + 1) =~= piece@.subrange(0, j as int).push(
                    piece@[j as int],
                ));
                assert(mid + piece@.subrange(0, j as int).push(piece@[j as int]) =~= (mid
                    + piece@.subrange(0, j as int)).push(piece@[j as int]));
            }
            j = j + 1;
        }
        proof {
            assert(piece@.subrange(0, piece@.len() as int) =~= piece@);
            lemma_join_push(whole.subrange(k as int, i as int), whole[i as int]);
            assert(whole.subrange(k as int, i + 1) =~= whole.subrange(k as int, i as int).push(
                whole[i as int],
            ));
            if i > k {
                assert(r@ =~= spec_join_sp(whole.subrange(k as int, i as int)) + seq![' ']
                    + whole[i as int]);
            } else {
                assert(r@ =~= whole[i as int]);
            }
            assert(r@ == spec_join_sp(whole.subrange(k as int, i + 1)));
        }
        i = i + 1;
    }
    r
}

/// An invalid digit anywhere makes the whole run invalid.
pub proof fn lemma_radix_digit_bad(s: Seq<char>, radix: int, k: int)
    requires
        0 <= k < s.len(),
        spec_digit_val(s[k], radix) == -1,
    ensures
        spec_radix_val(s, radix) == -1,
    decreases s.len(),
{
    if s.len() > 0 && k < s.len() - 1 {
        lemma_radix_digit_bad(s.drop_last(), radix, k);
    }
}

} // verus!
