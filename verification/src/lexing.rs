//! What the tokenizer computes, as functions of the source bytes.
//!
//! A program is read one logical line at a time. Blank lines and comments
//! yield nothing. The depth of a line's indentation is compared with a
//! stack of the depths of the blocks that are open, and every change is
//! reported as an `INDENT` or a `DEDENT` in front of the line's first
//! token.

use vstd::prelude::*;
use crate::errors::LexError;
use crate::token::{TokenKind, TokenView, plain_token, text_token, int_token};
use crate::char_stream::chars_of;
use crate::ascii;

verus! {

/// Whether a byte is a decimal digit.
pub open spec fn is_digit(b: u8) -> bool {
    ascii::ZERO <= b <= ascii::NINE
}

/// Whether a byte can begin an identifier: a letter or an underscore.
pub open spec fn is_ident_start(b: u8) -> bool {
    (ascii::LOWER_A <= b <= ascii::LOWER_Z) || (ascii::UPPER_A <= b <= ascii::UPPER_Z) || b == ascii::UNDERSCORE
}

/// Whether a byte can stand in an identifier.
pub open spec fn is_ident_char(b: u8) -> bool {
    is_ident_start(b) || is_digit(b)
}

/// Whether index `i` is the first of its line.
pub open spec fn line_start(src: Seq<u8>, i: int) -> bool {
    i <= 0 || src[i - 1] == ascii::NEWLINE
}

/// The tokenizer between two tokens.
pub struct LexState {
    /// The bytes of the program.
    pub src: Seq<u8>,
    /// The index of the byte under the cursor; the length of `src` past the
    /// last byte.
    pub at: int,
    /// The indentation of each open block, the outermost first.
    pub stack: Seq<usize>,
    /// The number of spaces in front of the current line, as far as they
    /// have been counted.
    pub leading: usize,
    /// The token produced last.
    pub token: TokenView,
}

/// The tokenizer in front of the first byte of `src`.
pub open spec fn lex_start(src: Seq<u8>) -> LexState {
    LexState { src, at: 0, stack: seq![0usize], leading: 0, token: plain_token(TokenKind::EMPTY) }
}

/// What holds of the tokenizer between any two tokens: the cursor is in
/// range, the stack of open blocks is not empty, starts at depth 0 and
/// grows strictly, and no more spaces were counted than bytes were read.
pub open spec fn lex_inv(s: LexState) -> bool {
    &&& 0 <= s.at <= s.src.len()
    &&& s.src.len() < usize::MAX
    &&& s.stack.len() >= 1
    &&& s.stack[0] == 0
    &&& forall|j: int, k: int| 0 <= j < k < s.stack.len() ==> s.stack[j] < s.stack[k]
    &&& s.leading <= s.at
}

/// Skips spaces, comments and lines that hold nothing else, from index
/// `i`. `at_start` says that the skipping began on the first byte of a
/// line, in which case spaces in front of a comment or a token count
/// towards the indentation. Returns the index where the skipping stops and
/// the count of leading spaces.
pub open spec fn skip_blank(src: Seq<u8>, i: int, at_start: bool, leading: int, in_comment: bool) -> (
    int,
    int,
)
    decreases src.len() - i,
{
    if i < 0 || i >= src.len() {
        (i, if at_start { 0 } else { leading })
    } else if src[i] == ascii::NEWLINE {
        if at_start {
            skip_blank(src, i + 1, at_start, 0, false)
        } else {
            (i, leading)
        }
    } else if in_comment {
        skip_blank(src, i + 1, at_start, leading, true)
    } else if src[i] == ascii::HASH {
        skip_blank(src, i + 1, at_start, leading, true)
    } else if src[i] == ascii::SPACE {
        skip_blank(src, i + 1, at_start, if at_start { leading + 1 } else { leading }, false)
    } else {
        (i, leading)
    }
}

/// The first index from `i` on that holds no digit.
pub open spec fn digits_end(src: Seq<u8>, i: int) -> int
    decreases src.len() - i,
{
    if 0 <= i < src.len() && is_digit(src[i]) {
        digits_end(src, i + 1)
    } else {
        i
    }
}

/// The first index from `i` on that holds no letter, digit or underscore.
pub open spec fn ident_end(src: Seq<u8>, i: int) -> int
    decreases src.len() - i,
{
    if 0 <= i < src.len() && is_ident_char(src[i]) {
        ident_end(src, i + 1)
    } else {
        i
    }
}

/// The number that a run of decimal digits writes.
pub open spec fn decimal_value(digits: Seq<u8>) -> nat
    decreases digits.len(),
{
    if digits.len() == 0 {
        0
    } else {
        decimal_value(digits.drop_last()) * 10 + (digits.last() - ascii::ZERO) as nat
    }
}

/// Reads the inside of a string literal from index `j`, behind the opening
/// quote or later, with `acc` the characters read so far. A backslash takes
/// the byte behind it as it stands. Returns the contents and the index
/// behind the closing quote, or nothing where the line or the source ends
/// first.
pub open spec fn string_end(src: Seq<u8>, j: int, acc: Seq<char>) -> Option<(Seq<char>, int)>
    decreases src.len() - j,
{
    if j < 0 || j >= src.len() {
        None
    } else if src[j] == ascii::NEWLINE {
        None
    } else if src[j] == ascii::QUOTE {
        Some((acc, j + 1))
    } else if src[j] == ascii::BACKSLASH {
        if j + 1 >= src.len() || src[j + 1] == ascii::NEWLINE {
            None
        } else {
            string_end(src, j + 2, acc.push(src[j + 1] as char))
        }
    } else {
        string_end(src, j + 1, acc.push(src[j] as char))
    }
}

/// The keyword that `text` spells, or the identifier it is.
pub open spec fn word_token(text: Seq<char>) -> TokenView {
    if text == "or"@ {
        plain_token(TokenKind::OR)
    } else if text == "and"@ {
        plain_token(TokenKind::AND)
    } else if text == "not"@ {
        plain_token(TokenKind::NOT)
    } else if text == "is"@ {
        plain_token(TokenKind::IS)
    } else if text == "in"@ {
        plain_token(TokenKind::IN)
    } else if text == "None"@ {
        plain_token(TokenKind::NONE)
    } else if text == "break"@ {
        plain_token(TokenKind::BREAK)
    } else if text == "continue"@ {
        plain_token(TokenKind::CONTINUE)
    } else if text == "pass"@ {
        plain_token(TokenKind::PASS)
    } else if text == "return"@ {
        plain_token(TokenKind::RETURN)
    } else if text == "del"@ {
        plain_token(TokenKind::DEL)
    } else if text == "global"@ {
        plain_token(TokenKind::GLOBAL)
    } else if text == "if"@ {
        plain_token(TokenKind::IF)
    } else if text == "elif"@ {
        plain_token(TokenKind::ELIF)
    } else if text == "else"@ {
        plain_token(TokenKind::ELSE)
    } else if text == "for"@ {
        plain_token(TokenKind::FOR)
    } else if text == "while"@ {
        plain_token(TokenKind::WHILE)
    } else if text == "def"@ {
        plain_token(TokenKind::DEF)
    } else if text == "True"@ {
        plain_token(TokenKind::TRUE)
    } else if text == "False"@ {
        plain_token(TokenKind::FALSE)
    } else {
        text_token(TokenKind::ID, text)
    }
}

/// The number that starts at index `i`, which holds a digit or a period in
/// front of a digit: a float where a period follows the leading digits, an
/// integer else.
pub open spec fn scan_number(src: Seq<u8>, i: int) -> Result<(TokenView, int), LexError> {
    let e = digits_end(src, i);
    if e < src.len() && src[e] == ascii::PERIOD {
        let f = digits_end(src, e + 1);
        Ok((text_token(TokenKind::FLOAT, chars_of(src.subrange(i, f))), f))
    } else if src[i] == ascii::ZERO && e - i > 1 {
        Err(LexError::InvalidToken)
    } else if decimal_value(src.subrange(i, e)) > i64::MAX {
        Err(LexError::IntegerOutOfRange)
    } else {
        Ok((int_token(decimal_value(src.subrange(i, e)) as int), e))
    }
}

/// The token of one byte that `b` is, if it is one.
pub open spec fn single_kind(b: u8) -> Option<TokenKind> {
    if b == ascii::PLUS {
        Some(TokenKind::PLUS)
    } else if b == ascii::MINUS {
        Some(TokenKind::MINUS)
    } else if b == ascii::STAR {
        Some(TokenKind::MUL)
    } else if b == ascii::SLASH {
        Some(TokenKind::DIV)
    } else if b == ascii::PERCENT {
        Some(TokenKind::MOD)
    } else if b == ascii::TILDE {
        Some(TokenKind::TILDE)
    } else if b == ascii::CARET {
        Some(TokenKind::XOR)
    } else if b == ascii::AMPERSAND {
        Some(TokenKind::AMP)
    } else if b == ascii::BAR {
        Some(TokenKind::BAR)
    } else if b == ascii::LPAREN {
        Some(TokenKind::LPAREN)
    } else if b == ascii::RPAREN {
        Some(TokenKind::RPAREN)
    } else if b == ascii::LBRACE {
        Some(TokenKind::LBRACE)
    } else if b == ascii::RBRACE {
        Some(TokenKind::RBRACE)
    } else if b == ascii::LBRACKET {
        Some(TokenKind::LBRACKET)
    } else if b == ascii::RBRACKET {
        Some(TokenKind::RBRACKET)
    } else if b == ascii::COMMA {
        Some(TokenKind::COMMA)
    } else if b == ascii::COLON {
        Some(TokenKind::COLON)
    } else {
        None
    }
}

/// Whether index `i` is in range and holds `b`.
pub open spec fn holds(src: Seq<u8>, i: int, b: u8) -> bool {
    0 <= i < src.len() && src[i] == b
}

/// The token that starts at index `i`, and the index behind it. Operators
/// of two bytes win over their first byte alone.
pub open spec fn scan_token(src: Seq<u8>, i: int) -> Result<(TokenView, int), LexError> {
    if i < 0 || i >= src.len() {
        Ok((plain_token(TokenKind::EOF), i))
    } else {
        let c = src[i];
        if c == ascii::NEWLINE {
            Ok((plain_token(TokenKind::NEWLINE), i + 1))
        } else if c == ascii::EQUALS {
            if holds(src, i + 1, ascii::EQUALS) {
                Ok((plain_token(TokenKind::EQEQ), i + 2))
            } else {
                Ok((plain_token(TokenKind::EQ), i + 1))
            }
        } else if c == ascii::BANG {
            if holds(src, i + 1, ascii::EQUALS) {
                Ok((plain_token(TokenKind::NEQ), i + 2))
            } else {
                Err(LexError::UnexpectedCharacter)
            }
        } else if c == ascii::GREATER {
            if holds(src, i + 1, ascii::EQUALS) {
                Ok((plain_token(TokenKind::GEQ), i + 2))
            } else if holds(src, i + 1, ascii::GREATER) {
                Ok((plain_token(TokenKind::RSHIFT), i + 2))
            } else {
                Ok((plain_token(TokenKind::GT), i + 1))
            }
        } else if c == ascii::LESS {
            if holds(src, i + 1, ascii::EQUALS) {
                Ok((plain_token(TokenKind::LEQ), i + 2))
            } else if holds(src, i + 1, ascii::LESS) {
                Ok((plain_token(TokenKind::LSHIFT), i + 2))
            } else {
                Ok((plain_token(TokenKind::LT), i + 1))
            }
        } else if single_kind(c) is Some {
            Ok((plain_token(single_kind(c)->0), i + 1))
        } else if c == ascii::PERIOD {
            if i + 1 < src.len() && is_digit(src[i + 1]) {
                scan_number(src, i)
            } else {
                Ok((plain_token(TokenKind::PERIOD), i + 1))
            }
        } else if is_digit(c) {
            scan_number(src, i)
        } else if c == ascii::QUOTE {
            match string_end(src, i + 1, Seq::empty()) {
                Some((text, j)) => Ok((text_token(TokenKind::STRING, text), j)),
                None => Err(LexError::EolInString),
            }
        } else if is_ident_start(c) {
            let e = ident_end(src, i);
            Ok((word_token(chars_of(src.subrange(i, e))), e))
        } else {
            Err(LexError::UnexpectedCharacter)
        }
    }
}

/// One step of the tokenizer: the state behind the next token, or the
/// failure that ends the run.
///
/// Blank space is skipped first. A line indented deeper than the innermost
/// open block opens a block; one indented less closes the innermost block,
/// which fails where the line is then deeper than the block below. Only a
/// line at the depth of the innermost block has its next token read. A
/// `NEWLINE` ends the counting of spaces for its line.
pub open spec fn lex_step(s: LexState) -> Result<LexState, LexError> {
    let skipped = skip_blank(s.src, s.at, line_start(s.src, s.at), s.leading as int, false);
    let i1 = skipped.0;
    let lead1 = skipped.1 as usize;
    let top = s.stack.last();
    if lead1 > top {
        Ok(
            LexState {
                src: s.src,
                at: i1,
                stack: s.stack.push(lead1),
                leading: lead1,
                token: plain_token(TokenKind::INDENT),
            },
        )
    } else if lead1 < top {
        let rest = s.stack.drop_last();
        if rest.len() > 0 && lead1 > rest.last() {
            Err(LexError::UnindentMismatch)
        } else {
            Ok(
                LexState {
                    src: s.src,
                    at: i1,
                    stack: rest,
                    leading: lead1,
                    token: plain_token(TokenKind::DEDENT),
                },
            )
        }
    } else {
        match scan_token(s.src, i1) {
            Err(e) => Err(e),
            Ok((token, i2)) => Ok(
                LexState {
                    src: s.src,
                    at: i2,
                    stack: s.stack,
                    leading: if token.kind == TokenKind::NEWLINE {
                        0
                    } else {
                        lead1
                    },
                    token,
                },
            ),
        }
    }
}

/// Where the next token begins and how many spaces lead its line, seen
/// from `s`.
pub open spec fn lex_skip(s: LexState) -> (int, int) {
    skip_blank(s.src, s.at, line_start(s.src, s.at), s.leading as int, false)
}

/// What is left to do first: the bytes from the next token on.
pub open spec fn lex_bytes_left(s: LexState) -> int {
    s.src.len() - lex_skip(s).0
}

/// What is left to do second: the blocks to close, and the one to open.
pub open spec fn lex_blocks_left(s: LexState) -> int {
    s.stack.len() + if lex_skip(s).1 > s.stack.last() { 2int } else { 0int }
}

/// Whether `t` has less left to do than `s`.
pub open spec fn lex_progress(s: LexState, t: LexState) -> bool {
    &&& 0 <= lex_bytes_left(t)
    &&& 0 <= lex_blocks_left(t)
    &&& (lex_bytes_left(t) < lex_bytes_left(s) || (lex_bytes_left(t) == lex_bytes_left(s)
        && lex_blocks_left(t) < lex_blocks_left(s)))
}

/// The outcome of running the tokenizer to the end.
pub struct Lexed {
    /// The tokens in order: up to and including the first `EOF`, or up to
    /// the failure.
    pub tokens: Seq<TokenView>,
    /// For each token, the index of the byte behind it.
    pub ends: Seq<int>,
    /// What ended the run early, if anything did.
    pub error: Option<LexError>,
}

/// All tokens from `s` on.
pub open spec fn lex_from(s: LexState) -> Lexed
    decreases lex_bytes_left(s), lex_blocks_left(s),
{
    match lex_step(s) {
        Err(e) => Lexed { tokens: Seq::empty(), ends: Seq::empty(), error: Some(e) },
        Ok(t) => {
            if t.token.kind == TokenKind::EOF || !lex_progress(s, t) {
                Lexed { tokens: seq![t.token], ends: seq![t.at], error: None }
            } else {
                let rest = lex_from(t);
                Lexed {
                    tokens: seq![t.token] + rest.tokens,
                    ends: seq![t.at] + rest.ends,
                    error: rest.error,
                }
            }
        },
    }
}

/// All tokens of a program.
pub open spec fn lex_all(src: Seq<u8>) -> Lexed {
    lex_from(lex_start(src))
}

/// The state after `n` tokens from `s`, where none of them failed.
pub open spec fn lex_run(s: LexState, n: nat) -> Option<LexState>
    decreases n,
{
    if n == 0 {
        Some(s)
    } else {
        match lex_run(s, (n - 1) as nat) {
            Some(t) => match lex_step(t) {
                Ok(u) => Some(u),
                Err(_) => None,
            },
            None => None,
        }
    }
}

/// How many of the first `n` tokens from `s` are of `kind`.
pub open spec fn count_kind(s: LexState, n: nat, kind: TokenKind) -> nat
    decreases n,
{
    if n == 0 {
        0
    } else {
        let before = count_kind(s, (n - 1) as nat, kind);
        match lex_run(s, n) {
            Some(t) => if t.token.kind == kind {
                before + 1
            } else {
                before
            },
            None => before,
        }
    }
}

/// Skipping stops between where it began and the end of the source, and
/// counts at most one space for each byte it passes.
pub proof fn lemma_skip_bounds(src: Seq<u8>, i: int, at_start: bool, leading: int, in_comment: bool)
    requires
        0 <= i <= src.len(),
        0 <= leading,
    ensures
        i <= skip_blank(src, i, at_start, leading, in_comment).0 <= src.len(),
        0 <= skip_blank(src, i, at_start, leading, in_comment).1 <= leading + skip_blank(
            src,
            i,
            at_start,
            leading,
            in_comment,
        ).0 - i,
    decreases src.len() - i,
{
    if i < src.len() {
        if src[i] == ascii::NEWLINE {
            if at_start {
                lemma_skip_bounds(src, i + 1, at_start, 0, false);
            }
        } else if in_comment {
            lemma_skip_bounds(src, i + 1, at_start, leading, true);
        } else if src[i] == ascii::HASH {
            lemma_skip_bounds(src, i + 1, at_start, leading, true);
        } else if src[i] == ascii::SPACE {
            lemma_skip_bounds(src, i + 1, at_start, if at_start { leading + 1 } else { leading }, false);
        }
    }
}

/// Where skipping stops, there is nothing to skip: the end of the source,
/// a newline behind a token, or the first byte of a token. Skipping that
/// began behind a token passes no newline.
pub proof fn lemma_skip_stop(src: Seq<u8>, i: int, at_start: bool, leading: int, in_comment: bool)
    requires
        0 <= i <= src.len(),
    ensures
        ({
            let j = skip_blank(src, i, at_start, leading, in_comment).0;
            &&& i <= j <= src.len()
            &&& j < src.len() ==> (src[j] == ascii::NEWLINE && !at_start) || (src[j]
                != ascii::NEWLINE && src[j] != ascii::HASH && src[j] != ascii::SPACE)
            &&& !at_start ==> forall|k: int| i <= k < j ==> src[k] != ascii::NEWLINE
        }),
    decreases src.len() - i,
{
    if i < src.len() {
        if src[i] == ascii::NEWLINE {
            if at_start {
                lemma_skip_stop(src, i + 1, at_start, 0, false);
            }
        } else if in_comment {
            lemma_skip_stop(src, i + 1, at_start, leading, true);
        } else if src[i] == ascii::HASH {
            lemma_skip_stop(src, i + 1, at_start, leading, true);
        } else if src[i] == ascii::SPACE {
            lemma_skip_stop(src, i + 1, at_start, if at_start { leading + 1 } else { leading }, false);
        }
    }
}

/// Skipping again from where skipping stopped moves nothing and counts no
/// further space.
pub proof fn lemma_skip_twice(src: Seq<u8>, i: int, leading: int)
    requires
        0 <= i <= src.len(),
        0 <= leading,
    ensures
        ({
            let first = skip_blank(src, i, line_start(src, i), leading, false);
            let second = skip_blank(src, first.0, line_start(src, first.0), first.1, false);
            second.0 == first.0 && 0 <= second.1 <= first.1
        }),
{
    lemma_skip_stop(src, i, line_start(src, i), leading, false);
    lemma_skip_bounds(src, i, line_start(src, i), leading, false);
}

/// A run of digits ends inside the source, and behind its first digit.
pub proof fn lemma_digits_end(src: Seq<u8>, i: int)
    requires
        0 <= i <= src.len(),
    ensures
        i <= digits_end(src, i) <= src.len(),
        i < src.len() && is_digit(src[i]) ==> i < digits_end(src, i),
    decreases src.len() - i,
{
    if i < src.len() && is_digit(src[i]) {
        lemma_digits_end(src, i + 1);
    }
}

/// An identifier ends inside the source, and behind its first byte.
pub proof fn lemma_ident_end(src: Seq<u8>, i: int)
    requires
        0 <= i <= src.len(),
    ensures
        i <= ident_end(src, i) <= src.len(),
        i < src.len() && is_ident_char(src[i]) ==> i < ident_end(src, i),
    decreases src.len() - i,
{
    if i < src.len() && is_ident_char(src[i]) {
        lemma_ident_end(src, i + 1);
    }
}

/// A string literal ends inside the source, behind where it was read
/// from.
pub proof fn lemma_string_end(src: Seq<u8>, j: int, acc: Seq<char>)
    requires
        0 <= j,
    ensures
        string_end(src, j, acc) matches Some(found) ==> j < found.1 <= src.len(),
    decreases src.len() - j,
{
    if j < src.len() && src[j] != ascii::NEWLINE && src[j] != ascii::QUOTE {
        if src[j] == ascii::BACKSLASH {
            if j + 1 < src.len() && src[j + 1] != ascii::NEWLINE {
                lemma_string_end(src, j + 2, acc.push(src[j + 1] as char));
            }
        } else {
            lemma_string_end(src, j + 1, acc.push(src[j] as char));
        }
    }
}

/// Every token but `EOF` takes up at least one byte, and `EOF` stands only
/// at the end of the source.
pub proof fn lemma_scan_advances(src: Seq<u8>, i: int)
    requires
        0 <= i <= src.len(),
    ensures
        scan_token(src, i) matches Ok(found) ==> {
            &&& i <= found.1 <= src.len()
            &&& (found.0.kind == TokenKind::EOF) == (i == src.len())
            &&& found.0.kind != TokenKind::EOF ==> i < found.1
            &&& found.0.kind != TokenKind::INDENT
            &&& found.0.kind != TokenKind::DEDENT
        },
{
    if i < src.len() {
        lemma_digits_end(src, i);
        if digits_end(src, i) < src.len() {
            lemma_digits_end(src, digits_end(src, i) + 1);
        }
        lemma_ident_end(src, i);
        lemma_string_end(src, i + 1, Seq::empty());
    }
}

/// A step keeps the tokenizer in order, and every step that does not
/// produce `EOF` leaves less to do.
pub proof fn lemma_lex_step(s: LexState)
    requires
        lex_inv(s),
    ensures
        lex_step(s) matches Ok(t) ==> {
            &&& lex_inv(t)
            &&& t.src == s.src
            &&& t.token.kind != TokenKind::EOF ==> lex_progress(s, t)
            &&& t.token.kind == TokenKind::INDENT ==> t.stack.len() == s.stack.len() + 1
            &&& t.token.kind == TokenKind::DEDENT ==> t.stack.len() == s.stack.len() - 1
            &&& t.token.kind != TokenKind::INDENT && t.token.kind != TokenKind::DEDENT ==> {
                &&& t.stack == s.stack
                &&& lex_skip(s).1 == s.stack.last()
            }
        },
{
    let src = s.src;
    lemma_skip_bounds(src, s.at, line_start(src, s.at), s.leading as int, false);
    lemma_skip_twice(src, s.at, s.leading as int);
    let i1 = lex_skip(s).0;
    let lead1 = lex_skip(s).1;
    lemma_scan_advances(src, i1);
    match lex_step(s) {
        Ok(t) => {
            lemma_skip_bounds(src, t.at, line_start(src, t.at), t.leading as int, false);
            if t.token.kind == TokenKind::INDENT {
                assert(t.stack == s.stack.push(lead1 as usize));
                assert forall|j: int, k: int| 0 <= j < k < t.stack.len() implies t.stack[j]
                    < t.stack[k] by {
                    if k == s.stack.len() {
                        if j < s.stack.len() - 1 {
                            assert(s.stack[j] < s.stack[s.stack.len() - 1]);
                        }
                    }
                }
            } else if t.token.kind == TokenKind::DEDENT {
                assert(t.stack == s.stack.drop_last());
            }
        },
        Err(_) => {},
    }
}

/// Blocks are opened and closed in balance: after any number of tokens,
/// the blocks still open are those opened less those closed.
pub proof fn lemma_depth(src: Seq<u8>, n: nat)
    requires
        src.len() < usize::MAX,
    ensures
        lex_run(lex_start(src), n) matches Some(t) ==> {
            &&& lex_inv(t)
            &&& t.src == src
            &&& t.stack.len() + count_kind(lex_start(src), n, TokenKind::DEDENT) == 1
                + count_kind(lex_start(src), n, TokenKind::INDENT)
        },
    decreases n,
{
    if n > 0 {
        lemma_depth(src, (n - 1) as nat);
        match lex_run(lex_start(src), (n - 1) as nat) {
            Some(t) => {
                lemma_lex_step(t);
            },
            None => {},
        }
    }
}

/// Wherever the next token is neither `INDENT` nor `DEDENT` and its line
/// has no space in front, so that the token stands in column 1, as many
/// blocks were closed as were opened among the tokens before it.
pub proof fn lemma_balanced_in_column_one(src: Seq<u8>, n: nat)
    requires
        src.len() < usize::MAX,
        lex_run(lex_start(src), n) is Some,
        lex_run(lex_start(src), n + 1) is Some,
        lex_run(lex_start(src), n + 1)->0.token.kind != TokenKind::INDENT,
        lex_run(lex_start(src), n + 1)->0.token.kind != TokenKind::DEDENT,
        lex_skip(lex_run(lex_start(src), n)->0).1 == 0,
    ensures
        count_kind(lex_start(src), n, TokenKind::INDENT) == count_kind(
            lex_start(src),
            n,
            TokenKind::DEDENT,
        ),
{
    lemma_depth(src, n);
    let s = lex_run(lex_start(src), n)->0;
    lemma_lex_step(s);
    assert(s.stack.last() == 0);
    if s.stack.len() > 1 {
        assert(s.stack[0] < s.stack[s.stack.len() - 1]);
    }
}

/// A run that does not fail ends in `EOF`, and `EOF` is its last token
/// only; a run that fails holds no `EOF`. Each token ends inside the
/// source.
pub proof fn lemma_lex_from(s: LexState)
    requires
        lex_inv(s),
    ensures
        lex_from(s).tokens.len() == lex_from(s).ends.len(),
        lex_from(s).error is None ==> lex_from(s).tokens.len() > 0 && lex_from(
            s,
        ).tokens.last().kind == TokenKind::EOF,
        forall|k: int|
            0 <= k < lex_from(s).tokens.len() && #[trigger] lex_from(s).tokens[k].kind
                == TokenKind::EOF ==> k == lex_from(s).tokens.len() - 1 && lex_from(s).error
                is None,
        forall|k: int|
            0 <= k < lex_from(s).ends.len() ==> 0 <= #[trigger] lex_from(s).ends[k]
                <= s.src.len(),
    decreases lex_bytes_left(s), lex_blocks_left(s),
{
    lemma_lex_step(s);
    match lex_step(s) {
        Err(_) => {},
        Ok(t) => {
            if t.token.kind != TokenKind::EOF {
                lemma_lex_from(t);
            }
        },
    }
}

} // verus!
