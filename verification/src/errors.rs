//! The ways in which cutting a program into tokens and parsing it can fail.
//!
//! Every failure is final: nothing in the language can catch it.

use vstd::prelude::*;
use vstd::string::StringExecFns;
use crate::char_stream::{cursor_line, cursor_text};
use crate::eval::builtins::nat_repr;
use crate::eval::floats::{FloatQuery, FloatQueryV};
use crate::eval::native_func::push_nat;
use crate::parser::Parser;
use crate::tokenizer::Tokenizer;

verus! {

/// The flat family of failures that a diagnostic names.
#[derive(Clone, Copy, Debug, PartialEq, Eq, Structural)]
pub enum ErrorKind {
    IndentationError,
    SyntaxError,
    NameError,
    TypeError,
    IndexError,
    ZeroDivisionError,
    RuntimeError,
}

/// What stopped the tokenizer.
#[derive(Clone, Copy, Debug, PartialEq, Eq, Structural)]
pub enum LexError {
    /// A line is indented less than the block it closes, but to a depth that
    /// no enclosing block has.
    UnindentMismatch,
    /// A byte that begins no token, or a `!` that no `=` follows.
    UnexpectedCharacter,
    /// An integer literal of several digits that starts with `0`.
    InvalidToken,
    /// A string literal that its line ends before its closing quote.
    EolInString,
    /// An integer literal beyond the largest signed 64-bit value.
    IntegerOutOfRange,
}

/// What stopped the parser.
#[derive(Clone, Copy, Debug, PartialEq, Eq, Structural)]
pub enum ParseError {
    /// The tokenizer failed where the parser asked for the next token.
    Lex(LexError),
    /// The current token cannot stand where the grammar has arrived.
    UnexpectedToken,
}

impl LexError {
    pub open spec fn spec_kind(self) -> ErrorKind {
        match self {
            LexError::UnindentMismatch => ErrorKind::IndentationError,
            _ => ErrorKind::SyntaxError,
        }
    }

    pub open spec fn spec_message(self) -> Seq<char> {
        match self {
            LexError::UnindentMismatch =>
                "IndentationError: unindent does not match any outer indentation level"@,
            LexError::UnexpectedCharacter => "SyntaxError: unexpected character"@,
            LexError::InvalidToken => "SyntaxError: invalid token"@,
            LexError::EolInString => "SyntaxError: EOL while scanning string literal"@,
            LexError::IntegerOutOfRange => "SyntaxError: integer literal out of range"@,
        }
    }

    /// The family this failure belongs to.
    pub fn kind(self) -> (k: ErrorKind)
        ensures
            k == self.spec_kind(),
    {
        match self {
            LexError::UnindentMismatch => ErrorKind::IndentationError,
            _ => ErrorKind::SyntaxError,
        }
    }

    /// The last line of the diagnostic.
    pub fn message(self) -> (m: &'static str)
        ensures
            m@ == self.spec_message(),
    {
        match self {
            LexError::UnindentMismatch =>
                "IndentationError: unindent does not match any outer indentation level",
            LexError::UnexpectedCharacter => "SyntaxError: unexpected character",
            LexError::InvalidToken => "SyntaxError: invalid token",
            LexError::EolInString => "SyntaxError: EOL while scanning string literal",
            LexError::IntegerOutOfRange => "SyntaxError: integer literal out of range",
        }
    }
}

impl ParseError {
    pub open spec fn spec_kind(self) -> ErrorKind {
        match self {
            ParseError::Lex(e) => e.spec_kind(),
            ParseError::UnexpectedToken => ErrorKind::SyntaxError,
        }
    }

    pub open spec fn spec_message(self) -> Seq<char> {
        match self {
            ParseError::Lex(e) => e.spec_message(),
            ParseError::UnexpectedToken => "SyntaxError: unexpected token"@,
        }
    }

    /// The family this failure belongs to.
    pub fn kind(self) -> (k: ErrorKind)
        ensures
            k == self.spec_kind(),
    {
        match self {
            ParseError::Lex(e) => e.kind(),
            ParseError::UnexpectedToken => ErrorKind::SyntaxError,
        }
    }

    /// The last line of the diagnostic.
    pub fn message(self) -> (m: &'static str)
        ensures
            m@ == self.spec_message(),
    {
        match self {
            ParseError::Lex(e) => e.message(),
            ParseError::UnexpectedToken => "SyntaxError: unexpected token",
        }
    }
}

/// What a `RuntimeError` is about.
#[derive(Clone, Copy, Debug, PartialEq, Eq, Structural)]
pub enum Fault {
    /// The result of an integer operation does not fit in 64 bits, or a
    /// shift is by less than 0 or more than 63 bits.
    Overflow,
    /// `break` or `continue` outside of any loop.
    OutsideLoop,
    /// `return` outside of any function.
    OutsideFunction,
    /// The built-in `__panic__` was called.
    Panic,
    /// A form that parses but has no meaning yet: `del`, slices, starred
    /// expressions, targets other than one name.
    Unimplemented,
    /// A name was declared `global` after it was assigned or read in the
    /// same call.
    GlobalAfterUse,
    /// An assignment to what is neither a name nor a subscript.
    CannotAssign,
    /// Calls are nested deeper, or a loop runs longer, than the limit the
    /// evaluator was given.
    LimitReached,
}

/// What stopped the evaluator.
#[derive(Debug, PartialEq)]
pub enum EvalError {
    /// The name is bound nowhere.
    NameError(String),
    /// An operator or a call was applied to a value of the wrong type, or
    /// to the wrong number of arguments.
    TypeError,
    /// A subscript is out of range.
    IndexError,
    /// An integer was divided by zero.
    ZeroDivisionError,
    RuntimeError(Fault),
    /// Not a failure of the program: the answer to this question about
    /// floats is not among the answers the evaluator was given.
    NeedsFloat(FloatQuery),
}

/// What stopped the evaluator, as contracts see it.
pub enum EvalErrorV {
    NameError(Seq<char>),
    TypeError,
    IndexError,
    ZeroDivisionError,
    RuntimeError(Fault),
    NeedsFloat(FloatQueryV),
}

impl View for EvalError {
    type V = EvalErrorV;

    open spec fn view(&self) -> EvalErrorV {
        match self {
            EvalError::NameError(name) => EvalErrorV::NameError(name@),
            EvalError::TypeError => EvalErrorV::TypeError,
            EvalError::IndexError => EvalErrorV::IndexError,
            EvalError::ZeroDivisionError => EvalErrorV::ZeroDivisionError,
            EvalError::RuntimeError(fault) => EvalErrorV::RuntimeError(*fault),
            EvalError::NeedsFloat(query) => EvalErrorV::NeedsFloat(query@),
        }
    }
}

impl EvalError {
    pub open spec fn spec_kind(self) -> ErrorKind {
        match self {
            EvalError::NameError(_) => ErrorKind::NameError,
            EvalError::TypeError => ErrorKind::TypeError,
            EvalError::IndexError => ErrorKind::IndexError,
            EvalError::ZeroDivisionError => ErrorKind::ZeroDivisionError,
            EvalError::RuntimeError(_) => ErrorKind::RuntimeError,
            EvalError::NeedsFloat(_) => ErrorKind::RuntimeError,
        }
    }

    /// The family this failure belongs to.
    pub fn kind(&self) -> (k: ErrorKind)
        ensures
            k == self.spec_kind(),
    {
        match self {
            EvalError::NameError(_) => ErrorKind::NameError,
            EvalError::TypeError => ErrorKind::TypeError,
            EvalError::IndexError => ErrorKind::IndexError,
            EvalError::ZeroDivisionError => ErrorKind::ZeroDivisionError,
            EvalError::RuntimeError(_) => ErrorKind::RuntimeError,
            EvalError::NeedsFloat(_) => ErrorKind::RuntimeError,
        }
    }
}

impl Fault {
    pub open spec fn spec_message(self) -> Seq<char> {
        match self {
            Fault::Overflow => "RuntimeError: integer out of range"@,
            Fault::OutsideLoop => "RuntimeError: outside loop"@,
            Fault::OutsideFunction => "RuntimeError: outside function"@,
            Fault::Panic => "RuntimeError: panic"@,
            Fault::Unimplemented => "RuntimeError: not implemented"@,
            Fault::GlobalAfterUse => "RuntimeError: name is used before global declaration"@,
            Fault::CannotAssign => "RuntimeError: cannot assign"@,
            Fault::LimitReached => "RuntimeError: limit reached"@,
        }
    }

    /// The last line of the diagnostic.
    pub fn message(self) -> (m: &'static str)
        ensures
            m@ == self.spec_message(),
    {
        match self {
            Fault::Overflow => "RuntimeError: integer out of range",
            Fault::OutsideLoop => "RuntimeError: outside loop",
            Fault::OutsideFunction => "RuntimeError: outside function",
            Fault::Panic => "RuntimeError: panic",
            Fault::Unimplemented => "RuntimeError: not implemented",
            Fault::GlobalAfterUse => "RuntimeError: name is used before global declaration",
            Fault::CannotAssign => "RuntimeError: cannot assign",
            Fault::LimitReached => "RuntimeError: limit reached",
        }
    }
}

/// A run of `n` spaces.
pub open spec fn spaces(n: nat) -> Seq<char> {
    Seq::new(n, |i: int| ' ')
}

/// The text of a diagnostic: the file and the line, the line as far as it
/// was read, a caret behind its end, and the message.
pub open spec fn diagnostic_text(
    file_name: Seq<char>,
    line: nat,
    content: Seq<char>,
    message: Seq<char>,
) -> Seq<char> {
    "File "@ + file_name + ", line "@ + nat_repr(line) + seq!['\n'] + content + seq!['\n'] + spaces(
        content.len(),
    ) + seq!['^', '\n'] + message
}

/// The text of a diagnostic.
pub fn diagnostic(file_name: &str, line: usize, content: &str, message: &str) -> (text: String)
    ensures
        text@ == diagnostic_text(file_name@, line as nat, content@, message@),
{
    let mut text = String::new();
    text.append("File ");
    text.append(file_name);
    text.append(", line ");
    push_nat(&mut text, line as u64);
    text.push('\n');
    text.append(content);
    text.push('\n');
    let ghost front = text@;
    let n = content.unicode_len();
    let mut i: usize = 0;
    while i < n
        invariant
            i <= n,
            n == content@.len(),
            text@ == front + spaces(i as nat),
        decreases n - i,
    {
        text.push(' ');
        proof {
            assert(front + spaces((i + 1) as nat) =~= (front + spaces(i as nat)).push(' '));
        }
        i = i + 1;
    }
    text.push('^');
    text.push('\n');
    text.append(message);
    proof {
        assert(text@ =~= diagnostic_text(file_name@, line as nat, content@, message@));
    }
    text
}

/// The diagnostic of a tokenizer that stopped with `error`.
pub fn lex_diagnostic(tokenizer: &Tokenizer, error: LexError) -> (text: String)
    requires
        tokenizer.wf(),
    ensures
        text@ == diagnostic_text(
            tokenizer.name(),
            cursor_line(tokenizer@.src, tokenizer.cursor()),
            cursor_text(tokenizer@.src, tokenizer.cursor()),
            error.spec_message(),
        ),
{
    diagnostic(
        tokenizer.get_file_name().as_str(),
        tokenizer.get_current_line(),
        tokenizer.get_current_line_content().as_str(),
        error.message(),
    )
}

/// The diagnostic of a tokenizer that met a line whose indentation closes
/// no block.
pub fn wrong_indent(tokenizer: &Tokenizer) -> (text: String)
    requires
        tokenizer.wf(),
    ensures
        text@ == diagnostic_text(
            tokenizer.name(),
            cursor_line(tokenizer@.src, tokenizer.cursor()),
            cursor_text(tokenizer@.src, tokenizer.cursor()),
            LexError::UnindentMismatch.spec_message(),
        ),
{
    lex_diagnostic(tokenizer, LexError::UnindentMismatch)
}

/// The diagnostic of a tokenizer that met an integer literal with a
/// leading zero.
pub fn invalid_token(tokenizer: &Tokenizer) -> (text: String)
    requires
        tokenizer.wf(),
    ensures
        text@ == diagnostic_text(
            tokenizer.name(),
            cursor_line(tokenizer@.src, tokenizer.cursor()),
            cursor_text(tokenizer@.src, tokenizer.cursor()),
            LexError::InvalidToken.spec_message(),
        ),
{
    lex_diagnostic(tokenizer, LexError::InvalidToken)
}

/// The diagnostic of a tokenizer that met the end of a line inside a
/// string literal.
pub fn eol_while_string(tokenizer: &Tokenizer) -> (text: String)
    requires
        tokenizer.wf(),
    ensures
        text@ == diagnostic_text(
            tokenizer.name(),
            cursor_line(tokenizer@.src, tokenizer.cursor()),
            cursor_text(tokenizer@.src, tokenizer.cursor()),
            LexError::EolInString.spec_message(),
        ),
{
    lex_diagnostic(tokenizer, LexError::EolInString)
}

/// The diagnostic of a tokenizer that met a byte that begins no token.
pub fn invalid_syntax(tokenizer: &Tokenizer) -> (text: String)
    requires
        tokenizer.wf(),
    ensures
        text@ == diagnostic_text(
            tokenizer.name(),
            cursor_line(tokenizer@.src, tokenizer.cursor()),
            cursor_text(tokenizer@.src, tokenizer.cursor()),
            LexError::UnexpectedCharacter.spec_message(),
        ),
{
    lex_diagnostic(tokenizer, LexError::UnexpectedCharacter)
}

/// The diagnostic of a parser that stopped with `error` at its current
/// token.
pub fn parse_diagnostic(parser: &Parser, error: ParseError) -> (text: String)
    requires
        parser.wf(),
    ensures
        text@ == diagnostic_text(
            parser.name(),
            cursor_line(parser.source(), parser.mark()),
            cursor_text(parser.source(), parser.mark()),
            error.spec_message(),
        ),
{
    let content = parser.get_current_line_content();
    diagnostic(
        parser.get_file_name().as_str(),
        parser.get_current_line(),
        content.as_str(),
        error.message(),
    )
}

/// The diagnostic of a parser whose current token cannot stand where the
/// grammar has arrived.
pub fn unexpected_token(parser: &Parser) -> (text: String)
    requires
        parser.wf(),
    ensures
        text@ == diagnostic_text(
            parser.name(),
            cursor_line(parser.source(), parser.mark()),
            cursor_text(parser.source(), parser.mark()),
            ParseError::UnexpectedToken.spec_message(),
        ),
{
    parse_diagnostic(parser, ParseError::UnexpectedToken)
}

/// The message for a name that is bound nowhere.
pub fn name_error(name: &String) -> (text: String)
    ensures
        text@ == "Name Error: "@ + name@ + " is not defined"@,
{
    let mut text = String::new();
    text.append("Name Error: ");
    text.append(name.as_str());
    text.append(" is not defined");
    proof {
        assert(text@ =~= "Name Error: "@ + name@ + " is not defined"@);
    }
    text
}

impl EvalError {
    pub open spec fn spec_message(self) -> Seq<char> {
        match self {
            EvalError::NameError(name) => "Name Error: "@ + name@ + " is not defined"@,
            EvalError::TypeError => "TypeError: unsupported operand or argument"@,
            EvalError::IndexError => "IndexError: index out of range"@,
            EvalError::ZeroDivisionError => "ZeroDivisionError: division by zero"@,
            EvalError::RuntimeError(fault) => fault.spec_message(),
            EvalError::NeedsFloat(_) => "RuntimeError: a float operation was left unanswered"@,
        }
    }

    /// The last line of the diagnostic.
    pub fn message(&self) -> (text: String)
        ensures
            text@ == self.spec_message(),
    {
        match self {
            EvalError::NameError(name) => name_error(name),
            EvalError::TypeError => "TypeError: unsupported operand or argument".to_owned(),
            EvalError::IndexError => "IndexError: index out of range".to_owned(),
            EvalError::ZeroDivisionError => "ZeroDivisionError: division by zero".to_owned(),
            EvalError::RuntimeError(fault) => fault.message().to_owned(),
            EvalError::NeedsFloat(_) => "RuntimeError: a float operation was left unanswered".to_owned(),
        }
    }
}

} // verus!
