//! The vocabulary the tokenizer produces and the parser consumes.

use vstd::prelude::*;

verus! {

/// Which token a [`Token`] is, without what it carries.
#[derive(Clone, Copy, Debug, PartialEq, Eq, Structural)]
pub enum TokenKind {
    EQ,
    EQEQ,
    NEQ,
    GT,
    GEQ,
    RSHIFT,
    LT,
    LEQ,
    LSHIFT,
    PLUS,
    MINUS,
    MUL,
    DIV,
    MOD,
    TILDE,
    XOR,
    AMP,
    BAR,
    LPAREN,
    RPAREN,
    LBRACE,
    RBRACE,
    LBRACKET,
    RBRACKET,
    PERIOD,
    COMMA,
    COLON,
    NEWLINE,
    INT,
    FLOAT,
    STRING,
    ID,
    OR,
    AND,
    NOT,
    IS,
    IN,
    NONE,
    BREAK,
    CONTINUE,
    PASS,
    RETURN,
    DEL,
    GLOBAL,
    IF,
    ELIF,
    ELSE,
    FOR,
    WHILE,
    DEF,
    TRUE,
    FALSE,
    EOF,
    INDENT,
    DEDENT,
    EMPTY,
}

/// One token of a program.
///
/// A floating-point literal carries its digits as written; turning them
/// into a binary number is left to whoever evaluates the program.
#[derive(Debug, PartialEq)]
pub enum Token {
    /// `=`
    EQ,
    /// `==`
    EQEQ,
    /// `!=`
    NEQ,
    /// `>`
    GT,
    /// `>=`
    GEQ,
    /// `>>`
    RSHIFT,
    /// `<`
    LT,
    /// `<=`
    LEQ,
    /// `<<`
    LSHIFT,
    /// `+`
    PLUS,
    /// `-`
    MINUS,
    /// `*`
    MUL,
    /// `/`
    DIV,
    /// `%`
    MOD,
    /// `~`
    TILDE,
    /// `^`
    XOR,
    /// `&`
    AMP,
    /// `|`
    BAR,
    /// `(`
    LPAREN,
    /// `)`
    RPAREN,
    /// `{`
    LBRACE,
    /// `}`
    RBRACE,
    /// `[`
    LBRACKET,
    /// `]`
    RBRACKET,
    /// `.`
    PERIOD,
    /// `,`
    COMMA,
    /// `:`
    COLON,
    /// end of a logical line
    NEWLINE,
    /// integer literal
    INT(i64),
    /// floating-point literal, as written
    FLOAT(String),
    /// string literal, without quotes and escapes
    STRING(String),
    /// identifier
    ID(String),
    /// `or`
    OR,
    /// `and`
    AND,
    /// `not`
    NOT,
    /// `is`
    IS,
    /// `in`
    IN,
    /// `None`
    NONE,
    /// `break`
    BREAK,
    /// `continue`
    CONTINUE,
    /// `pass`
    PASS,
    /// `return`
    RETURN,
    /// `del`
    DEL,
    /// `global`
    GLOBAL,
    /// `if`
    IF,
    /// `elif`
    ELIF,
    /// `else`
    ELSE,
    /// `for`
    FOR,
    /// `while`
    WHILE,
    /// `def`
    DEF,
    /// `True`
    TRUE,
    /// `False`
    FALSE,
    /// end of input
    EOF,
    /// a block opens
    INDENT,
    /// a block closes
    DEDENT,
    /// before the first token
    EMPTY,
}

/// A token as contracts see it: its kind, the text it carries and the
/// number it carries. Text is empty and the number is zero where the kind
/// carries none.
pub struct TokenView {
    pub kind: TokenKind,
    pub text: Seq<char>,
    pub number: int,
}

/// The view of a token that carries nothing.
pub open spec fn plain_token(kind: TokenKind) -> TokenView {
    TokenView { kind, text: Seq::empty(), number: 0 }
}

/// The view of a token that carries text.
pub open spec fn text_token(kind: TokenKind, text: Seq<char>) -> TokenView {
    TokenView { kind, text, number: 0 }
}

/// The view of an integer literal.
pub open spec fn int_token(number: int) -> TokenView {
    TokenView { kind: TokenKind::INT, text: Seq::empty(), number }
}

impl Token {
    pub open spec fn spec_kind(&self) -> TokenKind {
        match self {
            Token::EQ => TokenKind::EQ,
            Token::EQEQ => TokenKind::EQEQ,
            Token::NEQ => TokenKind::NEQ,
            Token::GT => TokenKind::GT,
            Token::GEQ => TokenKind::GEQ,
            Token::RSHIFT => TokenKind::RSHIFT,
            Token::LT => TokenKind::LT,
            Token::LEQ => TokenKind::LEQ,
            Token::LSHIFT => TokenKind::LSHIFT,
            Token::PLUS => TokenKind::PLUS,
            Token::MINUS => TokenKind::MINUS,
            Token::MUL => TokenKind::MUL,
            Token::DIV => TokenKind::DIV,
            Token::MOD => TokenKind::MOD,
            Token::TILDE => TokenKind::TILDE,
            Token::XOR => TokenKind::XOR,
            Token::AMP => TokenKind::AMP,
            Token::BAR => TokenKind::BAR,
            Token::LPAREN => TokenKind::LPAREN,
            Token::RPAREN => TokenKind::RPAREN,
            Token::LBRACE => TokenKind::LBRACE,
            Token::RBRACE => TokenKind::RBRACE,
            Token::LBRACKET => TokenKind::LBRACKET,
            Token::RBRACKET => TokenKind::RBRACKET,
            Token::PERIOD => TokenKind::PERIOD,
            Token::COMMA => TokenKind::COMMA,
            Token::COLON => TokenKind::COLON,
            Token::NEWLINE => TokenKind::NEWLINE,
            Token::INT(_) => TokenKind::INT,
            Token::FLOAT(_) => TokenKind::FLOAT,
            Token::STRING(_) => TokenKind::STRING,
            Token::ID(_) => TokenKind::ID,
            Token::OR => TokenKind::OR,
            Token::AND => TokenKind::AND,
            Token::NOT => TokenKind::NOT,
            Token::IS => TokenKind::IS,
            Token::IN => TokenKind::IN,
            Token::NONE => TokenKind::NONE,
            Token::BREAK => TokenKind::BREAK,
            Token::CONTINUE => TokenKind::CONTINUE,
            Token::PASS => TokenKind::PASS,
            Token::RETURN => TokenKind::RETURN,
            Token::DEL => TokenKind::DEL,
            Token::GLOBAL => TokenKind::GLOBAL,
            Token::IF => TokenKind::IF,
            Token::ELIF => TokenKind::ELIF,
            Token::ELSE => TokenKind::ELSE,
            Token::FOR => TokenKind::FOR,
            Token::WHILE => TokenKind::WHILE,
            Token::DEF => TokenKind::DEF,
            Token::TRUE => TokenKind::TRUE,
            Token::FALSE => TokenKind::FALSE,
            Token::EOF => TokenKind::EOF,
            Token::INDENT => TokenKind::INDENT,
            Token::DEDENT => TokenKind::DEDENT,
            Token::EMPTY => TokenKind::EMPTY,
        }
    }

    /// Which token this is.
    pub fn kind(&self) -> (k: TokenKind)
        ensures
            k == self@.kind,
    {
        match self {
            Token::EQ => TokenKind::EQ,
            Token::EQEQ => TokenKind::EQEQ,
            Token::NEQ => TokenKind::NEQ,
            Token::GT => TokenKind::GT,
            Token::GEQ => TokenKind::GEQ,
            Token::RSHIFT => TokenKind::RSHIFT,
            Token::LT => TokenKind::LT,
            Token::LEQ => TokenKind::LEQ,
            Token::LSHIFT => TokenKind::LSHIFT,
            Token::PLUS => TokenKind::PLUS,
            Token::MINUS => TokenKind::MINUS,
            Token::MUL => TokenKind::MUL,
            Token::DIV => TokenKind::DIV,
            Token::MOD => TokenKind::MOD,
            Token::TILDE => TokenKind::TILDE,
            Token::XOR => TokenKind::XOR,
            Token::AMP => TokenKind::AMP,
            Token::BAR => TokenKind::BAR,
            Token::LPAREN => TokenKind::LPAREN,
            Token::RPAREN => TokenKind::RPAREN,
            Token::LBRACE => TokenKind::LBRACE,
            Token::RBRACE => TokenKind::RBRACE,
            Token::LBRACKET => TokenKind::LBRACKET,
            Token::RBRACKET => TokenKind::RBRACKET,
            Token::PERIOD => TokenKind::PERIOD,
            Token::COMMA => TokenKind::COMMA,
            Token::COLON => TokenKind::COLON,
            Token::NEWLINE => TokenKind::NEWLINE,
            Token::INT(_) => TokenKind::INT,
            Token::FLOAT(_) => TokenKind::FLOAT,
            Token::STRING(_) => TokenKind::STRING,
            Token::ID(_) => TokenKind::ID,
            Token::OR => TokenKind::OR,
            Token::AND => TokenKind::AND,
            Token::NOT => TokenKind::NOT,
            Token::IS => TokenKind::IS,
            Token::IN => TokenKind::IN,
            Token::NONE => TokenKind::NONE,
            Token::BREAK => TokenKind::BREAK,
            Token::CONTINUE => TokenKind::CONTINUE,
            Token::PASS => TokenKind::PASS,
            Token::RETURN => TokenKind::RETURN,
            Token::DEL => TokenKind::DEL,
            Token::GLOBAL => TokenKind::GLOBAL,
            Token::IF => TokenKind::IF,
            Token::ELIF => TokenKind::ELIF,
            Token::ELSE => TokenKind::ELSE,
            Token::FOR => TokenKind::FOR,
            Token::WHILE => TokenKind::WHILE,
            Token::DEF => TokenKind::DEF,
            Token::TRUE => TokenKind::TRUE,
            Token::FALSE => TokenKind::FALSE,
            Token::EOF => TokenKind::EOF,
            Token::INDENT => TokenKind::INDENT,
            Token::DEDENT => TokenKind::DEDENT,
            Token::EMPTY => TokenKind::EMPTY,
        }
    }

    /// An owned copy of this token.
    pub fn duplicate(&self) -> (t: Token)
        ensures
            t@ == self@,
    {
        match self {
            Token::EQ => Token::EQ,
            Token::EQEQ => Token::EQEQ,
            Token::NEQ => Token::NEQ,
            Token::GT => Token::GT,
            Token::GEQ => Token::GEQ,
            Token::RSHIFT => Token::RSHIFT,
            Token::LT => Token::LT,
            Token::LEQ => Token::LEQ,
            Token::LSHIFT => Token::LSHIFT,
            Token::PLUS => Token::PLUS,
            Token::MINUS => Token::MINUS,
            Token::MUL => Token::MUL,
            Token::DIV => Token::DIV,
            Token::MOD => Token::MOD,
            Token::TILDE => Token::TILDE,
            Token::XOR => Token::XOR,
            Token::AMP => Token::AMP,
            Token::BAR => Token::BAR,
            Token::LPAREN => Token::LPAREN,
            Token::RPAREN => Token::RPAREN,
            Token::LBRACE => Token::LBRACE,
            Token::RBRACE => Token::RBRACE,
            Token::LBRACKET => Token::LBRACKET,
            Token::RBRACKET => Token::RBRACKET,
            Token::PERIOD => Token::PERIOD,
            Token::COMMA => Token::COMMA,
            Token::COLON => Token::COLON,
            Token::NEWLINE => Token::NEWLINE,
            Token::INT(n) => Token::INT(*n),
            Token::FLOAT(s) => Token::FLOAT(s.clone()),
            Token::STRING(s) => Token::STRING(s.clone()),
            Token::ID(s) => Token::ID(s.clone()),
            Token::OR => Token::OR,
            Token::AND => Token::AND,
            Token::NOT => Token::NOT,
            Token::IS => Token::IS,
            Token::IN => Token::IN,
            Token::NONE => Token::NONE,
            Token::BREAK => Token::BREAK,
            Token::CONTINUE => Token::CONTINUE,
            Token::PASS => Token::PASS,
            Token::RETURN => Token::RETURN,
            Token::DEL => Token::DEL,
            Token::GLOBAL => Token::GLOBAL,
            Token::IF => Token::IF,
            Token::ELIF => Token::ELIF,
            Token::ELSE => Token::ELSE,
            Token::FOR => Token::FOR,
            Token::WHILE => Token::WHILE,
            Token::DEF => Token::DEF,
            Token::TRUE => Token::TRUE,
            Token::FALSE => Token::FALSE,
            Token::EOF => Token::EOF,
            Token::INDENT => Token::INDENT,
            Token::DEDENT => Token::DEDENT,
            Token::EMPTY => Token::EMPTY,
        }
    }
}

impl View for Token {
    type V = TokenView;

    open spec fn view(&self) -> TokenView {
        TokenView {
            kind: self.spec_kind(),
            text: match self {
                Token::FLOAT(s) => s@,
                Token::STRING(s) => s@,
                Token::ID(s) => s@,
                _ => Seq::empty(),
            },
            number: match self {
                Token::INT(n) => *n as int,
                _ => 0,
            },
        }
    }
}

impl Clone for Token {
    fn clone(&self) -> (t: Token)
        ensures
            t@ == self@,
    {
        self.duplicate()
    }
}

/// The views of a run of tokens.
pub open spec fn token_views(tokens: Seq<Token>) -> Seq<TokenView> {
    Seq::new(tokens.len(), |i: int| tokens[i]@)
}

/// Whether two tokens are of one kind and carry the same text and number.
pub fn same_token(a: &Token, b: &Token) -> (r: bool)
    ensures
        r == (a@ == b@),
{
    match (a, b) {
        (Token::INT(x), Token::INT(y)) => *x == *y,
        (Token::FLOAT(x), Token::FLOAT(y)) => *x == *y,
        (Token::STRING(x), Token::STRING(y)) => *x == *y,
        (Token::ID(x), Token::ID(y)) => *x == *y,
        _ => {
            let ka = a.kind();
            let kb = b.kind();
            ka == kb && !carries(ka)
        },
    }
}

/// Whether tokens of this kind carry text or a number.
pub fn carries(kind: TokenKind) -> (r: bool)
    ensures
        r == (kind == TokenKind::INT || kind == TokenKind::FLOAT || kind == TokenKind::STRING
            || kind == TokenKind::ID),
{
    match kind {
        TokenKind::INT | TokenKind::FLOAT | TokenKind::STRING | TokenKind::ID => true,
        _ => false,
    }
}

} // verus!
