//! The codes of the bytes that the tokenizer tells apart.

use vstd::prelude::*;

verus! {

pub const NEWLINE: u8 = 10;

pub const ZERO: u8 = 48;

pub const NINE: u8 = 57;

pub const LOWER_A: u8 = 97;

pub const LOWER_Z: u8 = 122;

pub const UPPER_A: u8 = 65;

pub const UPPER_Z: u8 = 90;

pub const UNDERSCORE: u8 = 95;

pub const HASH: u8 = 35;

pub const SPACE: u8 = 32;

pub const QUOTE: u8 = 34;

pub const BACKSLASH: u8 = 92;

pub const PERIOD: u8 = 46;

pub const EQUALS: u8 = 61;

pub const BANG: u8 = 33;

pub const GREATER: u8 = 62;

pub const LESS: u8 = 60;

pub const PLUS: u8 = 43;

pub const MINUS: u8 = 45;

pub const STAR: u8 = 42;

pub const SLASH: u8 = 47;

pub const PERCENT: u8 = 37;

pub const TILDE: u8 = 126;

pub const CARET: u8 = 94;

pub const AMPERSAND: u8 = 38;

pub const BAR: u8 = 124;

pub const LPAREN: u8 = 40;

pub const RPAREN: u8 = 41;

pub const LBRACE: u8 = 123;

pub const RBRACE: u8 = 125;

pub const LBRACKET: u8 = 91;

pub const RBRACKET: u8 = 93;

pub const COMMA: u8 = 44;

pub const COLON: u8 = 58;

} // verus!
