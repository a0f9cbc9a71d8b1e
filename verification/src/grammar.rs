//! The grammar, as functions from a run of tokens and a position in it to
//! a piece of syntax tree and the position behind it.
//!
//! Every function looks at the token at the position, decides by it which
//! form stands there, and fails with `UnexpectedToken` where none does. No
//! function looks back. Lists take an optional comma at their end.
//!
//! The functions that call each other in a circle are opaque. Each has a
//! lemma `unfold_...` that states its body, so that a proof unfolds only the
//! steps it names.

use vstd::prelude::*;
use crate::ast::{ASTBoolOp, ASTCmpOp, ASTOperator, ASTUnaryOp, ConstantV, ExprV, SliceV, StmtV};
use crate::errors::ParseError;
use crate::lexing::Lexed;
use crate::token::{TokenKind, TokenView};

verus! {

/// A piece of tree and the position behind it, or a failure.
pub type Parsed<T> = Result<(T, int), ParseError>;

/// The kind of the token at position `p`; `EMPTY` out of range.
pub open spec fn kind_at(lx: Lexed, p: int) -> TokenKind {
    if 0 <= p < lx.tokens.len() {
        lx.tokens[p].kind
    } else {
        TokenKind::EMPTY
    }
}

/// How many tokens stand at and behind position `p`.
pub open spec fn tokens_left(lx: Lexed, p: int) -> nat {
    if p <= lx.tokens.len() {
        (lx.tokens.len() - p) as nat
    } else {
        0
    }
}

/// The failure of a run of tokens that holds no token where one is asked
/// for: that of the tokenizer, if it failed.
pub open spec fn stream_error(lx: Lexed) -> ParseError {
    match lx.error {
        Some(e) => ParseError::Lex(e),
        None => ParseError::UnexpectedToken,
    }
}

/// The position behind the token at `p`. The tokenizer's failure comes up
/// here, at the step onto the token that it could not produce.
pub open spec fn advance(lx: Lexed, p: int) -> Result<int, ParseError> {
    if 0 <= p && p + 1 < lx.tokens.len() {
        Ok(p + 1)
    } else {
        Err(stream_error(lx))
    }
}

/// Steps over the token at `p` if it is of `kind`.
pub open spec fn eat(lx: Lexed, p: int, kind: TokenKind) -> Result<int, ParseError> {
    if kind_at(lx, p) == kind {
        advance(lx, p)
    } else {
        Err(ParseError::UnexpectedToken)
    }
}

/// A result with its position moved up to `p` if it lies in front of `p`.
/// It lets the recursion of the grammar be seen to end, and changes none of
/// its results: the module `progress` proves that no function of the
/// grammar returns a position in front of the one it was given.
pub open spec fn forward<T>(p: int, r: Parsed<T>) -> Parsed<T> {
    match r {
        Ok((v, q)) => Ok(
            (
                v,
                if q < p {
                    p
                } else {
                    q
                },
            ),
        ),
        Err(e) => Err(e),
    }
}

/// The tokens that can begin an expression without `not`.
#[verifier::opaque]
pub open spec fn starts_expr(k: TokenKind) -> bool {
    k == TokenKind::PLUS || k == TokenKind::MINUS || k == TokenKind::TILDE || k
        == TokenKind::LPAREN || k == TokenKind::LBRACE || k == TokenKind::LBRACKET || k
        == TokenKind::ID || k == TokenKind::INT || k == TokenKind::FLOAT || k == TokenKind::STRING
        || k == TokenKind::NONE || k == TokenKind::TRUE || k == TokenKind::FALSE
}

/// The tokens that can begin a test.
#[verifier::opaque]
pub open spec fn starts_test(k: TokenKind) -> bool {
    k == TokenKind::NOT || starts_expr(k)
}

/// The tokens that can begin a comparison operator.
#[verifier::opaque]
pub open spec fn starts_comp_op(k: TokenKind) -> bool {
    k == TokenKind::LT || k == TokenKind::GT || k == TokenKind::EQEQ || k == TokenKind::GEQ || k
        == TokenKind::LEQ || k == TokenKind::NEQ || k == TokenKind::IN || k == TokenKind::NOT || k
        == TokenKind::IS
}

/// The binary operator that a token is on a level of precedence. Level 0
/// binds loosest: `|`, then `^`, `&`, the shifts, `+ -`, and `* / %` on
/// level 5.
#[verifier::opaque]
pub open spec fn binary_op(level: nat, k: TokenKind) -> Option<ASTOperator> {
    if level == 0 && k == TokenKind::BAR {
        Some(ASTOperator::BitOr)
    } else if level == 1 && k == TokenKind::XOR {
        Some(ASTOperator::BitXor)
    } else if level == 2 && k == TokenKind::AMP {
        Some(ASTOperator::BitAnd)
    } else if level == 3 && k == TokenKind::LSHIFT {
        Some(ASTOperator::LShift)
    } else if level == 3 && k == TokenKind::RSHIFT {
        Some(ASTOperator::RShift)
    } else if level == 4 && k == TokenKind::PLUS {
        Some(ASTOperator::Add)
    } else if level == 4 && k == TokenKind::MINUS {
        Some(ASTOperator::Sub)
    } else if level == 5 && k == TokenKind::MUL {
        Some(ASTOperator::Mul)
    } else if level == 5 && k == TokenKind::DIV {
        Some(ASTOperator::Div)
    } else if level == 5 && k == TokenKind::MOD {
        Some(ASTOperator::Mod)
    } else {
        None
    }
}

/// The unary operator that a token is in front of a factor.
#[verifier::opaque]
pub open spec fn prefix_op(k: TokenKind) -> Option<ASTUnaryOp> {
    if k == TokenKind::PLUS {
        Some(ASTUnaryOp::UAdd)
    } else if k == TokenKind::MINUS {
        Some(ASTUnaryOp::USub)
    } else if k == TokenKind::TILDE {
        Some(ASTUnaryOp::Invert)
    } else {
        None
    }
}

/// The one element of a list of one, the tuple of a longer list.
pub open spec fn single_or_tuple(elts: Seq<ExprV>) -> ExprV {
    if elts.len() == 1 {
        elts[0]
    } else {
        ExprV::Tuple(elts)
    }
}

/// The one operand of a chain of one, the connective over a longer chain.
pub open spec fn single_or_bool(op: ASTBoolOp, operands: Seq<ExprV>) -> ExprV {
    if operands.len() == 1 {
        operands[0]
    } else {
        ExprV::BoolOp(op, operands)
    }
}

/// What stands between parentheses: one element without a comma behind it
/// is that element; anything else is a tuple.
pub open spec fn parenthesized(elts: Seq<ExprV>, trailing_comma: bool) -> ExprV {
    if elts.len() == 1 && !trailing_comma {
        elts[0]
    } else {
        ExprV::Tuple(elts)
    }
}

/// An identifier, and the position behind it.
pub open spec fn g_id(lx: Lexed, p: int) -> Parsed<Seq<char>> {
    if kind_at(lx, p) == TokenKind::ID {
        match advance(lx, p) {
            Ok(p1) => Ok((lx.tokens[p].text, p1)),
            Err(e) => Err(e),
        }
    } else {
        Err(ParseError::UnexpectedToken)
    }
}

/// `atom := '(' [list] ')' | '[' [list] ']' | '{' dictorsetmaker '}' | NAME
/// | INT | FLOAT | STRING | 'None' | 'True' | 'False'`
#[verifier::opaque]
pub open spec fn g_atom(lx: Lexed, p: int) -> Parsed<ExprV>
    decreases tokens_left(lx, p), 10nat,
{
    let k = kind_at(lx, p);
    if k == TokenKind::LPAREN || k == TokenKind::LBRACKET {
        let close = if k == TokenKind::LPAREN {
            TokenKind::RPAREN
        } else {
            TokenKind::RBRACKET
        };
        match advance(lx, p) {
            Err(e) => Err(e),
            Ok(p1) => if starts_test(kind_at(lx, p1)) {
                match forward(p1, g_list(lx, p1, true)) {
                    Err(e) => Err(e),
                    Ok((found, p2)) => match eat(lx, p2, close) {
                        Err(e) => Err(e),
                        Ok(p3) => Ok(
                            (
                                if k == TokenKind::LPAREN {
                                    parenthesized(found.0, found.1)
                                } else {
                                    ExprV::List(found.0)
                                },
                                p3,
                            ),
                        ),
                    },
                }
            } else {
                match eat(lx, p1, close) {
                    Err(e) => Err(e),
                    Ok(p2) => Ok(
                        (
                            if k == TokenKind::LPAREN {
                                ExprV::Tuple(Seq::empty())
                            } else {
                                ExprV::List(Seq::empty())
                            },
                            p2,
                        ),
                    ),
                }
            },
        }
    } else if k == TokenKind::LBRACE {
        match advance(lx, p) {
            Err(e) => Err(e),
            Ok(p1) => match forward(p1, g_dictorsetmaker(lx, p1)) {
                Err(e) => Err(e),
                Ok((made, p2)) => match eat(lx, p2, TokenKind::RBRACE) {
                    Err(e) => Err(e),
                    Ok(p3) => Ok((made, p3)),
                },
            },
        }
    } else if k == TokenKind::ID || k == TokenKind::INT || k == TokenKind::FLOAT || k
        == TokenKind::STRING || k == TokenKind::NONE || k == TokenKind::TRUE || k
        == TokenKind::FALSE {
        match advance(lx, p) {
            Err(e) => Err(e),
            Ok(p1) => Ok((leaf(lx.tokens[p]), p1)),
        }
    } else {
        Err(ParseError::UnexpectedToken)
    }
}

/// The expression that a single token is: a name or a constant.
#[verifier::opaque]
pub open spec fn leaf(t: TokenView) -> ExprV {
    if t.kind == TokenKind::ID {
        ExprV::Name(t.text)
    } else if t.kind == TokenKind::INT {
        ExprV::Constant(ConstantV::Int(t.number))
    } else if t.kind == TokenKind::FLOAT {
        ExprV::Constant(ConstantV::Float(t.text))
    } else if t.kind == TokenKind::STRING {
        ExprV::Constant(ConstantV::String(t.text))
    } else if t.kind == TokenKind::TRUE {
        ExprV::Constant(ConstantV::True)
    } else if t.kind == TokenKind::FALSE {
        ExprV::Constant(ConstantV::False)
    } else {
        ExprV::Constant(ConstantV::NoneValue)
    }
}

/// `dictorsetmaker := test ':' test (',' test ':' test)* [','] | test (','
/// test)* [',']`
#[verifier::opaque]
pub open spec fn g_dictorsetmaker(lx: Lexed, p: int) -> Parsed<ExprV>
    decreases tokens_left(lx, p), 76nat,
{
    match forward(p, g_test(lx, p)) {
        Err(e) => Err(e),
        Ok((first, p1)) => if kind_at(lx, p1) == TokenKind::COLON {
            match advance(lx, p1) {
                Err(e) => Err(e),
                Ok(p2) => match forward(p2, g_test(lx, p2)) {
                    Err(e) => Err(e),
                    Ok((value, p3)) => g_dict_rest(lx, p3, seq![first], seq![value]),
                },
            }
        } else {
            match g_list_rest(lx, p1, true, seq![first]) {
                Err(e) => Err(e),
                Ok((found, p2)) => Ok((ExprV::SetDisplay(found.0), p2)),
            }
        },
    }
}

/// The pairs of a dict display behind the first.
#[verifier::opaque]
pub open spec fn g_dict_rest(lx: Lexed, p: int, keys: Seq<ExprV>, values: Seq<ExprV>) -> Parsed<
    ExprV,
>
    decreases tokens_left(lx, p), 5nat,
{
    if kind_at(lx, p) == TokenKind::COMMA {
        match advance(lx, p) {
            Err(e) => Err(e),
            Ok(p1) => if starts_test(kind_at(lx, p1)) {
                match forward(p1, g_test(lx, p1)) {
                    Err(e) => Err(e),
                    Ok((key, p2)) => match eat(lx, p2, TokenKind::COLON) {
                        Err(e) => Err(e),
                        Ok(p3) => match forward(p3, g_test(lx, p3)) {
                            Err(e) => Err(e),
                            Ok((value, p4)) => g_dict_rest(
                                lx,
                                p4,
                                keys.push(key),
                                values.push(value),
                            ),
                        },
                    },
                }
            } else {
                Ok((ExprV::Dict(keys, values), p1))
            },
        }
    } else {
        Ok((ExprV::Dict(keys, values), p))
    }
}

/// One element of a list: a test, or an expression without `not`.
#[verifier::opaque]
pub open spec fn g_elem(lx: Lexed, p: int, of_tests: bool) -> Parsed<ExprV>
    decreases tokens_left(lx, p), 72nat,
{
    if of_tests {
        g_test(lx, p)
    } else {
        g_binary(lx, p, 0)
    }
}

/// `list := elem (',' elem)* [',']`, with whether a comma ends it.
#[verifier::opaque]
pub open spec fn g_list(lx: Lexed, p: int, of_tests: bool) -> Parsed<(Seq<ExprV>, bool)>
    decreases tokens_left(lx, p), 74nat,
{
    match forward(p, g_elem(lx, p, of_tests)) {
        Err(e) => Err(e),
        Ok((first, p1)) => g_list_rest(lx, p1, of_tests, seq![first]),
    }
}

/// The elements of a list behind those in `acc`.
#[verifier::opaque]
pub open spec fn g_list_rest(lx: Lexed, p: int, of_tests: bool, acc: Seq<ExprV>) -> Parsed<
    (Seq<ExprV>, bool),
>
    decreases tokens_left(lx, p), 5nat,
{
    if kind_at(lx, p) == TokenKind::COMMA {
        match advance(lx, p) {
            Err(e) => Err(e),
            Ok(p1) => if (of_tests && starts_test(kind_at(lx, p1))) || (!of_tests && starts_expr(
                kind_at(lx, p1),
            )) {
                match forward(p1, g_elem(lx, p1, of_tests)) {
                    Err(e) => Err(e),
                    Ok((next, p2)) => g_list_rest(lx, p2, of_tests, acc.push(next)),
                }
            } else {
                Ok(((acc, true), p1))
            },
        }
    } else {
        Ok(((acc, false), p))
    }
}

/// `arglist := [list]`, in front of a closing parenthesis.
#[verifier::opaque]
pub open spec fn g_arglist(lx: Lexed, p: int) -> Parsed<Seq<ExprV>>
    decreases tokens_left(lx, p), 76nat,
{
    if kind_at(lx, p) == TokenKind::RPAREN {
        Ok((Seq::empty(), p))
    } else {
        match g_list(lx, p, true) {
            Err(e) => Err(e),
            Ok((found, p1)) => Ok((found.0, p1)),
        }
    }
}

/// `subscript := test | [test] ':' [test] [':' [test]]`
#[verifier::opaque]
pub open spec fn g_subscript(lx: Lexed, p: int) -> Parsed<SliceV>
    decreases tokens_left(lx, p), 76nat,
{
    if starts_test(kind_at(lx, p)) {
        match forward(p, g_test(lx, p)) {
            Err(e) => Err(e),
            Ok((lower, p1)) => if kind_at(lx, p1) == TokenKind::COLON {
                match advance(lx, p1) {
                    Err(e) => Err(e),
                    Ok(p2) => g_slice_tail(lx, p2, Some(Box::new(lower))),
                }
            } else {
                Ok((SliceV::Index(Box::new(lower)), p1))
            },
        }
    } else if kind_at(lx, p) == TokenKind::COLON {
        match advance(lx, p) {
            Err(e) => Err(e),
            Ok(p1) => g_slice_tail(lx, p1, None),
        }
    } else {
        Err(ParseError::UnexpectedToken)
    }
}

/// An optional test: the test at `p` if one begins there.
#[verifier::opaque]
pub open spec fn g_opt_test(lx: Lexed, p: int) -> Parsed<Option<Box<ExprV>>>
    decreases tokens_left(lx, p), 72nat,
{
    if starts_test(kind_at(lx, p)) {
        match g_test(lx, p) {
            Err(e) => Err(e),
            Ok((found, p1)) => Ok((Some(Box::new(found)), p1)),
        }
    } else {
        Ok((None, p))
    }
}

/// What follows the first colon of a slice.
#[verifier::opaque]
pub open spec fn g_slice_tail(lx: Lexed, p: int, lower: Option<Box<ExprV>>) -> Parsed<SliceV>
    decreases tokens_left(lx, p), 74nat,
{
    match forward(p, g_opt_test(lx, p)) {
        Err(e) => Err(e),
        Ok((upper, p1)) => if kind_at(lx, p1) == TokenKind::COLON {
            match advance(lx, p1) {
                Err(e) => Err(e),
                Ok(p2) => match g_opt_test(lx, p2) {
                    Err(e) => Err(e),
                    Ok((step, p3)) => Ok((SliceV::Slice(lower, upper, step), p3)),
                },
            }
        } else {
            Ok((SliceV::Slice(lower, upper, None), p1))
        },
    }
}

/// The calls and subscripts behind an atom, each wrapped around what
/// stands in front of it.
#[verifier::opaque]
pub open spec fn g_trailers(lx: Lexed, p: int, inner: ExprV) -> Parsed<ExprV>
    decreases tokens_left(lx, p), 5nat,
{
    if kind_at(lx, p) == TokenKind::LPAREN {
        match advance(lx, p) {
            Err(e) => Err(e),
            Ok(p1) => match forward(p1, g_arglist(lx, p1)) {
                Err(e) => Err(e),
                Ok((args, p2)) => match eat(lx, p2, TokenKind::RPAREN) {
                    Err(e) => Err(e),
                    Ok(p3) => g_trailers(lx, p3, ExprV::Call(Box::new(inner), args)),
                },
            },
        }
    } else if kind_at(lx, p) == TokenKind::LBRACKET {
        match advance(lx, p) {
            Err(e) => Err(e),
            Ok(p1) => match forward(p1, g_subscript(lx, p1)) {
                Err(e) => Err(e),
                Ok((slice, p2)) => match eat(lx, p2, TokenKind::RBRACKET) {
                    Err(e) => Err(e),
                    Ok(p3) => g_trailers(lx, p3, ExprV::Subscript(Box::new(inner), slice)),
                },
            },
        }
    } else {
        Ok((inner, p))
    }
}

/// `atom_expr := atom trailer*`
#[verifier::opaque]
pub open spec fn g_atom_expr(lx: Lexed, p: int) -> Parsed<ExprV>
    decreases tokens_left(lx, p), 12nat,
{
    match forward(p, g_atom(lx, p)) {
        Err(e) => Err(e),
        Ok((atom, p1)) => g_trailers(lx, p1, atom),
    }
}

/// `factor := ('+'|'-'|'~') factor | atom_expr`
#[verifier::opaque]
pub open spec fn g_factor(lx: Lexed, p: int) -> Parsed<ExprV>
    decreases tokens_left(lx, p), 14nat,
{
    match prefix_op(kind_at(lx, p)) {
        Some(op) => match advance(lx, p) {
            Err(e) => Err(e),
            Ok(p1) => match g_factor(lx, p1) {
                Err(e) => Err(e),
                Ok((operand, p2)) => Ok((ExprV::UnaryOp(op, Box::new(operand)), p2)),
            },
        },
        None => g_atom_expr(lx, p),
    }
}

/// The binary operators of one level and all tighter ones, each level
/// grouping to the left: `level(n) := level(n+1) (op(n) level(n+1))*`.
#[verifier::opaque]
pub open spec fn g_binary(lx: Lexed, p: int, level: nat) -> Parsed<ExprV>
    decreases tokens_left(lx, p),
        (if level >= 6 {
            28nat
        } else {
            (40 - 2 * level) as nat
        }),
{
    if level >= 6 {
        g_factor(lx, p)
    } else {
        match forward(p, g_binary(lx, p, level + 1)) {
            Err(e) => Err(e),
            Ok((left, p1)) => g_binary_rest(lx, p1, level, left),
        }
    }
}

/// The operators and operands of a level behind `left`.
#[verifier::opaque]
pub open spec fn g_binary_rest(lx: Lexed, p: int, level: nat, left: ExprV) -> Parsed<ExprV>
    decreases tokens_left(lx, p), 5nat,
{
    match binary_op(level, kind_at(lx, p)) {
        Some(op) => match advance(lx, p) {
            Err(e) => Err(e),
            Ok(p1) => match forward(p1, g_binary(lx, p1, level + 1)) {
                Err(e) => Err(e),
                Ok((right, p2)) => g_binary_rest(
                    lx,
                    p2,
                    level,
                    ExprV::BinOp(Box::new(left), op, Box::new(right)),
                ),
            },
        },
        None => Ok((left, p)),
    }
}

/// `comp_op := '<'|'>'|'=='|'>='|'<='|'!='|'in'|'not' 'in'|'is' ['not']`
#[verifier::opaque]
pub open spec fn g_comp_op(lx: Lexed, p: int) -> Parsed<ASTCmpOp> {
    let k = kind_at(lx, p);
    match advance(lx, p) {
        Err(e) => if starts_comp_op(k) {
            Err(e)
        } else {
            Err(ParseError::UnexpectedToken)
        },
        Ok(p1) => if k == TokenKind::LT {
            Ok((ASTCmpOp::Lt, p1))
        } else if k == TokenKind::GT {
            Ok((ASTCmpOp::Gt, p1))
        } else if k == TokenKind::LEQ {
            Ok((ASTCmpOp::LtE, p1))
        } else if k == TokenKind::GEQ {
            Ok((ASTCmpOp::GtE, p1))
        } else if k == TokenKind::EQEQ {
            Ok((ASTCmpOp::Eq, p1))
        } else if k == TokenKind::NEQ {
            Ok((ASTCmpOp::NotEq, p1))
        } else if k == TokenKind::IN {
            Ok((ASTCmpOp::In, p1))
        } else if k == TokenKind::NOT {
            match eat(lx, p1, TokenKind::IN) {
                Err(e) => Err(e),
                Ok(p2) => Ok((ASTCmpOp::NotIn, p2)),
            }
        } else if k == TokenKind::IS {
            if kind_at(lx, p1) == TokenKind::NOT {
                match advance(lx, p1) {
                    Err(e) => Err(e),
                    Ok(p2) => Ok((ASTCmpOp::IsNot, p2)),
                }
            } else {
                Ok((ASTCmpOp::Is, p1))
            }
        } else {
            Err(ParseError::UnexpectedToken)
        },
    }
}

/// `comparison := expr (comp_op expr)*`
#[verifier::opaque]
pub open spec fn g_comparison(lx: Lexed, p: int) -> Parsed<ExprV>
    decreases tokens_left(lx, p), 44nat,
{
    match forward(p, g_binary(lx, p, 0)) {
        Err(e) => Err(e),
        Ok((left, p1)) => g_comparison_rest(lx, p1, left, Seq::empty(), Seq::empty()),
    }
}

/// The operators and comparators of a comparison behind those given.
#[verifier::opaque]
pub open spec fn g_comparison_rest(
    lx: Lexed,
    p: int,
    left: ExprV,
    ops: Seq<ASTCmpOp>,
    comparators: Seq<ExprV>,
) -> Parsed<ExprV>
    decreases tokens_left(lx, p), 5nat,
{
    if starts_comp_op(kind_at(lx, p)) && 0 <= p < lx.tokens.len() {
        match forward(p + 1, g_comp_op(lx, p)) {
            Err(e) => Err(e),
            Ok((op, p1)) => match forward(p1, g_binary(lx, p1, 0)) {
                Err(e) => Err(e),
                Ok((right, p2)) => g_comparison_rest(
                    lx,
                    p2,
                    left,
                    ops.push(op),
                    comparators.push(right),
                ),
            },
        }
    } else if ops.len() == 0 {
        Ok((left, p))
    } else {
        Ok((ExprV::Compare(Box::new(left), ops, comparators), p))
    }
}

/// `not_test := 'not' not_test | comparison`
#[verifier::opaque]
pub open spec fn g_not_test(lx: Lexed, p: int) -> Parsed<ExprV>
    decreases tokens_left(lx, p), 46nat,
{
    if kind_at(lx, p) == TokenKind::NOT {
        match advance(lx, p) {
            Err(e) => Err(e),
            Ok(p1) => match g_not_test(lx, p1) {
                Err(e) => Err(e),
                Ok((operand, p2)) => Ok(
                    (ExprV::UnaryOp(ASTUnaryOp::Not, Box::new(operand)), p2),
                ),
            },
        }
    } else {
        g_comparison(lx, p)
    }
}

/// One operand of a chain of `and` or `or`.
#[verifier::opaque]
pub open spec fn g_operand(lx: Lexed, p: int, op: ASTBoolOp) -> Parsed<ExprV>
    decreases tokens_left(lx, p),
        (if op == ASTBoolOp::And {
            48nat
        } else {
            52nat
        }),
{
    if op == ASTBoolOp::And {
        g_not_test(lx, p)
    } else {
        g_chain(lx, p, ASTBoolOp::And)
    }
}

/// `and_test := not_test ('and' not_test)*` and `or_test := and_test ('or'
/// and_test)*`
#[verifier::opaque]
pub open spec fn g_chain(lx: Lexed, p: int, op: ASTBoolOp) -> Parsed<ExprV>
    decreases tokens_left(lx, p),
        (if op == ASTBoolOp::And {
            50nat
        } else {
            54nat
        }),
{
    match forward(p, g_operand(lx, p, op)) {
        Err(e) => Err(e),
        Ok((first, p1)) => match g_chain_rest(lx, p1, op, seq![first]) {
            Err(e) => Err(e),
            Ok((operands, p2)) => Ok((single_or_bool(op, operands), p2)),
        },
    }
}

/// The operands of a chain behind those in `acc`.
#[verifier::opaque]
pub open spec fn g_chain_rest(lx: Lexed, p: int, op: ASTBoolOp, acc: Seq<ExprV>) -> Parsed<
    Seq<ExprV>,
>
    decreases tokens_left(lx, p), 5nat,
{
    if kind_at(lx, p) == (if op == ASTBoolOp::And {
        TokenKind::AND
    } else {
        TokenKind::OR
    }) {
        match advance(lx, p) {
            Err(e) => Err(e),
            Ok(p1) => match forward(p1, g_operand(lx, p1, op)) {
                Err(e) => Err(e),
                Ok((next, p2)) => g_chain_rest(lx, p2, op, acc.push(next)),
            },
        }
    } else {
        Ok((acc, p))
    }
}

/// `test := or_test ['if' or_test 'else' test]`
#[verifier::opaque]
pub open spec fn g_test(lx: Lexed, p: int) -> Parsed<ExprV>
    decreases tokens_left(lx, p), 70nat,
{
    match forward(p, g_chain(lx, p, ASTBoolOp::Or)) {
        Err(e) => Err(e),
        Ok((body, p1)) => if kind_at(lx, p1) == TokenKind::IF {
            match advance(lx, p1) {
                Err(e) => Err(e),
                Ok(p2) => match forward(p2, g_chain(lx, p2, ASTBoolOp::Or)) {
                    Err(e) => Err(e),
                    Ok((test, p3)) => match eat(lx, p3, TokenKind::ELSE) {
                        Err(e) => Err(e),
                        Ok(p4) => match g_test(lx, p4) {
                            Err(e) => Err(e),
                            Ok((orelse, p5)) => Ok(
                                (
                                    ExprV::IfExp(
                                        Box::new(test),
                                        Box::new(body),
                                        Box::new(orelse),
                                    ),
                                    p5,
                                ),
                            ),
                        },
                    },
                },
            }
        } else {
            Ok((body, p1))
        },
    }
}

/// `testlist := test (',' test)* [',']`: one test, or a tuple.
#[verifier::opaque]
pub open spec fn g_testlist(lx: Lexed, p: int) -> Parsed<ExprV>
    decreases tokens_left(lx, p), 78nat,
{
    match g_list(lx, p, true) {
        Err(e) => Err(e),
        Ok((found, p1)) => Ok((single_or_tuple(found.0), p1)),
    }
}

/// `names := NAME (',' NAME)* [',']`
pub open spec fn g_names(lx: Lexed, p: int) -> Parsed<Seq<Seq<char>>> {
    match g_id(lx, p) {
        Err(e) => Err(e),
        Ok((first, p1)) => g_names_rest(lx, p1, seq![first]),
    }
}

/// The names of a list behind those in `acc`.
pub open spec fn g_names_rest(lx: Lexed, p: int, acc: Seq<Seq<char>>) -> Parsed<Seq<Seq<char>>>
    decreases tokens_left(lx, p),
{
    if kind_at(lx, p) == TokenKind::COMMA {
        match advance(lx, p) {
            Err(e) => Err(e),
            Ok(p1) => if kind_at(lx, p1) == TokenKind::ID {
                match advance(lx, p1) {
                    Err(e) => Err(e),
                    Ok(p2) => g_names_rest(lx, p2, acc.push(lx.tokens[p1].text)),
                }
            } else {
                Ok((acc, p1))
            },
        }
    } else {
        Ok((acc, p))
    }
}

/// `parameters := '(' [names] ')'`
pub open spec fn g_parameters(lx: Lexed, p: int) -> Parsed<Seq<Seq<char>>> {
    match eat(lx, p, TokenKind::LPAREN) {
        Err(e) => Err(e),
        Ok(p1) => if kind_at(lx, p1) == TokenKind::ID {
            match g_names(lx, p1) {
                Err(e) => Err(e),
                Ok((names, p2)) => match eat(lx, p2, TokenKind::RPAREN) {
                    Err(e) => Err(e),
                    Ok(p3) => Ok((names, p3)),
                },
            }
        } else {
            match eat(lx, p1, TokenKind::RPAREN) {
                Err(e) => Err(e),
                Ok(p2) => Ok((Seq::empty(), p2)),
            }
        },
    }
}

/// `expr_stmt := testlist ('=' testlist)*`: the last list is the value,
/// the ones in front of it are the targets.
#[verifier::opaque]
pub open spec fn g_expr_stmt(lx: Lexed, p: int) -> Parsed<StmtV>
    decreases tokens_left(lx, p), 80nat,
{
    match forward(p, g_testlist(lx, p)) {
        Err(e) => Err(e),
        Ok((first, p1)) => if kind_at(lx, p1) == TokenKind::EQ {
            g_assign_rest(lx, p1, seq![first])
        } else {
            Ok((StmtV::Expr(first), p1))
        },
    }
}

/// What follows the targets of an assignment, from the `=` at `p` on.
#[verifier::opaque]
pub open spec fn g_assign_rest(lx: Lexed, p: int, targets: Seq<ExprV>) -> Parsed<StmtV>
    decreases tokens_left(lx, p), 79nat,
{
    match advance(lx, p) {
        Err(e) => Err(e),
        Ok(p1) => match forward(p1, g_testlist(lx, p1)) {
            Err(e) => Err(e),
            Ok((value, p2)) => if kind_at(lx, p2) == TokenKind::EQ {
                g_assign_rest(lx, p2, targets.push(value))
            } else {
                Ok((StmtV::Assign(targets, value), p2))
            },
        },
    }
}

/// `small_stmt := expr_stmt | 'del' exprlist | 'pass' | 'break' |
/// 'continue' | 'return' [testlist] | 'global' names`
#[verifier::opaque]
pub open spec fn g_small_stmt(lx: Lexed, p: int) -> Parsed<StmtV>
    decreases tokens_left(lx, p), 82nat,
{
    let k = kind_at(lx, p);
    if starts_test(k) {
        g_expr_stmt(lx, p)
    } else if k == TokenKind::DEL || k == TokenKind::PASS || k == TokenKind::BREAK || k
        == TokenKind::CONTINUE || k == TokenKind::RETURN || k == TokenKind::GLOBAL {
        match advance(lx, p) {
            Err(e) => Err(e),
            Ok(p1) => if k == TokenKind::DEL {
                match g_list(lx, p1, false) {
                    Err(e) => Err(e),
                    Ok((found, p2)) => Ok((StmtV::Delete(found.0), p2)),
                }
            } else if k == TokenKind::PASS {
                Ok((StmtV::Pass, p1))
            } else if k == TokenKind::BREAK {
                Ok((StmtV::Break, p1))
            } else if k == TokenKind::CONTINUE {
                Ok((StmtV::Continue, p1))
            } else if k == TokenKind::RETURN {
                if starts_test(kind_at(lx, p1)) {
                    match g_testlist(lx, p1) {
                        Err(e) => Err(e),
                        Ok((value, p2)) => Ok((StmtV::Return(Some(value)), p2)),
                    }
                } else {
                    Ok((StmtV::Return(None), p1))
                }
            } else {
                match g_names(lx, p1) {
                    Err(e) => Err(e),
                    Ok((names, p2)) => Ok((StmtV::Global(names), p2)),
                }
            },
        }
    } else {
        Err(ParseError::UnexpectedToken)
    }
}

/// `simple_stmt := small_stmt NEWLINE`, where the last statement of a
/// program may go without the `NEWLINE`.
#[verifier::opaque]
pub open spec fn g_simple_stmt(lx: Lexed, p: int) -> Parsed<StmtV>
    decreases tokens_left(lx, p), 84nat,
{
    match forward(p, g_small_stmt(lx, p)) {
        Err(e) => Err(e),
        Ok((stmt, p1)) => if kind_at(lx, p1) == TokenKind::EOF {
            Ok((stmt, p1))
        } else {
            match eat(lx, p1, TokenKind::NEWLINE) {
                Err(e) => Err(e),
                Ok(p2) => Ok((stmt, p2)),
            }
        },
    }
}

/// `suite := simple_stmt | NEWLINE INDENT stmt+ DEDENT`
#[verifier::opaque]
pub open spec fn g_suite(lx: Lexed, p: int) -> Parsed<Seq<StmtV>>
    decreases tokens_left(lx, p), 86nat,
{
    if kind_at(lx, p) == TokenKind::NEWLINE {
        match advance(lx, p) {
            Err(e) => Err(e),
            Ok(p1) => match eat(lx, p1, TokenKind::INDENT) {
                Err(e) => Err(e),
                Ok(p2) => g_block(lx, p2, Seq::empty()),
            },
        }
    } else {
        match g_simple_stmt(lx, p) {
            Err(e) => Err(e),
            Ok((stmt, p1)) => Ok((seq![stmt], p1)),
        }
    }
}

/// The statements of a block behind those in `acc`, up to and including
/// the `DEDENT` that closes the block.
#[verifier::opaque]
pub open spec fn g_block(lx: Lexed, p: int, acc: Seq<StmtV>) -> Parsed<Seq<StmtV>>
    decreases tokens_left(lx, p), 92nat,
{
    if kind_at(lx, p) == TokenKind::DEDENT && acc.len() > 0 {
        match advance(lx, p) {
            Err(e) => Err(e),
            Ok(p1) => Ok((acc, p1)),
        }
    } else if 0 <= p < lx.tokens.len() {
        match forward(p + 1, g_stmt(lx, p)) {
            Err(e) => Err(e),
            Ok((stmt, p1)) => g_block(lx, p1, acc.push(stmt)),
        }
    } else {
        Err(ParseError::UnexpectedToken)
    }
}

/// What follows `if` or `elif`: `test ':' suite ('elif' ... | 'else' ':'
/// suite)?`. An `elif` becomes an `If` that is the only statement of the
/// `orelse`.
#[verifier::opaque]
pub open spec fn g_if_tail(lx: Lexed, p: int) -> Parsed<StmtV>
    decreases tokens_left(lx, p), 88nat,
{
    match forward(p, g_test(lx, p)) {
        Err(e) => Err(e),
        Ok((test, p1)) => match eat(lx, p1, TokenKind::COLON) {
            Err(e) => Err(e),
            Ok(p2) => match forward(p2, g_suite(lx, p2)) {
                Err(e) => Err(e),
                Ok((body, p3)) => if kind_at(lx, p3) == TokenKind::ELIF {
                    match advance(lx, p3) {
                        Err(e) => Err(e),
                        Ok(p4) => match g_if_tail(lx, p4) {
                            Err(e) => Err(e),
                            Ok((nested, p5)) => Ok((StmtV::If(test, body, seq![nested]), p5)),
                        },
                    }
                } else if kind_at(lx, p3) == TokenKind::ELSE {
                    match advance(lx, p3) {
                        Err(e) => Err(e),
                        Ok(p4) => match eat(lx, p4, TokenKind::COLON) {
                            Err(e) => Err(e),
                            Ok(p5) => match g_suite(lx, p5) {
                                Err(e) => Err(e),
                                Ok((orelse, p6)) => Ok((StmtV::If(test, body, orelse), p6)),
                            },
                        },
                    }
                } else {
                    Ok((StmtV::If(test, body, Seq::empty()), p3))
                },
            },
        },
    }
}

/// An `if` statement from its `if` on, or, behind an `elif`, from its test
/// on.
pub open spec fn g_if_stmt(lx: Lexed, p: int, is_orelse: bool) -> Parsed<StmtV> {
    if is_orelse {
        g_if_tail(lx, p)
    } else {
        match eat(lx, p, TokenKind::IF) {
            Err(e) => Err(e),
            Ok(p1) => g_if_tail(lx, p1),
        }
    }
}

/// What follows `while`: `test ':' suite`
#[verifier::opaque]
pub open spec fn g_while_tail(lx: Lexed, p: int) -> Parsed<StmtV>
    decreases tokens_left(lx, p), 88nat,
{
    match forward(p, g_test(lx, p)) {
        Err(e) => Err(e),
        Ok((test, p1)) => match eat(lx, p1, TokenKind::COLON) {
            Err(e) => Err(e),
            Ok(p2) => match g_suite(lx, p2) {
                Err(e) => Err(e),
                Ok((body, p3)) => Ok((StmtV::While(test, body), p3)),
            },
        },
    }
}

/// What follows `for`: `exprlist 'in' testlist ':' suite`
#[verifier::opaque]
pub open spec fn g_for_tail(lx: Lexed, p: int) -> Parsed<StmtV>
    decreases tokens_left(lx, p), 88nat,
{
    match forward(p, g_list(lx, p, false)) {
        Err(e) => Err(e),
        Ok((targets, p1)) => match eat(lx, p1, TokenKind::IN) {
            Err(e) => Err(e),
            Ok(p2) => match forward(p2, g_testlist(lx, p2)) {
                Err(e) => Err(e),
                Ok((iter, p3)) => match eat(lx, p3, TokenKind::COLON) {
                    Err(e) => Err(e),
                    Ok(p4) => match g_suite(lx, p4) {
                        Err(e) => Err(e),
                        Ok((body, p5)) => Ok(
                            (StmtV::For(single_or_tuple(targets.0), iter, body), p5),
                        ),
                    },
                },
            },
        },
    }
}

/// What follows `def`: `NAME parameters ':' suite`
#[verifier::opaque]
pub open spec fn g_def_tail(lx: Lexed, p: int) -> Parsed<StmtV>
    decreases tokens_left(lx, p), 88nat,
{
    match forward(p, g_id(lx, p)) {
        Err(e) => Err(e),
        Ok((name, p1)) => match forward(p1, g_parameters(lx, p1)) {
            Err(e) => Err(e),
            Ok((parameters, p2)) => match eat(lx, p2, TokenKind::COLON) {
                Err(e) => Err(e),
                Ok(p3) => match g_suite(lx, p3) {
                    Err(e) => Err(e),
                    Ok((body, p4)) => Ok((StmtV::FuncDef(name, parameters, body), p4)),
                },
            },
        },
    }
}

/// `stmt := 'if' ... | 'while' ... | 'for' ... | 'def' ... | simple_stmt`
#[verifier::opaque]
pub open spec fn g_stmt(lx: Lexed, p: int) -> Parsed<StmtV>
    decreases tokens_left(lx, p), 90nat,
{
    let k = kind_at(lx, p);
    if k == TokenKind::IF || k == TokenKind::WHILE || k == TokenKind::FOR || k == TokenKind::DEF {
        match advance(lx, p) {
            Err(e) => Err(e),
            Ok(p1) => if k == TokenKind::IF {
                g_if_tail(lx, p1)
            } else if k == TokenKind::WHILE {
                g_while_tail(lx, p1)
            } else if k == TokenKind::FOR {
                g_for_tail(lx, p1)
            } else {
                g_def_tail(lx, p1)
            },
        }
    } else {
        g_simple_stmt(lx, p)
    }
}

/// The next statement of a module, behind any `NEWLINE`s; none at `EOF`.
pub open spec fn g_next(lx: Lexed, p: int) -> Parsed<Option<StmtV>>
    decreases tokens_left(lx, p),
{
    if kind_at(lx, p) == TokenKind::NEWLINE {
        match advance(lx, p) {
            Err(e) => Err(e),
            Ok(p1) => g_next(lx, p1),
        }
    } else if kind_at(lx, p) == TokenKind::EOF {
        Ok((None, p))
    } else if lx.tokens.len() == 0 {
        Err(stream_error(lx))
    } else {
        match g_stmt(lx, p) {
            Err(e) => Err(e),
            Ok((stmt, p1)) => Ok((Some(stmt), p1)),
        }
    }
}

/// The statements of a module behind those in `acc`, up to `EOF`.
pub open spec fn g_module(lx: Lexed, p: int, acc: Seq<StmtV>) -> Parsed<Seq<StmtV>>
    decreases tokens_left(lx, p),
{
    if 0 <= p < lx.tokens.len() {
        match g_next(lx, p) {
            Err(e) => Err(e),
            Ok((None, q)) => Ok((acc, q)),
            Ok((Some(stmt), q)) => g_module(
                lx,
                if q <= p {
                    p + 1
                } else {
                    q
                },
                acc.push(stmt),
            ),
        }
    } else {
        Err(stream_error(lx))
    }
}

/// The tree of a whole program.
pub open spec fn parse_tokens(lx: Lexed) -> Result<Seq<StmtV>, ParseError> {
    match g_module(lx, 0, Seq::empty()) {
        Err(e) => Err(e),
        Ok((stmts, _)) => Ok(stmts),
    }
}

/// What [`g_atom`] is, one step deep.
pub proof fn unfold_g_atom(
    lx: Lexed,
    p: int,
)
    ensures
        g_atom(lx, p) == ({
        let k = kind_at(lx, p);
        if k == TokenKind::LPAREN || k == TokenKind::LBRACKET {
            let close = if k == TokenKind::LPAREN {
                TokenKind::RPAREN
            } else {
                TokenKind::RBRACKET
            };
            match advance(lx, p) {
                Err(e) => Err(e),
                Ok(p1) => if starts_test(kind_at(lx, p1)) {
                    match forward(p1, g_list(lx, p1, true)) {
                        Err(e) => Err(e),
                        Ok((found, p2)) => match eat(lx, p2, close) {
                            Err(e) => Err(e),
                            Ok(p3) => Ok(
                                (
                                    if k == TokenKind::LPAREN {
                                        parenthesized(found.0, found.1)
                                    } else {
                                        ExprV::List(found.0)
                                    },
                                    p3,
                                ),
                            ),
                        },
                    }
                } else {
                    match eat(lx, p1, close) {
                        Err(e) => Err(e),
                        Ok(p2) => Ok(
                            (
                                if k == TokenKind::LPAREN {
                                    ExprV::Tuple(Seq::empty())
                                } else {
                                    ExprV::List(Seq::empty())
                                },
                                p2,
                            ),
                        ),
                    }
                },
            }
        } else if k == TokenKind::LBRACE {
            match advance(lx, p) {
                Err(e) => Err(e),
                Ok(p1) => match forward(p1, g_dictorsetmaker(lx, p1)) {
                    Err(e) => Err(e),
                    Ok((made, p2)) => match eat(lx, p2, TokenKind::RBRACE) {
                        Err(e) => Err(e),
                        Ok(p3) => Ok((made, p3)),
                    },
                },
            }
        } else if k == TokenKind::ID || k == TokenKind::INT || k == TokenKind::FLOAT || k
            == TokenKind::STRING || k == TokenKind::NONE || k == TokenKind::TRUE || k
            == TokenKind::FALSE {
            match advance(lx, p) {
                Err(e) => Err(e),
                Ok(p1) => Ok((leaf(lx.tokens[p]), p1)),
            }
        } else {
            Err(ParseError::UnexpectedToken)
        }
        }),
{
    reveal(g_atom);
    reveal(g_dictorsetmaker);
    reveal(g_dict_rest);
    reveal(g_elem);
    reveal(g_list);
    reveal(g_list_rest);
    reveal(g_arglist);
    reveal(g_subscript);
    reveal(g_opt_test);
    reveal(g_slice_tail);
    reveal(g_trailers);
    reveal(g_atom_expr);
    reveal(g_factor);
    reveal(g_binary);
    reveal(g_binary_rest);
    reveal(g_comparison);
    reveal(g_comparison_rest);
    reveal(g_not_test);
    reveal(g_operand);
    reveal(g_chain);
    reveal(g_chain_rest);
    reveal(g_test);
    reveal(g_testlist);
    reveal(g_expr_stmt);
    reveal(g_assign_rest);
    reveal(g_small_stmt);
    reveal(g_simple_stmt);
    reveal(g_suite);
    reveal(g_block);
    reveal(g_if_tail);
    reveal(g_while_tail);
    reveal(g_for_tail);
    reveal(g_def_tail);
    reveal(g_stmt);
}

/// What [`g_dictorsetmaker`] is, one step deep.
pub proof fn unfold_g_dictorsetmaker(
    lx: Lexed,
    p: int,
)
    ensures
        g_dictorsetmaker(lx, p) == ({
        match forward(p, g_test(lx, p)) {
            Err(e) => Err(e),
            Ok((first, p1)) => if kind_at(lx, p1) == TokenKind::COLON {
                match advance(lx, p1) {
                    Err(e) => Err(e),
                    Ok(p2) => match forward(p2, g_test(lx, p2)) {
                        Err(e) => Err(e),
                        Ok((value, p3)) => g_dict_rest(lx, p3, seq![first], seq![value]),
                    },
                }
            } else {
                match g_list_rest(lx, p1, true, seq![first]) {
                    Err(e) => Err(e),
                    Ok((found, p2)) => Ok((ExprV::SetDisplay(found.0), p2)),
                }
            },
        }
        }),
{
    reveal(g_atom);
    reveal(g_dictorsetmaker);
    reveal(g_dict_rest);
    reveal(g_elem);
    reveal(g_list);
    reveal(g_list_rest);
    reveal(g_arglist);
    reveal(g_subscript);
    reveal(g_opt_test);
    reveal(g_slice_tail);
    reveal(g_trailers);
    reveal(g_atom_expr);
    reveal(g_factor);
    reveal(g_binary);
    reveal(g_binary_rest);
    reveal(g_comparison);
    reveal(g_comparison_rest);
    reveal(g_not_test);
    reveal(g_operand);
    reveal(g_chain);
    reveal(g_chain_rest);
    reveal(g_test);
    reveal(g_testlist);
    reveal(g_expr_stmt);
    reveal(g_assign_rest);
    reveal(g_small_stmt);
    reveal(g_simple_stmt);
    reveal(g_suite);
    reveal(g_block);
    reveal(g_if_tail);
    reveal(g_while_tail);
    reveal(g_for_tail);
    reveal(g_def_tail);
    reveal(g_stmt);
}

/// What [`g_dict_rest`] is, one step deep.
pub proof fn unfold_g_dict_rest(
    lx: Lexed,
    p: int,
    keys: Seq<ExprV>,
    values: Seq<ExprV>,
)
    ensures
        g_dict_rest(lx, p, keys, values) == ({
        if kind_at(lx, p) == TokenKind::COMMA {
            match advance(lx, p) {
                Err(e) => Err(e),
                Ok(p1) => if starts_test(kind_at(lx, p1)) {
                    match forward(p1, g_test(lx, p1)) {
                        Err(e) => Err(e),
                        Ok((key, p2)) => match eat(lx, p2, TokenKind::COLON) {
                            Err(e) => Err(e),
                            Ok(p3) => match forward(p3, g_test(lx, p3)) {
                                Err(e) => Err(e),
                                Ok((value, p4)) => g_dict_rest(
                                    lx,
                                    p4,
                                    keys.push(key),
                                    values.push(value),
                                ),
                            },
                        },
                    }
                } else {
                    Ok((ExprV::Dict(keys, values), p1))
                },
            }
        } else {
            Ok((ExprV::Dict(keys, values), p))
        }
        }),
{
    reveal(g_atom);
    reveal(g_dictorsetmaker);
    reveal(g_dict_rest);
    reveal(g_elem);
    reveal(g_list);
    reveal(g_list_rest);
    reveal(g_arglist);
    reveal(g_subscript);
    reveal(g_opt_test);
    reveal(g_slice_tail);
    reveal(g_trailers);
    reveal(g_atom_expr);
    reveal(g_factor);
    reveal(g_binary);
    reveal(g_binary_rest);
    reveal(g_comparison);
    reveal(g_comparison_rest);
    reveal(g_not_test);
    reveal(g_operand);
    reveal(g_chain);
    reveal(g_chain_rest);
    reveal(g_test);
    reveal(g_testlist);
    reveal(g_expr_stmt);
    reveal(g_assign_rest);
    reveal(g_small_stmt);
    reveal(g_simple_stmt);
    reveal(g_suite);
    reveal(g_block);
    reveal(g_if_tail);
    reveal(g_while_tail);
    reveal(g_for_tail);
    reveal(g_def_tail);
    reveal(g_stmt);
}

/// What [`g_elem`] is, one step deep.
pub proof fn unfold_g_elem(
    lx: Lexed,
    p: int,
    of_tests: bool,
)
    ensures
        g_elem(lx, p, of_tests) == ({
        if of_tests {
            g_test(lx, p)
        } else {
            g_binary(lx, p, 0)
        }
        }),
{
    reveal(g_atom);
    reveal(g_dictorsetmaker);
    reveal(g_dict_rest);
    reveal(g_elem);
    reveal(g_list);
    reveal(g_list_rest);
    reveal(g_arglist);
    reveal(g_subscript);
    reveal(g_opt_test);
    reveal(g_slice_tail);
    reveal(g_trailers);
    reveal(g_atom_expr);
    reveal(g_factor);
    reveal(g_binary);
    reveal(g_binary_rest);
    reveal(g_comparison);
    reveal(g_comparison_rest);
    reveal(g_not_test);
    reveal(g_operand);
    reveal(g_chain);
    reveal(g_chain_rest);
    reveal(g_test);
    reveal(g_testlist);
    reveal(g_expr_stmt);
    reveal(g_assign_rest);
    reveal(g_small_stmt);
    reveal(g_simple_stmt);
    reveal(g_suite);
    reveal(g_block);
    reveal(g_if_tail);
    reveal(g_while_tail);
    reveal(g_for_tail);
    reveal(g_def_tail);
    reveal(g_stmt);
}

/// What [`g_list`] is, one step deep.
pub proof fn unfold_g_list(
    lx: Lexed,
    p: int,
    of_tests: bool,
)
    ensures
        g_list(lx, p, of_tests) == ({
        match forward(p, g_elem(lx, p, of_tests)) {
            Err(e) => Err(e),
            Ok((first, p1)) => g_list_rest(lx, p1, of_tests, seq![first]),
        }
        }),
{
    reveal(g_atom);
    reveal(g_dictorsetmaker);
    reveal(g_dict_rest);
    reveal(g_elem);
    reveal(g_list);
    reveal(g_list_rest);
    reveal(g_arglist);
    reveal(g_subscript);
    reveal(g_opt_test);
    reveal(g_slice_tail);
    reveal(g_trailers);
    reveal(g_atom_expr);
    reveal(g_factor);
    reveal(g_binary);
    reveal(g_binary_rest);
    reveal(g_comparison);
    reveal(g_comparison_rest);
    reveal(g_not_test);
    reveal(g_operand);
    reveal(g_chain);
    reveal(g_chain_rest);
    reveal(g_test);
    reveal(g_testlist);
    reveal(g_expr_stmt);
    reveal(g_assign_rest);
    reveal(g_small_stmt);
    reveal(g_simple_stmt);
    reveal(g_suite);
    reveal(g_block);
    reveal(g_if_tail);
    reveal(g_while_tail);
    reveal(g_for_tail);
    reveal(g_def_tail);
    reveal(g_stmt);
}

/// What [`g_list_rest`] is, one step deep.
pub proof fn unfold_g_list_rest(
    lx: Lexed,
    p: int,
    of_tests: bool,
    acc: Seq<ExprV>,
)
    ensures
        g_list_rest(lx, p, of_tests, acc) == ({
        if kind_at(lx, p) == TokenKind::COMMA {
            match advance(lx, p) {
                Err(e) => Err(e),
                Ok(p1) => if (of_tests && starts_test(kind_at(lx, p1))) || (!of_tests && starts_expr(
                    kind_at(lx, p1),
                )) {
                    match forward(p1, g_elem(lx, p1, of_tests)) {
                        Err(e) => Err(e),
                        Ok((next, p2)) => g_list_rest(lx, p2, of_tests, acc.push(next)),
                    }
                } else {
                    Ok(((acc, true), p1))
                },
            }
        } else {
            Ok(((acc, false), p))
        }
        }),
{
    reveal(g_atom);
    reveal(g_dictorsetmaker);
    reveal(g_dict_rest);
    reveal(g_elem);
    reveal(g_list);
    reveal(g_list_rest);
    reveal(g_arglist);
    reveal(g_subscript);
    reveal(g_opt_test);
    reveal(g_slice_tail);
    reveal(g_trailers);
    reveal(g_atom_expr);
    reveal(g_factor);
    reveal(g_binary);
    reveal(g_binary_rest);
    reveal(g_comparison);
    reveal(g_comparison_rest);
    reveal(g_not_test);
    reveal(g_operand);
    reveal(g_chain);
    reveal(g_chain_rest);
    reveal(g_test);
    reveal(g_testlist);
    reveal(g_expr_stmt);
    reveal(g_assign_rest);
    reveal(g_small_stmt);
    reveal(g_simple_stmt);
    reveal(g_suite);
    reveal(g_block);
    reveal(g_if_tail);
    reveal(g_while_tail);
    reveal(g_for_tail);
    reveal(g_def_tail);
    reveal(g_stmt);
}

/// What [`g_arglist`] is, one step deep.
pub proof fn unfold_g_arglist(
    lx: Lexed,
    p: int,
)
    ensures
        g_arglist(lx, p) == ({
        if kind_at(lx, p) == TokenKind::RPAREN {
            Ok((Seq::empty(), p))
        } else {
            match g_list(lx, p, true) {
                Err(e) => Err(e),
                Ok((found, p1)) => Ok((found.0, p1)),
            }
        }
        }),
{
    reveal(g_atom);
    reveal(g_dictorsetmaker);
    reveal(g_dict_rest);
    reveal(g_elem);
    reveal(g_list);
    reveal(g_list_rest);
    reveal(g_arglist);
    reveal(g_subscript);
    reveal(g_opt_test);
    reveal(g_slice_tail);
    reveal(g_trailers);
    reveal(g_atom_expr);
    reveal(g_factor);
    reveal(g_binary);
    reveal(g_binary_rest);
    reveal(g_comparison);
    reveal(g_comparison_rest);
    reveal(g_not_test);
    reveal(g_operand);
    reveal(g_chain);
    reveal(g_chain_rest);
    reveal(g_test);
    reveal(g_testlist);
    reveal(g_expr_stmt);
    reveal(g_assign_rest);
    reveal(g_small_stmt);
    reveal(g_simple_stmt);
    reveal(g_suite);
    reveal(g_block);
    reveal(g_if_tail);
    reveal(g_while_tail);
    reveal(g_for_tail);
    reveal(g_def_tail);
    reveal(g_stmt);
}

/// What [`g_subscript`] is, one step deep.
pub proof fn unfold_g_subscript(
    lx: Lexed,
    p: int,
)
    ensures
        g_subscript(lx, p) == ({
        if starts_test(kind_at(lx, p)) {
            match forward(p, g_test(lx, p)) {
                Err(e) => Err(e),
                Ok((lower, p1)) => if kind_at(lx, p1) == TokenKind::COLON {
                    match advance(lx, p1) {
                        Err(e) => Err(e),
                        Ok(p2) => g_slice_tail(lx, p2, Some(Box::new(lower))),
                    }
                } else {
                    Ok((SliceV::Index(Box::new(lower)), p1))
                },
            }
        } else if kind_at(lx, p) == TokenKind::COLON {
            match advance(lx, p) {
                Err(e) => Err(e),
                Ok(p1) => g_slice_tail(lx, p1, None),
            }
        } else {
            Err(ParseError::UnexpectedToken)
        }
        }),
{
    reveal(g_atom);
    reveal(g_dictorsetmaker);
    reveal(g_dict_rest);
    reveal(g_elem);
    reveal(g_list);
    reveal(g_list_rest);
    reveal(g_arglist);
    reveal(g_subscript);
    reveal(g_opt_test);
    reveal(g_slice_tail);
    reveal(g_trailers);
    reveal(g_atom_expr);
    reveal(g_factor);
    reveal(g_binary);
    reveal(g_binary_rest);
    reveal(g_comparison);
    reveal(g_comparison_rest);
    reveal(g_not_test);
    reveal(g_operand);
    reveal(g_chain);
    reveal(g_chain_rest);
    reveal(g_test);
    reveal(g_testlist);
    reveal(g_expr_stmt);
    reveal(g_assign_rest);
    reveal(g_small_stmt);
    reveal(g_simple_stmt);
    reveal(g_suite);
    reveal(g_block);
    reveal(g_if_tail);
    reveal(g_while_tail);
    reveal(g_for_tail);
    reveal(g_def_tail);
    reveal(g_stmt);
}

/// What [`g_opt_test`] is, one step deep.
pub proof fn unfold_g_opt_test(
    lx: Lexed,
    p: int,
)
    ensures
        g_opt_test(lx, p) == ({
        if starts_test(kind_at(lx, p)) {
            match g_test(lx, p) {
                Err(e) => Err(e),
                Ok((found, p1)) => Ok((Some(Box::new(found)), p1)),
            }
        } else {
            Ok((None, p))
        }
        }),
{
    reveal(g_atom);
    reveal(g_dictorsetmaker);
    reveal(g_dict_rest);
    reveal(g_elem);
    reveal(g_list);
    reveal(g_list_rest);
    reveal(g_arglist);
    reveal(g_subscript);
    reveal(g_opt_test);
    reveal(g_slice_tail);
    reveal(g_trailers);
    reveal(g_atom_expr);
    reveal(g_factor);
    reveal(g_binary);
    reveal(g_binary_rest);
    reveal(g_comparison);
    reveal(g_comparison_rest);
    reveal(g_not_test);
    reveal(g_operand);
    reveal(g_chain);
    reveal(g_chain_rest);
    reveal(g_test);
    reveal(g_testlist);
    reveal(g_expr_stmt);
    reveal(g_assign_rest);
    reveal(g_small_stmt);
    reveal(g_simple_stmt);
    reveal(g_suite);
    reveal(g_block);
    reveal(g_if_tail);
    reveal(g_while_tail);
    reveal(g_for_tail);
    reveal(g_def_tail);
    reveal(g_stmt);
}

/// What [`g_slice_tail`] is, one step deep.
pub proof fn unfold_g_slice_tail(
    lx: Lexed,
    p: int,
    lower: Option<Box<ExprV>>,
)
    ensures
        g_slice_tail(lx, p, lower) == ({
        match forward(p, g_opt_test(lx, p)) {
            Err(e) => Err(e),
            Ok((upper, p1)) => if kind_at(lx, p1) == TokenKind::COLON {
                match advance(lx, p1) {
                    Err(e) => Err(e),
                    Ok(p2) => match g_opt_test(lx, p2) {
                        Err(e) => Err(e),
                        Ok((step, p3)) => Ok((SliceV::Slice(lower, upper, step), p3)),
                    },
                }
            } else {
                Ok((SliceV::Slice(lower, upper, None), p1))
            },
        }
        }),
{
    reveal(g_atom);
    reveal(g_dictorsetmaker);
    reveal(g_dict_rest);
    reveal(g_elem);
    reveal(g_list);
    reveal(g_list_rest);
    reveal(g_arglist);
    reveal(g_subscript);
    reveal(g_opt_test);
    reveal(g_slice_tail);
    reveal(g_trailers);
    reveal(g_atom_expr);
    reveal(g_factor);
    reveal(g_binary);
    reveal(g_binary_rest);
    reveal(g_comparison);
    reveal(g_comparison_rest);
    reveal(g_not_test);
    reveal(g_operand);
    reveal(g_chain);
    reveal(g_chain_rest);
    reveal(g_test);
    reveal(g_testlist);
    reveal(g_expr_stmt);
    reveal(g_assign_rest);
    reveal(g_small_stmt);
    reveal(g_simple_stmt);
    reveal(g_suite);
    reveal(g_block);
    reveal(g_if_tail);
    reveal(g_while_tail);
    reveal(g_for_tail);
    reveal(g_def_tail);
    reveal(g_stmt);
}

/// What [`g_trailers`] is, one step deep.
pub proof fn unfold_g_trailers(
    lx: Lexed,
    p: int,
    inner: ExprV,
)
    ensures
        g_trailers(lx, p, inner) == ({
        if kind_at(lx, p) == TokenKind::LPAREN {
            match advance(lx, p) {
                Err(e) => Err(e),
                Ok(p1) => match forward(p1, g_arglist(lx, p1)) {
                    Err(e) => Err(e),
                    Ok((args, p2)) => match eat(lx, p2, TokenKind::RPAREN) {
                        Err(e) => Err(e),
                        Ok(p3) => g_trailers(lx, p3, ExprV::Call(Box::new(inner), args)),
                    },
                },
            }
        } else if kind_at(lx, p) == TokenKind::LBRACKET {
            match advance(lx, p) {
                Err(e) => Err(e),
                Ok(p1) => match forward(p1, g_subscript(lx, p1)) {
                    Err(e) => Err(e),
                    Ok((slice, p2)) => match eat(lx, p2, TokenKind::RBRACKET) {
                        Err(e) => Err(e),
                        Ok(p3) => g_trailers(lx, p3, ExprV::Subscript(Box::new(inner), slice)),
                    },
                },
            }
        } else {
            Ok((inner, p))
        }
        }),
{
    reveal(g_atom);
    reveal(g_dictorsetmaker);
    reveal(g_dict_rest);
    reveal(g_elem);
    reveal(g_list);
    reveal(g_list_rest);
    reveal(g_arglist);
    reveal(g_subscript);
    reveal(g_opt_test);
    reveal(g_slice_tail);
    reveal(g_trailers);
    reveal(g_atom_expr);
    reveal(g_factor);
    reveal(g_binary);
    reveal(g_binary_rest);
    reveal(g_comparison);
    reveal(g_comparison_rest);
    reveal(g_not_test);
    reveal(g_operand);
    reveal(g_chain);
    reveal(g_chain_rest);
    reveal(g_test);
    reveal(g_testlist);
    reveal(g_expr_stmt);
    reveal(g_assign_rest);
    reveal(g_small_stmt);
    reveal(g_simple_stmt);
    reveal(g_suite);
    reveal(g_block);
    reveal(g_if_tail);
    reveal(g_while_tail);
    reveal(g_for_tail);
    reveal(g_def_tail);
    reveal(g_stmt);
}

/// What [`g_atom_expr`] is, one step deep.
pub proof fn unfold_g_atom_expr(
    lx: Lexed,
    p: int,
)
    ensures
        g_atom_expr(lx, p) == ({
        match forward(p, g_atom(lx, p)) {
            Err(e) => Err(e),
            Ok((atom, p1)) => g_trailers(lx, p1, atom),
        }
        }),
{
    reveal(g_atom);
    reveal(g_dictorsetmaker);
    reveal(g_dict_rest);
    reveal(g_elem);
    reveal(g_list);
    reveal(g_list_rest);
    reveal(g_arglist);
    reveal(g_subscript);
    reveal(g_opt_test);
    reveal(g_slice_tail);
    reveal(g_trailers);
    reveal(g_atom_expr);
    reveal(g_factor);
    reveal(g_binary);
    reveal(g_binary_rest);
    reveal(g_comparison);
    reveal(g_comparison_rest);
    reveal(g_not_test);
    reveal(g_operand);
    reveal(g_chain);
    reveal(g_chain_rest);
    reveal(g_test);
    reveal(g_testlist);
    reveal(g_expr_stmt);
    reveal(g_assign_rest);
    reveal(g_small_stmt);
    reveal(g_simple_stmt);
    reveal(g_suite);
    reveal(g_block);
    reveal(g_if_tail);
    reveal(g_while_tail);
    reveal(g_for_tail);
    reveal(g_def_tail);
    reveal(g_stmt);
}

/// What [`g_factor`] is, one step deep.
pub proof fn unfold_g_factor(
    lx: Lexed,
    p: int,
)
    ensures
        g_factor(lx, p) == ({
        match prefix_op(kind_at(lx, p)) {
            Some(op) => match advance(lx, p) {
                Err(e) => Err(e),
                Ok(p1) => match g_factor(lx, p1) {
                    Err(e) => Err(e),
                    Ok((operand, p2)) => Ok((ExprV::UnaryOp(op, Box::new(operand)), p2)),
                },
            },
            None => g_atom_expr(lx, p),
        }
        }),
{
    reveal(g_atom);
    reveal(g_dictorsetmaker);
    reveal(g_dict_rest);
    reveal(g_elem);
    reveal(g_list);
    reveal(g_list_rest);
    reveal(g_arglist);
    reveal(g_subscript);
    reveal(g_opt_test);
    reveal(g_slice_tail);
    reveal(g_trailers);
    reveal(g_atom_expr);
    reveal(g_factor);
    reveal(g_binary);
    reveal(g_binary_rest);
    reveal(g_comparison);
    reveal(g_comparison_rest);
    reveal(g_not_test);
    reveal(g_operand);
    reveal(g_chain);
    reveal(g_chain_rest);
    reveal(g_test);
    reveal(g_testlist);
    reveal(g_expr_stmt);
    reveal(g_assign_rest);
    reveal(g_small_stmt);
    reveal(g_simple_stmt);
    reveal(g_suite);
    reveal(g_block);
    reveal(g_if_tail);
    reveal(g_while_tail);
    reveal(g_for_tail);
    reveal(g_def_tail);
    reveal(g_stmt);
}

/// What [`g_binary`] is, one step deep.
pub proof fn unfold_g_binary(
    lx: Lexed,
    p: int,
    level: nat,
)
    ensures
        g_binary(lx, p, level) == ({
        if level >= 6 {
            g_factor(lx, p)
        } else {
            match forward(p, g_binary(lx, p, level + 1)) {
                Err(e) => Err(e),
                Ok((left, p1)) => g_binary_rest(lx, p1, level, left),
            }
        }
        }),
{
    reveal(g_atom);
    reveal(g_dictorsetmaker);
    reveal(g_dict_rest);
    reveal(g_elem);
    reveal(g_list);
    reveal(g_list_rest);
    reveal(g_arglist);
    reveal(g_subscript);
    reveal(g_opt_test);
    reveal(g_slice_tail);
    reveal(g_trailers);
    reveal(g_atom_expr);
    reveal(g_factor);
    reveal(g_binary);
    reveal(g_binary_rest);
    reveal(g_comparison);
    reveal(g_comparison_rest);
    reveal(g_not_test);
    reveal(g_operand);
    reveal(g_chain);
    reveal(g_chain_rest);
    reveal(g_test);
    reveal(g_testlist);
    reveal(g_expr_stmt);
    reveal(g_assign_rest);
    reveal(g_small_stmt);
    reveal(g_simple_stmt);
    reveal(g_suite);
    reveal(g_block);
    reveal(g_if_tail);
    reveal(g_while_tail);
    reveal(g_for_tail);
    reveal(g_def_tail);
    reveal(g_stmt);
}

/// What [`g_binary_rest`] is, one step deep.
pub proof fn unfold_g_binary_rest(
    lx: Lexed,
    p: int,
    level: nat,
    left: ExprV,
)
    ensures
        g_binary_rest(lx, p, level, left) == ({
        match binary_op(level, kind_at(lx, p)) {
            Some(op) => match advance(lx, p) {
                Err(e) => Err(e),
                Ok(p1) => match forward(p1, g_binary(lx, p1, level + 1)) {
                    Err(e) => Err(e),
                    Ok((right, p2)) => g_binary_rest(
                        lx,
                        p2,
                        level,
                        ExprV::BinOp(Box::new(left), op, Box::new(right)),
                    ),
                },
            },
            None => Ok((left, p)),
        }
        }),
{
    reveal(g_atom);
    reveal(g_dictorsetmaker);
    reveal(g_dict_rest);
    reveal(g_elem);
    reveal(g_list);
    reveal(g_list_rest);
    reveal(g_arglist);
    reveal(g_subscript);
    reveal(g_opt_test);
    reveal(g_slice_tail);
    reveal(g_trailers);
    reveal(g_atom_expr);
    reveal(g_factor);
    reveal(g_binary);
    reveal(g_binary_rest);
    reveal(g_comparison);
    reveal(g_comparison_rest);
    reveal(g_not_test);
    reveal(g_operand);
    reveal(g_chain);
    reveal(g_chain_rest);
    reveal(g_test);
    reveal(g_testlist);
    reveal(g_expr_stmt);
    reveal(g_assign_rest);
    reveal(g_small_stmt);
    reveal(g_simple_stmt);
    reveal(g_suite);
    reveal(g_block);
    reveal(g_if_tail);
    reveal(g_while_tail);
    reveal(g_for_tail);
    reveal(g_def_tail);
    reveal(g_stmt);
}

/// What [`g_comparison`] is, one step deep.
pub proof fn unfold_g_comparison(
    lx: Lexed,
    p: int,
)
    ensures
        g_comparison(lx, p) == ({
        match forward(p, g_binary(lx, p, 0)) {
            Err(e) => Err(e),
            Ok((left, p1)) => g_comparison_rest(lx, p1, left, Seq::empty(), Seq::empty()),
        }
        }),
{
    reveal(g_atom);
    reveal(g_dictorsetmaker);
    reveal(g_dict_rest);
    reveal(g_elem);
    reveal(g_list);
    reveal(g_list_rest);
    reveal(g_arglist);
    reveal(g_subscript);
    reveal(g_opt_test);
    reveal(g_slice_tail);
    reveal(g_trailers);
    reveal(g_atom_expr);
    reveal(g_factor);
    reveal(g_binary);
    reveal(g_binary_rest);
    reveal(g_comparison);
    reveal(g_comparison_rest);
    reveal(g_not_test);
    reveal(g_operand);
    reveal(g_chain);
    reveal(g_chain_rest);
    reveal(g_test);
    reveal(g_testlist);
    reveal(g_expr_stmt);
    reveal(g_assign_rest);
    reveal(g_small_stmt);
    reveal(g_simple_stmt);
    reveal(g_suite);
    reveal(g_block);
    reveal(g_if_tail);
    reveal(g_while_tail);
    reveal(g_for_tail);
    reveal(g_def_tail);
    reveal(g_stmt);
}

/// What [`g_comparison_rest`] is, one step deep.
pub proof fn unfold_g_comparison_rest(
    lx: Lexed,
    p: int,
    left: ExprV,
    ops: Seq<ASTCmpOp>,
    comparators: Seq<ExprV>,
)
    ensures
        g_comparison_rest(lx, p, left, ops, comparators) == ({
        if starts_comp_op(kind_at(lx, p)) && 0 <= p < lx.tokens.len() {
            match forward(p + 1, g_comp_op(lx, p)) {
                Err(e) => Err(e),
                Ok((op, p1)) => match forward(p1, g_binary(lx, p1, 0)) {
                    Err(e) => Err(e),
                    Ok((right, p2)) => g_comparison_rest(
                        lx,
                        p2,
                        left,
                        ops.push(op),
                        comparators.push(right),
                    ),
                },
            }
        } else if ops.len() == 0 {
            Ok((left, p))
        } else {
            Ok((ExprV::Compare(Box::new(left), ops, comparators), p))
        }
        }),
{
    reveal(g_atom);
    reveal(g_dictorsetmaker);
    reveal(g_dict_rest);
    reveal(g_elem);
    reveal(g_list);
    reveal(g_list_rest);
    reveal(g_arglist);
    reveal(g_subscript);
    reveal(g_opt_test);
    reveal(g_slice_tail);
    reveal(g_trailers);
    reveal(g_atom_expr);
    reveal(g_factor);
    reveal(g_binary);
    reveal(g_binary_rest);
    reveal(g_comparison);
    reveal(g_comparison_rest);
    reveal(g_not_test);
    reveal(g_operand);
    reveal(g_chain);
    reveal(g_chain_rest);
    reveal(g_test);
    reveal(g_testlist);
    reveal(g_expr_stmt);
    reveal(g_assign_rest);
    reveal(g_small_stmt);
    reveal(g_simple_stmt);
    reveal(g_suite);
    reveal(g_block);
    reveal(g_if_tail);
    reveal(g_while_tail);
    reveal(g_for_tail);
    reveal(g_def_tail);
    reveal(g_stmt);
}

/// What [`g_not_test`] is, one step deep.
pub proof fn unfold_g_not_test(
    lx: Lexed,
    p: int,
)
    ensures
        g_not_test(lx, p) == ({
        if kind_at(lx, p) == TokenKind::NOT {
            match advance(lx, p) {
                Err(e) => Err(e),
                Ok(p1) => match g_not_test(lx, p1) {
                    Err(e) => Err(e),
                    Ok((operand, p2)) => Ok(
                        (ExprV::UnaryOp(ASTUnaryOp::Not, Box::new(operand)), p2),
                    ),
                },
            }
        } else {
            g_comparison(lx, p)
        }
        }),
{
    reveal(g_atom);
    reveal(g_dictorsetmaker);
    reveal(g_dict_rest);
    reveal(g_elem);
    reveal(g_list);
    reveal(g_list_rest);
    reveal(g_arglist);
    reveal(g_subscript);
    reveal(g_opt_test);
    reveal(g_slice_tail);
    reveal(g_trailers);
    reveal(g_atom_expr);
    reveal(g_factor);
    reveal(g_binary);
    reveal(g_binary_rest);
    reveal(g_comparison);
    reveal(g_comparison_rest);
    reveal(g_not_test);
    reveal(g_operand);
    reveal(g_chain);
    reveal(g_chain_rest);
    reveal(g_test);
    reveal(g_testlist);
    reveal(g_expr_stmt);
    reveal(g_assign_rest);
    reveal(g_small_stmt);
    reveal(g_simple_stmt);
    reveal(g_suite);
    reveal(g_block);
    reveal(g_if_tail);
    reveal(g_while_tail);
    reveal(g_for_tail);
    reveal(g_def_tail);
    reveal(g_stmt);
}

/// What [`g_operand`] is, one step deep.
pub proof fn unfold_g_operand(
    lx: Lexed,
    p: int,
    op: ASTBoolOp,
)
    ensures
        g_operand(lx, p, op) == ({
        if op == ASTBoolOp::And {
            g_not_test(lx, p)
        } else {
            g_chain(lx, p, ASTBoolOp::And)
        }
        }),
{
    reveal(g_atom);
    reveal(g_dictorsetmaker);
    reveal(g_dict_rest);
    reveal(g_elem);
    reveal(g_list);
    reveal(g_list_rest);
    reveal(g_arglist);
    reveal(g_subscript);
    reveal(g_opt_test);
    reveal(g_slice_tail);
    reveal(g_trailers);
    reveal(g_atom_expr);
    reveal(g_factor);
    reveal(g_binary);
    reveal(g_binary_rest);
    reveal(g_comparison);
    reveal(g_comparison_rest);
    reveal(g_not_test);
    reveal(g_operand);
    reveal(g_chain);
    reveal(g_chain_rest);
    reveal(g_test);
    reveal(g_testlist);
    reveal(g_expr_stmt);
    reveal(g_assign_rest);
    reveal(g_small_stmt);
    reveal(g_simple_stmt);
    reveal(g_suite);
    reveal(g_block);
    reveal(g_if_tail);
    reveal(g_while_tail);
    reveal(g_for_tail);
    reveal(g_def_tail);
    reveal(g_stmt);
}

/// What [`g_chain`] is, one step deep.
pub proof fn unfold_g_chain(
    lx: Lexed,
    p: int,
    op: ASTBoolOp,
)
    ensures
        g_chain(lx, p, op) == ({
        match forward(p, g_operand(lx, p, op)) {
            Err(e) => Err(e),
            Ok((first, p1)) => match g_chain_rest(lx, p1, op, seq![first]) {
                Err(e) => Err(e),
                Ok((operands, p2)) => Ok((single_or_bool(op, operands), p2)),
            },
        }
        }),
{
    reveal(g_atom);
    reveal(g_dictorsetmaker);
    reveal(g_dict_rest);
    reveal(g_elem);
    reveal(g_list);
    reveal(g_list_rest);
    reveal(g_arglist);
    reveal(g_subscript);
    reveal(g_opt_test);
    reveal(g_slice_tail);
    reveal(g_trailers);
    reveal(g_atom_expr);
    reveal(g_factor);
    reveal(g_binary);
    reveal(g_binary_rest);
    reveal(g_comparison);
    reveal(g_comparison_rest);
    reveal(g_not_test);
    reveal(g_operand);
    reveal(g_chain);
    reveal(g_chain_rest);
    reveal(g_test);
    reveal(g_testlist);
    reveal(g_expr_stmt);
    reveal(g_assign_rest);
    reveal(g_small_stmt);
    reveal(g_simple_stmt);
    reveal(g_suite);
    reveal(g_block);
    reveal(g_if_tail);
    reveal(g_while_tail);
    reveal(g_for_tail);
    reveal(g_def_tail);
    reveal(g_stmt);
}

/// What [`g_chain_rest`] is, one step deep.
pub proof fn unfold_g_chain_rest(
    lx: Lexed,
    p: int,
    op: ASTBoolOp,
    acc: Seq<ExprV>,
)
    ensures
        g_chain_rest(lx, p, op, acc) == ({
        if kind_at(lx, p) == (if op == ASTBoolOp::And {
            TokenKind::AND
        } else {
            TokenKind::OR
        }) {
            match advance(lx, p) {
                Err(e) => Err(e),
                Ok(p1) => match forward(p1, g_operand(lx, p1, op)) {
                    Err(e) => Err(e),
                    Ok((next, p2)) => g_chain_rest(lx, p2, op, acc.push(next)),
                },
            }
        } else {
            Ok((acc, p))
        }
        }),
{
    reveal(g_atom);
    reveal(g_dictorsetmaker);
    reveal(g_dict_rest);
    reveal(g_elem);
    reveal(g_list);
    reveal(g_list_rest);
    reveal(g_arglist);
    reveal(g_subscript);
    reveal(g_opt_test);
    reveal(g_slice_tail);
    reveal(g_trailers);
    reveal(g_atom_expr);
    reveal(g_factor);
    reveal(g_binary);
    reveal(g_binary_rest);
    reveal(g_comparison);
    reveal(g_comparison_rest);
    reveal(g_not_test);
    reveal(g_operand);
    reveal(g_chain);
    reveal(g_chain_rest);
    reveal(g_test);
    reveal(g_testlist);
    reveal(g_expr_stmt);
    reveal(g_assign_rest);
    reveal(g_small_stmt);
    reveal(g_simple_stmt);
    reveal(g_suite);
    reveal(g_block);
    reveal(g_if_tail);
    reveal(g_while_tail);
    reveal(g_for_tail);
    reveal(g_def_tail);
    reveal(g_stmt);
}

/// What [`g_test`] is, one step deep.
pub proof fn unfold_g_test(
    lx: Lexed,
    p: int,
)
    ensures
        g_test(lx, p) == ({
        match forward(p, g_chain(lx, p, ASTBoolOp::Or)) {
            Err(e) => Err(e),
            Ok((body, p1)) => if kind_at(lx, p1) == TokenKind::IF {
                match advance(lx, p1) {
                    Err(e) => Err(e),
                    Ok(p2) => match forward(p2, g_chain(lx, p2, ASTBoolOp::Or)) {
                        Err(e) => Err(e),
                        Ok((test, p3)) => match eat(lx, p3, TokenKind::ELSE) {
                            Err(e) => Err(e),
                            Ok(p4) => match g_test(lx, p4) {
                                Err(e) => Err(e),
                                Ok((orelse, p5)) => Ok(
                                    (
                                        ExprV::IfExp(
                                            Box::new(test),
                                            Box::new(body),
                                            Box::new(orelse),
                                        ),
                                        p5,
                                    ),
                                ),
                            },
                        },
                    },
                }
            } else {
                Ok((body, p1))
            },
        }
        }),
{
    reveal(g_atom);
    reveal(g_dictorsetmaker);
    reveal(g_dict_rest);
    reveal(g_elem);
    reveal(g_list);
    reveal(g_list_rest);
    reveal(g_arglist);
    reveal(g_subscript);
    reveal(g_opt_test);
    reveal(g_slice_tail);
    reveal(g_trailers);
    reveal(g_atom_expr);
    reveal(g_factor);
    reveal(g_binary);
    reveal(g_binary_rest);
    reveal(g_comparison);
    reveal(g_comparison_rest);
    reveal(g_not_test);
    reveal(g_operand);
    reveal(g_chain);
    reveal(g_chain_rest);
    reveal(g_test);
    reveal(g_testlist);
    reveal(g_expr_stmt);
    reveal(g_assign_rest);
    reveal(g_small_stmt);
    reveal(g_simple_stmt);
    reveal(g_suite);
    reveal(g_block);
    reveal(g_if_tail);
    reveal(g_while_tail);
    reveal(g_for_tail);
    reveal(g_def_tail);
    reveal(g_stmt);
}

/// What [`g_testlist`] is, one step deep.
pub proof fn unfold_g_testlist(
    lx: Lexed,
    p: int,
)
    ensures
        g_testlist(lx, p) == ({
        match g_list(lx, p, true) {
            Err(e) => Err(e),
            Ok((found, p1)) => Ok((single_or_tuple(found.0), p1)),
        }
        }),
{
    reveal(g_atom);
    reveal(g_dictorsetmaker);
    reveal(g_dict_rest);
    reveal(g_elem);
    reveal(g_list);
    reveal(g_list_rest);
    reveal(g_arglist);
    reveal(g_subscript);
    reveal(g_opt_test);
    reveal(g_slice_tail);
    reveal(g_trailers);
    reveal(g_atom_expr);
    reveal(g_factor);
    reveal(g_binary);
    reveal(g_binary_rest);
    reveal(g_comparison);
    reveal(g_comparison_rest);
    reveal(g_not_test);
    reveal(g_operand);
    reveal(g_chain);
    reveal(g_chain_rest);
    reveal(g_test);
    reveal(g_testlist);
    reveal(g_expr_stmt);
    reveal(g_assign_rest);
    reveal(g_small_stmt);
    reveal(g_simple_stmt);
    reveal(g_suite);
    reveal(g_block);
    reveal(g_if_tail);
    reveal(g_while_tail);
    reveal(g_for_tail);
    reveal(g_def_tail);
    reveal(g_stmt);
}

/// What [`g_expr_stmt`] is, one step deep.
pub proof fn unfold_g_expr_stmt(
    lx: Lexed,
    p: int,
)
    ensures
        g_expr_stmt(lx, p) == ({
        match forward(p, g_testlist(lx, p)) {
            Err(e) => Err(e),
            Ok((first, p1)) => if kind_at(lx, p1) == TokenKind::EQ {
                g_assign_rest(lx, p1, seq![first])
            } else {
                Ok((StmtV::Expr(first), p1))
            },
        }
        }),
{
    reveal(g_atom);
    reveal(g_dictorsetmaker);
    reveal(g_dict_rest);
    reveal(g_elem);
    reveal(g_list);
    reveal(g_list_rest);
    reveal(g_arglist);
    reveal(g_subscript);
    reveal(g_opt_test);
    reveal(g_slice_tail);
    reveal(g_trailers);
    reveal(g_atom_expr);
    reveal(g_factor);
    reveal(g_binary);
    reveal(g_binary_rest);
    reveal(g_comparison);
    reveal(g_comparison_rest);
    reveal(g_not_test);
    reveal(g_operand);
    reveal(g_chain);
    reveal(g_chain_rest);
    reveal(g_test);
    reveal(g_testlist);
    reveal(g_expr_stmt);
    reveal(g_assign_rest);
    reveal(g_small_stmt);
    reveal(g_simple_stmt);
    reveal(g_suite);
    reveal(g_block);
    reveal(g_if_tail);
    reveal(g_while_tail);
    reveal(g_for_tail);
    reveal(g_def_tail);
    reveal(g_stmt);
}

/// What [`g_assign_rest`] is, one step deep.
pub proof fn unfold_g_assign_rest(
    lx: Lexed,
    p: int,
    targets: Seq<ExprV>,
)
    ensures
        g_assign_rest(lx, p, targets) == ({
        match advance(lx, p) {
            Err(e) => Err(e),
            Ok(p1) => match forward(p1, g_testlist(lx, p1)) {
                Err(e) => Err(e),
                Ok((value, p2)) => if kind_at(lx, p2) == TokenKind::EQ {
                    g_assign_rest(lx, p2, targets.push(value))
                } else {
                    Ok((StmtV::Assign(targets, value), p2))
                },
            },
        }
        }),
{
    reveal(g_atom);
    reveal(g_dictorsetmaker);
    reveal(g_dict_rest);
    reveal(g_elem);
    reveal(g_list);
    reveal(g_list_rest);
    reveal(g_arglist);
    reveal(g_subscript);
    reveal(g_opt_test);
    reveal(g_slice_tail);
    reveal(g_trailers);
    reveal(g_atom_expr);
    reveal(g_factor);
    reveal(g_binary);
    reveal(g_binary_rest);
    reveal(g_comparison);
    reveal(g_comparison_rest);
    reveal(g_not_test);
    reveal(g_operand);
    reveal(g_chain);
    reveal(g_chain_rest);
    reveal(g_test);
    reveal(g_testlist);
    reveal(g_expr_stmt);
    reveal(g_assign_rest);
    reveal(g_small_stmt);
    reveal(g_simple_stmt);
    reveal(g_suite);
    reveal(g_block);
    reveal(g_if_tail);
    reveal(g_while_tail);
    reveal(g_for_tail);
    reveal(g_def_tail);
    reveal(g_stmt);
}

/// What [`g_small_stmt`] is, one step deep.
pub proof fn unfold_g_small_stmt(
    lx: Lexed,
    p: int,
)
    ensures
        g_small_stmt(lx, p) == ({
        let k = kind_at(lx, p);
        if starts_test(k) {
            g_expr_stmt(lx, p)
        } else if k == TokenKind::DEL || k == TokenKind::PASS || k == TokenKind::BREAK || k
            == TokenKind::CONTINUE || k == TokenKind::RETURN || k == TokenKind::GLOBAL {
            match advance(lx, p) {
                Err(e) => Err(e),
                Ok(p1) => if k == TokenKind::DEL {
                    match g_list(lx, p1, false) {
                        Err(e) => Err(e),
                        Ok((found, p2)) => Ok((StmtV::Delete(found.0), p2)),
                    }
                } else if k == TokenKind::PASS {
                    Ok((StmtV::Pass, p1))
                } else if k == TokenKind::BREAK {
                    Ok((StmtV::Break, p1))
                } else if k == TokenKind::CONTINUE {
                    Ok((StmtV::Continue, p1))
                } else if k == TokenKind::RETURN {
                    if starts_test(kind_at(lx, p1)) {
                        match g_testlist(lx, p1) {
                            Err(e) => Err(e),
                            Ok((value, p2)) => Ok((StmtV::Return(Some(value)), p2)),
                        }
                    } else {
                        Ok((StmtV::Return(None), p1))
                    }
                } else {
                    match g_names(lx, p1) {
                        Err(e) => Err(e),
                        Ok((names, p2)) => Ok((StmtV::Global(names), p2)),
                    }
                },
            }
        } else {
            Err(ParseError::UnexpectedToken)
        }
        }),
{
    reveal(g_atom);
    reveal(g_dictorsetmaker);
    reveal(g_dict_rest);
    reveal(g_elem);
    reveal(g_list);
    reveal(g_list_rest);
    reveal(g_arglist);
    reveal(g_subscript);
    reveal(g_opt_test);
    reveal(g_slice_tail);
    reveal(g_trailers);
    reveal(g_atom_expr);
    reveal(g_factor);
    reveal(g_binary);
    reveal(g_binary_rest);
    reveal(g_comparison);
    reveal(g_comparison_rest);
    reveal(g_not_test);
    reveal(g_operand);
    reveal(g_chain);
    reveal(g_chain_rest);
    reveal(g_test);
    reveal(g_testlist);
    reveal(g_expr_stmt);
    reveal(g_assign_rest);
    reveal(g_small_stmt);
    reveal(g_simple_stmt);
    reveal(g_suite);
    reveal(g_block);
    reveal(g_if_tail);
    reveal(g_while_tail);
    reveal(g_for_tail);
    reveal(g_def_tail);
    reveal(g_stmt);
}

/// What [`g_simple_stmt`] is, one step deep.
pub proof fn unfold_g_simple_stmt(
    lx: Lexed,
    p: int,
)
    ensures
        g_simple_stmt(lx, p) == ({
        match forward(p, g_small_stmt(lx, p)) {
            Err(e) => Err(e),
            Ok((stmt, p1)) => if kind_at(lx, p1) == TokenKind::EOF {
                Ok((stmt, p1))
            } else {
                match eat(lx, p1, TokenKind::NEWLINE) {
                    Err(e) => Err(e),
                    Ok(p2) => Ok((stmt, p2)),
                }
            },
        }
        }),
{
    reveal(g_atom);
    reveal(g_dictorsetmaker);
    reveal(g_dict_rest);
    reveal(g_elem);
    reveal(g_list);
    reveal(g_list_rest);
    reveal(g_arglist);
    reveal(g_subscript);
    reveal(g_opt_test);
    reveal(g_slice_tail);
    reveal(g_trailers);
    reveal(g_atom_expr);
    reveal(g_factor);
    reveal(g_binary);
    reveal(g_binary_rest);
    reveal(g_comparison);
    reveal(g_comparison_rest);
    reveal(g_not_test);
    reveal(g_operand);
    reveal(g_chain);
    reveal(g_chain_rest);
    reveal(g_test);
    reveal(g_testlist);
    reveal(g_expr_stmt);
    reveal(g_assign_rest);
    reveal(g_small_stmt);
    reveal(g_simple_stmt);
    reveal(g_suite);
    reveal(g_block);
    reveal(g_if_tail);
    reveal(g_while_tail);
    reveal(g_for_tail);
    reveal(g_def_tail);
    reveal(g_stmt);
}

/// What [`g_suite`] is, one step deep.
pub proof fn unfold_g_suite(
    lx: Lexed,
    p: int,
)
    ensures
        g_suite(lx, p) == ({
        if kind_at(lx, p) == TokenKind::NEWLINE {
            match advance(lx, p) {
                Err(e) => Err(e),
                Ok(p1) => match eat(lx, p1, TokenKind::INDENT) {
                    Err(e) => Err(e),
                    Ok(p2) => g_block(lx, p2, Seq::empty()),
                },
            }
        } else {
            match g_simple_stmt(lx, p) {
                Err(e) => Err(e),
                Ok((stmt, p1)) => Ok((seq![stmt], p1)),
            }
        }
        }),
{
    reveal(g_atom);
    reveal(g_dictorsetmaker);
    reveal(g_dict_rest);
    reveal(g_elem);
    reveal(g_list);
    reveal(g_list_rest);
    reveal(g_arglist);
    reveal(g_subscript);
    reveal(g_opt_test);
    reveal(g_slice_tail);
    reveal(g_trailers);
    reveal(g_atom_expr);
    reveal(g_factor);
    reveal(g_binary);
    reveal(g_binary_rest);
    reveal(g_comparison);
    reveal(g_comparison_rest);
    reveal(g_not_test);
    reveal(g_operand);
    reveal(g_chain);
    reveal(g_chain_rest);
    reveal(g_test);
    reveal(g_testlist);
    reveal(g_expr_stmt);
    reveal(g_assign_rest);
    reveal(g_small_stmt);
    reveal(g_simple_stmt);
    reveal(g_suite);
    reveal(g_block);
    reveal(g_if_tail);
    reveal(g_while_tail);
    reveal(g_for_tail);
    reveal(g_def_tail);
    reveal(g_stmt);
}

/// What [`g_block`] is, one step deep.
pub proof fn unfold_g_block(
    lx: Lexed,
    p: int,
    acc: Seq<StmtV>,
)
    ensures
        g_block(lx, p, acc) == ({
        if kind_at(lx, p) == TokenKind::DEDENT && acc.len() > 0 {
            match advance(lx, p) {
                Err(e) => Err(e),
                Ok(p1) => Ok((acc, p1)),
            }
        } else if 0 <= p < lx.tokens.len() {
            match forward(p + 1, g_stmt(lx, p)) {
                Err(e) => Err(e),
                Ok((stmt, p1)) => g_block(lx, p1, acc.push(stmt)),
            }
        } else {
            Err(ParseError::UnexpectedToken)
        }
        }),
{
    reveal(g_atom);
    reveal(g_dictorsetmaker);
    reveal(g_dict_rest);
    reveal(g_elem);
    reveal(g_list);
    reveal(g_list_rest);
    reveal(g_arglist);
    reveal(g_subscript);
    reveal(g_opt_test);
    reveal(g_slice_tail);
    reveal(g_trailers);
    reveal(g_atom_expr);
    reveal(g_factor);
    reveal(g_binary);
    reveal(g_binary_rest);
    reveal(g_comparison);
    reveal(g_comparison_rest);
    reveal(g_not_test);
    reveal(g_operand);
    reveal(g_chain);
    reveal(g_chain_rest);
    reveal(g_test);
    reveal(g_testlist);
    reveal(g_expr_stmt);
    reveal(g_assign_rest);
    reveal(g_small_stmt);
    reveal(g_simple_stmt);
    reveal(g_suite);
    reveal(g_block);
    reveal(g_if_tail);
    reveal(g_while_tail);
    reveal(g_for_tail);
    reveal(g_def_tail);
    reveal(g_stmt);
}

/// What [`g_if_tail`] is, one step deep.
pub proof fn unfold_g_if_tail(
    lx: Lexed,
    p: int,
)
    ensures
        g_if_tail(lx, p) == ({
        match forward(p, g_test(lx, p)) {
            Err(e) => Err(e),
            Ok((test, p1)) => match eat(lx, p1, TokenKind::COLON) {
                Err(e) => Err(e),
                Ok(p2) => match forward(p2, g_suite(lx, p2)) {
                    Err(e) => Err(e),
                    Ok((body, p3)) => if kind_at(lx, p3) == TokenKind::ELIF {
                        match advance(lx, p3) {
                            Err(e) => Err(e),
                            Ok(p4) => match g_if_tail(lx, p4) {
                                Err(e) => Err(e),
                                Ok((nested, p5)) => Ok((StmtV::If(test, body, seq![nested]), p5)),
                            },
                        }
                    } else if kind_at(lx, p3) == TokenKind::ELSE {
                        match advance(lx, p3) {
                            Err(e) => Err(e),
                            Ok(p4) => match eat(lx, p4, TokenKind::COLON) {
                                Err(e) => Err(e),
                                Ok(p5) => match g_suite(lx, p5) {
                                    Err(e) => Err(e),
                                    Ok((orelse, p6)) => Ok((StmtV::If(test, body, orelse), p6)),
                                },
                            },
                        }
                    } else {
                        Ok((StmtV::If(test, body, Seq::empty()), p3))
                    },
                },
            },
        }
        }),
{
    reveal(g_atom);
    reveal(g_dictorsetmaker);
    reveal(g_dict_rest);
    reveal(g_elem);
    reveal(g_list);
    reveal(g_list_rest);
    reveal(g_arglist);
    reveal(g_subscript);
    reveal(g_opt_test);
    reveal(g_slice_tail);
    reveal(g_trailers);
    reveal(g_atom_expr);
    reveal(g_factor);
    reveal(g_binary);
    reveal(g_binary_rest);
    reveal(g_comparison);
    reveal(g_comparison_rest);
    reveal(g_not_test);
    reveal(g_operand);
    reveal(g_chain);
    reveal(g_chain_rest);
    reveal(g_test);
    reveal(g_testlist);
    reveal(g_expr_stmt);
    reveal(g_assign_rest);
    reveal(g_small_stmt);
    reveal(g_simple_stmt);
    reveal(g_suite);
    reveal(g_block);
    reveal(g_if_tail);
    reveal(g_while_tail);
    reveal(g_for_tail);
    reveal(g_def_tail);
    reveal(g_stmt);
}

/// What [`g_while_tail`] is, one step deep.
pub proof fn unfold_g_while_tail(
    lx: Lexed,
    p: int,
)
    ensures
        g_while_tail(lx, p) == ({
        match forward(p, g_test(lx, p)) {
            Err(e) => Err(e),
            Ok((test, p1)) => match eat(lx, p1, TokenKind::COLON) {
                Err(e) => Err(e),
                Ok(p2) => match g_suite(lx, p2) {
                    Err(e) => Err(e),
                    Ok((body, p3)) => Ok((StmtV::While(test, body), p3)),
                },
            },
        }
        }),
{
    reveal(g_atom);
    reveal(g_dictorsetmaker);
    reveal(g_dict_rest);
    reveal(g_elem);
    reveal(g_list);
    reveal(g_list_rest);
    reveal(g_arglist);
    reveal(g_subscript);
    reveal(g_opt_test);
    reveal(g_slice_tail);
    reveal(g_trailers);
    reveal(g_atom_expr);
    reveal(g_factor);
    reveal(g_binary);
    reveal(g_binary_rest);
    reveal(g_comparison);
    reveal(g_comparison_rest);
    reveal(g_not_test);
    reveal(g_operand);
    reveal(g_chain);
    reveal(g_chain_rest);
    reveal(g_test);
    reveal(g_testlist);
    reveal(g_expr_stmt);
    reveal(g_assign_rest);
    reveal(g_small_stmt);
    reveal(g_simple_stmt);
    reveal(g_suite);
    reveal(g_block);
    reveal(g_if_tail);
    reveal(g_while_tail);
    reveal(g_for_tail);
    reveal(g_def_tail);
    reveal(g_stmt);
}

/// What [`g_for_tail`] is, one step deep.
pub proof fn unfold_g_for_tail(
    lx: Lexed,
    p: int,
)
    ensures
        g_for_tail(lx, p) == ({
        match forward(p, g_list(lx, p, false)) {
            Err(e) => Err(e),
            Ok((targets, p1)) => match eat(lx, p1, TokenKind::IN) {
                Err(e) => Err(e),
                Ok(p2) => match forward(p2, g_testlist(lx, p2)) {
                    Err(e) => Err(e),
                    Ok((iter, p3)) => match eat(lx, p3, TokenKind::COLON) {
                        Err(e) => Err(e),
                        Ok(p4) => match g_suite(lx, p4) {
                            Err(e) => Err(e),
                            Ok((body, p5)) => Ok(
                                (StmtV::For(single_or_tuple(targets.0), iter, body), p5),
                            ),
                        },
                    },
                },
            },
        }
        }),
{
    reveal(g_atom);
    reveal(g_dictorsetmaker);
    reveal(g_dict_rest);
    reveal(g_elem);
    reveal(g_list);
    reveal(g_list_rest);
    reveal(g_arglist);
    reveal(g_subscript);
    reveal(g_opt_test);
    reveal(g_slice_tail);
    reveal(g_trailers);
    reveal(g_atom_expr);
    reveal(g_factor);
    reveal(g_binary);
    reveal(g_binary_rest);
    reveal(g_comparison);
    reveal(g_comparison_rest);
    reveal(g_not_test);
    reveal(g_operand);
    reveal(g_chain);
    reveal(g_chain_rest);
    reveal(g_test);
    reveal(g_testlist);
    reveal(g_expr_stmt);
    reveal(g_assign_rest);
    reveal(g_small_stmt);
    reveal(g_simple_stmt);
    reveal(g_suite);
    reveal(g_block);
    reveal(g_if_tail);
    reveal(g_while_tail);
    reveal(g_for_tail);
    reveal(g_def_tail);
    reveal(g_stmt);
}

/// What [`g_def_tail`] is, one step deep.
pub proof fn unfold_g_def_tail(
    lx: Lexed,
    p: int,
)
    ensures
        g_def_tail(lx, p) == ({
        match forward(p, g_id(lx, p)) {
            Err(e) => Err(e),
            Ok((name, p1)) => match forward(p1, g_parameters(lx, p1)) {
                Err(e) => Err(e),
                Ok((parameters, p2)) => match eat(lx, p2, TokenKind::COLON) {
                    Err(e) => Err(e),
                    Ok(p3) => match g_suite(lx, p3) {
                        Err(e) => Err(e),
                        Ok((body, p4)) => Ok((StmtV::FuncDef(name, parameters, body), p4)),
                    },
                },
            },
        }
        }),
{
    reveal(g_atom);
    reveal(g_dictorsetmaker);
    reveal(g_dict_rest);
    reveal(g_elem);
    reveal(g_list);
    reveal(g_list_rest);
    reveal(g_arglist);
    reveal(g_subscript);
    reveal(g_opt_test);
    reveal(g_slice_tail);
    reveal(g_trailers);
    reveal(g_atom_expr);
    reveal(g_factor);
    reveal(g_binary);
    reveal(g_binary_rest);
    reveal(g_comparison);
    reveal(g_comparison_rest);
    reveal(g_not_test);
    reveal(g_operand);
    reveal(g_chain);
    reveal(g_chain_rest);
    reveal(g_test);
    reveal(g_testlist);
    reveal(g_expr_stmt);
    reveal(g_assign_rest);
    reveal(g_small_stmt);
    reveal(g_simple_stmt);
    reveal(g_suite);
    reveal(g_block);
    reveal(g_if_tail);
    reveal(g_while_tail);
    reveal(g_for_tail);
    reveal(g_def_tail);
    reveal(g_stmt);
}

/// What [`g_stmt`] is, one step deep.
pub proof fn unfold_g_stmt(
    lx: Lexed,
    p: int,
)
    ensures
        g_stmt(lx, p) == ({
        let k = kind_at(lx, p);
        if k == TokenKind::IF || k == TokenKind::WHILE || k == TokenKind::FOR || k == TokenKind::DEF {
            match advance(lx, p) {
                Err(e) => Err(e),
                Ok(p1) => if k == TokenKind::IF {
                    g_if_tail(lx, p1)
                } else if k == TokenKind::WHILE {
                    g_while_tail(lx, p1)
                } else if k == TokenKind::FOR {
                    g_for_tail(lx, p1)
                } else {
                    g_def_tail(lx, p1)
                },
            }
        } else {
            g_simple_stmt(lx, p)
        }
        }),
{
    reveal(g_atom);
    reveal(g_dictorsetmaker);
    reveal(g_dict_rest);
    reveal(g_elem);
    reveal(g_list);
    reveal(g_list_rest);
    reveal(g_arglist);
    reveal(g_subscript);
    reveal(g_opt_test);
    reveal(g_slice_tail);
    reveal(g_trailers);
    reveal(g_atom_expr);
    reveal(g_factor);
    reveal(g_binary);
    reveal(g_binary_rest);
    reveal(g_comparison);
    reveal(g_comparison_rest);
    reveal(g_not_test);
    reveal(g_operand);
    reveal(g_chain);
    reveal(g_chain_rest);
    reveal(g_test);
    reveal(g_testlist);
    reveal(g_expr_stmt);
    reveal(g_assign_rest);
    reveal(g_small_stmt);
    reveal(g_simple_stmt);
    reveal(g_suite);
    reveal(g_block);
    reveal(g_if_tail);
    reveal(g_while_tail);
    reveal(g_for_tail);
    reveal(g_def_tail);
    reveal(g_stmt);
}

} // verus!
