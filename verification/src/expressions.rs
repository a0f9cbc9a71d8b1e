//! The expressions of the grammar, from atoms up to tests and lists.

use vstd::prelude::*;
use crate::ast::{lemma_exprs_empty, lemma_exprs_push, lemma_exprs_view, ASTBoolOp, ASTCmpOp, ASTConstant, ASTExpr, ASTOperator, ASTSlice, ASTUnaryOp, ExprV, exprs_view};
use crate::errors::ParseError;
use crate::grammar::{leaf, binary_op, g_arglist, g_atom, g_atom_expr, g_binary, g_binary_rest, g_chain, g_chain_rest, g_comp_op, g_comparison, g_comparison_rest, g_dict_rest, g_dictorsetmaker, g_elem, g_factor, g_list, g_list_rest, g_not_test, g_operand, g_opt_test, g_slice_tail, g_subscript, g_test, g_testlist, g_trailers, kind_at, prefix_op, single_or_tuple, starts_comp_op, starts_expr, starts_test, tokens_left};
use crate::parser::{Parser, kept, yields_expr, yields_exprs, yields_list, yields_op, yields_slice};
use crate::token::TokenKind;
use crate::grammar::{unfold_g_arglist, unfold_g_atom, unfold_g_atom_expr, unfold_g_binary, unfold_g_binary_rest, unfold_g_chain, unfold_g_chain_rest, unfold_g_comparison, unfold_g_comparison_rest, unfold_g_dict_rest, unfold_g_dictorsetmaker, unfold_g_elem, unfold_g_factor, unfold_g_list, unfold_g_list_rest, unfold_g_not_test, unfold_g_operand, unfold_g_opt_test, unfold_g_slice_tail, unfold_g_subscript, unfold_g_test, unfold_g_testlist, unfold_g_trailers};

verus! {

pub(crate) fn is_expr_start(k: TokenKind) -> (r: bool)
    ensures
        r == starts_expr(k),
{
    proof {
        reveal(starts_expr);
    }
    match k {
        TokenKind::PLUS
        | TokenKind::MINUS
        | TokenKind::TILDE
        | TokenKind::LPAREN
        | TokenKind::LBRACE
        | TokenKind::LBRACKET
        | TokenKind::ID
        | TokenKind::INT
        | TokenKind::FLOAT
        | TokenKind::STRING
        | TokenKind::NONE
        | TokenKind::TRUE
        | TokenKind::FALSE => true,
        _ => false,
    }
}

pub(crate) fn is_test_start(k: TokenKind) -> (r: bool)
    ensures
        r == starts_test(k),
{
    proof {
        reveal(starts_test);
    }
    k == TokenKind::NOT || is_expr_start(k)
}

pub(crate) fn is_comp_op_start(k: TokenKind) -> (r: bool)
    ensures
        r == starts_comp_op(k),
{
    proof {
        reveal(starts_comp_op);
    }
    match k {
        TokenKind::LT
        | TokenKind::GT
        | TokenKind::EQEQ
        | TokenKind::GEQ
        | TokenKind::LEQ
        | TokenKind::NEQ
        | TokenKind::IN
        | TokenKind::NOT
        | TokenKind::IS => true,
        _ => false,
    }
}

pub(crate) fn binary_operator(level: u8, k: TokenKind) -> (r: Option<ASTOperator>)
    ensures
        r == binary_op(level as nat, k),
{
    proof {
        reveal(binary_op);
    }
    match (level, k) {
        (0, TokenKind::BAR) => Some(ASTOperator::BitOr),
        (1, TokenKind::XOR) => Some(ASTOperator::BitXor),
        (2, TokenKind::AMP) => Some(ASTOperator::BitAnd),
        (3, TokenKind::LSHIFT) => Some(ASTOperator::LShift),
        (3, TokenKind::RSHIFT) => Some(ASTOperator::RShift),
        (4, TokenKind::PLUS) => Some(ASTOperator::Add),
        (4, TokenKind::MINUS) => Some(ASTOperator::Sub),
        (5, TokenKind::MUL) => Some(ASTOperator::Mul),
        (5, TokenKind::DIV) => Some(ASTOperator::Div),
        (5, TokenKind::MOD) => Some(ASTOperator::Mod),
        _ => None,
    }
}

pub(crate) fn prefix_operator(k: TokenKind) -> (r: Option<ASTUnaryOp>)
    ensures
        r == prefix_op(k),
{
    proof {
        reveal(prefix_op);
    }
    match k {
        TokenKind::PLUS => Some(ASTUnaryOp::UAdd),
        TokenKind::MINUS => Some(ASTUnaryOp::USub),
        TokenKind::TILDE => Some(ASTUnaryOp::Invert),
        _ => None,
    }
}

/// The one element of a list of one, the tuple of a longer list.
pub(crate) fn one_or_tuple(elts: Vec<ASTExpr>) -> (e: ASTExpr)
    ensures
        e@ == single_or_tuple(exprs_view(elts@)),
{
    let mut elts = elts;
    proof {
        lemma_exprs_view(elts@);
    }
    if elts.len() == 1 {
        match elts.pop() {
            Some(e) => e,
            None => ASTExpr::new_tuple(elts),
        }
    } else {
        ASTExpr::new_tuple(elts)
    }
}

impl Parser {
    pub(crate) fn parse_atom(&mut self) -> (r: Result<ASTExpr, ParseError>)
        requires
            old(self).wf(),
        ensures
            yields_expr(*old(self), *final(self), r, g_atom(old(self).lexed(), old(self).cursor())),
            r is Ok ==> final(self).cursor() > old(self).cursor(),
        decreases tokens_left(old(self).lexed(), old(self).cursor()), 10nat,
    {
        proof {
            unfold_g_atom(self.lexed(), self.cursor());
        }
        let k = self.peek();
        match k {
            TokenKind::LPAREN => self.parse_group(true),
            TokenKind::LBRACKET => self.parse_group(false),
            TokenKind::LBRACE => self.parse_braces(),
            _ => self.parse_leaf(),
        }
    }

    /// What stands between parentheses, or between brackets.
    pub(crate) fn parse_group(&mut self, round: bool) -> (r: Result<ASTExpr, ParseError>)
        requires
            old(self).wf(),
            kind_at(old(self).lexed(), old(self).cursor()) == (if round {
                TokenKind::LPAREN
            } else {
                TokenKind::LBRACKET
            }),
        ensures
            yields_expr(*old(self), *final(self), r, g_atom(old(self).lexed(), old(self).cursor())),
            r is Ok ==> final(self).cursor() > old(self).cursor(),
        decreases tokens_left(old(self).lexed(), old(self).cursor()), 9nat,
    {
        proof {
            unfold_g_atom(self.lexed(), self.cursor());
        }
        let close = if round {
            TokenKind::RPAREN
        } else {
            TokenKind::RBRACKET
        };
        self.bump()?;
        if is_test_start(self.peek()) {
            let (elts, trailing_comma) = self.parse_testlist_comp()?;
            self.eat(close)?;
            proof {
                lemma_exprs_view(elts@);
            }
            if round {
                if elts.len() == 1 && !trailing_comma {
                    Ok(one_or_tuple(elts))
                } else {
                    Ok(ASTExpr::new_tuple(elts))
                }
            } else {
                Ok(ASTExpr::new_list(elts))
            }
        } else {
            self.eat(close)?;
            proof {
                lemma_exprs_empty();
            }
            if round {
                Ok(ASTExpr::new_tuple(Vec::new()))
            } else {
                Ok(ASTExpr::new_list(Vec::new()))
            }
        }
    }

    /// What stands between braces.
    pub(crate) fn parse_braces(&mut self) -> (r: Result<ASTExpr, ParseError>)
        requires
            old(self).wf(),
            kind_at(old(self).lexed(), old(self).cursor()) == TokenKind::LBRACE,
        ensures
            yields_expr(*old(self), *final(self), r, g_atom(old(self).lexed(), old(self).cursor())),
            r is Ok ==> final(self).cursor() > old(self).cursor(),
        decreases tokens_left(old(self).lexed(), old(self).cursor()), 9nat,
    {
        proof {
            unfold_g_atom(self.lexed(), self.cursor());
        }
        self.bump()?;
        let made = self.parse_dictorsetmaker()?;
        self.eat(TokenKind::RBRACE)?;
        Ok(made)
    }

    /// A name or a constant.
    pub(crate) fn parse_leaf(&mut self) -> (r: Result<ASTExpr, ParseError>)
        requires
            old(self).wf(),
            kind_at(old(self).lexed(), old(self).cursor()) != TokenKind::LPAREN,
            kind_at(old(self).lexed(), old(self).cursor()) != TokenKind::LBRACKET,
            kind_at(old(self).lexed(), old(self).cursor()) != TokenKind::LBRACE,
        ensures
            yields_expr(*old(self), *final(self), r, g_atom(old(self).lexed(), old(self).cursor())),
            r is Ok ==> final(self).cursor() > old(self).cursor(),
    {
        proof {
            unfold_g_atom(self.lexed(), self.cursor());
            reveal(leaf);
        }
        match self.peek() {
            TokenKind::ID => {
                let name = self.eat_id()?;
                Ok(ASTExpr::new_name(name))
            },
            TokenKind::INT => {
                let num = self.eat_int()?;
                Ok(ASTExpr::new_constant(ASTConstant::Int(num)))
            },
            TokenKind::FLOAT => {
                let num = self.eat_float()?;
                Ok(ASTExpr::new_constant(ASTConstant::Float(num)))
            },
            TokenKind::STRING => {
                let val = self.eat_str()?;
                Ok(ASTExpr::new_constant(ASTConstant::String(val)))
            },
            TokenKind::NONE => {
                self.bump()?;
                Ok(ASTExpr::new_constant(ASTConstant::NoneValue))
            },
            TokenKind::TRUE => {
                self.bump()?;
                Ok(ASTExpr::new_constant(ASTConstant::True))
            },
            TokenKind::FALSE => {
                self.bump()?;
                Ok(ASTExpr::new_constant(ASTConstant::False))
            },
            _ => Err(ParseError::UnexpectedToken),
        }
    }

    pub(crate) fn parse_dictorsetmaker(&mut self) -> (r: Result<ASTExpr, ParseError>)
        requires
            old(self).wf(),
        ensures
            yields_expr(
                *old(self),
                *final(self),
                r,
                g_dictorsetmaker(old(self).lexed(), old(self).cursor()),
            ),
            r is Ok ==> final(self).cursor() > old(self).cursor(),
        decreases tokens_left(old(self).lexed(), old(self).cursor()), 86nat,
    {
        proof {
            unfold_g_dictorsetmaker(self.lexed(), self.cursor());
        }
        let ghost lx = self.lexed();
        let first = self.parse_test()?;
        if self.peek() == TokenKind::COLON {
            self.bump()?;
            let value = self.parse_test()?;
            let mut keys: Vec<ASTExpr> = Vec::new();
            let mut values: Vec<ASTExpr> = Vec::new();
            proof {
                lemma_exprs_empty();
                lemma_exprs_push(keys@, first);
                lemma_exprs_push(values@, value);
            }
            keys.push(first);
            values.push(value);
            let ghost goal = g_dict_rest(lx, self.cursor(), exprs_view(keys@), exprs_view(values@));
            loop
                invariant_except_break
                    g_dict_rest(lx, self.cursor(), exprs_view(keys@), exprs_view(values@)) == goal,
                invariant
                    kept(*old(self), *self),
                    lx == self.lexed(),
                    self.cursor() > old(self).cursor(),
                    goal == g_dictorsetmaker(lx, old(self).cursor()),
                ensures
                    goal == Ok::<(ExprV, int), ParseError>(
                        (ExprV::Dict(exprs_view(keys@), exprs_view(values@)), self.cursor()),
                    ),
                decreases tokens_left(self.lexed(), self.cursor()),
            {
                proof {
                    unfold_g_dict_rest(lx, self.cursor(), exprs_view(keys@), exprs_view(values@));
                }
                if self.peek() != TokenKind::COMMA {
                    break ;
                }
                self.bump()?;
                if !is_test_start(self.peek()) {
                    break ;
                }
                let key = self.parse_test()?;
                self.eat(TokenKind::COLON)?;
                let value = self.parse_test()?;
                proof {
                    lemma_exprs_push(keys@, key);
                    lemma_exprs_push(values@, value);
                }
                keys.push(key);
                values.push(value);
            }
            Ok(ASTExpr::new_dict(keys, values))
        } else {
            let mut body: Vec<ASTExpr> = Vec::new();
            proof {
                lemma_exprs_empty();
                lemma_exprs_push(body@, first);
            }
            body.push(first);
            let (body, _) = self.parse_list_rest(true, body)?;
            Ok(ASTExpr::new_set_display(body))
        }
    }

    /// One element of a list: a test, or an expression without `not`.
    pub(crate) fn parse_elem(&mut self, of_tests: bool) -> (r: Result<ASTExpr, ParseError>)
        requires
            old(self).wf(),
        ensures
            yields_expr(
                *old(self),
                *final(self),
                r,
                g_elem(old(self).lexed(), old(self).cursor(), of_tests),
            ),
            r is Ok ==> final(self).cursor() > old(self).cursor(),
        decreases tokens_left(old(self).lexed(), old(self).cursor()), 82nat,
    {
        proof {
            unfold_g_elem(self.lexed(), self.cursor(), of_tests);
        }
        if of_tests {
            self.parse_test()
        } else {
            self.parse_expr()
        }
    }

    /// The elements of a list behind those in `acc`, and whether a comma
    /// ends the list.
    pub(crate) fn parse_list_rest(&mut self, of_tests: bool, first: Vec<ASTExpr>) -> (r: Result<
        (Vec<ASTExpr>, bool),
        ParseError,
    >)
        requires
            old(self).wf(),
        ensures
            yields_list(
                *old(self),
                *final(self),
                r,
                g_list_rest(old(self).lexed(), old(self).cursor(), of_tests, exprs_view(first@)),
            ),
        decreases tokens_left(old(self).lexed(), old(self).cursor()), 5nat,
    {
        proof {
            unfold_g_list_rest(self.lexed(), self.cursor(), of_tests, exprs_view(first@));
        }
        let ghost lx = self.lexed();
        let ghost goal = g_list_rest(lx, self.cursor(), of_tests, exprs_view(first@));
        let mut acc = first;
        let mut trailing_comma = false;
        loop
            invariant_except_break
                g_list_rest(lx, self.cursor(), of_tests, exprs_view(acc@)) == goal,
                !trailing_comma,
            invariant
                kept(*old(self), *self),
                lx == self.lexed(),
                goal == g_list_rest(lx, old(self).cursor(), of_tests, exprs_view(first@)),
            ensures
                goal == Ok::<((Seq<ExprV>, bool), int), ParseError>(
                    ((exprs_view(acc@), trailing_comma), self.cursor()),
                ),
            decreases tokens_left(self.lexed(), self.cursor()),
        {
            proof {
                unfold_g_list_rest(lx, self.cursor(), of_tests, exprs_view(acc@));
            }
            if self.peek() != TokenKind::COMMA {
                break ;
            }
            self.bump()?;
            let k = self.peek();
            if !((of_tests && is_test_start(k)) || (!of_tests && is_expr_start(k))) {
                trailing_comma = true;
                break ;
            }
            let next = self.parse_elem(of_tests)?;
            proof {
                lemma_exprs_push(acc@, next);
            }
            acc.push(next);
        }
        Ok((acc, trailing_comma))
    }

    /// `list := elem (',' elem)* [',']`, with whether a comma ends it.
    pub(crate) fn parse_list(&mut self, of_tests: bool) -> (r: Result<(Vec<ASTExpr>, bool), ParseError>)
        requires
            old(self).wf(),
        ensures
            yields_list(
                *old(self),
                *final(self),
                r,
                g_list(old(self).lexed(), old(self).cursor(), of_tests),
            ),
            r is Ok ==> final(self).cursor() > old(self).cursor(),
        decreases tokens_left(old(self).lexed(), old(self).cursor()), 84nat,
    {
        proof {
            unfold_g_list(self.lexed(), self.cursor(), of_tests);
        }
        let first = self.parse_elem(of_tests)?;
        let mut acc: Vec<ASTExpr> = Vec::new();
        proof {
            lemma_exprs_empty();
            lemma_exprs_push(acc@, first);
        }
        acc.push(first);
        self.parse_list_rest(of_tests, acc)
    }

    pub(crate) fn parse_testlist_comp(&mut self) -> (r: Result<(Vec<ASTExpr>, bool), ParseError>)
        requires
            old(self).wf(),
        ensures
            yields_list(
                *old(self),
                *final(self),
                r,
                g_list(old(self).lexed(), old(self).cursor(), true),
            ),
            r is Ok ==> final(self).cursor() > old(self).cursor(),
        decreases tokens_left(old(self).lexed(), old(self).cursor()), 85nat,
    {
        proof {
            unfold_g_list(self.lexed(), self.cursor(), true);
        }
        self.parse_list(true)
    }

    pub(crate) fn parse_exprlist(&mut self) -> (r: Result<Vec<ASTExpr>, ParseError>)
        requires
            old(self).wf(),
        ensures
            kept(*old(self), *final(self)),
            match r {
                Ok(elts) => g_list(old(self).lexed(), old(self).cursor(), false) matches Ok(found)
                    && found.0.0 == exprs_view(elts@) && found.1 == final(self).cursor(),
                Err(e) => g_list(old(self).lexed(), old(self).cursor(), false) == Err::<
                    ((Seq<ExprV>, bool), int),
                    ParseError,
                >(e),
            },
            r is Ok ==> final(self).cursor() > old(self).cursor(),
        decreases tokens_left(old(self).lexed(), old(self).cursor()), 85nat,
    {
        proof {
            unfold_g_list(self.lexed(), self.cursor(), false);
        }
        let (elts, _) = self.parse_list(false)?;
        Ok(elts)
    }

    pub(crate) fn parse_arglist(&mut self) -> (r: Result<Vec<ASTExpr>, ParseError>)
        requires
            old(self).wf(),
        ensures
            yields_exprs(
                *old(self),
                *final(self),
                r,
                g_arglist(old(self).lexed(), old(self).cursor()),
            ),
        decreases tokens_left(old(self).lexed(), old(self).cursor()), 86nat,
    {
        proof {
            unfold_g_arglist(self.lexed(), self.cursor());
        }
        if self.peek() == TokenKind::RPAREN {
            proof {
                lemma_exprs_empty();
            }
            Ok(Vec::new())
        } else {
            let (elts, _) = self.parse_list(true)?;
            Ok(elts)
        }
    }

    /// An optional test: the test at the current token if one begins
    /// there.
    pub(crate) fn parse_opt_test(&mut self) -> (r: Result<Option<Box<ASTExpr>>, ParseError>)
        requires
            old(self).wf(),
        ensures
            kept(*old(self), *final(self)),
            match r {
                Ok(found) => g_opt_test(old(self).lexed(), old(self).cursor()) == Ok::<
                    (Option<Box<ExprV>>, int),
                    ParseError,
                >(
                    (
                        match found {
                            Some(e) => Some(Box::new(e@)),
                            None => None,
                        },
                        final(self).cursor(),
                    ),
                ),
                Err(e) => g_opt_test(old(self).lexed(), old(self).cursor()) == Err::<
                    (Option<Box<ExprV>>, int),
                    ParseError,
                >(e),
            },
        decreases tokens_left(old(self).lexed(), old(self).cursor()), 82nat,
    {
        proof {
            unfold_g_opt_test(self.lexed(), self.cursor());
        }
        if is_test_start(self.peek()) {
            let found = self.parse_test()?;
            Ok(Some(Box::new(found)))
        } else {
            Ok(None)
        }
    }

    /// What follows the first colon of a slice.
    pub(crate) fn parse_slice_tail(&mut self, lower: Option<Box<ASTExpr>>) -> (r: Result<ASTSlice, ParseError>)
        requires
            old(self).wf(),
        ensures
            yields_slice(
                *old(self),
                *final(self),
                r,
                g_slice_tail(
                    old(self).lexed(),
                    old(self).cursor(),
                    match lower {
                        Some(e) => Some(Box::new(e@)),
                        None => None,
                    },
                ),
            ),
        decreases tokens_left(old(self).lexed(), old(self).cursor()), 84nat,
    {
        proof {
            unfold_g_slice_tail(
                self.lexed(),
                self.cursor(),
                match lower {
                    Some(ref e) => Some(Box::new(e@)),
                    None => None,
                },
            );
        }
        let upper = self.parse_opt_test()?;
        if self.peek() == TokenKind::COLON {
            self.bump()?;
            let step = self.parse_opt_test()?;
            Ok(ASTSlice::new_slice(lower, upper, step))
        } else {
            Ok(ASTSlice::new_slice(lower, upper, None))
        }
    }

    pub(crate) fn parse_subscript(&mut self) -> (r: Result<ASTSlice, ParseError>)
        requires
            old(self).wf(),
        ensures
            yields_slice(
                *old(self),
                *final(self),
                r,
                g_subscript(old(self).lexed(), old(self).cursor()),
            ),
            r is Ok ==> final(self).cursor() > old(self).cursor(),
        decreases tokens_left(old(self).lexed(), old(self).cursor()), 86nat,
    {
        proof {
            unfold_g_subscript(self.lexed(), self.cursor());
        }
        let k = self.peek();
        if is_test_start(k) {
            let lower = self.parse_test()?;
            if self.peek() == TokenKind::COLON {
                self.bump()?;
                self.parse_slice_tail(Some(Box::new(lower)))
            } else {
                Ok(ASTSlice::new_index(lower))
            }
        } else if k == TokenKind::COLON {
            self.bump()?;
            self.parse_slice_tail(None)
        } else {
            Err(ParseError::UnexpectedToken)
        }
    }

    pub(crate) fn parse_atom_expr(&mut self) -> (r: Result<ASTExpr, ParseError>)
        requires
            old(self).wf(),
        ensures
            yields_expr(
                *old(self),
                *final(self),
                r,
                g_atom_expr(old(self).lexed(), old(self).cursor()),
            ),
            r is Ok ==> final(self).cursor() > old(self).cursor(),
        decreases tokens_left(old(self).lexed(), old(self).cursor()), 12nat,
    {
        proof {
            unfold_g_atom_expr(self.lexed(), self.cursor());
        }
        let ghost lx = self.lexed();
        let mut atom = self.parse_atom()?;
        let ghost goal = g_trailers(lx, self.cursor(), atom@);
        loop
            invariant_except_break
                g_trailers(lx, self.cursor(), atom@) == goal,
            invariant
                kept(*old(self), *self),
                lx == self.lexed(),
                self.cursor() > old(self).cursor(),
                goal == g_atom_expr(lx, old(self).cursor()),
            ensures
                goal == Ok::<(ExprV, int), ParseError>((atom@, self.cursor())),
            decreases tokens_left(self.lexed(), self.cursor()),
        {
            proof {
                unfold_g_trailers(lx, self.cursor(), atom@);
            }
            let k = self.peek();
            if k == TokenKind::LPAREN {
                self.bump()?;
                let args = self.parse_arglist()?;
                self.eat(TokenKind::RPAREN)?;
                atom = ASTExpr::new_call(atom, args);
            } else if k == TokenKind::LBRACKET {
                self.bump()?;
                let slice = self.parse_subscript()?;
                self.eat(TokenKind::RBRACKET)?;
                atom = ASTExpr::new_subscript(atom, slice);
            } else {
                break ;
            }
        }
        Ok(atom)
    }

    pub(crate) fn parse_factor(&mut self) -> (r: Result<ASTExpr, ParseError>)
        requires
            old(self).wf(),
        ensures
            yields_expr(
                *old(self),
                *final(self),
                r,
                g_factor(old(self).lexed(), old(self).cursor()),
            ),
            r is Ok ==> final(self).cursor() > old(self).cursor(),
        decreases tokens_left(old(self).lexed(), old(self).cursor()), 14nat,
    {
        proof {
            unfold_g_factor(self.lexed(), self.cursor());
        }
        match prefix_operator(self.peek()) {
            Some(op) => {
                self.bump()?;
                let operand = self.parse_factor()?;
                Ok(ASTExpr::new_unary_op(op, operand))
            },
            None => self.parse_atom_expr(),
        }
    }

    /// An operand of the binary operators of `level`: an expression of the
    /// next tighter level.
    pub(crate) fn parse_tighter(&mut self, level: u8) -> (r: Result<ASTExpr, ParseError>)
        requires
            old(self).wf(),
            level < 6,
        ensures
            yields_expr(
                *old(self),
                *final(self),
                r,
                g_binary(old(self).lexed(), old(self).cursor(), (level + 1) as nat),
            ),
            r is Ok ==> final(self).cursor() > old(self).cursor(),
        decreases tokens_left(old(self).lexed(), old(self).cursor()), (58 - 3 * level) as nat,
    {
        proof {
            unfold_g_binary(self.lexed(), self.cursor(), (level + 1) as nat);
        }
        match level {
            0 => self.parse_xor_expr(),
            1 => self.parse_and_expr(),
            2 => self.parse_shift_expr(),
            3 => self.parse_arith_expr(),
            4 => self.parse_term(),
            _ => self.parse_binary(6),
        }
    }

    /// The binary operators of one level of precedence and all tighter
    /// ones, each level grouping to the left.
    pub(crate) fn parse_binary(&mut self, level: u8) -> (r: Result<ASTExpr, ParseError>)
        requires
            old(self).wf(),
        ensures
            yields_expr(
                *old(self),
                *final(self),
                r,
                g_binary(old(self).lexed(), old(self).cursor(), level as nat),
            ),
            r is Ok ==> final(self).cursor() > old(self).cursor(),
        decreases tokens_left(old(self).lexed(), old(self).cursor()),
            (if level >= 6 {
                20nat
            } else {
                (59 - 3 * level) as nat
            }),
    {
        proof {
            unfold_g_binary(self.lexed(), self.cursor(), level as nat);
        }
        if level >= 6 {
            return self.parse_factor();
        }
        let ghost lx = self.lexed();
        let mut left = self.parse_tighter(level)?;
        let ghost goal = g_binary_rest(lx, self.cursor(), level as nat, left@);
        loop
            invariant_except_break
                g_binary_rest(lx, self.cursor(), level as nat, left@) == goal,
            invariant
                kept(*old(self), *self),
                lx == self.lexed(),
                level < 6,
                self.cursor() > old(self).cursor(),
                goal == g_binary(lx, old(self).cursor(), level as nat),
            ensures
                goal == Ok::<(ExprV, int), ParseError>((left@, self.cursor())),
            decreases tokens_left(self.lexed(), self.cursor()),
        {
            proof {
                unfold_g_binary_rest(lx, self.cursor(), level as nat, left@);
            }
            match binary_operator(level, self.peek()) {
                Some(op) => {
                    self.bump()?;
                    let right = self.parse_tighter(level)?;
                    left = ASTExpr::new_bin_op(left, op, right);
                },
                None => {
                    break ;
                },
            }
        }
        Ok(left)
    }

    pub(crate) fn parse_expr(&mut self) -> (r: Result<ASTExpr, ParseError>)
        requires
            old(self).wf(),
        ensures
            yields_expr(
                *old(self),
                *final(self),
                r,
                g_binary(old(self).lexed(), old(self).cursor(), 0),
            ),
            r is Ok ==> final(self).cursor() > old(self).cursor(),
        decreases tokens_left(old(self).lexed(), old(self).cursor()), 60nat,
    {
        proof {
            unfold_g_binary(self.lexed(), self.cursor(), 0);
        }
        self.parse_binary(0)
    }

    pub(crate) fn parse_xor_expr(&mut self) -> (r: Result<ASTExpr, ParseError>)
        requires
            old(self).wf(),
        ensures
            yields_expr(
                *old(self),
                *final(self),
                r,
                g_binary(old(self).lexed(), old(self).cursor(), 1),
            ),
            r is Ok ==> final(self).cursor() > old(self).cursor(),
        decreases tokens_left(old(self).lexed(), old(self).cursor()), 57nat,
    {
        proof {
            unfold_g_binary(self.lexed(), self.cursor(), 1);
        }
        self.parse_binary(1)
    }

    pub(crate) fn parse_and_expr(&mut self) -> (r: Result<ASTExpr, ParseError>)
        requires
            old(self).wf(),
        ensures
            yields_expr(
                *old(self),
                *final(self),
                r,
                g_binary(old(self).lexed(), old(self).cursor(), 2),
            ),
            r is Ok ==> final(self).cursor() > old(self).cursor(),
        decreases tokens_left(old(self).lexed(), old(self).cursor()), 54nat,
    {
        proof {
            unfold_g_binary(self.lexed(), self.cursor(), 2);
        }
        self.parse_binary(2)
    }

    pub(crate) fn parse_shift_expr(&mut self) -> (r: Result<ASTExpr, ParseError>)
        requires
            old(self).wf(),
        ensures
            yields_expr(
                *old(self),
                *final(self),
                r,
                g_binary(old(self).lexed(), old(self).cursor(), 3),
            ),
            r is Ok ==> final(self).cursor() > old(self).cursor(),
        decreases tokens_left(old(self).lexed(), old(self).cursor()), 51nat,
    {
        proof {
            unfold_g_binary(self.lexed(), self.cursor(), 3);
        }
        self.parse_binary(3)
    }

    pub(crate) fn parse_arith_expr(&mut self) -> (r: Result<ASTExpr, ParseError>)
        requires
            old(self).wf(),
        ensures
            yields_expr(
                *old(self),
                *final(self),
                r,
                g_binary(old(self).lexed(), old(self).cursor(), 4),
            ),
            r is Ok ==> final(self).cursor() > old(self).cursor(),
        decreases tokens_left(old(self).lexed(), old(self).cursor()), 48nat,
    {
        proof {
            unfold_g_binary(self.lexed(), self.cursor(), 4);
        }
        self.parse_binary(4)
    }

    pub(crate) fn parse_term(&mut self) -> (r: Result<ASTExpr, ParseError>)
        requires
            old(self).wf(),
        ensures
            yields_expr(
                *old(self),
                *final(self),
                r,
                g_binary(old(self).lexed(), old(self).cursor(), 5),
            ),
            r is Ok ==> final(self).cursor() > old(self).cursor(),
        decreases tokens_left(old(self).lexed(), old(self).cursor()), 45nat,
    {
        proof {
            unfold_g_binary(self.lexed(), self.cursor(), 5);
        }
        self.parse_binary(5)
    }

    pub(crate) fn parse_comp_op(&mut self) -> (r: Result<ASTCmpOp, ParseError>)
        requires
            old(self).wf(),
        ensures
            yields_op(*old(self), *final(self), r, g_comp_op(old(self).lexed(), old(self).cursor())),
            r is Ok ==> final(self).cursor() > old(self).cursor(),
    {
        proof {
            reveal(starts_comp_op);
            reveal(g_comp_op);
        }
        let k = self.peek();
        if !is_comp_op_start(k) {
            return Err(ParseError::UnexpectedToken);
        }
        self.bump()?;
        match k {
            TokenKind::LT => Ok(ASTCmpOp::Lt),
            TokenKind::GT => Ok(ASTCmpOp::Gt),
            TokenKind::LEQ => Ok(ASTCmpOp::LtE),
            TokenKind::GEQ => Ok(ASTCmpOp::GtE),
            TokenKind::EQEQ => Ok(ASTCmpOp::Eq),
            TokenKind::NEQ => Ok(ASTCmpOp::NotEq),
            TokenKind::IN => Ok(ASTCmpOp::In),
            TokenKind::NOT => {
                self.eat(TokenKind::IN)?;
                Ok(ASTCmpOp::NotIn)
            },
            _ => {
                if self.peek() == TokenKind::NOT {
                    self.bump()?;
                    Ok(ASTCmpOp::IsNot)
                } else {
                    Ok(ASTCmpOp::Is)
                }
            },
        }
    }

    pub(crate) fn parse_comparison(&mut self) -> (r: Result<ASTExpr, ParseError>)
        requires
            old(self).wf(),
        ensures
            yields_expr(
                *old(self),
                *final(self),
                r,
                g_comparison(old(self).lexed(), old(self).cursor()),
            ),
            r is Ok ==> final(self).cursor() > old(self).cursor(),
        decreases tokens_left(old(self).lexed(), old(self).cursor()), 62nat,
    {
        proof {
            unfold_g_comparison(self.lexed(), self.cursor());
        }
        let ghost lx = self.lexed();
        let left = self.parse_expr()?;
        let mut ops: Vec<ASTCmpOp> = Vec::new();
        let mut comparators: Vec<ASTExpr> = Vec::new();
        proof {
            lemma_exprs_empty();
            assert(ops@ =~= Seq::<ASTCmpOp>::empty());
        }
        let ghost goal = g_comparison_rest(lx, self.cursor(), left@, ops@, exprs_view(comparators@));
        loop
            invariant_except_break
                g_comparison_rest(lx, self.cursor(), left@, ops@, exprs_view(comparators@))
                    == goal,
            invariant
                kept(*old(self), *self),
                lx == self.lexed(),
                self.cursor() > old(self).cursor(),
                goal == g_comparison(lx, old(self).cursor()),
            ensures
                goal == Ok::<(ExprV, int), ParseError>(
                    (
                        if ops@.len() == 0 {
                            left@
                        } else {
                            ExprV::Compare(Box::new(left@), ops@, exprs_view(comparators@))
                        },
                        self.cursor(),
                    ),
                ),
            decreases tokens_left(self.lexed(), self.cursor()),
        {
            proof {
                reveal(starts_comp_op);
                self.lemma_cursor();
                unfold_g_comparison_rest(lx, self.cursor(), left@, ops@, exprs_view(comparators@));
            }
            if !is_comp_op_start(self.peek()) {
                break ;
            }
            let op = self.parse_comp_op()?;
            let right = self.parse_expr()?;
            proof {
                lemma_exprs_push(comparators@, right);
            }
            ops.push(op);
            comparators.push(right);
        }
        if ops.len() == 0 {
            Ok(left)
        } else {
            Ok(ASTExpr::new_compare(left, ops, comparators))
        }
    }

    pub(crate) fn parse_not_test(&mut self) -> (r: Result<ASTExpr, ParseError>)
        requires
            old(self).wf(),
        ensures
            yields_expr(
                *old(self),
                *final(self),
                r,
                g_not_test(old(self).lexed(), old(self).cursor()),
            ),
            r is Ok ==> final(self).cursor() > old(self).cursor(),
        decreases tokens_left(old(self).lexed(), old(self).cursor()), 64nat,
    {
        proof {
            unfold_g_not_test(self.lexed(), self.cursor());
        }
        if self.peek() == TokenKind::NOT {
            self.bump()?;
            let operand = self.parse_not_test()?;
            Ok(ASTExpr::new_unary_op(ASTUnaryOp::Not, operand))
        } else {
            self.parse_comparison()
        }
    }

    /// One operand of a chain of `and` or `or`.
    pub(crate) fn parse_operand(&mut self, op: ASTBoolOp) -> (r: Result<ASTExpr, ParseError>)
        requires
            old(self).wf(),
        ensures
            yields_expr(
                *old(self),
                *final(self),
                r,
                g_operand(old(self).lexed(), old(self).cursor(), op),
            ),
            r is Ok ==> final(self).cursor() > old(self).cursor(),
        decreases tokens_left(old(self).lexed(), old(self).cursor()),
            (if op == ASTBoolOp::And {
                66nat
            } else {
                70nat
            }),
    {
        proof {
            unfold_g_operand(self.lexed(), self.cursor(), op);
        }
        match op {
            ASTBoolOp::And => self.parse_not_test(),
            ASTBoolOp::Or => self.parse_and_test(),
        }
    }

    /// A chain of operands joined by `and`, or by `or`.
    pub(crate) fn parse_chain(&mut self, op: ASTBoolOp) -> (r: Result<ASTExpr, ParseError>)
        requires
            old(self).wf(),
        ensures
            yields_expr(
                *old(self),
                *final(self),
                r,
                g_chain(old(self).lexed(), old(self).cursor(), op),
            ),
            r is Ok ==> final(self).cursor() > old(self).cursor(),
        decreases tokens_left(old(self).lexed(), old(self).cursor()),
            (if op == ASTBoolOp::And {
                68nat
            } else {
                72nat
            }),
    {
        proof {
            unfold_g_chain(self.lexed(), self.cursor(), op);
        }
        let ghost lx = self.lexed();
        let joiner = match op {
            ASTBoolOp::And => TokenKind::AND,
            ASTBoolOp::Or => TokenKind::OR,
        };
        let first = self.parse_operand(op)?;
        let mut operands: Vec<ASTExpr> = Vec::new();
        proof {
            lemma_exprs_empty();
            lemma_exprs_push(operands@, first);
        }
        operands.push(first);
        let ghost goal = g_chain_rest(lx, self.cursor(), op, exprs_view(operands@));
        loop
            invariant_except_break
                g_chain_rest(lx, self.cursor(), op, exprs_view(operands@)) == goal,
            invariant
                kept(*old(self), *self),
                lx == self.lexed(),
                self.cursor() > old(self).cursor(),
                operands@.len() >= 1,
                g_chain(lx, old(self).cursor(), op) == (match goal {
                    Ok((found, q)) => Ok::<(ExprV, int), ParseError>(
                        (crate::grammar::single_or_bool(op, found), q),
                    ),
                    Err(e) => Err::<(ExprV, int), ParseError>(e),
                }),
                joiner == (if op == ASTBoolOp::And {
                    TokenKind::AND
                } else {
                    TokenKind::OR
                }),
            ensures
                goal == Ok::<(Seq<ExprV>, int), ParseError>((exprs_view(operands@), self.cursor())),
                operands@.len() >= 1,
            decreases tokens_left(self.lexed(), self.cursor()),
        {
            proof {
                unfold_g_chain_rest(lx, self.cursor(), op, exprs_view(operands@));
            }
            if self.peek() != joiner {
                break ;
            }
            self.bump()?;
            let next = self.parse_operand(op)?;
            proof {
                lemma_exprs_push(operands@, next);
            }
            operands.push(next);
        }
        proof {
            lemma_exprs_view(operands@);
        }
        if operands.len() == 1 {
            match operands.pop() {
                Some(only) => Ok(only),
                None => Err(ParseError::UnexpectedToken),
            }
        } else {
            Ok(ASTExpr::new_bool_op(op, operands))
        }
    }

    pub(crate) fn parse_and_test(&mut self) -> (r: Result<ASTExpr, ParseError>)
        requires
            old(self).wf(),
        ensures
            yields_expr(
                *old(self),
                *final(self),
                r,
                g_chain(old(self).lexed(), old(self).cursor(), ASTBoolOp::And),
            ),
            r is Ok ==> final(self).cursor() > old(self).cursor(),
        decreases tokens_left(old(self).lexed(), old(self).cursor()), 69nat,
    {
        proof {
            unfold_g_chain(self.lexed(), self.cursor(), ASTBoolOp::And);
        }
        self.parse_chain(ASTBoolOp::And)
    }

    pub(crate) fn parse_or_test(&mut self) -> (r: Result<ASTExpr, ParseError>)
        requires
            old(self).wf(),
        ensures
            yields_expr(
                *old(self),
                *final(self),
                r,
                g_chain(old(self).lexed(), old(self).cursor(), ASTBoolOp::Or),
            ),
            r is Ok ==> final(self).cursor() > old(self).cursor(),
        decreases tokens_left(old(self).lexed(), old(self).cursor()), 73nat,
    {
        proof {
            unfold_g_chain(self.lexed(), self.cursor(), ASTBoolOp::Or);
        }
        self.parse_chain(ASTBoolOp::Or)
    }

    pub(crate) fn parse_test(&mut self) -> (r: Result<ASTExpr, ParseError>)
        requires
            old(self).wf(),
        ensures
            yields_expr(*old(self), *final(self), r, g_test(old(self).lexed(), old(self).cursor())),
            r is Ok ==> final(self).cursor() > old(self).cursor(),
        decreases tokens_left(old(self).lexed(), old(self).cursor()), 80nat,
    {
        proof {
            unfold_g_test(self.lexed(), self.cursor());
        }
        let body = self.parse_or_test()?;
        if self.peek() == TokenKind::IF {
            self.bump()?;
            let test = self.parse_or_test()?;
            self.eat(TokenKind::ELSE)?;
            let orelse = self.parse_test()?;
            Ok(ASTExpr::new_if_exp(test, body, orelse))
        } else {
            Ok(body)
        }
    }

    pub(crate) fn parse_testlist(&mut self) -> (r: Result<ASTExpr, ParseError>)
        requires
            old(self).wf(),
        ensures
            yields_expr(
                *old(self),
                *final(self),
                r,
                g_testlist(old(self).lexed(), old(self).cursor()),
            ),
            r is Ok ==> final(self).cursor() > old(self).cursor(),
        decreases tokens_left(old(self).lexed(), old(self).cursor()), 88nat,
    {
        proof {
            unfold_g_testlist(self.lexed(), self.cursor());
        }
        let (elts, _) = self.parse_list(true)?;
        Ok(one_or_tuple(elts))
    }

    pub(crate) fn parse_testlist_star_expr(&mut self) -> (r: Result<ASTExpr, ParseError>)
        requires
            old(self).wf(),
        ensures
            yields_expr(
                *old(self),
                *final(self),
                r,
                g_testlist(old(self).lexed(), old(self).cursor()),
            ),
            r is Ok ==> final(self).cursor() > old(self).cursor(),
        decreases tokens_left(old(self).lexed(), old(self).cursor()), 89nat,
    {
        proof {
            unfold_g_testlist(self.lexed(), self.cursor());
        }
        self.parse_testlist()
    }
}

} // verus!
