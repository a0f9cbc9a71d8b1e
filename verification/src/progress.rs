//! The grammar only moves forward: a function that succeeds from a position
//! ends at that position or behind it, and one that reads a form which
//! holds a token ends behind it. So `forward` changes no result of the
//! grammar.

use vstd::prelude::*;
use crate::ast::{ASTBoolOp, ASTCmpOp, ExprV, StmtV};
use crate::grammar::{Parsed, advance, binary_op, eat, forward, g_arglist, g_assign_rest, g_atom, g_atom_expr, g_binary, g_binary_rest, g_block, g_chain, g_chain_rest, g_comp_op, g_comparison, g_comparison_rest, g_def_tail, g_dict_rest, g_dictorsetmaker, g_elem, g_expr_stmt, g_factor, g_for_tail, g_id, g_if_stmt, g_if_tail, g_list, g_list_rest, g_names, g_names_rest, g_next, g_not_test, g_operand, g_opt_test, g_parameters, g_simple_stmt, g_slice_tail, g_small_stmt, g_stmt, g_subscript, g_suite, g_test, g_testlist, g_trailers, g_while_tail, kind_at, prefix_op, starts_comp_op, starts_expr, starts_test, tokens_left};
use crate::grammar::{unfold_g_arglist, unfold_g_assign_rest, unfold_g_atom, unfold_g_atom_expr, unfold_g_binary, unfold_g_binary_rest, unfold_g_block, unfold_g_chain, unfold_g_chain_rest, unfold_g_comparison, unfold_g_comparison_rest, unfold_g_def_tail, unfold_g_dict_rest, unfold_g_dictorsetmaker, unfold_g_elem, unfold_g_expr_stmt, unfold_g_factor, unfold_g_for_tail, unfold_g_if_tail, unfold_g_list, unfold_g_list_rest, unfold_g_not_test, unfold_g_operand, unfold_g_opt_test, unfold_g_simple_stmt, unfold_g_slice_tail, unfold_g_small_stmt, unfold_g_stmt, unfold_g_subscript, unfold_g_suite, unfold_g_test, unfold_g_testlist, unfold_g_trailers, unfold_g_while_tail};
use crate::lexing::Lexed;
use crate::token::TokenKind;

verus! {

/// A result that, where it is a success, ends behind `p`.
pub open spec fn moved<T>(p: int, r: Parsed<T>) -> bool {
    match r {
        Ok((_, q)) => q > p,
        Err(_) => true,
    }
}

/// A result that, where it is a success, ends at `p` or behind it.
pub open spec fn held<T>(p: int, r: Parsed<T>) -> bool {
    match r {
        Ok((_, q)) => q >= p,
        Err(_) => true,
    }
}

/// `forward` leaves a result that ends at `p` or behind it as it is.
pub proof fn lemma_forward<T>(p: int, r: Parsed<T>)
    requires
        held(p, r),
    ensures
        forward(p, r) == r,
{
}

/// An identifier ends behind where it began.
pub proof fn lemma_id(lx: Lexed, p: int)
    ensures
        moved(p, g_id(lx, p)),
{
}

/// A list of names behind those in `acc` ends at `p` or behind it.
pub proof fn lemma_names_rest(lx: Lexed, p: int, acc: Seq<Seq<char>>)
    ensures
        held(p, g_names_rest(lx, p, acc)),
    decreases tokens_left(lx, p),
{
    if kind_at(lx, p) == TokenKind::COMMA {
        match advance(lx, p) {
            Ok(p1) => {
                if kind_at(lx, p1) == TokenKind::ID {
                    match advance(lx, p1) {
                        Ok(p2) => {
                            lemma_names_rest(lx, p2, acc.push(lx.tokens[p1].text));
                        },
                        Err(_) => {},
                    }
                }
            },
            Err(_) => {},
        }
    }
}

/// A list of names ends behind where it began.
pub proof fn lemma_names(lx: Lexed, p: int)
    ensures
        moved(p, g_names(lx, p)),
{
    match g_id(lx, p) {
        Ok((first, p1)) => {
            lemma_names_rest(lx, p1, seq![first]);
        },
        Err(_) => {},
    }
}

/// The parameters of a definition end behind where they began.
pub proof fn lemma_parameters(lx: Lexed, p: int)
    ensures
        moved(p, g_parameters(lx, p)),
{
    match eat(lx, p, TokenKind::LPAREN) {
        Ok(p1) => {
            lemma_names(lx, p1);
        },
        Err(_) => {},
    }
}

/// A comparison operator ends behind where it began.
pub proof fn lemma_comp_op(lx: Lexed, p: int)
    ensures
        moved(p, g_comp_op(lx, p)),
{
    reveal(g_comp_op);
}

/// An atom ends behind where it began.
pub proof fn lemma_atom(lx: Lexed, p: int)
    ensures
        moved(p, g_atom(lx, p)),
    decreases tokens_left(lx, p), 10nat,
{
    unfold_g_atom(lx, p);
    let k = kind_at(lx, p);
    if k == TokenKind::LPAREN || k == TokenKind::LBRACKET {
        match advance(lx, p) {
            Ok(p1) => {
                if starts_test(kind_at(lx, p1)) {
                    lemma_list(lx, p1, true);
                }
            },
            Err(_) => {},
        }
    } else if k == TokenKind::LBRACE {
        match advance(lx, p) {
            Ok(p1) => {
                lemma_dictorsetmaker(lx, p1);
            },
            Err(_) => {},
        }
    }
}

/// A dict or set display ends behind where it began.
pub proof fn lemma_dictorsetmaker(lx: Lexed, p: int)
    ensures
        moved(p, g_dictorsetmaker(lx, p)),
    decreases tokens_left(lx, p), 76nat,
{
    unfold_g_dictorsetmaker(lx, p);
    lemma_test(lx, p);
    match g_test(lx, p) {
        Ok((first, p1)) => {
            if kind_at(lx, p1) == TokenKind::COLON {
                match advance(lx, p1) {
                    Ok(p2) => {
                        lemma_test(lx, p2);
                        match g_test(lx, p2) {
                            Ok((value, p3)) => {
                                lemma_dict_rest(lx, p3, seq![first], seq![value]);
                            },
                            Err(_) => {},
                        }
                    },
                    Err(_) => {},
                }
            } else {
                lemma_list_rest(lx, p1, true, seq![first]);
            }
        },
        Err(_) => {},
    }
}

/// The pairs of a dict display behind the first end at `p` or behind it.
pub proof fn lemma_dict_rest(lx: Lexed, p: int, keys: Seq<ExprV>, values: Seq<ExprV>)
    ensures
        held(p, g_dict_rest(lx, p, keys, values)),
    decreases tokens_left(lx, p), 5nat,
{
    unfold_g_dict_rest(lx, p, keys, values);
    if kind_at(lx, p) == TokenKind::COMMA {
        match advance(lx, p) {
            Ok(p1) => {
                if starts_test(kind_at(lx, p1)) {
                    lemma_test(lx, p1);
                    match g_test(lx, p1) {
                        Ok((key, p2)) => {
                            match eat(lx, p2, TokenKind::COLON) {
                                Ok(p3) => {
                                    lemma_test(lx, p3);
                                    match g_test(lx, p3) {
                                        Ok((value, p4)) => {
                                            lemma_dict_rest(
                                                lx,
                                                p4,
                                                keys.push(key),
                                                values.push(value),
                                            );
                                        },
                                        Err(_) => {},
                                    }
                                },
                                Err(_) => {},
                            }
                        },
                        Err(_) => {},
                    }
                }
            },
            Err(_) => {},
        }
    }
}

/// An element of a list ends behind where it began.
pub proof fn lemma_elem(lx: Lexed, p: int, of_tests: bool)
    ensures
        moved(p, g_elem(lx, p, of_tests)),
    decreases tokens_left(lx, p), 72nat,
{
    unfold_g_elem(lx, p, of_tests);
    if of_tests {
        lemma_test(lx, p);
    } else {
        lemma_binary(lx, p, 0);
    }
}

/// A list ends behind where it began.
pub proof fn lemma_list(lx: Lexed, p: int, of_tests: bool)
    ensures
        moved(p, g_list(lx, p, of_tests)),
    decreases tokens_left(lx, p), 74nat,
{
    unfold_g_list(lx, p, of_tests);
    lemma_elem(lx, p, of_tests);
    match g_elem(lx, p, of_tests) {
        Ok((first, p1)) => {
            lemma_list_rest(lx, p1, of_tests, seq![first]);
        },
        Err(_) => {},
    }
}

/// The elements of a list behind those in `acc` end at `p` or behind it.
pub proof fn lemma_list_rest(lx: Lexed, p: int, of_tests: bool, acc: Seq<ExprV>)
    ensures
        held(p, g_list_rest(lx, p, of_tests, acc)),
    decreases tokens_left(lx, p), 5nat,
{
    unfold_g_list_rest(lx, p, of_tests, acc);
    if kind_at(lx, p) == TokenKind::COMMA {
        match advance(lx, p) {
            Ok(p1) => {
                if (of_tests && starts_test(kind_at(lx, p1))) || (!of_tests && starts_expr(
                    kind_at(lx, p1),
                )) {
                    lemma_elem(lx, p1, of_tests);
                    match g_elem(lx, p1, of_tests) {
                        Ok((next, p2)) => {
                            lemma_list_rest(lx, p2, of_tests, acc.push(next));
                        },
                        Err(_) => {},
                    }
                }
            },
            Err(_) => {},
        }
    }
}

/// The arguments of a call end at `p` or behind it.
pub proof fn lemma_arglist(lx: Lexed, p: int)
    ensures
        held(p, g_arglist(lx, p)),
    decreases tokens_left(lx, p), 76nat,
{
    unfold_g_arglist(lx, p);
    if kind_at(lx, p) != TokenKind::RPAREN {
        lemma_list(lx, p, true);
    }
}

/// A subscript ends behind where it began.
pub proof fn lemma_subscript(lx: Lexed, p: int)
    ensures
        moved(p, g_subscript(lx, p)),
    decreases tokens_left(lx, p), 76nat,
{
    unfold_g_subscript(lx, p);
    if starts_test(kind_at(lx, p)) {
        lemma_test(lx, p);
        match g_test(lx, p) {
            Ok((lower, p1)) => {
                if kind_at(lx, p1) == TokenKind::COLON {
                    match advance(lx, p1) {
                        Ok(p2) => {
                            lemma_slice_tail(lx, p2, Some(Box::new(lower)));
                        },
                        Err(_) => {},
                    }
                }
            },
            Err(_) => {},
        }
    } else if kind_at(lx, p) == TokenKind::COLON {
        match advance(lx, p) {
            Ok(p1) => {
                lemma_slice_tail(lx, p1, None);
            },
            Err(_) => {},
        }
    }
}

/// An optional test ends at `p` or behind it.
pub proof fn lemma_opt_test(lx: Lexed, p: int)
    ensures
        held(p, g_opt_test(lx, p)),
    decreases tokens_left(lx, p), 72nat,
{
    unfold_g_opt_test(lx, p);
    if starts_test(kind_at(lx, p)) {
        lemma_test(lx, p);
    }
}

/// What follows the first colon of a slice ends at `p` or behind it.
pub proof fn lemma_slice_tail(lx: Lexed, p: int, lower: Option<Box<ExprV>>)
    ensures
        held(p, g_slice_tail(lx, p, lower)),
    decreases tokens_left(lx, p), 74nat,
{
    unfold_g_slice_tail(lx, p, lower);
    lemma_opt_test(lx, p);
    match g_opt_test(lx, p) {
        Ok((upper, p1)) => {
            if kind_at(lx, p1) == TokenKind::COLON {
                match advance(lx, p1) {
                    Ok(p2) => {
                        lemma_opt_test(lx, p2);
                    },
                    Err(_) => {},
                }
            }
        },
        Err(_) => {},
    }
}

/// The calls and subscripts behind an atom end at `p` or behind it.
pub proof fn lemma_trailers(lx: Lexed, p: int, inner: ExprV)
    ensures
        held(p, g_trailers(lx, p, inner)),
    decreases tokens_left(lx, p), 5nat,
{
    unfold_g_trailers(lx, p, inner);
    if kind_at(lx, p) == TokenKind::LPAREN {
        match advance(lx, p) {
            Ok(p1) => {
                lemma_arglist(lx, p1);
                match g_arglist(lx, p1) {
                    Ok((args, p2)) => {
                        match eat(lx, p2, TokenKind::RPAREN) {
                            Ok(p3) => {
                                lemma_trailers(lx, p3, ExprV::Call(Box::new(inner), args));
                            },
                            Err(_) => {},
                        }
                    },
                    Err(_) => {},
                }
            },
            Err(_) => {},
        }
    } else if kind_at(lx, p) == TokenKind::LBRACKET {
        match advance(lx, p) {
            Ok(p1) => {
                lemma_subscript(lx, p1);
                match g_subscript(lx, p1) {
                    Ok((slice, p2)) => {
                        match eat(lx, p2, TokenKind::RBRACKET) {
                            Ok(p3) => {
                                lemma_trailers(lx, p3, ExprV::Subscript(Box::new(inner), slice));
                            },
                            Err(_) => {},
                        }
                    },
                    Err(_) => {},
                }
            },
            Err(_) => {},
        }
    }
}

/// An atom with its trailers ends behind where it began.
pub proof fn lemma_atom_expr(lx: Lexed, p: int)
    ensures
        moved(p, g_atom_expr(lx, p)),
    decreases tokens_left(lx, p), 12nat,
{
    unfold_g_atom_expr(lx, p);
    lemma_atom(lx, p);
    match g_atom(lx, p) {
        Ok((atom, p1)) => {
            lemma_trailers(lx, p1, atom);
        },
        Err(_) => {},
    }
}

/// A factor ends behind where it began.
pub proof fn lemma_factor(lx: Lexed, p: int)
    ensures
        moved(p, g_factor(lx, p)),
    decreases tokens_left(lx, p), 14nat,
{
    unfold_g_factor(lx, p);
    match prefix_op(kind_at(lx, p)) {
        Some(op) => {
            match advance(lx, p) {
                Ok(p1) => {
                    lemma_factor(lx, p1);
                },
                Err(_) => {},
            }
        },
        None => {
            lemma_atom_expr(lx, p);
        },
    }
}

/// The binary operators of a level end behind where they began.
pub proof fn lemma_binary(lx: Lexed, p: int, level: nat)
    ensures
        moved(p, g_binary(lx, p, level)),
    decreases tokens_left(lx, p),
        (if level >= 6 {
            28nat
        } else {
            (40 - 2 * level) as nat
        }),
{
    unfold_g_binary(lx, p, level);
    if level >= 6 {
        lemma_factor(lx, p);
    } else {
        lemma_binary(lx, p, level + 1);
        match g_binary(lx, p, level + 1) {
            Ok((left, p1)) => {
                lemma_binary_rest(lx, p1, level, left);
            },
            Err(_) => {},
        }
    }
}

/// The operators and operands of a level behind `left` end at `p` or
/// behind it.
pub proof fn lemma_binary_rest(lx: Lexed, p: int, level: nat, left: ExprV)
    ensures
        held(p, g_binary_rest(lx, p, level, left)),
    decreases tokens_left(lx, p), 5nat,
{
    unfold_g_binary_rest(lx, p, level, left);
    match binary_op(level, kind_at(lx, p)) {
        Some(op) => {
            match advance(lx, p) {
                Ok(p1) => {
                    lemma_binary(lx, p1, level + 1);
                    match g_binary(lx, p1, level + 1) {
                        Ok((right, p2)) => {
                            lemma_binary_rest(
                                lx,
                                p2,
                                level,
                                ExprV::BinOp(Box::new(left), op, Box::new(right)),
                            );
                        },
                        Err(_) => {},
                    }
                },
                Err(_) => {},
            }
        },
        None => {},
    }
}

/// A comparison ends behind where it began.
pub proof fn lemma_comparison(lx: Lexed, p: int)
    ensures
        moved(p, g_comparison(lx, p)),
    decreases tokens_left(lx, p), 44nat,
{
    unfold_g_comparison(lx, p);
    lemma_binary(lx, p, 0);
    match g_binary(lx, p, 0) {
        Ok((left, p1)) => {
            lemma_comparison_rest(lx, p1, left, Seq::empty(), Seq::empty());
        },
        Err(_) => {},
    }
}

/// The operators and comparators of a comparison behind those given end at
/// `p` or behind it.
pub proof fn lemma_comparison_rest(
    lx: Lexed,
    p: int,
    left: ExprV,
    ops: Seq<ASTCmpOp>,
    comparators: Seq<ExprV>,
)
    ensures
        held(p, g_comparison_rest(lx, p, left, ops, comparators)),
    decreases tokens_left(lx, p), 5nat,
{
    unfold_g_comparison_rest(lx, p, left, ops, comparators);
    if starts_comp_op(kind_at(lx, p)) && 0 <= p < lx.tokens.len() {
        lemma_comp_op(lx, p);
        match g_comp_op(lx, p) {
            Ok((op, p1)) => {
                lemma_binary(lx, p1, 0);
                match g_binary(lx, p1, 0) {
                    Ok((right, p2)) => {
                        lemma_comparison_rest(
                            lx,
                            p2,
                            left,
                            ops.push(op),
                            comparators.push(right),
                        );
                    },
                    Err(_) => {},
                }
            },
            Err(_) => {},
        }
    }
}

/// A test under any number of `not` ends behind where it began.
pub proof fn lemma_not_test(lx: Lexed, p: int)
    ensures
        moved(p, g_not_test(lx, p)),
    decreases tokens_left(lx, p), 46nat,
{
    unfold_g_not_test(lx, p);
    if kind_at(lx, p) == TokenKind::NOT {
        match advance(lx, p) {
            Ok(p1) => {
                lemma_not_test(lx, p1);
            },
            Err(_) => {},
        }
    } else {
        lemma_comparison(lx, p);
    }
}

/// An operand of a chain ends behind where it began.
pub proof fn lemma_operand(lx: Lexed, p: int, op: ASTBoolOp)
    ensures
        moved(p, g_operand(lx, p, op)),
    decreases tokens_left(lx, p),
        (if op == ASTBoolOp::And {
            48nat
        } else {
            52nat
        }),
{
    unfold_g_operand(lx, p, op);
    if op == ASTBoolOp::And {
        lemma_not_test(lx, p);
    } else {
        lemma_chain(lx, p, ASTBoolOp::And);
    }
}

/// A chain of `and` or `or` ends behind where it began.
pub proof fn lemma_chain(lx: Lexed, p: int, op: ASTBoolOp)
    ensures
        moved(p, g_chain(lx, p, op)),
    decreases tokens_left(lx, p),
        (if op == ASTBoolOp::And {
            50nat
        } else {
            54nat
        }),
{
    unfold_g_chain(lx, p, op);
    lemma_operand(lx, p, op);
    match g_operand(lx, p, op) {
        Ok((first, p1)) => {
            lemma_chain_rest(lx, p1, op, seq![first]);
        },
        Err(_) => {},
    }
}

/// The operands of a chain behind those in `acc` end at `p` or behind it.
pub proof fn lemma_chain_rest(lx: Lexed, p: int, op: ASTBoolOp, acc: Seq<ExprV>)
    ensures
        held(p, g_chain_rest(lx, p, op, acc)),
    decreases tokens_left(lx, p), 5nat,
{
    unfold_g_chain_rest(lx, p, op, acc);
    if kind_at(lx, p) == (if op == ASTBoolOp::And {
        TokenKind::AND
    } else {
        TokenKind::OR
    }) {
        match advance(lx, p) {
            Ok(p1) => {
                lemma_operand(lx, p1, op);
                match g_operand(lx, p1, op) {
                    Ok((next, p2)) => {
                        lemma_chain_rest(lx, p2, op, acc.push(next));
                    },
                    Err(_) => {},
                }
            },
            Err(_) => {},
        }
    }
}

/// A test ends behind where it began.
pub proof fn lemma_test(lx: Lexed, p: int)
    ensures
        moved(p, g_test(lx, p)),
    decreases tokens_left(lx, p), 70nat,
{
    unfold_g_test(lx, p);
    lemma_chain(lx, p, ASTBoolOp::Or);
    match g_chain(lx, p, ASTBoolOp::Or) {
        Ok((body, p1)) => {
            if kind_at(lx, p1) == TokenKind::IF {
                match advance(lx, p1) {
                    Ok(p2) => {
                        lemma_chain(lx, p2, ASTBoolOp::Or);
                        match g_chain(lx, p2, ASTBoolOp::Or) {
                            Ok((test, p3)) => {
                                match eat(lx, p3, TokenKind::ELSE) {
                                    Ok(p4) => {
                                        lemma_test(lx, p4);
                                    },
                                    Err(_) => {},
                                }
                            },
                            Err(_) => {},
                        }
                    },
                    Err(_) => {},
                }
            }
        },
        Err(_) => {},
    }
}

/// A list of tests ends behind where it began.
pub proof fn lemma_testlist(lx: Lexed, p: int)
    ensures
        moved(p, g_testlist(lx, p)),
    decreases tokens_left(lx, p), 78nat,
{
    unfold_g_testlist(lx, p);
    lemma_list(lx, p, true);
}

/// An expression statement or an assignment ends behind where it began.
pub proof fn lemma_expr_stmt(lx: Lexed, p: int)
    ensures
        moved(p, g_expr_stmt(lx, p)),
    decreases tokens_left(lx, p), 80nat,
{
    unfold_g_expr_stmt(lx, p);
    lemma_testlist(lx, p);
    match g_testlist(lx, p) {
        Ok((first, p1)) => {
            if kind_at(lx, p1) == TokenKind::EQ {
                lemma_assign_rest(lx, p1, seq![first]);
            }
        },
        Err(_) => {},
    }
}

/// What follows the targets of an assignment ends behind its `=`.
pub proof fn lemma_assign_rest(lx: Lexed, p: int, targets: Seq<ExprV>)
    ensures
        moved(p, g_assign_rest(lx, p, targets)),
    decreases tokens_left(lx, p), 79nat,
{
    unfold_g_assign_rest(lx, p, targets);
    match advance(lx, p) {
        Ok(p1) => {
            lemma_testlist(lx, p1);
            match g_testlist(lx, p1) {
                Ok((value, p2)) => {
                    if kind_at(lx, p2) == TokenKind::EQ {
                        lemma_assign_rest(lx, p2, targets.push(value));
                    }
                },
                Err(_) => {},
            }
        },
        Err(_) => {},
    }
}

/// A small statement ends behind where it began.
pub proof fn lemma_small_stmt(lx: Lexed, p: int)
    ensures
        moved(p, g_small_stmt(lx, p)),
    decreases tokens_left(lx, p), 82nat,
{
    unfold_g_small_stmt(lx, p);
    let k = kind_at(lx, p);
    if starts_test(k) {
        lemma_expr_stmt(lx, p);
    } else {
        match advance(lx, p) {
            Ok(p1) => {
                if k == TokenKind::DEL {
                    lemma_list(lx, p1, false);
                } else if k == TokenKind::RETURN {
                    if starts_test(kind_at(lx, p1)) {
                        lemma_testlist(lx, p1);
                    }
                } else if k == TokenKind::GLOBAL {
                    lemma_names(lx, p1);
                }
            },
            Err(_) => {},
        }
    }
}

/// A simple statement ends behind where it began.
pub proof fn lemma_simple_stmt(lx: Lexed, p: int)
    ensures
        moved(p, g_simple_stmt(lx, p)),
    decreases tokens_left(lx, p), 84nat,
{
    unfold_g_simple_stmt(lx, p);
    lemma_small_stmt(lx, p);
}

/// A suite ends behind where it began.
pub proof fn lemma_suite(lx: Lexed, p: int)
    ensures
        moved(p, g_suite(lx, p)),
    decreases tokens_left(lx, p), 86nat,
{
    unfold_g_suite(lx, p);
    if kind_at(lx, p) == TokenKind::NEWLINE {
        match advance(lx, p) {
            Ok(p1) => {
                match eat(lx, p1, TokenKind::INDENT) {
                    Ok(p2) => {
                        lemma_block(lx, p2, Seq::empty());
                    },
                    Err(_) => {},
                }
            },
            Err(_) => {},
        }
    } else {
        lemma_simple_stmt(lx, p);
    }
}

/// The statements of a block behind those in `acc` end behind `p`.
pub proof fn lemma_block(lx: Lexed, p: int, acc: Seq<StmtV>)
    ensures
        moved(p, g_block(lx, p, acc)),
    decreases tokens_left(lx, p), 92nat,
{
    unfold_g_block(lx, p, acc);
    if kind_at(lx, p) == TokenKind::DEDENT && acc.len() > 0 {
    } else if 0 <= p < lx.tokens.len() {
        lemma_stmt(lx, p);
        match g_stmt(lx, p) {
            Ok((stmt, p1)) => {
                lemma_block(lx, p1, acc.push(stmt));
            },
            Err(_) => {},
        }
    }
}

/// What follows `if` or `elif` ends behind where it began.
pub proof fn lemma_if_tail(lx: Lexed, p: int)
    ensures
        moved(p, g_if_tail(lx, p)),
    decreases tokens_left(lx, p), 88nat,
{
    unfold_g_if_tail(lx, p);
    lemma_test(lx, p);
    match g_test(lx, p) {
        Ok((test, p1)) => {
            match eat(lx, p1, TokenKind::COLON) {
                Ok(p2) => {
                    lemma_suite(lx, p2);
                    match g_suite(lx, p2) {
                        Ok((body, p3)) => {
                            if kind_at(lx, p3) == TokenKind::ELIF {
                                match advance(lx, p3) {
                                    Ok(p4) => {
                                        lemma_if_tail(lx, p4);
                                    },
                                    Err(_) => {},
                                }
                            } else if kind_at(lx, p3) == TokenKind::ELSE {
                                match advance(lx, p3) {
                                    Ok(p4) => {
                                        match eat(lx, p4, TokenKind::COLON) {
                                            Ok(p5) => {
                                                lemma_suite(lx, p5);
                                            },
                                            Err(_) => {},
                                        }
                                    },
                                    Err(_) => {},
                                }
                            }
                        },
                        Err(_) => {},
                    }
                },
                Err(_) => {},
            }
        },
        Err(_) => {},
    }
}

/// What follows `while` ends behind where it began.
pub proof fn lemma_while_tail(lx: Lexed, p: int)
    ensures
        moved(p, g_while_tail(lx, p)),
    decreases tokens_left(lx, p), 88nat,
{
    unfold_g_while_tail(lx, p);
    lemma_test(lx, p);
    match g_test(lx, p) {
        Ok((test, p1)) => {
            match eat(lx, p1, TokenKind::COLON) {
                Ok(p2) => {
                    lemma_suite(lx, p2);
                },
                Err(_) => {},
            }
        },
        Err(_) => {},
    }
}

/// What follows `for` ends behind where it began.
pub proof fn lemma_for_tail(lx: Lexed, p: int)
    ensures
        moved(p, g_for_tail(lx, p)),
    decreases tokens_left(lx, p), 88nat,
{
    unfold_g_for_tail(lx, p);
    lemma_list(lx, p, false);
    match g_list(lx, p, false) {
        Ok((targets, p1)) => {
            match eat(lx, p1, TokenKind::IN) {
                Ok(p2) => {
                    lemma_testlist(lx, p2);
                    match g_testlist(lx, p2) {
                        Ok((iter, p3)) => {
                            match eat(lx, p3, TokenKind::COLON) {
                                Ok(p4) => {
                                    lemma_suite(lx, p4);
                                },
                                Err(_) => {},
                            }
                        },
                        Err(_) => {},
                    }
                },
                Err(_) => {},
            }
        },
        Err(_) => {},
    }
}

/// What follows `def` ends behind where it began.
pub proof fn lemma_def_tail(lx: Lexed, p: int)
    ensures
        moved(p, g_def_tail(lx, p)),
    decreases tokens_left(lx, p), 88nat,
{
    unfold_g_def_tail(lx, p);
    match g_id(lx, p) {
        Ok((name, p1)) => {
            lemma_parameters(lx, p1);
            match g_parameters(lx, p1) {
                Ok((parameters, p2)) => {
                    match eat(lx, p2, TokenKind::COLON) {
                        Ok(p3) => {
                            lemma_suite(lx, p3);
                        },
                        Err(_) => {},
                    }
                },
                Err(_) => {},
            }
        },
        Err(_) => {},
    }
}

/// A statement ends behind where it began.
pub proof fn lemma_stmt(lx: Lexed, p: int)
    ensures
        moved(p, g_stmt(lx, p)),
    decreases tokens_left(lx, p), 90nat,
{
    unfold_g_stmt(lx, p);
    let k = kind_at(lx, p);
    if k == TokenKind::IF || k == TokenKind::WHILE || k == TokenKind::FOR || k == TokenKind::DEF {
        match advance(lx, p) {
            Ok(p1) => {
                if k == TokenKind::IF {
                    lemma_if_tail(lx, p1);
                } else if k == TokenKind::WHILE {
                    lemma_while_tail(lx, p1);
                } else if k == TokenKind::FOR {
                    lemma_for_tail(lx, p1);
                } else {
                    lemma_def_tail(lx, p1);
                }
            },
            Err(_) => {},
        }
    } else {
        lemma_simple_stmt(lx, p);
    }
}

/// An `if` statement ends behind where it began.
pub proof fn lemma_if_stmt(lx: Lexed, p: int, is_orelse: bool)
    ensures
        moved(p, g_if_stmt(lx, p, is_orelse)),
{
    if is_orelse {
        lemma_if_tail(lx, p);
    } else {
        match eat(lx, p, TokenKind::IF) {
            Ok(p1) => {
                lemma_if_tail(lx, p1);
            },
            Err(_) => {},
        }
    }
}

/// The next statement of a module ends at `p` or behind it, and behind `p`
/// where there is a statement.
pub proof fn lemma_next(lx: Lexed, p: int)
    ensures
        held(p, g_next(lx, p)),
        g_next(lx, p) matches Ok((Some(_), q)) ==> q > p,
    decreases tokens_left(lx, p),
{
    if kind_at(lx, p) == TokenKind::NEWLINE {
        match advance(lx, p) {
            Ok(p1) => {
                lemma_next(lx, p1);
            },
            Err(_) => {},
        }
    } else if kind_at(lx, p) == TokenKind::EOF {
    } else if lx.tokens.len() == 0 {
    } else {
        lemma_stmt(lx, p);
    }
}

} // verus!
