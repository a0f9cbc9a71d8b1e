//! The statements of the grammar, from small statements up to a module.

use vstd::prelude::*;
use crate::ast::{lemma_stmts_view, lemma_exprs_empty, lemma_exprs_push, lemma_names_empty, lemma_names_push, lemma_stmts_empty, lemma_stmts_push, ASTExpr, ASTStmt, StmtV, exprs_view, names_view, stmts_view};
use crate::errors::ParseError;
use crate::expressions::{is_test_start, one_or_tuple};
use crate::grammar::{eat, g_assign_rest, g_block, g_expr_stmt, g_id, g_if_stmt, g_module, g_names, g_names_rest, g_next, g_parameters, g_simple_stmt, g_small_stmt, g_stmt, g_suite, kind_at, starts_expr, starts_test, tokens_left};
use crate::parser::{Parser, kept, yields_names, yields_stmt, yields_stmts};
use crate::token::TokenKind;
use crate::grammar::{unfold_g_assign_rest, unfold_g_block, unfold_g_def_tail, unfold_g_expr_stmt, unfold_g_for_tail, unfold_g_if_tail, unfold_g_simple_stmt, unfold_g_small_stmt, unfold_g_stmt, unfold_g_suite, unfold_g_while_tail};

verus! {

impl Parser {
    /// `names := NAME (',' NAME)* [',']`
    pub(crate) fn parse_names(&mut self) -> (r: Result<Vec<String>, ParseError>)
        requires
            old(self).wf(),
        ensures
            yields_names(*old(self), *final(self), r, g_names(old(self).lexed(), old(self).cursor())),
            r is Ok ==> final(self).cursor() > old(self).cursor(),
    {
        proof {
            reveal(g_names);
            reveal(g_names_rest);
            reveal(g_id);
        }
        let ghost lx = self.lexed();
        let first = self.eat_id()?;
        let mut names: Vec<String> = Vec::new();
        proof {
            lemma_names_empty();
            lemma_names_push(names@, first);
        }
        names.push(first);
        let ghost goal = g_names_rest(lx, self.cursor(), names_view(names@));
        loop
            invariant_except_break
                g_names_rest(lx, self.cursor(), names_view(names@)) == goal,
            invariant
                kept(*old(self), *self),
                lx == self.lexed(),
                self.cursor() > old(self).cursor(),
                goal == g_names(lx, old(self).cursor()),
            ensures
                goal == Ok::<(Seq<Seq<char>>, int), ParseError>(
                    (names_view(names@), self.cursor()),
                ),
            decreases tokens_left(self.lexed(), self.cursor()),
        {
            proof {
                reveal(g_names_rest);
                reveal(g_id);
            }
            if self.peek() != TokenKind::COMMA {
                break ;
            }
            self.bump()?;
            if self.peek() != TokenKind::ID {
                break ;
            }
            let next = self.eat_id()?;
            proof {
                lemma_names_push(names@, next);
            }
            names.push(next);
        }
        Ok(names)
    }

    pub(crate) fn parse_typedargslist(&mut self) -> (r: Result<Vec<String>, ParseError>)
        requires
            old(self).wf(),
        ensures
            yields_names(*old(self), *final(self), r, g_names(old(self).lexed(), old(self).cursor())),
            r is Ok ==> final(self).cursor() > old(self).cursor(),
    {
        self.parse_names()
    }

    pub(crate) fn parse_parameters(&mut self) -> (r: Result<Vec<String>, ParseError>)
        requires
            old(self).wf(),
        ensures
            yields_names(
                *old(self),
                *final(self),
                r,
                g_parameters(old(self).lexed(), old(self).cursor()),
            ),
            r is Ok ==> final(self).cursor() > old(self).cursor(),
    {
        proof {
            reveal(g_parameters);
        }
        self.eat(TokenKind::LPAREN)?;
        if self.peek() == TokenKind::ID {
            let names = self.parse_typedargslist()?;
            self.eat(TokenKind::RPAREN)?;
            Ok(names)
        } else {
            self.eat(TokenKind::RPAREN)?;
            proof {
                lemma_names_empty();
            }
            Ok(Vec::new())
        }
    }

    pub(crate) fn parse_expr_stmt(&mut self) -> (r: Result<ASTStmt, ParseError>)
        requires
            old(self).wf(),
        ensures
            yields_stmt(
                *old(self),
                *final(self),
                r,
                g_expr_stmt(old(self).lexed(), old(self).cursor()),
            ),
            r is Ok ==> final(self).cursor() > old(self).cursor(),
    {
        proof {
            unfold_g_expr_stmt(self.lexed(), self.cursor());
        }
        let ghost lx = self.lexed();
        let first = self.parse_testlist_star_expr()?;
        if self.peek() != TokenKind::EQ {
            return Ok(ASTStmt::new_expr(first));
        }
        let mut targets: Vec<ASTExpr> = Vec::new();
        proof {
            lemma_exprs_empty();
            lemma_exprs_push(targets@, first);
        }
        targets.push(first);
        loop
            invariant
                kept(*old(self), *self),
                lx == self.lexed(),
                self.cursor() > old(self).cursor(),
                kind_at(lx, self.cursor()) == TokenKind::EQ,
                g_assign_rest(lx, self.cursor(), exprs_view(targets@)) == g_expr_stmt(
                    lx,
                    old(self).cursor(),
                ),
            decreases tokens_left(self.lexed(), self.cursor()),
        {
            proof {
                unfold_g_assign_rest(lx, self.cursor(), exprs_view(targets@));
            }
            self.bump()?;
            let value = self.parse_testlist_star_expr()?;
            if self.peek() != TokenKind::EQ {
                return Ok(ASTStmt::new_assign(targets, value));
            }
            proof {
                lemma_exprs_push(targets@, value);
            }
            targets.push(value);
        }
    }

    pub(crate) fn parse_del_stmt(&mut self) -> (r: Result<ASTStmt, ParseError>)
        requires
            old(self).wf(),
            kind_at(old(self).lexed(), old(self).cursor()) == TokenKind::DEL,
        ensures
            yields_stmt(
                *old(self),
                *final(self),
                r,
                g_small_stmt(old(self).lexed(), old(self).cursor()),
            ),
            r is Ok ==> final(self).cursor() > old(self).cursor(),
    {
        proof {
            unfold_g_small_stmt(self.lexed(), self.cursor());
            reveal(starts_test);
            reveal(starts_expr);
        }
        self.eat(TokenKind::DEL)?;
        let targets = self.parse_exprlist()?;
        Ok(ASTStmt::new_delete(targets))
    }

    pub(crate) fn parse_pass_stmt(&mut self) -> (r: Result<ASTStmt, ParseError>)
        requires
            old(self).wf(),
            kind_at(old(self).lexed(), old(self).cursor()) == TokenKind::PASS,
        ensures
            yields_stmt(
                *old(self),
                *final(self),
                r,
                g_small_stmt(old(self).lexed(), old(self).cursor()),
            ),
            r is Ok ==> final(self).cursor() > old(self).cursor(),
    {
        proof {
            unfold_g_small_stmt(self.lexed(), self.cursor());
            reveal(starts_test);
            reveal(starts_expr);
        }
        self.eat(TokenKind::PASS)?;
        Ok(ASTStmt::new_pass())
    }

    pub(crate) fn parse_break_stmt(&mut self) -> (r: Result<ASTStmt, ParseError>)
        requires
            old(self).wf(),
            kind_at(old(self).lexed(), old(self).cursor()) == TokenKind::BREAK,
        ensures
            yields_stmt(
                *old(self),
                *final(self),
                r,
                g_small_stmt(old(self).lexed(), old(self).cursor()),
            ),
            r is Ok ==> final(self).cursor() > old(self).cursor(),
    {
        proof {
            unfold_g_small_stmt(self.lexed(), self.cursor());
            reveal(starts_test);
            reveal(starts_expr);
        }
        self.eat(TokenKind::BREAK)?;
        Ok(ASTStmt::new_break())
    }

    pub(crate) fn parse_continue_stmt(&mut self) -> (r: Result<ASTStmt, ParseError>)
        requires
            old(self).wf(),
            kind_at(old(self).lexed(), old(self).cursor()) == TokenKind::CONTINUE,
        ensures
            yields_stmt(
                *old(self),
                *final(self),
                r,
                g_small_stmt(old(self).lexed(), old(self).cursor()),
            ),
            r is Ok ==> final(self).cursor() > old(self).cursor(),
    {
        proof {
            unfold_g_small_stmt(self.lexed(), self.cursor());
            reveal(starts_test);
            reveal(starts_expr);
        }
        self.eat(TokenKind::CONTINUE)?;
        Ok(ASTStmt::new_continue())
    }

    pub(crate) fn parse_return_stmt(&mut self) -> (r: Result<ASTStmt, ParseError>)
        requires
            old(self).wf(),
            kind_at(old(self).lexed(), old(self).cursor()) == TokenKind::RETURN,
        ensures
            yields_stmt(
                *old(self),
                *final(self),
                r,
                g_small_stmt(old(self).lexed(), old(self).cursor()),
            ),
            r is Ok ==> final(self).cursor() > old(self).cursor(),
    {
        proof {
            unfold_g_small_stmt(self.lexed(), self.cursor());
            reveal(starts_test);
            reveal(starts_expr);
        }
        self.eat(TokenKind::RETURN)?;
        if is_test_start(self.peek()) {
            let value = self.parse_testlist_star_expr()?;
            Ok(ASTStmt::new_return(Some(value)))
        } else {
            Ok(ASTStmt::new_return(None))
        }
    }

    pub(crate) fn parse_flow_stmt(&mut self) -> (r: Result<ASTStmt, ParseError>)
        requires
            old(self).wf(),
            kind_at(old(self).lexed(), old(self).cursor()) == TokenKind::BREAK || kind_at(
                old(self).lexed(),
                old(self).cursor(),
            ) == TokenKind::CONTINUE || kind_at(old(self).lexed(), old(self).cursor())
                == TokenKind::RETURN,
        ensures
            yields_stmt(
                *old(self),
                *final(self),
                r,
                g_small_stmt(old(self).lexed(), old(self).cursor()),
            ),
            r is Ok ==> final(self).cursor() > old(self).cursor(),
    {
        proof {
            unfold_g_small_stmt(self.lexed(), self.cursor());
        }
        match self.peek() {
            TokenKind::BREAK => self.parse_break_stmt(),
            TokenKind::CONTINUE => self.parse_continue_stmt(),
            _ => self.parse_return_stmt(),
        }
    }

    pub(crate) fn parse_global_stmt(&mut self) -> (r: Result<ASTStmt, ParseError>)
        requires
            old(self).wf(),
            kind_at(old(self).lexed(), old(self).cursor()) == TokenKind::GLOBAL,
        ensures
            yields_stmt(
                *old(self),
                *final(self),
                r,
                g_small_stmt(old(self).lexed(), old(self).cursor()),
            ),
            r is Ok ==> final(self).cursor() > old(self).cursor(),
    {
        proof {
            unfold_g_small_stmt(self.lexed(), self.cursor());
            reveal(starts_test);
            reveal(starts_expr);
        }
        self.eat(TokenKind::GLOBAL)?;
        let names = self.parse_names()?;
        Ok(ASTStmt::new_global(names))
    }

    pub(crate) fn parse_small_stmt(&mut self) -> (r: Result<ASTStmt, ParseError>)
        requires
            old(self).wf(),
        ensures
            yields_stmt(
                *old(self),
                *final(self),
                r,
                g_small_stmt(old(self).lexed(), old(self).cursor()),
            ),
            r is Ok ==> final(self).cursor() > old(self).cursor(),
    {
        proof {
            unfold_g_small_stmt(self.lexed(), self.cursor());
        }
        let k = self.peek();
        if is_test_start(k) {
            self.parse_expr_stmt()
        } else {
            match k {
                TokenKind::DEL => self.parse_del_stmt(),
                TokenKind::PASS => self.parse_pass_stmt(),
                TokenKind::BREAK | TokenKind::CONTINUE | TokenKind::RETURN => self.parse_flow_stmt(),
                TokenKind::GLOBAL => self.parse_global_stmt(),
                _ => Err(ParseError::UnexpectedToken),
            }
        }
    }

    pub(crate) fn parse_simple_stmt(&mut self) -> (r: Result<ASTStmt, ParseError>)
        requires
            old(self).wf(),
        ensures
            yields_stmt(
                *old(self),
                *final(self),
                r,
                g_simple_stmt(old(self).lexed(), old(self).cursor()),
            ),
            r is Ok ==> final(self).cursor() > old(self).cursor(),
    {
        proof {
            unfold_g_simple_stmt(self.lexed(), self.cursor());
        }
        let small_stmt = self.parse_small_stmt()?;
        if self.peek() != TokenKind::EOF {
            self.eat(TokenKind::NEWLINE)?;
        }
        Ok(small_stmt)
    }

    pub(crate) fn parse_suite(&mut self) -> (r: Result<Vec<ASTStmt>, ParseError>)
        requires
            old(self).wf(),
        ensures
            yields_stmts(*old(self), *final(self), r, g_suite(old(self).lexed(), old(self).cursor())),
            r is Ok ==> final(self).cursor() > old(self).cursor(),
        decreases tokens_left(old(self).lexed(), old(self).cursor()), 86nat,
    {
        proof {
            unfold_g_suite(self.lexed(), self.cursor());
        }
        let ghost lx = self.lexed();
        proof {
            self.lemma_cursor();
        }
        if self.peek() != TokenKind::NEWLINE {
            let only = self.parse_simple_stmt()?;
            let mut body: Vec<ASTStmt> = Vec::new();
            proof {
                lemma_stmts_empty();
                lemma_stmts_push(body@, only);
            }
            body.push(only);
            return Ok(body);
        }
        self.bump()?;
        self.eat(TokenKind::INDENT)?;
        let mut body: Vec<ASTStmt> = Vec::new();
        proof {
            lemma_stmts_empty();
        }
        let ghost goal = g_block(lx, self.cursor(), stmts_view(body@));
        loop
            invariant_except_break
                g_block(lx, self.cursor(), stmts_view(body@)) == goal,
            invariant
                kept(*old(self), *self),
                lx == self.lexed(),
                self.cursor() > old(self).cursor(),
                goal == g_suite(lx, old(self).cursor()),
                old(self).cursor() >= 0,
            ensures
                goal == Ok::<(Seq<StmtV>, int), ParseError>((stmts_view(body@), self.cursor())),
            decreases tokens_left(self.lexed(), self.cursor()),
        {
            proof {
                unfold_g_block(lx, self.cursor(), stmts_view(body@));
                self.lemma_cursor();
                lemma_stmts_view(body@);
            }
            if self.peek() == TokenKind::DEDENT && body.len() > 0 {
                self.bump()?;
                break ;
            }
            let next = self.parse_stmt()?;
            proof {
                lemma_stmts_push(body@, next);
            }
            body.push(next);
        }
        Ok(body)
    }

    pub(crate) fn parse_if_stmt(&mut self, is_orelse: bool) -> (r: Result<ASTStmt, ParseError>)
        requires
            old(self).wf(),
        ensures
            yields_stmt(
                *old(self),
                *final(self),
                r,
                g_if_stmt(old(self).lexed(), old(self).cursor(), is_orelse),
            ),
            r is Ok ==> final(self).cursor() > old(self).cursor(),
        decreases tokens_left(old(self).lexed(), old(self).cursor()),
            (if is_orelse {
                88nat
            } else {
                89nat
            }),
    {
        if !is_orelse {
            self.eat(TokenKind::IF)?;
        }
        proof {
            unfold_g_if_tail(self.lexed(), self.cursor());
        }
        let test = self.parse_test()?;
        self.eat(TokenKind::COLON)?;
        let body = self.parse_suite()?;
        let k = self.peek();
        if k == TokenKind::ELIF {
            self.eat(TokenKind::ELIF)?;
            let nested = self.parse_if_stmt(true)?;
            let mut orelse: Vec<ASTStmt> = Vec::new();
            proof {
                lemma_stmts_empty();
                lemma_stmts_push(orelse@, nested);
            }
            orelse.push(nested);
            Ok(ASTStmt::new_if(test, body, orelse))
        } else if k == TokenKind::ELSE {
            self.eat(TokenKind::ELSE)?;
            self.eat(TokenKind::COLON)?;
            let orelse = self.parse_suite()?;
            Ok(ASTStmt::new_if(test, body, orelse))
        } else {
            proof {
                lemma_stmts_empty();
            }
            Ok(ASTStmt::new_if(test, body, Vec::new()))
        }
    }

    pub(crate) fn parse_while_stmt(&mut self) -> (r: Result<ASTStmt, ParseError>)
        requires
            old(self).wf(),
            kind_at(old(self).lexed(), old(self).cursor()) == TokenKind::WHILE,
        ensures
            yields_stmt(*old(self), *final(self), r, g_stmt(old(self).lexed(), old(self).cursor())),
            r is Ok ==> final(self).cursor() > old(self).cursor(),
        decreases tokens_left(old(self).lexed(), old(self).cursor()), 89nat,
    {
        proof {
            unfold_g_stmt(self.lexed(), self.cursor());
        }
        self.eat(TokenKind::WHILE)?;
        proof {
            unfold_g_while_tail(self.lexed(), self.cursor());
        }
        let test = self.parse_test()?;
        self.eat(TokenKind::COLON)?;
        let body = self.parse_suite()?;
        Ok(ASTStmt::new_while(test, body))
    }

    pub(crate) fn parse_for_stmt(&mut self) -> (r: Result<ASTStmt, ParseError>)
        requires
            old(self).wf(),
            kind_at(old(self).lexed(), old(self).cursor()) == TokenKind::FOR,
        ensures
            yields_stmt(*old(self), *final(self), r, g_stmt(old(self).lexed(), old(self).cursor())),
            r is Ok ==> final(self).cursor() > old(self).cursor(),
        decreases tokens_left(old(self).lexed(), old(self).cursor()), 89nat,
    {
        proof {
            unfold_g_stmt(self.lexed(), self.cursor());
        }
        self.eat(TokenKind::FOR)?;
        proof {
            unfold_g_for_tail(self.lexed(), self.cursor());
        }
        let exprlist = self.parse_exprlist()?;
        let target = one_or_tuple(exprlist);
        self.eat(TokenKind::IN)?;
        let iter = self.parse_testlist()?;
        self.eat(TokenKind::COLON)?;
        let body = self.parse_suite()?;
        Ok(ASTStmt::new_for(target, iter, body))
    }

    pub(crate) fn parse_funcdef(&mut self) -> (r: Result<ASTStmt, ParseError>)
        requires
            old(self).wf(),
            kind_at(old(self).lexed(), old(self).cursor()) == TokenKind::DEF,
        ensures
            yields_stmt(*old(self), *final(self), r, g_stmt(old(self).lexed(), old(self).cursor())),
            r is Ok ==> final(self).cursor() > old(self).cursor(),
        decreases tokens_left(old(self).lexed(), old(self).cursor()), 89nat,
    {
        proof {
            unfold_g_stmt(self.lexed(), self.cursor());
        }
        self.eat(TokenKind::DEF)?;
        proof {
            unfold_g_def_tail(self.lexed(), self.cursor());
        }
        let name = self.eat_id()?;
        let arguments = self.parse_parameters()?;
        self.eat(TokenKind::COLON)?;
        let body = self.parse_suite()?;
        Ok(ASTStmt::new_func_def(name, arguments, body))
    }

    pub(crate) fn parse_compound_stmt(&mut self) -> (r: Result<ASTStmt, ParseError>)
        requires
            old(self).wf(),
            kind_at(old(self).lexed(), old(self).cursor()) == TokenKind::IF || kind_at(
                old(self).lexed(),
                old(self).cursor(),
            ) == TokenKind::WHILE || kind_at(old(self).lexed(), old(self).cursor())
                == TokenKind::FOR || kind_at(old(self).lexed(), old(self).cursor())
                == TokenKind::DEF,
        ensures
            yields_stmt(*old(self), *final(self), r, g_stmt(old(self).lexed(), old(self).cursor())),
            r is Ok ==> final(self).cursor() > old(self).cursor(),
        decreases tokens_left(old(self).lexed(), old(self).cursor()), 90nat,
    {
        proof {
            unfold_g_stmt(self.lexed(), self.cursor());
        }
        match self.peek() {
            TokenKind::IF => self.parse_if_stmt(false),
            TokenKind::WHILE => self.parse_while_stmt(),
            TokenKind::FOR => self.parse_for_stmt(),
            _ => self.parse_funcdef(),
        }
    }

    pub(crate) fn parse_stmt(&mut self) -> (r: Result<ASTStmt, ParseError>)
        requires
            old(self).wf(),
        ensures
            yields_stmt(*old(self), *final(self), r, g_stmt(old(self).lexed(), old(self).cursor())),
            r is Ok ==> final(self).cursor() > old(self).cursor(),
        decreases tokens_left(old(self).lexed(), old(self).cursor()), 91nat,
    {
        proof {
            unfold_g_stmt(self.lexed(), self.cursor());
        }
        match self.peek() {
            TokenKind::IF | TokenKind::WHILE | TokenKind::FOR | TokenKind::DEF => {
                self.parse_compound_stmt()
            },
            _ => self.parse_simple_stmt(),
        }
    }

    /// The next statement of the module, behind any `NEWLINE`s; none at
    /// `EOF`.
    pub(crate) fn parse_next(&mut self) -> (r: Result<Option<ASTStmt>, ParseError>)
        requires
            old(self).wf(),
        ensures
            kept(*old(self), *final(self)),
            match r {
                Ok(found) => g_next(old(self).lexed(), old(self).cursor()) == Ok::<
                    (Option<StmtV>, int),
                    ParseError,
                >(
                    (
                        match found {
                            Some(s) => Some(s@),
                            None => None,
                        },
                        final(self).cursor(),
                    ),
                ),
                Err(e) => g_next(old(self).lexed(), old(self).cursor()) == Err::<
                    (Option<StmtV>, int),
                    ParseError,
                >(e),
            },
            r matches Ok(Some(_)) ==> final(self).cursor() > old(self).cursor(),
    {
        let ghost lx = self.lexed();
        let ghost goal = g_next(lx, self.cursor());
        loop
            invariant_except_break
                g_next(lx, self.cursor()) == goal,
            invariant
                kept(*old(self), *self),
                lx == self.lexed(),
                goal == g_next(lx, old(self).cursor()),
            ensures
                kind_at(lx, self.cursor()) != TokenKind::NEWLINE,
                g_next(lx, self.cursor()) == goal,
            decreases tokens_left(self.lexed(), self.cursor()),
        {
            if self.peek() != TokenKind::NEWLINE {
                break ;
            }
            self.bump()?;
        }
        if self.peek() == TokenKind::EOF {
            Ok(None)
        } else if self.is_empty() {
            Err(self.stream_failure())
        } else {
            let stmt = self.parse_stmt()?;
            Ok(Some(stmt))
        }
    }

    /// The statements of the module from the current token on.
    pub(crate) fn parse_module(&mut self) -> (r: Result<Vec<ASTStmt>, ParseError>)
        requires
            old(self).wf(),
        ensures
            yields_stmts(
                *old(self),
                *final(self),
                r,
                g_module(old(self).lexed(), old(self).cursor(), Seq::empty()),
            ),
    {
        let ghost lx = self.lexed();
        let mut tree: Vec<ASTStmt> = Vec::new();
        proof {
            lemma_stmts_empty();
        }
        let ghost goal = g_module(lx, self.cursor(), stmts_view(tree@));
        loop
            invariant_except_break
                g_module(lx, self.cursor(), stmts_view(tree@)) == goal,
            invariant
                kept(*old(self), *self),
                lx == self.lexed(),
                goal == g_module(lx, old(self).cursor(), Seq::empty()),
            ensures
                goal == Ok::<(Seq<StmtV>, int), ParseError>((stmts_view(tree@), self.cursor())),
            decreases tokens_left(self.lexed(), self.cursor()),
        {
            proof {
                self.lemma_cursor();
            }
            match self.parse_next()? {
                None => {
                    break ;
                },
                Some(stmt) => {
                    proof {
                        lemma_stmts_push(tree@, stmt);
                    }
                    tree.push(stmt);
                },
            }
        }
        Ok(tree)
    }
}

} // verus!
