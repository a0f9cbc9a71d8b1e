//! The evaluation of statements.

use vstd::prelude::*;
use vstd::string::StringExecFns;
use crate::ast::{AST, ASTExpr, ASTSlice, ASTStmt, StmtV, clone_names, clone_stmts, exprs_view, lemma_expr_view, lemma_exprs_view, lemma_slice_view, lemma_stmt_view, lemma_stmts_view, stmts_view};
use crate::errors::{EvalError, EvalErrorV, Fault};

use crate::eval::evaluator::{Evaluator, LocalEnv, agrees_stmt, frame_view, steps};
use crate::eval::semantics::{unfold_eval_block, unfold_eval_for, unfold_eval_stmt, unfold_eval_while, assign_all, eval_block, eval_for, eval_module, eval_stmt, eval_while, iterable_items};
use crate::eval::types::{StmtResult, ValueV, lemma_value_view, lemma_values_empty, lemma_values_push, lemma_values_view, py_val, py_val_t, share, values_view};

verus! {

/// The values that a `for` loop runs over.
fn iterable(v: &py_val_t) -> (r: Result<Vec<py_val_t>, EvalError>)
    ensures
        match r {
            Ok(items) => iterable_items(v@) == Ok::<Seq<ValueV>, EvalErrorV>(values_view(items@)),
            Err(e) => iterable_items(v@) == Err::<Seq<ValueV>, EvalErrorV>(e@),
        },
{
    proof {
        lemma_value_view(&**v);
        lemma_values_empty();
    }
    match &**v {
        py_val::List(elts) | py_val::Tuple(elts) => {
            let mut items: Vec<py_val_t> = Vec::new();
            let mut i: usize = 0;
            while i < elts.len()
                invariant
                    i <= elts.len(),
                    items@ =~= elts@.subrange(0, i as int),
                decreases elts.len() - i,
            {
                items.push(share(&elts[i]));
                i = i + 1;
            }
            proof {
                assert(items@ =~= elts@);
            }
            Ok(items)
        },
        py_val::Str(s) => {
            let n = s.as_str().unicode_len();
            let mut items: Vec<py_val_t> = Vec::new();
            let mut i: usize = 0;
            while i < n
                invariant
                    i <= n,
                    n == s@.len(),
                    values_view(items@) =~= Seq::new(i as nat, |k: int| ValueV::Str(seq![s@[k]])),
                decreases n - i,
            {
                let c = s.as_str().get_char(i);
                let mut one = String::new();
                one.push(c);
                let item = py_val::make_string(one);
                proof {
                    lemma_values_push(items@, item);
                    assert(one@ =~= seq![s@[i as int]]);
                }
                items.push(item);
                i = i + 1;
            }
            Ok(items)
        },
        _ => Err(EvalError::TypeError),
    }
}

impl Evaluator {
    /// The statements of a block, in order.
    pub fn eval_stmt_vec(&mut self, fuel: usize, body: &Vec<ASTStmt>, local_env: &mut LocalEnv) -> (r:
        Result<StmtResult, EvalError>)
        ensures
            steps(
                *old(self),
                *final(self),
                *final(local_env),
                eval_block(
                    old(self).facts(),
                    fuel as nat,
                    old(self)@,
                    frame_view(*old(local_env)),
                    stmts_view(body@),
                    0,
                ),
            ),
            agrees_stmt(
                r,
                eval_block(
                    old(self).facts(),
                    fuel as nat,
                    old(self)@,
                    frame_view(*old(local_env)),
                    stmts_view(body@),
                    0,
                ).result,
            ),
        decreases fuel, 2nat, body, 0nat, 0nat,
    {
        let ghost facts = self.facts();
        let ghost goal = eval_block(
            facts,
            fuel as nat,
            self@,
            frame_view(*local_env),
            stmts_view(body@),
            0,
        );
        let mut i: usize = 0;
        proof {
            lemma_stmts_view(body@);
        }
        while i < body.len()
            invariant
                i <= body.len(),
                stmts_view(body@).len() == body@.len(),
                self.facts() == facts,
                facts == old(self).facts(),
                self.limit() == old(self).limit(),
                eval_block(
                    facts,
                    fuel as nat,
                    self@,
                    frame_view(*local_env),
                    stmts_view(body@),
                    i as int,
                ) == goal,
                goal == eval_block(
                    old(self).facts(),
                    fuel as nat,
                    old(self)@,
                    frame_view(*old(local_env)),
                    stmts_view(body@),
                    0,
                ),
            decreases body.len() - i,
        {
            proof {
                lemma_stmts_view(body@);
                unfold_eval_block(
                    facts,
                    fuel as nat,
                    self@,
                    frame_view(*local_env),
                    stmts_view(body@),
                    i as int,
                );
            }
            match self.eval_stmt(fuel, &body[i], local_env)? {
                StmtResult::Next => {},
                other => {
                    return Ok(other);
                },
            }
            i = i + 1;
        }
        proof {
            unfold_eval_block(
                facts,
                fuel as nat,
                self@,
                frame_view(*local_env),
                stmts_view(body@),
                i as int,
            );
        }
        Ok(StmtResult::Next)
    }

    /// Binds the targets of an assignment.
    fn assign(&mut self, targets: &Vec<ASTExpr>, value: py_val_t, local_env: &mut LocalEnv) -> (r:
        Result<StmtResult, EvalError>)
        ensures
            steps(
                *old(self),
                *final(self),
                *final(local_env),
                assign_all(
                    old(self)@,
                    frame_view(*old(local_env)),
                    exprs_view(targets@),
                    0,
                    value@,
                ),
            ),
            agrees_stmt(
                r,
                assign_all(
                    old(self)@,
                    frame_view(*old(local_env)),
                    exprs_view(targets@),
                    0,
                    value@,
                ).result,
            ),
    {
        let ghost goal = assign_all(
            self@,
            frame_view(*local_env),
            exprs_view(targets@),
            0,
            value@,
        );
        let mut i: usize = 0;
        proof {
            lemma_exprs_view(targets@);
        }
        while i < targets.len()
            invariant
                i <= targets.len(),
                exprs_view(targets@).len() == targets@.len(),
                self.facts() == old(self).facts(),
                self.limit() == old(self).limit(),
                assign_all(self@, frame_view(*local_env), exprs_view(targets@), i as int, value@)
                    == goal,
                goal == assign_all(
                    old(self)@,
                    frame_view(*old(local_env)),
                    exprs_view(targets@),
                    0,
                    value@,
                ),
            decreases targets.len() - i,
        {
            proof {
                lemma_exprs_view(targets@);
                lemma_expr_view(&targets[i as int]);
            }
            match &targets[i] {
                ASTExpr::Name(n) => {
                    self.set_env(local_env, n, share(&value));
                },
                ASTExpr::Subscript(_, slice) => {
                    proof {
                        lemma_slice_view(slice);
                    }
                    match slice {
                        ASTSlice::Index(_) => {
                            return Err(EvalError::RuntimeError(Fault::Unimplemented));
                        },
                        _ => {
                            return Err(EvalError::RuntimeError(Fault::CannotAssign));
                        },
                    }
                },
                _ => {
                    return Err(EvalError::RuntimeError(Fault::CannotAssign));
                },
            }
            i = i + 1;
        }
        Ok(StmtResult::Next)
    }

    /// A `while` loop.
    fn eval_while(&mut self, fuel: usize, stmt: &ASTStmt, local_env: &mut LocalEnv) -> (r: Result<
        StmtResult,
        EvalError,
    >)
        requires
            stmt is While,
        ensures
            steps(
                *old(self),
                *final(self),
                *final(local_env),
                eval_while(
                    old(self).facts(),
                    fuel as nat,
                    old(self)@,
                    frame_view(*old(local_env)),
                    stmt@,
                    fuel as nat,
                ),
            ),
            agrees_stmt(
                r,
                eval_while(
                    old(self).facts(),
                    fuel as nat,
                    old(self)@,
                    frame_view(*old(local_env)),
                    stmt@,
                    fuel as nat,
                ).result,
            ),
        decreases fuel, 2nat, stmt, 1nat, 0nat,
    {
        let ghost facts = self.facts();
        let ghost goal = eval_while(
            facts,
            fuel as nat,
            self@,
            frame_view(*local_env),
            stmt@,
            fuel as nat,
        );
        proof {
            lemma_stmt_view(stmt);
        }
        match stmt {
            ASTStmt::While(test, body) => {
                let mut n = fuel;
                loop
                    invariant
                        self.facts() == facts,
                        facts == old(self).facts(),
                        self.limit() == old(self).limit(),
                        stmt@ == StmtV::While(test@, stmts_view(body@)),
                        stmt is While,
                        *test == stmt->While_0,
                        *body == stmt->While_1,
                        eval_while(
                            facts,
                            fuel as nat,
                            self@,
                            frame_view(*local_env),
                            stmt@,
                            n as nat,
                        ) == goal,
                        goal == eval_while(
                            old(self).facts(),
                            fuel as nat,
                            old(self)@,
                            frame_view(*old(local_env)),
                            stmt@,
                            fuel as nat,
                        ),
                    decreases n,
                {
                    proof {
                        unfold_eval_while(
                            facts,
                            fuel as nat,
                            self@,
                            frame_view(*local_env),
                            stmt@,
                            n as nat,
                        );
                    }
                    let v = self.eval_expr(fuel, test, local_env)?;
                    if v.is_false() {
                        return Ok(StmtResult::Next);
                    }
                    if n == 0 {
                        return Err(EvalError::RuntimeError(Fault::LimitReached));
                    }
                    match self.eval_stmt_vec(fuel, body, local_env)? {
                        StmtResult::Next | StmtResult::Continue => {},
                        StmtResult::Break => {
                            return Ok(StmtResult::Next);
                        },
                        StmtResult::Return(val) => {
                            return Ok(StmtResult::Return(val));
                        },
                    }
                    n = n - 1;
                }
            },
            _ => Ok(StmtResult::Next),
        }
    }

    /// A `for` loop over `items`.
    fn eval_for(
        &mut self,
        fuel: usize,
        stmt: &ASTStmt,
        name: &String,
        items: &Vec<py_val_t>,
        local_env: &mut LocalEnv,
    ) -> (r: Result<StmtResult, EvalError>)
        requires
            stmt is For,
        ensures
            steps(
                *old(self),
                *final(self),
                *final(local_env),
                eval_for(
                    old(self).facts(),
                    fuel as nat,
                    old(self)@,
                    frame_view(*old(local_env)),
                    stmt@,
                    name@,
                    values_view(items@),
                    0,
                ),
            ),
            agrees_stmt(
                r,
                eval_for(
                    old(self).facts(),
                    fuel as nat,
                    old(self)@,
                    frame_view(*old(local_env)),
                    stmt@,
                    name@,
                    values_view(items@),
                    0,
                ).result,
            ),
        decreases fuel, 2nat, stmt, 1nat, 0nat,
    {
        let ghost facts = self.facts();
        let ghost goal = eval_for(
            facts,
            fuel as nat,
            self@,
            frame_view(*local_env),
            stmt@,
            name@,
            values_view(items@),
            0,
        );
        proof {
            lemma_stmt_view(stmt);
            lemma_values_view(items@);
        }
        match stmt {
            ASTStmt::For(_, _, body) => {
                let mut i: usize = 0;
                while i < items.len()
                    invariant
                        i <= items.len(),
                        values_view(items@).len() == items@.len(),
                        self.facts() == facts,
                        facts == old(self).facts(),
                        self.limit() == old(self).limit(),
                        stmt@ matches StmtV::For(_, _, b) && b == stmts_view(body@),
                        stmt is For,
                        *body == stmt->For_2,
                        eval_for(
                            facts,
                            fuel as nat,
                            self@,
                            frame_view(*local_env),
                            stmt@,
                            name@,
                            values_view(items@),
                            i as int,
                        ) == goal,
                        goal == eval_for(
                            old(self).facts(),
                            fuel as nat,
                            old(self)@,
                            frame_view(*old(local_env)),
                            stmt@,
                            name@,
                            values_view(items@),
                            0,
                        ),
                    decreases items.len() - i,
                {
                    proof {
                        lemma_values_view(items@);
                        unfold_eval_for(
                            facts,
                            fuel as nat,
                            self@,
                            frame_view(*local_env),
                            stmt@,
                            name@,
                            values_view(items@),
                            i as int,
                        );
                    }
                    self.set_env(local_env, name, share(&items[i]));
                    match self.eval_stmt_vec(fuel, body, local_env)? {
                        StmtResult::Next | StmtResult::Continue => {},
                        StmtResult::Break => {
                            return Ok(StmtResult::Next);
                        },
                        StmtResult::Return(val) => {
                            return Ok(StmtResult::Return(val));
                        },
                    }
                    i = i + 1;
                }
                proof {
                    unfold_eval_for(
                        facts,
                        fuel as nat,
                        self@,
                        frame_view(*local_env),
                        stmt@,
                        name@,
                        values_view(items@),
                        i as int,
                    );
                }
                Ok(StmtResult::Next)
            },
            _ => Ok(StmtResult::Next),
        }
    }

    /// How a statement ends. `fuel` says how deep calls may still nest
    /// and how long a `while` loop may run.
    pub fn eval_stmt(&mut self, fuel: usize, stmt: &ASTStmt, local_env: &mut LocalEnv) -> (r: Result<
        StmtResult,
        EvalError,
    >)
        ensures
            steps(
                *old(self),
                *final(self),
                *final(local_env),
                eval_stmt(
                    old(self).facts(),
                    fuel as nat,
                    old(self)@,
                    frame_view(*old(local_env)),
                    stmt@,
                ),
            ),
            agrees_stmt(
                r,
                eval_stmt(
                    old(self).facts(),
                    fuel as nat,
                    old(self)@,
                    frame_view(*old(local_env)),
                    stmt@,
                ).result,
            ),
        decreases fuel, 2nat, stmt, 2nat, 0nat,
    {
        proof {
            lemma_stmt_view(stmt);
            unfold_eval_stmt(
                self.facts(),
                fuel as nat,
                self@,
                frame_view(*local_env),
                stmt@,
            );
        }
        match stmt {
            ASTStmt::FuncDef(name, arguments, body) => {
                let func = py_val::make_func(name.clone(), clone_names(arguments), clone_stmts(body));
                self.set_env(local_env, name, func);
                Ok(StmtResult::Next)
            },
            ASTStmt::Return(value) => match value {
                None => Ok(StmtResult::Return(py_val::make_none())),
                Some(e) => {
                    let v = self.eval_expr(fuel, e, local_env)?;
                    Ok(StmtResult::Return(v))
                },
            },
            ASTStmt::Delete(_) => Err(EvalError::RuntimeError(Fault::Unimplemented)),
            ASTStmt::Assign(targets, value) => {
                let val = self.eval_expr(fuel, value, local_env)?;
                self.assign(targets, val, local_env)
            },
            ASTStmt::For(target, iter, _) => {
                let iterator = self.eval_expr(fuel, iter, local_env)?;
                proof {
                    lemma_expr_view(target);
                }
                match target {
                    ASTExpr::Name(name) => {
                        let items = iterable(&iterator)?;
                        self.eval_for(fuel, stmt, name, &items, local_env)
                    },
                    _ => Err(EvalError::RuntimeError(Fault::Unimplemented)),
                }
            },
            ASTStmt::While(_, _) => self.eval_while(fuel, stmt, local_env),
            ASTStmt::If(test, body, orelse) => {
                let v = self.eval_expr(fuel, test, local_env)?;
                if v.is_false() {
                    self.eval_stmt_vec(fuel, orelse, local_env)
                } else {
                    self.eval_stmt_vec(fuel, body, local_env)
                }
            },
            ASTStmt::Global(names) => {
                self.declare(local_env, names)?;
                Ok(StmtResult::Next)
            },
            ASTStmt::Expr(e) => {
                let _ = self.eval_expr(fuel, e, local_env)?;
                Ok(StmtResult::Next)
            },
            ASTStmt::Pass => Ok(StmtResult::Next),
            ASTStmt::Break => Ok(StmtResult::Break),
            ASTStmt::Continue => Ok(StmtResult::Continue),
        }
    }

    /// Evaluates the statements of a module at top level.
    pub fn eval_ast(&mut self, ast: &AST) -> (r: Result<(), EvalError>)
        ensures
            final(self)@ == eval_module(
                old(self).facts(),
                old(self).limit(),
                old(self)@,
                stmts_view(ast@),
                0,
            ).0,
            final(self).facts() == old(self).facts(),
            final(self).limit() == old(self).limit(),
            match r {
                Ok(_) => eval_module(
                    old(self).facts(),
                    old(self).limit(),
                    old(self)@,
                    stmts_view(ast@),
                    0,
                ).1 == Ok::<(), EvalErrorV>(()),
                Err(e) => eval_module(
                    old(self).facts(),
                    old(self).limit(),
                    old(self)@,
                    stmts_view(ast@),
                    0,
                ).1 == Err::<(), EvalErrorV>(e@),
            },
    {
        let ghost facts = self.facts();
        let ghost goal = eval_module(facts, self.limit(), self@, stmts_view(ast@), 0);
        let fuel = self.get_limit();
        let mut i: usize = 0;
        proof {
            lemma_stmts_view(ast@);
        }
        while i < ast.len()
            invariant
                i <= ast.len(),
                stmts_view(ast@).len() == ast@.len(),
                self.facts() == facts,
                facts == old(self).facts(),
                self.limit() == old(self).limit(),
                fuel == self.limit(),
                eval_module(facts, fuel as nat, self@, stmts_view(ast@), i as int) == goal,
                goal == eval_module(
                    old(self).facts(),
                    old(self).limit(),
                    old(self)@,
                    stmts_view(ast@),
                    0,
                ),
            decreases ast.len() - i,
        {
            proof {
                lemma_stmts_view(ast@);
            }
            let mut top: LocalEnv = None;
            match self.eval_stmt(fuel, &ast[i], &mut top)? {
                StmtResult::Next => {},
                StmtResult::Return(_) => {
                    return Err(EvalError::RuntimeError(Fault::OutsideFunction));
                },
                _ => {
                    return Err(EvalError::RuntimeError(Fault::OutsideLoop));
                },
            }
            i = i + 1;
        }
        Ok(())
    }
}

} // verus!
