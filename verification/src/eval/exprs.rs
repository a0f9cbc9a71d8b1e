//! The evaluation of expressions.

use vstd::prelude::*;
use crate::ast::{ASTBoolOp, ASTCmpOp, ASTConstant, ASTExpr, ASTSlice, ExprV, exprs_view, lemma_expr_view, lemma_exprs_view, lemma_slice_view, lemma_names_view, names_view};
use crate::errors::{EvalError, EvalErrorV, Fault};
use crate::eval::builtins::agrees;
use crate::eval::evaluator::{Evaluator, Frame, LocalEnv, frame_view, steps};
use crate::eval::semantics::{eval_dict, eval_set, unfold_eval_dict, unfold_eval_set, unfold_apply, unfold_call_value, unfold_eval_bool_op, unfold_eval_compare, unfold_eval_expr, unfold_eval_exprs, EvalState, FrameV, Out, apply, bind_params, call_value, eval_bool_op, eval_compare, eval_expr, eval_exprs, left, lookup_global};
use crate::eval::types::{is_hashable, lemma_pairs_empty, pairs_view, put_item, put_pair, Env, Slot, StmtResult, ValueV, lemma_value_view, lemma_values_empty, lemma_values_push, lemma_values_view, py_val, py_val_t, share, values_view};
use crate::eval::utils::{compare_operator_to_function_name, operator_to_function_name, unary_operator_to_function_name};

verus! {

/// The frame of a call: each parameter bound to its argument.
fn new_frame(params: &Vec<String>, args: &Vec<py_val_t>) -> (frame: Frame)
    requires
        params.len() == args.len(),
    ensures
        frame@ == (FrameV {
            vars: bind_params(Seq::empty(), names_view(params@), values_view(args@), 0),
            reads: Seq::empty(),
        }),
{
    let mut vars = Env::new();
    let mut i: usize = 0;
    proof {
        lemma_names_view(params@);
        lemma_values_view(args@);
    }
    while i < params.len()
        invariant
            i <= params.len(),
            params.len() == args.len(),
            names_view(params@).len() == params@.len(),
            values_view(args@).len() == args@.len(),
            bind_params(vars@, names_view(params@), values_view(args@), i as int) == bind_params(
                Seq::empty(),
                names_view(params@),
                values_view(args@),
                0,
            ),
        decreases params.len() - i,
    {
        proof {
            lemma_names_view(params@);
            lemma_values_view(args@);
        }
        vars.put(params[i].clone(), Slot::Value(share(&args[i])));
        i = i + 1;
    }
    let frame = Frame { vars, reads: Vec::new() };
    proof {
        crate::ast::lemma_names_empty();
    }
    frame
}

impl Evaluator {
    /// Calls a value on arguments.
    pub fn call_func(&mut self, fuel: usize, func: py_val_t, args: Vec<py_val_t>) -> (r: Result<
        py_val_t,
        EvalError,
    >)
        ensures
            final(self)@ == call_value(
                old(self).facts(),
                fuel as nat,
                old(self)@,
                func@,
                values_view(args@),
            ).0,
            agrees(
                r,
                call_value(old(self).facts(), fuel as nat, old(self)@, func@, values_view(args@)).1,
            ),
            final(self).facts() == old(self).facts(),
            final(self).limit() == old(self).limit(),
        decreases fuel, 0nat, func, 0nat, 0nat,
    {
        proof {
            lemma_value_view(&*func);
            lemma_values_view(args@);
            unfold_call_value(self.facts(), fuel as nat, self@, func@, values_view(args@));
        }
        match &*func {
            py_val::NativeFunc(native) => self.native(&native.name, native.arity, native.body, &args),
            py_val::Func(function) => {
                proof {
                    lemma_names_view(function.args@);
                }
                if function.args.len() != args.len() {
                    return Err(EvalError::TypeError);
                }
                if fuel == 0 {
                    return Err(EvalError::RuntimeError(Fault::LimitReached));
                }
                self.enter(&function.name);
                let mut new_local_env: LocalEnv = Some(new_frame(&function.args, &args));
                let res = self.eval_stmt_vec(fuel - 1, &function.stmt, &mut new_local_env);
                match res {
                    Err(e) => Err(e),
                    Ok(StmtResult::Return(v)) => {
                        self.leave();
                        Ok(v)
                    },
                    Ok(StmtResult::Next) => {
                        self.leave();
                        Ok(py_val::make_none())
                    },
                    Ok(_) => Err(EvalError::RuntimeError(Fault::OutsideLoop)),
                }
            },
            _ => Err(EvalError::TypeError),
        }
    }

    /// The values of expressions, in order.
    pub fn eval_args(&mut self, fuel: usize, exprs: &Vec<ASTExpr>, local_env: &mut LocalEnv) -> (r:
        Result<Vec<py_val_t>, EvalError>)
        ensures
            steps(
                *old(self),
                *final(self),
                *final(local_env),
                eval_exprs(
                    old(self).facts(),
                    fuel as nat,
                    old(self)@,
                    frame_view(*old(local_env)),
                    exprs_view(exprs@),
                    0,
                    Seq::empty(),
                ),
            ),
            match r {
                Ok(values) => eval_exprs(
                    old(self).facts(),
                    fuel as nat,
                    old(self)@,
                    frame_view(*old(local_env)),
                    exprs_view(exprs@),
                    0,
                    Seq::empty(),
                ).result == Ok::<Seq<ValueV>, EvalErrorV>(values_view(values@)),
                Err(e) => eval_exprs(
                    old(self).facts(),
                    fuel as nat,
                    old(self)@,
                    frame_view(*old(local_env)),
                    exprs_view(exprs@),
                    0,
                    Seq::empty(),
                ).result == Err::<Seq<ValueV>, EvalErrorV>(e@),
            },
        decreases fuel, 1nat, exprs, 0nat, 0nat,
    {
        let ghost facts = self.facts();
        let ghost goal = eval_exprs(
            facts,
            fuel as nat,
            self@,
            frame_view(*local_env),
            exprs_view(exprs@),
            0,
            Seq::empty(),
        );
        let mut values: Vec<py_val_t> = Vec::new();
        let mut i: usize = 0;
        proof {
            lemma_values_empty();
            lemma_exprs_view(exprs@);
        }
        while i < exprs.len()
            invariant
                i <= exprs.len(),
                exprs_view(exprs@).len() == exprs@.len(),
                self.facts() == facts,
                facts == old(self).facts(),
                self.limit() == old(self).limit(),
                eval_exprs(
                    facts,
                    fuel as nat,
                    self@,
                    frame_view(*local_env),
                    exprs_view(exprs@),
                    i as int,
                    values_view(values@),
                ) == goal,
                goal == eval_exprs(
                    old(self).facts(),
                    fuel as nat,
                    old(self)@,
                    frame_view(*old(local_env)),
                    exprs_view(exprs@),
                    0,
                    Seq::empty(),
                ),
            decreases exprs.len() - i,
        {
            proof {
                lemma_exprs_view(exprs@);
                unfold_eval_exprs(
                    facts,
                    fuel as nat,
                    self@,
                    frame_view(*local_env),
                    exprs_view(exprs@),
                    i as int,
                    values_view(values@),
                );
            }
            let v = self.eval_expr(fuel, &exprs[i], local_env)?;
            proof {
                lemma_values_push(values@, v);
            }
            values.push(v);
            i = i + 1;
        }
        proof {
            unfold_eval_exprs(
                facts,
                fuel as nat,
                self@,
                frame_view(*local_env),
                exprs_view(exprs@),
                i as int,
                values_view(values@),
            );
        }
        Ok(values)
    }

    /// `and` and `or`.
    fn eval_bool_op(&mut self, fuel: usize, op: ASTBoolOp, operands: &Vec<ASTExpr>, local_env:
        &mut LocalEnv) -> (r: Result<py_val_t, EvalError>)
        ensures
            steps(
                *old(self),
                *final(self),
                *final(local_env),
                eval_bool_op(
                    old(self).facts(),
                    fuel as nat,
                    old(self)@,
                    frame_view(*old(local_env)),
                    op,
                    exprs_view(operands@),
                    0,
                ),
            ),
            agrees(
                r,
                eval_bool_op(
                    old(self).facts(),
                    fuel as nat,
                    old(self)@,
                    frame_view(*old(local_env)),
                    op,
                    exprs_view(operands@),
                    0,
                ).result,
            ),
        decreases fuel, 1nat, operands, 0nat, 0nat,
    {
        let ghost facts = self.facts();
        let ghost goal = eval_bool_op(
            facts,
            fuel as nat,
            self@,
            frame_view(*local_env),
            op,
            exprs_view(operands@),
            0,
        );
        let is_and = match op {
            ASTBoolOp::And => true,
            ASTBoolOp::Or => false,
        };
        let mut i: usize = 0;
        proof {
            lemma_exprs_view(operands@);
        }
        while i < operands.len()
            invariant
                i <= operands.len(),
                exprs_view(operands@).len() == operands@.len(),
                is_and == (op == ASTBoolOp::And),
                self.facts() == facts,
                facts == old(self).facts(),
                self.limit() == old(self).limit(),
                eval_bool_op(
                    facts,
                    fuel as nat,
                    self@,
                    frame_view(*local_env),
                    op,
                    exprs_view(operands@),
                    i as int,
                ) == goal,
                goal == eval_bool_op(
                    old(self).facts(),
                    fuel as nat,
                    old(self)@,
                    frame_view(*old(local_env)),
                    op,
                    exprs_view(operands@),
                    0,
                ),
            decreases operands.len() - i,
        {
            proof {
                lemma_exprs_view(operands@);
                unfold_eval_bool_op(
                    facts,
                    fuel as nat,
                    self@,
                    frame_view(*local_env),
                    op,
                    exprs_view(operands@),
                    i as int,
                );
            }
            let v = self.eval_expr(fuel, &operands[i], local_env)?;
            if v.is_false() == is_and {
                return Ok(py_val::make_bool(!is_and));
            }
            i = i + 1;
        }
        proof {
            unfold_eval_bool_op(
                facts,
                fuel as nat,
                self@,
                frame_view(*local_env),
                op,
                exprs_view(operands@),
                i as int,
            );
        }
        Ok(py_val::make_bool(is_and))
    }

    /// A chain of comparisons behind its leftmost operand.
    fn eval_compare(
        &mut self,
        fuel: usize,
        ops: &Vec<ASTCmpOp>,
        comparators: &Vec<ASTExpr>,
        first: py_val_t,
        local_env: &mut LocalEnv,
    ) -> (r: Result<py_val_t, EvalError>)
        ensures
            steps(
                *old(self),
                *final(self),
                *final(local_env),
                eval_compare(
                    old(self).facts(),
                    fuel as nat,
                    old(self)@,
                    frame_view(*old(local_env)),
                    ops@,
                    exprs_view(comparators@),
                    0,
                    first@,
                ),
            ),
            agrees(
                r,
                eval_compare(
                    old(self).facts(),
                    fuel as nat,
                    old(self)@,
                    frame_view(*old(local_env)),
                    ops@,
                    exprs_view(comparators@),
                    0,
                    first@,
                ).result,
            ),
        decreases fuel, 1nat, comparators, 0nat, 0nat,
    {
        let ghost facts = self.facts();
        let ghost goal = eval_compare(
            facts,
            fuel as nat,
            self@,
            frame_view(*local_env),
            ops@,
            exprs_view(comparators@),
            0,
            first@,
        );
        let mut current_left = first;
        let mut i: usize = 0;
        proof {
            lemma_exprs_view(comparators@);
        }
        while i < ops.len()
            invariant
                i <= ops.len(),
                exprs_view(comparators@).len() == comparators@.len(),
                self.facts() == facts,
                facts == old(self).facts(),
                self.limit() == old(self).limit(),
                eval_compare(
                    facts,
                    fuel as nat,
                    self@,
                    frame_view(*local_env),
                    ops@,
                    exprs_view(comparators@),
                    i as int,
                    current_left@,
                ) == goal,
                goal == eval_compare(
                    old(self).facts(),
                    fuel as nat,
                    old(self)@,
                    frame_view(*old(local_env)),
                    ops@,
                    exprs_view(comparators@),
                    0,
                    first@,
                ),
            decreases ops.len() - i,
        {
            proof {
                lemma_exprs_view(comparators@);
                unfold_eval_compare(
                    facts,
                    fuel as nat,
                    self@,
                    frame_view(*local_env),
                    ops@,
                    exprs_view(comparators@),
                    i as int,
                    current_left@,
                );
            }
            if i >= comparators.len() {
                return Err(EvalError::TypeError);
            }
            let f = self.lookup_operator(compare_operator_to_function_name(&ops[i]))?;
            let right = self.eval_expr(fuel, &comparators[i], local_env)?;
            let mut args: Vec<py_val_t> = Vec::new();
            proof {
                lemma_values_empty();
                lemma_values_push(args@, current_left);
                lemma_values_push(args@.push(current_left), right);
            }
            let ghost before = current_left@;
            args.push(current_left);
            args.push(share(&right));
            proof {
                assert(values_view(args@) =~= seq![before, right@]);
            }
            let v = self.call_func(fuel, f, args)?;
            if v.is_false() {
                return Ok(py_val::make_bool(false));
            }
            current_left = right;
            i = i + 1;
        }
        proof {
            unfold_eval_compare(
                facts,
                fuel as nat,
                self@,
                frame_view(*local_env),
                ops@,
                exprs_view(comparators@),
                i as int,
                current_left@,
            );
        }
        Ok(py_val::make_bool(true))
    }

    /// A dict display.
    fn eval_dict(&mut self, fuel: usize, expr: &ASTExpr, local_env: &mut LocalEnv) -> (r: Result<
        py_val_t,
        EvalError,
    >)
        requires
            expr is Dict,
        ensures
            steps(
                *old(self),
                *final(self),
                *final(local_env),
                eval_dict(
                    old(self).facts(),
                    fuel as nat,
                    old(self)@,
                    frame_view(*old(local_env)),
                    expr@,
                    0,
                    Seq::empty(),
                ),
            ),
            agrees(
                r,
                eval_dict(
                    old(self).facts(),
                    fuel as nat,
                    old(self)@,
                    frame_view(*old(local_env)),
                    expr@,
                    0,
                    Seq::empty(),
                ).result,
            ),
        decreases fuel, 1nat, expr, 1nat, 0nat,
    {
        let ghost facts = self.facts();
        let ghost goal = eval_dict(
            facts,
            fuel as nat,
            self@,
            frame_view(*local_env),
            expr@,
            0,
            Seq::empty(),
        );
        proof {
            lemma_expr_view(expr);
            lemma_pairs_empty();
        }
        match expr {
            ASTExpr::Dict(keys, values) => {
                let mut pairs: Vec<(py_val_t, py_val_t)> = Vec::new();
                let mut i: usize = 0;
                proof {
                    lemma_exprs_view(keys@);
                    lemma_exprs_view(values@);
                }
                while i < keys.len()
                    invariant
                        i <= keys.len(),
                        expr is Dict,
                        *keys == expr->Dict_0,
                        *values == expr->Dict_1,
                        expr@ == ExprV::Dict(exprs_view(keys@), exprs_view(values@)),
                        exprs_view(keys@).len() == keys@.len(),
                        exprs_view(values@).len() == values@.len(),
                        self.facts() == facts,
                        facts == old(self).facts(),
                        self.limit() == old(self).limit(),
                        eval_dict(
                            facts,
                            fuel as nat,
                            self@,
                            frame_view(*local_env),
                            expr@,
                            i as int,
                            pairs_view(pairs@),
                        ) == goal,
                        goal == eval_dict(
                            old(self).facts(),
                            fuel as nat,
                            old(self)@,
                            frame_view(*old(local_env)),
                            expr@,
                            0,
                            Seq::empty(),
                        ),
                    decreases keys.len() - i,
                {
                    proof {
                        lemma_exprs_view(keys@);
                        lemma_exprs_view(values@);
                        unfold_eval_dict(
                            facts,
                            fuel as nat,
                            self@,
                            frame_view(*local_env),
                            expr@,
                            i as int,
                            pairs_view(pairs@),
                        );
                    }
                    if i >= values.len() {
                        return Err(EvalError::TypeError);
                    }
                    let key = self.eval_expr(fuel, &keys[i], local_env)?;
                    let value = self.eval_expr(fuel, &values[i], local_env)?;
                    if !is_hashable(&key) {
                        return Err(EvalError::TypeError);
                    }
                    put_pair(&mut pairs, key, value);
                    i = i + 1;
                }
                proof {
                    unfold_eval_dict(
                        facts,
                        fuel as nat,
                        self@,
                        frame_view(*local_env),
                        expr@,
                        i as int,
                        pairs_view(pairs@),
                    );
                }
                Ok(py_val::make_dict(pairs))
            },
            _ => Err(EvalError::TypeError),
        }
    }

    /// A set display.
    fn eval_set(&mut self, fuel: usize, expr: &ASTExpr, local_env: &mut LocalEnv) -> (r: Result<
        py_val_t,
        EvalError,
    >)
        requires
            expr is SetDisplay,
        ensures
            steps(
                *old(self),
                *final(self),
                *final(local_env),
                eval_set(
                    old(self).facts(),
                    fuel as nat,
                    old(self)@,
                    frame_view(*old(local_env)),
                    expr@,
                    0,
                    Seq::empty(),
                ),
            ),
            agrees(
                r,
                eval_set(
                    old(self).facts(),
                    fuel as nat,
                    old(self)@,
                    frame_view(*old(local_env)),
                    expr@,
                    0,
                    Seq::empty(),
                ).result,
            ),
        decreases fuel, 1nat, expr, 1nat, 0nat,
    {
        let ghost facts = self.facts();
        let ghost goal = eval_set(
            facts,
            fuel as nat,
            self@,
            frame_view(*local_env),
            expr@,
            0,
            Seq::empty(),
        );
        proof {
            lemma_expr_view(expr);
            lemma_values_empty();
        }
        match expr {
            ASTExpr::SetDisplay(elts) => {
                let mut items: Vec<py_val_t> = Vec::new();
                let mut i: usize = 0;
                proof {
                    lemma_exprs_view(elts@);
                }
                while i < elts.len()
                    invariant
                        i <= elts.len(),
                        expr is SetDisplay,
                        *elts == expr->SetDisplay_0,
                        expr@ == ExprV::SetDisplay(exprs_view(elts@)),
                        exprs_view(elts@).len() == elts@.len(),
                        self.facts() == facts,
                        facts == old(self).facts(),
                        self.limit() == old(self).limit(),
                        eval_set(
                            facts,
                            fuel as nat,
                            self@,
                            frame_view(*local_env),
                            expr@,
                            i as int,
                            values_view(items@),
                        ) == goal,
                        goal == eval_set(
                            old(self).facts(),
                            fuel as nat,
                            old(self)@,
                            frame_view(*old(local_env)),
                            expr@,
                            0,
                            Seq::empty(),
                        ),
                    decreases elts.len() - i,
                {
                    proof {
                        lemma_exprs_view(elts@);
                        unfold_eval_set(
                            facts,
                            fuel as nat,
                            self@,
                            frame_view(*local_env),
                            expr@,
                            i as int,
                            values_view(items@),
                        );
                    }
                    let item = self.eval_expr(fuel, &elts[i], local_env)?;
                    if !is_hashable(&item) {
                        return Err(EvalError::TypeError);
                    }
                    put_item(&mut items, item);
                    i = i + 1;
                }
                proof {
                    unfold_eval_set(
                        facts,
                        fuel as nat,
                        self@,
                        frame_view(*local_env),
                        expr@,
                        i as int,
                        values_view(items@),
                    );
                }
                Ok(py_val::make_set(items))
            },
            _ => Err(EvalError::TypeError),
        }
    }

    /// An operator with two operands, or a subscript with an index.
    fn eval_binary(
        &mut self,
        fuel: usize,
        name: &str,
        expr: &ASTExpr,
        lhs: &ASTExpr,
        rhs: &ASTExpr,
        local_env: &mut LocalEnv,
    ) -> (r: Result<py_val_t, EvalError>)
        requires
            decreases_to!(expr => lhs),
            decreases_to!(expr => rhs),
        ensures
            binary_outcome(
                *old(self),
                *final(self),
                *old(local_env),
                *final(local_env),
                r,
                fuel as nat,
                name@,
                lhs@,
                rhs@,
            ),
        decreases fuel, 1nat, expr, 1nat, 0nat,
    {
        let f = self.lookup_operator(name)?;
        let a = self.eval_expr(fuel, lhs, local_env)?;
        let b = self.eval_expr(fuel, rhs, local_env)?;
        let mut args: Vec<py_val_t> = Vec::new();
        proof {
            lemma_values_empty();
            lemma_values_push(args@, a);
            lemma_values_push(args@.push(a), b);
        }
        args.push(a);
        args.push(b);
        proof {
            assert(values_view(args@) =~= seq![a@, b@]);
            unfold_apply(
                self.facts(),
                fuel as nat,
                self@,
                frame_view(*local_env),
                f@,
                values_view(args@),
            );
        }
        self.call_func(fuel, f, args)
    }

    /// The value of an expression. `fuel` says how deep calls may still
    /// nest and how long a `while` loop may run.
    pub fn eval_expr(&mut self, fuel: usize, expr: &ASTExpr, local_env: &mut LocalEnv) -> (r:
        Result<py_val_t, EvalError>)
        ensures
            steps(
                *old(self),
                *final(self),
                *final(local_env),
                eval_expr(
                    old(self).facts(),
                    fuel as nat,
                    old(self)@,
                    frame_view(*old(local_env)),
                    expr@,
                ),
            ),
            agrees(
                r,
                eval_expr(
                    old(self).facts(),
                    fuel as nat,
                    old(self)@,
                    frame_view(*old(local_env)),
                    expr@,
                ).result,
            ),
        decreases fuel, 1nat, expr, 2nat, 0nat,
    {
        proof {
            lemma_expr_view(expr);
            unfold_eval_expr(
                self.facts(),
                fuel as nat,
                self@,
                frame_view(*local_env),
                expr@,
            );
        }
        match expr {
            ASTExpr::BoolOp(op, values) => self.eval_bool_op(fuel, *op, values, local_env),
            ASTExpr::BinOp(lhs, op, rhs) => self.eval_binary(
                fuel,
                operator_to_function_name(op),
                expr,
                lhs,
                rhs,
                local_env,
            ),
            ASTExpr::UnaryOp(op, operand) => {
                let f = self.lookup_operator(unary_operator_to_function_name(op))?;
                let a = self.eval_expr(fuel, operand, local_env)?;
                let mut args: Vec<py_val_t> = Vec::new();
                proof {
                    lemma_values_empty();
                    lemma_values_push(args@, a);
                }
                args.push(a);
                proof {
                    assert(values_view(args@) =~= seq![a@]);
                    unfold_apply(
                        self.facts(),
                        fuel as nat,
                        self@,
                        frame_view(*local_env),
                        f@,
                        values_view(args@),
                    );
                }
                self.call_func(fuel, f, args)
            },
            ASTExpr::IfExp(test, body, orelse) => {
                let v = self.eval_expr(fuel, test, local_env)?;
                if v.is_false() {
                    self.eval_expr(fuel, orelse, local_env)
                } else {
                    self.eval_expr(fuel, body, local_env)
                }
            },
            ASTExpr::Dict(_, _) => self.eval_dict(fuel, expr, local_env),
            ASTExpr::SetDisplay(_) => self.eval_set(fuel, expr, local_env),
            ASTExpr::Compare(left, ops, comparators) => {
                let first = self.eval_expr(fuel, left, local_env)?;
                self.eval_compare(fuel, ops, comparators, first, local_env)
            },
            ASTExpr::Call(func, args) => {
                let f = self.eval_expr(fuel, func, local_env)?;
                let values = self.eval_args(fuel, args, local_env)?;
                proof {
                    unfold_apply(
                        self.facts(),
                        fuel as nat,
                        self@,
                        frame_view(*local_env),
                        f@,
                        values_view(values@),
                    );
                }
                self.call_func(fuel, f, values)
            },
            ASTExpr::Constant(constant) => match constant {
                ASTConstant::Int(v) => Ok(py_val::make_int(*v)),
                ASTConstant::Float(text) => self.float_literal(text),
                ASTConstant::String(s) => Ok(py_val::make_string(s.clone())),
                ASTConstant::NoneValue => Ok(py_val::make_none()),
                ASTConstant::True => Ok(py_val::make_bool(true)),
                ASTConstant::False => Ok(py_val::make_bool(false)),
            },
            ASTExpr::Subscript(value, slice) => {
                proof {
                    lemma_slice_view(slice);
                }
                match slice {
                    ASTSlice::Index(index) => self.eval_binary(
                        fuel,
                        "__getitem__",
                        expr,
                        value,
                        index,
                        local_env,
                    ),
                    ASTSlice::Slice(_, _, _) => Err(EvalError::RuntimeError(Fault::Unimplemented)),
                }
            },
            ASTExpr::Name(name) => self.get_env(local_env, name),
            ASTExpr::List(elts) => {
                let values = self.eval_args(fuel, elts, local_env)?;
                Ok(py_val::make_list(values))
            },
            ASTExpr::Tuple(elts) => {
                let values = self.eval_args(fuel, elts, local_env)?;
                Ok(py_val::make_tuple(values))
            },
            ASTExpr::Starred(_) => Err(EvalError::RuntimeError(Fault::Unimplemented)),
        }
    }
}

/// What applying the global `name` to two operands comes to: the name is
/// looked up, the operands are evaluated from left to right, and what the
/// name is bound to is called on their values.
pub open spec fn binary_want(
    facts: Seq<crate::eval::floats::FloatFactV>,
    fuel: nat,
    st: EvalState,
    frame: Option<FrameV>,
    name: Seq<char>,
    lhs: ExprV,
    rhs: ExprV,
) -> Out<ValueV> {
    match lookup_global(st, name) {
        Err(e) => crate::eval::semantics::failed(st, frame, e),
        Ok(f) => {
            let first = eval_expr(facts, fuel, st, frame, lhs);
            match first.result {
                Err(e) => crate::eval::semantics::failed(first.st, first.frame, e),
                Ok(a) => {
                    let second = eval_expr(facts, fuel, first.st, first.frame, rhs);
                    match second.result {
                        Err(e) => crate::eval::semantics::failed(second.st, second.frame, e),
                        Ok(b) => apply(facts, fuel, second.st, second.frame, f, seq![a, b]),
                    }
                },
            }
        },
    }
}

/// Whether a step of the evaluator did what [`binary_want`] says.
pub open spec fn binary_outcome(
    before: Evaluator,
    after: Evaluator,
    frame_before: Option<Frame>,
    frame_after: Option<Frame>,
    r: Result<py_val_t, EvalError>,
    fuel: nat,
    name: Seq<char>,
    lhs: ExprV,
    rhs: ExprV,
) -> bool {
    &&& steps(
        before,
        after,
        frame_after,
        binary_want(before.facts(), fuel, before@, frame_view(frame_before), name, lhs, rhs),
    )
    &&& agrees(
        r,
        binary_want(before.facts(), fuel, before@, frame_view(frame_before), name, lhs, rhs).result,
    )
}

} // verus!
