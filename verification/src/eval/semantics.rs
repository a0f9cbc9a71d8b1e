//! What a program means: the outcome of evaluating each expression and
//! statement.
//!
//! Evaluation starts from a state (the global environment, the text
//! printed so far, and the names of the calls in progress) and, inside a
//! call, a frame that holds the call's own names. It ends with the state
//! and frame it leaves behind and with a value or a failure; what was
//! printed before a failure stays printed.
//!
//! Two things keep every evaluation finite: calls nest at most `fuel`
//! deep, and a `while` loop runs at most `fuel` times. A program that
//! would go beyond fails with `LimitReached`.

use vstd::prelude::*;
use crate::ast::{ASTBoolOp, ASTCmpOp, ConstantV, ExprV, SliceV, StmtV};
use crate::errors::{EvalErrorV, Fault};
use crate::eval::builtins::{ask, native_text, native_value};
use crate::eval::floats::{FloatFactV, query_parse};
use crate::eval::types::{dict_put, hashable, set_put, EnvV, FuncV, NativeV, StmtResultV, ValueV, bool_value, env_find, env_put, is_falsy};
use crate::eval::utils::{compare_operator_name, operator_name, unary_operator_name};

verus! {

/// What evaluation reads and changes everywhere.
pub struct EvalState {
    /// The global environment.
    pub globals: EnvV,
    /// The text printed so far.
    pub output: Seq<char>,
    /// The names of the functions whose calls are in progress, the
    /// outermost first.
    pub trace: Seq<Seq<char>>,
}

/// What one call of a function of the program holds.
pub struct FrameV {
    /// The names of the call: its parameters, whatever it assigned, and
    /// the names it declared `global`.
    pub vars: EnvV,
    /// The names that the call read from the global environment without
    /// declaring them.
    pub reads: Seq<Seq<char>>,
}

/// Where evaluation arrived and what it yielded.
pub struct Out<T> {
    pub st: EvalState,
    pub frame: Option<FrameV>,
    pub result: Result<T, EvalErrorV>,
}

/// Evaluation that yielded `value`.
pub open spec fn done<T>(st: EvalState, frame: Option<FrameV>, value: T) -> Out<T> {
    Out { st, frame, result: Ok(value) }
}

/// Evaluation that failed with `e`.
pub open spec fn failed<T>(st: EvalState, frame: Option<FrameV>, e: EvalErrorV) -> Out<T> {
    Out { st, frame, result: Err(e) }
}

/// The value a name has in the global environment.
pub open spec fn lookup_global(st: EvalState, name: Seq<char>) -> Result<ValueV, EvalErrorV> {
    match env_find(st.globals, name) {
        Some(Some(v)) => Ok(v),
        _ => Err(EvalErrorV::NameError(name)),
    }
}

/// The state with `name` bound to `v` in the global environment.
pub open spec fn with_global(st: EvalState, name: Seq<char>, v: ValueV) -> EvalState {
    EvalState { globals: env_put(st.globals, name, Some(v)), output: st.output, trace: st.trace }
}

/// The list of names read, with `name` among them.
pub open spec fn note_read(reads: Seq<Seq<char>>, name: Seq<char>) -> Seq<Seq<char>> {
    if reads.contains(name) {
        reads
    } else {
        reads.push(name)
    }
}

/// Reads a name. Inside a call, the call's own value of the name comes
/// first; a name that the call declared `global` or does not hold is read
/// from the global environment, and in the second case the frame notes
/// that it was.
pub open spec fn read_name(st: EvalState, frame: Option<FrameV>, name: Seq<char>) -> Out<ValueV> {
    match frame {
        None => Out { st, frame, result: lookup_global(st, name) },
        Some(fr) => match env_find(fr.vars, name) {
            Some(Some(v)) => done(st, frame, v),
            Some(None) => Out { st, frame, result: lookup_global(st, name) },
            None => Out {
                st,
                frame: Some(FrameV { vars: fr.vars, reads: note_read(fr.reads, name) }),
                result: lookup_global(st, name),
            },
        },
    }
}

/// Binds a name. At top level and for a name that the call declared
/// `global` the global environment is changed, else the frame.
pub open spec fn bind_name(st: EvalState, frame: Option<FrameV>, name: Seq<char>, v: ValueV) -> (
    EvalState,
    Option<FrameV>,
) {
    match frame {
        None => (with_global(st, name, v), frame),
        Some(fr) => match env_find(fr.vars, name) {
            Some(None) => (with_global(st, name, v), frame),
            _ => (st, Some(FrameV { vars: env_put(fr.vars, name, Some(v)), reads: fr.reads })),
        },
    }
}

/// Declares names `global`, from index `i` on. At top level this does
/// nothing. In a call it fails at the first name that the call holds or
/// has read; the names in front of it stay declared.
pub open spec fn declare_globals(frame: Option<FrameV>, names: Seq<Seq<char>>, i: int) -> (
    Option<FrameV>,
    Result<(), EvalErrorV>,
)
    decreases names.len() - i,
{
    if i < 0 || i >= names.len() {
        (frame, Ok(()))
    } else {
        match frame {
            None => (frame, Ok(())),
            Some(fr) => if env_find(fr.vars, names[i]) is Some || fr.reads.contains(names[i]) {
                (frame, Err(EvalErrorV::RuntimeError(Fault::GlobalAfterUse)))
            } else {
                declare_globals(
                    Some(FrameV { vars: env_put(fr.vars, names[i], None), reads: fr.reads }),
                    names,
                    i + 1,
                )
            },
        }
    }
}

/// The frame of a call: each parameter bound to its argument, from index
/// `i` on.
pub open spec fn bind_params(vars: EnvV, params: Seq<Seq<char>>, args: Seq<ValueV>, i: int) -> EnvV
    decreases params.len() - i,
{
    if i < 0 || i >= params.len() || i >= args.len() {
        vars
    } else {
        bind_params(env_put(vars, params[i], Some(args[i])), params, args, i + 1)
    }
}

/// The value of a literal.
pub open spec fn constant_value(facts: Seq<FloatFactV>, c: ConstantV) -> Result<ValueV, EvalErrorV> {
    match c {
        ConstantV::Int(n) => if i64::MIN <= n <= i64::MAX {
            Ok(ValueV::Int(n as i64))
        } else {
            Err(EvalErrorV::RuntimeError(Fault::Overflow))
        },
        ConstantV::Float(text) => match ask(facts, query_parse(text)) {
            Ok(answer) => Ok(ValueV::Float(answer.bits)),
            Err(e) => Err(e),
        },
        ConstantV::String(s) => Ok(ValueV::Str(s)),
        ConstantV::NoneValue => Ok(ValueV::NoneValue),
        ConstantV::True => Ok(ValueV::True),
        ConstantV::False => Ok(ValueV::False),
    }
}

/// The values that a `for` loop runs over: the elements of a list or a
/// tuple, or the characters of a string as strings of length one.
pub open spec fn iterable_items(v: ValueV) -> Result<Seq<ValueV>, EvalErrorV> {
    match v {
        ValueV::List(items) => Ok(items),
        ValueV::Tuple(items) => Ok(items),
        ValueV::Str(s) => Ok(Seq::new(s.len(), |i: int| ValueV::Str(seq![s[i]]))),
        _ => Err(EvalErrorV::TypeError),
    }
}

/// The state with one more call in progress.
pub open spec fn entered(st: EvalState, name: Seq<char>) -> EvalState {
    EvalState { globals: st.globals, output: st.output, trace: st.trace.push(name) }
}

/// The state with the innermost call over.
pub open spec fn left(st: EvalState) -> EvalState {
    EvalState {
        globals: st.globals,
        output: st.output,
        trace: if st.trace.len() > 0 {
            st.trace.drop_last()
        } else {
            st.trace
        },
    }
}

/// The state with more text printed.
pub open spec fn printed(st: EvalState, text: Seq<char>) -> EvalState {
    EvalState { globals: st.globals, output: st.output + text, trace: st.trace }
}

/// Calls a built-in: the arguments must be as many as it takes. What it
/// prints is printed whether it fails or not; where it fails, its name
/// stays among the calls in progress.
pub open spec fn call_native_value(facts: Seq<FloatFactV>, st: EvalState, n: NativeV, args: Seq<ValueV>) -> (
    EvalState,
    Result<ValueV, EvalErrorV>,
) {
    if n.arity != args.len() {
        (st, Err(EvalErrorV::TypeError))
    } else {
        let result = native_value(n.body, args, facts);
        let st1 = printed(st, native_text(n.body, args));
        match result {
            Ok(v) => (st1, Ok(v)),
            Err(e) => (entered(st1, n.name), Err(e)),
        }
    }
}

/// Calls a value on arguments. A function of the program needs as many
/// arguments as it has parameters and runs its body in a fresh frame; it
/// yields what the body returns, or `None` where the body runs to its
/// end. A `break` or `continue` that leaves the body is a failure, and so
/// is a call of what is no function.
#[verifier::opaque]
pub open spec fn call_value(facts: Seq<FloatFactV>, fuel: nat, st: EvalState, f: ValueV, args: Seq<ValueV>) -> (
    EvalState,
    Result<ValueV, EvalErrorV>,
)
    decreases fuel, 0nat, f, 0nat, 0nat,
{
    match f {
        ValueV::NativeFunc(n) => call_native_value(facts, st, n, args),
        ValueV::Func(func) => if func.args.len() != args.len() {
            (st, Err(EvalErrorV::TypeError))
        } else if fuel == 0 {
            (st, Err(EvalErrorV::RuntimeError(Fault::LimitReached)))
        } else {
            let frame = FrameV {
                vars: bind_params(Seq::empty(), func.args, args, 0),
                reads: Seq::empty(),
            };
            let out = eval_block(
                facts,
                (fuel - 1) as nat,
                entered(st, func.name),
                Some(frame),
                func.body,
                0,
            );
            match out.result {
                Err(e) => (out.st, Err(e)),
                Ok(StmtResultV::Return(v)) => (left(out.st), Ok(v)),
                Ok(StmtResultV::Next) => (left(out.st), Ok(ValueV::NoneValue)),
                Ok(_) => (out.st, Err(EvalErrorV::RuntimeError(Fault::OutsideLoop))),
            }
        },
        _ => (st, Err(EvalErrorV::TypeError)),
    }
}

/// Evaluates the expressions of `es` from index `i` on, in order, and
/// yields their values behind those in `acc`.
#[verifier::opaque]
pub open spec fn eval_exprs(
    facts: Seq<FloatFactV>,
    fuel: nat,
    st: EvalState,
    frame: Option<FrameV>,
    es: Seq<ExprV>,
    i: int,
    acc: Seq<ValueV>,
) -> Out<Seq<ValueV>>
    decreases fuel, 1nat, es, 0nat, es.len() - i,
{
    if i < 0 || i >= es.len() {
        done(st, frame, acc)
    } else {
        let out = eval_expr(facts, fuel, st, frame, es[i]);
        match out.result {
            Err(e) => failed(out.st, out.frame, e),
            Ok(v) => eval_exprs(facts, fuel, out.st, out.frame, es, i + 1, acc.push(v)),
        }
    }
}

/// Calls `f` on `args` after the operands of an operator were
/// evaluated.
#[verifier::opaque]
pub open spec fn apply(
    facts: Seq<FloatFactV>,
    fuel: nat,
    st: EvalState,
    frame: Option<FrameV>,
    f: ValueV,
    args: Seq<ValueV>,
) -> Out<ValueV>
    decreases fuel, 0nat, f, 1nat, 0nat,
{
    let called = call_value(facts, fuel, st, f, args);
    Out { st: called.0, frame, result: called.1 }
}

/// `and` yields `False` at its first operand that counts as false and
/// `True` if there is none; `or` yields `True` at its first operand that
/// counts as true and `False` if there is none. Operands behind the one
/// that decides are not evaluated.
#[verifier::opaque]
pub open spec fn eval_bool_op(
    facts: Seq<FloatFactV>,
    fuel: nat,
    st: EvalState,
    frame: Option<FrameV>,
    op: ASTBoolOp,
    operands: Seq<ExprV>,
    i: int,
) -> Out<ValueV>
    decreases fuel, 1nat, operands, 0nat, operands.len() - i,
{
    if i < 0 || i >= operands.len() {
        done(st, frame, bool_value(op == ASTBoolOp::And))
    } else {
        let out = eval_expr(facts, fuel, st, frame, operands[i]);
        match out.result {
            Err(e) => failed(out.st, out.frame, e),
            Ok(v) => if is_falsy(v) == (op == ASTBoolOp::And) {
                done(out.st, out.frame, bool_value(op != ASTBoolOp::And))
            } else {
                eval_bool_op(facts, fuel, out.st, out.frame, op, operands, i + 1)
            },
        }
    }
}

/// A chain of comparisons from index `i` on, with `left` the value on the
/// left of comparison `i`. Each comparison applies what is bound to the
/// name of its operator. The chain yields `False` at the first comparison
/// that does, without evaluating what stands behind it, and `True` if
/// there is none. Each comparator is evaluated once.
#[verifier::opaque]
pub open spec fn eval_compare(
    facts: Seq<FloatFactV>,
    fuel: nat,
    st: EvalState,
    frame: Option<FrameV>,
    ops: Seq<ASTCmpOp>,
    comparators: Seq<ExprV>,
    i: int,
    left: ValueV,
) -> Out<ValueV>
    decreases fuel, 1nat, comparators, 0nat, comparators.len() - i,
{
    if i < 0 || i >= ops.len() {
        done(st, frame, ValueV::True)
    } else if i >= comparators.len() {
        failed(st, frame, EvalErrorV::TypeError)
    } else {
        match lookup_global(st, compare_operator_name(ops[i])) {
            Err(e) => failed(st, frame, e),
            Ok(f) => {
                let out = eval_expr(facts, fuel, st, frame, comparators[i]);
                match out.result {
                    Err(e) => failed(out.st, out.frame, e),
                    Ok(right) => {
                        let called = call_value(facts, fuel, out.st, f, seq![left, right]);
                        match called.1 {
                            Err(e) => failed(called.0, out.frame, e),
                            Ok(v) => if is_falsy(v) {
                                done(called.0, out.frame, ValueV::False)
                            } else {
                                eval_compare(
                                    facts,
                                    fuel,
                                    called.0,
                                    out.frame,
                                    ops,
                                    comparators,
                                    i + 1,
                                    right,
                                )
                            },
                        }
                    },
                }
            },
        }
    }
}

/// How many keys a dict display has, or how many elements a set display.
pub open spec fn display_len(e: ExprV) -> nat {
    match e {
        ExprV::Dict(keys, _) => keys.len(),
        ExprV::SetDisplay(elements) => elements.len(),
        _ => 0,
    }
}

/// The pairs of a dict display from index `i` on, behind those in `acc`.
/// Each key is evaluated in front of its value, and a key must be
/// hashable. A key that is the same as an earlier one replaces the value of
/// that one.
#[verifier::opaque]
pub open spec fn eval_dict(
    facts: Seq<FloatFactV>,
    fuel: nat,
    st: EvalState,
    frame: Option<FrameV>,
    e: ExprV,
    i: int,
    acc: Seq<(ValueV, ValueV)>,
) -> Out<ValueV>
    decreases fuel, 1nat, e, 1nat, display_len(e) - i,
{
    match e {
        ExprV::Dict(keys, values) => if i < 0 || i >= keys.len() {
            done(st, frame, ValueV::Dict(acc))
        } else if i >= values.len() {
            failed(st, frame, EvalErrorV::TypeError)
        } else {
            let first = eval_expr(facts, fuel, st, frame, keys[i]);
            match first.result {
                Err(e) => failed(first.st, first.frame, e),
                Ok(key) => {
                    let second = eval_expr(facts, fuel, first.st, first.frame, values[i]);
                    match second.result {
                        Err(e) => failed(second.st, second.frame, e),
                        Ok(value) => if hashable(key) {
                            eval_dict(
                                facts,
                                fuel,
                                second.st,
                                second.frame,
                                e,
                                i + 1,
                                dict_put(acc, key, value),
                            )
                        } else {
                            failed(second.st, second.frame, EvalErrorV::TypeError)
                        },
                    }
                },
            }
        },
        _ => done(st, frame, ValueV::Dict(acc)),
    }
}

/// The elements of a set display from index `i` on, behind those in
/// `acc`. An element must be hashable, and one that is the same as an
/// earlier one is left out.
#[verifier::opaque]
pub open spec fn eval_set(
    facts: Seq<FloatFactV>,
    fuel: nat,
    st: EvalState,
    frame: Option<FrameV>,
    e: ExprV,
    i: int,
    acc: Seq<ValueV>,
) -> Out<ValueV>
    decreases fuel, 1nat, e, 1nat, display_len(e) - i,
{
    match e {
        ExprV::SetDisplay(elements) => if i < 0 || i >= elements.len() {
            done(st, frame, ValueV::SetValue(acc))
        } else {
            let out = eval_expr(facts, fuel, st, frame, elements[i]);
            match out.result {
                Err(e) => failed(out.st, out.frame, e),
                Ok(v) => if hashable(v) {
                    eval_set(facts, fuel, out.st, out.frame, e, i + 1, set_put(acc, v))
                } else {
                    failed(out.st, out.frame, EvalErrorV::TypeError)
                },
            }
        },
        _ => done(st, frame, ValueV::SetValue(acc)),
    }
}

/// The value of an expression.
#[verifier::opaque]
pub open spec fn eval_expr(
    facts: Seq<FloatFactV>,
    fuel: nat,
    st: EvalState,
    frame: Option<FrameV>,
    e: ExprV,
) -> Out<ValueV>
    decreases fuel, 1nat, e, 2nat, 0nat,
{
    match e {
        ExprV::BoolOp(op, operands) => eval_bool_op(facts, fuel, st, frame, op, operands, 0),
        ExprV::BinOp(left, op, right) => match lookup_global(st, operator_name(op)) {
            Err(e) => failed(st, frame, e),
            Ok(f) => {
                let first = eval_expr(facts, fuel, st, frame, *left);
                match first.result {
                    Err(e) => failed(first.st, first.frame, e),
                    Ok(a) => {
                        let second = eval_expr(facts, fuel, first.st, first.frame, *right);
                        match second.result {
                            Err(e) => failed(second.st, second.frame, e),
                            Ok(b) => apply(facts, fuel, second.st, second.frame, f, seq![a, b]),
                        }
                    },
                }
            },
        },
        ExprV::UnaryOp(op, operand) => match lookup_global(st, unary_operator_name(op)) {
            Err(e) => failed(st, frame, e),
            Ok(f) => {
                let first = eval_expr(facts, fuel, st, frame, *operand);
                match first.result {
                    Err(e) => failed(first.st, first.frame, e),
                    Ok(a) => apply(facts, fuel, first.st, first.frame, f, seq![a]),
                }
            },
        },
        ExprV::IfExp(test, body, orelse) => {
            let out = eval_expr(facts, fuel, st, frame, *test);
            match out.result {
                Err(e) => failed(out.st, out.frame, e),
                Ok(v) => if is_falsy(v) {
                    eval_expr(facts, fuel, out.st, out.frame, *orelse)
                } else {
                    eval_expr(facts, fuel, out.st, out.frame, *body)
                },
            }
        },
        ExprV::Dict(keys, values) => eval_dict(facts, fuel, st, frame, e, 0, Seq::empty()),
        ExprV::SetDisplay(elements) => eval_set(facts, fuel, st, frame, e, 0, Seq::empty()),
        ExprV::Compare(left, ops, comparators) => {
            let out = eval_expr(facts, fuel, st, frame, *left);
            match out.result {
                Err(e) => failed(out.st, out.frame, e),
                Ok(v) => eval_compare(facts, fuel, out.st, out.frame, ops, comparators, 0, v),
            }
        },
        ExprV::Call(callee, args) => {
            let out = eval_expr(facts, fuel, st, frame, *callee);
            match out.result {
                Err(e) => failed(out.st, out.frame, e),
                Ok(f) => {
                    let outs = eval_exprs(facts, fuel, out.st, out.frame, args, 0, Seq::empty());
                    match outs.result {
                        Err(e) => failed(outs.st, outs.frame, e),
                        Ok(values) => apply(facts, fuel, outs.st, outs.frame, f, values),
                    }
                },
            }
        },
        ExprV::Constant(c) => Out { st, frame, result: constant_value(facts, c) },
        ExprV::Subscript(value, slice) => match slice {
            SliceV::Index(index) => match lookup_global(st, "__getitem__"@) {
                Err(e) => failed(st, frame, e),
                Ok(f) => {
                    let first = eval_expr(facts, fuel, st, frame, *value);
                    match first.result {
                        Err(e) => failed(first.st, first.frame, e),
                        Ok(a) => {
                            let second = eval_expr(facts, fuel, first.st, first.frame, *index);
                            match second.result {
                                Err(e) => failed(second.st, second.frame, e),
                                Ok(b) => apply(facts, fuel, second.st, second.frame, f, seq![a, b]),
                            }
                        },
                    }
                },
            },
            SliceV::Slice(_, _, _) => failed(
                st,
                frame,
                EvalErrorV::RuntimeError(Fault::Unimplemented),
            ),
        },
        ExprV::Name(name) => read_name(st, frame, name),
        ExprV::List(elements) => {
            let out = eval_exprs(facts, fuel, st, frame, elements, 0, Seq::empty());
            match out.result {
                Err(e) => failed(out.st, out.frame, e),
                Ok(values) => done(out.st, out.frame, ValueV::List(values)),
            }
        },
        ExprV::Tuple(elements) => {
            let out = eval_exprs(facts, fuel, st, frame, elements, 0, Seq::empty());
            match out.result {
                Err(e) => failed(out.st, out.frame, e),
                Ok(values) => done(out.st, out.frame, ValueV::Tuple(values)),
            }
        },
        ExprV::Starred(_) => failed(st, frame, EvalErrorV::RuntimeError(Fault::Unimplemented)),
    }
}

/// Binds the targets of an assignment to `v`, from index `i` on. Only a
/// name can be bound.
pub open spec fn assign_all(st: EvalState, frame: Option<FrameV>, targets: Seq<ExprV>, i: int, v: ValueV) -> Out<
    StmtResultV,
>
    decreases targets.len() - i,
{
    if i < 0 || i >= targets.len() {
        done(st, frame, StmtResultV::Next)
    } else {
        match targets[i] {
            ExprV::Name(name) => {
                let bound = bind_name(st, frame, name, v);
                assign_all(bound.0, bound.1, targets, i + 1, v)
            },
            ExprV::Subscript(_, SliceV::Index(_)) => failed(
                st,
                frame,
                EvalErrorV::RuntimeError(Fault::Unimplemented),
            ),
            _ => failed(st, frame, EvalErrorV::RuntimeError(Fault::CannotAssign)),
        }
    }
}

/// The statements of `stmts` from index `i` on: the first that does not
/// end in `Next` ends the block.
#[verifier::opaque]
pub open spec fn eval_block(
    facts: Seq<FloatFactV>,
    fuel: nat,
    st: EvalState,
    frame: Option<FrameV>,
    stmts: Seq<StmtV>,
    i: int,
) -> Out<StmtResultV>
    decreases fuel, 2nat, stmts, 0nat, stmts.len() - i,
{
    if i < 0 || i >= stmts.len() {
        done(st, frame, StmtResultV::Next)
    } else {
        let out = eval_stmt(facts, fuel, st, frame, stmts[i]);
        match out.result {
            Ok(StmtResultV::Next) => eval_block(facts, fuel, out.st, out.frame, stmts, i + 1),
            _ => out,
        }
    }
}

/// A `while` loop that may run `n` more times.
#[verifier::opaque]
pub open spec fn eval_while(
    facts: Seq<FloatFactV>,
    fuel: nat,
    st: EvalState,
    frame: Option<FrameV>,
    s: StmtV,
    n: nat,
) -> Out<StmtResultV>
    decreases fuel, 2nat, s, 1nat, n,
{
    match s {
        StmtV::While(test, body) => {
            let out = eval_expr(facts, fuel, st, frame, test);
            match out.result {
                Err(e) => failed(out.st, out.frame, e),
                Ok(v) => if is_falsy(v) {
                    done(out.st, out.frame, StmtResultV::Next)
                } else if n == 0 {
                    failed(out.st, out.frame, EvalErrorV::RuntimeError(Fault::LimitReached))
                } else {
                    let ran = eval_block(facts, fuel, out.st, out.frame, body, 0);
                    match ran.result {
                        Ok(StmtResultV::Next) | Ok(StmtResultV::Continue) => eval_while(
                            facts,
                            fuel,
                            ran.st,
                            ran.frame,
                            s,
                            (n - 1) as nat,
                        ),
                        Ok(StmtResultV::Break) => done(ran.st, ran.frame, StmtResultV::Next),
                        _ => ran,
                    }
                },
            }
        },
        _ => done(st, frame, StmtResultV::Next),
    }
}

/// A `for` loop over `items` from index `i` on, with `name` the name it
/// binds.
#[verifier::opaque]
pub open spec fn eval_for(
    facts: Seq<FloatFactV>,
    fuel: nat,
    st: EvalState,
    frame: Option<FrameV>,
    s: StmtV,
    name: Seq<char>,
    items: Seq<ValueV>,
    i: int,
) -> Out<StmtResultV>
    decreases fuel, 2nat, s, 1nat, items.len() - i,
{
    match s {
        StmtV::For(_, _, body) => if i < 0 || i >= items.len() {
            done(st, frame, StmtResultV::Next)
        } else {
            let bound = bind_name(st, frame, name, items[i]);
            let ran = eval_block(facts, fuel, bound.0, bound.1, body, 0);
            match ran.result {
                Ok(StmtResultV::Next) | Ok(StmtResultV::Continue) => eval_for(
                    facts,
                    fuel,
                    ran.st,
                    ran.frame,
                    s,
                    name,
                    items,
                    i + 1,
                ),
                Ok(StmtResultV::Break) => done(ran.st, ran.frame, StmtResultV::Next),
                _ => ran,
            }
        },
        _ => done(st, frame, StmtResultV::Next),
    }
}

/// How a statement ends.
#[verifier::opaque]
pub open spec fn eval_stmt(
    facts: Seq<FloatFactV>,
    fuel: nat,
    st: EvalState,
    frame: Option<FrameV>,
    s: StmtV,
) -> Out<StmtResultV>
    decreases fuel, 2nat, s, 2nat, 0nat,
{
    match s {
        StmtV::FuncDef(name, parameters, body) => {
            let bound = bind_name(
                st,
                frame,
                name,
                ValueV::Func(FuncV { name, args: parameters, body }),
            );
            done(bound.0, bound.1, StmtResultV::Next)
        },
        StmtV::Return(value) => match value {
            None => done(st, frame, StmtResultV::Return(ValueV::NoneValue)),
            Some(e) => {
                let out = eval_expr(facts, fuel, st, frame, e);
                match out.result {
                    Err(e) => failed(out.st, out.frame, e),
                    Ok(v) => done(out.st, out.frame, StmtResultV::Return(v)),
                }
            },
        },
        StmtV::Delete(_) => failed(st, frame, EvalErrorV::RuntimeError(Fault::Unimplemented)),
        StmtV::Assign(targets, value) => {
            let out = eval_expr(facts, fuel, st, frame, value);
            match out.result {
                Err(e) => failed(out.st, out.frame, e),
                Ok(v) => assign_all(out.st, out.frame, targets, 0, v),
            }
        },
        StmtV::For(target, iter, body) => {
            let out = eval_expr(facts, fuel, st, frame, iter);
            match out.result {
                Err(e) => failed(out.st, out.frame, e),
                Ok(v) => match target {
                    ExprV::Name(name) => match iterable_items(v) {
                        Err(e) => failed(out.st, out.frame, e),
                        Ok(items) => eval_for(facts, fuel, out.st, out.frame, s, name, items, 0),
                    },
                    _ => failed(
                        out.st,
                        out.frame,
                        EvalErrorV::RuntimeError(Fault::Unimplemented),
                    ),
                },
            }
        },
        StmtV::While(_, _) => eval_while(facts, fuel, st, frame, s, fuel),
        StmtV::If(test, body, orelse) => {
            let out = eval_expr(facts, fuel, st, frame, test);
            match out.result {
                Err(e) => failed(out.st, out.frame, e),
                Ok(v) => if is_falsy(v) {
                    eval_block(facts, fuel, out.st, out.frame, orelse, 0)
                } else {
                    eval_block(facts, fuel, out.st, out.frame, body, 0)
                },
            }
        },
        StmtV::Global(names) => {
            let declared = declare_globals(frame, names, 0);
            match declared.1 {
                Err(e) => failed(st, declared.0, e),
                Ok(_) => done(st, declared.0, StmtResultV::Next),
            }
        },
        StmtV::Expr(e) => {
            let out = eval_expr(facts, fuel, st, frame, e);
            match out.result {
                Err(e) => failed(out.st, out.frame, e),
                Ok(_) => done(out.st, out.frame, StmtResultV::Next),
            }
        },
        StmtV::Pass => done(st, frame, StmtResultV::Next),
        StmtV::Break => done(st, frame, StmtResultV::Break),
        StmtV::Continue => done(st, frame, StmtResultV::Continue),
    }
}

/// The statements of a module from index `i` on, at top level. A `break`
/// or `continue` that reaches the top level is a failure, and so is a
/// `return`.
pub open spec fn eval_module(facts: Seq<FloatFactV>, fuel: nat, st: EvalState, stmts: Seq<StmtV>, i: int) -> (
    EvalState,
    Result<(), EvalErrorV>,
)
    decreases stmts.len() - i,
{
    if i < 0 || i >= stmts.len() {
        (st, Ok(()))
    } else {
        let out = eval_stmt(facts, fuel, st, None, stmts[i]);
        match out.result {
            Err(e) => (out.st, Err(e)),
            Ok(StmtResultV::Next) => eval_module(facts, fuel, out.st, stmts, i + 1),
            Ok(StmtResultV::Return(_)) => (
                out.st,
                Err(EvalErrorV::RuntimeError(Fault::OutsideFunction)),
            ),
            Ok(_) => (out.st, Err(EvalErrorV::RuntimeError(Fault::OutsideLoop))),
        }
    }
}

/// What [`call_value`] is, one step deep.
pub proof fn unfold_call_value(
    facts: Seq<FloatFactV>,
    fuel: nat,
    st: EvalState,
    f: ValueV,
    args: Seq<ValueV>,
)
    ensures
        call_value(facts, fuel, st, f, args) == ({
        match f {
            ValueV::NativeFunc(n) => call_native_value(facts, st, n, args),
            ValueV::Func(func) => if func.args.len() != args.len() {
                (st, Err(EvalErrorV::TypeError))
            } else if fuel == 0 {
                (st, Err(EvalErrorV::RuntimeError(Fault::LimitReached)))
            } else {
                let frame = FrameV {
                    vars: bind_params(Seq::empty(), func.args, args, 0),
                    reads: Seq::empty(),
                };
                let out = eval_block(
                    facts,
                    (fuel - 1) as nat,
                    entered(st, func.name),
                    Some(frame),
                    func.body,
                    0,
                );
                match out.result {
                    Err(e) => (out.st, Err(e)),
                    Ok(StmtResultV::Return(v)) => (left(out.st), Ok(v)),
                    Ok(StmtResultV::Next) => (left(out.st), Ok(ValueV::NoneValue)),
                    Ok(_) => (out.st, Err(EvalErrorV::RuntimeError(Fault::OutsideLoop))),
                }
            },
            _ => (st, Err(EvalErrorV::TypeError)),
        }
        }),
{
    reveal(call_value);
    reveal(eval_exprs);
    reveal(apply);
    reveal(eval_bool_op);
    reveal(eval_compare);
    reveal(eval_dict);
    reveal(eval_set);
    reveal(eval_expr);
    reveal(eval_block);
    reveal(eval_while);
    reveal(eval_for);
    reveal(eval_stmt);
}

/// What [`eval_exprs`] is, one step deep.
pub proof fn unfold_eval_exprs(
    facts: Seq<FloatFactV>,
    fuel: nat,
    st: EvalState,
    frame: Option<FrameV>,
    es: Seq<ExprV>,
    i: int,
    acc: Seq<ValueV>,
)
    ensures
        eval_exprs(facts, fuel, st, frame, es, i, acc) == ({
        if i < 0 || i >= es.len() {
            done(st, frame, acc)
        } else {
            let out = eval_expr(facts, fuel, st, frame, es[i]);
            match out.result {
                Err(e) => failed(out.st, out.frame, e),
                Ok(v) => eval_exprs(facts, fuel, out.st, out.frame, es, i + 1, acc.push(v)),
            }
        }
        }),
{
    reveal(call_value);
    reveal(eval_exprs);
    reveal(apply);
    reveal(eval_bool_op);
    reveal(eval_compare);
    reveal(eval_dict);
    reveal(eval_set);
    reveal(eval_expr);
    reveal(eval_block);
    reveal(eval_while);
    reveal(eval_for);
    reveal(eval_stmt);
}

/// What [`apply`] is, one step deep.
pub proof fn unfold_apply(
    facts: Seq<FloatFactV>,
    fuel: nat,
    st: EvalState,
    frame: Option<FrameV>,
    f: ValueV,
    args: Seq<ValueV>,
)
    ensures
        apply(facts, fuel, st, frame, f, args) == ({
        let called = call_value(facts, fuel, st, f, args);
        Out { st: called.0, frame, result: called.1 }
        }),
{
    reveal(call_value);
    reveal(eval_exprs);
    reveal(apply);
    reveal(eval_bool_op);
    reveal(eval_compare);
    reveal(eval_dict);
    reveal(eval_set);
    reveal(eval_expr);
    reveal(eval_block);
    reveal(eval_while);
    reveal(eval_for);
    reveal(eval_stmt);
}

/// What [`eval_bool_op`] is, one step deep.
pub proof fn unfold_eval_bool_op(
    facts: Seq<FloatFactV>,
    fuel: nat,
    st: EvalState,
    frame: Option<FrameV>,
    op: ASTBoolOp,
    operands: Seq<ExprV>,
    i: int,
)
    ensures
        eval_bool_op(facts, fuel, st, frame, op, operands, i) == ({
        if i < 0 || i >= operands.len() {
            done(st, frame, bool_value(op == ASTBoolOp::And))
        } else {
            let out = eval_expr(facts, fuel, st, frame, operands[i]);
            match out.result {
                Err(e) => failed(out.st, out.frame, e),
                Ok(v) => if is_falsy(v) == (op == ASTBoolOp::And) {
                    done(out.st, out.frame, bool_value(op != ASTBoolOp::And))
                } else {
                    eval_bool_op(facts, fuel, out.st, out.frame, op, operands, i + 1)
                },
            }
        }
        }),
{
    reveal(call_value);
    reveal(eval_exprs);
    reveal(apply);
    reveal(eval_bool_op);
    reveal(eval_compare);
    reveal(eval_dict);
    reveal(eval_set);
    reveal(eval_expr);
    reveal(eval_block);
    reveal(eval_while);
    reveal(eval_for);
    reveal(eval_stmt);
}

/// What [`eval_compare`] is, one step deep.
pub proof fn unfold_eval_compare(
    facts: Seq<FloatFactV>,
    fuel: nat,
    st: EvalState,
    frame: Option<FrameV>,
    ops: Seq<ASTCmpOp>,
    comparators: Seq<ExprV>,
    i: int,
    left: ValueV,
)
    ensures
        eval_compare(facts, fuel, st, frame, ops, comparators, i, left) == ({
        if i < 0 || i >= ops.len() {
            done(st, frame, ValueV::True)
        } else if i >= comparators.len() {
            failed(st, frame, EvalErrorV::TypeError)
        } else {
            match lookup_global(st, compare_operator_name(ops[i])) {
                Err(e) => failed(st, frame, e),
                Ok(f) => {
                    let out = eval_expr(facts, fuel, st, frame, comparators[i]);
                    match out.result {
                        Err(e) => failed(out.st, out.frame, e),
                        Ok(right) => {
                            let called = call_value(facts, fuel, out.st, f, seq![left, right]);
                            match called.1 {
                                Err(e) => failed(called.0, out.frame, e),
                                Ok(v) => if is_falsy(v) {
                                    done(called.0, out.frame, ValueV::False)
                                } else {
                                    eval_compare(
                                        facts,
                                        fuel,
                                        called.0,
                                        out.frame,
                                        ops,
                                        comparators,
                                        i + 1,
                                        right,
                                    )
                                },
                            }
                        },
                    }
                },
            }
        }
        }),
{
    reveal(call_value);
    reveal(eval_exprs);
    reveal(apply);
    reveal(eval_bool_op);
    reveal(eval_compare);
    reveal(eval_dict);
    reveal(eval_set);
    reveal(eval_expr);
    reveal(eval_block);
    reveal(eval_while);
    reveal(eval_for);
    reveal(eval_stmt);
}

/// What [`eval_dict`] is, one step deep.
pub proof fn unfold_eval_dict(
    facts: Seq<FloatFactV>,
    fuel: nat,
    st: EvalState,
    frame: Option<FrameV>,
    e: ExprV,
    i: int,
    acc: Seq<(ValueV, ValueV)>,
)
    ensures
        eval_dict(facts, fuel, st, frame, e, i, acc) == ({
        match e {
            ExprV::Dict(keys, values) => if i < 0 || i >= keys.len() {
                done(st, frame, ValueV::Dict(acc))
            } else if i >= values.len() {
                failed(st, frame, EvalErrorV::TypeError)
            } else {
                let first = eval_expr(facts, fuel, st, frame, keys[i]);
                match first.result {
                    Err(e) => failed(first.st, first.frame, e),
                    Ok(key) => {
                        let second = eval_expr(facts, fuel, first.st, first.frame, values[i]);
                        match second.result {
                            Err(e) => failed(second.st, second.frame, e),
                            Ok(value) => if hashable(key) {
                                eval_dict(
                                    facts,
                                    fuel,
                                    second.st,
                                    second.frame,
                                    e,
                                    i + 1,
                                    dict_put(acc, key, value),
                                )
                            } else {
                                failed(second.st, second.frame, EvalErrorV::TypeError)
                            },
                        }
                    },
                }
            },
            _ => done(st, frame, ValueV::Dict(acc)),
        }
        }),
{
    reveal(call_value);
    reveal(eval_exprs);
    reveal(apply);
    reveal(eval_bool_op);
    reveal(eval_compare);
    reveal(eval_dict);
    reveal(eval_set);
    reveal(eval_expr);
    reveal(eval_block);
    reveal(eval_while);
    reveal(eval_for);
    reveal(eval_stmt);
}

/// What [`eval_set`] is, one step deep.
pub proof fn unfold_eval_set(
    facts: Seq<FloatFactV>,
    fuel: nat,
    st: EvalState,
    frame: Option<FrameV>,
    e: ExprV,
    i: int,
    acc: Seq<ValueV>,
)
    ensures
        eval_set(facts, fuel, st, frame, e, i, acc) == ({
        match e {
            ExprV::SetDisplay(elements) => if i < 0 || i >= elements.len() {
                done(st, frame, ValueV::SetValue(acc))
            } else {
                let out = eval_expr(facts, fuel, st, frame, elements[i]);
                match out.result {
                    Err(e) => failed(out.st, out.frame, e),
                    Ok(v) => if hashable(v) {
                        eval_set(facts, fuel, out.st, out.frame, e, i + 1, set_put(acc, v))
                    } else {
                        failed(out.st, out.frame, EvalErrorV::TypeError)
                    },
                }
            },
            _ => done(st, frame, ValueV::SetValue(acc)),
        }
        }),
{
    reveal(call_value);
    reveal(eval_exprs);
    reveal(apply);
    reveal(eval_bool_op);
    reveal(eval_compare);
    reveal(eval_dict);
    reveal(eval_set);
    reveal(eval_expr);
    reveal(eval_block);
    reveal(eval_while);
    reveal(eval_for);
    reveal(eval_stmt);
}

/// What [`eval_expr`] is, one step deep.
pub proof fn unfold_eval_expr(
    facts: Seq<FloatFactV>,
    fuel: nat,
    st: EvalState,
    frame: Option<FrameV>,
    e: ExprV,
)
    ensures
        eval_expr(facts, fuel, st, frame, e) == ({
        match e {
            ExprV::BoolOp(op, operands) => eval_bool_op(facts, fuel, st, frame, op, operands, 0),
            ExprV::BinOp(left, op, right) => match lookup_global(st, operator_name(op)) {
                Err(e) => failed(st, frame, e),
                Ok(f) => {
                    let first = eval_expr(facts, fuel, st, frame, *left);
                    match first.result {
                        Err(e) => failed(first.st, first.frame, e),
                        Ok(a) => {
                            let second = eval_expr(facts, fuel, first.st, first.frame, *right);
                            match second.result {
                                Err(e) => failed(second.st, second.frame, e),
                                Ok(b) => apply(facts, fuel, second.st, second.frame, f, seq![a, b]),
                            }
                        },
                    }
                },
            },
            ExprV::UnaryOp(op, operand) => match lookup_global(st, unary_operator_name(op)) {
                Err(e) => failed(st, frame, e),
                Ok(f) => {
                    let first = eval_expr(facts, fuel, st, frame, *operand);
                    match first.result {
                        Err(e) => failed(first.st, first.frame, e),
                        Ok(a) => apply(facts, fuel, first.st, first.frame, f, seq![a]),
                    }
                },
            },
            ExprV::IfExp(test, body, orelse) => {
                let out = eval_expr(facts, fuel, st, frame, *test);
                match out.result {
                    Err(e) => failed(out.st, out.frame, e),
                    Ok(v) => if is_falsy(v) {
                        eval_expr(facts, fuel, out.st, out.frame, *orelse)
                    } else {
                        eval_expr(facts, fuel, out.st, out.frame, *body)
                    },
                }
            },
            ExprV::Dict(keys, values) => eval_dict(facts, fuel, st, frame, e, 0, Seq::empty()),
            ExprV::SetDisplay(elements) => eval_set(facts, fuel, st, frame, e, 0, Seq::empty()),
            ExprV::Compare(left, ops, comparators) => {
                let out = eval_expr(facts, fuel, st, frame, *left);
                match out.result {
                    Err(e) => failed(out.st, out.frame, e),
                    Ok(v) => eval_compare(facts, fuel, out.st, out.frame, ops, comparators, 0, v),
                }
            },
            ExprV::Call(callee, args) => {
                let out = eval_expr(facts, fuel, st, frame, *callee);
                match out.result {
                    Err(e) => failed(out.st, out.frame, e),
                    Ok(f) => {
                        let outs = eval_exprs(facts, fuel, out.st, out.frame, args, 0, Seq::empty());
                        match outs.result {
                            Err(e) => failed(outs.st, outs.frame, e),
                            Ok(values) => apply(facts, fuel, outs.st, outs.frame, f, values),
                        }
                    },
                }
            },
            ExprV::Constant(c) => Out { st, frame, result: constant_value(facts, c) },
            ExprV::Subscript(value, slice) => match slice {
                SliceV::Index(index) => match lookup_global(st, "__getitem__"@) {
                    Err(e) => failed(st, frame, e),
                    Ok(f) => {
                        let first = eval_expr(facts, fuel, st, frame, *value);
                        match first.result {
                            Err(e) => failed(first.st, first.frame, e),
                            Ok(a) => {
                                let second = eval_expr(facts, fuel, first.st, first.frame, *index);
                                match second.result {
                                    Err(e) => failed(second.st, second.frame, e),
                                    Ok(b) => apply(facts, fuel, second.st, second.frame, f, seq![a, b]),
                                }
                            },
                        }
                    },
                },
                SliceV::Slice(_, _, _) => failed(
                    st,
                    frame,
                    EvalErrorV::RuntimeError(Fault::Unimplemented),
                ),
            },
            ExprV::Name(name) => read_name(st, frame, name),
            ExprV::List(elements) => {
                let out = eval_exprs(facts, fuel, st, frame, elements, 0, Seq::empty());
                match out.result {
                    Err(e) => failed(out.st, out.frame, e),
                    Ok(values) => done(out.st, out.frame, ValueV::List(values)),
                }
            },
            ExprV::Tuple(elements) => {
                let out = eval_exprs(facts, fuel, st, frame, elements, 0, Seq::empty());
                match out.result {
                    Err(e) => failed(out.st, out.frame, e),
                    Ok(values) => done(out.st, out.frame, ValueV::Tuple(values)),
                }
            },
            ExprV::Starred(_) => failed(st, frame, EvalErrorV::RuntimeError(Fault::Unimplemented)),
        }
        }),
{
    reveal(call_value);
    reveal(eval_exprs);
    reveal(apply);
    reveal(eval_bool_op);
    reveal(eval_compare);
    reveal(eval_dict);
    reveal(eval_set);
    reveal(eval_expr);
    reveal(eval_block);
    reveal(eval_while);
    reveal(eval_for);
    reveal(eval_stmt);
}

/// What [`eval_block`] is, one step deep.
pub proof fn unfold_eval_block(
    facts: Seq<FloatFactV>,
    fuel: nat,
    st: EvalState,
    frame: Option<FrameV>,
    stmts: Seq<StmtV>,
    i: int,
)
    ensures
        eval_block(facts, fuel, st, frame, stmts, i) == ({
        if i < 0 || i >= stmts.len() {
            done(st, frame, StmtResultV::Next)
        } else {
            let out = eval_stmt(facts, fuel, st, frame, stmts[i]);
            match out.result {
                Ok(StmtResultV::Next) => eval_block(facts, fuel, out.st, out.frame, stmts, i + 1),
                _ => out,
            }
        }
        }),
{
    reveal(call_value);
    reveal(eval_exprs);
    reveal(apply);
    reveal(eval_bool_op);
    reveal(eval_compare);
    reveal(eval_dict);
    reveal(eval_set);
    reveal(eval_expr);
    reveal(eval_block);
    reveal(eval_while);
    reveal(eval_for);
    reveal(eval_stmt);
}

/// What [`eval_while`] is, one step deep.
pub proof fn unfold_eval_while(
    facts: Seq<FloatFactV>,
    fuel: nat,
    st: EvalState,
    frame: Option<FrameV>,
    s: StmtV,
    n: nat,
)
    ensures
        eval_while(facts, fuel, st, frame, s, n) == ({
        match s {
            StmtV::While(test, body) => {
                let out = eval_expr(facts, fuel, st, frame, test);
                match out.result {
                    Err(e) => failed(out.st, out.frame, e),
                    Ok(v) => if is_falsy(v) {
                        done(out.st, out.frame, StmtResultV::Next)
                    } else if n == 0 {
                        failed(out.st, out.frame, EvalErrorV::RuntimeError(Fault::LimitReached))
                    } else {
                        let ran = eval_block(facts, fuel, out.st, out.frame, body, 0);
                        match ran.result {
                            Ok(StmtResultV::Next) | Ok(StmtResultV::Continue) => eval_while(
                                facts,
                                fuel,
                                ran.st,
                                ran.frame,
                                s,
                                (n - 1) as nat,
                            ),
                            Ok(StmtResultV::Break) => done(ran.st, ran.frame, StmtResultV::Next),
                            _ => ran,
                        }
                    },
                }
            },
            _ => done(st, frame, StmtResultV::Next),
        }
        }),
{
    reveal(call_value);
    reveal(eval_exprs);
    reveal(apply);
    reveal(eval_bool_op);
    reveal(eval_compare);
    reveal(eval_dict);
    reveal(eval_set);
    reveal(eval_expr);
    reveal(eval_block);
    reveal(eval_while);
    reveal(eval_for);
    reveal(eval_stmt);
}

/// What [`eval_for`] is, one step deep.
pub proof fn unfold_eval_for(
    facts: Seq<FloatFactV>,
    fuel: nat,
    st: EvalState,
    frame: Option<FrameV>,
    s: StmtV,
    name: Seq<char>,
    items: Seq<ValueV>,
    i: int,
)
    ensures
        eval_for(facts, fuel, st, frame, s, name, items, i) == ({
        match s {
            StmtV::For(_, _, body) => if i < 0 || i >= items.len() {
                done(st, frame, StmtResultV::Next)
            } else {
                let bound = bind_name(st, frame, name, items[i]);
                let ran = eval_block(facts, fuel, bound.0, bound.1, body, 0);
                match ran.result {
                    Ok(StmtResultV::Next) | Ok(StmtResultV::Continue) => eval_for(
                        facts,
                        fuel,
                        ran.st,
                        ran.frame,
                        s,
                        name,
                        items,
                        i + 1,
                    ),
                    Ok(StmtResultV::Break) => done(ran.st, ran.frame, StmtResultV::Next),
                    _ => ran,
                }
            },
            _ => done(st, frame, StmtResultV::Next),
        }
        }),
{
    reveal(call_value);
    reveal(eval_exprs);
    reveal(apply);
    reveal(eval_bool_op);
    reveal(eval_compare);
    reveal(eval_dict);
    reveal(eval_set);
    reveal(eval_expr);
    reveal(eval_block);
    reveal(eval_while);
    reveal(eval_for);
    reveal(eval_stmt);
}

/// What [`eval_stmt`] is, one step deep.
pub proof fn unfold_eval_stmt(
    facts: Seq<FloatFactV>,
    fuel: nat,
    st: EvalState,
    frame: Option<FrameV>,
    s: StmtV,
)
    ensures
        eval_stmt(facts, fuel, st, frame, s) == ({
        match s {
            StmtV::FuncDef(name, parameters, body) => {
                let bound = bind_name(
                    st,
                    frame,
                    name,
                    ValueV::Func(FuncV { name, args: parameters, body }),
                );
                done(bound.0, bound.1, StmtResultV::Next)
            },
            StmtV::Return(value) => match value {
                None => done(st, frame, StmtResultV::Return(ValueV::NoneValue)),
                Some(e) => {
                    let out = eval_expr(facts, fuel, st, frame, e);
                    match out.result {
                        Err(e) => failed(out.st, out.frame, e),
                        Ok(v) => done(out.st, out.frame, StmtResultV::Return(v)),
                    }
                },
            },
            StmtV::Delete(_) => failed(st, frame, EvalErrorV::RuntimeError(Fault::Unimplemented)),
            StmtV::Assign(targets, value) => {
                let out = eval_expr(facts, fuel, st, frame, value);
                match out.result {
                    Err(e) => failed(out.st, out.frame, e),
                    Ok(v) => assign_all(out.st, out.frame, targets, 0, v),
                }
            },
            StmtV::For(target, iter, body) => {
                let out = eval_expr(facts, fuel, st, frame, iter);
                match out.result {
                    Err(e) => failed(out.st, out.frame, e),
                    Ok(v) => match target {
                        ExprV::Name(name) => match iterable_items(v) {
                            Err(e) => failed(out.st, out.frame, e),
                            Ok(items) => eval_for(facts, fuel, out.st, out.frame, s, name, items, 0),
                        },
                        _ => failed(
                            out.st,
                            out.frame,
                            EvalErrorV::RuntimeError(Fault::Unimplemented),
                        ),
                    },
                }
            },
            StmtV::While(_, _) => eval_while(facts, fuel, st, frame, s, fuel),
            StmtV::If(test, body, orelse) => {
                let out = eval_expr(facts, fuel, st, frame, test);
                match out.result {
                    Err(e) => failed(out.st, out.frame, e),
                    Ok(v) => if is_falsy(v) {
                        eval_block(facts, fuel, out.st, out.frame, orelse, 0)
                    } else {
                        eval_block(facts, fuel, out.st, out.frame, body, 0)
                    },
                }
            },
            StmtV::Global(names) => {
                let declared = declare_globals(frame, names, 0);
                match declared.1 {
                    Err(e) => failed(st, declared.0, e),
                    Ok(_) => done(st, declared.0, StmtResultV::Next),
                }
            },
            StmtV::Expr(e) => {
                let out = eval_expr(facts, fuel, st, frame, e);
                match out.result {
                    Err(e) => failed(out.st, out.frame, e),
                    Ok(_) => done(out.st, out.frame, StmtResultV::Next),
                }
            },
            StmtV::Pass => done(st, frame, StmtResultV::Next),
            StmtV::Break => done(st, frame, StmtResultV::Break),
            StmtV::Continue => done(st, frame, StmtResultV::Continue),
        }
        }),
{
    reveal(call_value);
    reveal(eval_exprs);
    reveal(apply);
    reveal(eval_bool_op);
    reveal(eval_compare);
    reveal(eval_dict);
    reveal(eval_set);
    reveal(eval_expr);
    reveal(eval_block);
    reveal(eval_while);
    reveal(eval_for);
    reveal(eval_stmt);
}

} // verus!
