//! Laws that hold of every program, proved from the definitions of the
//! grammar, of the built-in functions and of evaluation.

use vstd::prelude::*;
use crate::ast::{ASTOperator, ConstantV, ExprV, StmtV};
use crate::errors::{EvalErrorV, Fault, ParseError};
use crate::eval::builtins::{nat_repr, int_repr, native_text, native_value, order_of, trunc_div, trunc_rem};
use crate::eval::floats::FloatFactV;
use crate::eval::semantics::{EvalState, FrameV, bind_name, call_native_value, declare_globals, done, eval_expr, eval_stmt, lookup_global, printed, read_name, unfold_apply, unfold_call_value, unfold_eval_expr, unfold_eval_exprs, unfold_eval_for, unfold_eval_stmt, with_global};
use crate::eval::types::{Native, NativeV, StmtResultV, ValueV, bool_value, env_find, lemma_find_put_same};
use crate::eval::utils::operator_name;
use crate::grammar::{g_atom, g_if_tail, g_suite, g_test, kind_at, starts_expr, starts_test, unfold_g_atom, unfold_g_elem, unfold_g_if_tail, unfold_g_list, unfold_g_list_rest};
use crate::lexing::{Lexed, decimal_value};
use crate::progress::{lemma_suite, lemma_test};
use crate::token::TokenKind;

verus! {

/// Whatever follows `if` or `elif` parses to an `If`.
pub proof fn lemma_if_tail_is_if(lx: Lexed, p: int)
    ensures
        g_if_tail(lx, p) matches Ok(found) ==> found.0 is If,
{
    unfold_g_if_tail(lx, p);
}

/// An `elif` is lowered to a nested `If`: where `elif` stands behind the
/// first suite of an `if` statement, the `orelse` of the statement is
/// exactly one statement, and that statement is an `If`.
pub proof fn lemma_elif_is_nested_if(
    lx: Lexed,
    p: int,
    test: ExprV,
    p1: int,
    body: Seq<StmtV>,
    p3: int,
)
    requires
        g_if_tail(lx, p) is Ok,
        g_test(lx, p) == Ok::<(ExprV, int), ParseError>((test, p1)),
        kind_at(lx, p1) == TokenKind::COLON,
        g_suite(lx, p1 + 1) == Ok::<(Seq<StmtV>, int), ParseError>((body, p3)),
        kind_at(lx, p3) == TokenKind::ELIF,
    ensures
        (g_if_tail(lx, p)->Ok_0.0 matches StmtV::If(t, b, orelse) && t == test && b == body
            && orelse.len() == 1 && orelse[0] is If),
{
    lemma_test(lx, p);
    lemma_suite(lx, p1 + 1);
    unfold_g_if_tail(lx, p);
    lemma_if_tail_is_if(lx, p3 + 1);
}

/// `()` is the empty tuple.
pub proof fn lemma_empty_parentheses(lx: Lexed, p: int)
    requires
        0 <= p,
        p + 2 < lx.tokens.len(),
        kind_at(lx, p) == TokenKind::LPAREN,
        kind_at(lx, p + 1) == TokenKind::RPAREN,
    ensures
        g_atom(lx, p) == Ok::<(ExprV, int), ParseError>((ExprV::Tuple(Seq::empty()), p + 2)),
{
    reveal(starts_test);
    reveal(starts_expr);
    unfold_g_atom(lx, p);
}

/// `(x)` is `x`, and `(x,)` is the tuple of `x` alone.
pub proof fn lemma_parentheses_and_comma(lx: Lexed, p: int, x: ExprV, q: int)
    requires
        0 <= p,
        kind_at(lx, p) == TokenKind::LPAREN,
        starts_test(kind_at(lx, p + 1)),
        g_test(lx, p + 1) == Ok::<(ExprV, int), ParseError>((x, q)),
        q + 2 < lx.tokens.len(),
    ensures
        kind_at(lx, q) == TokenKind::RPAREN ==> g_atom(lx, p) == Ok::<(ExprV, int), ParseError>(
            (x, q + 1),
        ),
        kind_at(lx, q) == TokenKind::COMMA && kind_at(lx, q + 1) == TokenKind::RPAREN ==> g_atom(
            lx,
            p,
        ) == Ok::<(ExprV, int), ParseError>((ExprV::Tuple(seq![x]), q + 2)),
{
    reveal(starts_test);
    reveal(starts_expr);
    lemma_test(lx, p + 1);
    unfold_g_atom(lx, p);
    unfold_g_list(lx, p + 1, true);
    unfold_g_elem(lx, p + 1, true);
    unfold_g_list_rest(lx, q, true, seq![x]);
    assert(seq![x].len() == 1);
    assert(seq![x][0] == x);
}

/// The empty tuple evaluates to the empty tuple and changes nothing.
pub proof fn lemma_empty_tuple(
    facts: Seq<FloatFactV>,
    fuel: nat,
    st: EvalState,
    frame: Option<FrameV>,
)
    ensures
        eval_expr(facts, fuel, st, frame, ExprV::Tuple(Seq::empty())) == done(
            st,
            frame,
            ValueV::Tuple(Seq::empty()),
        ),
{
    unfold_eval_expr(facts, fuel, st, frame, ExprV::Tuple(Seq::empty()));
    unfold_eval_exprs(facts, fuel, st, frame, Seq::empty(), 0, Seq::empty());
}

/// Integer arithmetic is that of the host: where the result fits in 64
/// bits, the built-ins yield the sum, the difference, the product, the
/// quotient rounded towards zero and its remainder; and they yield the
/// bitwise and shifted values that the host's operators yield.
pub proof fn lemma_integer_arithmetic(facts: Seq<FloatFactV>, a: i64, b: i64)
    ensures
        i64::MIN <= a + b <= i64::MAX ==> native_value(
            Native::AddInt,
            seq![ValueV::Int(a), ValueV::Int(b)],
            facts,
        ) == Ok::<ValueV, EvalErrorV>(ValueV::Int((a + b) as i64)),
        i64::MIN <= a - b <= i64::MAX ==> native_value(
            Native::SubInt,
            seq![ValueV::Int(a), ValueV::Int(b)],
            facts,
        ) == Ok::<ValueV, EvalErrorV>(ValueV::Int((a - b) as i64)),
        i64::MIN <= a * b <= i64::MAX ==> native_value(
            Native::MulInt,
            seq![ValueV::Int(a), ValueV::Int(b)],
            facts,
        ) == Ok::<ValueV, EvalErrorV>(ValueV::Int((a * b) as i64)),
        b != 0 && !(a == i64::MIN && b == -1) ==> native_value(
            Native::DivInt,
            seq![ValueV::Int(a), ValueV::Int(b)],
            facts,
        ) == Ok::<ValueV, EvalErrorV>(ValueV::Int(trunc_div(a as int, b as int) as i64)),
        b != 0 ==> native_value(Native::ModInt, seq![ValueV::Int(a), ValueV::Int(b)], facts)
            == Ok::<ValueV, EvalErrorV>(ValueV::Int(trunc_rem(a as int, b as int) as i64)),
        native_value(Native::AndInt, seq![ValueV::Int(a), ValueV::Int(b)], facts) == Ok::<
            ValueV,
            EvalErrorV,
        >(ValueV::Int(a & b)),
        native_value(Native::OrInt, seq![ValueV::Int(a), ValueV::Int(b)], facts) == Ok::<
            ValueV,
            EvalErrorV,
        >(ValueV::Int(a | b)),
        native_value(Native::XorInt, seq![ValueV::Int(a), ValueV::Int(b)], facts) == Ok::<
            ValueV,
            EvalErrorV,
        >(ValueV::Int(a ^ b)),
        0 <= b < 64 ==> native_value(
            Native::LshiftInt,
            seq![ValueV::Int(a), ValueV::Int(b)],
            facts,
        ) == Ok::<ValueV, EvalErrorV>(ValueV::Int(a << b)),
        0 <= b < 64 ==> native_value(
            Native::RshiftInt,
            seq![ValueV::Int(a), ValueV::Int(b)],
            facts,
        ) == Ok::<ValueV, EvalErrorV>(ValueV::Int(a >> b)),
        native_value(Native::InvertInt, seq![ValueV::Int(a)], facts) == Ok::<ValueV, EvalErrorV>(
            ValueV::Int(!a),
        ),
{
    lemma_quotient_bounds(a as int, b as int);
}

/// The quotient rounded towards zero and its remainder have the sizes
/// that make them a division: the remainder is smaller than the divisor,
/// and quotient times divisor plus remainder is the dividend.
pub proof fn lemma_quotient_bounds(a: int, b: int)
    ensures
        b != 0 ==> a == trunc_div(a, b) * b + trunc_rem(a, b),
        b != 0 ==> (if b < 0 {
            -b
        } else {
            b
        }) > (if trunc_rem(a, b) < 0 {
            -trunc_rem(a, b)
        } else {
            trunc_rem(a, b)
        }),
        b != 0 && a >= 0 ==> trunc_rem(a, b) >= 0,
        b != 0 && a <= 0 ==> trunc_rem(a, b) <= 0,
        b != 0 && i64::MIN <= a <= i64::MAX && i64::MIN <= b <= i64::MAX ==> i64::MIN
            <= trunc_rem(a, b) <= i64::MAX,
        b != 0 && i64::MIN <= a <= i64::MAX && i64::MIN <= b <= i64::MAX && !(a == i64::MIN && b
            == -1) ==> i64::MIN <= trunc_div(a, b) <= i64::MAX,
{
    if b != 0 {
        let m = if b < 0 {
            -b
        } else {
            b
        };
        let n = if a < 0 {
            -a
        } else {
            a
        };
        assert(n == (n / m) * m + n % m && 0 <= n % m < m) by (nonlinear_arith)
            requires
                m > 0,
        ;
        assert(0 <= n / m <= n) by (nonlinear_arith)
            requires
                m > 0,
                n >= 0,
        ;
        assert(m >= 2 ==> 2 * (n / m) <= n) by (nonlinear_arith)
            requires
                m > 0,
                n >= 0,
                n == (n / m) * m + n % m,
                0 <= n % m,
        ;
        assert(a == trunc_div(a, b) * b + trunc_rem(a, b)) by (nonlinear_arith)
            requires
                n == (n / m) * m + n % m,
                m == (if b < 0 {
                    -b
                } else {
                    b
                }),
                n == (if a < 0 {
                    -a
                } else {
                    a
                }),
                b != 0,
                trunc_rem(a, b) == (if a >= 0 {
                    n % m
                } else {
                    -(n % m)
                }),
                trunc_div(a, b) == (if (a >= 0) == (b > 0) {
                    n / m
                } else {
                    -(n / m)
                }),
        ;
    }
}

/// A comparison of two integers yields `True` if and only if the
/// relation holds of them.
pub proof fn lemma_integer_comparisons(facts: Seq<FloatFactV>, a: i64, b: i64)
    ensures
        native_value(Native::EqInt, seq![ValueV::Int(a), ValueV::Int(b)], facts) == Ok::<
            ValueV,
            EvalErrorV,
        >(bool_value(a == b)),
        native_value(Native::NeInt, seq![ValueV::Int(a), ValueV::Int(b)], facts) == Ok::<
            ValueV,
            EvalErrorV,
        >(bool_value(a != b)),
        native_value(Native::LtInt, seq![ValueV::Int(a), ValueV::Int(b)], facts) == Ok::<
            ValueV,
            EvalErrorV,
        >(bool_value(a < b)),
        native_value(Native::LeInt, seq![ValueV::Int(a), ValueV::Int(b)], facts) == Ok::<
            ValueV,
            EvalErrorV,
        >(bool_value(a <= b)),
        native_value(Native::GtInt, seq![ValueV::Int(a), ValueV::Int(b)], facts) == Ok::<
            ValueV,
            EvalErrorV,
        >(bool_value(a > b)),
        native_value(Native::GeInt, seq![ValueV::Int(a), ValueV::Int(b)], facts) == Ok::<
            ValueV,
            EvalErrorV,
        >(bool_value(a >= b)),
        native_value(Native::CmpInt, seq![ValueV::Int(a), ValueV::Int(b)], facts) == Ok::<
            ValueV,
            EvalErrorV,
        >(ValueV::Int(order_of(a as int, b as int))),
        forall|holds: bool| bool_value(holds) == ValueV::True <==> holds,
{
}

/// Adding two strings yields the first followed by the second.
pub proof fn lemma_string_concatenation(facts: Seq<FloatFactV>, s: Seq<char>, t: Seq<char>)
    ensures
        native_value(Native::AddString, seq![ValueV::Str(s), ValueV::Str(t)], facts) == Ok::<
            ValueV,
            EvalErrorV,
        >(ValueV::Str(s + t)),
{
}

/// Printing with a newline appends the text and one newline to what was
/// printed, so that printing the empty string appends a single newline;
/// and an integer is written in decimal.
pub proof fn lemma_print(facts: Seq<FloatFactV>, st: EvalState, name: Seq<char>, s: Seq<char>, n: i64)
    ensures
        call_native_value(
            facts,
            st,
            NativeV { name, arity: 1, body: Native::PrintStringNl },
            seq![ValueV::Str(s)],
        ) == (printed(st, s.push('\n')), Ok::<ValueV, EvalErrorV>(ValueV::NoneValue)),
        call_native_value(
            facts,
            st,
            NativeV { name, arity: 1, body: Native::PrintString },
            seq![ValueV::Str(s)],
        ) == (printed(st, s), Ok::<ValueV, EvalErrorV>(ValueV::NoneValue)),
        printed(st, Seq::<char>::empty().push('\n')).output == st.output.push('\n'),
        native_value(Native::ReprInt, seq![ValueV::Int(n)], facts) == Ok::<ValueV, EvalErrorV>(
            ValueV::Str(int_repr(n as int)),
        ),
{
    assert(st.output + Seq::<char>::empty().push('\n') =~= st.output.push('\n'));
}

/// Operators go through the global environment: where the name of a
/// binary operator is bound to a built-in of two arguments, applying the
/// operator to two integer literals yields what the built-in yields for
/// them, and prints what it prints.
pub proof fn lemma_operator_dispatch(
    facts: Seq<FloatFactV>,
    fuel: nat,
    st: EvalState,
    frame: Option<FrameV>,
    op: ASTOperator,
    a: i64,
    b: i64,
    native: NativeV,
)
    requires
        lookup_global(st, operator_name(op)) == Ok::<ValueV, EvalErrorV>(ValueV::NativeFunc(native)),
        native.arity == 2,
    ensures
        eval_expr(
            facts,
            fuel,
            st,
            frame,
            ExprV::BinOp(
                Box::new(ExprV::Constant(ConstantV::Int(a as int))),
                op,
                Box::new(ExprV::Constant(ConstantV::Int(b as int))),
            ),
        ).result == native_value(native.body, seq![ValueV::Int(a), ValueV::Int(b)], facts),
        eval_expr(
            facts,
            fuel,
            st,
            frame,
            ExprV::BinOp(
                Box::new(ExprV::Constant(ConstantV::Int(a as int))),
                op,
                Box::new(ExprV::Constant(ConstantV::Int(b as int))),
            ),
        ).st.output == st.output + native_text(
            native.body,
            seq![ValueV::Int(a), ValueV::Int(b)],
        ),
        eval_expr(
            facts,
            fuel,
            st,
            frame,
            ExprV::BinOp(
                Box::new(ExprV::Constant(ConstantV::Int(a as int))),
                op,
                Box::new(ExprV::Constant(ConstantV::Int(b as int))),
            ),
        ).frame == frame,
{
    let left = ExprV::Constant(ConstantV::Int(a as int));
    let right = ExprV::Constant(ConstantV::Int(b as int));
    let args = seq![ValueV::Int(a), ValueV::Int(b)];
    unfold_eval_expr(facts, fuel, st, frame, ExprV::BinOp(Box::new(left), op, Box::new(right)));
    unfold_eval_expr(facts, fuel, st, frame, left);
    unfold_eval_expr(facts, fuel, st, frame, right);
    unfold_apply(facts, fuel, st, frame, ValueV::NativeFunc(native), args);
    unfold_call_value(facts, fuel, st, ValueV::NativeFunc(native), args);
}

/// A `for` loop over the empty string does not run its body: once the
/// string is evaluated, the statement ends in `Next` and changes nothing.
pub proof fn lemma_for_over_empty_string(
    facts: Seq<FloatFactV>,
    fuel: nat,
    st: EvalState,
    frame: Option<FrameV>,
    name: Seq<char>,
    iter: ExprV,
    body: Seq<StmtV>,
)
    requires
        eval_expr(facts, fuel, st, frame, iter).result == Ok::<ValueV, EvalErrorV>(
            ValueV::Str(Seq::empty()),
        ),
    ensures
        eval_stmt(facts, fuel, st, frame, StmtV::For(ExprV::Name(name), iter, body)) == done(
            eval_expr(facts, fuel, st, frame, iter).st,
            eval_expr(facts, fuel, st, frame, iter).frame,
            StmtResultV::Next,
        ),
{
    let s = StmtV::For(ExprV::Name(name), iter, body);
    let out = eval_expr(facts, fuel, st, frame, iter);
    unfold_eval_stmt(facts, fuel, st, frame, s);
    let items: Seq<ValueV> = Seq::new(0, |i: int| ValueV::Str(seq![Seq::<char>::empty()[i]]));
    unfold_eval_for(facts, fuel, out.st, out.frame, s, name, items, 0);
}

/// A name that a call has neither bound nor read can be declared
/// `global`; an assignment to it then changes the global environment, where
/// the name reads back the value assigned, and leaves the frame as the
/// declaration left it.
pub proof fn lemma_global_then_assign(st: EvalState, frame: FrameV, name: Seq<char>, v: ValueV)
    requires
        env_find(frame.vars, name) is None,
        !frame.reads.contains(name),
    ensures
        declare_globals(Some(frame), seq![name], 0).1 == Ok::<(), EvalErrorV>(()),
        bind_name(st, declare_globals(Some(frame), seq![name], 0).0, name, v) == (
            with_global(st, name, v),
            declare_globals(Some(frame), seq![name], 0).0,
        ),
        lookup_global(with_global(st, name, v), name) == Ok::<ValueV, EvalErrorV>(v),
{
    reveal_with_fuel(declare_globals, 3);
    lemma_find_put_same(frame.vars, name, None);
    lemma_find_put_same(st.globals, name, Some(v));
}

/// A name that a call has read from the global environment, or has bound,
/// cannot be declared `global` in that call any more.
pub proof fn lemma_global_after_use(st: EvalState, frame: FrameV, name: Seq<char>)
    ensures
        env_find(frame.vars, name) is Some || frame.reads.contains(name) ==> declare_globals(
            Some(frame),
            seq![name],
            0,
        ).1 == Err::<(), EvalErrorV>(EvalErrorV::RuntimeError(Fault::GlobalAfterUse)),
        env_find(frame.vars, name) is None ==> (read_name(st, Some(frame), name).frame matches Some(
            after,
        ) && after.reads.contains(name) && after.vars == frame.vars),
{
    reveal_with_fuel(declare_globals, 3);
    if env_find(frame.vars, name) is None {
        if !frame.reads.contains(name) {
            assert(frame.reads.push(name)[frame.reads.len() as int] == name);
        }
    }
}

/// The bytes that write a text of characters below 256.
pub open spec fn text_bytes(text: Seq<char>) -> Seq<u8> {
    Seq::new(text.len(), |i: int| text[i] as u8)
}

/// Writing and reading are inverse: the digits that write a number read
/// back as that number.
pub proof fn lemma_decimal_reads_back(n: nat)
    ensures
        decimal_value(text_bytes(nat_repr(n))) == n,
    decreases n,
{
    if n < 10 {
        let digits = text_bytes(nat_repr(n));
        assert(digits.drop_last() =~= Seq::<u8>::empty());
        assert(decimal_value(digits.drop_last()) == 0);
        assert(digits.last() == (n + 48) as u8);
    } else {
        lemma_decimal_reads_back(n / 10);
        let front = text_bytes(nat_repr(n / 10));
        let digits = text_bytes(nat_repr(n));
        assert(digits.drop_last() =~= front);
        assert(digits.last() == (n % 10 + 48) as u8);
    }
}

} // verus!
