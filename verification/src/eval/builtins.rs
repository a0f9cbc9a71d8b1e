//! What the built-in functions compute.
//!
//! Every built-in takes a fixed number of arguments and answers with
//! `TypeError` to any other number and to arguments of other types than
//! its own. Integers are signed and 64 bits wide; a result out of that
//! range is a `RuntimeError`.

use vstd::prelude::*;
use crate::errors::{EvalError, EvalErrorV, Fault};
use crate::eval::floats::{FloatAnswerV, FloatFactV, FloatOp, FloatQueryV, facts_find, query_binary, query_from_int, query_unary};
use crate::eval::types::{Native, ValueV, bool_value, is_falsy, py_val_t};

verus! {

/// A result of the evaluator as contracts see it.
pub open spec fn outcome(r: Result<py_val_t, EvalError>) -> Result<ValueV, EvalErrorV> {
    match r {
        Ok(v) => Ok(v@),
        Err(e) => Err(e@),
    }
}

/// Whether a result of the evaluator is the one that is wanted.
pub open spec fn agrees(r: Result<py_val_t, EvalError>, want: Result<ValueV, EvalErrorV>) -> bool {
    match r {
        Ok(v) => want == Ok::<ValueV, EvalErrorV>(v@),
        Err(e) => want == Err::<ValueV, EvalErrorV>(e@),
    }
}

/// How many arguments a built-in takes.
pub open spec fn native_arity(n: Native) -> nat {
    match n {
        Native::Itof => 1,
        Native::Ftoi => 1,
        Native::ReprInt => 1,
        Native::ReprFloat => 1,
        Native::AddInt => 2,
        Native::SubInt => 2,
        Native::MulInt => 2,
        Native::DivInt => 2,
        Native::ModInt => 2,
        Native::CmpInt => 2,
        Native::EqInt => 2,
        Native::NeInt => 2,
        Native::GtInt => 2,
        Native::GeInt => 2,
        Native::LtInt => 2,
        Native::LeInt => 2,
        Native::InvertInt => 1,
        Native::AndInt => 2,
        Native::OrInt => 2,
        Native::XorInt => 2,
        Native::LshiftInt => 2,
        Native::RshiftInt => 2,
        Native::AddFloat => 2,
        Native::SubFloat => 2,
        Native::MulFloat => 2,
        Native::DivFloat => 2,
        Native::ModFloat => 2,
        Native::CmpFloat => 2,
        Native::LenString => 1,
        Native::AddString => 2,
        Native::GetitemString => 2,
        Native::CmpString => 2,
        Native::AddTuple => 2,
        Native::LenTuple => 1,
        Native::GetitemTuple => 2,
        Native::AddList => 2,
        Native::LenList => 1,
        Native::GetitemList => 2,
        Native::PrintString => 1,
        Native::PrintStringNl => 1,
        Native::Range => 1,
        Native::Panic => 0,
        Native::Not => 1,
        Native::IsInt => 1,
        Native::IsFloat => 1,
        Native::IsString => 1,
        Native::IsTuple => 1,
        Native::IsList => 1,
        Native::IsDict => 1,
        Native::IsSet => 1,
        Native::IsNone => 1,
        Native::IsBool => 1,
    }
}

/// The name that a built-in is bound to before a program runs.
pub open spec fn native_name(n: Native) -> Seq<char> {
    match n {
        Native::Itof => "__itof__"@,
        Native::Ftoi => "__ftoi__"@,
        Native::ReprInt => "__repr_int__"@,
        Native::ReprFloat => "__repr_float__"@,
        Native::AddInt => "__add_int__"@,
        Native::SubInt => "__sub_int__"@,
        Native::MulInt => "__mul_int__"@,
        Native::DivInt => "__div_int__"@,
        Native::ModInt => "__mod_int__"@,
        Native::CmpInt => "__cmp_int__"@,
        Native::EqInt => "__eq_int__"@,
        Native::NeInt => "__ne_int__"@,
        Native::GtInt => "__gt_int__"@,
        Native::GeInt => "__ge_int__"@,
        Native::LtInt => "__lt_int__"@,
        Native::LeInt => "__le_int__"@,
        Native::InvertInt => "__invert_int__"@,
        Native::AndInt => "__and_int__"@,
        Native::OrInt => "__or_int__"@,
        Native::XorInt => "__xor_int__"@,
        Native::LshiftInt => "__lshift_int__"@,
        Native::RshiftInt => "__rshift_int__"@,
        Native::AddFloat => "__add_float__"@,
        Native::SubFloat => "__sub_float__"@,
        Native::MulFloat => "__mul_float__"@,
        Native::DivFloat => "__div_float__"@,
        Native::ModFloat => "__mod_float__"@,
        Native::CmpFloat => "__cmp_float__"@,
        Native::LenString => "__len_string__"@,
        Native::AddString => "__add_string__"@,
        Native::GetitemString => "__getitem_string__"@,
        Native::CmpString => "__cmp_string__"@,
        Native::AddTuple => "__add_tuple__"@,
        Native::LenTuple => "__len_tuple__"@,
        Native::GetitemTuple => "__getitem_tuple__"@,
        Native::AddList => "__add_list__"@,
        Native::LenList => "__len_list__"@,
        Native::GetitemList => "__getitem_list__"@,
        Native::PrintString => "__print__"@,
        Native::PrintStringNl => "__print_nl__"@,
        Native::Range => "__range__"@,
        Native::Panic => "__panic__"@,
        Native::Not => "__not__"@,
        Native::IsInt => "__is_int__"@,
        Native::IsFloat => "__is_float__"@,
        Native::IsString => "__is_string__"@,
        Native::IsTuple => "__is_tuple__"@,
        Native::IsList => "__is_list__"@,
        Native::IsDict => "__is_dict__"@,
        Native::IsSet => "__is_set__"@,
        Native::IsNone => "__is_none__"@,
        Native::IsBool => "__is_bool__"@,
    }
}

/// The integer value of a number, or `RuntimeError` where it does not fit
/// in 64 bits.
pub open spec fn in_range(x: int) -> Result<ValueV, EvalErrorV> {
    if i64::MIN <= x <= i64::MAX {
        Ok(ValueV::Int(x as i64))
    } else {
        Err(EvalErrorV::RuntimeError(Fault::Overflow))
    }
}

/// The quotient of `a` by `b`, rounded towards zero.
pub open spec fn trunc_div(a: int, b: int) -> int {
    if a >= 0 && b > 0 {
        a / b
    } else if a < 0 && b < 0 {
        (-a) / (-b)
    } else if a < 0 {
        -((-a) / b)
    } else {
        -(a / (-b))
    }
}

/// The remainder that division rounded towards zero leaves; it has the
/// sign of `a`.
pub open spec fn trunc_rem(a: int, b: int) -> int {
    let m = if b < 0 {
        -b
    } else {
        b
    };
    if a >= 0 {
        a % m
    } else {
        -((-a) % m)
    }
}

/// -1, 0 or 1 as `a` is below, equal to or above `b`.
pub open spec fn order_of(a: int, b: int) -> i64 {
    if a < b {
        -1i64
    } else if a == b {
        0i64
    } else {
        1i64
    }
}

/// What a built-in on two integers computes.
pub open spec fn int_binary_value(n: Native, a: i64, b: i64) -> Result<ValueV, EvalErrorV> {
    match n {
        Native::AddInt => in_range(a + b),
        Native::SubInt => in_range(a - b),
        Native::MulInt => in_range(a * b),
        Native::DivInt => if b == 0 {
            Err(EvalErrorV::ZeroDivisionError)
        } else {
            in_range(trunc_div(a as int, b as int))
        },
        Native::ModInt => if b == 0 {
            Err(EvalErrorV::ZeroDivisionError)
        } else {
            in_range(trunc_rem(a as int, b as int))
        },
        Native::EqInt => Ok(bool_value(a == b)),
        Native::NeInt => Ok(bool_value(a != b)),
        Native::GtInt => Ok(bool_value(a > b)),
        Native::GeInt => Ok(bool_value(a >= b)),
        Native::LtInt => Ok(bool_value(a < b)),
        Native::LeInt => Ok(bool_value(a <= b)),
        Native::AndInt => Ok(ValueV::Int(a & b)),
        Native::OrInt => Ok(ValueV::Int(a | b)),
        Native::XorInt => Ok(ValueV::Int(a ^ b)),
        Native::LshiftInt => if 0 <= b < 64 {
            Ok(ValueV::Int(a << b))
        } else {
            Err(EvalErrorV::RuntimeError(Fault::Overflow))
        },
        Native::RshiftInt => if 0 <= b < 64 {
            Ok(ValueV::Int(a >> b))
        } else {
            Err(EvalErrorV::RuntimeError(Fault::Overflow))
        },
        _ => Ok(ValueV::Int(order_of(a as int, b as int))),
    }
}

/// The character that writes a digit.
pub open spec fn digit_char(d: int) -> char {
    (d + 48) as char
}

/// The decimal digits of a natural number.
pub open spec fn nat_repr(n: nat) -> Seq<char>
    decreases n,
{
    if n < 10 {
        seq![digit_char(n as int)]
    } else {
        nat_repr(n / 10).push(digit_char((n % 10) as int))
    }
}

/// The decimal form of an integer, with `-` in front of a negative one.
pub open spec fn int_repr(n: int) -> Seq<char> {
    if n < 0 {
        seq!['-'] + nat_repr((-n) as nat)
    } else {
        nat_repr(n as nat)
    }
}

/// -1, 0 or 1 as `s` comes before, is, or comes after `t` in the order of
/// a dictionary, character code by character code, from index `i` on.
pub open spec fn text_order(s: Seq<char>, t: Seq<char>, i: int) -> i64
    decreases s.len() - i,
{
    if i < 0 || (i >= s.len() && i >= t.len()) {
        0i64
    } else if i >= s.len() {
        -1i64
    } else if i >= t.len() {
        1i64
    } else if (s[i] as int) < (t[i] as int) {
        -1i64
    } else if (s[i] as int) > (t[i] as int) {
        1i64
    } else {
        text_order(s, t, i + 1)
    }
}

/// The integers from 0 up to but without `n`.
pub open spec fn range_values(n: i64) -> Seq<ValueV> {
    Seq::new(
        if n > 0 {
            n as nat
        } else {
            0
        },
        |i: int| ValueV::Int(i as i64),
    )
}

/// The length of a run as an integer value.
pub open spec fn length_value(len: nat) -> Result<ValueV, EvalErrorV> {
    in_range(len as int)
}

/// The element of `items` that `index` names.
pub open spec fn item_at(items: Seq<ValueV>, index: ValueV) -> Result<ValueV, EvalErrorV> {
    match index {
        ValueV::Int(i) => if 0 <= i < items.len() {
            Ok(items[i as int])
        } else {
            Err(EvalErrorV::IndexError)
        },
        _ => Err(EvalErrorV::TypeError),
    }
}

/// What a built-in that asks nothing about floats computes from
/// arguments of the right number.
pub open spec fn pure_value(n: Native, args: Seq<ValueV>) -> Result<ValueV, EvalErrorV> {
    match n {
        Native::ReprInt => match args[0] {
            ValueV::Int(i) => Ok(ValueV::Str(int_repr(i as int))),
            _ => Err(EvalErrorV::TypeError),
        },
        Native::InvertInt => match args[0] {
            ValueV::Int(i) => Ok(ValueV::Int(!i)),
            _ => Err(EvalErrorV::TypeError),
        },
        Native::LenString => match args[0] {
            ValueV::Str(s) => length_value(s.len()),
            _ => Err(EvalErrorV::TypeError),
        },
        Native::AddString => match (args[0], args[1]) {
            (ValueV::Str(s), ValueV::Str(t)) => Ok(ValueV::Str(s + t)),
            _ => Err(EvalErrorV::TypeError),
        },
        Native::GetitemString => match (args[0], args[1]) {
            (ValueV::Str(s), ValueV::Int(i)) => if 0 <= i < s.len() {
                Ok(ValueV::Str(seq![s[i as int]]))
            } else {
                Err(EvalErrorV::IndexError)
            },
            _ => Err(EvalErrorV::TypeError),
        },
        Native::AddTuple => match (args[0], args[1]) {
            (ValueV::Tuple(a), ValueV::Tuple(b)) => Ok(ValueV::Tuple(a + b)),
            _ => Err(EvalErrorV::TypeError),
        },
        Native::LenTuple => match args[0] {
            ValueV::Tuple(a) => length_value(a.len()),
            _ => Err(EvalErrorV::TypeError),
        },
        Native::GetitemTuple => match args[0] {
            ValueV::Tuple(a) => item_at(a, args[1]),
            _ => Err(EvalErrorV::TypeError),
        },
        Native::AddList => match (args[0], args[1]) {
            (ValueV::List(a), ValueV::List(b)) => Ok(ValueV::List(a + b)),
            _ => Err(EvalErrorV::TypeError),
        },
        Native::LenList => match args[0] {
            ValueV::List(a) => length_value(a.len()),
            _ => Err(EvalErrorV::TypeError),
        },
        Native::GetitemList => match args[0] {
            ValueV::List(a) => item_at(a, args[1]),
            _ => Err(EvalErrorV::TypeError),
        },
        Native::PrintString => match args[0] {
            ValueV::Str(s) => Ok(ValueV::NoneValue),
            _ => Err(EvalErrorV::TypeError),
        },
        Native::PrintStringNl => match args[0] {
            ValueV::Str(s) => Ok(ValueV::NoneValue),
            _ => Err(EvalErrorV::TypeError),
        },
        Native::Range => match args[0] {
            ValueV::Int(n) => Ok(ValueV::List(range_values(n))),
            _ => Err(EvalErrorV::TypeError),
        },
        Native::Panic => Err(EvalErrorV::RuntimeError(Fault::Panic)),
        Native::Not => Ok(bool_value(is_falsy(args[0]))),
        Native::IsInt => Ok(bool_value(args[0] is Int)),
        Native::IsFloat => Ok(bool_value(args[0] is Float)),
        Native::IsString => Ok(bool_value(args[0] is Str)),
        Native::IsTuple => Ok(bool_value(args[0] is Tuple)),
        Native::IsList => Ok(bool_value(args[0] is List)),
        Native::IsDict => Ok(bool_value(args[0] is Dict)),
        Native::IsSet => Ok(bool_value(args[0] is SetValue)),
        Native::IsNone => Ok(bool_value(args[0] is NoneValue)),
        Native::IsBool => Ok(bool_value(args[0] is True || args[0] is False)),
        Native::CmpString => match (args[0], args[1]) {
            (ValueV::Str(s), ValueV::Str(t)) => Ok(ValueV::Int(text_order(s, t, 0))),
            _ => Err(EvalErrorV::TypeError),
        },
        _ => match (args[0], args[1]) {
            (ValueV::Int(a), ValueV::Int(b)) => int_binary_value(n, a, b),
            _ => Err(EvalErrorV::TypeError),
        },
    }
}

/// The answer to a question about floats, or the failure that names the
/// question.
pub open spec fn ask(facts: Seq<FloatFactV>, query: FloatQueryV) -> Result<
    FloatAnswerV,
    EvalErrorV,
> {
    match facts_find(facts, query) {
        Some(answer) => Ok(answer),
        None => Err(EvalErrorV::NeedsFloat(query)),
    }
}

/// The operation on two floats that a built-in asks for.
pub open spec fn float_op(n: Native) -> FloatOp {
    match n {
        Native::AddFloat => FloatOp::Add,
        Native::SubFloat => FloatOp::Sub,
        Native::MulFloat => FloatOp::Mul,
        Native::DivFloat => FloatOp::Div,
        Native::ModFloat => FloatOp::Rem,
        _ => FloatOp::Compare,
    }
}

/// What a built-in on floats computes from arguments of the right
/// number, given a table of answers.
pub open spec fn float_value(n: Native, args: Seq<ValueV>, facts: Seq<FloatFactV>) -> Result<
    ValueV,
    EvalErrorV,
> {
    match n {
        Native::Itof => match args[0] {
            ValueV::Int(i) => match ask(facts, query_from_int(i)) {
                Ok(answer) => Ok(ValueV::Float(answer.bits)),
                Err(e) => Err(e),
            },
            _ => Err(EvalErrorV::TypeError),
        },
        Native::Ftoi => match args[0] {
            ValueV::Float(bits) => match ask(facts, query_unary(FloatOp::Floor, bits)) {
                Ok(answer) => Ok(ValueV::Int(answer.number)),
                Err(e) => Err(e),
            },
            _ => Err(EvalErrorV::TypeError),
        },
        Native::ReprFloat => match args[0] {
            ValueV::Float(bits) => match ask(facts, query_unary(FloatOp::Repr, bits)) {
                Ok(answer) => Ok(ValueV::Str(answer.text)),
                Err(e) => Err(e),
            },
            _ => Err(EvalErrorV::TypeError),
        },
        _ => match (args[0], args[1]) {
            (ValueV::Float(a), ValueV::Float(b)) => match ask(
                facts,
                query_binary(float_op(n), a, b),
            ) {
                Ok(answer) => if float_op(n) == FloatOp::Compare {
                    Ok(ValueV::Int(answer.number))
                } else {
                    Ok(ValueV::Float(answer.bits))
                },
                Err(e) => Err(e),
            },
            _ => Err(EvalErrorV::TypeError),
        },
    }
}

/// Whether a built-in asks about floats.
pub open spec fn asks_floats(n: Native) -> bool {
    n == Native::Itof || n == Native::Ftoi || n == Native::ReprFloat || n == Native::AddFloat || n == Native::SubFloat || n == Native::MulFloat || n == Native::DivFloat || n == Native::ModFloat || n == Native::CmpFloat
}

/// What a built-in that asks nothing about floats computes from its
/// arguments.
pub open spec fn pure_result(n: Native, args: Seq<ValueV>) -> Result<ValueV, EvalErrorV> {
    if args.len() != native_arity(n) {
        Err(EvalErrorV::TypeError)
    } else {
        pure_value(n, args)
    }
}

/// What a built-in computes from its arguments, given a table of answers
/// about floats.
pub open spec fn native_value(n: Native, args: Seq<ValueV>, facts: Seq<FloatFactV>) -> Result<
    ValueV,
    EvalErrorV,
> {
    if args.len() != native_arity(n) {
        Err(EvalErrorV::TypeError)
    } else if asks_floats(n) {
        float_value(n, args, facts)
    } else {
        pure_value(n, args)
    }
}

/// What a built-in prints: the two that print write their argument, one
/// of them with a newline behind it.
pub open spec fn native_text(n: Native, args: Seq<ValueV>) -> Seq<char> {
    if args.len() == 1 && (n == Native::PrintString || n == Native::PrintStringNl) {
        match args[0] {
            ValueV::Str(s) => if n == Native::PrintStringNl {
                s.push('\n')
            } else {
                s
            },
            _ => Seq::empty(),
        }
    } else {
        Seq::empty()
    }
}

} // verus!
