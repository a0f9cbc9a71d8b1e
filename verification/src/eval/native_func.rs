//! The built-in functions.
//!
//! Each built-in takes its arguments as a vector of values. The two that
//! print append to a buffer that the caller owns, and those on floats look
//! their answer up in the caller's table (see [`crate::eval::floats`]).

use vstd::prelude::*;
use vstd::string::StringExecFns;
use crate::errors::{EvalError, Fault};
use crate::eval::builtins::{agrees, digit_char, int_binary_value, int_repr, item_at, length_value, nat_repr, native_text, native_value, pure_result, range_values, text_order, asks_floats};
use crate::eval::floats::{FloatFact, FloatOp, FloatQuery, facts_view, find_answer};
use crate::eval::types::{Native, ValueV, lemma_value_view, lemma_values_add, lemma_values_empty, lemma_values_push, lemma_values_view, py_val, py_val_t, share, values_view};

verus! {

/// The integer that argument `i` is, if it is one.
fn int_arg(values: &Vec<py_val_t>, i: usize) -> (r: Option<i64>)
    requires
        i < values.len(),
    ensures
        match r {
            Some(x) => values_view(values@)[i as int] == ValueV::Int(x),
            None => !(values_view(values@)[i as int] is Int),
        },
{
    proof {
        lemma_values_view(values@);
        lemma_value_view(&*values@[i as int]);
    }
    match &*values[i] {
        py_val::Int(x) => Some(*x),
        _ => None,
    }
}

/// The bits of the float that argument `i` is, if it is one.
fn float_arg(values: &Vec<py_val_t>, i: usize) -> (r: Option<u64>)
    requires
        i < values.len(),
    ensures
        match r {
            Some(x) => values_view(values@)[i as int] == ValueV::Float(x),
            None => !(values_view(values@)[i as int] is Float),
        },
{
    proof {
        lemma_values_view(values@);
        lemma_value_view(&*values@[i as int]);
    }
    match &*values[i] {
        py_val::Float(x) => Some(*x),
        _ => None,
    }
}

/// The string that argument `i` is, if it is one.
fn str_arg(values: &Vec<py_val_t>, i: usize) -> (r: Option<&String>)
    requires
        i < values.len(),
    ensures
        match r {
            Some(s) => values_view(values@)[i as int] == ValueV::Str(s@),
            None => !(values_view(values@)[i as int] is Str),
        },
{
    proof {
        lemma_values_view(values@);
        lemma_value_view(&*values@[i as int]);
    }
    match &*values[i] {
        py_val::Str(s) => Some(s),
        _ => None,
    }
}

/// The elements of the tuple that argument `i` is, if it is one.
fn tuple_arg(values: &Vec<py_val_t>, i: usize) -> (r: Option<&Vec<py_val_t>>)
    requires
        i < values.len(),
    ensures
        match r {
            Some(items) => values_view(values@)[i as int] == ValueV::Tuple(values_view(items@)),
            None => !(values_view(values@)[i as int] is Tuple),
        },
{
    proof {
        lemma_values_view(values@);
        lemma_value_view(&*values@[i as int]);
    }
    match &*values[i] {
        py_val::Tuple(items) => Some(items),
        _ => None,
    }
}

/// The elements of the list that argument `i` is, if it is one.
fn list_arg(values: &Vec<py_val_t>, i: usize) -> (r: Option<&Vec<py_val_t>>)
    requires
        i < values.len(),
    ensures
        match r {
            Some(items) => values_view(values@)[i as int] == ValueV::List(values_view(items@)),
            None => !(values_view(values@)[i as int] is List),
        },
{
    proof {
        lemma_values_view(values@);
        lemma_value_view(&*values@[i as int]);
    }
    match &*values[i] {
        py_val::List(items) => Some(items),
        _ => None,
    }
}

/// Whether a built-in takes two integers.
pub open spec fn takes_two_ints(n: Native) -> bool {
    n == Native::AddInt || n == Native::SubInt || n == Native::MulInt || n == Native::DivInt || n
        == Native::ModInt || n == Native::CmpInt || n == Native::EqInt || n == Native::NeInt || n
        == Native::GtInt || n == Native::GeInt || n == Native::LtInt || n == Native::LeInt || n
        == Native::AndInt || n == Native::OrInt || n == Native::XorInt || n == Native::LshiftInt
        || n == Native::RshiftInt
}

/// The distance of an integer from zero.
fn magnitude(x: i64) -> (m: u64)
    ensures
        m == (if x < 0 {
            -x
        } else {
            x as int
        }),
{
    if x < 0 {
        (-(x + 1)) as u64 + 1
    } else {
        x as u64
    }
}

/// A built-in on two integers.
fn int_binary(n: Native, values: &Vec<py_val_t>) -> (r: Result<py_val_t, EvalError>)
    requires
        takes_two_ints(n),
    ensures
        agrees(r, pure_result(n, values_view(values@))),
{
    proof {
        lemma_values_view(values@);
    }
    if values.len() != 2 {
        return Err(EvalError::TypeError);
    }
    let a = match int_arg(values, 0) {
        Some(a) => a,
        None => {
            return Err(EvalError::TypeError);
        },
    };
    let b = match int_arg(values, 1) {
        Some(b) => b,
        None => {
            return Err(EvalError::TypeError);
        },
    };
    let r = match n {
        Native::AddInt => match a.checked_add(b) {
            Some(r) => Ok(py_val::make_int(r)),
            None => Err(EvalError::RuntimeError(Fault::Overflow)),
        },
        Native::SubInt => match a.checked_sub(b) {
            Some(r) => Ok(py_val::make_int(r)),
            None => Err(EvalError::RuntimeError(Fault::Overflow)),
        },
        Native::MulInt => match a.checked_mul(b) {
            Some(r) => Ok(py_val::make_int(r)),
            None => Err(EvalError::RuntimeError(Fault::Overflow)),
        },
        Native::DivInt => if b == 0 {
            Err(EvalError::ZeroDivisionError)
        } else {
            let q = magnitude(a) / magnitude(b);
            if (a < 0) != (b < 0) {
                Ok(py_val::make_int((0 - (q as i128)) as i64))
            } else if q > 0x7fff_ffff_ffff_ffff {
                Err(EvalError::RuntimeError(Fault::Overflow))
            } else {
                Ok(py_val::make_int(q as i64))
            }
        },
        Native::ModInt => if b == 0 {
            Err(EvalError::ZeroDivisionError)
        } else {
            let q = magnitude(a) % magnitude(b);
            if a < 0 {
                Ok(py_val::make_int(0 - (q as i64)))
            } else {
                Ok(py_val::make_int(q as i64))
            }
        },
        Native::EqInt => Ok(py_val::make_bool(a == b)),
        Native::NeInt => Ok(py_val::make_bool(a != b)),
        Native::GtInt => Ok(py_val::make_bool(a > b)),
        Native::GeInt => Ok(py_val::make_bool(a >= b)),
        Native::LtInt => Ok(py_val::make_bool(a < b)),
        Native::LeInt => Ok(py_val::make_bool(a <= b)),
        Native::AndInt => Ok(py_val::make_int(a & b)),
        Native::OrInt => Ok(py_val::make_int(a | b)),
        Native::XorInt => Ok(py_val::make_int(a ^ b)),
        Native::LshiftInt => if 0 <= b && b < 64 {
            Ok(py_val::make_int(a << b))
        } else {
            Err(EvalError::RuntimeError(Fault::Overflow))
        },
        Native::RshiftInt => if 0 <= b && b < 64 {
            Ok(py_val::make_int(a >> b))
        } else {
            Err(EvalError::RuntimeError(Fault::Overflow))
        },
        _ => Ok(
            py_val::make_int(
                if a < b {
                    -1
                } else if a == b {
                    0
                } else {
                    1
                },
            ),
        ),
    };
    proof {
        // One operator at a time keeps the solver on the arm that ran.
        assert(n == Native::AddInt ==> agrees(r, int_binary_value(n, a, b)));
        assert(n == Native::SubInt ==> agrees(r, int_binary_value(n, a, b)));
        assert(n == Native::MulInt ==> agrees(r, int_binary_value(n, a, b)));
        assert(n == Native::DivInt ==> agrees(r, int_binary_value(n, a, b)));
        assert(n == Native::ModInt ==> agrees(r, int_binary_value(n, a, b)));
        assert(n == Native::LshiftInt ==> agrees(r, int_binary_value(n, a, b)));
        assert(n == Native::RshiftInt ==> agrees(r, int_binary_value(n, a, b)));
        assert(n == Native::AndInt ==> agrees(r, int_binary_value(n, a, b)));
        assert(n == Native::OrInt ==> agrees(r, int_binary_value(n, a, b)));
        assert(n == Native::XorInt ==> agrees(r, int_binary_value(n, a, b)));
    }
    r
}

/// Appends the decimal digits of `n` to `out`.
pub fn push_nat(out: &mut String, n: u64)
    ensures
        final(out)@ == old(out)@ + nat_repr(n as nat),
    decreases n,
{
    if n >= 10 {
        push_nat(out, n / 10);
    }
    let d = (n % 10) as u8;
    out.push((d + 48) as char);
    proof {
        if n >= 10 {
            assert(final(out)@ =~= old(out)@ + nat_repr((n / 10) as nat).push(
                digit_char((n % 10) as int),
            ));
        } else {
            assert(final(out)@ =~= old(out)@ + seq![digit_char(n as int)]);
        }
    }
}

/// The decimal form of an integer.
pub fn repr_int(i: i64) -> (s: String)
    ensures
        s@ == int_repr(i as int),
{
    let mut s = String::new();
    if i < 0 {
        s.push('-');
        let magnitude = (-(i + 1)) as u64 + 1;
        push_nat(&mut s, magnitude);
        proof {
            assert(s@ =~= seq!['-'] + nat_repr((-i) as nat));
        }
    } else {
        push_nat(&mut s, i as u64);
        proof {
            assert(s@ =~= nat_repr(i as nat));
        }
    }
    s
}

/// Where two strings stand to each other in the order of a dictionary.
fn order_text(s: &String, t: &String) -> (r: i64)
    ensures
        r == text_order(s@, t@, 0),
{
    let n = s.as_str().unicode_len();
    let m = t.as_str().unicode_len();
    let mut i: usize = 0;
    while i < n && i < m
        invariant
            n == s@.len(),
            m == t@.len(),
            i <= n,
            i <= m,
            text_order(s@, t@, 0) == text_order(s@, t@, i as int),
        decreases n - i,
    {
        let a = s.as_str().get_char(i);
        let b = t.as_str().get_char(i);
        if (a as u32) < (b as u32) {
            return -1;
        }
        if (a as u32) > (b as u32) {
            return 1;
        }
        i = i + 1;
    }
    if i >= n && i >= m {
        0
    } else if i >= n {
        -1
    } else {
        1
    }
}

/// The values of `a` followed by those of `b`.
fn joined(a: &Vec<py_val_t>, b: &Vec<py_val_t>) -> (r: Vec<py_val_t>)
    ensures
        values_view(r@) == values_view(a@) + values_view(b@),
{
    let mut r: Vec<py_val_t> = Vec::new();
    let mut i: usize = 0;
    while i < a.len()
        invariant
            i <= a.len(),
            r@ =~= a@.subrange(0, i as int),
        decreases a.len() - i,
    {
        r.push(share(&a[i]));
        i = i + 1;
    }
    let mut j: usize = 0;
    while j < b.len()
        invariant
            j <= b.len(),
            r@ =~= a@ + b@.subrange(0, j as int),
        decreases b.len() - j,
    {
        r.push(share(&b[j]));
        j = j + 1;
    }
    proof {
        assert(r@ =~= a@ + b@);
        lemma_values_add(a@, b@);
    }
    r
}

/// The length of a run as an integer value.
fn length(len: usize) -> (r: Result<py_val_t, EvalError>)
    ensures
        agrees(r, length_value(len as nat)),
{
    if (len as u64) > 0x7fff_ffff_ffff_ffff {
        Err(EvalError::RuntimeError(Fault::Overflow))
    } else {
        Ok(py_val::make_int(len as i64))
    }
}

/// The element of `items` that argument 1 names.
fn item(items: &Vec<py_val_t>, values: &Vec<py_val_t>) -> (r: Result<py_val_t, EvalError>)
    requires
        values.len() == 2,
    ensures
        agrees(r, item_at(values_view(items@), values_view(values@)[1])),
{
    proof {
        lemma_values_view(items@);
    }
    match int_arg(values, 1) {
        Some(i) => {
            if 0 <= i && (i as u64) < (items.len() as u64) {
                Ok(share(&items[i as usize]))
            } else {
                Err(EvalError::IndexError)
            }
        },
        None => Err(EvalError::TypeError),
    }
}

/// The integers from 0 up to but without `n`.
fn counting(n: i64) -> (r: Vec<py_val_t>)
    ensures
        values_view(r@) == range_values(n),
{
    let mut r: Vec<py_val_t> = Vec::new();
    let mut i: i64 = 0;
    proof {
        lemma_values_empty();
    }
    while i < n
        invariant
            0 <= i,
            i <= n || i == 0,
            values_view(r@) =~= Seq::new(i as nat, |k: int| ValueV::Int(k as i64)),
        decreases n - i,
    {
        let v = py_val::make_int(i);
        proof {
            lemma_values_push(r@, v);
        }
        r.push(v);
        i = i + 1;
    }
    proof {
        assert(values_view(r@) =~= range_values(n));
    }
    r
}

/// A built-in that asks nothing about floats and prints nothing.
fn pure_native(n: Native, values: &Vec<py_val_t>) -> (r: Result<py_val_t, EvalError>)
    requires
        !asks_floats(n),
    ensures
        agrees(r, pure_result(n, values_view(values@))),
{
    proof {
        lemma_values_view(values@);
    }
    let arity: usize = match n {
        Native::Panic => 0,
        Native::ReprInt
        | Native::InvertInt
        | Native::LenString
        | Native::LenTuple
        | Native::LenList
        | Native::PrintString
        | Native::PrintStringNl
        | Native::Range
        | Native::Not
        | Native::IsInt
        | Native::IsFloat
        | Native::IsString
        | Native::IsTuple
        | Native::IsList
        | Native::IsDict
        | Native::IsSet
        | Native::IsNone
        | Native::IsBool => 1,
        _ => 2,
    };
    if values.len() != arity {
        return Err(EvalError::TypeError);
    }
    match n {
        Native::ReprInt => match int_arg(values, 0) {
            Some(i) => Ok(py_val::make_string(repr_int(i))),
            None => Err(EvalError::TypeError),
        },
        Native::InvertInt => match int_arg(values, 0) {
            Some(i) => Ok(py_val::make_int(!i)),
            None => Err(EvalError::TypeError),
        },
        Native::LenString => match str_arg(values, 0) {
            Some(s) => length(s.as_str().unicode_len()),
            None => Err(EvalError::TypeError),
        },
        Native::AddString => match (str_arg(values, 0), str_arg(values, 1)) {
            (Some(s), Some(t)) => {
                let mut r = s.clone();
                r.append(t.as_str());
                Ok(py_val::make_string(r))
            },
            _ => Err(EvalError::TypeError),
        },
        Native::GetitemString => match (str_arg(values, 0), int_arg(values, 1)) {
            (Some(s), Some(i)) => {
                let len = s.as_str().unicode_len();
                if 0 <= i && (i as u64) < (len as u64) {
                    let c = s.as_str().get_char(i as usize);
                    let mut r = String::new();
                    r.push(c);
                    proof {
                        assert(r@ =~= seq![s@[i as int]]);
                    }
                    Ok(py_val::make_string(r))
                } else {
                    Err(EvalError::IndexError)
                }
            },
            _ => Err(EvalError::TypeError),
        },
        Native::AddTuple => match (tuple_arg(values, 0), tuple_arg(values, 1)) {
            (Some(a), Some(b)) => Ok(py_val::make_tuple(joined(a, b))),
            _ => Err(EvalError::TypeError),
        },
        Native::LenTuple => match tuple_arg(values, 0) {
            Some(a) => {
                proof {
                    lemma_values_view(a@);
                }
                length(a.len())
            },
            None => Err(EvalError::TypeError),
        },
        Native::GetitemTuple => match tuple_arg(values, 0) {
            Some(a) => item(a, values),
            None => Err(EvalError::TypeError),
        },
        Native::AddList => match (list_arg(values, 0), list_arg(values, 1)) {
            (Some(a), Some(b)) => Ok(py_val::make_list(joined(a, b))),
            _ => Err(EvalError::TypeError),
        },
        Native::LenList => match list_arg(values, 0) {
            Some(a) => {
                proof {
                    lemma_values_view(a@);
                }
                length(a.len())
            },
            None => Err(EvalError::TypeError),
        },
        Native::GetitemList => match list_arg(values, 0) {
            Some(a) => item(a, values),
            None => Err(EvalError::TypeError),
        },
        Native::PrintString | Native::PrintStringNl => match str_arg(values, 0) {
            Some(_) => Ok(py_val::make_none()),
            None => Err(EvalError::TypeError),
        },
        Native::Range => match int_arg(values, 0) {
            Some(i) => Ok(py_val::make_list(counting(i))),
            None => Err(EvalError::TypeError),
        },
        Native::Panic => Err(EvalError::RuntimeError(Fault::Panic)),
        Native::Not => Ok(py_val::make_bool(values[0].is_false())),
        Native::IsInt => Ok(py_val::make_bool(int_arg(values, 0).is_some())),
        Native::IsFloat => Ok(py_val::make_bool(float_arg(values, 0).is_some())),
        Native::IsString => Ok(py_val::make_bool(str_arg(values, 0).is_some())),
        Native::IsTuple => Ok(py_val::make_bool(tuple_arg(values, 0).is_some())),
        Native::IsList => Ok(py_val::make_bool(list_arg(values, 0).is_some())),
        Native::IsDict | Native::IsSet | Native::IsNone | Native::IsBool => Ok(
            py_val::make_bool(is_kind(n, &values[0])),
        ),
        Native::CmpString => match (str_arg(values, 0), str_arg(values, 1)) {
            (Some(s), Some(t)) => Ok(py_val::make_int(order_text(s, t))),
            _ => Err(EvalError::TypeError),
        },
        _ => int_binary(n, values),
    }
}

/// Whether a value is of the kind that a type test asks for.
fn is_kind(n: Native, v: &py_val_t) -> (r: bool)
    requires
        n == Native::IsDict || n == Native::IsSet || n == Native::IsNone || n == Native::IsBool,
    ensures
        r == match n {
            Native::IsDict => v@ is Dict,
            Native::IsSet => v@ is SetValue,
            Native::IsNone => v@ is NoneValue,
            _ => v@ is True || v@ is False,
        },
{
    proof {
        lemma_value_view(&**v);
    }
    match (n, &**v) {
        (Native::IsDict, py_val::Dict(_)) => true,
        (Native::IsSet, py_val::SetValue(_)) => true,
        (Native::IsNone, py_val::NoneValue) => true,
        (Native::IsBool, py_val::True) => true,
        (Native::IsBool, py_val::False) => true,
        _ => false,
    }
}

/// A built-in that asks about floats.
fn float_native(n: Native, values: &Vec<py_val_t>, facts: &Vec<FloatFact>) -> (r: Result<
    py_val_t,
    EvalError,
>)
    requires
        asks_floats(n),
    ensures
        agrees(r, native_value(n, values_view(values@), facts_view(facts@))),
{
    proof {
        lemma_values_view(values@);
    }
    let arity: usize = match n {
        Native::Itof | Native::Ftoi | Native::ReprFloat => 1,
        _ => 2,
    };
    if values.len() != arity {
        return Err(EvalError::TypeError);
    }
    match n {
        Native::Itof => match int_arg(values, 0) {
            Some(i) => {
                let query = FloatQuery::from_int(i);
                match find_answer(facts, &query) {
                    Some(answer) => Ok(py_val::make_float(answer.bits)),
                    None => Err(EvalError::NeedsFloat(query)),
                }
            },
            None => Err(EvalError::TypeError),
        },
        Native::Ftoi => match float_arg(values, 0) {
            Some(bits) => {
                let query = FloatQuery::unary(FloatOp::Floor, bits);
                match find_answer(facts, &query) {
                    Some(answer) => Ok(py_val::make_int(answer.number)),
                    None => Err(EvalError::NeedsFloat(query)),
                }
            },
            None => Err(EvalError::TypeError),
        },
        Native::ReprFloat => match float_arg(values, 0) {
            Some(bits) => {
                let query = FloatQuery::unary(FloatOp::Repr, bits);
                match find_answer(facts, &query) {
                    Some(answer) => Ok(py_val::make_string(answer.text.clone())),
                    None => Err(EvalError::NeedsFloat(query)),
                }
            },
            None => Err(EvalError::TypeError),
        },
        _ => match (float_arg(values, 0), float_arg(values, 1)) {
            (Some(a), Some(b)) => {
                let op = match n {
                    Native::AddFloat => FloatOp::Add,
                    Native::SubFloat => FloatOp::Sub,
                    Native::MulFloat => FloatOp::Mul,
                    Native::DivFloat => FloatOp::Div,
                    Native::ModFloat => FloatOp::Rem,
                    _ => FloatOp::Compare,
                };
                let query = FloatQuery::binary(op, a, b);
                match find_answer(facts, &query) {
                    Some(answer) => match op {
                        FloatOp::Compare => Ok(py_val::make_int(answer.number)),
                        _ => Ok(py_val::make_float(answer.bits)),
                    },
                    None => Err(EvalError::NeedsFloat(query)),
                }
            },
            _ => Err(EvalError::TypeError),
        },
    }
}

/// Calls a built-in: computes its value and appends what it prints to
/// `out`.
pub fn call_native(n: Native, values: &Vec<py_val_t>, facts: &Vec<FloatFact>, out: &mut String) -> (r:
    Result<py_val_t, EvalError>)
    ensures
        agrees(r, native_value(n, values_view(values@), facts_view(facts@))),
        final(out)@ == old(out)@ + native_text(n, values_view(values@)),
{
    proof {
        lemma_values_view(values@);
        assert(old(out)@ + Seq::<char>::empty() =~= old(out)@);
    }
    match n {
        Native::Itof
        | Native::Ftoi
        | Native::ReprFloat
        | Native::AddFloat
        | Native::SubFloat
        | Native::MulFloat
        | Native::DivFloat
        | Native::ModFloat
        | Native::CmpFloat => float_native(n, values, facts),
        Native::PrintString | Native::PrintStringNl => {
            if values.len() == 1 {
                match str_arg(values, 0) {
                    Some(s) => {
                        out.append(s.as_str());
                        if matches!(n, Native::PrintStringNl) {
                            out.push('\n');
                        }
                        proof {
                            assert(final(out)@ =~= old(out)@ + native_text(n, values_view(values@)));
                        }
                    },
                    None => {},
                }
            }
            pure_native(n, values)
        },
        _ => pure_native(n, values),
    }
}

pub fn ntv_itof(values: Vec<py_val_t>, facts: &Vec<FloatFact>) -> (r: Result<py_val_t, EvalError>)
    ensures
        agrees(r, native_value(Native::Itof, values_view(values@), facts_view(facts@))),
{
    float_native(Native::Itof, &values, facts)
}

pub fn ntv_ftoi(values: Vec<py_val_t>, facts: &Vec<FloatFact>) -> (r: Result<py_val_t, EvalError>)
    ensures
        agrees(r, native_value(Native::Ftoi, values_view(values@), facts_view(facts@))),
{
    float_native(Native::Ftoi, &values, facts)
}

pub fn ntv_repr_int(values: Vec<py_val_t>) -> (r: Result<py_val_t, EvalError>)
    ensures
        agrees(r, pure_result(Native::ReprInt, values_view(values@))),
{
    pure_native(Native::ReprInt, &values)
}

pub fn ntv_repr_float(values: Vec<py_val_t>, facts: &Vec<FloatFact>) -> (r: Result<py_val_t, EvalError>)
    ensures
        agrees(r, native_value(Native::ReprFloat, values_view(values@), facts_view(facts@))),
{
    float_native(Native::ReprFloat, &values, facts)
}

pub fn ntv_add_int(values: Vec<py_val_t>) -> (r: Result<py_val_t, EvalError>)
    ensures
        agrees(r, pure_result(Native::AddInt, values_view(values@))),
{
    pure_native(Native::AddInt, &values)
}

pub fn ntv_sub_int(values: Vec<py_val_t>) -> (r: Result<py_val_t, EvalError>)
    ensures
        agrees(r, pure_result(Native::SubInt, values_view(values@))),
{
    pure_native(Native::SubInt, &values)
}

pub fn ntv_mul_int(values: Vec<py_val_t>) -> (r: Result<py_val_t, EvalError>)
    ensures
        agrees(r, pure_result(Native::MulInt, values_view(values@))),
{
    pure_native(Native::MulInt, &values)
}

pub fn ntv_div_int(values: Vec<py_val_t>) -> (r: Result<py_val_t, EvalError>)
    ensures
        agrees(r, pure_result(Native::DivInt, values_view(values@))),
{
    pure_native(Native::DivInt, &values)
}

pub fn ntv_mod_int(values: Vec<py_val_t>) -> (r: Result<py_val_t, EvalError>)
    ensures
        agrees(r, pure_result(Native::ModInt, values_view(values@))),
{
    pure_native(Native::ModInt, &values)
}

pub fn ntv_cmp_int(values: Vec<py_val_t>) -> (r: Result<py_val_t, EvalError>)
    ensures
        agrees(r, pure_result(Native::CmpInt, values_view(values@))),
{
    pure_native(Native::CmpInt, &values)
}

pub fn ntv_eq_int(values: Vec<py_val_t>) -> (r: Result<py_val_t, EvalError>)
    ensures
        agrees(r, pure_result(Native::EqInt, values_view(values@))),
{
    pure_native(Native::EqInt, &values)
}

pub fn ntv_ne_int(values: Vec<py_val_t>) -> (r: Result<py_val_t, EvalError>)
    ensures
        agrees(r, pure_result(Native::NeInt, values_view(values@))),
{
    pure_native(Native::NeInt, &values)
}

pub fn ntv_gt_int(values: Vec<py_val_t>) -> (r: Result<py_val_t, EvalError>)
    ensures
        agrees(r, pure_result(Native::GtInt, values_view(values@))),
{
    pure_native(Native::GtInt, &values)
}

pub fn ntv_ge_int(values: Vec<py_val_t>) -> (r: Result<py_val_t, EvalError>)
    ensures
        agrees(r, pure_result(Native::GeInt, values_view(values@))),
{
    pure_native(Native::GeInt, &values)
}

pub fn ntv_lt_int(values: Vec<py_val_t>) -> (r: Result<py_val_t, EvalError>)
    ensures
        agrees(r, pure_result(Native::LtInt, values_view(values@))),
{
    pure_native(Native::LtInt, &values)
}

pub fn ntv_le_int(values: Vec<py_val_t>) -> (r: Result<py_val_t, EvalError>)
    ensures
        agrees(r, pure_result(Native::LeInt, values_view(values@))),
{
    pure_native(Native::LeInt, &values)
}

pub fn ntv_invert_int(values: Vec<py_val_t>) -> (r: Result<py_val_t, EvalError>)
    ensures
        agrees(r, pure_result(Native::InvertInt, values_view(values@))),
{
    pure_native(Native::InvertInt, &values)
}

pub fn ntv_and_int(values: Vec<py_val_t>) -> (r: Result<py_val_t, EvalError>)
    ensures
        agrees(r, pure_result(Native::AndInt, values_view(values@))),
{
    pure_native(Native::AndInt, &values)
}

pub fn ntv_or_int(values: Vec<py_val_t>) -> (r: Result<py_val_t, EvalError>)
    ensures
        agrees(r, pure_result(Native::OrInt, values_view(values@))),
{
    pure_native(Native::OrInt, &values)
}

pub fn ntv_xor_int(values: Vec<py_val_t>) -> (r: Result<py_val_t, EvalError>)
    ensures
        agrees(r, pure_result(Native::XorInt, values_view(values@))),
{
    pure_native(Native::XorInt, &values)
}

pub fn ntv_lshift_int(values: Vec<py_val_t>) -> (r: Result<py_val_t, EvalError>)
    ensures
        agrees(r, pure_result(Native::LshiftInt, values_view(values@))),
{
    pure_native(Native::LshiftInt, &values)
}

pub fn ntv_rshift_int(values: Vec<py_val_t>) -> (r: Result<py_val_t, EvalError>)
    ensures
        agrees(r, pure_result(Native::RshiftInt, values_view(values@))),
{
    pure_native(Native::RshiftInt, &values)
}

pub fn ntv_add_float(values: Vec<py_val_t>, facts: &Vec<FloatFact>) -> (r: Result<py_val_t, EvalError>)
    ensures
        agrees(r, native_value(Native::AddFloat, values_view(values@), facts_view(facts@))),
{
    float_native(Native::AddFloat, &values, facts)
}

pub fn ntv_sub_float(values: Vec<py_val_t>, facts: &Vec<FloatFact>) -> (r: Result<py_val_t, EvalError>)
    ensures
        agrees(r, native_value(Native::SubFloat, values_view(values@), facts_view(facts@))),
{
    float_native(Native::SubFloat, &values, facts)
}

pub fn ntv_mul_float(values: Vec<py_val_t>, facts: &Vec<FloatFact>) -> (r: Result<py_val_t, EvalError>)
    ensures
        agrees(r, native_value(Native::MulFloat, values_view(values@), facts_view(facts@))),
{
    float_native(Native::MulFloat, &values, facts)
}

pub fn ntv_div_float(values: Vec<py_val_t>, facts: &Vec<FloatFact>) -> (r: Result<py_val_t, EvalError>)
    ensures
        agrees(r, native_value(Native::DivFloat, values_view(values@), facts_view(facts@))),
{
    float_native(Native::DivFloat, &values, facts)
}

pub fn ntv_mod_float(values: Vec<py_val_t>, facts: &Vec<FloatFact>) -> (r: Result<py_val_t, EvalError>)
    ensures
        agrees(r, native_value(Native::ModFloat, values_view(values@), facts_view(facts@))),
{
    float_native(Native::ModFloat, &values, facts)
}

pub fn ntv_cmp_float(values: Vec<py_val_t>, facts: &Vec<FloatFact>) -> (r: Result<py_val_t, EvalError>)
    ensures
        agrees(r, native_value(Native::CmpFloat, values_view(values@), facts_view(facts@))),
{
    float_native(Native::CmpFloat, &values, facts)
}

pub fn ntv_len_string(values: Vec<py_val_t>) -> (r: Result<py_val_t, EvalError>)
    ensures
        agrees(r, pure_result(Native::LenString, values_view(values@))),
{
    pure_native(Native::LenString, &values)
}

pub fn ntv_add_string(values: Vec<py_val_t>) -> (r: Result<py_val_t, EvalError>)
    ensures
        agrees(r, pure_result(Native::AddString, values_view(values@))),
{
    pure_native(Native::AddString, &values)
}

pub fn ntv_getitem_string(values: Vec<py_val_t>) -> (r: Result<py_val_t, EvalError>)
    ensures
        agrees(r, pure_result(Native::GetitemString, values_view(values@))),
{
    pure_native(Native::GetitemString, &values)
}

pub fn ntv_cmp_string(values: Vec<py_val_t>) -> (r: Result<py_val_t, EvalError>)
    ensures
        agrees(r, pure_result(Native::CmpString, values_view(values@))),
{
    pure_native(Native::CmpString, &values)
}

pub fn ntv_add_tuple(values: Vec<py_val_t>) -> (r: Result<py_val_t, EvalError>)
    ensures
        agrees(r, pure_result(Native::AddTuple, values_view(values@))),
{
    pure_native(Native::AddTuple, &values)
}

pub fn ntv_len_tuple(values: Vec<py_val_t>) -> (r: Result<py_val_t, EvalError>)
    ensures
        agrees(r, pure_result(Native::LenTuple, values_view(values@))),
{
    pure_native(Native::LenTuple, &values)
}

pub fn ntv_getitem_tuple(values: Vec<py_val_t>) -> (r: Result<py_val_t, EvalError>)
    ensures
        agrees(r, pure_result(Native::GetitemTuple, values_view(values@))),
{
    pure_native(Native::GetitemTuple, &values)
}

pub fn ntv_add_list(values: Vec<py_val_t>) -> (r: Result<py_val_t, EvalError>)
    ensures
        agrees(r, pure_result(Native::AddList, values_view(values@))),
{
    pure_native(Native::AddList, &values)
}

pub fn ntv_len_list(values: Vec<py_val_t>) -> (r: Result<py_val_t, EvalError>)
    ensures
        agrees(r, pure_result(Native::LenList, values_view(values@))),
{
    pure_native(Native::LenList, &values)
}

pub fn ntv_getitem_list(values: Vec<py_val_t>) -> (r: Result<py_val_t, EvalError>)
    ensures
        agrees(r, pure_result(Native::GetitemList, values_view(values@))),
{
    pure_native(Native::GetitemList, &values)
}

pub fn ntv_print_string(values: Vec<py_val_t>, out: &mut String) -> (r: Result<py_val_t, EvalError>)
    ensures
        agrees(r, pure_result(Native::PrintString, values_view(values@))),
        final(out)@ == old(out)@ + native_text(Native::PrintString, values_view(values@)),
{
    let facts: Vec<FloatFact> = Vec::new();
    call_native(Native::PrintString, &values, &facts, out)
}

pub fn ntv_print_string_nl(values: Vec<py_val_t>, out: &mut String) -> (r: Result<py_val_t, EvalError>)
    ensures
        agrees(r, pure_result(Native::PrintStringNl, values_view(values@))),
        final(out)@ == old(out)@ + native_text(Native::PrintStringNl, values_view(values@)),
{
    let facts: Vec<FloatFact> = Vec::new();
    call_native(Native::PrintStringNl, &values, &facts, out)
}

pub fn ntv_range(values: Vec<py_val_t>) -> (r: Result<py_val_t, EvalError>)
    ensures
        agrees(r, pure_result(Native::Range, values_view(values@))),
{
    pure_native(Native::Range, &values)
}

pub fn ntv_panic(values: Vec<py_val_t>) -> (r: Result<py_val_t, EvalError>)
    ensures
        agrees(r, pure_result(Native::Panic, values_view(values@))),
{
    pure_native(Native::Panic, &values)
}

pub fn ntv_not(values: Vec<py_val_t>) -> (r: Result<py_val_t, EvalError>)
    ensures
        agrees(r, pure_result(Native::Not, values_view(values@))),
{
    pure_native(Native::Not, &values)
}

pub fn ntv_is_int(values: Vec<py_val_t>) -> (r: Result<py_val_t, EvalError>)
    ensures
        agrees(r, pure_result(Native::IsInt, values_view(values@))),
{
    pure_native(Native::IsInt, &values)
}

pub fn ntv_is_float(values: Vec<py_val_t>) -> (r: Result<py_val_t, EvalError>)
    ensures
        agrees(r, pure_result(Native::IsFloat, values_view(values@))),
{
    pure_native(Native::IsFloat, &values)
}

pub fn ntv_is_string(values: Vec<py_val_t>) -> (r: Result<py_val_t, EvalError>)
    ensures
        agrees(r, pure_result(Native::IsString, values_view(values@))),
{
    pure_native(Native::IsString, &values)
}

pub fn ntv_is_tuple(values: Vec<py_val_t>) -> (r: Result<py_val_t, EvalError>)
    ensures
        agrees(r, pure_result(Native::IsTuple, values_view(values@))),
{
    pure_native(Native::IsTuple, &values)
}

pub fn ntv_is_list(values: Vec<py_val_t>) -> (r: Result<py_val_t, EvalError>)
    ensures
        agrees(r, pure_result(Native::IsList, values_view(values@))),
{
    pure_native(Native::IsList, &values)
}

pub fn ntv_is_dict(values: Vec<py_val_t>) -> (r: Result<py_val_t, EvalError>)
    ensures
        agrees(r, pure_result(Native::IsDict, values_view(values@))),
{
    pure_native(Native::IsDict, &values)
}

pub fn ntv_is_set(values: Vec<py_val_t>) -> (r: Result<py_val_t, EvalError>)
    ensures
        agrees(r, pure_result(Native::IsSet, values_view(values@))),
{
    pure_native(Native::IsSet, &values)
}

pub fn ntv_is_none(values: Vec<py_val_t>) -> (r: Result<py_val_t, EvalError>)
    ensures
        agrees(r, pure_result(Native::IsNone, values_view(values@))),
{
    pure_native(Native::IsNone, &values)
}

pub fn ntv_is_bool(values: Vec<py_val_t>) -> (r: Result<py_val_t, EvalError>)
    ensures
        agrees(r, pure_result(Native::IsBool, values_view(values@))),
{
    pure_native(Native::IsBool, &values)
}

} // verus!
