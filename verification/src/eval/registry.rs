//! The table of built-in functions, and the global environment that a
//! program starts in.

use vstd::prelude::*;
use crate::eval::builtins::{native_arity, native_name};
use crate::eval::types::{Env, EnvV, Native, NativeV, Slot, ValueV, env_put, py_val};

verus! {

/// How many built-in functions there are.
pub const NATIVE_COUNT: usize = 52;

/// The built-in functions in the order in which they are bound: the one
/// at index `i`.
pub open spec fn native_at(i: int) -> Native {
    if i == 0 {
        Native::Itof
    } else if i == 1 {
        Native::Ftoi
    } else if i == 2 {
        Native::ReprInt
    } else if i == 3 {
        Native::ReprFloat
    } else if i == 4 {
        Native::AddInt
    } else if i == 5 {
        Native::SubInt
    } else if i == 6 {
        Native::MulInt
    } else if i == 7 {
        Native::DivInt
    } else if i == 8 {
        Native::ModInt
    } else if i == 9 {
        Native::CmpInt
    } else if i == 10 {
        Native::EqInt
    } else if i == 11 {
        Native::NeInt
    } else if i == 12 {
        Native::GtInt
    } else if i == 13 {
        Native::GeInt
    } else if i == 14 {
        Native::LtInt
    } else if i == 15 {
        Native::LeInt
    } else if i == 16 {
        Native::InvertInt
    } else if i == 17 {
        Native::AndInt
    } else if i == 18 {
        Native::OrInt
    } else if i == 19 {
        Native::XorInt
    } else if i == 20 {
        Native::LshiftInt
    } else if i == 21 {
        Native::RshiftInt
    } else if i == 22 {
        Native::AddFloat
    } else if i == 23 {
        Native::SubFloat
    } else if i == 24 {
        Native::MulFloat
    } else if i == 25 {
        Native::DivFloat
    } else if i == 26 {
        Native::ModFloat
    } else if i == 27 {
        Native::CmpFloat
    } else if i == 28 {
        Native::LenString
    } else if i == 29 {
        Native::AddString
    } else if i == 30 {
        Native::GetitemString
    } else if i == 31 {
        Native::CmpString
    } else if i == 32 {
        Native::AddTuple
    } else if i == 33 {
        Native::LenTuple
    } else if i == 34 {
        Native::GetitemTuple
    } else if i == 35 {
        Native::AddList
    } else if i == 36 {
        Native::LenList
    } else if i == 37 {
        Native::GetitemList
    } else if i == 38 {
        Native::PrintString
    } else if i == 39 {
        Native::PrintStringNl
    } else if i == 40 {
        Native::Range
    } else if i == 41 {
        Native::Panic
    } else if i == 42 {
        Native::Not
    } else if i == 43 {
        Native::IsInt
    } else if i == 44 {
        Native::IsFloat
    } else if i == 45 {
        Native::IsString
    } else if i == 46 {
        Native::IsTuple
    } else if i == 47 {
        Native::IsList
    } else if i == 48 {
        Native::IsDict
    } else if i == 49 {
        Native::IsSet
    } else if i == 50 {
        Native::IsNone
    } else {
        Native::IsBool
    }
}

/// The value that a built-in is bound to.
pub open spec fn native_function(n: Native) -> ValueV {
    ValueV::NativeFunc(NativeV { name: native_name(n), arity: native_arity(n), body: n })
}

/// The environment that binds the first `count` built-ins of the table,
/// each under its name.
pub open spec fn native_globals(count: int) -> EnvV
    decreases count,
{
    if count <= 0 {
        Seq::empty()
    } else {
        env_put(
            native_globals(count - 1),
            native_name(native_at(count - 1)),
            Some(native_function(native_at(count - 1))),
        )
    }
}

/// The name that a built-in is bound to before a program runs.
pub fn name_of(n: Native) -> (name: &'static str)
    ensures
        name@ == native_name(n),
{
    match n {
        Native::Itof => "__itof__",
        Native::Ftoi => "__ftoi__",
        Native::ReprInt => "__repr_int__",
        Native::ReprFloat => "__repr_float__",
        Native::AddInt => "__add_int__",
        Native::SubInt => "__sub_int__",
        Native::MulInt => "__mul_int__",
        Native::DivInt => "__div_int__",
        Native::ModInt => "__mod_int__",
        Native::CmpInt => "__cmp_int__",
        Native::EqInt => "__eq_int__",
        Native::NeInt => "__ne_int__",
        Native::GtInt => "__gt_int__",
        Native::GeInt => "__ge_int__",
        Native::LtInt => "__lt_int__",
        Native::LeInt => "__le_int__",
        Native::InvertInt => "__invert_int__",
        Native::AndInt => "__and_int__",
        Native::OrInt => "__or_int__",
        Native::XorInt => "__xor_int__",
        Native::LshiftInt => "__lshift_int__",
        Native::RshiftInt => "__rshift_int__",
        Native::AddFloat => "__add_float__",
        Native::SubFloat => "__sub_float__",
        Native::MulFloat => "__mul_float__",
        Native::DivFloat => "__div_float__",
        Native::ModFloat => "__mod_float__",
        Native::CmpFloat => "__cmp_float__",
        Native::LenString => "__len_string__",
        Native::AddString => "__add_string__",
        Native::GetitemString => "__getitem_string__",
        Native::CmpString => "__cmp_string__",
        Native::AddTuple => "__add_tuple__",
        Native::LenTuple => "__len_tuple__",
        Native::GetitemTuple => "__getitem_tuple__",
        Native::AddList => "__add_list__",
        Native::LenList => "__len_list__",
        Native::GetitemList => "__getitem_list__",
        Native::PrintString => "__print__",
        Native::PrintStringNl => "__print_nl__",
        Native::Range => "__range__",
        Native::Panic => "__panic__",
        Native::Not => "__not__",
        Native::IsInt => "__is_int__",
        Native::IsFloat => "__is_float__",
        Native::IsString => "__is_string__",
        Native::IsTuple => "__is_tuple__",
        Native::IsList => "__is_list__",
        Native::IsDict => "__is_dict__",
        Native::IsSet => "__is_set__",
        Native::IsNone => "__is_none__",
        Native::IsBool => "__is_bool__",
    }
}

/// How many arguments a built-in takes.
pub fn arity_of(n: Native) -> (arity: usize)
    ensures
        arity == native_arity(n),
{
    match n {
        Native::Itof => 1,
        Native::Ftoi => 1,
        Native::ReprInt => 1,
        Native::ReprFloat => 1,
        Native::AddInt => 2,
        Native::SubInt => 2,
        Native::MulInt => 2,
        Native::DivInt => 2,
        Native::ModInt => 2,
        Native::CmpInt => 2,
        Native::EqInt => 2,
        Native::NeInt => 2,
        Native::GtInt => 2,
        Native::GeInt => 2,
        Native::LtInt => 2,
        Native::LeInt => 2,
        Native::InvertInt => 1,
        Native::AndInt => 2,
        Native::OrInt => 2,
        Native::XorInt => 2,
        Native::LshiftInt => 2,
        Native::RshiftInt => 2,
        Native::AddFloat => 2,
        Native::SubFloat => 2,
        Native::MulFloat => 2,
        Native::DivFloat => 2,
        Native::ModFloat => 2,
        Native::CmpFloat => 2,
        Native::LenString => 1,
        Native::AddString => 2,
        Native::GetitemString => 2,
        Native::CmpString => 2,
        Native::AddTuple => 2,
        Native::LenTuple => 1,
        Native::GetitemTuple => 2,
        Native::AddList => 2,
        Native::LenList => 1,
        Native::GetitemList => 2,
        Native::PrintString => 1,
        Native::PrintStringNl => 1,
        Native::Range => 1,
        Native::Panic => 0,
        Native::Not => 1,
        Native::IsInt => 1,
        Native::IsFloat => 1,
        Native::IsString => 1,
        Native::IsTuple => 1,
        Native::IsList => 1,
        Native::IsDict => 1,
        Native::IsSet => 1,
        Native::IsNone => 1,
        Native::IsBool => 1,
    }
}

/// The built-in at index `i` of the order in which they are bound.
pub fn native_number(i: usize) -> (n: Native)
    requires
        i < NATIVE_COUNT,
    ensures
        n == native_at(i as int),
{
    match i {
        0 => Native::Itof,
        1 => Native::Ftoi,
        2 => Native::ReprInt,
        3 => Native::ReprFloat,
        4 => Native::AddInt,
        5 => Native::SubInt,
        6 => Native::MulInt,
        7 => Native::DivInt,
        8 => Native::ModInt,
        9 => Native::CmpInt,
        10 => Native::EqInt,
        11 => Native::NeInt,
        12 => Native::GtInt,
        13 => Native::GeInt,
        14 => Native::LtInt,
        15 => Native::LeInt,
        16 => Native::InvertInt,
        17 => Native::AndInt,
        18 => Native::OrInt,
        19 => Native::XorInt,
        20 => Native::LshiftInt,
        21 => Native::RshiftInt,
        22 => Native::AddFloat,
        23 => Native::SubFloat,
        24 => Native::MulFloat,
        25 => Native::DivFloat,
        26 => Native::ModFloat,
        27 => Native::CmpFloat,
        28 => Native::LenString,
        29 => Native::AddString,
        30 => Native::GetitemString,
        31 => Native::CmpString,
        32 => Native::AddTuple,
        33 => Native::LenTuple,
        34 => Native::GetitemTuple,
        35 => Native::AddList,
        36 => Native::LenList,
        37 => Native::GetitemList,
        38 => Native::PrintString,
        39 => Native::PrintStringNl,
        40 => Native::Range,
        41 => Native::Panic,
        42 => Native::Not,
        43 => Native::IsInt,
        44 => Native::IsFloat,
        45 => Native::IsString,
        46 => Native::IsTuple,
        47 => Native::IsList,
        48 => Native::IsDict,
        49 => Native::IsSet,
        50 => Native::IsNone,
        _ => Native::IsBool,
    }
}

/// The environment that binds every built-in under its name.
pub fn native_env() -> (env: Env)
    ensures
        env@ == native_globals(NATIVE_COUNT as int),
{
    let mut env = Env::new();
    let mut i: usize = 0;
    while i < NATIVE_COUNT
        invariant
            i <= NATIVE_COUNT,
            env@ == native_globals(i as int),
        decreases NATIVE_COUNT - i,
    {
        let n = native_number(i);
        let name = name_of(n);
        env.put(name.to_owned(), Slot::Value(py_val::make_native(name.to_owned(), arity_of(n), n)));
        i = i + 1;
    }
    env
}

} // verus!
