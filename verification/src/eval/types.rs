//! The values of the language, and the environments that hold them.
//!
//! Values are shared by reference count. A float is held as the 64 bits of
//! its IEEE-754 form; arithmetic on floats is not done here (see
//! [`crate::eval::floats`]).

#![allow(non_camel_case_types)]

use vstd::prelude::*;
use std::rc::Rc;
use crate::ast::{ASTStmt, StmtV, names_view, stmts_view};

verus! {

/// The built-in functions.
#[derive(Clone, Copy, Debug, PartialEq, Eq, Structural)]
pub enum Native {
    Itof,
    Ftoi,
    ReprInt,
    ReprFloat,
    AddInt,
    SubInt,
    MulInt,
    DivInt,
    ModInt,
    CmpInt,
    EqInt,
    NeInt,
    GtInt,
    GeInt,
    LtInt,
    LeInt,
    InvertInt,
    AndInt,
    OrInt,
    XorInt,
    LshiftInt,
    RshiftInt,
    AddFloat,
    SubFloat,
    MulFloat,
    DivFloat,
    ModFloat,
    CmpFloat,
    LenString,
    AddString,
    GetitemString,
    CmpString,
    AddTuple,
    LenTuple,
    GetitemTuple,
    AddList,
    LenList,
    GetitemList,
    PrintString,
    PrintStringNl,
    Range,
    Panic,
    Not,
    IsInt,
    IsFloat,
    IsString,
    IsTuple,
    IsList,
    IsDict,
    IsSet,
    IsNone,
    IsBool,
}

/// A function that a program defined.
#[derive(Debug, PartialEq)]
pub struct py_func {
    pub name: String,
    pub args: Vec<String>,
    pub stmt: Vec<ASTStmt>,
}

/// A built-in function under the name it is bound to.
#[derive(Debug, PartialEq)]
pub struct py_native_func {
    pub name: String,
    pub arity: usize,
    pub body: Native,
}

/// A value.
#[derive(Debug, PartialEq)]
pub enum py_val {
    Int(i64),
    True,
    False,
    NoneValue,
    /// A float, as its bits.
    Float(u64),
    Str(String),
    Func(py_func),
    NativeFunc(py_native_func),
    List(Vec<py_val_t>),
    Tuple(Vec<py_val_t>),
    /// The pairs of a dict in the order in which their keys first came.
    Dict(Vec<(py_val_t, py_val_t)>),
    /// The elements of a set in the order in which they first came.
    SetValue(Vec<py_val_t>),
}

pub type py_val_t = Rc<py_val>;

/// How a statement ended.
#[derive(Debug, PartialEq)]
pub enum StmtResult {
    Return(py_val_t),
    Continue,
    Break,
    Next,
}

/// A function of a program as contracts see it.
pub struct FuncV {
    pub name: Seq<char>,
    pub args: Seq<Seq<char>>,
    pub body: Seq<StmtV>,
}

/// A built-in function as contracts see it.
pub struct NativeV {
    pub name: Seq<char>,
    pub arity: nat,
    pub body: Native,
}

/// A value as contracts see it.
pub enum ValueV {
    Int(i64),
    True,
    False,
    NoneValue,
    Float(u64),
    Str(Seq<char>),
    Func(FuncV),
    NativeFunc(NativeV),
    List(Seq<ValueV>),
    Tuple(Seq<ValueV>),
    Dict(Seq<(ValueV, ValueV)>),
    SetValue(Seq<ValueV>),
}

/// How a statement ended, as contracts see it.
pub enum StmtResultV {
    Return(ValueV),
    Continue,
    Break,
    Next,
}

#[verifier::opaque]
pub open spec fn values_view(x: Seq<py_val_t>) -> Seq<ValueV>
    decreases x,
{
    Seq::new(
        x.len(),
        |i: int|
            if 0 <= i < x.len() {
                value_view(*x[i])
            } else {
                arbitrary()
            },
    )
}

#[verifier::opaque]
pub open spec fn pairs_view(x: Seq<(py_val_t, py_val_t)>) -> Seq<(ValueV, ValueV)>
    decreases x,
{
    Seq::new(
        x.len(),
        |i: int|
            if 0 <= i < x.len() {
                (value_view(*x[i].0), value_view(*x[i].1))
            } else {
                arbitrary()
            },
    )
}

#[verifier::opaque]
pub open spec fn value_view(v: py_val) -> ValueV
    decreases v,
{
    match v {
        py_val::Int(i) => ValueV::Int(i),
        py_val::True => ValueV::True,
        py_val::False => ValueV::False,
        py_val::NoneValue => ValueV::NoneValue,
        py_val::Float(bits) => ValueV::Float(bits),
        py_val::Str(s) => ValueV::Str(s@),
        py_val::Func(f) => ValueV::Func(
            FuncV { name: f.name@, args: names_view(f.args@), body: stmts_view(f.stmt@) },
        ),
        py_val::NativeFunc(n) => ValueV::NativeFunc(
            NativeV { name: n.name@, arity: n.arity as nat, body: n.body },
        ),
        py_val::List(items) => ValueV::List(values_view(items@)),
        py_val::Tuple(items) => ValueV::Tuple(values_view(items@)),
        py_val::Dict(pairs) => ValueV::Dict(pairs_view(pairs@)),
        py_val::SetValue(items) => ValueV::SetValue(values_view(items@)),
    }
}

impl View for py_val {
    type V = ValueV;

    open spec fn view(&self) -> ValueV {
        value_view(*self)
    }
}

impl View for StmtResult {
    type V = StmtResultV;

    open spec fn view(&self) -> StmtResultV {
        match self {
            StmtResult::Return(v) => StmtResultV::Return(v@),
            StmtResult::Continue => StmtResultV::Continue,
            StmtResult::Break => StmtResultV::Break,
            StmtResult::Next => StmtResultV::Next,
        }
    }
}

/// The view of a value, one level deep.
pub proof fn lemma_value_view(v: &py_val)
    ensures
        v@ == (match *v {
            py_val::Int(i) => ValueV::Int(i),
            py_val::True => ValueV::True,
            py_val::False => ValueV::False,
            py_val::NoneValue => ValueV::NoneValue,
            py_val::Float(bits) => ValueV::Float(bits),
            py_val::Str(s) => ValueV::Str(s@),
            py_val::Func(f) => ValueV::Func(
                FuncV { name: f.name@, args: names_view(f.args@), body: stmts_view(f.stmt@) },
            ),
            py_val::NativeFunc(n) => ValueV::NativeFunc(
                NativeV { name: n.name@, arity: n.arity as nat, body: n.body },
            ),
            py_val::List(items) => ValueV::List(values_view(items@)),
            py_val::Tuple(items) => ValueV::Tuple(values_view(items@)),
            py_val::Dict(pairs) => ValueV::Dict(pairs_view(pairs@)),
            py_val::SetValue(items) => ValueV::SetValue(values_view(items@)),
        }),
{
    reveal(value_view);
    reveal(values_view);
    reveal(pairs_view);
}

/// The view of a run of values goes element by element.
pub proof fn lemma_values_view(v: Seq<py_val_t>)
    ensures
        values_view(v).len() == v.len(),
        forall|i: int| 0 <= i < v.len() ==> #[trigger] values_view(v)[i] == v[i]@,
{
    reveal(value_view);
    reveal(values_view);
    reveal(pairs_view);
}

pub proof fn lemma_values_push(v: Seq<py_val_t>, e: py_val_t)
    ensures
        values_view(v.push(e)) == values_view(v).push(e@),
{
    reveal(value_view);
    reveal(values_view);
    reveal(pairs_view);
    assert(values_view(v.push(e)) =~= values_view(v).push(e@));
}

pub proof fn lemma_values_empty()
    ensures
        values_view(Seq::<py_val_t>::empty()) == Seq::<ValueV>::empty(),
{
    reveal(value_view);
    reveal(values_view);
    reveal(pairs_view);
    assert(values_view(Seq::<py_val_t>::empty()) =~= Seq::<ValueV>::empty());
}

pub proof fn lemma_values_add(a: Seq<py_val_t>, b: Seq<py_val_t>)
    ensures
        values_view(a + b) == values_view(a) + values_view(b),
{
    reveal(value_view);
    reveal(values_view);
    reveal(pairs_view);
    assert(values_view(a + b) =~= values_view(a) + values_view(b));
}

/// The view of a run of pairs goes element by element.
pub proof fn lemma_pairs_view(v: Seq<(py_val_t, py_val_t)>)
    ensures
        pairs_view(v).len() == v.len(),
        forall|i: int| 0 <= i < v.len() ==> #[trigger] pairs_view(v)[i] == (v[i].0@, v[i].1@),
{
    reveal(value_view);
    reveal(values_view);
    reveal(pairs_view);
}

pub proof fn lemma_pairs_push(v: Seq<(py_val_t, py_val_t)>, e: (py_val_t, py_val_t))
    ensures
        pairs_view(v.push(e)) == pairs_view(v).push((e.0@, e.1@)),
{
    reveal(value_view);
    reveal(values_view);
    reveal(pairs_view);
    assert(pairs_view(v.push(e)) =~= pairs_view(v).push((e.0@, e.1@)));
}

pub proof fn lemma_pairs_empty()
    ensures
        pairs_view(Seq::<(py_val_t, py_val_t)>::empty()) == Seq::<(ValueV, ValueV)>::empty(),
{
    reveal(value_view);
    reveal(values_view);
    reveal(pairs_view);
    assert(pairs_view(Seq::<(py_val_t, py_val_t)>::empty()) =~= Seq::<(ValueV, ValueV)>::empty());
}

/// Another handle on the value that `v` points to: `Rc::clone` of the
/// standard library, which yields a pointer to the same allocation, so
/// that the value behind the new handle is the value behind `v`.
#[verifier::external_body]
pub(crate) fn share(v: &py_val_t) -> (r: py_val_t)
    ensures
        r == *v,
{
    Rc::clone(v)
}

/// Whether a value counts as false where a condition is asked for: the
/// integer 0, a float zero, `False`, `None` and the empty string do.
pub open spec fn is_falsy(v: ValueV) -> bool {
    match v {
        ValueV::Int(i) => i == 0,
        ValueV::Float(bits) => bits & 0x7fff_ffff_ffff_ffff == 0,
        ValueV::False => true,
        ValueV::NoneValue => true,
        ValueV::Str(s) => s.len() == 0,
        _ => false,
    }
}

/// Whether a value can be a key of a dict and an element of a set:
/// integers, floats, `True`, `False`, `None` and strings can, and so can
/// tuples of such values.
pub open spec fn hashable(v: ValueV) -> bool
    decreases v, 0nat,
{
    match v {
        ValueV::Int(_) => true,
        ValueV::Float(_) => true,
        ValueV::True => true,
        ValueV::False => true,
        ValueV::NoneValue => true,
        ValueV::Str(_) => true,
        ValueV::Tuple(items) => all_hashable(items, 0),
        _ => false,
    }
}

/// Whether the values of `items` from index `i` on are hashable.
pub open spec fn all_hashable(items: Seq<ValueV>, i: int) -> bool
    decreases items, items.len() - i,
{
    if i < 0 || i >= items.len() {
        true
    } else {
        hashable(items[i]) && all_hashable(items, i + 1)
    }
}

/// Whether the bits are those of a float zero, of either sign.
pub open spec fn float_is_zero(bits: u64) -> bool {
    bits & 0x7fff_ffff_ffff_ffff == 0
}

/// Whether the bits are those of a float that is not a number.
pub open spec fn float_is_nan(bits: u64) -> bool {
    bits & 0x7ff0_0000_0000_0000 == 0x7ff0_0000_0000_0000 && bits & 0x000f_ffff_ffff_ffff != 0
}

/// Whether two floats are the same as keys: those of the same bits are,
/// the two zeros are, and any two that are not numbers are.
pub open spec fn same_float(a: u64, b: u64) -> bool {
    a == b || (float_is_zero(a) && float_is_zero(b)) || (float_is_nan(a) && float_is_nan(b))
}

/// Whether two values are the same as keys. Values of different kinds
/// never are, and only hashable values are.
pub open spec fn same_value(a: ValueV, b: ValueV) -> bool
    decreases a, 0nat,
{
    match (a, b) {
        (ValueV::Int(x), ValueV::Int(y)) => x == y,
        (ValueV::Float(x), ValueV::Float(y)) => same_float(x, y),
        (ValueV::True, ValueV::True) => true,
        (ValueV::False, ValueV::False) => true,
        (ValueV::NoneValue, ValueV::NoneValue) => true,
        (ValueV::Str(s), ValueV::Str(t)) => s == t,
        (ValueV::Tuple(xs), ValueV::Tuple(ys)) => xs.len() == ys.len() && all_same(xs, ys, 0),
        _ => false,
    }
}

/// Whether the values of `xs` and `ys` from index `i` on are the same,
/// pair by pair.
pub open spec fn all_same(xs: Seq<ValueV>, ys: Seq<ValueV>, i: int) -> bool
    decreases xs, xs.len() - i,
{
    if i < 0 || i >= xs.len() || i >= ys.len() {
        true
    } else {
        same_value(xs[i], ys[i]) && all_same(xs, ys, i + 1)
    }
}

/// The index of the first of `keys` from index `i` on that is the same
/// as `key`, or the length of `keys`.
pub open spec fn key_index(keys: Seq<ValueV>, key: ValueV, i: int) -> int
    decreases keys.len() - i,
{
    if i < 0 || i >= keys.len() {
        keys.len() as int
    } else if same_value(keys[i], key) {
        i
    } else {
        key_index(keys, key, i + 1)
    }
}

/// The keys of the pairs of a dict.
pub open spec fn dict_keys(pairs: Seq<(ValueV, ValueV)>) -> Seq<ValueV> {
    Seq::new(pairs.len(), |i: int| pairs[i].0)
}

/// The pairs of a dict with `key` set to `value`: where the dict holds a
/// key that is the same, that key keeps its place and gets the value; else
/// the pair is added behind all others.
pub open spec fn dict_put(pairs: Seq<(ValueV, ValueV)>, key: ValueV, value: ValueV) -> Seq<
    (ValueV, ValueV),
> {
    let i = key_index(dict_keys(pairs), key, 0);
    if 0 <= i < pairs.len() {
        pairs.update(i, (pairs[i].0, value))
    } else {
        pairs.push((key, value))
    }
}

/// The elements of a set with `item` among them.
pub open spec fn set_put(items: Seq<ValueV>, item: ValueV) -> Seq<ValueV> {
    let i = key_index(items, item, 0);
    if 0 <= i < items.len() {
        items
    } else {
        items.push(item)
    }
}

/// The value `True` or `False`.
pub open spec fn bool_value(b: bool) -> ValueV {
    if b {
        ValueV::True
    } else {
        ValueV::False
    }
}

impl py_val {
    /// A shared handle on a value.
    pub fn new(v: py_val) -> (r: py_val_t)
        ensures
            *r == v,
    {
        Rc::new(v)
    }

    /// Whether the value is `None`.
    pub fn is_none(&self) -> (r: bool)
        ensures
            r == (self@ is NoneValue),
    {
        proof {
            lemma_value_view(self);
        }
        match self {
            py_val::NoneValue => true,
            _ => false,
        }
    }

    /// Whether the value counts as true where a condition is asked for.
    pub fn is_true(&self) -> (r: bool)
        ensures
            r == !is_falsy(self@),
    {
        !self.is_false()
    }

    /// Whether the value counts as false where a condition is asked for.
    pub fn is_false(&self) -> (r: bool)
        ensures
            r == is_falsy(self@),
    {
        proof {
            lemma_value_view(self);
        }
        match self {
            py_val::Int(i) => *i == 0,
            py_val::Float(bits) => *bits & 0x7fff_ffff_ffff_ffff == 0,
            py_val::False => true,
            py_val::NoneValue => true,
            py_val::Str(s) => s.as_str().unicode_len() == 0,
            _ => false,
        }
    }

    /// The integer value of `i`.
    pub fn make_int(i: i64) -> (r: py_val_t)
        ensures
            r@ == ValueV::Int(i),
    {
        proof {
            lemma_value_view(&py_val::Int(i));
        }
        py_val::new(py_val::Int(i))
    }

    /// Whether a value is an integer.
    pub fn is_int(v: &py_val_t) -> (r: bool)
        ensures
            r == (v@ is Int),
    {
        proof {
            lemma_value_view(&**v);
        }
        match &**v {
            py_val::Int(_) => true,
            _ => false,
        }
    }

    /// The number that an integer value holds.
    pub fn get_int(v: &py_val_t) -> (i: i64)
        requires
            v@ is Int,
        ensures
            v@ == ValueV::Int(i),
    {
        proof {
            lemma_value_view(&**v);
        }
        match &**v {
            py_val::Int(i) => *i,
            _ => 0,
        }
    }

    /// The sum of two integer values.
    pub fn add_int(lhs: &py_val_t, rhs: &py_val_t) -> (r: py_val_t)
        requires
            lhs@ is Int,
            rhs@ is Int,
            i64::MIN <= lhs@->Int_0 + rhs@->Int_0 <= i64::MAX,
        ensures
            r@ == ValueV::Int((lhs@->Int_0 + rhs@->Int_0) as i64),
    {
        py_val::make_int(py_val::get_int(lhs) + py_val::get_int(rhs))
    }

    /// The string of one character.
    pub fn make_char(c: char) -> (r: py_val_t)
        ensures
            r@ == ValueV::Str(seq![c]),
    {
        let mut s = String::new();
        s.push(c);
        proof {
            assert(s@ =~= seq![c]);
        }
        py_val::make_string(s)
    }

    /// Whether a value is a string of one character.
    pub fn is_char(v: &py_val_t) -> (r: bool)
        ensures
            r == (v@ matches ValueV::Str(s) && s.len() == 1),
    {
        proof {
            lemma_value_view(&**v);
        }
        match &**v {
            py_val::Str(s) => s.as_str().unicode_len() == 1,
            _ => false,
        }
    }

    /// The character of a string of one character.
    pub fn get_char(v: &py_val_t) -> (c: char)
        requires
            v@ matches ValueV::Str(s) && s.len() == 1,
        ensures
            v@ == ValueV::Str(seq![c]),
    {
        proof {
            lemma_value_view(&**v);
        }
        match &**v {
            py_val::Str(s) => {
                let c = s.as_str().get_char(0);
                proof {
                    assert(s@ =~= seq![c]);
                }
                c
            },
            _ => ' ',
        }
    }

    /// `True` or `False`.
    pub fn make_bool(b: bool) -> (r: py_val_t)
        ensures
            r@ == bool_value(b),
    {
        proof {
            lemma_value_view(&py_val::True);
            lemma_value_view(&py_val::False);
        }
        if b {
            py_val::new(py_val::True)
        } else {
            py_val::new(py_val::False)
        }
    }

    /// `None`.
    pub fn make_none() -> (r: py_val_t)
        ensures
            r@ == ValueV::NoneValue,
    {
        proof {
            lemma_value_view(&py_val::NoneValue);
        }
        py_val::new(py_val::NoneValue)
    }

    /// The float with the given 64-bit pattern.
    pub fn make_float(bits: u64) -> (r: py_val_t)
        ensures
            r@ == ValueV::Float(bits),
    {
        proof {
            lemma_value_view(&py_val::Float(bits));
        }
        py_val::new(py_val::Float(bits))
    }

    /// The string value of `s`.
    pub fn make_string(s: String) -> (r: py_val_t)
        ensures
            r@ == ValueV::Str(s@),
    {
        let v = py_val::Str(s);
        proof {
            lemma_value_view(&v);
        }
        py_val::new(v)
    }

    /// The list of `items`.
    pub fn make_list(items: Vec<py_val_t>) -> (r: py_val_t)
        ensures
            r@ == ValueV::List(values_view(items@)),
    {
        let v = py_val::List(items);
        proof {
            lemma_value_view(&v);
        }
        py_val::new(v)
    }

    /// The tuple of `items`.
    pub fn make_tuple(items: Vec<py_val_t>) -> (r: py_val_t)
        ensures
            r@ == ValueV::Tuple(values_view(items@)),
    {
        let v = py_val::Tuple(items);
        proof {
            lemma_value_view(&v);
        }
        py_val::new(v)
    }

    /// The dict of `pairs`, in their order.
    pub fn make_dict(pairs: Vec<(py_val_t, py_val_t)>) -> (r: py_val_t)
        ensures
            r@ == ValueV::Dict(pairs_view(pairs@)),
    {
        let v = py_val::Dict(pairs);
        proof {
            lemma_value_view(&v);
        }
        py_val::new(v)
    }

    /// The set of `items`, in their order.
    pub fn make_set(items: Vec<py_val_t>) -> (r: py_val_t)
        ensures
            r@ == ValueV::SetValue(values_view(items@)),
    {
        let v = py_val::SetValue(items);
        proof {
            lemma_value_view(&v);
        }
        py_val::new(v)
    }

    /// A function of the program.
    pub fn make_func(name: String, args: Vec<String>, stmt: Vec<ASTStmt>) -> (r: py_val_t)
        ensures
            r@ == ValueV::Func(FuncV { name: name@, args: names_view(args@), body: stmts_view(stmt@) }),
    {
        let v = py_val::Func(py_func { name, args, stmt });
        proof {
            lemma_value_view(&v);
        }
        py_val::new(v)
    }

    /// A built-in function.
    pub fn make_native(name: String, arity: usize, body: Native) -> (r: py_val_t)
        ensures
            r@ == ValueV::NativeFunc(NativeV { name: name@, arity: arity as nat, body }),
    {
        let v = py_val::NativeFunc(py_native_func { name, arity, body });
        proof {
            lemma_value_view(&v);
        }
        py_val::new(v)
    }
}

/// What a name is bound to in an environment: a value, or, in the frame
/// of a call, the mark that the name was declared `global`.
#[derive(Debug, PartialEq)]
pub enum Slot {
    Value(py_val_t),
    Global,
}

/// One name and what it is bound to.
#[derive(Debug, PartialEq)]
pub struct Binding {
    pub name: String,
    pub slot: Slot,
}

/// A binding as contracts see it; no value stands for the mark `global`.
pub struct BindingV {
    pub name: Seq<char>,
    pub slot: Option<ValueV>,
}

/// An environment as contracts see it: its bindings, the oldest first.
pub type EnvV = Seq<BindingV>;

impl View for Slot {
    type V = Option<ValueV>;

    open spec fn view(&self) -> Option<ValueV> {
        match self {
            Slot::Value(v) => Some(v@),
            Slot::Global => None,
        }
    }
}

impl View for Binding {
    type V = BindingV;

    open spec fn view(&self) -> BindingV {
        BindingV { name: self.name@, slot: self.slot@ }
    }
}

/// The index of the newest binding of `name` among the first `n`, or -1.
pub open spec fn env_index(env: EnvV, name: Seq<char>, n: int) -> int
    decreases n,
{
    if n <= 0 {
        -1
    } else if env[n - 1].name == name {
        n - 1
    } else {
        env_index(env, name, n - 1)
    }
}

/// What `name` is bound to: the slot of the newest binding of that name.
pub open spec fn env_find(env: EnvV, name: Seq<char>) -> Option<Option<ValueV>> {
    let i = env_index(env, name, env.len() as int);
    if 0 <= i < env.len() {
        Some(env[i].slot)
    } else {
        None
    }
}

/// The environment with `name` bound to `slot`: the newest binding of the
/// name is replaced where it stands, and a name not yet bound is added
/// behind all others.
pub open spec fn env_put(env: EnvV, name: Seq<char>, slot: Option<ValueV>) -> EnvV {
    let i = env_index(env, name, env.len() as int);
    if 0 <= i < env.len() {
        env.update(i, BindingV { name, slot })
    } else {
        env.push(BindingV { name, slot })
    }
}

/// The newest binding of a name stands in range and has that name; none
/// behind it has.
pub proof fn lemma_env_index(env: EnvV, name: Seq<char>, n: int)
    requires
        0 <= n <= env.len(),
    ensures
        -1 <= env_index(env, name, n) < n,
        env_index(env, name, n) >= 0 ==> env[env_index(env, name, n)].name == name,
        forall|j: int| env_index(env, name, n) < j < n ==> env[j].name != name,
    decreases n,
{
    if n > 0 && env[n - 1].name != name {
        lemma_env_index(env, name, n - 1);
    }
}

/// Where two environments bind the same names in the same places, a name
/// is found in the same place in both.
pub proof fn lemma_env_index_names(a: EnvV, b: EnvV, name: Seq<char>, n: int)
    requires
        0 <= n <= a.len(),
        n <= b.len(),
        forall|i: int| 0 <= i < n ==> a[i].name == b[i].name,
    ensures
        env_index(a, name, n) == env_index(b, name, n),
    decreases n,
{
    if n > 0 {
        lemma_env_index_names(a, b, name, n - 1);
    }
}

/// A name reads back what it was bound to last.
pub proof fn lemma_find_put_same(env: EnvV, name: Seq<char>, slot: Option<ValueV>)
    ensures
        env_find(env_put(env, name, slot), name) == Some(slot),
{
    let n = env.len() as int;
    lemma_env_index(env, name, n);
    let after = env_put(env, name, slot);
    if env_index(env, name, n) >= 0 {
        lemma_env_index_names(env, after, name, n);
    }
}

/// Binding one name leaves every other name as it was.
pub proof fn lemma_find_put_other(env: EnvV, name: Seq<char>, slot: Option<ValueV>, other: Seq<char>)
    requires
        other != name,
    ensures
        env_find(env_put(env, name, slot), other) == env_find(env, other),
{
    let n = env.len() as int;
    lemma_env_index(env, name, n);
    lemma_env_index(env, other, n);
    let after = env_put(env, name, slot);
    lemma_env_index_names(env, after, other, n);
}

/// The views of a run of bindings.
#[verifier::opaque]
pub open spec fn env_view(entries: Seq<Binding>) -> EnvV {
    Seq::new(entries.len(), |i: int| entries[i]@)
}

/// An environment: names and what they are bound to.
pub struct Env {
    entries: Vec<Binding>,
}

impl View for Env {
    type V = EnvV;

    closed spec fn view(&self) -> EnvV {
        env_view(self.entries@)
    }
}

impl Env {
    /// An environment that binds nothing.
    pub fn new() -> (env: Env)
        ensures
            env@ == Seq::<BindingV>::empty(),
    {
        let env = Env { entries: Vec::new() };
        proof {
            reveal(env_view);
            assert(env@ =~= Seq::<BindingV>::empty());
        }
        env
    }

    /// Where the newest binding of `name` stands, if the name is bound.
    fn position(&self, name: &String) -> (r: Option<usize>)
        ensures
            match r {
                Some(i) => i == env_index(self@, name@, self@.len() as int) && i < self.entries@.len(),
                None => env_index(self@, name@, self@.len() as int) == -1,
            },
            self@.len() == self.entries@.len(),
    {
        proof {
            reveal(env_view);
        }
        let mut i = self.entries.len();
        while i > 0
            invariant
                i <= self.entries@.len(),
                self@ == env_view(self.entries@),
                self@.len() == self.entries@.len(),
                env_index(self@, name@, self@.len() as int) == env_index(self@, name@, i as int),
            decreases i,
        {
            proof {
                reveal(env_view);
            }
            if self.entries[i - 1].name == *name {
                return Some(i - 1);
            }
            i = i - 1;
        }
        None
    }

    /// What `name` is bound to.
    pub fn get(&self, name: &String) -> (r: Option<&Slot>)
        ensures
            match r {
                Some(slot) => env_find(self@, name@) == Some(slot@),
                None => env_find(self@, name@) is None,
            },
    {
        proof {
            lemma_env_index(self@, name@, self@.len() as int);
            reveal(env_view);
        }
        match self.position(name) {
            Some(i) => Some(&self.entries[i].slot),
            None => None,
        }
    }

    /// Binds `name` to `slot`.
    pub fn put(&mut self, name: String, slot: Slot)
        ensures
            final(self)@ == env_put(old(self)@, name@, slot@),
    {
        proof {
            lemma_env_index(self@, name@, self@.len() as int);
            reveal(env_view);
        }
        match self.position(&name) {
            Some(i) => {
                self.entries.set(i, Binding { name, slot });
                proof {
                    assert(self@ =~= old(self)@.update(
                        i as int,
                        BindingV { name: name@, slot: slot@ },
                    ));
                }
            },
            None => {
                self.entries.push(Binding { name, slot });
                proof {
                    assert(self@ =~= old(self)@.push(BindingV { name: name@, slot: slot@ }));
                }
            },
        }
    }

    /// How many names are bound.
    pub fn len(&self) -> (n: usize)
        ensures
            n == self@.len(),
    {
        proof {
            reveal(env_view);
        }
        self.entries.len()
    }
}

/// Whether a value can be a key of a dict and an element of a set.
pub fn is_hashable(v: &py_val) -> (r: bool)
    ensures
        r == hashable(v@),
    decreases v,
{
    proof {
        lemma_value_view(v);
    }
    match v {
        py_val::Int(_)
        | py_val::Float(_)
        | py_val::True
        | py_val::False
        | py_val::NoneValue
        | py_val::Str(_) => true,
        py_val::Tuple(items) => {
            proof {
                lemma_values_view(items@);
            }
            let mut i: usize = items.len();
            while i > 0
                invariant
                    i <= items.len(),
                    v is Tuple,
                    *items == v->Tuple_0,
                    v@ == ValueV::Tuple(values_view(items@)),
                    values_view(items@).len() == items@.len(),
                    forall|k: int| 0 <= k < items@.len() ==> #[trigger] values_view(items@)[k]
                        == items@[k]@,
                    all_hashable(values_view(items@), i as int),
                decreases i,
            {
                if !is_hashable(&items[i - 1]) {
                    proof {
                        lemma_not_all_hashable(values_view(items@), (i - 1) as int, 0);
                    }
                    return false;
                }
                i = i - 1;
            }
            true
        },
        _ => false,
    }
}

/// Where one value is not hashable, the run it stands in is not.
pub proof fn lemma_not_all_hashable(items: Seq<ValueV>, bad: int, i: int)
    requires
        0 <= i <= bad < items.len(),
        !hashable(items[bad]),
    ensures
        !all_hashable(items, i),
    decreases bad - i,
{
    if i < bad {
        lemma_not_all_hashable(items, bad, i + 1);
    }
}

/// Whether two floats are the same as keys.
pub fn floats_same(a: u64, b: u64) -> (r: bool)
    ensures
        r == same_float(a, b),
{
    let a_zero = a & 0x7fff_ffff_ffff_ffff == 0;
    let b_zero = b & 0x7fff_ffff_ffff_ffff == 0;
    let a_nan = a & 0x7ff0_0000_0000_0000 == 0x7ff0_0000_0000_0000 && a & 0x000f_ffff_ffff_ffff
        != 0;
    let b_nan = b & 0x7ff0_0000_0000_0000 == 0x7ff0_0000_0000_0000 && b & 0x000f_ffff_ffff_ffff
        != 0;
    a == b || (a_zero && b_zero) || (a_nan && b_nan)
}

/// Whether two values are the same as keys.
pub fn values_same(a: &py_val, b: &py_val) -> (r: bool)
    ensures
        r == same_value(a@, b@),
    decreases a,
{
    proof {
        lemma_value_view(a);
        lemma_value_view(b);
    }
    match (a, b) {
        (py_val::Int(x), py_val::Int(y)) => *x == *y,
        (py_val::Float(x), py_val::Float(y)) => floats_same(*x, *y),
        (py_val::True, py_val::True) => true,
        (py_val::False, py_val::False) => true,
        (py_val::NoneValue, py_val::NoneValue) => true,
        (py_val::Str(s), py_val::Str(t)) => *s == *t,
        (py_val::Tuple(xs), py_val::Tuple(ys)) => {
            proof {
                lemma_values_view(xs@);
                lemma_values_view(ys@);
            }
            if xs.len() != ys.len() {
                return false;
            }
            let mut i: usize = xs.len();
            while i > 0
                invariant
                    i <= xs.len(),
                    xs.len() == ys.len(),
                    a is Tuple,
                    *xs == a->Tuple_0,
                    a@ == ValueV::Tuple(values_view(xs@)),
                    b@ == ValueV::Tuple(values_view(ys@)),
                    values_view(xs@).len() == xs@.len(),
                    values_view(ys@).len() == ys@.len(),
                    forall|k: int| 0 <= k < xs@.len() ==> #[trigger] values_view(xs@)[k] == xs@[k]@,
                    forall|k: int| 0 <= k < ys@.len() ==> #[trigger] values_view(ys@)[k] == ys@[k]@,
                    all_same(values_view(xs@), values_view(ys@), i as int),
                decreases i,
            {
                if !values_same(&xs[i - 1], &ys[i - 1]) {
                    proof {
                        lemma_not_all_same(values_view(xs@), values_view(ys@), (i - 1) as int, 0);
                    }
                    return false;
                }
                i = i - 1;
            }
            true
        },
        _ => false,
    }
}

/// Where one pair of values is not the same, the runs they stand in are
/// not.
pub proof fn lemma_not_all_same(xs: Seq<ValueV>, ys: Seq<ValueV>, bad: int, i: int)
    requires
        0 <= i <= bad < xs.len(),
        bad < ys.len(),
        !same_value(xs[bad], ys[bad]),
    ensures
        !all_same(xs, ys, i),
    decreases bad - i,
{
    if i < bad {
        lemma_not_all_same(xs, ys, bad, i + 1);
    }
}

/// The pairs of a dict with `key` set to `value`.
pub fn put_pair(pairs: &mut Vec<(py_val_t, py_val_t)>, key: py_val_t, value: py_val_t)
    ensures
        pairs_view(final(pairs)@) == dict_put(pairs_view(old(pairs)@), key@, value@),
{
    proof {
        lemma_pairs_view(pairs@);
    }
    let ghost keys = dict_keys(pairs_view(pairs@));
    let mut i: usize = 0;
    while i < pairs.len()
        invariant
            i <= pairs.len(),
            pairs == old(pairs),
            keys == dict_keys(pairs_view(pairs@)),
            keys.len() == pairs@.len(),
            forall|k: int| 0 <= k < pairs@.len() ==> #[trigger] keys[k] == pairs@[k].0@,
            key_index(keys, key@, 0) == key_index(keys, key@, i as int),
        decreases pairs.len() - i,
    {
        if values_same(&pairs[i].0, &key) {
            let kept = share(&pairs[i].0);
            proof {
                lemma_pairs_view(pairs@);
            }
            pairs.set(i, (kept, value));
            proof {
                lemma_pairs_view(pairs@);
                assert(pairs_view(pairs@) =~= dict_put(pairs_view(old(pairs)@), key@, value@));
            }
            return ;
        }
        i = i + 1;
    }
    proof {
        lemma_pairs_push(pairs@, (key, value));
    }
    pairs.push((key, value));
}

/// The elements of a set with `item` among them.
pub fn put_item(items: &mut Vec<py_val_t>, item: py_val_t)
    ensures
        values_view(final(items)@) == set_put(values_view(old(items)@), item@),
{
    proof {
        lemma_values_view(items@);
    }
    let mut i: usize = 0;
    while i < items.len()
        invariant
            i <= items.len(),
            items == old(items),
            values_view(items@).len() == items@.len(),
            forall|k: int| 0 <= k < items@.len() ==> #[trigger] values_view(items@)[k]
                == items@[k]@,
            key_index(values_view(items@), item@, 0) == key_index(
                values_view(items@),
                item@,
                i as int,
            ),
        decreases items.len() - i,
    {
        if values_same(&items[i], &item) {
            return ;
        }
        i = i + 1;
    }
    proof {
        lemma_values_push(items@, item);
    }
    items.push(item);
}

} // verus!
