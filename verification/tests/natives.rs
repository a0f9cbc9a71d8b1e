use minipython::errors::{EvalError, Fault};
use minipython::eval::floats::{FloatAnswer, FloatFact, FloatOp, FloatQuery};
use minipython::eval::native_func::{
    ntv_add_float, ntv_div_float, ntv_mod_float, ntv_mul_float, ntv_sub_float, ntv_add_int, ntv_add_list, ntv_add_string, ntv_add_tuple, ntv_and_int,
    ntv_cmp_float, ntv_cmp_int, ntv_cmp_string, ntv_div_int, ntv_eq_int, ntv_ftoi, ntv_ge_int,
    ntv_getitem_list, ntv_getitem_string, ntv_getitem_tuple, ntv_gt_int, ntv_invert_int, ntv_is_bool,
    ntv_is_dict, ntv_is_float, ntv_is_int, ntv_is_list, ntv_is_none, ntv_is_set, ntv_is_string,
    ntv_is_tuple, ntv_itof, ntv_le_int, ntv_len_list, ntv_len_string, ntv_len_tuple, ntv_lshift_int,
    ntv_lt_int, ntv_mod_int, ntv_mul_int, ntv_ne_int, ntv_not, ntv_or_int, ntv_panic,
    ntv_print_string, ntv_print_string_nl, ntv_range, ntv_repr_float, ntv_repr_int, ntv_rshift_int,
    ntv_sub_int, ntv_xor_int, repr_int,
};
use minipython::eval::types::{py_val, py_val_t, Binding, Env, Slot};

fn num(i: i64) -> py_val_t {
    py_val::make_int(i)
}

fn text(s: &str) -> py_val_t {
    py_val::make_string(String::from(s))
}

#[test]
fn integer_built_ins() {
    assert_eq!(ntv_add_int(vec![num(4), num(5)]), Ok(num(9)));
    assert_eq!(ntv_sub_int(vec![num(4), num(5)]), Ok(num(-1)));
    assert_eq!(ntv_mul_int(vec![num(4), num(5)]), Ok(num(20)));
    assert_eq!(ntv_div_int(vec![num(-9), num(2)]), Ok(num(-4)));
    assert_eq!(ntv_mod_int(vec![num(-9), num(2)]), Ok(num(-1)));
    assert_eq!(ntv_and_int(vec![num(6), num(3)]), Ok(num(2)));
    assert_eq!(ntv_or_int(vec![num(6), num(3)]), Ok(num(7)));
    assert_eq!(ntv_xor_int(vec![num(6), num(3)]), Ok(num(5)));
    assert_eq!(ntv_lshift_int(vec![num(1), num(63)]), Ok(num(i64::MIN)));
    assert_eq!(ntv_rshift_int(vec![num(-8), num(1)]), Ok(num(-4)));
    assert_eq!(ntv_invert_int(vec![num(0)]), Ok(num(-1)));
    assert_eq!(ntv_cmp_int(vec![num(1), num(2)]), Ok(num(-1)));
    assert_eq!(ntv_cmp_int(vec![num(2), num(2)]), Ok(num(0)));
    assert_eq!(ntv_cmp_int(vec![num(3), num(2)]), Ok(num(1)));
    assert_eq!(ntv_eq_int(vec![num(3), num(3)]), Ok(py_val::make_bool(true)));
    assert_eq!(ntv_ne_int(vec![num(3), num(3)]), Ok(py_val::make_bool(false)));
    assert_eq!(ntv_gt_int(vec![num(3), num(2)]), Ok(py_val::make_bool(true)));
    assert_eq!(ntv_ge_int(vec![num(2), num(3)]), Ok(py_val::make_bool(false)));
    assert_eq!(ntv_lt_int(vec![num(2), num(3)]), Ok(py_val::make_bool(true)));
    assert_eq!(ntv_le_int(vec![num(3), num(3)]), Ok(py_val::make_bool(true)));
}

#[test]
fn integer_built_ins_fail_cleanly() {
    assert_eq!(ntv_add_int(vec![num(i64::MAX), num(1)]), Err(EvalError::RuntimeError(Fault::Overflow)));
    assert_eq!(ntv_sub_int(vec![num(i64::MIN), num(1)]), Err(EvalError::RuntimeError(Fault::Overflow)));
    assert_eq!(ntv_mul_int(vec![num(i64::MAX), num(2)]), Err(EvalError::RuntimeError(Fault::Overflow)));
    assert_eq!(ntv_div_int(vec![num(i64::MIN), num(-1)]), Err(EvalError::RuntimeError(Fault::Overflow)));
    assert_eq!(ntv_div_int(vec![num(i64::MIN), num(1)]), Ok(num(i64::MIN)));
    assert_eq!(ntv_mod_int(vec![num(i64::MIN), num(-1)]), Ok(num(0)));
    assert_eq!(ntv_div_int(vec![num(1), num(0)]), Err(EvalError::ZeroDivisionError));
    assert_eq!(ntv_mod_int(vec![num(1), num(0)]), Err(EvalError::ZeroDivisionError));
    assert_eq!(ntv_lshift_int(vec![num(1), num(64)]), Err(EvalError::RuntimeError(Fault::Overflow)));
    assert_eq!(ntv_add_int(vec![num(1)]), Err(EvalError::TypeError));
    assert_eq!(ntv_add_int(vec![num(1), text("a")]), Err(EvalError::TypeError));
    assert_eq!(ntv_add_int(vec![py_val::make_bool(true), num(1)]), Err(EvalError::TypeError));
    assert_eq!(ntv_panic(vec![]), Err(EvalError::RuntimeError(Fault::Panic)));
}

#[test]
fn decimal_form_of_integers() {
    assert_eq!(repr_int(0), "0");
    assert_eq!(repr_int(9), "9");
    assert_eq!(repr_int(10), "10");
    assert_eq!(repr_int(-1), "-1");
    assert_eq!(repr_int(i64::MAX), "9223372036854775807");
    assert_eq!(repr_int(i64::MIN), "-9223372036854775808");
    assert_eq!(ntv_repr_int(vec![num(-120)]), Ok(text("-120")));
}

#[test]
fn string_built_ins() {
    assert_eq!(ntv_len_string(vec![text("abc")]), Ok(num(3)));
    assert_eq!(ntv_len_string(vec![text("")]), Ok(num(0)));
    assert_eq!(ntv_add_string(vec![text("ab"), text("cd")]), Ok(text("abcd")));
    assert_eq!(ntv_getitem_string(vec![text("abc"), num(2)]), Ok(text("c")));
    assert_eq!(ntv_getitem_string(vec![text("abc"), num(3)]), Err(EvalError::IndexError));
    assert_eq!(ntv_getitem_string(vec![text("abc"), num(-1)]), Err(EvalError::IndexError));
    assert_eq!(ntv_cmp_string(vec![text("a"), text("b")]), Ok(num(-1)));
    assert_eq!(ntv_cmp_string(vec![text("b"), text("a")]), Ok(num(1)));
    assert_eq!(ntv_cmp_string(vec![text("ab"), text("ab")]), Ok(num(0)));
    assert_eq!(ntv_cmp_string(vec![text("ab"), text("abc")]), Ok(num(-1)));
    assert_eq!(ntv_cmp_string(vec![text("abc"), text("ab")]), Ok(num(1)));
    assert_eq!(ntv_add_string(vec![text("ab"), num(1)]), Err(EvalError::TypeError));
}

#[test]
fn tuple_and_list_built_ins() {
    let t = py_val::make_tuple(vec![num(1), num(2)]);
    let u = py_val::make_tuple(vec![num(3)]);
    assert_eq!(ntv_add_tuple(vec![t.clone(), u.clone()]), Ok(py_val::make_tuple(vec![num(1), num(2), num(3)])));
    assert_eq!(ntv_len_tuple(vec![t.clone()]), Ok(num(2)));
    assert_eq!(ntv_getitem_tuple(vec![t.clone(), num(1)]), Ok(num(2)));
    assert_eq!(ntv_getitem_tuple(vec![t.clone(), num(2)]), Err(EvalError::IndexError));
    let l = py_val::make_list(vec![num(1)]);
    let m = py_val::make_list(vec![num(2), num(3)]);
    assert_eq!(ntv_add_list(vec![l.clone(), m.clone()]), Ok(py_val::make_list(vec![num(1), num(2), num(3)])));
    assert_eq!(ntv_len_list(vec![m.clone()]), Ok(num(2)));
    assert_eq!(ntv_getitem_list(vec![m.clone(), num(0)]), Ok(num(2)));
    assert_eq!(ntv_add_list(vec![l, t]), Err(EvalError::TypeError));
    assert_eq!(ntv_range(vec![num(3)]), Ok(py_val::make_list(vec![num(0), num(1), num(2)])));
    assert_eq!(ntv_range(vec![num(-1)]), Ok(py_val::make_list(vec![])));
}

#[test]
fn printing_appends_to_the_buffer() {
    let mut out = String::from("> ");
    assert_eq!(ntv_print_string(vec![text("a")], &mut out), Ok(py_val::make_none()));
    assert_eq!(out, "> a");
    assert_eq!(ntv_print_string_nl(vec![text("b")], &mut out), Ok(py_val::make_none()));
    assert_eq!(out, "> ab\n");
    assert_eq!(ntv_print_string_nl(vec![text("")], &mut out), Ok(py_val::make_none()));
    assert_eq!(out, "> ab\n\n");
    assert_eq!(ntv_print_string(vec![num(1)], &mut out), Err(EvalError::TypeError));
    assert_eq!(out, "> ab\n\n");
}

#[test]
fn type_tests_and_not() {
    let values = vec![
        num(1),
        py_val::make_float(0),
        text("s"),
        py_val::make_tuple(vec![]),
        py_val::make_list(vec![]),
        py_val::make_dict(vec![]),
        py_val::make_set(vec![]),
        py_val::make_none(),
        py_val::make_bool(true),
    ];
    let tests: Vec<fn(Vec<py_val_t>) -> Result<py_val_t, EvalError>> = vec![
        ntv_is_int,
        ntv_is_float,
        ntv_is_string,
        ntv_is_tuple,
        ntv_is_list,
        ntv_is_dict,
        ntv_is_set,
        ntv_is_none,
        ntv_is_bool,
    ];
    for (i, test) in tests.iter().enumerate() {
        for (j, value) in values.iter().enumerate() {
            assert_eq!(test(vec![value.clone()]), Ok(py_val::make_bool(i == j)), "test {} on value {}", i, j);
        }
    }
    assert_eq!(ntv_not(vec![num(0)]), Ok(py_val::make_bool(true)));
    assert_eq!(ntv_not(vec![num(2)]), Ok(py_val::make_bool(false)));
    assert_eq!(ntv_not(vec![py_val::make_list(vec![])]), Ok(py_val::make_bool(false)));
}

#[test]
fn truthiness() {
    assert!(py_val::Int(0).is_false());
    assert!(py_val::Float(0).is_false());
    assert!(py_val::Float(1u64 << 63).is_false());
    assert!(py_val::False.is_false());
    assert!(py_val::NoneValue.is_false());
    assert!(py_val::Str(String::new()).is_false());
    assert!(py_val::True.is_true());
    assert!(py_val::Int(-1).is_true());
    assert!(py_val::Str(String::from("0")).is_true());
    assert!(py_val::List(vec![]).is_true());
    assert!(py_val::NoneValue.is_none());
    assert!(!py_val::False.is_none());
    assert_eq!(*py_val::new(py_val::Int(3)), py_val::Int(3));
}

fn fact(q: FloatQuery, a: FloatAnswer) -> FloatFact {
    FloatFact { query: q, answer: a }
}

#[test]
fn float_built_ins_read_the_table() {
    let one = 1.0f64.to_bits();
    let two = 2.0f64.to_bits();
    let three = 3.0f64.to_bits();
    let facts = vec![
        fact(FloatQuery::binary(FloatOp::Add, one, two), FloatAnswer { bits: three, number: 0, text: String::new() }),
        fact(FloatQuery::binary(FloatOp::Compare, one, two), FloatAnswer { bits: 0, number: -1, text: String::new() }),
        fact(FloatQuery::from_int(3), FloatAnswer { bits: three, number: 0, text: String::new() }),
        fact(FloatQuery::unary(FloatOp::Floor, three), FloatAnswer { bits: 0, number: 3, text: String::new() }),
        fact(FloatQuery::unary(FloatOp::Repr, three), FloatAnswer { bits: 0, number: 0, text: String::from("3") }),
    ];
    assert_eq!(ntv_add_float(vec![py_val::make_float(one), py_val::make_float(two)], &facts), Ok(py_val::make_float(three)));
    let more = vec![
        fact(FloatQuery::binary(FloatOp::Sub, three, one), FloatAnswer { bits: two, number: 0, text: String::new() }),
        fact(FloatQuery::binary(FloatOp::Mul, one, two), FloatAnswer { bits: two, number: 0, text: String::new() }),
        fact(FloatQuery::binary(FloatOp::Div, two, one), FloatAnswer { bits: two, number: 0, text: String::new() }),
        fact(FloatQuery::binary(FloatOp::Rem, three, two), FloatAnswer { bits: one, number: 0, text: String::new() }),
    ];
    assert_eq!(ntv_sub_float(vec![py_val::make_float(three), py_val::make_float(one)], &more), Ok(py_val::make_float(two)));
    assert_eq!(ntv_mul_float(vec![py_val::make_float(one), py_val::make_float(two)], &more), Ok(py_val::make_float(two)));
    assert_eq!(ntv_div_float(vec![py_val::make_float(two), py_val::make_float(one)], &more), Ok(py_val::make_float(two)));
    assert_eq!(ntv_mod_float(vec![py_val::make_float(three), py_val::make_float(two)], &more), Ok(py_val::make_float(one)));
    assert_eq!(
        ntv_sub_float(vec![py_val::make_float(three), py_val::make_float(one)], &facts),
        Err(EvalError::NeedsFloat(FloatQuery::binary(FloatOp::Sub, three, one)))
    );
    assert_eq!(ntv_cmp_float(vec![py_val::make_float(one), py_val::make_float(two)], &facts), Ok(num(-1)));
    assert_eq!(ntv_itof(vec![num(3)], &facts), Ok(py_val::make_float(three)));
    assert_eq!(ntv_ftoi(vec![py_val::make_float(three)], &facts), Ok(num(3)));
    assert_eq!(ntv_repr_float(vec![py_val::make_float(three)], &facts), Ok(text("3")));
    assert_eq!(
        ntv_add_float(vec![py_val::make_float(two), py_val::make_float(one)], &facts),
        Err(EvalError::NeedsFloat(FloatQuery::binary(FloatOp::Add, two, one)))
    );
    assert_eq!(ntv_add_float(vec![py_val::make_float(two), num(1)], &facts), Err(EvalError::TypeError));
    assert!(FloatQuery::parse(String::from("1.0")).same(&FloatQuery::parse(String::from("1.0"))));
    assert!(!FloatQuery::parse(String::from("1.0")).same(&FloatQuery::parse(String::from("1.00"))));
}

#[test]
fn environment_binds_and_rebinds() {
    let mut env = Env::new();
    assert_eq!(env.len(), 0);
    assert_eq!(env.get(&String::from("x")), None);
    env.put(String::from("x"), Slot::Value(num(1)));
    env.put(String::from("y"), Slot::Global);
    assert_eq!(env.get(&String::from("x")), Some(&Slot::Value(num(1))));
    assert_eq!(env.get(&String::from("y")), Some(&Slot::Global));
    env.put(String::from("x"), Slot::Value(num(2)));
    assert_eq!(env.get(&String::from("x")), Some(&Slot::Value(num(2))));
    assert_eq!(env.get(&String::from("y")), Some(&Slot::Global));
    assert_eq!(env.len(), 2);
    let _ = Binding { name: String::from("z"), slot: Slot::Global };
}
