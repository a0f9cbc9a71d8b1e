use minipython::errors::{ErrorKind, EvalError, Fault, ParseError};
use minipython::eval::evaluator::Evaluator;
use minipython::eval::floats::{FloatAnswer, FloatOp, FloatQuery};
use minipython::eval::run::RunError;
use minipython::eval::types::{put_item, put_pair, py_val, Native};
use ordered_float::OrderedFloat;

fn copy_query(q: &FloatQuery) -> FloatQuery {
    FloatQuery { op: q.op, left: q.left, right: q.right, number: q.number, text: q.text.clone() }
}

fn copy_answer(a: &FloatAnswer) -> FloatAnswer {
    FloatAnswer { bits: a.bits, number: a.number, text: a.text.clone() }
}

fn bits(x: OrderedFloat<f64>) -> FloatAnswer {
    FloatAnswer { bits: x.into_inner().to_bits(), number: 0, text: String::new() }
}

fn answer(q: &FloatQuery) -> FloatAnswer {
    let a = OrderedFloat(f64::from_bits(q.left));
    let b = OrderedFloat(f64::from_bits(q.right));
    match q.op {
        FloatOp::Parse => bits(q.text.parse::<OrderedFloat<f64>>().unwrap()),
        FloatOp::FromInt => bits(OrderedFloat(q.number as f64)),
        FloatOp::Floor => FloatAnswer { bits: 0, number: a.floor() as i64, text: String::new() },
        FloatOp::Repr => FloatAnswer { bits: 0, number: 0, text: format!("{}", a) },
        FloatOp::Add => bits(a + b),
        FloatOp::Sub => bits(a - b),
        FloatOp::Mul => bits(a * b),
        FloatOp::Div => bits(a / b),
        FloatOp::Rem => bits(a % b),
        FloatOp::Compare => FloatAnswer {
            bits: 0,
            number: if a < b {
                -1
            } else if a == b {
                0
            } else {
                1
            },
            text: String::new(),
        },
    }
}

fn run_with_limit(source: &str, limit: Option<usize>) -> (String, Result<(), RunError>) {
    let mut facts: Vec<(FloatQuery, FloatAnswer)> = Vec::new();
    loop {
        let mut evaluator = Evaluator::new();
        if let Some(limit) = limit {
            evaluator.set_limit(limit);
        }
        for (q, a) in facts.iter() {
            evaluator.add_float_fact(copy_query(q), copy_answer(a));
        }
        match evaluator.eval_file_input("test.py", source.as_bytes().to_vec()) {
            Err(RunError::Eval(EvalError::NeedsFloat(q))) => {
                let a = answer(&q);
                facts.push((q, a));
            }
            other => return (evaluator.get_output().clone(), other),
        }
    }
}

fn run(source: &str) -> (String, Result<(), RunError>) {
    run_with_limit(source, None)
}

fn output(source: &str) -> String {
    let (text, result) = run(source);
    assert_eq!(result, Ok(()), "printed so far: {:?}", text);
    text
}

fn failure(source: &str) -> EvalError {
    match run(source).1 {
        Err(RunError::Eval(e)) => e,
        other => panic!("no failure of evaluation: {:?}", other),
    }
}

#[test]
fn print_of_a_sum() {
    assert_eq!(output("print(1 + 2)"), "3\n");
}

#[test]
fn function_with_float_and_main_guard() {
    assert_eq!(
        output("def test(poi):\n    a = 1.0\n    print(a)\nif __name__ == \"__main__\":\n    test(2)\n"),
        "1\n"
    );
}

#[test]
fn print_of_a_list() {
    assert_eq!(output("print([1, 2, 3])"), "[1, 2, 3]\n");
}

#[test]
fn fizzbuzz_over_range_15() {
    let source = "for i in range(15):\n    if i % 15 == 0: print(\"fizzbuzz\")\n    elif i % 5 == 0: print(\"buzz\")\n    elif i % 3 == 0: print(\"fizz\")\n    else: print(i)\n";
    assert_eq!(
        output(source),
        "fizzbuzz\n1\n2\nfizz\n4\nbuzz\nfizz\n7\n8\nfizz\nbuzz\n11\nfizz\n13\n14\n"
    );
}

#[test]
fn chained_assignment() {
    assert_eq!(output("a = b = 3\nprint(a)\nprint(b)\n"), "3\n3\n");
}

#[test]
fn chained_assignment_evaluates_the_value_once() {
    let source = "n = 0\ndef f():\n    global n\n    n = n + 1\n    return n\na = b = f()\nprint(a)\nprint(b)\nprint(n)\n";
    assert_eq!(output(source), "1\n1\n1\n");
}

#[test]
fn chained_compare() {
    assert_eq!(output("print(1 < 2 < 3)\nprint(3 < 2 < 1)\n"), "True\nFalse\n");
}

#[test]
fn chained_compare_evaluates_the_middle_once_and_stops_early() {
    let source = "def f(x):\n    print(x)\n    return x\nprint(f(1) < f(2) < f(3))\nprint(f(3) < f(2) < f(1))\n";
    assert_eq!(output(source), "1\n2\n3\nTrue\n3\n2\nFalse\n");
}

#[test]
fn print_of_integer_literals() {
    assert_eq!(output("print(0)"), "0\n");
    assert_eq!(output("print(7)"), "7\n");
    assert_eq!(output("print(1234567890)"), "1234567890\n");
    assert_eq!(output("print(9223372036854775807)"), "9223372036854775807\n");
    assert_eq!(output("print(-9223372036854775807 - 1)"), "-9223372036854775808\n");
}

#[test]
fn integer_arithmetic() {
    assert_eq!(output("print(7 + -3)"), "4\n");
    assert_eq!(output("print(7 - 10)"), "-3\n");
    assert_eq!(output("print(-7 * 6)"), "-42\n");
    assert_eq!(output("print(7 / 2)"), "3\n");
    assert_eq!(output("print(-7 / 2)"), "-3\n");
    assert_eq!(output("print(7 / -2)"), "-3\n");
    assert_eq!(output("print(-7 / -2)"), "3\n");
    assert_eq!(output("print(7 % 3)"), "1\n");
    assert_eq!(output("print(-7 % 3)"), "-1\n");
    assert_eq!(output("print(7 % -3)"), "1\n");
    assert_eq!(output("print(12 & 10)"), "8\n");
    assert_eq!(output("print(12 | 10)"), "14\n");
    assert_eq!(output("print(12 ^ 10)"), "6\n");
    assert_eq!(output("print(3 << 4)"), "48\n");
    assert_eq!(output("print(-48 >> 4)"), "-3\n");
    assert_eq!(output("print(~5)"), "-6\n");
    assert_eq!(output("print(+5)"), "5\n");
    assert_eq!(output("print(-5)"), "-5\n");
    assert_eq!(output("print(1 - 2 - 3)"), "-4\n");
    assert_eq!(output("print(2 + 3 * 4)"), "14\n");
}

#[test]
fn integer_comparisons() {
    assert_eq!(output("print(1 == 1)\nprint(1 == 2)\n"), "True\nFalse\n");
    assert_eq!(output("print(1 != 1)\nprint(1 != 2)\n"), "False\nTrue\n");
    assert_eq!(output("print(1 < 2)\nprint(2 < 1)\nprint(1 < 1)\n"), "True\nFalse\nFalse\n");
    assert_eq!(output("print(1 <= 2)\nprint(2 <= 1)\nprint(1 <= 1)\n"), "True\nFalse\nTrue\n");
    assert_eq!(output("print(1 > 2)\nprint(2 > 1)\nprint(1 > 1)\n"), "False\nTrue\nFalse\n");
    assert_eq!(output("print(1 >= 2)\nprint(2 >= 1)\nprint(1 >= 1)\n"), "False\nTrue\nTrue\n");
}

#[test]
fn string_concatenation() {
    assert_eq!(output("print(\"foo\" + \"bar\")"), "foobar\n");
    assert_eq!(output("print(\"\" + \"x\" + \"\")"), "x\n");
}

#[test]
fn print_of_the_empty_string_is_one_newline() {
    assert_eq!(output("print(\"\")"), "\n");
}

#[test]
fn tuples_and_parentheses() {
    assert_eq!(output("print(())"), "()\n");
    assert_eq!(output("x = 5\nprint((x,))"), "(5,)\n");
    assert_eq!(output("x = 5\nprint((x))"), "5\n");
    assert_eq!(output("print((1, 2))"), "(1, 2)\n");
}

#[test]
fn for_over_the_empty_string_runs_no_body() {
    assert_eq!(output("for c in \"\":\n    print(c)\nprint(\"done\")\n"), "done\n");
}

#[test]
fn for_over_a_string_yields_strings_of_one_character() {
    assert_eq!(output("for c in \"ab\":\n    print(c + c)\n"), "aa\nbb\n");
}

#[test]
fn for_over_list_and_tuple_with_break_and_continue() {
    let source = "for i in [1, 2, 3, 4]:\n    if i == 2: continue\n    if i == 4: break\n    print(i)\nfor t in (7, 8):\n    print(t)\n";
    assert_eq!(output(source), "1\n3\n7\n8\n");
}

#[test]
fn for_over_a_number_is_a_type_error() {
    assert_eq!(failure("for i in 3:\n    pass\n"), EvalError::TypeError);
}

#[test]
fn while_loop() {
    assert_eq!(
        output("i = 0\nwhile i < 3:\n    print(i)\n    i = i + 1\n"),
        "0\n1\n2\n"
    );
}

#[test]
fn global_declaration_redirects_assignment() {
    let source = "x = 1\ndef f():\n    global x\n    x = 2\nf()\nprint(x)\n";
    assert_eq!(output(source), "2\n");
}

#[test]
fn assignment_without_global_stays_local() {
    let source = "x = 1\ndef f():\n    x = 2\n    return x\nprint(f())\nprint(x)\n";
    assert_eq!(output(source), "2\n1\n");
}

#[test]
fn global_after_reading_is_an_error() {
    let source = "x = 1\ndef f():\n    print(x)\n    global x\n    x = 2\nf()\n";
    let (text, result) = run(source);
    assert_eq!(text, "1\n");
    assert_eq!(result, Err(RunError::Eval(EvalError::RuntimeError(Fault::GlobalAfterUse))));
}

#[test]
fn global_after_assigning_is_an_error() {
    let source = "def f():\n    x = 2\n    global x\nf()\n";
    assert_eq!(failure(source), EvalError::RuntimeError(Fault::GlobalAfterUse));
}

#[test]
fn functions_read_globals_at_call_time() {
    let source = "def f():\n    return y\ny = 5\nprint(f())\ny = 6\nprint(f())\n";
    assert_eq!(output(source), "5\n6\n");
}

#[test]
fn function_without_return_yields_none() {
    assert_eq!(output("def f():\n    pass\nprint(f())\n"), "None\n");
}

#[test]
fn nested_function_definition_is_local() {
    let source = "def outer():\n    def inner():\n        return 7\n    return inner()\nprint(outer())\n";
    assert_eq!(output(source), "7\n");
    assert_eq!(
        failure("def outer():\n    def inner():\n        return 7\n    return 1\nouter()\ninner()\n"),
        EvalError::NameError(String::from("inner"))
    );
}

#[test]
fn recursion() {
    let source = "def fact(n):\n    if n == 0: return 1\n    return n * fact(n - 1)\nprint(fact(10))\n";
    assert_eq!(output(source), "3628800\n");
}

#[test]
fn boolean_operators_yield_constants_and_short_circuit() {
    assert_eq!(output("print(1 and 2)\nprint(0 and 2)\nprint(0 or 0)\nprint(0 or 3)\n"), "True\nFalse\nFalse\nTrue\n");
    let source = "def f(x):\n    print(x)\n    return x\nprint(f(0) and f(1))\nprint(f(1) or f(0))\n";
    assert_eq!(output(source), "0\nFalse\n1\nTrue\n");
    assert_eq!(output("print(not 0)\nprint(not \"a\")\nprint(not \"\")\nprint(not None)\n"), "True\nFalse\nTrue\nTrue\n");
}

#[test]
fn conditional_expression() {
    assert_eq!(output("print(1 if 2 < 3 else 4)\nprint(1 if 3 < 2 else 4)\n"), "1\n4\n");
}

#[test]
fn subscripts() {
    assert_eq!(output("print(\"abc\"[1])\nprint((4, 5, 6)[2])\nprint([7, 8][0])\n"), "b\n6\n7\n");
    assert_eq!(failure("\"abc\"[3]\n"), EvalError::IndexError);
    assert_eq!(failure("(1, 2)[-1]\n"), EvalError::IndexError);
    assert_eq!(failure("[1, 2][0:1]\n"), EvalError::RuntimeError(Fault::Unimplemented));
}

#[test]
fn rebinding_an_operator_changes_it() {
    let source = "def __add__(a, b):\n    return 42\nprint(1 + 2)\n";
    assert_eq!(output(source), "42\n");
}

#[test]
fn float_arithmetic_through_the_table_of_answers() {
    assert_eq!(output("print(0.5 + 0.25)"), "0.75\n");
    assert_eq!(output("print(1 + 0.5)"), "1.5\n");
    assert_eq!(output("print(.5 * 4)"), "2\n");
    assert_eq!(output("print(1.5 < 2)\nprint(2.5 < 2)\n"), "True\nFalse\n");
    assert_eq!(output("print(__ftoi__(2.75))"), "2\n");
    assert_eq!(output("print(7.5 % 2.0)"), "1.5\n");
    assert_eq!(output("if 0.0: print(1)\nelse: print(2)\n"), "2\n");
}

#[test]
fn a_missing_answer_names_the_question() {
    let mut evaluator = Evaluator::new();
    let result = evaluator.eval_source("test.py", b"x = 1.5\n".to_vec());
    assert_eq!(
        result,
        Err(RunError::Eval(EvalError::NeedsFloat(FloatQuery {
            op: FloatOp::Parse,
            left: 0,
            right: 0,
            number: 0,
            text: String::from("1.5"),
        })))
    );
}

#[test]
fn unbound_name_is_a_name_error() {
    assert_eq!(failure("print(nothing)\n"), EvalError::NameError(String::from("nothing")));
    assert_eq!(failure("nothing\n").kind(), ErrorKind::NameError);
}

#[test]
fn wrong_types_and_arity_are_type_errors() {
    assert_eq!(failure("1 + \"a\"\n"), EvalError::TypeError);
    assert_eq!(failure("def f(a):\n    pass\nf()\n"), EvalError::TypeError);
    assert_eq!(failure("__add_int__(1)\n"), EvalError::TypeError);
    assert_eq!(failure("x = 3\nx(1)\n"), EvalError::TypeError);
}

#[test]
fn division_by_zero() {
    assert_eq!(failure("1 / 0\n"), EvalError::ZeroDivisionError);
    assert_eq!(failure("1 % 0\n"), EvalError::ZeroDivisionError);
}

#[test]
fn integer_overflow_is_a_runtime_error() {
    assert_eq!(failure("9223372036854775807 + 1\n"), EvalError::RuntimeError(Fault::Overflow));
    assert_eq!(failure("1 << 64\n"), EvalError::RuntimeError(Fault::Overflow));
    assert_eq!(failure("1 << -1\n"), EvalError::RuntimeError(Fault::Overflow));
    assert_eq!(failure("(-9223372036854775807 - 1) / -1\n"), EvalError::RuntimeError(Fault::Overflow));
    assert_eq!(output("print((-9223372036854775807 - 1) % -1)\n"), "0\n");
}

#[test]
fn control_flow_outside_its_place() {
    assert_eq!(failure("break\n"), EvalError::RuntimeError(Fault::OutsideLoop));
    assert_eq!(failure("continue\n"), EvalError::RuntimeError(Fault::OutsideLoop));
    assert_eq!(failure("return 1\n"), EvalError::RuntimeError(Fault::OutsideFunction));
    assert_eq!(failure("def f():\n    break\nf()\n"), EvalError::RuntimeError(Fault::OutsideLoop));
}

#[test]
fn panic_and_unimplemented_forms() {
    assert_eq!(failure("__panic__()\n"), EvalError::RuntimeError(Fault::Panic));
    assert_eq!(failure("x = 1\ndel x\n"), EvalError::RuntimeError(Fault::Unimplemented));
    assert_eq!(failure("1 = 2\n"), EvalError::RuntimeError(Fault::CannotAssign));
    assert_eq!(failure("a = [1]\na[0] = 2\n"), EvalError::RuntimeError(Fault::Unimplemented));
    assert_eq!(failure("for a, b in [1]:\n    pass\n"), EvalError::RuntimeError(Fault::Unimplemented));
}

#[test]
fn output_before_a_failure_stays() {
    let (text, result) = run("print(1)\nprint(nothing)\nprint(2)\n");
    assert_eq!(text, "1\n");
    assert_eq!(result, Err(RunError::Eval(EvalError::NameError(String::from("nothing")))));
}

#[test]
fn back_trace_names_the_calls_in_progress() {
    let mut evaluator = Evaluator::new();
    let result = evaluator.eval_file_input(
        "test.py",
        b"def f():\n    return g()\ndef g():\n    return nothing\nf()\n".to_vec(),
    );
    assert_eq!(result, Err(RunError::Eval(EvalError::NameError(String::from("nothing")))));
    assert_eq!(evaluator.get_back_trace(), &vec![String::from("f"), String::from("g")]);
}

#[test]
fn limit_bounds_nesting_and_loops() {
    let source = "def f(n):\n    if n == 0: return 0\n    return f(n - 1)\nprint(f(20))\n";
    assert_eq!(run_with_limit(source, Some(100)).0, "0\n");
    assert_eq!(
        run_with_limit(source, Some(10)).1,
        Err(RunError::Eval(EvalError::RuntimeError(Fault::LimitReached)))
    );
    assert_eq!(
        run_with_limit("while True:\n    pass\n", Some(50)).1,
        Err(RunError::Eval(EvalError::RuntimeError(Fault::LimitReached)))
    );
}

#[test]
fn syntax_errors_stop_a_run() {
    assert_eq!(run("x = = 1\n").1, Err(RunError::Parse(ParseError::UnexpectedToken)));
}

#[test]
fn len_range_and_membership() {
    assert_eq!(output("print(len(\"abc\"))\nprint(len((1, 2)))\nprint(len([]))\n"), "3\n2\n0\n");
    assert_eq!(output("print(range(3))\nprint(range(0))\nprint(range(-2))\n"), "[0, 1, 2]\n[]\n[]\n");
    assert_eq!(output("print(2 in [1, 2])\nprint(3 in (1, 2))\nprint(3 not in (1, 2))\n"), "True\nFalse\nTrue\n");
    assert_eq!(output("print([1, 2] + [3])\nprint((1,) + (2,))\n"), "[1, 2, 3]\n(1, 2)\n");
    assert_eq!(output("print([1, \"a\", None, True, (1,)])\n"), "[1, 'a', None, True, (1,)]\n");
    assert_eq!(output("print(\"a\" == \"a\")\nprint(\"a\" < \"b\")\nprint((1, 2) == (1, 2))\nprint(None == None)\nprint(1 == \"1\")\n"), "True\nTrue\nTrue\nTrue\nFalse\n");
}

#[test]
fn dict_and_set_displays() {
    let source = "d = {1: 2, \"a\": 3, 1: 4}\ns = {1, 2, 1, (1, 2), (1, 2)}\nprint(__is_dict__(d))\nprint(__is_set__(s))\nprint(__is_dict__(s))\n";
    assert_eq!(output(source), "True\nTrue\nFalse\n");
    assert_eq!(failure("{[1]: 2}\n"), EvalError::TypeError);
    assert_eq!(failure("{[1], 2}\n"), EvalError::TypeError);
    assert_eq!(failure("{(1, [2]): 2}\n"), EvalError::TypeError);
}

#[test]
fn dict_keeps_first_key_and_last_value() {
    let mut pairs = Vec::new();
    put_pair(&mut pairs, py_val::make_int(1), py_val::make_string(String::from("a")));
    put_pair(&mut pairs, py_val::make_float(0), py_val::make_int(10));
    put_pair(&mut pairs, py_val::make_int(1), py_val::make_string(String::from("b")));
    put_pair(&mut pairs, py_val::make_float(1u64 << 63), py_val::make_int(11));
    assert_eq!(
        py_val::make_dict(pairs),
        py_val::make_dict(vec![
            (py_val::make_int(1), py_val::make_string(String::from("b"))),
            (py_val::make_float(0), py_val::make_int(11)),
        ])
    );
    let mut items = Vec::new();
    put_item(&mut items, py_val::make_tuple(vec![py_val::make_int(1)]));
    put_item(&mut items, py_val::make_tuple(vec![py_val::make_int(1)]));
    put_item(&mut items, py_val::make_tuple(vec![py_val::make_int(2)]));
    put_item(&mut items, py_val::make_int(1));
    assert_eq!(
        py_val::make_set(items),
        py_val::make_set(vec![py_val::make_tuple(vec![py_val::make_int(1)]), py_val::make_tuple(vec![py_val::make_int(2)]), py_val::make_int(1)])
    );
}

#[test]
fn evaluator_starts_with_the_built_ins_only() {
    let evaluator = Evaluator::new();
    assert_eq!(evaluator.get_output(), "");
    assert_eq!(evaluator.get_limit(), usize::MAX);
    assert!(evaluator.get_back_trace().is_empty());
    match &*evaluator.lookup_global(&String::from("__add_int__")).unwrap() {
        py_val::NativeFunc(f) => {
            assert_eq!(f.name, "__add_int__");
            assert_eq!(f.arity, 2);
            assert_eq!(f.body, Native::AddInt);
        }
        other => panic!("not a built-in: {:?}", other),
    }
    match &*evaluator.lookup_global(&String::from("__len_tuple__")).unwrap() {
        py_val::NativeFunc(f) => assert_eq!(f.arity, 1),
        other => panic!("not a built-in: {:?}", other),
    }
    assert_eq!(
        evaluator.lookup_global(&String::from("print")),
        Err(EvalError::NameError(String::from("print")))
    );
}
