//! Running a program from its source.
//!
//! Before a program runs, the evaluator runs a small program of its own in
//! the same language. It binds the names that operators are looked up
//! under (`__add__`, `__eq__`, ...) to functions that pick the built-in for
//! the types of their operands, and it defines `print`, `len`, `range`,
//! `repr` and `str`.

use vstd::prelude::*;
use vstd::string::StrSliceExecFns;
use vstd::string::StringSliceAdditionalSpecFns;

use crate::errors::{EvalError, EvalErrorV, ParseError};
use crate::eval::evaluator::Evaluator;
use crate::eval::floats::FloatFactV;
use crate::eval::semantics::{EvalState, eval_module};
use crate::grammar::parse_tokens;
use crate::lexing::lex_all;
use crate::parser::Parser;

verus! {

/// The program that runs before every program.
pub const PREAMBLE: &'static str = r#"__name__ = "__main__"

def __add__(a, b):
    if __is_float__(a):
        if __is_float__(b): return __add_float__(a, b)
        return __add_float__(a, __itof__(b))
    if __is_float__(b): return __add_float__(__itof__(a), b)
    if __is_string__(a): return __add_string__(a, b)
    if __is_tuple__(a): return __add_tuple__(a, b)
    if __is_list__(a): return __add_list__(a, b)
    return __add_int__(a, b)

def __sub__(a, b):
    if __is_float__(a):
        if __is_float__(b): return __sub_float__(a, b)
        return __sub_float__(a, __itof__(b))
    if __is_float__(b): return __sub_float__(__itof__(a), b)
    return __sub_int__(a, b)

def __mul__(a, b):
    if __is_float__(a):
        if __is_float__(b): return __mul_float__(a, b)
        return __mul_float__(a, __itof__(b))
    if __is_float__(b): return __mul_float__(__itof__(a), b)
    return __mul_int__(a, b)

def __div__(a, b):
    if __is_float__(a):
        if __is_float__(b): return __div_float__(a, b)
        return __div_float__(a, __itof__(b))
    if __is_float__(b): return __div_float__(__itof__(a), b)
    return __div_int__(a, b)

def __mod__(a, b):
    if __is_float__(a):
        if __is_float__(b): return __mod_float__(a, b)
        return __mod_float__(a, __itof__(b))
    if __is_float__(b): return __mod_float__(__itof__(a), b)
    return __mod_int__(a, b)

def __lshift__(a, b): return __lshift_int__(a, b)

def __rshift__(a, b): return __rshift_int__(a, b)

def __or__(a, b): return __or_int__(a, b)

def __xor__(a, b): return __xor_int__(a, b)

def __and__(a, b): return __and_int__(a, b)

def __invert__(a): return __invert_int__(a)

def __plus__(a):
    if __is_float__(a): return a
    return __add_int__(a, 0)

def __minus__(a):
    if __is_float__(a): return __sub_float__(__itof__(0), a)
    return __sub_int__(0, a)

def __cmp__(a, b):
    if __is_float__(a):
        if __is_float__(b): return __cmp_float__(a, b)
        return __cmp_float__(a, __itof__(b))
    if __is_float__(b): return __cmp_float__(__itof__(a), b)
    if __is_string__(a): return __cmp_string__(a, b)
    return __cmp_int__(a, b)

def __lt__(a, b): return __lt_int__(__cmp__(a, b), 0)

def __le__(a, b): return __le_int__(__cmp__(a, b), 0)

def __gt__(a, b): return __gt_int__(__cmp__(a, b), 0)

def __ge__(a, b): return __ge_int__(__cmp__(a, b), 0)

def __eq_items__(a, b, n, m):
    if __ne_int__(n, m): return False
    i = 0
    while __lt_int__(i, n):
        if __not__(__eq__(__getitem__(a, i), __getitem__(b, i))): return False
        i = __add_int__(i, 1)
    return True

def __eq__(a, b):
    if __is_int__(a):
        if __is_int__(b): return __eq_int__(a, b)
        if __is_float__(b): return __eq_int__(__cmp_float__(__itof__(a), b), 0)
        return False
    if __is_float__(a):
        if __is_float__(b): return __eq_int__(__cmp_float__(a, b), 0)
        if __is_int__(b): return __eq_int__(__cmp_float__(a, __itof__(b)), 0)
        return False
    if __is_string__(a):
        if __is_string__(b): return __eq_int__(__cmp_string__(a, b), 0)
        return False
    if __is_none__(a): return __is_none__(b)
    if __is_bool__(a):
        if __is_bool__(b):
            if a: return __not__(__not__(b))
            return __not__(b)
        return False
    if __is_tuple__(a):
        if __is_tuple__(b): return __eq_items__(a, b, __len_tuple__(a), __len_tuple__(b))
        return False
    if __is_list__(a):
        if __is_list__(b): return __eq_items__(a, b, __len_list__(a), __len_list__(b))
        return False
    return False

def __neq__(a, b): return __not__(__eq__(a, b))

def __is__(a, b): return __eq__(a, b)

def __is_not__(a, b): return __not__(__eq__(a, b))

def __getitem__(a, i):
    if __is_string__(a): return __getitem_string__(a, i)
    if __is_tuple__(a): return __getitem_tuple__(a, i)
    return __getitem_list__(a, i)

def __in__(x, c):
    for e in c:
        if __eq__(x, e): return True
    return False

def __not_in__(x, c): return __not__(__in__(x, c))

def len(a):
    if __is_string__(a): return __len_string__(a)
    if __is_tuple__(a): return __len_tuple__(a)
    return __len_list__(a)

def range(n): return __range__(n)

def __join__(items):
    s = ""
    first = True
    for e in items:
        if first: first = False
        else: s = __add_string__(s, ", ")
        s = __add_string__(s, repr(e))
    return s

def repr(x):
    if __is_int__(x): return __repr_int__(x)
    if __is_float__(x): return __repr_float__(x)
    if __is_string__(x): return __add_string__(__add_string__("'", x), "'")
    if __is_none__(x): return "None"
    if __is_bool__(x):
        if x: return "True"
        return "False"
    if __is_list__(x): return __add_string__(__add_string__("[", __join__(x)), "]")
    if __is_tuple__(x):
        if __eq_int__(__len_tuple__(x), 1): return __add_string__(__add_string__("(", repr(__getitem_tuple__(x, 0))), ",)")
        return __add_string__(__add_string__("(", __join__(x)), ")")
    return "<function>"

def str(x):
    if __is_string__(x): return x
    return repr(x)

def print(x):
    __print_nl__(str(x))
"#;

/// What stopped a run.
#[derive(Debug, PartialEq)]
pub enum RunError {
    /// The source has as many bytes as the machine can count.
    SourceTooLarge,
    Parse(ParseError),
    Eval(EvalError),
}

/// What stopped a run, as contracts see it.
pub enum RunErrorV {
    SourceTooLarge,
    Parse(ParseError),
    Eval(EvalErrorV),
}

impl View for RunError {
    type V = RunErrorV;

    open spec fn view(&self) -> RunErrorV {
        match self {
            RunError::SourceTooLarge => RunErrorV::SourceTooLarge,
            RunError::Parse(e) => RunErrorV::Parse(*e),
            RunError::Eval(e) => RunErrorV::Eval(e@),
        }
    }
}

/// Running the program that `source` holds: it is parsed as a whole and
/// then evaluated at top level.
pub open spec fn run_source(facts: Seq<FloatFactV>, limit: nat, st: EvalState, source: Seq<u8>) -> (
    EvalState,
    Result<(), RunErrorV>,
) {
    if source.len() >= usize::MAX {
        (st, Err(RunErrorV::SourceTooLarge))
    } else {
        match parse_tokens(lex_all(source)) {
            Err(e) => (st, Err(RunErrorV::Parse(e))),
            Ok(stmts) => {
                let ran = eval_module(facts, limit, st, stmts, 0);
                (
                    ran.0,
                    match ran.1 {
                        Ok(_) => Ok(()),
                        Err(e) => Err(RunErrorV::Eval(e)),
                    },
                )
            },
        }
    }
}

/// Running the preamble, and then, if that went well, the program that
/// `source` holds.
pub open spec fn run_file(facts: Seq<FloatFactV>, limit: nat, st: EvalState, source: Seq<u8>) -> (
    EvalState,
    Result<(), RunErrorV>,
) {
    let first = run_source(facts, limit, st, PREAMBLE.spec_bytes());
    match first.1 {
        Err(e) => first,
        Ok(_) => run_source(facts, limit, first.0, source),
    }
}

impl Evaluator {
    /// Parses and evaluates a program.
    pub fn eval_source(&mut self, file_name: &str, source: Vec<u8>) -> (r: Result<(), RunError>)
        ensures
            final(self)@ == run_source(old(self).facts(), old(self).limit(), old(self)@, source@).0,
            final(self).facts() == old(self).facts(),
            final(self).limit() == old(self).limit(),
            match r {
                Ok(_) => run_source(old(self).facts(), old(self).limit(), old(self)@, source@).1
                    == Ok::<(), RunErrorV>(()),
                Err(e) => run_source(old(self).facts(), old(self).limit(), old(self)@, source@).1
                    == Err::<(), RunErrorV>(e@),
            },
    {
        if source.len() == usize::MAX {
            return Err(RunError::SourceTooLarge);
        }
        let mut parser = Parser::new(file_name, source);
        let ast = match parser.parse() {
            Ok(ast) => ast,
            Err(e) => {
                return Err(RunError::Parse(e));
            },
        };
        match self.eval_ast(&ast) {
            Ok(_) => Ok(()),
            Err(e) => Err(RunError::Eval(e)),
        }
    }

    /// Runs the preamble and then the program that `source` holds.
    pub fn eval_file_input(&mut self, file_name: &str, source: Vec<u8>) -> (r: Result<
        (),
        RunError,
    >)
        ensures
            final(self)@ == run_file(old(self).facts(), old(self).limit(), old(self)@, source@).0,
            final(self).facts() == old(self).facts(),
            final(self).limit() == old(self).limit(),
            match r {
                Ok(_) => run_file(old(self).facts(), old(self).limit(), old(self)@, source@).1
                    == Ok::<(), RunErrorV>(()),
                Err(e) => run_file(old(self).facts(), old(self).limit(), old(self)@, source@).1
                    == Err::<(), RunErrorV>(e@),
            },
    {
        self.eval_source("<preamble>", PREAMBLE.as_bytes_vec())?;
        self.eval_source(file_name, source)
    }
}

} // verus!
