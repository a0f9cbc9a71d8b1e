//! The evaluator: a walk over the syntax tree.
//!
//! An evaluator owns the global environment, the text that the program has
//! printed, the names of the calls in progress, and a table of answers
//! about floats. It prints nothing itself: the text is handed out by
//! [`Evaluator::get_output`].

use vstd::prelude::*;
use vstd::string::StringExecFns;
use crate::ast::{lemma_names_empty, lemma_names_push, lemma_names_view, names_view};
use crate::errors::{EvalError, EvalErrorV, Fault};
use crate::eval::builtins::{agrees};
use crate::eval::floats::{FloatAnswer, FloatFact, FloatFactV, FloatQuery, facts_view, find_answer};
use crate::eval::native_func::call_native;
use crate::eval::registry::{NATIVE_COUNT, native_env, native_globals};
use crate::eval::semantics::{EvalState, FrameV, Out, bind_name, call_native_value, constant_value, declare_globals, entered, left, lookup_global, note_read, read_name};
use crate::eval::types::{Env, Native, NativeV, Slot, StmtResult, StmtResultV, py_val_t, share, values_view, py_val};

verus! {

/// What one call of a function of the program holds.
pub struct Frame {
    pub vars: Env,
    pub reads: Vec<String>,
}

/// The frame of the call in progress; none at top level.
pub type LocalEnv = Option<Frame>;

impl View for Frame {
    type V = FrameV;

    open spec fn view(&self) -> FrameV {
        FrameV { vars: self.vars@, reads: names_view(self.reads@) }
    }
}

/// A frame as contracts see it.
pub open spec fn frame_view(frame: Option<Frame>) -> Option<FrameV> {
    match frame {
        Some(fr) => Some(fr@),
        None => None,
    }
}

/// The evaluator of one run.
pub struct Evaluator {
    global_env: Env,
    back_trace: Vec<String>,
    output: String,
    facts: Vec<FloatFact>,
    limit: usize,
}

impl View for Evaluator {
    type V = EvalState;

    closed spec fn view(&self) -> EvalState {
        EvalState {
            globals: self.global_env@,
            output: self.output@,
            trace: names_view(self.back_trace@),
        }
    }
}

/// Whether a step of the evaluator arrived where `want` says: it left
/// the state and the frame that `want` holds, and it left the table of
/// answers and the limit alone.
pub open spec fn steps<V>(
    before: Evaluator,
    after: Evaluator,
    frame: Option<Frame>,
    want: Out<V>,
) -> bool {
    &&& after@ == want.st
    &&& after.facts() == before.facts()
    &&& after.limit() == before.limit()
    &&& frame_view(frame) == want.frame
}

/// Whether a result is the statement result that is wanted.
pub open spec fn agrees_stmt(r: Result<StmtResult, EvalError>, want: Result<StmtResultV, EvalErrorV>) -> bool {
    match r {
        Ok(v) => want == Ok::<StmtResultV, EvalErrorV>(v@),
        Err(e) => want == Err::<StmtResultV, EvalErrorV>(e@),
    }
}

/// Notes that `name` was read.
pub fn note(reads: &mut Vec<String>, name: &String)
    ensures
        names_view(final(reads)@) == note_read(names_view(old(reads)@), name@),
{
    proof {
        lemma_names_view(reads@);
    }
    let mut i: usize = 0;
    while i < reads.len()
        invariant
            i <= reads.len(),
            reads == old(reads),
            forall|j: int| 0 <= j < i ==> names_view(reads@)[j] != name@,
        decreases reads.len() - i,
    {
        proof {
            lemma_names_view(reads@);
        }
        if reads[i] == *name {
            assert(names_view(reads@)[i as int] == name@);
            return ;
        }
        i = i + 1;
    }
    proof {
        lemma_names_push(reads@, *name);
    }
    reads.push(name.clone());
}

impl Evaluator {
    /// An evaluator whose global environment binds the built-in functions
    /// and nothing else. It has printed nothing, knows no answer about
    /// floats, and lets calls nest and loops run as far as the machine
    /// counts.
    pub fn new() -> (e: Evaluator)
        ensures
            e@.globals == native_globals(NATIVE_COUNT as int),
            e@.output == Seq::<char>::empty(),
            e@.trace == Seq::<Seq<char>>::empty(),
            e.facts() == Seq::<FloatFactV>::empty(),
            e.limit() == usize::MAX,
    {
        let e = Evaluator {
            global_env: native_env(),
            back_trace: Vec::new(),
            output: String::new(),
            facts: Vec::new(),
            limit: usize::MAX,
        };
        proof {
            lemma_names_empty();
            assert(e.facts() =~= Seq::<FloatFactV>::empty());
        }
        e
    }

    /// The table of answers about floats.
    pub closed spec fn facts(&self) -> Seq<FloatFactV> {
        facts_view(self.facts@)
    }

    /// How deep calls may nest and how long a `while` loop may run.
    pub closed spec fn limit(&self) -> nat {
        self.limit as nat
    }

    /// How deep calls may nest and how long a `while` loop may run.
    pub fn get_limit(&self) -> (n: usize)
        ensures
            n == self.limit(),
    {
        self.limit
    }

    /// Sets how deep calls may nest and how long a `while` loop may run.
    pub fn set_limit(&mut self, limit: usize)
        ensures
            final(self)@ == old(self)@,
            final(self).facts() == old(self).facts(),
            final(self).limit() == limit,
    {
        self.limit = limit;
    }

    /// The text that the program has printed.
    pub fn get_output(&self) -> (text: &String)
        ensures
            text@ == self@.output,
    {
        &self.output
    }

    /// The names of the calls in progress, the outermost first. After a
    /// failure these are the calls in which it happened.
    pub fn get_back_trace(&self) -> (names: &Vec<String>)
        ensures
            names_view(names@) == self@.trace,
    {
        &self.back_trace
    }

    /// Adds an answer to the table of answers about floats. An answer to
    /// a question that the table answers already is not read.
    pub fn add_float_fact(&mut self, query: FloatQuery, answer: FloatAnswer)
        ensures
            final(self)@ == old(self)@,
            final(self).limit() == old(self).limit(),
            final(self).facts() == old(self).facts().push(
                FloatFactV { query: query@, answer: answer@ },
            ),
    {
        self.facts.push(FloatFact { query, answer });
        proof {
            assert(self.facts() =~= old(self).facts().push(
                FloatFactV { query: query@, answer: answer@ },
            ));
        }
    }

    /// The value a name has in the global environment.
    pub fn lookup_global(&self, name: &String) -> (r: Result<py_val_t, EvalError>)
        ensures
            agrees(r, lookup_global(self@, name@)),
    {
        match self.global_env.get(name) {
            Some(Slot::Value(v)) => Ok(share(v)),
            _ => Err(EvalError::NameError(name.clone())),
        }
    }

    /// The value that is bound to the name of an operator.
    pub fn lookup_operator(&self, name: &str) -> (r: Result<py_val_t, EvalError>)
        ensures
            agrees(r, lookup_global(self@, name@)),
    {
        let owned = name.to_owned();
        self.lookup_global(&owned)
    }

    /// Reads a name.
    pub fn get_env(&self, local_env: &mut LocalEnv, key: &String) -> (r: Result<
        py_val_t,
        EvalError,
    >)
        ensures
            frame_view(*final(local_env)) == read_name(
                self@,
                frame_view(*old(local_env)),
                key@,
            ).frame,
            agrees(r, read_name(self@, frame_view(*old(local_env)), key@).result),
    {
        match local_env {
            None => self.lookup_global(key),
            Some(frame) => {
                match frame.vars.get(key) {
                    Some(Slot::Value(v)) => Ok(share(v)),
                    Some(Slot::Global) => self.lookup_global(key),
                    None => {
                        note(&mut frame.reads, key);
                        self.lookup_global(key)
                    },
                }
            },
        }
    }

    /// Binds a name.
    pub fn set_env(&mut self, local_env: &mut LocalEnv, key: &String, value: py_val_t)
        ensures
            final(self)@ == bind_name(old(self)@, frame_view(*old(local_env)), key@, value@).0,
            frame_view(*final(local_env)) == bind_name(
                old(self)@,
                frame_view(*old(local_env)),
                key@,
                value@,
            ).1,
            final(self).facts() == old(self).facts(),
            final(self).limit() == old(self).limit(),
    {
        match local_env {
            None => {
                self.global_env.put(key.clone(), Slot::Value(value));
            },
            Some(frame) => {
                let declared_global = match frame.vars.get(key) {
                    Some(Slot::Global) => true,
                    _ => false,
                };
                if declared_global {
                    self.global_env.put(key.clone(), Slot::Value(value));
                } else {
                    frame.vars.put(key.clone(), Slot::Value(value));
                }
            },
        }
    }

    /// Declares names `global` in the frame of the call in progress.
    pub fn declare(&self, local_env: &mut LocalEnv, names: &Vec<String>) -> (r: Result<
        (),
        EvalError,
    >)
        ensures
            frame_view(*final(local_env)) == declare_globals(
                frame_view(*old(local_env)),
                names_view(names@),
                0,
            ).0,
            match r {
                Ok(_) => declare_globals(
                    frame_view(*old(local_env)),
                    names_view(names@),
                    0,
                ).1 == Ok::<(), EvalErrorV>(()),
                Err(e) => declare_globals(
                    frame_view(*old(local_env)),
                    names_view(names@),
                    0,
                ).1 == Err::<(), EvalErrorV>(e@),
            },
    {
        proof {
            lemma_names_view(names@);
        }
        let ghost goal = declare_globals(frame_view(*local_env), names_view(names@), 0);
        let mut i: usize = 0;
        while i < names.len()
            invariant
                i <= names.len(),
                names_view(names@).len() == names@.len(),
                declare_globals(frame_view(*local_env), names_view(names@), i as int) == goal,
                goal == declare_globals(frame_view(*old(local_env)), names_view(names@), 0),
            decreases names.len() - i,
        {
            proof {
                lemma_names_view(names@);
            }
            match local_env {
                None => {},
                Some(frame) => {
                    if frame.vars.get(&names[i]).is_some() || has_name(&frame.reads, &names[i]) {
                        return Err(EvalError::RuntimeError(Fault::GlobalAfterUse));
                    }
                    frame.vars.put(names[i].clone(), Slot::Global);
                },
            }
            i = i + 1;
        }
        Ok(())
    }

    /// Notes that a call of `name` is in progress.
    pub fn enter(&mut self, name: &String)
        ensures
            final(self)@ == entered(old(self)@, name@),
            final(self).facts() == old(self).facts(),
            final(self).limit() == old(self).limit(),
    {
        proof {
            lemma_names_push(self.back_trace@, *name);
        }
        self.back_trace.push(name.clone());
    }

    /// Notes that the innermost call is over.
    pub fn leave(&mut self)
        ensures
            final(self)@ == left(old(self)@),
            final(self).facts() == old(self).facts(),
            final(self).limit() == old(self).limit(),
    {
        proof {
            lemma_names_view(self.back_trace@);
        }
        let _ = self.back_trace.pop();
        proof {
            lemma_names_view(self.back_trace@);
            lemma_names_view(old(self).back_trace@);
            assert(names_view(self.back_trace@) =~= left(old(self)@).trace);
        }
    }

    /// Calls a built-in.
    pub fn native(&mut self, name: &String, arity: usize, body: Native, args: &Vec<py_val_t>) -> (r:
        Result<py_val_t, EvalError>)
        ensures
            final(self)@ == call_native_value(
                old(self).facts(),
                old(self)@,
                NativeV { name: name@, arity: arity as nat, body },
                values_view(args@),
            ).0,
            agrees(
                r,
                call_native_value(
                    old(self).facts(),
                    old(self)@,
                    NativeV { name: name@, arity: arity as nat, body },
                    values_view(args@),
                ).1,
            ),
            final(self).facts() == old(self).facts(),
            final(self).limit() == old(self).limit(),
    {
        proof {
            crate::eval::types::lemma_values_view(args@);
        }
        if arity != args.len() {
            return Err(EvalError::TypeError);
        }
        let r = call_native(body, args, &self.facts, &mut self.output);
        if r.is_err() {
            self.enter(name);
        }
        r
    }

    /// The value of a float literal.
    pub fn float_literal(&self, text: &String) -> (r: Result<py_val_t, EvalError>)
        ensures
            agrees(r, constant_value(self.facts(), crate::ast::ConstantV::Float(text@))),
    {
        let query = FloatQuery::parse(text.clone());
        match find_answer(&self.facts, &query) {
            Some(answer) => Ok(py_val::make_float(answer.bits)),
            None => Err(EvalError::NeedsFloat(query)),
        }
    }
}

/// Whether `name` is among `names`.
pub fn has_name(names: &Vec<String>, name: &String) -> (r: bool)
    ensures
        r == names_view(names@).contains(name@),
{
    proof {
        lemma_names_view(names@);
    }
    let mut i: usize = 0;
    while i < names.len()
        invariant
            i <= names.len(),
            names_view(names@).len() == names@.len(),
            forall|j: int| 0 <= j < i ==> names_view(names@)[j] != name@,
        decreases names.len() - i,
    {
        proof {
            lemma_names_view(names@);
        }
        if names[i] == *name {
            assert(names_view(names@)[i as int] == name@);
            return true;
        }
        i = i + 1;
    }
    false
}

} // verus!
