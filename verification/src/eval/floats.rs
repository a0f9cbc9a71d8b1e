//! Questions about floats, and the answers a caller hands in.
//!
//! This crate computes nothing on floats. Where a program needs the result
//! of a float operation, the evaluator looks the operation up in a table of
//! answers it was given. Where the table holds no answer, evaluation stops
//! with [`crate::errors::EvalError::NeedsFloat`], which names the question;
//! the caller computes the answer, adds it to the table and evaluates
//! again. An operation on floats is a function of its operands, so an
//! answer once given holds for the whole run.

use vstd::prelude::*;

verus! {

/// The operations on floats that a program can ask for.
#[derive(Clone, Copy, Debug, PartialEq, Eq, Structural)]
pub enum FloatOp {
    /// The float that a literal writes; the answer is its bits.
    Parse,
    /// The float nearest to an integer; the answer is its bits.
    FromInt,
    /// The largest integer not above a float; the answer is that number.
    Floor,
    /// The text that prints a float.
    Repr,
    Add,
    Sub,
    Mul,
    Div,
    Rem,
    /// The order of two floats; the answer is the number -1, 0 or 1.
    Compare,
}

/// A question: an operation and its operands. Operands that the operation
/// does not take are zero or empty.
#[derive(Debug, PartialEq)]
pub struct FloatQuery {
    pub op: FloatOp,
    /// The bits of the first float operand.
    pub left: u64,
    /// The bits of the second float operand.
    pub right: u64,
    /// The integer operand.
    pub number: i64,
    /// The text operand.
    pub text: String,
}

/// An answer. Parts that the operation does not yield are not read.
#[derive(Debug, PartialEq)]
pub struct FloatAnswer {
    pub bits: u64,
    pub number: i64,
    pub text: String,
}

/// A question with its answer.
#[derive(Debug, PartialEq)]
pub struct FloatFact {
    pub query: FloatQuery,
    pub answer: FloatAnswer,
}

/// A question as contracts see it.
pub struct FloatQueryV {
    pub op: FloatOp,
    pub left: u64,
    pub right: u64,
    pub number: i64,
    pub text: Seq<char>,
}

/// An answer as contracts see it.
pub struct FloatAnswerV {
    pub bits: u64,
    pub number: i64,
    pub text: Seq<char>,
}

/// A question with its answer, as contracts see them.
pub struct FloatFactV {
    pub query: FloatQueryV,
    pub answer: FloatAnswerV,
}

impl View for FloatQuery {
    type V = FloatQueryV;

    open spec fn view(&self) -> FloatQueryV {
        FloatQueryV {
            op: self.op,
            left: self.left,
            right: self.right,
            number: self.number,
            text: self.text@,
        }
    }
}

impl View for FloatAnswer {
    type V = FloatAnswerV;

    open spec fn view(&self) -> FloatAnswerV {
        FloatAnswerV { bits: self.bits, number: self.number, text: self.text@ }
    }
}

impl View for FloatFact {
    type V = FloatFactV;

    open spec fn view(&self) -> FloatFactV {
        FloatFactV { query: self.query@, answer: self.answer@ }
    }
}

/// The question for the float that a literal writes.
pub open spec fn query_parse(text: Seq<char>) -> FloatQueryV {
    FloatQueryV { op: FloatOp::Parse, left: 0, right: 0, number: 0, text }
}

/// The question for the float nearest to an integer.
pub open spec fn query_from_int(number: i64) -> FloatQueryV {
    FloatQueryV { op: FloatOp::FromInt, left: 0, right: 0, number, text: Seq::empty() }
}

/// A question with one float operand.
pub open spec fn query_unary(op: FloatOp, bits: u64) -> FloatQueryV {
    FloatQueryV { op, left: bits, right: 0, number: 0, text: Seq::empty() }
}

/// A question with two float operands.
pub open spec fn query_binary(op: FloatOp, left: u64, right: u64) -> FloatQueryV {
    FloatQueryV { op, left, right, number: 0, text: Seq::empty() }
}

/// The views of a table of answers.
pub open spec fn facts_view(facts: Seq<FloatFact>) -> Seq<FloatFactV> {
    Seq::new(facts.len(), |i: int| facts[i]@)
}

/// The answer to `query` in the table from index `i` on: that of the first
/// entry with this question.
pub open spec fn facts_find_from(facts: Seq<FloatFactV>, query: FloatQueryV, i: int) -> Option<
    FloatAnswerV,
>
    decreases facts.len() - i,
{
    if i < 0 || i >= facts.len() {
        None
    } else if facts[i].query == query {
        Some(facts[i].answer)
    } else {
        facts_find_from(facts, query, i + 1)
    }
}

/// The answer to `query` in the table.
pub open spec fn facts_find(facts: Seq<FloatFactV>, query: FloatQueryV) -> Option<FloatAnswerV> {
    facts_find_from(facts, query, 0)
}

impl FloatQuery {
    /// The question for the float that a literal writes.
    pub fn parse(text: String) -> (q: FloatQuery)
        ensures
            q@ == query_parse(text@),
    {
        FloatQuery { op: FloatOp::Parse, left: 0, right: 0, number: 0, text }
    }

    /// The question for the float nearest to an integer.
    pub fn from_int(number: i64) -> (q: FloatQuery)
        ensures
            q@ == query_from_int(number),
    {
        FloatQuery { op: FloatOp::FromInt, left: 0, right: 0, number, text: String::new() }
    }

    /// A question with one float operand.
    pub fn unary(op: FloatOp, bits: u64) -> (q: FloatQuery)
        ensures
            q@ == query_unary(op, bits),
    {
        FloatQuery { op, left: bits, right: 0, number: 0, text: String::new() }
    }

    /// A question with two float operands.
    pub fn binary(op: FloatOp, left: u64, right: u64) -> (q: FloatQuery)
        ensures
            q@ == query_binary(op, left, right),
    {
        FloatQuery { op, left, right, number: 0, text: String::new() }
    }

    /// Whether two questions are the same.
    pub fn same(&self, other: &FloatQuery) -> (r: bool)
        ensures
            r == (self@ == other@),
    {
        self.op == other.op && self.left == other.left && self.right == other.right
            && self.number == other.number && self.text == other.text
    }
}

/// The answer to `query` in the table.
pub fn find_answer<'a>(facts: &'a Vec<FloatFact>, query: &FloatQuery) -> (r: Option<&'a FloatAnswer>)
    ensures
        match r {
            Some(answer) => facts_find(facts_view(facts@), query@) == Some(answer@),
            None => facts_find(facts_view(facts@), query@) is None,
        },
{
    let mut i: usize = 0;
    while i < facts.len()
        invariant
            i <= facts.len(),
            facts_find(facts_view(facts@), query@) == facts_find_from(
                facts_view(facts@),
                query@,
                i as int,
            ),
        decreases facts.len() - i,
    {
        if facts[i].query.same(query) {
            return Some(&facts[i].answer);
        }
        i = i + 1;
    }
    None
}

} // verus!
