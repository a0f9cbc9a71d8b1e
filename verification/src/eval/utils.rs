//! The names under which operators are looked up in the global
//! environment.
//!
//! The evaluator computes no operator itself. It looks up the name that
//! belongs to the operator and calls what is bound to it, so a program that
//! binds the name again changes what the operator does.

use vstd::prelude::*;
use crate::ast::{ASTCmpOp, ASTOperator, ASTUnaryOp};

verus! {

/// The name that a binary operator is looked up under.
pub open spec fn operator_name(op: ASTOperator) -> Seq<char> {
    match op {
        ASTOperator::Add => "__add__"@,
        ASTOperator::Sub => "__sub__"@,
        ASTOperator::Mul => "__mul__"@,
        ASTOperator::Div => "__div__"@,
        ASTOperator::Mod => "__mod__"@,
        ASTOperator::LShift => "__lshift__"@,
        ASTOperator::RShift => "__rshift__"@,
        ASTOperator::BitOr => "__or__"@,
        ASTOperator::BitXor => "__xor__"@,
        ASTOperator::BitAnd => "__and__"@,
    }
}

/// The name that a unary operator is looked up under.
pub open spec fn unary_operator_name(op: ASTUnaryOp) -> Seq<char> {
    match op {
        ASTUnaryOp::Invert => "__invert__"@,
        ASTUnaryOp::Not => "__not__"@,
        ASTUnaryOp::UAdd => "__plus__"@,
        ASTUnaryOp::USub => "__minus__"@,
    }
}

/// The name that a comparison operator is looked up under.
pub open spec fn compare_operator_name(op: ASTCmpOp) -> Seq<char> {
    match op {
        ASTCmpOp::Eq => "__eq__"@,
        ASTCmpOp::NotEq => "__neq__"@,
        ASTCmpOp::Lt => "__lt__"@,
        ASTCmpOp::LtE => "__le__"@,
        ASTCmpOp::Gt => "__gt__"@,
        ASTCmpOp::GtE => "__ge__"@,
        ASTCmpOp::Is => "__is__"@,
        ASTCmpOp::IsNot => "__is_not__"@,
        ASTCmpOp::In => "__in__"@,
        ASTCmpOp::NotIn => "__not_in__"@,
    }
}

pub fn operator_to_function_name(op: &ASTOperator) -> (name: &'static str)
    ensures
        name@ == operator_name(*op),
{
    match op {
        ASTOperator::Add => "__add__",
        ASTOperator::Sub => "__sub__",
        ASTOperator::Mul => "__mul__",
        ASTOperator::Div => "__div__",
        ASTOperator::Mod => "__mod__",
        ASTOperator::LShift => "__lshift__",
        ASTOperator::RShift => "__rshift__",
        ASTOperator::BitOr => "__or__",
        ASTOperator::BitXor => "__xor__",
        ASTOperator::BitAnd => "__and__",
    }
}

pub fn unary_operator_to_function_name(op: &ASTUnaryOp) -> (name: &'static str)
    ensures
        name@ == unary_operator_name(*op),
{
    match op {
        ASTUnaryOp::Invert => "__invert__",
        ASTUnaryOp::Not => "__not__",
        ASTUnaryOp::UAdd => "__plus__",
        ASTUnaryOp::USub => "__minus__",
    }
}

pub fn compare_operator_to_function_name(op: &ASTCmpOp) -> (name: &'static str)
    ensures
        name@ == compare_operator_name(*op),
{
    match op {
        ASTCmpOp::Eq => "__eq__",
        ASTCmpOp::NotEq => "__neq__",
        ASTCmpOp::Lt => "__lt__",
        ASTCmpOp::LtE => "__le__",
        ASTCmpOp::Gt => "__gt__",
        ASTCmpOp::GtE => "__ge__",
        ASTCmpOp::Is => "__is__",
        ASTCmpOp::IsNot => "__is_not__",
        ASTCmpOp::In => "__in__",
        ASTCmpOp::NotIn => "__not_in__",
    }
}

} // verus!
