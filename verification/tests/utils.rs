use minipython::ast::{ASTCmpOp, ASTOperator, ASTUnaryOp};
use minipython::eval::utils::{
    compare_operator_to_function_name, operator_to_function_name, unary_operator_to_function_name,
};

#[test]
fn binary_operator_names() {
    assert_eq!(operator_to_function_name(&ASTOperator::Add), "__add__");
    assert_eq!(operator_to_function_name(&ASTOperator::Sub), "__sub__");
    assert_eq!(operator_to_function_name(&ASTOperator::Mul), "__mul__");
    assert_eq!(operator_to_function_name(&ASTOperator::Div), "__div__");
    assert_eq!(operator_to_function_name(&ASTOperator::Mod), "__mod__");
    assert_eq!(operator_to_function_name(&ASTOperator::LShift), "__lshift__");
    assert_eq!(operator_to_function_name(&ASTOperator::RShift), "__rshift__");
    assert_eq!(operator_to_function_name(&ASTOperator::BitOr), "__or__");
    assert_eq!(operator_to_function_name(&ASTOperator::BitXor), "__xor__");
    assert_eq!(operator_to_function_name(&ASTOperator::BitAnd), "__and__");
}

#[test]
fn unary_operator_names() {
    assert_eq!(unary_operator_to_function_name(&ASTUnaryOp::Invert), "__invert__");
    assert_eq!(unary_operator_to_function_name(&ASTUnaryOp::Not), "__not__");
    assert_eq!(unary_operator_to_function_name(&ASTUnaryOp::UAdd), "__plus__");
    assert_eq!(unary_operator_to_function_name(&ASTUnaryOp::USub), "__minus__");
}

#[test]
fn comparison_operator_names() {
    assert_eq!(compare_operator_to_function_name(&ASTCmpOp::Eq), "__eq__");
    assert_eq!(compare_operator_to_function_name(&ASTCmpOp::NotEq), "__neq__");
    assert_eq!(compare_operator_to_function_name(&ASTCmpOp::Lt), "__lt__");
    assert_eq!(compare_operator_to_function_name(&ASTCmpOp::LtE), "__le__");
    assert_eq!(compare_operator_to_function_name(&ASTCmpOp::Gt), "__gt__");
    assert_eq!(compare_operator_to_function_name(&ASTCmpOp::GtE), "__ge__");
    assert_eq!(compare_operator_to_function_name(&ASTCmpOp::Is), "__is__");
    assert_eq!(compare_operator_to_function_name(&ASTCmpOp::IsNot), "__is_not__");
    assert_eq!(compare_operator_to_function_name(&ASTCmpOp::In), "__in__");
    assert_eq!(compare_operator_to_function_name(&ASTCmpOp::NotIn), "__not_in__");
}
