use minipython::ast::{ASTBoolOp, ASTCmpOp, ASTConstant, ASTExpr, ASTOperator, ASTSlice, ASTStmt, ASTUnaryOp};
use minipython::errors::{ErrorKind, LexError, ParseError};
use minipython::parser::Parser;

const TEST_1: &str = "print(1 + 2)\n";

const TEST_2: &str = "def test(poi):\n    a = 1.0\n    print(a)\nif __name__ == \"__main__\":\n    test(2)\n";

const FIZZBUZZ: &str = "for i in range(100):\n    if i % 15 == 0:\n        print(\"fizzbuzz\")\n    elif i % 5 == 0:\n        print(\"fizz\")\n    elif i % 3 == 0:\n        print(\"buzz\")\n    else:\n        print(i)\n";

const TEST_3: &str = "print([1, 2, 3])";

fn parse(source: &str) -> Result<Vec<ASTStmt>, ParseError> {
    Parser::new("test.py", source.as_bytes().to_vec()).parse()
}

fn expr(source: &str) -> ASTExpr {
    let mut tree = parse(source).unwrap();
    assert_eq!(tree.len(), 1);
    match tree.pop().unwrap() {
        ASTStmt::Expr(e) => e,
        other => panic!("not an expression statement: {:?}", other),
    }
}

fn name(s: &str) -> ASTExpr {
    ASTExpr::Name(String::from(s))
}

fn num(n: i64) -> ASTExpr {
    ASTExpr::Constant(ASTConstant::Int(n))
}

fn call(f: &str, args: Vec<ASTExpr>) -> ASTExpr {
    ASTExpr::Call(Box::new(name(f)), args)
}

fn bin(l: ASTExpr, op: ASTOperator, r: ASTExpr) -> ASTExpr {
    ASTExpr::BinOp(Box::new(l), op, Box::new(r))
}

#[test]
fn test_test_1() {
    let mut parser = Parser::new("testcase/test_1.py", TEST_1.as_bytes().to_vec());
    let ast = parser.parse().unwrap();
    assert_eq!(
        ast,
        vec![ASTStmt::Expr(ASTExpr::Call(
            Box::new(ASTExpr::Name(String::from("print"))),
            vec![ASTExpr::BinOp(
                Box::new(ASTExpr::Constant(ASTConstant::Int(1))),
                ASTOperator::Add,
                Box::new(ASTExpr::Constant(ASTConstant::Int(2)))
            )],
        ))]
    );
}

#[test]
fn parser_test_test_2() {
    let mut parser = Parser::new("testcase/test_2.py", TEST_2.as_bytes().to_vec());
    let ast = parser.parse().unwrap();
    assert_eq!(
        ast,
        vec![
            ASTStmt::FuncDef(
                String::from("test"),
                vec![String::from("poi")],
                vec![
                    ASTStmt::Assign(
                        vec![ASTExpr::Name(String::from("a"))],
                        ASTExpr::Constant(ASTConstant::Float(String::from("1.0")))
                    ),
                    ASTStmt::Expr(ASTExpr::Call(
                        Box::new(ASTExpr::Name(String::from("print"))),
                        vec![ASTExpr::Name(String::from("a"))]
                    ))
                ]
            ),
            ASTStmt::If(
                ASTExpr::Compare(
                    Box::new(ASTExpr::Name(String::from("__name__"))),
                    vec![ASTCmpOp::Eq],
                    vec![ASTExpr::Constant(ASTConstant::String(String::from(
                        "__main__"
                    )))]
                ),
                vec![ASTStmt::Expr(ASTExpr::Call(
                    Box::new(ASTExpr::Name(String::from("test"))),
                    vec![ASTExpr::Constant(ASTConstant::Int(2))]
                ))],
                Vec::new()
            )
        ]
    )
}

#[test]
fn parser_test_fizzbuzz() {
    let mut parser = Parser::new("testcase/fizzbuzz.py", FIZZBUZZ.as_bytes().to_vec());
    let ast = parser.parse().unwrap();
    assert_eq!(
        ast,
        vec![ASTStmt::For(
            ASTExpr::Name(String::from("i")),
            ASTExpr::Call(
                Box::new(ASTExpr::Name(String::from("range"))),
                vec![ASTExpr::Constant(ASTConstant::Int(100))]
            ),
            vec![ASTStmt::If(
                ASTExpr::Compare(
                    Box::new(ASTExpr::BinOp(
                        Box::new(ASTExpr::Name(String::from("i"))),
                        ASTOperator::Mod,
                        Box::new(ASTExpr::Constant(ASTConstant::Int(15)))
                    )),
                    vec![ASTCmpOp::Eq],
                    vec![ASTExpr::Constant(ASTConstant::Int(0))]
                ),
                vec![ASTStmt::Expr(ASTExpr::Call(
                    Box::new(ASTExpr::Name(String::from("print"))),
                    vec![ASTExpr::Constant(ASTConstant::String(String::from(
                        "fizzbuzz"
                    )))],
                ))],
                vec![ASTStmt::If(
                    ASTExpr::Compare(
                        Box::new(ASTExpr::BinOp(
                            Box::new(ASTExpr::Name(String::from("i"))),
                            ASTOperator::Mod,
                            Box::new(ASTExpr::Constant(ASTConstant::Int(5)))
                        )),
                        vec![ASTCmpOp::Eq],
                        vec![ASTExpr::Constant(ASTConstant::Int(0))]
                    ),
                    vec![ASTStmt::Expr(ASTExpr::Call(
                        Box::new(ASTExpr::Name(String::from("print"))),
                        vec![ASTExpr::Constant(ASTConstant::String(String::from("fizz")))],
                    ))],
                    vec![ASTStmt::If(
                        ASTExpr::Compare(
                            Box::new(ASTExpr::BinOp(
                                Box::new(ASTExpr::Name(String::from("i"))),
                                ASTOperator::Mod,
                                Box::new(ASTExpr::Constant(ASTConstant::Int(3)))
                            )),
                            vec![ASTCmpOp::Eq],
                            vec![ASTExpr::Constant(ASTConstant::Int(0))]
                        ),
                        vec![ASTStmt::Expr(ASTExpr::Call(
                            Box::new(ASTExpr::Name(String::from("print"))),
                            vec![ASTExpr::Constant(ASTConstant::String(String::from("buzz")))],
                        ))],
                        vec![ASTStmt::Expr(ASTExpr::Call(
                            Box::new(ASTExpr::Name(String::from("print"))),
                            vec![ASTExpr::Name(String::from("i"))]
                        ))]
                    )]
                )],
            )]
        )]
    );
}

#[test]
fn parser_test_test_3() {
    let mut parser = Parser::new("testcase/test_3.py", TEST_3.as_bytes().to_vec());
    let ast = parser.parse().unwrap();
    assert_eq!(
        ast,
        vec![ASTStmt::Expr(ASTExpr::Call(
            Box::new(ASTExpr::Name(String::from("print"))),
            vec![ASTExpr::List(vec![
                ASTExpr::Constant(ASTConstant::Int(1)),
                ASTExpr::Constant(ASTConstant::Int(2)),
                ASTExpr::Constant(ASTConstant::Int(3))
            ])],
        ))]
    );
}

#[test]
fn parsing_twice_gives_the_same_tree() {
    assert_eq!(parse(FIZZBUZZ), parse(FIZZBUZZ));
    assert_eq!(parse("x = = 1\n"), parse("x = = 1\n"));
}

#[test]
fn empty_parentheses_are_the_empty_tuple() {
    assert_eq!(expr("()"), ASTExpr::Tuple(vec![]));
}

#[test]
fn trailing_comma_makes_a_tuple_of_one() {
    assert_eq!(expr("(x,)"), ASTExpr::Tuple(vec![name("x")]));
}

#[test]
fn parentheses_alone_make_no_tuple() {
    assert_eq!(expr("(x)"), name("x"));
    assert_eq!(expr("(x, y)"), ASTExpr::Tuple(vec![name("x"), name("y")]));
}

#[test]
fn lists_and_braces() {
    assert_eq!(expr("[]"), ASTExpr::List(vec![]));
    assert_eq!(expr("[x,]"), ASTExpr::List(vec![name("x")]));
    assert_eq!(expr("{1}"), ASTExpr::SetDisplay(vec![num(1)]));
    assert_eq!(expr("{1, 2,}"), ASTExpr::SetDisplay(vec![num(1), num(2)]));
    assert_eq!(
        expr("{1: 2, 3: 4}"),
        ASTExpr::Dict(vec![num(1), num(3)], vec![num(2), num(4)])
    );
    assert_eq!(parse("{}"), Err(ParseError::UnexpectedToken));
}

#[test]
fn elif_becomes_a_nested_if() {
    let tree = parse("if a: x\nelif b: y\nelse: z\n").unwrap();
    assert_eq!(
        tree,
        vec![ASTStmt::If(
            name("a"),
            vec![ASTStmt::Expr(name("x"))],
            vec![ASTStmt::If(
                name("b"),
                vec![ASTStmt::Expr(name("y"))],
                vec![ASTStmt::Expr(name("z"))]
            )]
        )]
    );
}

#[test]
fn else_attaches_as_it_is_and_may_be_missing() {
    assert_eq!(
        parse("if a: x\nelse: z\n").unwrap(),
        vec![ASTStmt::If(name("a"), vec![ASTStmt::Expr(name("x"))], vec![ASTStmt::Expr(name("z"))])]
    );
    assert_eq!(
        parse("if a: x\n").unwrap(),
        vec![ASTStmt::If(name("a"), vec![ASTStmt::Expr(name("x"))], vec![])]
    );
}

#[test]
fn binary_operators_group_to_the_left() {
    assert_eq!(
        expr("1 - 2 - 3"),
        bin(bin(num(1), ASTOperator::Sub, num(2)), ASTOperator::Sub, num(3))
    );
    assert_eq!(
        expr("1 + 2 * 3"),
        bin(num(1), ASTOperator::Add, bin(num(2), ASTOperator::Mul, num(3)))
    );
    assert_eq!(
        expr("1 | 2 ^ 3 & 4 << 5 + 6 % 7"),
        bin(
            num(1),
            ASTOperator::BitOr,
            bin(
                num(2),
                ASTOperator::BitXor,
                bin(
                    num(3),
                    ASTOperator::BitAnd,
                    bin(
                        num(4),
                        ASTOperator::LShift,
                        bin(num(5), ASTOperator::Add, bin(num(6), ASTOperator::Mod, num(7)))
                    )
                )
            )
        )
    );
}

#[test]
fn unary_operators() {
    assert_eq!(
        expr("-~+x"),
        ASTExpr::UnaryOp(
            ASTUnaryOp::USub,
            Box::new(ASTExpr::UnaryOp(
                ASTUnaryOp::Invert,
                Box::new(ASTExpr::UnaryOp(ASTUnaryOp::UAdd, Box::new(name("x"))))
            ))
        )
    );
    assert_eq!(
        expr("not not x"),
        ASTExpr::UnaryOp(
            ASTUnaryOp::Not,
            Box::new(ASTExpr::UnaryOp(ASTUnaryOp::Not, Box::new(name("x"))))
        )
    );
}

#[test]
fn comparison_chains_are_flat() {
    assert_eq!(
        expr("1 < 2 < 3"),
        ASTExpr::Compare(Box::new(num(1)), vec![ASTCmpOp::Lt, ASTCmpOp::Lt], vec![num(2), num(3)])
    );
    assert_eq!(
        expr("a not in b is not c is d in e >= f <= g != h > i"),
        ASTExpr::Compare(
            Box::new(name("a")),
            vec![
                ASTCmpOp::NotIn,
                ASTCmpOp::IsNot,
                ASTCmpOp::Is,
                ASTCmpOp::In,
                ASTCmpOp::GtE,
                ASTCmpOp::LtE,
                ASTCmpOp::NotEq,
                ASTCmpOp::Gt
            ],
            vec![name("b"), name("c"), name("d"), name("e"), name("f"), name("g"), name("h"), name("i")]
        )
    );
}

#[test]
fn boolean_chains_and_conditional() {
    assert_eq!(
        expr("a or b and c or d"),
        ASTExpr::BoolOp(
            ASTBoolOp::Or,
            vec![name("a"), ASTExpr::BoolOp(ASTBoolOp::And, vec![name("b"), name("c")]), name("d")]
        )
    );
    assert_eq!(
        expr("a if b else c"),
        ASTExpr::IfExp(Box::new(name("b")), Box::new(name("a")), Box::new(name("c")))
    );
}

#[test]
fn calls_and_subscripts_wrap_outwards() {
    assert_eq!(
        expr("f(x)[0](y, z)"),
        ASTExpr::Call(
            Box::new(ASTExpr::Subscript(
                Box::new(call("f", vec![name("x")])),
                ASTSlice::Index(Box::new(num(0)))
            )),
            vec![name("y"), name("z")]
        )
    );
    assert_eq!(
        expr("a[1:2:3]"),
        ASTExpr::Subscript(
            Box::new(name("a")),
            ASTSlice::Slice(Some(Box::new(num(1))), Some(Box::new(num(2))), Some(Box::new(num(3))))
        )
    );
    assert_eq!(
        expr("a[:]"),
        ASTExpr::Subscript(Box::new(name("a")), ASTSlice::Slice(None, None, None))
    );
    assert_eq!(
        expr("a[::2]"),
        ASTExpr::Subscript(Box::new(name("a")), ASTSlice::Slice(None, None, Some(Box::new(num(2)))))
    );
}

#[test]
fn chained_assignment_has_the_last_list_as_value() {
    assert_eq!(
        parse("a = b = 3\n").unwrap(),
        vec![ASTStmt::Assign(vec![name("a"), name("b")], num(3))]
    );
    assert_eq!(
        parse("a[0] = 1, 2\n").unwrap(),
        vec![ASTStmt::Assign(
            vec![ASTExpr::Subscript(Box::new(name("a")), ASTSlice::Index(Box::new(num(0))))],
            ASTExpr::Tuple(vec![num(1), num(2)])
        )]
    );
}

#[test]
fn small_statements() {
    assert_eq!(
        parse("pass\nbreak\ncontinue\nreturn\nreturn x\ndel a, b\nglobal g, h\n").unwrap(),
        vec![
            ASTStmt::Pass,
            ASTStmt::Break,
            ASTStmt::Continue,
            ASTStmt::Return(None),
            ASTStmt::Return(Some(name("x"))),
            ASTStmt::Delete(vec![name("a"), name("b")]),
            ASTStmt::Global(vec![String::from("g"), String::from("h")]),
        ]
    );
}

#[test]
fn last_statement_may_omit_newline() {
    assert_eq!(parse("x").unwrap(), vec![ASTStmt::Expr(name("x"))]);
    assert_eq!(parse("x y"), Err(ParseError::UnexpectedToken));
}

#[test]
fn compound_statements() {
    assert_eq!(
        parse("while x:\n    y\nfor a, b in c:\n    pass\ndef f():\n    return 1\n").unwrap(),
        vec![
            ASTStmt::While(name("x"), vec![ASTStmt::Expr(name("y"))]),
            ASTStmt::For(
                ASTExpr::Tuple(vec![name("a"), name("b")]),
                name("c"),
                vec![ASTStmt::Pass]
            ),
            ASTStmt::FuncDef(String::from("f"), vec![], vec![ASTStmt::Return(Some(num(1)))]),
        ]
    );
}

#[test]
fn constants() {
    assert_eq!(expr("None"), ASTExpr::Constant(ASTConstant::NoneValue));
    assert_eq!(expr("True"), ASTExpr::Constant(ASTConstant::True));
    assert_eq!(expr("False"), ASTExpr::Constant(ASTConstant::False));
    assert_eq!(expr("\"s\""), ASTExpr::Constant(ASTConstant::String(String::from("s"))));
    assert_eq!(expr(".5"), ASTExpr::Constant(ASTConstant::Float(String::from(".5"))));
}

#[test]
fn syntax_error_before_lexical_error_is_reported_first() {
    assert_eq!(parse("x y\n01\n"), Err(ParseError::UnexpectedToken));
    assert_eq!(parse("x\n01\n"), Err(ParseError::Lex(LexError::InvalidToken)));
    assert_eq!(parse("01\n"), Err(ParseError::Lex(LexError::InvalidToken)));
}

#[test]
fn error_kinds_and_messages() {
    assert_eq!(ParseError::UnexpectedToken.message(), "SyntaxError: unexpected token");
    assert_eq!(ParseError::UnexpectedToken.kind(), ErrorKind::SyntaxError);
    assert_eq!(ParseError::Lex(LexError::UnindentMismatch).kind(), ErrorKind::IndentationError);
    assert_eq!(
        ParseError::Lex(LexError::EolInString).message(),
        "SyntaxError: EOL while scanning string literal"
    );
}

#[test]
fn statement_by_statement() {
    let mut parser = Parser::new("test.py", b"x\n\ny\n".to_vec());
    assert_eq!(parser.get_next_stmt().unwrap(), Some(ASTStmt::Expr(name("x"))));
    parser.next_stmt().unwrap();
    assert_eq!(parser.get_current_stmt_ref(), &Some(ASTStmt::Expr(name("y"))));
    assert_eq!(parser.get_next_stmt().unwrap(), None);
    assert_eq!(parser.get_current_stmt_ref(), &None);
    assert_eq!(parser.get_file_name(), "test.py");
}

#[test]
fn positions_of_the_current_token() {
    let mut parser = Parser::new("test.py", b"x = 1\ny = = 2\n".to_vec());
    assert_eq!(parser.parse(), Err(ParseError::UnexpectedToken));
    assert_eq!(parser.get_current_token(), &minipython::token::Token::EQ);
    assert_eq!(parser.get_current_line(), 2);
    assert_eq!(parser.get_current_column(), 6);
    assert_eq!(parser.get_current_line_content(), "y = = ");
    assert_eq!(parser.get_current_char(), Some(' '));
    assert_eq!(parser.get_current_char_u8(), Some(b' '));
}

#[test]
fn no_token_at_all() {
    let mut parser = Parser::new("test.py", b"\"open".to_vec());
    assert_eq!(parser.get_current_token(), &minipython::token::Token::EMPTY);
    assert_eq!(parser.parse(), Err(ParseError::Lex(LexError::EolInString)));
    assert_eq!(parser.get_current_token(), &minipython::token::Token::EMPTY);
}
