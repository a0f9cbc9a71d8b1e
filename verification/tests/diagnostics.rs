use minipython::errors::{
    diagnostic, eol_while_string, invalid_syntax, invalid_token, lex_diagnostic, name_error,
    parse_diagnostic, unexpected_token, wrong_indent, ErrorKind, EvalError, Fault, LexError,
    ParseError,
};
use minipython::eval::types::py_val;
use minipython::parser::Parser;
use minipython::tokenizer::Tokenizer;

#[test]
fn po() {
    let a = py_val::make_int(4);
    let b = py_val::make_int(5);
    println!("{:p}", py_val::add_int(&a, &b));
    println!("{:#?}", a);
    assert_eq!(py_val::get_int(&py_val::add_int(&a, &b)), 9);
    let c = py_val::make_char('a');
    assert_eq!(py_val::get_char(&c), 'a');
}

#[test]
fn small_values() {
    assert!(py_val::is_int(&py_val::make_int(0)));
    assert!(!py_val::is_int(&py_val::make_char('0')));
    assert!(py_val::is_char(&py_val::make_char('x')));
    assert!(!py_val::is_char(&py_val::make_int(1)));
    assert_eq!(py_val::get_int(&py_val::make_int(-7)), -7);
}

#[test]
fn diagnostic_shows_file_line_caret_and_message() {
    assert_eq!(
        diagnostic("a.py", 12, "x = $", "SyntaxError: unexpected character"),
        "File a.py, line 12\nx = $\n     ^\nSyntaxError: unexpected character"
    );
    assert_eq!(diagnostic("a.py", 0, "", "m"), "File a.py, line 0\n\n^\nm");
}

fn failed_tokenizer(source: &str) -> (Tokenizer, LexError) {
    let mut tokenizer = Tokenizer::new("a.py", source.as_bytes().to_vec());
    loop {
        if let Err(e) = tokenizer.next_token() {
            return (tokenizer, e);
        }
    }
}

#[test]
fn tokenizer_diagnostics() {
    let (tokenizer, e) = failed_tokenizer("x = 1\ny = 01\n");
    assert_eq!(e, LexError::InvalidToken);
    assert_eq!(tokenizer.get_current_line(), 2);
    assert_eq!(
        invalid_token(&tokenizer),
        "File a.py, line 2\ny = 01\n\n       ^\nSyntaxError: invalid token"
    );
    assert_eq!(lex_diagnostic(&tokenizer, e), invalid_token(&tokenizer));
    let (tokenizer, e) = failed_tokenizer("s = \"abc");
    assert_eq!(e, LexError::EolInString);
    assert_eq!(
        eol_while_string(&tokenizer),
        "File a.py, line 1\ns = \"abc\n        ^\nSyntaxError: EOL while scanning string literal"
    );
    let (tokenizer, e) = failed_tokenizer("a ? b");
    assert_eq!(e, LexError::UnexpectedCharacter);
    assert_eq!(
        invalid_syntax(&tokenizer),
        "File a.py, line 1\na ?\n   ^\nSyntaxError: unexpected character"
    );
    let (tokenizer, e) = failed_tokenizer("if x:\n        y\n    z\n");
    assert_eq!(e, LexError::UnindentMismatch);
    assert_eq!(
        wrong_indent(&tokenizer),
        "File a.py, line 3\n    z\n     ^\nIndentationError: unindent does not match any outer indentation level"
    );
}

#[test]
fn parser_diagnostics() {
    let mut parser = Parser::new("a.py", b"x = 1\ny = = 2\n".to_vec());
    assert_eq!(parser.parse(), Err(ParseError::UnexpectedToken));
    assert_eq!(
        unexpected_token(&parser),
        "File a.py, line 2\ny = = \n      ^\nSyntaxError: unexpected token"
    );
    assert_eq!(parse_diagnostic(&parser, ParseError::UnexpectedToken), unexpected_token(&parser));
}

#[test]
fn evaluation_messages() {
    assert_eq!(name_error(&String::from("x")), "Name Error: x is not defined");
    assert_eq!(EvalError::NameError(String::from("x")).message(), "Name Error: x is not defined");
    assert_eq!(EvalError::IndexError.message(), "IndexError: index out of range");
    assert_eq!(EvalError::ZeroDivisionError.message(), "ZeroDivisionError: division by zero");
    assert_eq!(EvalError::TypeError.kind(), ErrorKind::TypeError);
    assert_eq!(EvalError::IndexError.kind(), ErrorKind::IndexError);
    assert_eq!(EvalError::ZeroDivisionError.kind(), ErrorKind::ZeroDivisionError);
    assert_eq!(EvalError::RuntimeError(Fault::Panic).kind(), ErrorKind::RuntimeError);
    assert_eq!(EvalError::RuntimeError(Fault::Panic).message(), "RuntimeError: panic");
    assert_eq!(Fault::Overflow.message(), "RuntimeError: integer out of range");
    assert_eq!(Fault::OutsideLoop.message(), "RuntimeError: outside loop");
    assert_eq!(Fault::OutsideFunction.message(), "RuntimeError: outside function");
    assert_eq!(Fault::LimitReached.message(), "RuntimeError: limit reached");
}
