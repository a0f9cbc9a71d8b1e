use minipython::errors::LexError;
use minipython::token::Token::{
    self, EQ, EQEQ, NEQ, GT, GEQ, RSHIFT, LT, LEQ, LSHIFT, PLUS, MINUS, MUL, DIV, MOD, TILDE, XOR, AMP, BAR, LPAREN, RPAREN, LBRACE, RBRACE, LBRACKET, RBRACKET, PERIOD, COMMA, COLON, NEWLINE, INT, FLOAT, STRING, ID, OR, AND, NOT, IS, IN, NONE, BREAK, CONTINUE, PASS, RETURN, DEL, GLOBAL, IF, ELIF, ELSE, FOR, WHILE, DEF, TRUE, FALSE, EOF, INDENT, DEDENT, EMPTY,
};
use minipython::tokenizer::Tokenizer;

const TEST_1: &str = "print(1 + 2)\n";

const TEST_2: &str = "def test(poi):\n    a = 1.0\n    print(a)\nif __name__ == \"__main__\":\n    test(2)\n";

const FIZZBUZZ: &str = "for i in range(100):\n    if i % 15 == 0:\n        print(\"fizzbuzz\")\n    elif i % 5 == 0:\n        print(\"fizz\")\n    elif i % 3 == 0:\n        print(\"buzz\")\n    else:\n        print(i)\n";

const TEST_3: &str = "print([1, 2, 3])";

fn test_tokenizer(file_name: &str, source: &str, expected: Vec<Token>) {
    let mut tokenizer = Tokenizer::new(file_name, source.as_bytes().to_vec());
    tokenizer.next_token().unwrap();
    for tok in expected.iter() {
        assert_eq!(tok, tokenizer.get_current_token());
        tokenizer.next_token().unwrap();
    }
}

fn tokens_of(source: &str) -> Result<Vec<Token>, LexError> {
    Tokenizer::new("test.py", source.as_bytes().to_vec()).tokenize()
}

#[test]
fn test_test_1_py() {
    test_tokenizer("testcase/test_1.py", TEST_1, vec![
        ID(String::from("print")), LPAREN, INT(1), PLUS, INT(2), RPAREN, NEWLINE, EOF
    ]);
}

#[test]
fn tokenizer_test_test_2() {
    test_tokenizer("testcase/test_2.py", TEST_2, vec![
        DEF, ID(String::from("test")), LPAREN, ID(String::from("poi")), RPAREN, COLON,
        NEWLINE, INDENT, ID(String::from("a")), EQ, FLOAT(String::from("1.0")), NEWLINE, ID(String::from("print")), LPAREN, ID(String::from("a")), RPAREN, NEWLINE, DEDENT, IF, ID(String::from("__name__")), EQEQ, STRING(String::from("__main__")), COLON, NEWLINE, INDENT, ID(String::from("test")), LPAREN, INT(2), RPAREN, NEWLINE, DEDENT, EOF
    ]);
}

#[test]
fn tokenizer_test_fizzbuzz() {
    test_tokenizer("testcase/fizzbuzz.py", FIZZBUZZ, vec![
        FOR, ID(String::from("i")), IN, ID(String::from("range")), LPAREN, INT(100), RPAREN, COLON, NEWLINE, INDENT, IF, ID(String::from("i")), MOD, INT(15), EQEQ, INT(0), COLON, NEWLINE, INDENT, ID(String::from("print")), LPAREN, STRING(String::from("fizzbuzz")), RPAREN, NEWLINE, DEDENT, ELIF, ID(String::from("i")), MOD, INT(5), EQEQ, INT(0), COLON, NEWLINE, INDENT, ID(String::from("print")), LPAREN, STRING(String::from("fizz")), RPAREN, NEWLINE, DEDENT, ELIF, ID(String::from("i")), MOD, INT(3), EQEQ, INT(0), COLON, NEWLINE, INDENT, ID(String::from("print")), LPAREN, STRING(String::from("buzz")), RPAREN, NEWLINE, DEDENT, ELSE, COLON, NEWLINE, INDENT, ID(String::from("print")), LPAREN, ID(String::from("i")), RPAREN, NEWLINE, DEDENT, DEDENT, EOF
    ]);
}

#[test]
fn tokenizer_test_test_3() {
    test_tokenizer("testcase/test_3.py", TEST_3, vec![
        ID(String::from("print")), LPAREN, LBRACKET, INT(1), COMMA, INT(2), COMMA, INT(3), RBRACKET, RPAREN, EOF
    ]);
}

#[test]
fn eof_is_idempotent() {
    let mut tokenizer = Tokenizer::new("test.py", b"x".to_vec());
    tokenizer.next_token().unwrap();
    assert_eq!(tokenizer.get_current_token(), &ID(String::from("x")));
    for _ in 0..3 {
        tokenizer.next_token().unwrap();
        assert_eq!(tokenizer.get_current_token(), &EOF);
    }
}

#[test]
fn first_token_is_produced_lazily() {
    let tokenizer = Tokenizer::new("test.py", b"x".to_vec());
    assert_eq!(tokenizer.get_current_token(), &EMPTY);
}

#[test]
fn two_byte_operators_win() {
    assert_eq!(
        tokens_of("= == != > >= >> < <= <<").unwrap(),
        vec![EQ, EQEQ, NEQ, GT, GEQ, RSHIFT, LT, LEQ, LSHIFT, EOF]
    );
}

#[test]
fn single_byte_operators() {
    assert_eq!(
        tokens_of("+ - * / % ~ ^ & | ( ) { } [ ] . , :").unwrap(),
        vec![
            PLUS, MINUS, MUL, DIV, MOD, TILDE, XOR, AMP, BAR, LPAREN, RPAREN, LBRACE, RBRACE,
            LBRACKET, RBRACKET, PERIOD, COMMA, COLON, EOF
        ]
    );
}

#[test]
fn bang_alone_is_an_error() {
    assert_eq!(tokens_of("a ! b"), Err(LexError::UnexpectedCharacter));
}

#[test]
fn unknown_byte_is_an_error() {
    assert_eq!(tokens_of("a $ b"), Err(LexError::UnexpectedCharacter));
}

#[test]
fn keywords_are_not_identifiers() {
    assert_eq!(
        tokens_of("or and not is in None break continue pass return del global if elif else for while def True False").unwrap(),
        vec![
            OR, AND, NOT, IS, IN, NONE, BREAK, CONTINUE, PASS, RETURN, DEL, GLOBAL, IF, ELIF,
            ELSE, FOR, WHILE, DEF, TRUE, FALSE, EOF
        ]
    );
    assert_eq!(
        tokens_of("orange _if if_ x1").unwrap(),
        vec![
            ID(String::from("orange")),
            ID(String::from("_if")),
            ID(String::from("if_")),
            ID(String::from("x1")),
            EOF
        ]
    );
}

#[test]
fn zero_is_a_literal() {
    assert_eq!(tokens_of("0").unwrap(), vec![INT(0), EOF]);
}

#[test]
fn leading_zero_is_an_error() {
    assert_eq!(tokens_of("01"), Err(LexError::InvalidToken));
}

#[test]
fn floats_with_and_without_leading_digits() {
    assert_eq!(tokens_of("0.5").unwrap(), vec![FLOAT(String::from("0.5")), EOF]);
    assert_eq!(tokens_of(".5").unwrap(), vec![FLOAT(String::from(".5")), EOF]);
    assert_eq!(tokens_of("1.").unwrap(), vec![FLOAT(String::from("1.")), EOF]);
    assert_eq!(tokens_of("a.b").unwrap(), vec![ID(String::from("a")), PERIOD, ID(String::from("b")), EOF]);
}

#[test]
fn largest_integer_literal() {
    assert_eq!(tokens_of("9223372036854775807").unwrap(), vec![INT(i64::MAX), EOF]);
    assert_eq!(tokens_of("9223372036854775808"), Err(LexError::IntegerOutOfRange));
    assert_eq!(tokens_of("99999999999999999999999"), Err(LexError::IntegerOutOfRange));
}

#[test]
fn integer_value_is_decimal() {
    assert_eq!(tokens_of("1234567890").unwrap(), vec![INT(1234567890), EOF]);
}

#[test]
fn unterminated_string_is_an_error() {
    assert_eq!(tokens_of("\"abc"), Err(LexError::EolInString));
    assert_eq!(tokens_of("\"abc\nx"), Err(LexError::EolInString));
    assert_eq!(tokens_of("\"abc\\"), Err(LexError::EolInString));
}

#[test]
fn string_escapes_take_the_next_byte() {
    assert_eq!(
        tokens_of("\"a\\\"b\\\\c\"").unwrap(),
        vec![STRING(String::from("a\"b\\c")), EOF]
    );
    assert_eq!(tokens_of("\"\"").unwrap(), vec![STRING(String::new()), EOF]);
}

#[test]
fn blank_lines_and_comments_yield_nothing() {
    assert_eq!(
        tokens_of("# start\n\n   \nx = 1 # one\n    # indented comment\ny\n").unwrap(),
        vec![ID(String::from("x")), EQ, INT(1), NEWLINE, ID(String::from("y")), NEWLINE, EOF]
    );
}

#[test]
fn dedent_to_unknown_level_is_an_error() {
    assert_eq!(tokens_of("if x:\n        y\n    z\n"), Err(LexError::UnindentMismatch));
}

#[test]
fn dedent_over_two_levels() {
    assert_eq!(
        tokens_of("a\n  b\n    c\nd\n").unwrap(),
        vec![
            ID(String::from("a")), NEWLINE, INDENT, ID(String::from("b")), NEWLINE, INDENT,
            ID(String::from("c")), NEWLINE, DEDENT, DEDENT, ID(String::from("d")), NEWLINE, EOF
        ]
    );
}

#[test]
fn indents_and_dedents_balance_in_column_one() {
    let tokens = tokens_of(FIZZBUZZ).unwrap();
    let mut open = 0i64;
    let mut after_newline = true;
    for (i, t) in tokens.iter().enumerate() {
        match t {
            INDENT => open += 1,
            DEDENT => open -= 1,
            _ => {
                if after_newline && (i == 0 || tokens[i - 1] == NEWLINE) && *t == FOR {
                    assert_eq!(open, 0);
                }
            }
        }
        after_newline = *t == NEWLINE;
    }
    assert_eq!(open, 0);
    assert_eq!(tokens.iter().filter(|t| **t == INDENT).count(), 5);
    assert_eq!(tokens.iter().filter(|t| **t == DEDENT).count(), 5);
}

#[test]
fn trailing_spaces_close_open_blocks() {
    assert_eq!(
        tokens_of("if x:\n    y\n    ").unwrap(),
        vec![IF, ID(String::from("x")), COLON, NEWLINE, INDENT, ID(String::from("y")), NEWLINE, DEDENT, EOF]
    );
}

#[test]
fn error_messages() {
    assert_eq!(
        LexError::UnindentMismatch.message(),
        "IndentationError: unindent does not match any outer indentation level"
    );
    assert_eq!(LexError::EolInString.message(), "SyntaxError: EOL while scanning string literal");
    assert_eq!(LexError::InvalidToken.message(), "SyntaxError: invalid token");
    assert_eq!(LexError::UnexpectedCharacter.message(), "SyntaxError: unexpected character");
    assert_eq!(LexError::IntegerOutOfRange.message(), "SyntaxError: integer literal out of range");
}

#[test]
fn tokens_are_the_same_by_kind_and_payload() {
    use_same_token();
}

fn use_same_token() {
    assert!(minipython::token::same_token(&PLUS, &PLUS));
    assert!(!minipython::token::same_token(&PLUS, &MINUS));
    assert!(minipython::token::same_token(&INT(3), &INT(3)));
    assert!(!minipython::token::same_token(&INT(3), &INT(4)));
    assert!(minipython::token::same_token(&ID(String::from("a")), &ID(String::from("a"))));
    assert!(!minipython::token::same_token(&ID(String::from("a")), &STRING(String::from("a"))));
    assert!(!minipython::token::same_token(&FLOAT(String::from("1.")), &FLOAT(String::from("1.0"))));
    assert_eq!(INT(3).kind(), minipython::token::TokenKind::INT);
    assert_eq!(INT(3).clone(), INT(3));
}

#[test]
fn a_failure_keeps_the_current_token() {
    let mut tokenizer = Tokenizer::new("test.py", b"x !".to_vec());
    tokenizer.next_token().unwrap();
    assert_eq!(tokenizer.get_current_token(), &ID(String::from("x")));
    assert_eq!(tokenizer.next_token(), Err(LexError::UnexpectedCharacter));
    assert_eq!(tokenizer.get_current_token(), &ID(String::from("x")));
}
