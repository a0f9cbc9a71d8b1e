//! The parser: recursive descent over the tokens of a program.
//!
//! A parser tokenizes its whole source when it is made and then walks the
//! tokens. Where the tokenizer failed, the parser fails with the same
//! failure at the step onto the token that could not be produced, so a
//! mistake of syntax in front of it is reported first.

use vstd::prelude::*;
use crate::ast::{AST, ASTCmpOp, ASTExpr, ASTSlice, ASTStmt, ExprV, SliceV, StmtV, exprs_view, names_view, stmts_view};
use crate::char_stream::{cursor_char, cursor_column, cursor_line, cursor_text};
use crate::errors::{LexError, ParseError};
use crate::grammar::{Parsed, advance, eat, g_id, g_module, g_next, kind_at, stream_error};
use crate::lexing::{Lexed, lemma_lex_from, lex_all, lex_start};
use crate::token::{Token, TokenKind, plain_token, token_views};
use crate::tokenizer::{Tokenizer, index_views};

verus! {

/// The parser of one source.
pub struct Parser {
    tokenizer: Tokenizer,
    tokens: Vec<Token>,
    ends: Vec<usize>,
    failure: Option<LexError>,
    pos: usize,
    current_stmt: Option<ASTStmt>,
}

/// Whether `after` is `before` with its position moved on or left.
pub open spec fn kept(before: Parser, after: Parser) -> bool {
    &&& after.wf()
    &&& after.origin() == before.origin()
    &&& after.cursor() >= before.cursor()
}

/// What a parser was made from, which no step changes.
pub struct Origin {
    /// The tokens of the source, and the failure of the tokenizer if it
    /// failed.
    pub lexed: Lexed,
    /// The bytes of the program.
    pub source: Seq<u8>,
    /// The name the parser was made with.
    pub name: Seq<char>,
}

/// Whether the step from `before` to `after` with result `r` is what the
/// grammar asks for.
pub open spec fn yields_expr(
    before: Parser,
    after: Parser,
    r: Result<ASTExpr, ParseError>,
    want: Parsed<ExprV>,
) -> bool {
    &&& kept(before, after)
    &&& match r {
        Ok(e) => want == Ok::<(ExprV, int), ParseError>((e@, after.cursor())),
        Err(x) => want == Err::<(ExprV, int), ParseError>(x),
    }
}

/// The same for a step that yields a run of expressions.
pub open spec fn yields_exprs(
    before: Parser,
    after: Parser,
    r: Result<Vec<ASTExpr>, ParseError>,
    want: Parsed<Seq<ExprV>>,
) -> bool {
    &&& kept(before, after)
    &&& match r {
        Ok(e) => want == Ok::<(Seq<ExprV>, int), ParseError>((exprs_view(e@), after.cursor())),
        Err(x) => want == Err::<(Seq<ExprV>, int), ParseError>(x),
    }
}

/// The same for a step that yields a list and whether a comma ends it.
pub open spec fn yields_list(
    before: Parser,
    after: Parser,
    r: Result<(Vec<ASTExpr>, bool), ParseError>,
    want: Parsed<(Seq<ExprV>, bool)>,
) -> bool {
    &&& kept(before, after)
    &&& match r {
        Ok(e) => want == Ok::<((Seq<ExprV>, bool), int), ParseError>(
            ((exprs_view(e.0@), e.1), after.cursor()),
        ),
        Err(x) => want == Err::<((Seq<ExprV>, bool), int), ParseError>(x),
    }
}

/// The same for a step that yields a subscript.
pub open spec fn yields_slice(
    before: Parser,
    after: Parser,
    r: Result<ASTSlice, ParseError>,
    want: Parsed<SliceV>,
) -> bool {
    &&& kept(before, after)
    &&& match r {
        Ok(e) => want == Ok::<(SliceV, int), ParseError>((e@, after.cursor())),
        Err(x) => want == Err::<(SliceV, int), ParseError>(x),
    }
}

/// The same for a step that yields a comparison operator.
pub open spec fn yields_op(
    before: Parser,
    after: Parser,
    r: Result<ASTCmpOp, ParseError>,
    want: Parsed<ASTCmpOp>,
) -> bool {
    &&& kept(before, after)
    &&& match r {
        Ok(e) => want == Ok::<(ASTCmpOp, int), ParseError>((e, after.cursor())),
        Err(x) => want == Err::<(ASTCmpOp, int), ParseError>(x),
    }
}

/// The same for a step that yields a name.
pub open spec fn yields_name(
    before: Parser,
    after: Parser,
    r: Result<String, ParseError>,
    want: Parsed<Seq<char>>,
) -> bool {
    &&& kept(before, after)
    &&& match r {
        Ok(e) => want == Ok::<(Seq<char>, int), ParseError>((e@, after.cursor())),
        Err(x) => want == Err::<(Seq<char>, int), ParseError>(x),
    }
}

/// The same for a step that yields a run of names.
pub open spec fn yields_names(
    before: Parser,
    after: Parser,
    r: Result<Vec<String>, ParseError>,
    want: Parsed<Seq<Seq<char>>>,
) -> bool {
    &&& kept(before, after)
    &&& match r {
        Ok(e) => want == Ok::<(Seq<Seq<char>>, int), ParseError>(
            (names_view(e@), after.cursor()),
        ),
        Err(x) => want == Err::<(Seq<Seq<char>>, int), ParseError>(x),
    }
}

/// The same for a step that yields a statement.
pub open spec fn yields_stmt(
    before: Parser,
    after: Parser,
    r: Result<ASTStmt, ParseError>,
    want: Parsed<StmtV>,
) -> bool {
    &&& kept(before, after)
    &&& match r {
        Ok(e) => want == Ok::<(StmtV, int), ParseError>((e@, after.cursor())),
        Err(x) => want == Err::<(StmtV, int), ParseError>(x),
    }
}

/// The same for a step that yields a run of statements.
pub open spec fn yields_stmts(
    before: Parser,
    after: Parser,
    r: Result<Vec<ASTStmt>, ParseError>,
    want: Parsed<Seq<StmtV>>,
) -> bool {
    &&& kept(before, after)
    &&& match r {
        Ok(e) => want == Ok::<(Seq<StmtV>, int), ParseError>((stmts_view(e@), after.cursor())),
        Err(x) => want == Err::<(Seq<StmtV>, int), ParseError>(x),
    }
}

/// The same for a step that yields nothing but a new position.
pub open spec fn yields_step(
    before: Parser,
    after: Parser,
    r: Result<(), ParseError>,
    want: Result<int, ParseError>,
) -> bool {
    &&& kept(before, after)
    &&& match r {
        Ok(_) => want == Ok::<int, ParseError>(after.cursor()),
        Err(x) => want == Err::<int, ParseError>(x),
    }
}

impl Parser {
    /// What the parser was made from.
    pub closed spec fn origin(&self) -> Origin {
        Origin {
            lexed: Lexed {
                tokens: token_views(self.tokens@),
                ends: index_views(self.ends@),
                error: self.failure,
            },
            source: self.tokenizer@.src,
            name: self.tokenizer.name(),
        }
    }

    /// The tokens of the source, and the failure of the tokenizer if it
    /// failed.
    pub open spec fn lexed(&self) -> Lexed {
        self.origin().lexed
    }

    /// The position of the current token.
    pub closed spec fn cursor(&self) -> int {
        self.pos as int
    }

    /// The bytes of the program.
    pub open spec fn source(&self) -> Seq<u8> {
        self.origin().source
    }

    /// The name the parser was made with.
    pub open spec fn name(&self) -> Seq<char> {
        self.origin().name
    }

    /// The statement that [`Parser::next_stmt`] parsed last.
    pub closed spec fn pending(&self) -> Option<StmtV> {
        match self.current_stmt {
            Some(s) => Some(s@),
            None => None,
        }
    }

    /// What holds of every parser that [`Parser::new`] has made.
    pub closed spec fn wf(&self) -> bool {
        &&& self.tokenizer.wf()
        &&& self.lexed() == lex_all(self.source())
        &&& self.tokens@.len() == self.ends@.len()
        &&& self.source().len() < usize::MAX
        &&& forall|k: int| 0 <= k < self.ends@.len() ==> #[trigger] self.ends@[k] <= self.source().len()
        &&& (self.pos < self.tokens@.len() || (self.tokens@.len() == 0 && self.pos == 0))
        &&& (self.tokens@.len() == 0 ==> self.tokenizer@.token == plain_token(TokenKind::EMPTY))
    }

    /// The position stands on a token, unless there is no token at all.
    pub proof fn lemma_cursor(&self)
        requires
            self.wf(),
        ensures
            0 <= self.cursor(),
            self.cursor() < self.lexed().tokens.len() || (self.lexed().tokens.len() == 0
                && self.cursor() == 0),
    {
    }

    /// A parser in front of the first token of `source`.
    pub fn new(file_name: &str, source: Vec<u8>) -> (p: Parser)
        requires
            source@.len() < usize::MAX,
        ensures
            p.wf(),
            p.source() == source@,
            p.name() == file_name@,
            p.lexed() == lex_all(source@),
            p.cursor() == 0,
            p.pending() is None,
    {
        let mut tokenizer = Tokenizer::new(file_name, source);
        let (tokens, ends, failure) = tokenizer.drain();
        proof {
            lemma_lex_from(lex_start(source@));
            assert(token_views(tokens@).len() == index_views(ends@).len());
            assert forall|k: int| 0 <= k < ends@.len() implies #[trigger] ends@[k]
                <= source@.len() by {
                assert(index_views(ends@)[k] == ends@[k]);
            }
        }
        Parser { tokenizer, tokens, ends, failure, pos: 0, current_stmt: None }
    }

    /// Whether the source yielded no token at all.
    pub(crate) fn is_empty(&self) -> (r: bool)
        ensures
            r == (self.lexed().tokens.len() == 0),
    {
        self.tokens.len() == 0
    }

    /// The failure of the tokenizer if it failed.
    pub(crate) fn stream_failure(&self) -> (e: ParseError)
        ensures
            e == stream_error(self.lexed()),
    {
        match self.failure {
            Some(e) => ParseError::Lex(e),
            None => ParseError::UnexpectedToken,
        }
    }

    /// The kind of the current token.
    pub(crate) fn peek(&self) -> (k: TokenKind)
        requires
            self.wf(),
        ensures
            k == kind_at(self.lexed(), self.cursor()),
    {
        if self.pos < self.tokens.len() {
            self.tokens[self.pos].kind()
        } else {
            TokenKind::EMPTY
        }
    }

    /// Steps over the current token.
    pub(crate) fn bump(&mut self) -> (r: Result<(), ParseError>)
        requires
            old(self).wf(),
        ensures
            yields_step(
                *old(self),
                *final(self),
                r,
                advance(old(self).lexed(), old(self).cursor()),
            ),
    {
        if self.tokens.len() - self.pos > 1 {
            self.pos = self.pos + 1;
            Ok(())
        } else {
            match self.failure {
                Some(e) => Err(ParseError::Lex(e)),
                None => Err(ParseError::UnexpectedToken),
            }
        }
    }

    /// Steps over the current token if it is of `kind`.
    pub(crate) fn eat(&mut self, kind: TokenKind) -> (r: Result<(), ParseError>)
        requires
            old(self).wf(),
        ensures
            yields_step(
                *old(self),
                *final(self),
                r,
                eat(old(self).lexed(), old(self).cursor(), kind),
            ),
    {
        if self.peek() == kind {
            self.bump()
        } else {
            Err(ParseError::UnexpectedToken)
        }
    }

    /// Steps over an identifier and returns its name.
    pub(crate) fn eat_id(&mut self) -> (r: Result<String, ParseError>)
        requires
            old(self).wf(),
        ensures
            yields_name(*old(self), *final(self), r, g_id(old(self).lexed(), old(self).cursor())),
            r is Ok ==> final(self).cursor() > old(self).cursor(),
    {
        if self.pos < self.tokens.len() {
            match &self.tokens[self.pos] {
                Token::ID(name) => {
                    let name = name.clone();
                    self.bump()?;
                    return Ok(name);
                },
                _ => {},
            }
        }
        Err(ParseError::UnexpectedToken)
    }

    /// Steps over an integer literal and returns its value.
    pub(crate) fn eat_int(&mut self) -> (r: Result<i64, ParseError>)
        requires
            old(self).wf(),
        ensures
            kept(*old(self), *final(self)),
            match r {
                Ok(n) => kind_at(old(self).lexed(), old(self).cursor()) == TokenKind::INT
                    && old(self).lexed().tokens[old(self).cursor()].number == n && advance(
                    old(self).lexed(),
                    old(self).cursor(),
                ) == Ok::<int, ParseError>(final(self).cursor()),
                Err(e) => if kind_at(old(self).lexed(), old(self).cursor()) == TokenKind::INT {
                    advance(old(self).lexed(), old(self).cursor()) == Err::<int, ParseError>(e)
                } else {
                    e == ParseError::UnexpectedToken
                },
            },
    {
        if self.pos < self.tokens.len() {
            match &self.tokens[self.pos] {
                Token::INT(n) => {
                    let n = *n;
                    self.bump()?;
                    return Ok(n);
                },
                _ => {},
            }
        }
        Err(ParseError::UnexpectedToken)
    }

    /// Steps over a float literal and returns its digits.
    pub(crate) fn eat_float(&mut self) -> (r: Result<String, ParseError>)
        requires
            old(self).wf(),
        ensures
            kept(*old(self), *final(self)),
            match r {
                Ok(text) => kind_at(old(self).lexed(), old(self).cursor()) == TokenKind::FLOAT
                    && old(self).lexed().tokens[old(self).cursor()].text == text@ && advance(
                    old(self).lexed(),
                    old(self).cursor(),
                ) == Ok::<int, ParseError>(final(self).cursor()),
                Err(e) => if kind_at(old(self).lexed(), old(self).cursor()) == TokenKind::FLOAT {
                    advance(old(self).lexed(), old(self).cursor()) == Err::<int, ParseError>(e)
                } else {
                    e == ParseError::UnexpectedToken
                },
            },
    {
        if self.pos < self.tokens.len() {
            match &self.tokens[self.pos] {
                Token::FLOAT(text) => {
                    let text = text.clone();
                    self.bump()?;
                    return Ok(text);
                },
                _ => {},
            }
        }
        Err(ParseError::UnexpectedToken)
    }

    /// Steps over a string literal and returns its contents.
    pub(crate) fn eat_str(&mut self) -> (r: Result<String, ParseError>)
        requires
            old(self).wf(),
        ensures
            kept(*old(self), *final(self)),
            match r {
                Ok(text) => kind_at(old(self).lexed(), old(self).cursor()) == TokenKind::STRING
                    && old(self).lexed().tokens[old(self).cursor()].text == text@ && advance(
                    old(self).lexed(),
                    old(self).cursor(),
                ) == Ok::<int, ParseError>(final(self).cursor()),
                Err(e) => if kind_at(old(self).lexed(), old(self).cursor()) == TokenKind::STRING {
                    advance(old(self).lexed(), old(self).cursor()) == Err::<int, ParseError>(e)
                } else {
                    e == ParseError::UnexpectedToken
                },
            },
    {
        if self.pos < self.tokens.len() {
            match &self.tokens[self.pos] {
                Token::STRING(text) => {
                    let text = text.clone();
                    self.bump()?;
                    return Ok(text);
                },
                _ => {},
            }
        }
        Err(ParseError::UnexpectedToken)
    }

    /// Parses the statements from the current token up to `EOF`.
    pub fn parse(&mut self) -> (r: Result<AST, ParseError>)
        requires
            old(self).wf(),
        ensures
            yields_stmts(
                *old(self),
                *final(self),
                r,
                g_module(old(self).lexed(), old(self).cursor(), Seq::empty()),
            ),
    {
        self.parse_module()
    }

    /// Parses the next statement and keeps it for
    /// [`Parser::get_current_stmt_ref`]; at `EOF` it keeps none.
    pub fn next_stmt(&mut self) -> (r: Result<(), ParseError>)
        requires
            old(self).wf(),
        ensures
            kept(*old(self), *final(self)),
            match r {
                Ok(_) => g_next(old(self).lexed(), old(self).cursor()) == Ok::<
                    (Option<StmtV>, int),
                    ParseError,
                >((final(self).pending(), final(self).cursor())),
                Err(e) => g_next(old(self).lexed(), old(self).cursor()) == Err::<
                    (Option<StmtV>, int),
                    ParseError,
                >(e),
            },
    {
        let found = self.parse_next()?;
        self.current_stmt = found;
        Ok(())
    }

    /// Parses the next statement and hands it out; none at `EOF`. No
    /// statement is kept afterwards.
    pub fn get_next_stmt(&mut self) -> (r: Result<Option<ASTStmt>, ParseError>)
        requires
            old(self).wf(),
        ensures
            kept(*old(self), *final(self)),
            final(self).pending() is None,
            match r {
                Ok(found) => g_next(old(self).lexed(), old(self).cursor()) == Ok::<
                    (Option<StmtV>, int),
                    ParseError,
                >(
                    (
                        match found {
                            Some(s) => Some(s@),
                            None => None,
                        },
                        final(self).cursor(),
                    ),
                ),
                Err(e) => g_next(old(self).lexed(), old(self).cursor()) == Err::<
                    (Option<StmtV>, int),
                    ParseError,
                >(e),
            },
    {
        let found = self.parse_next();
        self.current_stmt = None;
        found
    }

    /// The statement that [`Parser::next_stmt`] parsed last.
    pub fn get_current_stmt_ref(&self) -> (s: &Option<ASTStmt>)
        ensures
            self.pending() == match *s {
                Some(stmt) => Some(stmt@),
                None => None,
            },
    {
        &self.current_stmt
    }

    /// The name the parser was made with.
    pub fn get_file_name(&self) -> (name: &String)
        ensures
            name@ == self.name(),
    {
        self.tokenizer.get_file_name()
    }

    /// How often a cursor over the source has advanced when it stands
    /// behind the current token. Where there is no current token, this is
    /// where the tokenizer stopped.
    pub closed spec fn mark(&self) -> int {
        if self.pos < self.ends@.len() {
            self.ends@[self.pos as int] + 1
        } else {
            self.tokenizer.cursor()
        }
    }

    /// Where a cursor over the source stands behind the current token.
    pub proof fn lemma_mark(&self)
        requires
            self.wf(),
        ensures
            self.cursor() < self.lexed().tokens.len() ==> self.mark() == self.lexed().ends[self.cursor()]
                + 1,
            0 <= self.mark() <= self.source().len() + 1,
    {
        self.tokenizer.lemma_wf();
        if self.pos < self.ends@.len() {
            assert(self.lexed().ends[self.cursor()] == self.ends@[self.pos as int]);
        }
    }

    /// How often a cursor over the source has advanced when it stands
    /// behind the current token.
    fn get_mark(&self) -> (pos: usize)
        requires
            self.wf(),
        ensures
            pos == self.mark(),
            pos <= self.source().len() + 1,
    {
        proof {
            self.lemma_mark();
        }
        if self.pos < self.ends.len() {
            self.ends[self.pos] + 1
        } else {
            self.tokenizer.get_cursor()
        }
    }

    /// The byte behind the current token.
    pub fn get_current_char_u8(&self) -> (c: Option<u8>)
        requires
            self.wf(),
        ensures
            c == cursor_char(self.source(), self.mark()),
    {
        self.tokenizer.char_at(self.get_mark())
    }

    /// The byte behind the current token as the character with that code.
    pub fn get_current_char(&self) -> (c: Option<char>)
        requires
            self.wf(),
        ensures
            c == match cursor_char(self.source(), self.mark()) {
                Some(b) => Some(b as char),
                None => None,
            },
    {
        match self.get_current_char_u8() {
            Some(b) => Some(b as char),
            None => None,
        }
    }

    /// The line on which the current token ends.
    pub fn get_current_line(&self) -> (line: usize)
        requires
            self.wf(),
        ensures
            line == cursor_line(self.source(), self.mark()),
    {
        self.tokenizer.line_at(self.get_mark())
    }

    /// The column behind the current token.
    pub fn get_current_column(&self) -> (column: usize)
        requires
            self.wf(),
        ensures
            column == cursor_column(self.source(), self.mark()),
    {
        self.tokenizer.column_at(self.get_mark())
    }

    /// The text of the line of the current token, up to the byte behind
    /// the token.
    pub fn get_current_line_content(&self) -> (text: String)
        requires
            self.wf(),
        ensures
            text@ == cursor_text(self.source(), self.mark()),
    {
        self.tokenizer.text_at(self.get_mark())
    }

    /// The current token. Where the source yielded no token at all, the
    /// token that stands for none.
    pub fn get_current_token(&self) -> (t: &Token)
        requires
            self.wf(),
        ensures
            t@ == (if self.cursor() < self.lexed().tokens.len() {
                self.lexed().tokens[self.cursor()]
            } else {
                plain_token(TokenKind::EMPTY)
            }),
    {
        if self.pos < self.tokens.len() {
            &self.tokens[self.pos]
        } else {
            self.tokenizer.get_current_token()
        }
    }
}

/// Parsing is a function of the source: two parsers over the same bytes at
/// the same position yield the same tree, or the same failure.
pub proof fn lemma_parse_deterministic(a: Parser, b: Parser)
    requires
        a.wf(),
        b.wf(),
        a.source() == b.source(),
        a.cursor() == b.cursor(),
    ensures
        a.lexed() == b.lexed(),
        g_module(a.lexed(), a.cursor(), Seq::empty()) == g_module(
            b.lexed(),
            b.cursor(),
            Seq::empty(),
        ),
{
}

} // verus!
