//! The tokenizer: a cursor over the source that yields one token per call.

use vstd::prelude::*;
use crate::ascii;
use crate::char_stream::{CharStream, chars_of, cursor_char, cursor_line, cursor_column, cursor_text, lemma_column_one, lemma_line_begin_bounds};
use crate::errors::LexError;
use crate::lexing::{Lexed, lex_from, lex_bytes_left, lex_blocks_left, lemma_lex_step, LexState, lex_start, lex_inv, lex_step, skip_blank, line_start, digits_end, ident_end, decimal_value, string_end, word_token, scan_number, scan_token, single_kind, holds, is_digit, is_ident_start};
use crate::token::{token_views, Token, TokenKind, TokenView, plain_token, text_token};

verus! {

/// Whether `s` spells `word`.
fn text_is(s: &String, word: &str) -> (r: bool)
    ensures
        r == (s@ == word@),
{
    let owned = word.to_owned();
    *s == owned
}

/// The token of one byte that `b` is, if it is one.
fn single_token(b: u8) -> (t: Option<Token>)
    ensures
        match t {
            Some(t) => single_kind(b) == Some(t@.kind) && t@ == plain_token(t@.kind),
            None => single_kind(b) is None,
        },
{
    if b == ascii::PLUS {
        Some(Token::PLUS)
    } else if b == ascii::MINUS {
        Some(Token::MINUS)
    } else if b == ascii::STAR {
        Some(Token::MUL)
    } else if b == ascii::SLASH {
        Some(Token::DIV)
    } else if b == ascii::PERCENT {
        Some(Token::MOD)
    } else if b == ascii::TILDE {
        Some(Token::TILDE)
    } else if b == ascii::CARET {
        Some(Token::XOR)
    } else if b == ascii::AMPERSAND {
        Some(Token::AMP)
    } else if b == ascii::BAR {
        Some(Token::BAR)
    } else if b == ascii::LPAREN {
        Some(Token::LPAREN)
    } else if b == ascii::RPAREN {
        Some(Token::RPAREN)
    } else if b == ascii::LBRACE {
        Some(Token::LBRACE)
    } else if b == ascii::RBRACE {
        Some(Token::RBRACE)
    } else if b == ascii::LBRACKET {
        Some(Token::LBRACKET)
    } else if b == ascii::RBRACKET {
        Some(Token::RBRACKET)
    } else if b == ascii::COMMA {
        Some(Token::COMMA)
    } else if b == ascii::COLON {
        Some(Token::COLON)
    } else {
        None
    }
}

fn digit(b: u8) -> (r: bool)
    ensures
        r == is_digit(b),
{
    ascii::ZERO <= b && b <= ascii::NINE
}

fn ident_start(b: u8) -> (r: bool)
    ensures
        r == is_ident_start(b),
{
    (ascii::LOWER_A <= b && b <= ascii::LOWER_Z) || (ascii::UPPER_A <= b && b <= ascii::UPPER_Z)
        || b == ascii::UNDERSCORE
}

/// The keyword that `text` spells, or the identifier it is.
fn word(text: &String) -> (t: Token)
    ensures
        t@ == word_token(text@),
{
    if text_is(text, "or") {
        Token::OR
    } else if text_is(text, "and") {
        Token::AND
    } else if text_is(text, "not") {
        Token::NOT
    } else if text_is(text, "is") {
        Token::IS
    } else if text_is(text, "in") {
        Token::IN
    } else if text_is(text, "None") {
        Token::NONE
    } else if text_is(text, "break") {
        Token::BREAK
    } else if text_is(text, "continue") {
        Token::CONTINUE
    } else if text_is(text, "pass") {
        Token::PASS
    } else if text_is(text, "return") {
        Token::RETURN
    } else if text_is(text, "del") {
        Token::DEL
    } else if text_is(text, "global") {
        Token::GLOBAL
    } else if text_is(text, "if") {
        Token::IF
    } else if text_is(text, "elif") {
        Token::ELIF
    } else if text_is(text, "else") {
        Token::ELSE
    } else if text_is(text, "for") {
        Token::FOR
    } else if text_is(text, "while") {
        Token::WHILE
    } else if text_is(text, "def") {
        Token::DEF
    } else if text_is(text, "True") {
        Token::TRUE
    } else if text_is(text, "False") {
        Token::FALSE
    } else {
        Token::ID(text.clone())
    }
}

/// Indices as contracts count them.
pub open spec fn index_views(indices: Seq<usize>) -> Seq<int> {
    Seq::new(indices.len(), |i: int| indices[i] as int)
}

/// The tokenizer of one source.
pub struct Tokenizer {
    current_token: Token,
    indent_stack: Vec<usize>,
    leading_space: usize,
    char_stream: CharStream,
    token_buf: String,
}

impl View for Tokenizer {
    type V = LexState;

    closed spec fn view(&self) -> LexState {
        LexState {
            src: self.char_stream.source(),
            at: self.char_stream.pos() - 1,
            stack: self.indent_stack@,
            leading: self.leading_space,
            token: self.current_token@,
        }
    }
}

impl Tokenizer {
    /// What holds of every tokenizer that [`Tokenizer::new`] has made.
    pub closed spec fn wf(&self) -> bool {
        &&& self.char_stream.wf()
        &&& self.char_stream.pos() >= 1
        &&& lex_inv(self@)
    }

    /// The name the tokenizer was made with.
    pub closed spec fn name(&self) -> Seq<char> {
        self.char_stream.name()
    }

    /// How often the cursor below has advanced: one more than the index of
    /// the byte under it.
    pub closed spec fn cursor(&self) -> int {
        self.char_stream.pos()
    }

    /// What a tokenizer in order holds of its state and its cursor.
    pub proof fn lemma_wf(&self)
        requires
            self.wf(),
        ensures
            lex_inv(self@),
            self.cursor() == self@.at + 1,
    {
    }

    /// A tokenizer in front of the first token of `source`.
    pub fn new(file_name: &str, source: Vec<u8>) -> (t: Tokenizer)
        requires
            source@.len() < usize::MAX,
        ensures
            t.wf(),
            t@ == lex_start(source@),
            t.name() == file_name@,
    {
        let mut char_stream = CharStream::new(file_name, source);
        char_stream.next_char();
        let mut indent_stack: Vec<usize> = Vec::new();
        indent_stack.push(0);
        let t = Tokenizer {
            current_token: Token::EMPTY,
            indent_stack,
            leading_space: 0,
            char_stream,
            token_buf: String::new(),
        };
        proof {
            t.char_stream.lemma_pos_range();
            assert(t@.stack =~= seq![0usize]);
        }
        t
    }

    /// The token produced last; the token that stands for none before
    /// the first.
    pub fn get_current_token(&self) -> (t: &Token)
        ensures
            t@ == self@.token,
    {
        &self.current_token
    }

    /// The name the tokenizer was made with.
    pub fn get_file_name(&self) -> (name: &String)
        ensures
            name@ == self.name(),
    {
        self.char_stream.get_file_name()
    }

    /// The byte under the cursor; none past the last.
    pub fn get_current_char_u8(&self) -> (c: Option<u8>)
        requires
            self.wf(),
        ensures
            c == cursor_char(self@.src, self.cursor()),
    {
        self.char_stream.get_current_char_u8()
    }

    /// The byte under the cursor as the character with that code.
    pub fn get_current_char(&self) -> (c: Option<char>)
        requires
            self.wf(),
        ensures
            c == match cursor_char(self@.src, self.cursor()) {
                Some(b) => Some(b as char),
                None => None,
            },
    {
        self.char_stream.get_current_char()
    }

    /// The line the cursor stands on.
    pub fn get_current_line(&self) -> (line: usize)
        requires
            self.wf(),
        ensures
            line == cursor_line(self@.src, self.cursor()),
    {
        self.char_stream.get_current_line()
    }

    /// The column the cursor stands in.
    pub fn get_current_column(&self) -> (column: usize)
        requires
            self.wf(),
        ensures
            column == cursor_column(self@.src, self.cursor()),
    {
        self.char_stream.get_current_column()
    }

    /// The text of the current line up to and including the byte under
    /// the cursor.
    pub fn get_current_line_content(&self) -> (text: &String)
        requires
            self.wf(),
        ensures
            text@ == cursor_text(self@.src, self.cursor()),
    {
        self.char_stream.get_current_line_content()
    }

    /// How often the cursor below has advanced.
    pub fn get_cursor(&self) -> (pos: usize)
        requires
            self.wf(),
        ensures
            pos == self.cursor(),
    {
        proof {
            self.char_stream.lemma_pos_range();
        }
        self.char_stream.get_current_index() + 1
    }

    /// The byte under a cursor that has advanced `pos` times over the
    /// source.
    pub fn char_at(&self, pos: usize) -> (c: Option<u8>)
        requires
            self.wf(),
        ensures
            c == cursor_char(self@.src, pos as int),
    {
        self.char_stream.char_at(pos)
    }

    /// The line of a cursor that has advanced `pos` times over the source.
    pub fn line_at(&self, pos: usize) -> (line: usize)
        requires
            self.wf(),
            pos <= self@.src.len() + 1,
        ensures
            line == cursor_line(self@.src, pos as int),
    {
        self.char_stream.line_at(pos)
    }

    /// The column of a cursor that has advanced `pos` times over the
    /// source.
    pub fn column_at(&self, pos: usize) -> (column: usize)
        requires
            self.wf(),
            pos <= self@.src.len() + 1,
        ensures
            column == cursor_column(self@.src, pos as int),
    {
        self.char_stream.column_at(pos)
    }

    /// The text of the line of a cursor that has advanced `pos` times over
    /// the source, up to and including the byte under it.
    pub fn text_at(&self, pos: usize) -> (text: String)
        requires
            self.wf(),
            pos <= self@.src.len() + 1,
        ensures
            text@ == cursor_text(self@.src, pos as int),
    {
        self.char_stream.text_at(pos)
    }

    /// The byte under the cursor.
    fn peek(&self) -> (c: Option<u8>)
        requires
            self.wf(),
        ensures
            match c {
                Some(b) => self@.at < self@.src.len() && self@.src[self@.at] == b,
                None => self@.at == self@.src.len(),
            },
    {
        proof {
            self.char_stream.lemma_pos_range();
        }
        self.char_stream.get_current_char_u8()
    }

    /// Moves the cursor over the byte under it.
    fn bump(&mut self)
        requires
            old(self).char_stream.wf(),
            0 <= old(self)@.at < old(self)@.src.len(),
        ensures
            final(self).char_stream.wf(),
            final(self).name() == old(self).name(),
            final(self)@ == (LexState { at: old(self)@.at + 1, ..old(self)@ }),
            final(self).token_buf@ == old(self).token_buf@,
    {
        self.char_stream.next_char();
    }

    /// Produces the next token. At the end of the source every call
    /// produces `EOF`. A call that fails leaves the current token as it
    /// was.
    pub fn next_token(&mut self) -> (r: Result<(), LexError>)
        requires
            old(self).wf(),
        ensures
            final(self).wf(),
            final(self).name() == old(self).name(),
            final(self)@.src == old(self)@.src,
            match r {
                Ok(_) => lex_step(old(self)@) == Ok::<LexState, LexError>(final(self)@),
                Err(e) => lex_step(old(self)@) == Err::<LexState, LexError>(e) && final(self)@.token
                    == old(self)@.token,
            },
    {
        self.skip_space();
        let depth = self.indent_stack.len();
        let top = self.indent_stack[depth - 1];
        if self.leading_space > top {
            self.indent_stack.push(self.leading_space);
            self.current_token = Token::INDENT;
            return Ok(());
        } else if self.leading_space < top {
            if depth >= 2 && self.leading_space > self.indent_stack[depth - 2] {
                return Err(LexError::UnindentMismatch);
            }
            self.indent_stack.pop();
            self.current_token = Token::DEDENT;
            assert(self.indent_stack@ =~= old(self).indent_stack@.drop_last());
            return Ok(());
        }
        match self.scan() {
            Err(e) => Err(e),
            Ok(token) => {
                if token.kind() == TokenKind::NEWLINE {
                    self.leading_space = 0;
                }
                self.current_token = token;
                Ok(())
            },
        }
    }

    /// Runs the tokenizer to the end. Returns the tokens up to and
    /// including `EOF`, or up to the failure; for each token the index of
    /// the byte behind it; and the failure, if there was one. The last
    /// token returned stays the current token.
    pub fn drain(&mut self) -> (r: (Vec<Token>, Vec<usize>, Option<LexError>))
        requires
            old(self).wf(),
        ensures
            final(self).wf(),
            final(self).name() == old(self).name(),
            final(self)@.src == old(self)@.src,
            final(self)@.token == (if r.0@.len() > 0 {
                r.0@[r.0@.len() - 1]@
            } else {
                old(self)@.token
            }),
            lex_from(old(self)@) == (Lexed {
                tokens: token_views(r.0@),
                ends: index_views(r.1@),
                error: r.2,
            }),
    {
        let ghost start = self@;
        let mut tokens: Vec<Token> = Vec::new();
        let mut ends: Vec<usize> = Vec::new();
        let mut failure: Option<LexError> = None;
        proof {
            assert(token_views(tokens@) + lex_from(self@).tokens =~= lex_from(start).tokens);
            assert(index_views(ends@) + lex_from(self@).ends =~= lex_from(start).ends);
        }
        loop
            invariant_except_break
                lex_from(start).tokens == token_views(tokens@) + lex_from(self@).tokens,
                lex_from(start).ends == index_views(ends@) + lex_from(self@).ends,
                lex_from(start).error == lex_from(self@).error,
                failure is None,
            invariant
                self.wf(),
                self.name() == old(self).name(),
                self@.src == old(self)@.src,
                start == old(self)@,
                self@.token == (if tokens@.len() > 0 {
                    tokens@[tokens@.len() - 1]@
                } else {
                    start.token
                }),
            ensures
                lex_from(start).tokens == token_views(tokens@),
                lex_from(start).ends == index_views(ends@),
                lex_from(start).error == failure,
            decreases lex_bytes_left(self@), lex_blocks_left(self@),
        {
            let ghost before = self@;
            let ghost seen = tokens@;
            let ghost marks = ends@;
            proof {
                lemma_lex_step(before);
            }
            match self.next_token() {
                Err(e) => {
                    failure = Some(e);
                    proof {
                        assert(token_views(seen) + Seq::<TokenView>::empty() =~= token_views(
                            seen,
                        ));
                        assert(index_views(marks) + Seq::<int>::empty() =~= index_views(marks));
                    }
                    break ;
                },
                Ok(_) => {
                    tokens.push(self.current_token.duplicate());
                    ends.push(self.char_stream.get_current_index());
                    let ghost token = self@.token;
                    let ghost at = self@.at;
                    proof {
                        assert(token_views(tokens@) =~= token_views(seen) + seq![token]);
                        assert(index_views(ends@) =~= index_views(marks) + seq![at]);
                    }
                    if self.current_token.kind() == TokenKind::EOF {
                        break ;
                    }
                    proof {
                        assert(token_views(seen) + (seq![token] + lex_from(self@).tokens)
                            =~= token_views(tokens@) + lex_from(self@).tokens);
                        assert(index_views(marks) + (seq![at] + lex_from(self@).ends)
                            =~= index_views(ends@) + lex_from(self@).ends);
                    }
                },
            }
        }
        (tokens, ends, failure)
    }

    /// Runs the tokenizer to the end and returns the tokens up to and
    /// including `EOF`.
    pub fn tokenize(&mut self) -> (r: Result<Vec<Token>, LexError>)
        requires
            old(self).wf(),
        ensures
            final(self).wf(),
            final(self).name() == old(self).name(),
            final(self)@.src == old(self)@.src,
            match r {
                Ok(tokens) => lex_from(old(self)@).error is None && lex_from(
                    old(self)@,
                ).tokens == token_views(tokens@),
                Err(e) => lex_from(old(self)@).error == Some(e),
            },
    {
        let (tokens, _, failure) = self.drain();
        match failure {
            Some(e) => Err(e),
            None => Ok(tokens),
        }
    }

    /// Skips spaces, comments and lines that hold nothing else, counting
    /// the spaces in front of the line where it begins on the line's first
    /// byte.
    fn skip_space(&mut self)
        requires
            old(self).wf(),
        ensures
            final(self).wf(),
            final(self).name() == old(self).name(),
            final(self)@.src == old(self)@.src,
            final(self)@.stack == old(self)@.stack,
            final(self)@.token == old(self)@.token,
            (final(self)@.at, final(self)@.leading as int) == skip_blank(
                old(self)@.src,
                old(self)@.at,
                line_start(old(self)@.src, old(self)@.at),
                old(self)@.leading as int,
                false,
            ),
    {
        let ghost src = self@.src;
        let ghost goal = skip_blank(src, self@.at, line_start(src, self@.at), self@.leading as int, false);
        let column = self.char_stream.get_current_column();
        let at_start = match self.char_stream.get_current_char_u8() {
            Some(_) => column == 1,
            None => column == 0,
        };
        proof {
            self.char_stream.lemma_pos_range();
            let pos = self.char_stream.pos();
            if pos <= src.len() {
                lemma_column_one(src, pos);
            } else if src.len() > 0 {
                lemma_line_begin_bounds(src, src.len() - 1);
            }
            assert(at_start == line_start(src, self@.at));
        }
        let mut in_comment = false;
        loop
            invariant
                self.wf(),
                self.name() == old(self).name(),
                self@.src == src,
                self@.stack == old(self)@.stack,
                self@.token == old(self)@.token,
                skip_blank(src, self@.at, at_start, self@.leading as int, in_comment) == goal,
            ensures
                self.wf(),
                self.name() == old(self).name(),
                self@.src == src,
                self@.stack == old(self)@.stack,
                self@.token == old(self)@.token,
                (self@.at, self@.leading as int) == goal,
            decreases self@.src.len() - self@.at,
        {
            match self.peek() {
                None => {
                    if at_start {
                        self.leading_space = 0;
                    }
                    break ;
                },
                Some(c) => {
                    if c == ascii::NEWLINE {
                        if at_start {
                            self.leading_space = 0;
                            in_comment = false;
                        } else {
                            break ;
                        }
                    } else if in_comment {
                    } else if c == ascii::HASH {
                        in_comment = true;
                    } else if c == ascii::SPACE {
                        if at_start {
                            self.leading_space = self.leading_space + 1;
                        }
                    } else {
                        break ;
                    }
                },
            }
            self.bump();
        }
    }

    /// Reads the token that starts under the cursor.
    fn scan(&mut self) -> (r: Result<Token, LexError>)
        requires
            old(self).wf(),
        ensures
            final(self).wf(),
            final(self).name() == old(self).name(),
            final(self)@.src == old(self)@.src,
            final(self)@.stack == old(self)@.stack,
            final(self)@.leading == old(self)@.leading,
            final(self)@.token == old(self)@.token,
            match r {
                Ok(token) => scan_token(old(self)@.src, old(self)@.at) == Ok::<
                    (TokenView, int),
                    LexError,
                >((token@, final(self)@.at)),
                Err(e) => scan_token(old(self)@.src, old(self)@.at) == Err::<
                    (TokenView, int),
                    LexError,
                >(e),
            },
    {
        let c = match self.peek() {
            None => {
                return Ok(Token::EOF);
            },
            Some(c) => c,
        };
        if c == ascii::NEWLINE {
            self.bump();
            Ok(Token::NEWLINE)
        } else if c == ascii::EQUALS {
            self.bump();
            if self.peek() == Some(ascii::EQUALS) {
                self.bump();
                Ok(Token::EQEQ)
            } else {
                Ok(Token::EQ)
            }
        } else if c == ascii::BANG {
            self.bump();
            if self.peek() == Some(ascii::EQUALS) {
                self.bump();
                Ok(Token::NEQ)
            } else {
                Err(LexError::UnexpectedCharacter)
            }
        } else if c == ascii::GREATER {
            self.bump();
            if self.peek() == Some(ascii::EQUALS) {
                self.bump();
                Ok(Token::GEQ)
            } else if self.peek() == Some(ascii::GREATER) {
                self.bump();
                Ok(Token::RSHIFT)
            } else {
                Ok(Token::GT)
            }
        } else if c == ascii::LESS {
            self.bump();
            if self.peek() == Some(ascii::EQUALS) {
                self.bump();
                Ok(Token::LEQ)
            } else if self.peek() == Some(ascii::LESS) {
                self.bump();
                Ok(Token::LSHIFT)
            } else {
                Ok(Token::LT)
            }
        } else if let Some(token) = single_token(c) {
            self.bump();
            Ok(token)
        } else if c == ascii::PERIOD {
            if self.digit_follows() {
                self.tokenize_number()
            } else {
                self.bump();
                Ok(Token::PERIOD)
            }
        } else if digit(c) {
            self.tokenize_number()
        } else if c == ascii::QUOTE {
            self.tokenize_string()
        } else if ident_start(c) {
            Ok(self.tokenize_id_and_keywords())
        } else {
            Err(LexError::UnexpectedCharacter)
        }
    }

    /// Whether a digit stands behind the byte under the cursor.
    fn digit_follows(&self) -> (r: bool)
        requires
            self.wf(),
            self@.at < self@.src.len(),
        ensures
            r == (self@.at + 1 < self@.src.len() && is_digit(self@.src[self@.at + 1])),
    {
        proof {
            self.char_stream.lemma_pos_range();
        }
        match self.char_stream.get_next_char_u8() {
            Some(b) => digit(b),
            None => false,
        }
    }

    /// Reads a run of digits into the token buffer and returns how many
    /// there were, the number they write unless it is out of range, and
    /// whether it is.
    fn take_digits(&mut self) -> (r: (usize, i64, bool))
        requires
            old(self).wf(),
        ensures
            final(self).wf(),
            final(self).name() == old(self).name(),
            final(self)@ == (LexState {
                at: digits_end(old(self)@.src, old(self)@.at),
                ..old(self)@
            }),
            final(self).token_buf@ == old(self).token_buf@ + chars_of(
                old(self)@.src.subrange(old(self)@.at, final(self)@.at),
            ),
            r.0 == final(self)@.at - old(self)@.at,
            r.2 == (decimal_value(old(self)@.src.subrange(old(self)@.at, final(self)@.at))
                > i64::MAX),
            !r.2 ==> r.1 == decimal_value(
                old(self)@.src.subrange(old(self)@.at, final(self)@.at),
            ),
    {
        let ghost src = self@.src;
        let ghost from = self@.at;
        let mut count: usize = 0;
        let mut value: i64 = 0;
        let mut overflow = false;
        proof {
            assert(src.subrange(from, from) =~= Seq::<u8>::empty());
            assert(old(self).token_buf@ + chars_of(src.subrange(from, from)) =~= old(
                self,
            ).token_buf@);
        }
        loop
            invariant
                self.wf(),
                self.name() == old(self).name(),
                self@ == (LexState { at: from + count, ..old(self)@ }),
                src == old(self)@.src,
                from == old(self)@.at,
                0 <= from <= self@.at <= src.len(),
                digits_end(src, self@.at) == digits_end(src, from),
                self.token_buf@ == old(self).token_buf@ + chars_of(src.subrange(from, self@.at)),
                overflow == (decimal_value(src.subrange(from, self@.at)) > i64::MAX),
                !overflow ==> value == decimal_value(src.subrange(from, self@.at)),
                0 <= value,
            ensures
                self.wf(),
                self.name() == old(self).name(),
                self@ == (LexState { at: digits_end(src, from), ..old(self)@ }),
                self.token_buf@ == old(self).token_buf@ + chars_of(src.subrange(from, self@.at)),
                count == self@.at - from,
                overflow == (decimal_value(src.subrange(from, self@.at)) > i64::MAX),
                !overflow ==> value == decimal_value(src.subrange(from, self@.at)),
            decreases src.len() - self@.at,
        {
            let c = match self.peek() {
                None => {
                    break ;
                },
                Some(c) => c,
            };
            if !digit(c) {
                break ;
            }
            let ghost at = self@.at;
            proof {
                assert(src.subrange(from, at + 1).drop_last() =~= src.subrange(from, at));
                assert(old(self).token_buf@ + chars_of(src.subrange(from, at + 1)) =~= (old(
                    self,
                ).token_buf@ + chars_of(src.subrange(from, at))).push(c as char));
            }
            let d = (c - ascii::ZERO) as i64;
            if !overflow {
                if value > (i64::MAX - d) / 10 {
                    overflow = true;
                } else {
                    value = value * 10 + d;
                }
            }
            self.token_buf.push(c as char);
            self.bump();
            count = count + 1;
        }
        (count, value, overflow)
    }

    /// Reads an integer or a float. The cursor stands on a digit, or on a
    /// period in front of one.
    fn tokenize_number(&mut self) -> (r: Result<Token, LexError>)
        requires
            old(self).wf(),
            old(self)@.at < old(self)@.src.len(),
        ensures
            final(self).wf(),
            final(self).name() == old(self).name(),
            final(self)@.src == old(self)@.src,
            final(self)@.stack == old(self)@.stack,
            final(self)@.leading == old(self)@.leading,
            final(self)@.token == old(self)@.token,
            match r {
                Ok(token) => scan_number(old(self)@.src, old(self)@.at) == Ok::<
                    (TokenView, int),
                    LexError,
                >((token@, final(self)@.at)),
                Err(e) => scan_number(old(self)@.src, old(self)@.at) == Err::<
                    (TokenView, int),
                    LexError,
                >(e),
            },
    {
        let ghost src = self@.src;
        let ghost start = self@.at;
        let first = self.peek();
        self.token_buf.clear();
        let (count, value, overflow) = self.take_digits();
        if self.peek() == Some(ascii::PERIOD) {
            let ghost e = self@.at;
            self.token_buf.push(ascii::PERIOD as char);
            self.bump();
            let _ = self.take_digits();
            proof {
                let f = self@.at;
                assert(self.token_buf@ =~= chars_of(src.subrange(start, f)));
            }
            Ok(Token::FLOAT(self.token_buf.clone()))
        } else if first == Some(ascii::ZERO) && count > 1 {
            Err(LexError::InvalidToken)
        } else if overflow {
            Err(LexError::IntegerOutOfRange)
        } else {
            Ok(Token::INT(value))
        }
    }

    /// Reads a string literal. The cursor stands on the opening quote.
    fn tokenize_string(&mut self) -> (r: Result<Token, LexError>)
        requires
            old(self).wf(),
            old(self)@.at < old(self)@.src.len(),
        ensures
            final(self).wf(),
            final(self).name() == old(self).name(),
            final(self)@.src == old(self)@.src,
            final(self)@.stack == old(self)@.stack,
            final(self)@.leading == old(self)@.leading,
            final(self)@.token == old(self)@.token,
            match r {
                Ok(token) => string_end(old(self)@.src, old(self)@.at + 1, Seq::empty())
                    == Some((token@.text, final(self)@.at)) && token@ == text_token(
                    TokenKind::STRING,
                    token@.text,
                ),
                Err(e) => e == LexError::EolInString && string_end(
                    old(self)@.src,
                    old(self)@.at + 1,
                    Seq::empty(),
                ) is None,
            },
    {
        let ghost src = self@.src;
        let ghost goal = string_end(src, self@.at + 1, Seq::empty());
        self.token_buf.clear();
        self.bump();
        loop
            invariant_except_break
                string_end(src, self@.at, self.token_buf@) == goal,
            invariant
                self.wf(),
                self.name() == old(self).name(),
                self@ == (LexState { at: self@.at, ..old(self)@ }),
                src == old(self)@.src,
                goal == string_end(old(self)@.src, old(self)@.at + 1, Seq::empty()),
            ensures
                self.wf(),
                self.name() == old(self).name(),
                self@ == (LexState { at: self@.at, ..old(self)@ }),
                goal == Some((self.token_buf@, self@.at)),
            decreases src.len() - self@.at,
        {
            let c = match self.peek() {
                None => {
                    return Err(LexError::EolInString);
                },
                Some(c) => c,
            };
            if c == ascii::NEWLINE {
                return Err(LexError::EolInString);
            } else if c == ascii::QUOTE {
                self.bump();
                break ;
            } else if c == ascii::BACKSLASH {
                self.bump();
                match self.peek() {
                    None => {
                        return Err(LexError::EolInString);
                    },
                    Some(d) => {
                        if d == ascii::NEWLINE {
                            return Err(LexError::EolInString);
                        }
                        self.token_buf.push(d as char);
                        self.bump();
                    },
                }
            } else {
                self.token_buf.push(c as char);
                self.bump();
            }
        }
        Ok(Token::STRING(self.token_buf.clone()))
    }

    /// Reads a keyword or an identifier. The cursor stands on its first
    /// byte.
    fn tokenize_id_and_keywords(&mut self) -> (token: Token)
        requires
            old(self).wf(),
        ensures
            final(self).wf(),
            final(self).name() == old(self).name(),
            final(self)@ == (LexState {
                at: ident_end(old(self)@.src, old(self)@.at),
                ..old(self)@
            }),
            token@ == word_token(
                chars_of(old(self)@.src.subrange(old(self)@.at, final(self)@.at)),
            ),
    {
        let ghost src = self@.src;
        let ghost start = self@.at;
        self.token_buf.clear();
        proof {
            assert(chars_of(src.subrange(start, start)) =~= Seq::<char>::empty());
        }
        loop
            invariant
                self.wf(),
                self.name() == old(self).name(),
                self@ == (LexState { at: self@.at, ..old(self)@ }),
                src == old(self)@.src,
                start == old(self)@.at,
                0 <= start <= self@.at <= src.len(),
                ident_end(src, self@.at) == ident_end(src, start),
                self.token_buf@ == chars_of(src.subrange(start, self@.at)),
            ensures
                self.wf(),
                self.name() == old(self).name(),
                self@ == (LexState { at: ident_end(src, start), ..old(self)@ }),
                self.token_buf@ == chars_of(src.subrange(start, self@.at)),
            decreases src.len() - self@.at,
        {
            let c = match self.peek() {
                None => {
                    break ;
                },
                Some(c) => c,
            };
            if !(ident_start(c) || digit(c)) {
                break ;
            }
            let ghost at = self@.at;
            proof {
                assert(src.subrange(start, at + 1) =~= src.subrange(start, at).push(c));
                assert(chars_of(src.subrange(start, at + 1)) =~= chars_of(
                    src.subrange(start, at),
                ).push(c as char));
            }
            self.token_buf.push(c as char);
            self.bump();
        }
        word(&self.token_buf)
    }
}

} // verus!
