//! A cursor over the bytes of a program that knows its line and column.
//!
//! The cursor starts in front of the first byte. Each advance moves it one
//! byte on, until it has gone past the last one. Lines are counted from 1
//! once there is a byte to stand on; columns start again at 1 after a
//! newline.

use vstd::prelude::*;
use crate::ascii;

verus! {

/// `String::push` of the standard library appends the character to the
/// end of the string.
pub assume_specification[ std::string::String::push ](s: &mut std::string::String, c: char)
    ensures
        final(s)@ == old(s)@.push(c),
;

/// `String::clear` of the standard library removes all contents of the
/// string.
pub assume_specification[ std::string::String::clear ](s: &mut std::string::String)
    ensures
        final(s)@ == Seq::<char>::empty(),
;

/// Each byte read as the character with that code.
pub open spec fn chars_of(bytes: Seq<u8>) -> Seq<char> {
    Seq::new(bytes.len(), |i: int| bytes[i] as char)
}

/// Where the line that holds index `i` begins: just behind the last
/// newline in front of `i`, or at 0.
pub open spec fn line_begin(src: Seq<u8>, i: int) -> int
    decreases i,
{
    if i <= 0 {
        0
    } else if src[i - 1] == ascii::NEWLINE {
        i
    } else {
        line_begin(src, i - 1)
    }
}

/// How many newlines stand in front of index `i`.
pub open spec fn newlines(src: Seq<u8>, i: int) -> nat
    decreases i,
{
    if i <= 0 {
        0
    } else if src[i - 1] == ascii::NEWLINE {
        newlines(src, i - 1) + 1
    } else {
        newlines(src, i - 1)
    }
}

/// The byte under a cursor that has advanced `pos` times.
pub open spec fn cursor_char(src: Seq<u8>, pos: int) -> Option<u8> {
    if 1 <= pos <= src.len() {
        Some(src[pos - 1])
    } else {
        None
    }
}

/// The line of a cursor that has advanced `pos` times.
pub open spec fn cursor_line(src: Seq<u8>, pos: int) -> nat {
    if pos <= 0 || src.len() == 0 {
        0
    } else if pos <= src.len() {
        1 + newlines(src, pos - 1)
    } else {
        1 + newlines(src, src.len() as int)
    }
}

/// Whether the last byte of the source is a newline.
pub open spec fn ends_with_newline(src: Seq<u8>) -> bool {
    src.len() > 0 && src[src.len() - 1] == ascii::NEWLINE
}

/// The column of a cursor that has advanced `pos` times.
pub open spec fn cursor_column(src: Seq<u8>, pos: int) -> nat {
    if pos <= 0 || src.len() == 0 {
        0
    } else if pos <= src.len() {
        (pos - line_begin(src, pos - 1)) as nat
    } else if ends_with_newline(src) {
        0
    } else {
        (src.len() - line_begin(src, src.len() - 1)) as nat
    }
}

/// The text of the current line up to and including the byte under the
/// cursor.
pub open spec fn cursor_text(src: Seq<u8>, pos: int) -> Seq<char> {
    if pos <= 0 || src.len() == 0 {
        Seq::empty()
    } else if pos <= src.len() {
        chars_of(src.subrange(line_begin(src, pos - 1), pos))
    } else if ends_with_newline(src) {
        Seq::empty()
    } else {
        chars_of(src.subrange(line_begin(src, src.len() - 1), src.len() as int))
    }
}

/// The line and column of every `a` that a cursor passes on its way from
/// `lo` advances to `hi` advances.
pub open spec fn a_marks(src: Seq<u8>, lo: int, hi: int) -> Seq<(nat, nat)>
    decreases hi - lo,
{
    if hi <= lo {
        Seq::empty()
    } else if cursor_char(src, hi) == Some(ascii::LOWER_A) {
        a_marks(src, lo, hi - 1).push((cursor_line(src, hi), cursor_column(src, hi)))
    } else {
        a_marks(src, lo, hi - 1)
    }
}

/// Lines and columns as plain numbers.
pub open spec fn marks_of(found: Seq<(usize, usize)>) -> Seq<(nat, nat)> {
    Seq::new(found.len(), |i: int| (found[i].0 as nat, found[i].1 as nat))
}

/// A line begins at or in front of every index it holds.
pub proof fn lemma_line_begin_bounds(src: Seq<u8>, i: int)
    requires
        0 <= i,
    ensures
        0 <= line_begin(src, i) <= i,
    decreases i,
{
    if i > 0 && src[i - 1] != ascii::NEWLINE {
        lemma_line_begin_bounds(src, i - 1);
    }
}

/// There are no more newlines in front of an index than bytes.
pub proof fn lemma_newlines_bound(src: Seq<u8>, i: int)
    requires
        0 <= i,
    ensures
        newlines(src, i) <= i,
    decreases i,
{
    if i > 0 {
        lemma_newlines_bound(src, i - 1);
    }
}

/// A cursor stands in column 1 exactly where a line begins.
pub proof fn lemma_column_one(src: Seq<u8>, pos: int)
    requires
        1 <= pos <= src.len(),
    ensures
        cursor_column(src, pos) == 1 <==> (pos == 1 || src[pos - 2] == ascii::NEWLINE),
{
    if pos >= 2 && src[pos - 2] != ascii::NEWLINE {
        lemma_line_begin_bounds(src, pos - 2);
    }
}

/// A cursor over the bytes of a source.
pub struct CharStream {
    file_name: String,
    source: Vec<u8>,
    next: usize,
    exhausted: bool,
    current_char: Option<u8>,
    current_line: usize,
    current_column: usize,
    current_line_content: String,
}

impl CharStream {
    /// The bytes the cursor runs over.
    pub closed spec fn source(&self) -> Seq<u8> {
        self.source@
    }

    /// How often the cursor has advanced: at most once more than there are
    /// bytes.
    pub closed spec fn pos(&self) -> int {
        if self.exhausted {
            self.source@.len() as int + 1
        } else {
            self.next as int
        }
    }

    /// The name the stream was made with.
    pub closed spec fn name(&self) -> Seq<char> {
        self.file_name@
    }

    /// What holds of every stream that [`CharStream::new`] has made.
    pub closed spec fn wf(&self) -> bool {
        &&& self.source@.len() < usize::MAX
        &&& self.next <= self.source@.len()
        &&& self.exhausted ==> self.next == self.source@.len()
        &&& self.current_char == cursor_char(self.source@, self.pos())
        &&& self.current_line == cursor_line(self.source@, self.pos())
        &&& self.current_column == cursor_column(self.source@, self.pos())
        &&& self.current_line_content@ == cursor_text(self.source@, self.pos())
    }

    /// The cursor has advanced at most once more than there are bytes.
    pub proof fn lemma_pos_range(&self)
        requires
            self.wf(),
        ensures
            0 <= self.pos() <= self.source().len() + 1,
            self.source().len() < usize::MAX,
    {
    }

    /// A cursor in front of the first byte of `source`.
    pub fn new(file_name: &str, source: Vec<u8>) -> (s: CharStream)
        requires
            source@.len() < usize::MAX,
        ensures
            s.wf(),
            s.source() == source@,
            s.pos() == 0,
            s.name() == file_name@,
    {
        CharStream {
            file_name: file_name.to_owned(),
            source,
            next: 0,
            exhausted: false,
            current_char: None,
            current_line: 0,
            current_column: 0,
            current_line_content: String::new(),
        }
    }

    /// Moves the cursor one byte on; past the last byte it stays.
    pub fn next_char(&mut self)
        requires
            old(self).wf(),
        ensures
            final(self).wf(),
            final(self).source() == old(self).source(),
            final(self).name() == old(self).name(),
            final(self).pos() == if old(self).pos() <= old(self).source().len() {
                old(self).pos() + 1
            } else {
                old(self).pos()
            },
    {
        let ghost src = self.source@;
        let ghost p = self.pos();
        proof {
            lemma_line_begin_bounds(src, p);
            lemma_newlines_bound(src, p);
            if p >= 1 {
                lemma_line_begin_bounds(src, p - 1);
                lemma_newlines_bound(src, p - 1);
            }
        }
        if self.exhausted {
            return ;
        }
        let after_newline = match self.current_char {
            Some(c) => c == ascii::NEWLINE,
            None => false,
        };
        if after_newline {
            self.current_line = self.current_line + 1;
            self.current_column = 0;
            self.current_line_content.clear();
        }
        if self.next < self.source.len() {
            let c = self.source[self.next];
            self.current_column = self.current_column + 1;
            self.current_char = Some(c);
            self.current_line_content.push(c as char);
            if self.current_line == 0 {
                self.current_line = 1;
            }
            self.next = self.next + 1;
            proof {
                let q = p + 1;
                assert(self.pos() == q);
                if p >= 1 && src[p - 1] != ascii::NEWLINE {
                    assert(line_begin(src, q - 1) == line_begin(src, p - 1));
                    assert(src.subrange(line_begin(src, q - 1), q) =~= src.subrange(
                        line_begin(src, p - 1),
                        p,
                    ).push(src[p]));
                    assert(chars_of(src.subrange(line_begin(src, q - 1), q)) =~= chars_of(
                        src.subrange(line_begin(src, p - 1), p),
                    ).push(src[p] as char));
                } else {
                    assert(line_begin(src, q - 1) == p);
                    assert(chars_of(src.subrange(p, q)) =~= Seq::<char>::empty().push(
                        src[p] as char,
                    ));
                }
            }
        } else {
            self.current_char = None;
            self.exhausted = true;
        }
    }

    /// Runs the cursor to the end and returns the number of lines: none for
    /// an empty source, else one more than there are newlines.
    pub fn lc(&mut self) -> (lines: usize)
        requires
            old(self).wf(),
        ensures
            final(self).wf(),
            final(self).source() == old(self).source(),
            final(self).pos() == old(self).source().len() + 1,
            lines == if old(self).source().len() == 0 {
                0
            } else {
                1 + newlines(old(self).source(), old(self).source().len() as int)
            },
    {
        self.next_char();
        while self.current_char.is_some()
            invariant
                self.wf(),
                self.source() == old(self).source(),
                1 <= self.pos() <= self.source().len() + 1,
            decreases self.source().len() + 1 - self.pos(),
        {
            self.next_char();
        }
        self.current_line
    }

    /// Runs the cursor to the end and returns the line and column of every
    /// `a` it passes, in order.
    pub fn apos(&mut self) -> (found: Vec<(usize, usize)>)
        requires
            old(self).wf(),
        ensures
            final(self).wf(),
            final(self).source() == old(self).source(),
            final(self).pos() == old(self).source().len() + 1,
            marks_of(found@) == a_marks(
                old(self).source(),
                old(self).pos(),
                old(self).source().len() as int,
            ),
    {
        let ghost src = self.source();
        let ghost lo = self.pos();
        let mut found: Vec<(usize, usize)> = Vec::new();
        self.next_char();
        while self.current_char.is_some()
            invariant
                self.wf(),
                self.source() == src,
                0 <= lo < self.pos() <= src.len() + 1 || (lo == src.len() + 1 && self.pos()
                    == lo),
                marks_of(found@) =~= a_marks(src, lo, self.pos() - 1),
            decreases src.len() + 1 - self.pos(),
        {
            if self.current_char == Some(ascii::LOWER_A) {
                found.push((self.current_line, self.current_column));
            }
            self.next_char();
        }
        found
    }

    /// The byte under the cursor; none in front of the first byte and past
    /// the last.
    pub fn get_current_char_u8(&self) -> (c: Option<u8>)
        requires
            self.wf(),
        ensures
            c == cursor_char(self.source(), self.pos()),
    {
        self.current_char
    }

    /// The index of the byte under the cursor; the length of the source
    /// past the last byte.
    pub fn get_current_index(&self) -> (i: usize)
        requires
            self.wf(),
            self.pos() >= 1,
        ensures
            i == self.pos() - 1,
    {
        if self.exhausted {
            self.source.len()
        } else {
            self.next - 1
        }
    }

    /// The byte behind the one under the cursor, which the next advance
    /// reaches.
    pub fn get_next_char_u8(&self) -> (c: Option<u8>)
        requires
            self.wf(),
        ensures
            c == cursor_char(self.source(), self.pos() + 1),
    {
        if !self.exhausted && self.next < self.source.len() {
            Some(self.source[self.next])
        } else {
            None
        }
    }

    /// The byte under the cursor as the character with that code.
    pub fn get_current_char(&self) -> (c: Option<char>)
        requires
            self.wf(),
        ensures
            c == match cursor_char(self.source(), self.pos()) {
                Some(b) => Some(b as char),
                None => None,
            },
    {
        match self.current_char {
            Some(b) => Some(b as char),
            None => None,
        }
    }

    /// The line the cursor stands on.
    pub fn get_current_line(&self) -> (line: usize)
        requires
            self.wf(),
        ensures
            line == cursor_line(self.source(), self.pos()),
    {
        self.current_line
    }

    /// The column the cursor stands in.
    pub fn get_current_column(&self) -> (column: usize)
        requires
            self.wf(),
        ensures
            column == cursor_column(self.source(), self.pos()),
    {
        self.current_column
    }

    /// The text of the current line up to and including the byte under
    /// the cursor.
    pub fn get_current_line_content(&self) -> (text: &String)
        requires
            self.wf(),
        ensures
            text@ == cursor_text(self.source(), self.pos()),
    {
        &self.current_line_content
    }

    /// The name the stream was made with.
    pub fn get_file_name(&self) -> (name: &String)
        ensures
            name@ == self.name(),
    {
        &self.file_name
    }

    /// The byte under a cursor that has advanced `pos` times.
    pub fn char_at(&self, pos: usize) -> (c: Option<u8>)
        requires
            self.wf(),
        ensures
            c == cursor_char(self.source(), pos as int),
    {
        if 1 <= pos && pos <= self.source.len() {
            Some(self.source[pos - 1])
        } else {
            None
        }
    }

    /// How many newlines stand in front of index `end`.
    fn count_newlines(&self, end: usize) -> (n: usize)
        requires
            end <= self.source@.len(),
        ensures
            n == newlines(self.source@, end as int),
            n <= end,
    {
        let mut n: usize = 0;
        let mut i: usize = 0;
        while i < end
            invariant
                i <= end,
                end <= self.source@.len(),
                n == newlines(self.source@, i as int),
                n <= i,
            decreases end - i,
        {
            if self.source[i] == ascii::NEWLINE {
                n = n + 1;
            }
            i = i + 1;
        }
        n
    }

    /// Where the line that holds index `i` begins.
    fn find_line_begin(&self, i: usize) -> (begin: usize)
        requires
            i <= self.source@.len(),
        ensures
            begin == line_begin(self.source@, i as int),
            begin <= i,
    {
        let mut j = i;
        while j > 0 && self.source[j - 1] != ascii::NEWLINE
            invariant
                j <= i,
                i <= self.source@.len(),
                line_begin(self.source@, j as int) == line_begin(self.source@, i as int),
            decreases j,
        {
            j = j - 1;
        }
        j
    }

    /// The line of a cursor that has advanced `pos` times.
    pub fn line_at(&self, pos: usize) -> (line: usize)
        requires
            self.wf(),
            pos <= self.source().len() + 1,
        ensures
            line == cursor_line(self.source(), pos as int),
    {
        let len = self.source.len();
        if pos == 0 || len == 0 {
            0
        } else if pos <= len {
            1 + self.count_newlines(pos - 1)
        } else {
            1 + self.count_newlines(len)
        }
    }

    /// The column of a cursor that has advanced `pos` times.
    pub fn column_at(&self, pos: usize) -> (column: usize)
        requires
            self.wf(),
            pos <= self.source().len() + 1,
        ensures
            column == cursor_column(self.source(), pos as int),
    {
        let len = self.source.len();
        if pos == 0 || len == 0 {
            0
        } else if pos <= len {
            pos - self.find_line_begin(pos - 1)
        } else if self.source[len - 1] == ascii::NEWLINE {
            0
        } else {
            len - self.find_line_begin(len - 1)
        }
    }

    /// The text of the line of a cursor that has advanced `pos` times, up
    /// to and including the byte under it.
    pub fn text_at(&self, pos: usize) -> (text: String)
        requires
            self.wf(),
            pos <= self.source().len() + 1,
        ensures
            text@ == cursor_text(self.source(), pos as int),
    {
        let len = self.source.len();
        let mut text = String::new();
        if pos == 0 || len == 0 {
            return text;
        }
        if pos > len && self.source[len - 1] == ascii::NEWLINE {
            return text;
        }
        let end = if pos <= len {
            pos
        } else {
            len
        };
        let begin = self.find_line_begin(end - 1);
        let mut i = begin;
        proof {
            assert(chars_of(self.source@.subrange(begin as int, begin as int)) =~= text@);
        }
        while i < end
            invariant
                begin <= i <= end,
                end <= self.source@.len(),
                text@ == chars_of(self.source@.subrange(begin as int, i as int)),
            decreases end - i,
        {
            proof {
                assert(chars_of(self.source@.subrange(begin as int, i + 1)) =~= chars_of(
                    self.source@.subrange(begin as int, i as int),
                ).push(self.source@[i as int] as char));
            }
            text.push(self.source[i] as char);
            i = i + 1;
        }
        text
    }
}

} // verus!
