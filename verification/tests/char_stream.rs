use minipython::char_stream::CharStream;

fn stream(source: &str) -> CharStream {
    CharStream::new("test.txt", source.as_bytes().to_vec())
}

#[test]
fn line_count() {
    assert_eq!(stream("").lc(), 0);
    assert_eq!(stream("abc").lc(), 1);
    assert_eq!(stream("abc\n").lc(), 2);
    assert_eq!(stream("\n").lc(), 2);
    assert_eq!(stream("a\nb\nc").lc(), 3);
}

#[test]
fn positions_of_a() {
    assert_eq!(stream("").apos(), vec![]);
    assert_eq!(stream("\n").apos(), vec![]);
    assert_eq!(stream("a").apos(), vec![(1, 1)]);
    assert_eq!(
        stream("01234567a\n\n012345a01234567a\n").apos(),
        vec![(1, 9), (3, 7), (3, 16)]
    );
}

#[test]
fn cursor_walks_bytes_lines_and_columns() {
    let mut s = stream("ab\nc");
    assert_eq!(s.get_current_char_u8(), None);
    assert_eq!(s.get_current_line(), 0);
    assert_eq!(s.get_current_column(), 0);
    s.next_char();
    assert_eq!(s.get_current_char(), Some('a'));
    assert_eq!((s.get_current_line(), s.get_current_column()), (1, 1));
    assert_eq!(s.get_next_char_u8(), Some(b'b'));
    assert_eq!(s.get_current_index(), 0);
    s.next_char();
    assert_eq!(s.get_current_line_content(), "ab");
    s.next_char();
    assert_eq!(s.get_current_char_u8(), Some(b'\n'));
    assert_eq!((s.get_current_line(), s.get_current_column()), (1, 3));
    assert_eq!(s.get_current_line_content(), "ab\n");
    s.next_char();
    assert_eq!(s.get_current_char(), Some('c'));
    assert_eq!((s.get_current_line(), s.get_current_column()), (2, 1));
    assert_eq!(s.get_current_line_content(), "c");
    s.next_char();
    assert_eq!(s.get_current_char_u8(), None);
    assert_eq!((s.get_current_line(), s.get_current_column()), (2, 1));
    s.next_char();
    assert_eq!(s.get_current_char_u8(), None);
    assert_eq!(s.get_file_name(), "test.txt");
}

#[test]
fn positions_by_number_of_advances() {
    let s = stream("ab\ncd\n");
    assert_eq!(s.line_at(0), 0);
    assert_eq!((s.line_at(1), s.column_at(1)), (1, 1));
    assert_eq!((s.line_at(3), s.column_at(3)), (1, 3));
    assert_eq!((s.line_at(4), s.column_at(4)), (2, 1));
    assert_eq!((s.line_at(7), s.column_at(7)), (3, 0));
    assert_eq!(s.text_at(5), "cd");
    assert_eq!(s.text_at(7), "");
    assert_eq!(s.char_at(4), Some(b'c'));
    assert_eq!(s.char_at(7), None);
}
