use rustguard::buffer::TextBuffer;
use rustguard::text::{
    chars_of, join_text, line_to_string, lines_of, lines_to_strings, split_text,
};

fn texts(items: &[&str]) -> Vec<String> {
    items.iter().map(|s| s.to_string()).collect()
}

fn chars(s: &str) -> Vec<char> {
    s.chars().collect()
}

fn at(buffer: &TextBuffer) -> (usize, usize) {
    (buffer.cursor_row(), buffer.cursor_col())
}

#[test]
fn split_text_cuts_at_newlines() {
    assert_eq!(split_text("ab\ncd"), vec![chars("ab"), chars("cd")]);
    assert_eq!(split_text("a\n\nb"), vec![chars("a"), chars(""), chars("b")]);
    assert_eq!(split_text("one"), vec![chars("one")]);
}

#[test]
fn split_text_of_empty_text_is_one_empty_line() {
    assert_eq!(split_text(""), vec![chars("")]);
}

#[test]
fn split_text_drops_one_final_newline() {
    assert_eq!(split_text("ab\n"), vec![chars("ab")]);
    assert_eq!(split_text("ab\n\n"), vec![chars("ab"), chars("")]);
    assert_eq!(split_text("\n"), vec![chars("")]);
}

#[test]
fn split_text_takes_carriage_return_with_newline_as_line_end() {
    assert_eq!(split_text("a\r\nb\r\n"), vec![chars("a"), chars("b")]);
    assert_eq!(split_text("a\r\r\nb"), vec![chars("a\r"), chars("b")]);
    assert_eq!(split_text("a\rb"), vec![chars("a\rb")]);
    assert_eq!(split_text("ab\r"), vec![chars("ab\r")]);
}

#[test]
fn split_text_agrees_with_std_lines() {
    let samples = ["", "a", "a\n", "\n", "\n\n", "a\r\n", "a\r", "\r\n\r\n", "x\ny\r\nz", "\r", "a\n\r"];
    for sample in samples {
        let expected: Vec<String> = if sample.is_empty() {
            vec![String::new()]
        } else {
            sample.lines().map(|l| l.to_string()).collect()
        };
        assert_eq!(lines_to_strings(&split_text(sample)), expected);
    }
}

#[test]
fn join_text_puts_newlines_between_lines() {
    assert_eq!(join_text(&vec![chars("ab"), chars("cd")]), "ab\ncd");
    assert_eq!(join_text(&vec![chars("ab")]), "ab");
    assert_eq!(join_text(&vec![chars("")]), "");
    assert_eq!(join_text(&vec![chars("a"), chars(""), chars("")]), "a\n\n");
    assert_eq!(join_text(&Vec::new()), "");
}

#[test]
fn line_to_string_keeps_characters() {
    assert_eq!(line_to_string(&chars("h\u{e9}llo")), "h\u{e9}llo");
    assert_eq!(line_to_string(&chars("")), "");
}

#[test]
fn unedited_buffer_gives_text_back() {
    for text in ["a", "ab\ncd", "a\n\nb", "x\ny\nz", "  spaced  \n\ttab"] {
        let buffer = TextBuffer::from_text(text);
        assert_eq!(buffer.join_text(), text);
    }
    assert_eq!(TextBuffer::from_text("").join_text(), "");
    assert_eq!(TextBuffer::from_text("").lines(), texts(&[""]));
    assert_eq!(TextBuffer::from_text("ab\ncd\n").join_text(), "ab\ncd");
    assert_eq!(TextBuffer::from_text("ab\ncd").lines(), texts(&["ab", "cd"]));
}

#[test]
fn buffer_starts_at_origin() {
    let buffer = TextBuffer::from_text("ab\ncd");
    assert_eq!(at(&buffer), (0, 0));
    assert_eq!(buffer.line_count(), 2);
}

#[test]
fn buffer_moves_clamp_at_edges() {
    let mut buffer = TextBuffer::from_text("ab\nc");
    buffer.move_left();
    buffer.move_up();
    assert_eq!(at(&buffer), (0, 0));
    buffer.move_right();
    buffer.move_right();
    buffer.move_right();
    assert_eq!(at(&buffer), (0, 2));
    buffer.move_down();
    assert_eq!(at(&buffer), (1, 1));
    buffer.move_down();
    assert_eq!(at(&buffer), (1, 1));
    buffer.move_right();
    assert_eq!(at(&buffer), (1, 1));
    buffer.move_up();
    assert_eq!(at(&buffer), (0, 1));
}

#[test]
fn buffer_wrapping_moves_cross_lines() {
    let mut buffer = TextBuffer::from_text("ab\nc");
    buffer.move_left_wrapping();
    assert_eq!(at(&buffer), (0, 0));
    buffer.move_right_wrapping();
    buffer.move_right_wrapping();
    assert_eq!(at(&buffer), (0, 2));
    buffer.move_right_wrapping();
    assert_eq!(at(&buffer), (1, 0));
    buffer.move_right_wrapping();
    buffer.move_right_wrapping();
    assert_eq!(at(&buffer), (1, 1));
    buffer.move_left_wrapping();
    buffer.move_left_wrapping();
    assert_eq!(at(&buffer), (0, 2));
}

#[test]
fn buffer_insert_char_advances_cursor() {
    let mut buffer = TextBuffer::from_text("ac");
    buffer.move_right();
    buffer.insert_char('b');
    assert_eq!(buffer.lines(), texts(&["abc"]));
    assert_eq!(at(&buffer), (0, 2));
}

#[test]
fn buffer_insert_newline_at_line_edges() {
    let mut buffer = TextBuffer::from_text("ab");
    buffer.insert_newline();
    assert_eq!(buffer.lines(), texts(&["", "ab"]));
    assert_eq!(at(&buffer), (1, 0));
    buffer.move_right();
    buffer.move_right();
    buffer.insert_newline();
    assert_eq!(buffer.lines(), texts(&["", "ab", ""]));
    assert_eq!(at(&buffer), (2, 0));
    assert_eq!(buffer.join_text(), "\nab\n");
}

#[test]
fn buffer_open_line_below_last_line() {
    let mut buffer = TextBuffer::from_text("ab");
    buffer.move_right();
    buffer.open_line_below();
    assert_eq!(buffer.lines(), texts(&["ab", ""]));
    assert_eq!(at(&buffer), (1, 0));
}

#[test]
fn buffer_delete_last_line_moves_cursor_up() {
    let mut buffer = TextBuffer::from_text("a\nbcd");
    buffer.move_down();
    buffer.move_right();
    buffer.move_right();
    buffer.move_right();
    assert_eq!(at(&buffer), (1, 3));
    buffer.delete_line();
    assert_eq!(buffer.lines(), texts(&["a"]));
    assert_eq!(at(&buffer), (0, 1));
    buffer.delete_line();
    assert_eq!(buffer.lines(), texts(&[""]));
    assert_eq!(at(&buffer), (0, 0));
    assert_eq!(buffer.line_count(), 1);
}

#[test]
fn buffer_backspace_joins_onto_previous_line() {
    let mut buffer = TextBuffer::from_text("ab\ncd\nef");
    buffer.move_down();
    buffer.move_down();
    buffer.backspace();
    assert_eq!(buffer.lines(), texts(&["ab", "cdef"]));
    assert_eq!(at(&buffer), (1, 2));
    buffer.backspace();
    assert_eq!(buffer.lines(), texts(&["ab", "cef"]));
    assert_eq!(at(&buffer), (1, 1));
}

#[test]
fn buffer_delete_char_at_end_of_line_does_nothing() {
    let mut buffer = TextBuffer::from_text("a\nb");
    buffer.move_right();
    buffer.delete_char_at_cursor();
    assert_eq!(buffer.lines(), texts(&["a", "b"]));
    buffer.move_left();
    buffer.delete_char_at_cursor();
    assert_eq!(buffer.lines(), texts(&["", "b"]));
    assert_eq!(at(&buffer), (0, 0));
}

#[test]
fn chars_of_keeps_every_character() {
    assert_eq!(chars_of("a\u{e9}\n\u{2713}"), vec!['a', '\u{e9}', '\n', '\u{2713}']);
    assert_eq!(chars_of(""), Vec::<char>::new());
}

#[test]
fn lines_of_empty_text_has_no_line() {
    assert_eq!(lines_of(""), Vec::<Vec<char>>::new());
    assert_eq!(lines_of("\n"), vec![chars("")]);
    assert_eq!(lines_of("a\nb"), vec![chars("a"), chars("b")]);
    assert_eq!(lines_of("a\r\nb\n"), vec![chars("a"), chars("b")]);
}
