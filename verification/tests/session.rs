use crossterm::event::{KeyCode, KeyEvent, KeyModifiers};
use rustguard::key::{Key, KeyInput};
use rustguard::mode::{Mode, Outcome};
use rustguard::session::EditorState;

fn plain(key: Key) -> KeyInput {
    KeyInput { key, ctrl: false }
}

fn ch(c: char) -> KeyInput {
    plain(Key::Char(c))
}

fn ctrl(c: char) -> KeyInput {
    KeyInput { key: Key::Char(c), ctrl: true }
}

fn session(content: &str) -> EditorState {
    EditorState::new("wg0".to_string(), content.to_string())
}

fn feed_all(state: &mut EditorState, inputs: &[KeyInput]) {
    for input in inputs {
        assert_eq!(state.feed(*input), None);
    }
}

fn lines(state: &EditorState) -> Vec<String> {
    state.buffer().lines()
}

fn cursor(state: &EditorState) -> (usize, usize) {
    (state.buffer().cursor_row(), state.buffer().cursor_col())
}

fn strings(items: &[&str]) -> Vec<String> {
    items.iter().map(|s| s.to_string()).collect()
}

#[test]
fn new_session_starts_in_navigation_at_origin() {
    let s = session("ab\ncd");
    assert_eq!(s.profile(), "wg0");
    assert_eq!(lines(&s), strings(&["ab", "cd"]));
    assert_eq!(cursor(&s), (0, 0));
    assert_eq!(s.mode(), Mode::Navigation);
    assert!(!s.overlay_visible());
    assert_eq!(s.outcome(), None);
}

#[test]
fn empty_content_is_one_empty_line() {
    let s = session("");
    assert_eq!(lines(&s), strings(&[""]));
    assert_eq!(s.buffer().line_count(), 1);
    assert_eq!(s.buffer().join_text(), "");
}

#[test]
fn append_at_end_of_line_stays_then_types() {
    let mut s = session("abc");
    feed_all(&mut s, &[ch('l'), ch('l'), ch('l')]);
    assert_eq!(cursor(&s), (0, 3));
    assert_eq!(s.feed(ch('a')), None);
    assert_eq!(cursor(&s), (0, 3));
    assert_eq!(s.mode(), Mode::Insertion);
    assert_eq!(s.feed(ch('d')), None);
    assert_eq!(lines(&s), strings(&["abcd"]));
    assert_eq!(cursor(&s), (0, 4));
}

#[test]
fn append_before_end_moves_one_right() {
    let mut s = session("abc");
    assert_eq!(s.feed(ch('a')), None);
    assert_eq!(cursor(&s), (0, 1));
    assert_eq!(s.mode(), Mode::Insertion);
    assert_eq!(s.feed(ch('X')), None);
    assert_eq!(lines(&s), strings(&["aXbc"]));
    assert_eq!(cursor(&s), (0, 2));
}

#[test]
fn open_line_below_inserts_empty_line() {
    let mut s = session("ab\ncd");
    feed_all(&mut s, &[ch('l'), ch('l')]);
    assert_eq!(cursor(&s), (0, 2));
    assert_eq!(s.feed(ch('o')), None);
    assert_eq!(lines(&s), strings(&["ab", "", "cd"]));
    assert_eq!(cursor(&s), (1, 0));
    assert_eq!(s.mode(), Mode::Insertion);
}

#[test]
fn delete_line_clears_the_only_line() {
    let mut s = session("hello");
    assert_eq!(s.feed(ch('D')), None);
    assert_eq!(lines(&s), strings(&[""]));
    assert_eq!(cursor(&s), (0, 0));
    assert_eq!(s.mode(), Mode::Navigation);
}

#[test]
fn delete_line_removes_and_clamps() {
    let mut s = session("abcdef\nxy\nlast");
    feed_all(&mut s, &[ch('l'), ch('l'), ch('l'), ch('l')]);
    assert_eq!(cursor(&s), (0, 4));
    assert_eq!(s.feed(ch('D')), None);
    assert_eq!(lines(&s), strings(&["xy", "last"]));
    assert_eq!(cursor(&s), (0, 2));
    assert_eq!(s.feed(ch('j')), None);
    assert_eq!(cursor(&s), (1, 2));
    assert_eq!(s.feed(ch('D')), None);
    assert_eq!(lines(&s), strings(&["xy"]));
    assert_eq!(cursor(&s), (0, 2));
}

#[test]
fn backspace_at_line_start_joins_lines() {
    let mut s = session("ab\ncd");
    feed_all(&mut s, &[ch('j'), ch('i')]);
    assert_eq!(cursor(&s), (1, 0));
    assert_eq!(s.mode(), Mode::Insertion);
    assert_eq!(s.feed(plain(Key::Backspace)), None);
    assert_eq!(lines(&s), strings(&["abcd"]));
    assert_eq!(cursor(&s), (0, 2));
}

#[test]
fn backspace_inside_line_deletes_before_cursor() {
    let mut s = session("abc");
    feed_all(&mut s, &[ch('l'), ch('l'), ch('i'), plain(Key::Backspace)]);
    assert_eq!(lines(&s), strings(&["ac"]));
    assert_eq!(cursor(&s), (0, 1));
}

#[test]
fn backspace_at_buffer_start_does_nothing() {
    let mut s = session("abc\nd");
    feed_all(&mut s, &[ch('i'), plain(Key::Backspace)]);
    assert_eq!(lines(&s), strings(&["abc", "d"]));
    assert_eq!(cursor(&s), (0, 0));
}

#[test]
fn save_in_navigation_returns_saved_and_keeps_text() {
    let mut s = session("ab\ncd");
    assert_eq!(s.feed(ctrl('s')), Some(Outcome::Saved));
    assert_eq!(s.outcome(), Some(Outcome::Saved));
    assert_eq!(lines(&s), strings(&["ab", "cd"]));
    assert_eq!(cursor(&s), (0, 0));
    assert_eq!(s.buffer().join_text(), "ab\ncd");
    assert_eq!(s.mode(), Mode::Navigation);
}

#[test]
fn save_in_insertion_returns_saved_and_inserts_nothing() {
    let mut s = session("ab");
    feed_all(&mut s, &[ch('i'), ch('x')]);
    assert_eq!(s.feed(ctrl('s')), Some(Outcome::Saved));
    assert_eq!(lines(&s), strings(&["xab"]));
    assert_eq!(s.mode(), Mode::Insertion);
}

#[test]
fn plain_s_in_navigation_does_nothing() {
    let mut s = session("ab");
    assert_eq!(s.feed(ch('s')), None);
    assert_eq!(lines(&s), strings(&["ab"]));
    assert_eq!(cursor(&s), (0, 0));
    assert_eq!(s.mode(), Mode::Navigation);
}

#[test]
fn cancel_in_navigation_ends_the_edit() {
    let mut s = session("ab");
    assert_eq!(s.feed(plain(Key::Esc)), Some(Outcome::Cancelled));
    assert_eq!(s.outcome(), Some(Outcome::Cancelled));
    assert_eq!(lines(&s), strings(&["ab"]));
}

#[test]
fn cancel_in_insertion_returns_to_navigation() {
    let mut s = session("ab");
    assert_eq!(s.feed(ch('i')), None);
    assert_eq!(s.mode(), Mode::Insertion);
    assert_eq!(s.feed(plain(Key::Esc)), None);
    assert_eq!(s.mode(), Mode::Navigation);
    assert_eq!(s.outcome(), None);
    assert_eq!(s.feed(plain(Key::Esc)), Some(Outcome::Cancelled));
}

#[test]
fn overlay_toggled_twice_is_back_and_buffer_untouched() {
    let mut s = session("ab\ncd");
    assert!(!s.overlay_visible());
    assert_eq!(s.feed(ch('?')), None);
    assert!(s.overlay_visible());
    assert_eq!(s.feed(ch('?')), None);
    assert!(!s.overlay_visible());
    assert_eq!(lines(&s), strings(&["ab", "cd"]));
    assert_eq!(cursor(&s), (0, 0));
    assert_eq!(s.mode(), Mode::Navigation);
}

#[test]
fn visible_overlay_swallows_any_key() {
    let mut s = session("ab\ncd");
    assert_eq!(s.feed(ch('?')), None);
    assert_eq!(s.feed(ch('D')), None);
    assert!(!s.overlay_visible());
    assert_eq!(lines(&s), strings(&["ab", "cd"]));
    assert_eq!(s.feed(ch('?')), None);
    assert_eq!(s.feed(plain(Key::Esc)), None);
    assert!(!s.overlay_visible());
    assert_eq!(s.outcome(), None);
    assert_eq!(s.feed(ch('?')), None);
    assert_eq!(s.feed(ctrl('s')), None);
    assert!(!s.overlay_visible());
    assert_eq!(s.feed(ch('?')), None);
    assert_eq!(s.feed(ch('i')), None);
    assert_eq!(s.mode(), Mode::Navigation);
}

#[test]
fn question_mark_in_insertion_is_text() {
    let mut s = session("");
    feed_all(&mut s, &[ch('i'), ch('?')]);
    assert!(!s.overlay_visible());
    assert_eq!(lines(&s), strings(&["?"]));
}

#[test]
fn navigation_letters_and_arrows_move_alike() {
    let mut a = session("abc\nde");
    let mut b = session("abc\nde");
    feed_all(&mut a, &[ch('l'), ch('l'), ch('l'), ch('j'), ch('h'), ch('k')]);
    feed_all(
        &mut b,
        &[
            plain(Key::Right),
            plain(Key::Right),
            plain(Key::Right),
            plain(Key::Down),
            plain(Key::Left),
            plain(Key::Up),
        ],
    );
    assert_eq!(cursor(&a), (0, 1));
    assert_eq!(cursor(&b), (0, 1));
}

#[test]
fn navigation_does_not_wrap_across_lines() {
    let mut s = session("ab\ncd");
    feed_all(&mut s, &[plain(Key::Left)]);
    assert_eq!(cursor(&s), (0, 0));
    feed_all(&mut s, &[ch('l'), ch('l'), ch('l'), plain(Key::Right)]);
    assert_eq!(cursor(&s), (0, 2));
    feed_all(&mut s, &[ch('j'), ch('h'), ch('h'), ch('h')]);
    assert_eq!(cursor(&s), (1, 0));
    feed_all(&mut s, &[ch('k'), ch('k')]);
    assert_eq!(cursor(&s), (0, 0));
    feed_all(&mut s, &[ch('j'), ch('j')]);
    assert_eq!(cursor(&s), (1, 0));
}

#[test]
fn insertion_arrows_wrap_across_lines() {
    let mut s = session("ab\ncd");
    feed_all(&mut s, &[ch('i'), plain(Key::Right), plain(Key::Right)]);
    assert_eq!(cursor(&s), (0, 2));
    feed_all(&mut s, &[plain(Key::Right)]);
    assert_eq!(cursor(&s), (1, 0));
    feed_all(&mut s, &[plain(Key::Left)]);
    assert_eq!(cursor(&s), (0, 2));
    feed_all(&mut s, &[plain(Key::Down), plain(Key::Right)]);
    assert_eq!(cursor(&s), (1, 2));
    feed_all(&mut s, &[plain(Key::Up), plain(Key::Left), plain(Key::Left), plain(Key::Left)]);
    assert_eq!(cursor(&s), (0, 0));
    assert_eq!(s.mode(), Mode::Insertion);
}

#[test]
fn insertion_letters_are_text_not_movement() {
    let mut s = session("");
    feed_all(&mut s, &[ch('i'), ch('h'), ch('j'), ch('k'), ch('l'), ch('D'), ch('x')]);
    assert_eq!(lines(&s), strings(&["hjklDx"]));
    assert_eq!(cursor(&s), (0, 6));
}

#[test]
fn control_characters_are_not_inserted() {
    let mut s = session("ab");
    feed_all(&mut s, &[ch('i'), ctrl('a'), ctrl('x')]);
    assert_eq!(lines(&s), strings(&["ab"]));
    assert_eq!(cursor(&s), (0, 0));
    assert_eq!(s.mode(), Mode::Insertion);
}

#[test]
fn control_does_not_change_navigation_movement() {
    let mut s = session("ab");
    feed_all(&mut s, &[ctrl('l')]);
    assert_eq!(cursor(&s), (0, 1));
}

#[test]
fn enter_splits_line_at_cursor() {
    let mut s = session("hello");
    feed_all(&mut s, &[ch('l'), ch('l'), ch('i'), plain(Key::Enter)]);
    assert_eq!(lines(&s), strings(&["he", "llo"]));
    assert_eq!(cursor(&s), (1, 0));
    assert_eq!(s.buffer().join_text(), "he\nllo");
}

#[test]
fn enter_in_navigation_does_nothing() {
    let mut s = session("hello");
    feed_all(&mut s, &[plain(Key::Enter), plain(Key::Backspace), plain(Key::Other)]);
    assert_eq!(lines(&s), strings(&["hello"]));
    assert_eq!(cursor(&s), (0, 0));
    assert_eq!(s.mode(), Mode::Navigation);
}

#[test]
fn delete_char_removes_under_cursor_and_not_at_end() {
    let mut s = session("abc");
    feed_all(&mut s, &[ch('l'), ch('x')]);
    assert_eq!(lines(&s), strings(&["ac"]));
    assert_eq!(cursor(&s), (0, 1));
    feed_all(&mut s, &[ch('x')]);
    assert_eq!(lines(&s), strings(&["a"]));
    assert_eq!(cursor(&s), (0, 1));
    feed_all(&mut s, &[ch('x')]);
    assert_eq!(lines(&s), strings(&["a"]));
    assert_eq!(cursor(&s), (0, 1));
}

#[test]
fn vertical_moves_pull_cursor_to_shorter_line() {
    let mut s = session("abcdef\nxy\nlonger line");
    feed_all(&mut s, &[ch('l'), ch('l'), ch('l'), ch('l'), ch('j')]);
    assert_eq!(cursor(&s), (1, 2));
    feed_all(&mut s, &[ch('j')]);
    assert_eq!(cursor(&s), (2, 2));
    feed_all(&mut s, &[ch('l'), ch('l'), ch('l'), ch('k')]);
    assert_eq!(cursor(&s), (1, 2));
}

#[test]
fn columns_count_characters() {
    let mut s = session("h\u{e9}llo \u{2713}");
    feed_all(&mut s, &[ch('l'), ch('x')]);
    assert_eq!(lines(&s), strings(&["hllo \u{2713}"]));
    feed_all(&mut s, &[ch('i'), ch('\u{e4}')]);
    assert_eq!(lines(&s), strings(&["h\u{e4}llo \u{2713}"]));
    assert_eq!(cursor(&s), (0, 2));
    feed_all(
        &mut s,
        &[
            plain(Key::Right),
            plain(Key::Right),
            plain(Key::Right),
            plain(Key::Right),
            plain(Key::Right),
            plain(Key::Right),
        ],
    );
    assert_eq!(cursor(&s), (0, 7));
    feed_all(&mut s, &[plain(Key::Backspace)]);
    assert_eq!(lines(&s), strings(&["h\u{e4}llo "]));
    assert_eq!(cursor(&s), (0, 6));
}

#[test]
fn terminal_events_drive_the_session() {
    let mut s = session("ab\ncd");
    let none = KeyModifiers::NONE;
    assert_eq!(s.handle_event(KeyEvent::new(KeyCode::Char('j'), none)), None);
    assert_eq!(s.handle_event(KeyEvent::new(KeyCode::Right, none)), None);
    assert_eq!(cursor(&s), (1, 1));
    assert_eq!(s.handle_event(KeyEvent::new(KeyCode::Up, none)), None);
    assert_eq!(s.handle_event(KeyEvent::new(KeyCode::Down, none)), None);
    assert_eq!(s.handle_event(KeyEvent::new(KeyCode::Left, none)), None);
    assert_eq!(cursor(&s), (1, 0));
    assert_eq!(s.handle_event(KeyEvent::new(KeyCode::Char('i'), none)), None);
    assert_eq!(s.mode(), Mode::Insertion);
    assert_eq!(s.handle_event(KeyEvent::new(KeyCode::Char('Z'), KeyModifiers::SHIFT)), None);
    assert_eq!(s.handle_event(KeyEvent::new(KeyCode::Enter, none)), None);
    assert_eq!(lines(&s), strings(&["ab", "Z", "cd"]));
    assert_eq!(s.handle_event(KeyEvent::new(KeyCode::Backspace, none)), None);
    assert_eq!(lines(&s), strings(&["ab", "Zcd"]));
    assert_eq!(s.handle_event(KeyEvent::new(KeyCode::Char('q'), KeyModifiers::CONTROL)), None);
    assert_eq!(s.handle_event(KeyEvent::new(KeyCode::Tab, none)), None);
    assert_eq!(s.handle_event(KeyEvent::new(KeyCode::F(1), none)), None);
    assert_eq!(lines(&s), strings(&["ab", "Zcd"]));
    assert_eq!(s.handle_event(KeyEvent::new(KeyCode::Esc, none)), None);
    assert_eq!(s.mode(), Mode::Navigation);
    assert_eq!(
        s.handle_event(KeyEvent::new(KeyCode::Char('s'), KeyModifiers::CONTROL)),
        Some(Outcome::Saved)
    );
    assert_eq!(s.buffer().join_text(), "ab\nZcd");
}

#[test]
fn terminal_escape_cancels_in_navigation() {
    let mut s = session("ab");
    assert_eq!(
        s.handle_event(KeyEvent::new(KeyCode::Esc, KeyModifiers::NONE)),
        Some(Outcome::Cancelled)
    );
}

#[test]
fn terminal_save_needs_control() {
    let mut s = session("ab");
    assert_eq!(s.handle_event(KeyEvent::new(KeyCode::Char('s'), KeyModifiers::ALT)), None);
    assert_eq!(
        s.handle_event(KeyEvent::new(
            KeyCode::Char('s'),
            KeyModifiers::CONTROL | KeyModifiers::SHIFT
        )),
        Some(Outcome::Saved)
    );
}

fn key_from(n: u32) -> KeyInput {
    let keys = [
        ch('h'),
        ch('j'),
        ch('k'),
        ch('l'),
        ch('i'),
        ch('a'),
        ch('o'),
        ch('x'),
        ch('D'),
        ch('?'),
        ch('z'),
        ch('s'),
        ctrl('q'),
        plain(Key::Left),
        plain(Key::Right),
        plain(Key::Up),
        plain(Key::Down),
        plain(Key::Enter),
        plain(Key::Backspace),
        plain(Key::Backspace),
        plain(Key::Other),
    ];
    keys[(n as usize) % keys.len()]
}

fn assert_in_bounds(state: &EditorState) {
    let all = lines(state);
    let (row, col) = cursor(state);
    assert!(all.len() >= 1);
    assert_eq!(all.len(), state.buffer().line_count());
    assert!(row < all.len());
    assert!(col <= all[row].chars().count());
    assert!(!state.overlay_visible() || state.mode() == Mode::Navigation);
}

#[test]
fn cursor_stays_in_bounds_under_any_keys() {
    for content in ["", "one line", "ab\ncd\n\nlonger line here\nx", "\n"] {
        let mut s = session(content);
        assert_in_bounds(&s);
        let mut seed: u32 = 12345;
        for step in 0..4000u32 {
            seed = seed.wrapping_mul(1664525).wrapping_add(1013904223);
            let mut input = key_from(seed >> 16);
            if step % 7 == 0 {
                input = plain(Key::Esc);
                if s.mode() == Mode::Navigation && !s.overlay_visible() {
                    input = ch('i');
                }
            }
            assert_eq!(s.feed(input), None);
            assert_in_bounds(&s);
        }
    }
}

#[test]
fn deleting_everything_leaves_one_empty_line() {
    let mut s = session("a\nb\nc");
    feed_all(&mut s, &[ch('D'), ch('D'), ch('D'), ch('D'), ch('x'), ch('h'), ch('k')]);
    assert_eq!(lines(&s), strings(&[""]));
    assert_eq!(cursor(&s), (0, 0));
    assert_eq!(s.buffer().join_text(), "");
}
