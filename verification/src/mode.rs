//! The two modes of the editor and the table that says, for each mode, what
//! a key does to the buffer, to the mode and to the help overlay.
//!
//! The modes differ on the arrow keys: in insertion mode left and right
//! cross line boundaries, in navigation mode they stop at them.

use crate::buffer::{BufferView, TextBuffer};
use crate::key::{Key, KeyInput};
use vstd::prelude::*;

verus! {

/// The mode of the editor.
#[derive(Clone, Copy, Debug, PartialEq, Eq)]
pub enum Mode {
    /// Keys move the cursor and give commands.
    Navigation,
    /// Keys enter text.
    Insertion,
}

/// How an edit ends.
#[derive(Clone, Copy, Debug, PartialEq, Eq)]
pub enum Outcome {
    /// The text is to be written back.
    Saved,
    /// The text is to be thrown away.
    Cancelled,
}

/// What a mode controller holds.
pub struct ModeView {
    pub mode: Mode,
    pub overlay_visible: bool,
}

impl ModeView {
    /// The help overlay is only ever visible in navigation mode.
    pub open spec fn wf(self) -> bool {
        self.overlay_visible ==> self.mode == Mode::Navigation
    }

    /// Navigation mode, overlay hidden.
    pub open spec fn navigation() -> ModeView {
        ModeView { mode: Mode::Navigation, overlay_visible: false }
    }

    /// Insertion mode.
    pub open spec fn insertion() -> ModeView {
        ModeView { mode: Mode::Insertion, overlay_visible: false }
    }
}

/// What one key leaves behind: the buffer, the modes, and the outcome if
/// the key ended the edit.
pub struct Step {
    pub buffer: BufferView,
    pub modes: ModeView,
    pub outcome: Option<Outcome>,
}

/// What a character does in navigation mode with the overlay hidden.
pub open spec fn navigate_char(buffer: BufferView, c: char, ctrl: bool) -> Step {
    let stay = Step { buffer, modes: ModeView::navigation(), outcome: None };
    if c == 'h' {
        Step { buffer: buffer.move_left(), ..stay }
    } else if c == 'l' {
        Step { buffer: buffer.move_right(), ..stay }
    } else if c == 'k' {
        Step { buffer: buffer.move_up(), ..stay }
    } else if c == 'j' {
        Step { buffer: buffer.move_down(), ..stay }
    } else if c == 'i' {
        Step { modes: ModeView::insertion(), ..stay }
    } else if c == 'a' {
        Step { buffer: buffer.move_right(), modes: ModeView::insertion(), ..stay }
    } else if c == 'o' {
        Step { buffer: buffer.open_line_below(), modes: ModeView::insertion(), ..stay }
    } else if c == 'x' {
        Step { buffer: buffer.delete_char_at_cursor(), ..stay }
    } else if c == 'D' {
        Step { buffer: buffer.delete_line(), ..stay }
    } else if c == '?' {
        Step { modes: ModeView { mode: Mode::Navigation, overlay_visible: true }, ..stay }
    } else if c == 's' && ctrl {
        Step { outcome: Some(Outcome::Saved), ..stay }
    } else {
        stay
    }
}

/// What a key does in navigation mode with the overlay hidden. The letters
/// `h`, `l`, `k`, `j` move like the arrow keys; escape cancels the edit.
pub open spec fn navigate(buffer: BufferView, input: KeyInput) -> Step {
    let stay = Step { buffer, modes: ModeView::navigation(), outcome: None };
    match input.key {
        Key::Left => Step { buffer: buffer.move_left(), ..stay },
        Key::Right => Step { buffer: buffer.move_right(), ..stay },
        Key::Up => Step { buffer: buffer.move_up(), ..stay },
        Key::Down => Step { buffer: buffer.move_down(), ..stay },
        Key::Esc => Step { outcome: Some(Outcome::Cancelled), ..stay },
        Key::Char(c) => navigate_char(buffer, c, input.ctrl),
        _ => stay,
    }
}

/// What a key does in insertion mode. Escape goes back to navigation mode
/// and does not end the edit. A character typed with control held is not
/// text: with `s` it saves, with any other character it does nothing.
pub open spec fn insert(buffer: BufferView, input: KeyInput) -> Step {
    let stay = Step { buffer, modes: ModeView::insertion(), outcome: None };
    match input.key {
        Key::Esc => Step { modes: ModeView::navigation(), ..stay },
        Key::Char(c) => if !input.ctrl {
            Step { buffer: buffer.insert_char(c), ..stay }
        } else if c == 's' {
            Step { outcome: Some(Outcome::Saved), ..stay }
        } else {
            stay
        },
        Key::Enter => Step { buffer: buffer.insert_newline(), ..stay },
        Key::Backspace => Step { buffer: buffer.backspace(), ..stay },
        Key::Left => Step { buffer: buffer.move_left_wrapping(), ..stay },
        Key::Right => Step { buffer: buffer.move_right_wrapping(), ..stay },
        Key::Up => Step { buffer: buffer.move_up(), ..stay },
        Key::Down => Step { buffer: buffer.move_down(), ..stay },
        Key::Other => stay,
    }
}

/// What one key does. While the overlay is visible, any key hides it and
/// does nothing else; this is decided before the table of the mode is read.
pub open spec fn step(buffer: BufferView, modes: ModeView, input: KeyInput) -> Step {
    match modes.mode {
        Mode::Navigation => if modes.overlay_visible {
            Step { buffer, modes: ModeView::navigation(), outcome: None }
        } else {
            navigate(buffer, input)
        },
        Mode::Insertion => insert(buffer, input),
    }
}

/// The current mode and whether the help overlay is shown.
pub struct ModeController {
    mode: Mode,
    overlay_visible: bool,
}

impl View for ModeController {
    type V = ModeView;

    closed spec fn view(&self) -> ModeView {
        ModeView { mode: self.mode, overlay_visible: self.overlay_visible }
    }
}

impl ModeController {
    /// The controller's invariant.
    pub open spec fn wf(&self) -> bool {
        self@.wf()
    }

    /// A controller in navigation mode with the overlay hidden.
    pub fn new() -> (controller: ModeController)
        ensures
            controller.wf(),
            controller@ == ModeView::navigation(),
    {
        ModeController { mode: Mode::Navigation, overlay_visible: false }
    }

    /// The current mode.
    pub fn mode(&self) -> (mode: Mode)
        ensures
            mode == self@.mode,
    {
        self.mode
    }

    /// Whether the help overlay is shown.
    pub fn overlay_visible(&self) -> (visible: bool)
        ensures
            visible == self@.overlay_visible,
    {
        self.overlay_visible
    }

    /// Handles a character typed in navigation mode with the overlay hidden.
    fn navigate_char(&mut self, buffer: &mut TextBuffer, c: char, ctrl: bool) -> (outcome: Option<
        Outcome,
    >)
        requires
            old(buffer).wf(),
            old(self)@ == ModeView::navigation(),
        ensures
            final(buffer).wf(),
            final(self).wf(),
            navigate_char(old(buffer)@, c, ctrl) == (Step {
                buffer: final(buffer)@,
                modes: final(self)@,
                outcome,
            }),
    {
        if c == 'h' {
            buffer.move_left();
        } else if c == 'l' {
            buffer.move_right();
        } else if c == 'k' {
            buffer.move_up();
        } else if c == 'j' {
            buffer.move_down();
        } else if c == 'i' {
            self.mode = Mode::Insertion;
        } else if c == 'a' {
            buffer.move_right();
            self.mode = Mode::Insertion;
        } else if c == 'o' {
            buffer.open_line_below();
            self.mode = Mode::Insertion;
        } else if c == 'x' {
            buffer.delete_char_at_cursor();
        } else if c == 'D' {
            buffer.delete_line();
        } else if c == '?' {
            self.overlay_visible = true;
        } else if c == 's' && ctrl {
            return Some(Outcome::Saved);
        }
        None
    }

    /// Handles a key in navigation mode with the overlay hidden.
    fn navigate(&mut self, buffer: &mut TextBuffer, input: KeyInput) -> (outcome: Option<Outcome>)
        requires
            old(buffer).wf(),
            old(self)@ == ModeView::navigation(),
        ensures
            final(buffer).wf(),
            final(self).wf(),
            navigate(old(buffer)@, input) == (Step {
                buffer: final(buffer)@,
                modes: final(self)@,
                outcome,
            }),
    {
        match input.key {
            Key::Left => buffer.move_left(),
            Key::Right => buffer.move_right(),
            Key::Up => buffer.move_up(),
            Key::Down => buffer.move_down(),
            Key::Esc => {
                return Some(Outcome::Cancelled);
            },
            Key::Char(c) => {
                return self.navigate_char(buffer, c, input.ctrl);
            },
            _ => {},
        }
        None
    }

    /// Handles a key in insertion mode.
    fn insert(&mut self, buffer: &mut TextBuffer, input: KeyInput) -> (outcome: Option<Outcome>)
        requires
            old(buffer).wf(),
            old(self)@ == ModeView::insertion(),
        ensures
            final(buffer).wf(),
            final(self).wf(),
            insert(old(buffer)@, input) == (Step {
                buffer: final(buffer)@,
                modes: final(self)@,
                outcome,
            }),
    {
        match input.key {
            Key::Esc => {
                self.mode = Mode::Navigation;
            },
            Key::Char(c) => {
                if !input.ctrl {
                    buffer.insert_char(c);
                } else if c == 's' {
                    return Some(Outcome::Saved);
                }
            },
            Key::Enter => buffer.insert_newline(),
            Key::Backspace => buffer.backspace(),
            Key::Left => buffer.move_left_wrapping(),
            Key::Right => buffer.move_right_wrapping(),
            Key::Up => buffer.move_up(),
            Key::Down => buffer.move_down(),
            Key::Other => {},
        }
        None
    }

    /// Handles one key: changes the buffer, the mode and the overlay as the
    /// table of the current mode says, and returns the outcome if the key
    /// ended the edit.
    pub fn dispatch(&mut self, buffer: &mut TextBuffer, input: KeyInput) -> (outcome: Option<
        Outcome,
    >)
        requires
            old(buffer).wf(),
            old(self).wf(),
        ensures
            final(buffer).wf(),
            final(self).wf(),
            step(old(buffer)@, old(self)@, input) == (Step {
                buffer: final(buffer)@,
                modes: final(self)@,
                outcome,
            }),
    {
        match self.mode {
            Mode::Navigation => {
                if self.overlay_visible {
                    self.overlay_visible = false;
                    None
                } else {
                    self.navigate(buffer, input)
                }
            },
            Mode::Insertion => self.insert(buffer, input),
        }
    }
}

} // verus!
