//! One edit of one profile: a buffer, its mode controller and the profile's
//! name, fed one key at a time until a key ends the edit.

use crate::buffer::{BufferView, TextBuffer};
use crate::key::KeyInput;
use crate::mode::{step, Mode, ModeController, ModeView, Outcome};
use crate::terminal::{key_input_of, read_key_event};
use crossterm::event::KeyEvent;
use vstd::prelude::*;

verus! {

/// What an edit session holds.
pub struct SessionView {
    pub profile: Seq<char>,
    pub buffer: BufferView,
    pub modes: ModeView,
    /// How the edit ended, once it has.
    pub outcome: Option<Outcome>,
}

impl SessionView {
    /// The cursor is inside the buffer, and the overlay is visible in
    /// navigation mode only.
    pub open spec fn wf(self) -> bool {
        self.buffer.wf() && self.modes.wf()
    }

    /// A fresh session on `content`: navigation mode, overlay hidden, the
    /// cursor at the start, the edit not ended.
    pub open spec fn start(profile: Seq<char>, content: Seq<char>) -> SessionView {
        SessionView {
            profile,
            buffer: BufferView::start(content),
            modes: ModeView::navigation(),
            outcome: None,
        }
    }

    /// The session after one key.
    pub open spec fn feed(self, input: KeyInput) -> SessionView {
        let after = step(self.buffer, self.modes, input);
        SessionView {
            profile: self.profile,
            buffer: after.buffer,
            modes: after.modes,
            outcome: after.outcome,
        }
    }
}

/// The state of one edit.
pub struct EditorState {
    profile: String,
    buffer: TextBuffer,
    controller: ModeController,
    outcome: Option<Outcome>,
}

impl View for EditorState {
    type V = SessionView;

    closed spec fn view(&self) -> SessionView {
        SessionView {
            profile: self.profile@,
            buffer: self.buffer@,
            modes: self.controller@,
            outcome: self.outcome,
        }
    }
}

impl EditorState {
    /// The session's invariant.
    pub open spec fn wf(&self) -> bool {
        self@.wf()
    }

    /// Starts an edit of `profile` on `content`.
    pub fn new(profile: String, content: String) -> (state: EditorState)
        ensures
            state.wf(),
            state@ == SessionView::start(profile@, content@),
    {
        EditorState {
            profile,
            buffer: TextBuffer::from_text(content.as_str()),
            controller: ModeController::new(),
            outcome: None,
        }
    }

    /// Handles one key. A key that ends the edit returns how it ended, and
    /// the session takes no further keys after that.
    pub fn feed(&mut self, input: KeyInput) -> (outcome: Option<Outcome>)
        requires
            old(self).wf(),
            old(self)@.outcome is None,
        ensures
            final(self).wf(),
            final(self)@ == old(self)@.feed(input),
            outcome == final(self)@.outcome,
    {
        let outcome = self.controller.dispatch(&mut self.buffer, input);
        self.outcome = outcome;
        outcome
    }

    /// Handles one key event of the terminal: reads it as a key and a
    /// control flag and feeds that to the session.
    pub fn handle_event(&mut self, key: KeyEvent) -> (outcome: Option<Outcome>)
        requires
            old(self).wf(),
            old(self)@.outcome is None,
        ensures
            final(self).wf(),
            final(self)@ == old(self)@.feed(key_input_of(key)),
            outcome == final(self)@.outcome,
    {
        let input = read_key_event(&key);
        self.feed(input)
    }

    /// The name of the profile under edit.
    pub fn profile(&self) -> (profile: &str)
        ensures
            profile@ == self@.profile,
    {
        self.profile.as_str()
    }

    /// The buffer, to read its lines and cursor.
    pub fn buffer(&self) -> (buffer: &TextBuffer)
        ensures
            buffer@ == self@.buffer,
            self.wf() ==> buffer.wf(),
    {
        &self.buffer
    }

    /// The current mode.
    pub fn mode(&self) -> (mode: Mode)
        ensures
            mode == self@.modes.mode,
    {
        self.controller.mode()
    }

    /// Whether the help overlay is shown.
    pub fn overlay_visible(&self) -> (visible: bool)
        ensures
            visible == self@.modes.overlay_visible,
    {
        self.controller.overlay_visible()
    }

    /// How the edit ended, or `None` while it goes on.
    pub fn outcome(&self) -> (outcome: Option<Outcome>)
        ensures
            outcome == self@.outcome,
    {
        self.outcome
    }
}

} // verus!
