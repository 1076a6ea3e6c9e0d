//! What holds of every buffer and of every session, whatever keys arrive.

use crate::buffer::BufferView;
use crate::dashboard::{DashboardView, Screen};
use crate::key::{Key, KeyInput};
use crate::mode::{step, Mode, ModeView};
use crate::session::SessionView;
use crate::text::{
    initial_lines, join_lines, lemma_join_initial_lines, lemma_lines_hold_no_newline,
    lemma_split_nonempty, split_lines,
};
use vstd::prelude::*;

verus! {

/// The session after the keys `inputs`, fed in order.
pub open spec fn run(start: SessionView, inputs: Seq<KeyInput>) -> SessionView
    decreases inputs.len(),
{
    if inputs.len() == 0 {
        start
    } else {
        run(start, inputs.drop_last()).feed(inputs.last())
    }
}

/// A buffer starts with at least one line and the cursor on the first
/// character position of the first line.
pub proof fn law_start_in_bounds(text: Seq<char>)
    ensures
        BufferView::start(text).wf(),
        BufferView::start(text).lines.len() >= 1,
{
    if text.len() > 0 {
        lemma_split_nonempty(text);
    }
}

/// Every buffer operation takes a buffer whose cursor is in bounds to one
/// whose cursor is in bounds; no operation leaves the buffer without a line.
pub proof fn law_operations_keep_bounds(buffer: BufferView, c: char)
    requires
        buffer.wf(),
    ensures
        buffer.lines.len() >= 1,
        buffer.move_left().wf(),
        buffer.move_right().wf(),
        buffer.move_up().wf(),
        buffer.move_down().wf(),
        buffer.move_left_wrapping().wf(),
        buffer.move_right_wrapping().wf(),
        buffer.insert_char(c).wf(),
        buffer.insert_newline().wf(),
        buffer.open_line_below().wf(),
        buffer.delete_char_at_cursor().wf(),
        buffer.delete_line().wf(),
        buffer.backspace().wf(),
{
}

/// One key keeps the cursor in bounds and the overlay in navigation mode.
pub proof fn law_step_keeps_bounds(buffer: BufferView, modes: ModeView, input: KeyInput)
    requires
        buffer.wf(),
        modes.wf(),
    ensures
        step(buffer, modes, input).buffer.wf(),
        step(buffer, modes, input).modes.wf(),
{
    law_operations_keep_bounds(buffer, 'x');
    match input.key {
        Key::Char(c) => {
            law_operations_keep_bounds(buffer, c);
        },
        _ => {},
    }
}

/// In every state that a session reaches from its start, whatever keys it
/// was fed, the buffer has at least one line, the cursor stands on a line,
/// and its column is at most that line's length.
pub proof fn law_reachable_states_in_bounds(
    profile: Seq<char>,
    text: Seq<char>,
    inputs: Seq<KeyInput>,
)
    ensures
        run(SessionView::start(profile, text), inputs).wf(),
        run(SessionView::start(profile, text), inputs).buffer.lines.len() >= 1,
        run(SessionView::start(profile, text), inputs).buffer.row < run(
            SessionView::start(profile, text),
            inputs,
        ).buffer.lines.len(),
        run(SessionView::start(profile, text), inputs).buffer.col <= run(
            SessionView::start(profile, text),
            inputs,
        ).buffer.line().len(),
    decreases inputs.len(),
{
    if inputs.len() == 0 {
        law_start_in_bounds(text);
    } else {
        law_reachable_states_in_bounds(profile, text, inputs.drop_last());
        let before = run(SessionView::start(profile, text), inputs.drop_last());
        law_step_keeps_bounds(before.buffer, before.modes, inputs.last());
    }
}

/// In navigation mode, the overlay key pressed twice in a row leaves the
/// overlay as visible or hidden as it was, and the buffer, the mode and the
/// profile as they were.
pub proof fn law_overlay_toggle_twice(session: SessionView, ctrl: bool)
    requires
        session.wf(),
        session.modes.mode == Mode::Navigation,
    ensures
        ({
            let toggle = KeyInput { key: Key::Char('?'), ctrl };
            let after = session.feed(toggle).feed(toggle);
            &&& after.modes == session.modes
            &&& after.buffer == session.buffer
            &&& after.profile == session.profile
            &&& after.outcome is None
        }),
{
}

/// A session that has taken no key holds the lines of the text it was
/// started on, or one empty line for the empty text, and none of them holds
/// a newline. The text it would write out is these lines joined; for the
/// empty text that is the empty text, and for a text without carriage
/// returns it is the text itself, less the one newline that it may end in.
pub proof fn law_unedited_round_trip(profile: Seq<char>, text: Seq<char>)
    ensures
        ({
            let session = SessionView::start(profile, text);
            &&& text.len() > 0 ==> session.buffer.lines == split_lines(text)
            &&& text.len() == 0 ==> session.buffer.lines == seq![Seq::<char>::empty()]
                && session.buffer.text() == Seq::<char>::empty()
            &&& forall|i: int|
                0 <= i < session.buffer.lines.len() ==> !(#[trigger] session.buffer.lines[i]).contains(
                    '\n',
                )
            &&& session.buffer.text() == join_lines(initial_lines(text))
            &&& !text.contains('\r') ==> session.buffer.text() == if text.len() > 0 && text.last()
                == '\n' {
                text.drop_last()
            } else {
                text
            }
        }),
{
    lemma_lines_hold_no_newline(text);
    if !text.contains('\r') {
        lemma_join_initial_lines(text);
    }
    if text.len() == 0 {
        assert(initial_lines(text).len() == 1);
    }
}

/// One key keeps the dashboard's selection on a profile and its edit
/// session in bounds, and the editor screen is never shown on a session
/// that has ended.
pub proof fn law_dashboard_keeps_invariant(
    dashboard: DashboardView,
    input: KeyInput,
    active: Seq<Seq<char>>,
)
    requires
        dashboard.wf(),
    ensures
        dashboard.on_key(input, active).0.wf(),
        dashboard.on_key(input, active).0.profiles == dashboard.profiles,
{
    if dashboard.screen == Screen::Editor {
        let session = dashboard.editor->0;
        law_step_keeps_bounds(session.buffer, session.modes, input);
    }
}

/// Opening the editor keeps the dashboard's invariant, and the session it
/// opens is a fresh one on the selected profile.
pub proof fn law_open_editor_keeps_invariant(dashboard: DashboardView, content: Seq<char>)
    requires
        dashboard.wf(),
    ensures
        dashboard.open_editor(content).wf(),
        dashboard.profiles.len() > 0 ==> dashboard.open_editor(content).editor == Some(
            SessionView::start(dashboard.profiles[dashboard.selected as int], content),
        ),
{
    law_start_in_bounds(content);
}

} // verus!
