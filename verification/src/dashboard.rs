//! The screens of the dashboard and what a key does on each of them. The
//! dashboard decides; whoever runs it carries the decision out. While the
//! editor is open the keys go to the edit session, and the dashboard sees
//! to it that a session takes no key after the one that ended it.

use crate::key::{Key, KeyInput};
use crate::mode::Outcome;
use crate::session::{EditorState, SessionView};
use crate::terminal::{key_input_of, read_key_event};
use crate::text::string_rows;
use crossterm::event::KeyEvent;
use vstd::prelude::*;

verus! {

/// The screens of the dashboard.
#[derive(Clone, Copy, Debug, PartialEq, Eq)]
pub enum Screen {
    /// The list of profiles.
    Manager,
    /// The log of what was done.
    Status,
    /// The key bindings.
    Help,
    /// The details of one interface.
    Details,
    /// The editor, open on one profile.
    Editor,
}

/// What is to be done after a key.
#[derive(Clone, Copy, Debug, PartialEq, Eq)]
pub enum Request {
    /// Nothing.
    Nothing,
    /// Leave the dashboard.
    Quit,
    /// Fetch and show the details of the profile with this index.
    ShowDetails(usize),
    /// Read the profile with this index and open the editor on its text.
    OpenEditor(usize),
    /// Bring up the profile with this index.
    Connect(usize),
    /// Take down the profile with this index.
    Disconnect(usize),
    /// The edit has ended: write the text of the edit session back.
    Save,
    /// The edit has ended: its text is not wanted.
    Discard,
}

/// What a dashboard holds: the screen shown, the names of the profiles,
/// the index of the selected one, and the edit session that was opened
/// last, if any was.
pub struct DashboardView {
    pub screen: Screen,
    pub profiles: Seq<Seq<char>>,
    pub selected: nat,
    pub editor: Option<SessionView>,
}

impl DashboardView {
    /// The selection is on a profile, or at zero where there is none. While
    /// the editor screen is shown there is an edit session, and it has not
    /// ended.
    pub open spec fn wf(self) -> bool {
        &&& self.selected < self.profiles.len() || (self.profiles.len() == 0 && self.selected
            == 0)
        &&& self.editor is Some ==> self.editor->0.wf()
        &&& self.screen == Screen::Editor ==> self.editor is Some && self.editor->0.outcome is None
    }

    /// A dashboard as it starts: the manager screen, the first profile
    /// selected, no edit session.
    pub open spec fn start(profiles: Seq<Seq<char>>) -> DashboardView {
        DashboardView { screen: Screen::Manager, profiles, selected: 0, editor: None }
    }

    /// The dashboard with the editor open on `content` as the text of the
    /// selected profile; unchanged where there is no profile.
    pub open spec fn open_editor(self, content: Seq<char>) -> DashboardView {
        if self.selected < self.profiles.len() {
            DashboardView {
                screen: Screen::Editor,
                editor: Some(SessionView::start(self.profiles[self.selected as int], content)),
                ..self
            }
        } else {
            self
        }
    }

    /// What a key does while the editor is open: it goes to the edit
    /// session, and the key that ends the edit brings the manager screen
    /// back.
    pub open spec fn editor_key(self, input: KeyInput) -> (DashboardView, Request) {
        match self.editor {
            Some(session) => {
                let after = session.feed(input);
                match after.outcome {
                    None => (DashboardView { editor: Some(after), ..self }, Request::Nothing),
                    Some(Outcome::Saved) => (
                        DashboardView { screen: Screen::Manager, editor: Some(after), ..self },
                        Request::Save,
                    ),
                    Some(Outcome::Cancelled) => (
                        DashboardView { screen: Screen::Manager, editor: Some(after), ..self },
                        Request::Discard,
                    ),
                }
            },
            None => (self.on_screen(Screen::Manager), Request::Nothing),
        }
    }

    /// Whether the selected profile is among the interfaces `active`.
    pub open spec fn selected_active(self, active: Seq<Seq<char>>) -> bool {
        self.selected < self.profiles.len() && active.contains(self.profiles[self.selected as int])
    }

    /// The dashboard on another screen.
    pub open spec fn on_screen(self, screen: Screen) -> DashboardView {
        DashboardView { screen, ..self }
    }

    /// What a key does on the manager screen, where `active` are the
    /// interfaces that are up. Without profiles, the keys that act on the
    /// selected profile do nothing.
    pub open spec fn manager_key(self, key: Key, active: Seq<Seq<char>>) -> (
        DashboardView,
        Request,
    ) {
        if key == Key::Char('q') {
            (self, Request::Quit)
        } else if key == Key::Char('s') {
            (self.on_screen(Screen::Status), Request::Nothing)
        } else if key == Key::Char('h') {
            (self.on_screen(Screen::Help), Request::Nothing)
        } else if key == Key::Char('d') {
            if self.profiles.len() == 0 {
                (self, Request::Nothing)
            } else {
                (self.on_screen(Screen::Details), Request::ShowDetails(self.selected as usize))
            }
        } else if key == Key::Char('e') {
            if self.profiles.len() == 0 {
                (self, Request::Nothing)
            } else {
                (self, Request::OpenEditor(self.selected as usize))
            }
        } else if key == Key::Up || key == Key::Char('k') {
            if self.selected > 0 {
                (DashboardView { selected: (self.selected - 1) as nat, ..self }, Request::Nothing)
            } else {
                (self, Request::Nothing)
            }
        } else if key == Key::Down || key == Key::Char('j') {
            if self.selected + 1 < self.profiles.len() {
                (DashboardView { selected: self.selected + 1, ..self }, Request::Nothing)
            } else {
                (self, Request::Nothing)
            }
        } else if key == Key::Enter {
            if self.profiles.len() == 0 {
                (self, Request::Nothing)
            } else if self.selected_active(active) {
                (self, Request::Disconnect(self.selected as usize))
            } else {
                (self, Request::Connect(self.selected as usize))
            }
        } else {
            (self, Request::Nothing)
        }
    }

    /// What a key does: on the manager screen what its table says; on the
    /// status screen `w` goes back to the manager and `q` quits; on the help
    /// and details screens any key goes back to the manager; while the
    /// editor is open the key is the edit session's. Outside the editor
    /// only the key counts, whatever modifiers were held.
    pub open spec fn on_key(self, input: KeyInput, active: Seq<Seq<char>>) -> (
        DashboardView,
        Request,
    ) {
        match self.screen {
            Screen::Manager => self.manager_key(input.key, active),
            Screen::Status => if input.key == Key::Char('w') {
                (self.on_screen(Screen::Manager), Request::Nothing)
            } else if input.key == Key::Char('q') {
                (self, Request::Quit)
            } else {
                (self, Request::Nothing)
            },
            Screen::Help => (self.on_screen(Screen::Manager), Request::Nothing),
            Screen::Details => (self.on_screen(Screen::Manager), Request::Nothing),
            Screen::Editor => self.editor_key(input),
        }
    }
}

/// The dashboard: which screen is shown, which profile is selected, and
/// the edit session while a profile is edited.
pub struct Dashboard {
    screen: Screen,
    profiles: Vec<String>,
    selected: usize,
    editor: Option<EditorState>,
}

impl View for Dashboard {
    type V = DashboardView;

    closed spec fn view(&self) -> DashboardView {
        DashboardView {
            screen: self.screen,
            profiles: string_rows(self.profiles@),
            selected: self.selected as nat,
            editor: match self.editor {
                Some(session) => Some(session@),
                None => None,
            },
        }
    }
}

impl Dashboard {
    /// The dashboard's invariant.
    pub open spec fn wf(&self) -> bool {
        self@.wf()
    }

    /// A dashboard over the profiles named `profiles`: the manager screen,
    /// the first profile selected.
    pub fn new(profiles: Vec<String>) -> (dashboard: Dashboard)
        ensures
            dashboard.wf(),
            dashboard@ == DashboardView::start(string_rows(profiles@)),
    {
        Dashboard { screen: Screen::Manager, profiles, selected: 0, editor: None }
    }

    /// The edit session that was opened last, if any was: the one that
    /// takes the keys while the editor screen is shown, and afterwards the
    /// one that has ended.
    pub fn editor(&self) -> (editor: Option<&EditorState>)
        ensures
            match editor {
                Some(session) => self@.editor == Some(session@) && (self.wf() ==> session.wf()),
                None => self@.editor is None,
            },
    {
        match &self.editor {
            Some(session) => Some(session),
            None => None,
        }
    }

    /// Opens the editor on `content`, the text of the selected profile.
    /// Does nothing where there is no profile.
    pub fn open_editor(&mut self, content: String)
        requires
            old(self).wf(),
        ensures
            final(self).wf(),
            final(self)@ == old(self)@.open_editor(content@),
    {
        if self.selected < self.profiles.len() {
            let profile = self.profiles[self.selected].clone();
            self.editor = Some(EditorState::new(profile, content));
            self.screen = Screen::Editor;
        }
    }

    /// The names of the profiles.
    pub fn profiles(&self) -> (profiles: &Vec<String>)
        ensures
            string_rows(profiles@) == self@.profiles,
    {
        &self.profiles
    }

    /// The screen shown.
    pub fn screen(&self) -> (screen: Screen)
        ensures
            screen == self@.screen,
    {
        self.screen
    }

    /// The index of the selected profile.
    pub fn selected(&self) -> (selected: usize)
        ensures
            selected == self@.selected,
            self.wf() && self@.profiles.len() > 0 ==> selected < self@.profiles.len(),
    {
        self.selected
    }

    /// Handles a key on the manager screen.
    fn manager_key(&mut self, key: Key, active: &Vec<String>) -> (request: Request)
        requires
            old(self).wf(),
        ensures
            final(self).wf(),
            (final(self)@, request) == old(self)@.manager_key(key, string_rows(active@)),
    {
        match key {
            Key::Char(c) => {
                if c == 'q' {
                    return Request::Quit;
                } else if c == 's' {
                    self.screen = Screen::Status;
                } else if c == 'h' {
                    self.screen = Screen::Help;
                } else if c == 'd' {
                    if self.profiles.len() > 0 {
                        self.screen = Screen::Details;
                        return Request::ShowDetails(self.selected);
                    }
                } else if c == 'e' {
                    if self.profiles.len() > 0 {
                        return Request::OpenEditor(self.selected);
                    }
                } else if c == 'k' {
                    self.select_previous();
                } else if c == 'j' {
                    self.select_next();
                }
            },
            Key::Up => self.select_previous(),
            Key::Down => self.select_next(),
            Key::Enter => {
                if self.profiles.len() > 0 {
                    if contains_name(active, &self.profiles[self.selected]) {
                        return Request::Disconnect(self.selected);
                    } else {
                        return Request::Connect(self.selected);
                    }
                }
            },
            _ => {},
        }
        Request::Nothing
    }

    /// Moves the selection one profile up, if there is one.
    fn select_previous(&mut self)
        requires
            old(self).wf(),
        ensures
            final(self).wf(),
            final(self)@ == if old(self)@.selected > 0 {
                DashboardView { selected: (old(self)@.selected - 1) as nat, ..old(self)@ }
            } else {
                old(self)@
            },
    {
        if self.selected > 0 {
            self.selected = self.selected - 1;
        }
    }

    /// Moves the selection one profile down, if there is one.
    fn select_next(&mut self)
        requires
            old(self).wf(),
        ensures
            final(self).wf(),
            final(self)@ == if old(self)@.selected + 1 < old(self)@.profiles.len() {
                DashboardView { selected: old(self)@.selected + 1, ..old(self)@ }
            } else {
                old(self)@
            },
    {
        if self.profiles.len() > 0 && self.selected < self.profiles.len() - 1 {
            self.selected = self.selected + 1;
        }
    }

    /// Handles a key while the editor is open.
    fn editor_key(&mut self, input: KeyInput) -> (request: Request)
        requires
            old(self).wf(),
            old(self)@.screen == Screen::Editor,
        ensures
            final(self).wf(),
            (final(self)@, request) == old(self)@.editor_key(input),
    {
        let outcome = match &mut self.editor {
            Some(session) => session.feed(input),
            None => None,
        };
        match outcome {
            None => Request::Nothing,
            Some(Outcome::Saved) => {
                self.screen = Screen::Manager;
                Request::Save
            },
            Some(Outcome::Cancelled) => {
                self.screen = Screen::Manager;
                Request::Discard
            },
        }
    }

    /// Handles one key: changes screen and selection, feeds the edit
    /// session while the editor is open, and says what is to be done.
    /// `active` are the interfaces that are up.
    pub fn on_key(&mut self, input: KeyInput, active: &Vec<String>) -> (request: Request)
        requires
            old(self).wf(),
        ensures
            final(self).wf(),
            (final(self)@, request) == old(self)@.on_key(input, string_rows(active@)),
    {
        match self.screen {
            Screen::Manager => self.manager_key(input.key, active),
            Screen::Status => {
                match input.key {
                    Key::Char(c) => {
                        if c == 'w' {
                            self.screen = Screen::Manager;
                        } else if c == 'q' {
                            return Request::Quit;
                        }
                    },
                    _ => {},
                }
                Request::Nothing
            },
            Screen::Help => {
                self.screen = Screen::Manager;
                Request::Nothing
            },
            Screen::Details => {
                self.screen = Screen::Manager;
                Request::Nothing
            },
            Screen::Editor => self.editor_key(input),
        }
    }

    /// Handles one key event of the terminal.
    pub fn handle_event(&mut self, event: KeyEvent, active: &Vec<String>) -> (request: Request)
        requires
            old(self).wf(),
        ensures
            final(self).wf(),
            (final(self)@, request) == old(self)@.on_key(
                key_input_of(event),
                string_rows(active@),
            ),
    {
        let input = read_key_event(&event);
        self.on_key(input, active)
    }
}

/// Whether `name` is one of `names`.
pub fn contains_name(names: &Vec<String>, name: &String) -> (found: bool)
    ensures
        found == string_rows(names@).contains(name@),
{
    let n: usize = names.len();
    let mut i: usize = 0;
    while i < n
        invariant
            n == names@.len(),
            i <= n,
            forall|k: int| 0 <= k < i ==> string_rows(names@)[k] != name@,
        decreases n - i,
    {
        if names[i] == *name {
            assert(string_rows(names@)[i as int] == name@);
            return true;
        }
        i = i + 1;
    }
    false
}

/// The three percentages that centre a share of `percent` percent: the
/// share in the middle, half of the rest on either side, rounded down.
pub fn centered_percentages(percent: u16) -> (parts: (u16, u16, u16))
    requires
        percent <= 100,
    ensures
        parts.0 == (100 - percent) / 2,
        parts.1 == percent,
        parts.2 == (100 - percent) / 2,
        parts.0 + parts.1 + parts.2 <= 100,
{
    let side: u16 = (100 - percent) / 2;
    (side, percent, side)
}

} // verus!
