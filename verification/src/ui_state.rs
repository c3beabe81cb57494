//! What the candidate window was last told, so that it is not told twice.

use vstd::prelude::*;

use crate::text::same_text;

verus! {

broadcast use vstd::string::group_string_axioms;

/// The caret rectangle that the window is placed at.
#[derive(Clone, Copy, Debug, PartialEq, Eq, Structural)]
pub struct WindowPosition {
    pub top: i32,
    pub left: i32,
    pub bottom: i32,
    pub right: i32,
}

/// Something that the window is told. The candidates themselves are not kept.
#[derive(Debug)]
pub enum WindowCommand<T = String> {
    Hide,
    SetPosition(WindowPosition),
    SetCandidateState { selection: i32 },
    SetSelection(i32),
    SetInputMode(T),
}

impl View for WindowCommand<String> {
    type V = WindowCommand<Seq<char>>;

    open spec fn view(&self) -> WindowCommand<Seq<char>> {
        match self {
            WindowCommand::Hide => WindowCommand::Hide,
            WindowCommand::SetPosition(position) => WindowCommand::SetPosition(*position),
            WindowCommand::SetCandidateState { selection } => WindowCommand::SetCandidateState {
                selection: *selection,
            },
            WindowCommand::SetSelection(index) => WindowCommand::SetSelection(*index),
            WindowCommand::SetInputMode(mode) => WindowCommand::SetInputMode(mode@),
        }
    }
}

/// What the window is known to show.
#[derive(Debug)]
pub struct UIState {
    pub visible: Option<bool>,
    pub position: Option<WindowPosition>,
    pub selection: Option<i32>,
    pub input_mode: Option<String>,
}

/// The contents of a `UIState`.
#[verifier::ext_equal]
pub struct UIStateView {
    pub visible: Option<bool>,
    pub position: Option<WindowPosition>,
    pub selection: Option<i32>,
    pub input_mode: Option<Seq<char>>,
}

impl View for UIState {
    type V = UIStateView;

    open spec fn view(&self) -> UIStateView {
        UIStateView {
            visible: self.visible,
            position: self.position,
            selection: self.selection,
            input_mode: match self.input_mode {
                Some(mode) => Some(mode@),
                None => None,
            },
        }
    }
}

impl UIStateView {
    /// Nothing is known.
    pub open spec fn unknown() -> UIStateView {
        UIStateView { visible: None, position: None, selection: None, input_mode: None }
    }

    /// Whether the window shows already what it would be told.
    pub open spec fn is_redundant(self, command: WindowCommand<Seq<char>>) -> bool {
        match command {
            WindowCommand::Hide => self.visible == Some(false),
            WindowCommand::SetPosition(position) => self.position == Some(position),
            WindowCommand::SetCandidateState { .. } => false,
            WindowCommand::SetSelection(index) => self.selection == Some(index),
            WindowCommand::SetInputMode(mode) => self.input_mode == Some(mode),
        }
    }

    /// What is known after the window was told. New candidates change the size of
    /// the window, and with it its place, so that its position is no longer known.
    pub open spec fn told(self, command: WindowCommand<Seq<char>>) -> UIStateView {
        match command {
            WindowCommand::Hide => UIStateView { visible: Some(false), ..self },
            WindowCommand::SetPosition(position) => UIStateView {
                position: Some(position),
                ..self
            },
            WindowCommand::SetCandidateState { selection } => UIStateView {
                selection: Some(selection),
                visible: Some(true),
                position: None,
                ..self
            },
            WindowCommand::SetSelection(index) => UIStateView { selection: Some(index), ..self },
            WindowCommand::SetInputMode(mode) => UIStateView { input_mode: Some(mode), ..self },
        }
    }
}

impl Default for UIState {
    fn default() -> (state: UIState)
        ensures
            state@ == UIStateView::unknown(),
    {
        UIState { visible: None, position: None, selection: None, input_mode: None }
    }
}

impl UIState {
    /// Tells whether the window shows already what it would be told.
    pub fn is_redundant(&self, command: &WindowCommand) -> (redundant: bool)
        ensures
            redundant == self@.is_redundant(command@),
    {
        match command {
            WindowCommand::Hide => match self.visible {
                Some(visible) => !visible,
                None => false,
            },
            WindowCommand::SetPosition(position) => match self.position {
                Some(known) => known == *position,
                None => false,
            },
            WindowCommand::SetCandidateState { .. } => false,
            WindowCommand::SetSelection(index) => match self.selection {
                Some(known) => known == *index,
                None => false,
            },
            WindowCommand::SetInputMode(mode) => match &self.input_mode {
                Some(known) => same_text(known.as_str(), mode.as_str()),
                None => false,
            },
        }
    }

    /// Notes that the window was told.
    pub fn told(&mut self, command: WindowCommand)
        ensures
            final(self)@ == old(self)@.told(command@),
    {
        match command {
            WindowCommand::Hide => {
                self.visible = Some(false);
            },
            WindowCommand::SetPosition(position) => {
                self.position = Some(position);
            },
            WindowCommand::SetCandidateState { selection } => {
                self.selection = Some(selection);
                self.visible = Some(true);
                self.position = None;
            },
            WindowCommand::SetSelection(index) => {
                self.selection = Some(index);
            },
            WindowCommand::SetInputMode(mode) => {
                self.input_mode = Some(mode);
            },
        }
    }
}

/// What a window shows.
pub struct ShownWindow {
    pub visible: bool,
    pub position: WindowPosition,
    pub selection: i32,
    pub input_mode: Seq<char>,
}

impl ShownWindow {
    /// The window after a command. New candidates may move it anywhere.
    pub open spec fn follows(self, command: WindowCommand<Seq<char>>, after: ShownWindow) -> bool {
        match command {
            WindowCommand::Hide => after == ShownWindow { visible: false, ..self },
            WindowCommand::SetPosition(position) => after == ShownWindow { position, ..self },
            WindowCommand::SetCandidateState { selection } => after == ShownWindow {
                visible: true,
                selection,
                position: after.position,
                ..self
            },
            WindowCommand::SetSelection(index) => after == ShownWindow { selection: index, ..self },
            WindowCommand::SetInputMode(mode) => after == ShownWindow { input_mode: mode, ..self },
        }
    }

    /// Whether all that is known of the window is so.
    pub open spec fn agrees(self, known: UIStateView) -> bool {
        &&& known.visible matches Some(visible) ==> visible == self.visible
        &&& known.position matches Some(position) ==> position == self.position
        &&& known.selection matches Some(selection) ==> selection == self.selection
        &&& known.input_mode matches Some(mode) ==> mode == self.input_mode
    }
}

/// What is known of the window stays true as long as every command that was sent
/// is noted.
pub proof fn what_is_known_stays_true(
    known: UIStateView,
    window: ShownWindow,
    command: WindowCommand<Seq<char>>,
    after: ShownWindow,
)
    requires
        window.agrees(known),
        window.follows(command, after),
    ensures
        after.agrees(known.told(command)),
{
}

/// Leaving out a redundant command changes nothing of what the window shows.
pub proof fn a_redundant_command_changes_nothing(
    known: UIStateView,
    window: ShownWindow,
    command: WindowCommand<Seq<char>>,
    after: ShownWindow,
)
    requires
        window.agrees(known),
        known.is_redundant(command),
        window.follows(command, after),
    ensures
        after == window,
{
}

/// A command is sent once: the same command right after it is redundant. Only
/// candidates are always sent.
pub proof fn a_repeated_command_is_redundant(known: UIStateView, command: WindowCommand<Seq<char>>)
    ensures
        known.told(command).is_redundant(command) == !(command is SetCandidateState),
{
}

/// What the window was told is known afterwards, and nothing else is forgotten but
/// the position behind new candidates.
pub proof fn telling_one_thing_forgets_no_other(
    known: UIStateView,
    position: WindowPosition,
    index: i32,
    mode: Seq<char>,
)
    ensures
        ({
            let hidden = known.told(WindowCommand::Hide);
            &&& hidden.visible == Some(false)
            &&& hidden.position == known.position
            &&& hidden.selection == known.selection
            &&& hidden.input_mode == known.input_mode
        }),
        ({
            let placed = known.told(WindowCommand::SetPosition(position));
            &&& placed.position == Some(position)
            &&& placed.visible == known.visible
            &&& placed.selection == known.selection
            &&& placed.input_mode == known.input_mode
        }),
        ({
            let offered = known.told(WindowCommand::SetCandidateState { selection: index });
            &&& offered.selection == Some(index)
            &&& offered.visible == Some(true)
            &&& offered.position is None
            &&& offered.input_mode == known.input_mode
        }),
        ({
            let selected = known.told(WindowCommand::SetSelection(index));
            &&& selected.selection == Some(index)
            &&& selected.visible == known.visible
            &&& selected.position == known.position
            &&& selected.input_mode == known.input_mode
        }),
        ({
            let shown = known.told(WindowCommand::SetInputMode(mode));
            &&& shown.input_mode == Some(mode)
            &&& shown.visible == known.visible
            &&& shown.position == known.position
            &&& shown.selection == known.selection
        }),
{
}

/// A command is left out only where the window is known to show just that: nothing
/// is left out of a window of which nothing is known.
pub proof fn only_what_is_known_is_left_out(
    known: UIStateView,
    command: WindowCommand<Seq<char>>,
)
    ensures
        !UIStateView::unknown().is_redundant(command),
        known.is_redundant(command) ==> match command {
            WindowCommand::Hide => known.visible == Some(false),
            WindowCommand::SetPosition(position) => known.position == Some(position),
            WindowCommand::SetCandidateState { .. } => false,
            WindowCommand::SetSelection(index) => known.selection == Some(index),
            WindowCommand::SetInputMode(mode) => known.input_mode == Some(mode),
        },
{
}

} // verus!
