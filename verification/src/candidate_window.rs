//! The candidate window: how large it is, where it stands and when it is shown.

use vstd::prelude::*;

use crate::candidates::texts_view;
use crate::paths::{join_path, joined_path};
use crate::web_messages::{
    candidate_state_script, candidate_state_script_of, candidates_script, candidates_script_of,
    input_mode_script, input_mode_script_of, selection_script, selection_script_of,
};

verus! {

broadcast use vstd::string::group_string_axioms;

/// The least width of the window.
pub const CANDIDATE_WINDOW_MIN_WIDTH: u32 = 225;

/// The largest width of the window.
pub const CANDIDATE_WINDOW_MAX_WIDTH: u32 = 720;

/// The width of the window around the text.
pub const CANDIDATE_WINDOW_BASE_WIDTH: u32 = 120;

/// The width of a character.
pub const CANDIDATE_CHARACTER_WIDTH: u32 = 18;

/// How long the input mode is shown, in milliseconds.
pub const INDICATOR_MILLIS: u64 = 500;

/// How far the mode indicator stands left of the caret.
pub const INDICATOR_OFFSET: i32 = 45;

/// How far the candidate window stands left of the caret.
pub const CANDIDATE_OFFSET: i64 = 15;

/// The largest number of characters among texts.
pub open spec fn longest(texts: Seq<Seq<char>>) -> nat
    decreases texts.len(),
{
    if texts.len() == 0 {
        0
    } else {
        let others = longest(texts.drop_last());
        if texts.last().len() > others {
            texts.last().len()
        } else {
            others
        }
    }
}

/// A number, kept between two bounds.
pub open spec fn between(value: int, least: int, largest: int) -> int {
    if value < least {
        least
    } else if value > largest {
        largest
    } else {
        value
    }
}

/// The width of the window: enough for the longest candidate, within bounds.
pub open spec fn width_for(texts: Seq<Seq<char>>) -> int {
    between(
        CANDIDATE_WINDOW_BASE_WIDTH + longest(texts) * CANDIDATE_CHARACTER_WIDTH,
        CANDIDATE_WINDOW_MIN_WIDTH as int,
        CANDIDATE_WINDOW_MAX_WIDTH as int,
    )
}

/// Computes the width of the window. Characters beyond the largest width are not
/// counted.
pub fn candidate_window_width(candidates: &Vec<String>) -> (width: u32)
    ensures
        width as int == width_for(texts_view(candidates@)),
{
    let mut counted: u32 = 0;
    assert(texts_view(candidates@.take(0)) =~= Seq::empty());
    for i in 0..candidates.len()
        invariant
            counted <= 34,
            counted as int == if longest(texts_view(candidates@.take(i as int))) > 34 {
                34
            } else {
                longest(texts_view(candidates@.take(i as int))) as int
            },
    {
        let len: usize = candidates[i].as_str().unicode_len();
        let shown: u32 = if len > 34 {
            34
        } else {
            len as u32
        };
        if shown > counted {
            counted = shown;
        }
        proof {
            let taken = texts_view(candidates@.take(i + 1));
            assert(taken.drop_last() =~= texts_view(candidates@.take(i as int)));
            assert(taken.last() == candidates@[i as int]@);
        }
    }
    assert(candidates@.take(candidates@.len() as int) =~= candidates@);
    let estimated: u32 = CANDIDATE_WINDOW_BASE_WIDTH + counted * CANDIDATE_CHARACTER_WIDTH;
    if estimated < CANDIDATE_WINDOW_MIN_WIDTH {
        CANDIDATE_WINDOW_MIN_WIDTH
    } else if estimated > CANDIDATE_WINDOW_MAX_WIDTH {
        CANDIDATE_WINDOW_MAX_WIDTH
    } else {
        estimated
    }
}

/// The window is never narrower or wider than its bounds, and more or longer
/// candidates never make it narrower.
pub proof fn the_width_is_bounded_and_grows(texts: Seq<Seq<char>>, text: Seq<char>)
    ensures
        CANDIDATE_WINDOW_MIN_WIDTH <= width_for(texts) <= CANDIDATE_WINDOW_MAX_WIDTH,
        width_for(texts) <= width_for(texts.push(text)),
{
    assert(texts.push(text).drop_last() =~= texts);
}

/// The longest of the texts is as long as one of them, and none is longer.
pub proof fn the_longest_text_counts(texts: Seq<Seq<char>>, i: int)
    requires
        0 <= i < texts.len(),
    ensures
        texts[i].len() <= longest(texts),
        exists|j: int| 0 <= j < texts.len() && #[trigger] texts[j].len() == longest(texts),
    decreases texts.len(),
{
    let last = texts.len() - 1;
    let others = texts.drop_last();
    assert(texts[last].len() <= longest(texts));
    if texts.len() > 1 {
        the_longest_text_counts(others, 0);
        let j = choose|j: int| 0 <= j < others.len() && #[trigger] others[j].len() == longest(others);
        assert(texts[j] == others[j]);
        if i < last {
            the_longest_text_counts(others, i);
            assert(others[i] == texts[i]);
        }
        if texts.last().len() <= longest(others) {
            assert(texts[j].len() == longest(texts));
        } else {
            assert(texts[last].len() == longest(texts));
        }
    } else {
        assert(longest(others) == 0);
        assert(texts[last].len() == longest(texts));
    }
}

/// The window has room for the longest candidate: 18 for each of its characters
/// and 120 around them, at least 225 and at most 720.
pub proof fn the_width_follows_the_longest_text(texts: Seq<Seq<char>>, j: int)
    requires
        0 <= j < texts.len(),
        forall|i: int| 0 <= i < texts.len() ==> #[trigger] texts[i].len() <= texts[j].len(),
    ensures
        texts[j].len() <= 5 ==> width_for(texts) == 225,
        6 <= texts[j].len() <= 33 ==> width_for(texts) == 120 + 18 * texts[j].len(),
        texts[j].len() >= 34 ==> width_for(texts) == 720,
        width_for(Seq::empty()) == 225,
{
    the_longest_text_counts(texts, j);
}

/// A position on an axis, kept between two bounds; where they leave no room, the
/// lower one counts.
pub open spec fn on_axis(value: int, minimum: int, maximum: int) -> int {
    if maximum < minimum {
        minimum
    } else {
        between(value, minimum, maximum)
    }
}

/// A number as an `i32`, the nearest one where it does not fit.
pub open spec fn nearest_i32(value: int) -> i32 {
    between(value, i32::MIN as int, i32::MAX as int) as i32
}

/// Where the window stands: left of the caret and below it, or above it where
/// there is no room below, inside the work area.
pub open spec fn placement(
    anchor: (i32, i32, i32, i32),
    window_size: (u32, u32),
    work_area: (i32, i32, i32, i32),
) -> (int, int) {
    let (top, left, bottom, _) = anchor;
    let (width, height) = window_size;
    let (work_left, work_top, work_right, work_bottom) = work_area;
    let x = on_axis(left - CANDIDATE_OFFSET, work_left as int, work_right - width);
    let y = if bottom + height > work_bottom {
        top - height
    } else {
        bottom as int
    };
    (x, on_axis(y, work_top as int, work_bottom - height))
}

fn clamp_to_axis(value: i64, minimum: i64, maximum: i64) -> (clamped: i64)
    ensures
        clamped as int == on_axis(value as int, minimum as int, maximum as int),
{
    if maximum < minimum || value < minimum {
        minimum
    } else if value > maximum {
        maximum
    } else {
        value
    }
}

fn to_i32(value: i64) -> (nearest: i32)
    ensures
        nearest == nearest_i32(value as int),
{
    if value < i32::MIN as i64 {
        i32::MIN
    } else if value > i32::MAX as i64 {
        i32::MAX
    } else {
        value as i32
    }
}

/// Computes where the window stands. The anchor is the caret's top, left, bottom
/// and right; the work area is left, top, right and bottom.
pub fn calculate_candidate_window_position(
    anchor: (i32, i32, i32, i32),
    window_size: (u32, u32),
    work_area: (i32, i32, i32, i32),
) -> (position: (i32, i32))
    ensures
        position == (
            nearest_i32(placement(anchor, window_size, work_area).0),
            nearest_i32(placement(anchor, window_size, work_area).1),
        ),
{
    let (top, left, bottom, _) = anchor;
    let width: i64 = window_size.0 as i64;
    let height: i64 = window_size.1 as i64;
    let work_left: i64 = work_area.0 as i64;
    let work_top: i64 = work_area.1 as i64;
    let work_right: i64 = work_area.2 as i64;
    let work_bottom: i64 = work_area.3 as i64;
    let x: i64 = clamp_to_axis(left as i64 - CANDIDATE_OFFSET, work_left, work_right - width);
    let below: i64 = bottom as i64;
    let wanted: i64 = if below + height > work_bottom {
        top as i64 - height
    } else {
        below
    };
    let y: i64 = clamp_to_axis(wanted, work_top, work_bottom - height);
    (to_i32(x), to_i32(y))
}

/// A window that fits into the work area stands inside it, wherever the caret
/// is.
pub proof fn a_window_that_fits_stands_inside(
    anchor: (i32, i32, i32, i32),
    window_size: (u32, u32),
    work_area: (i32, i32, i32, i32),
)
    requires
        work_area.0 + window_size.0 <= work_area.2,
        work_area.1 + window_size.1 <= work_area.3,
    ensures
        ({
            let (x, y) = placement(anchor, window_size, work_area);
            &&& x == nearest_i32(x) && y == nearest_i32(y)
            &&& work_area.0 <= x && x + window_size.0 <= work_area.2
            &&& work_area.1 <= y && y + window_size.1 <= work_area.3
        }),
{
}

/// Where there is room, the window begins 15 left of the caret and right below it,
/// and right above it where there is room only there. At the edges of the work
/// area it is moved just as far as is needed.
pub proof fn the_window_stands_at_the_caret(
    anchor: (i32, i32, i32, i32),
    window_size: (u32, u32),
    work_area: (i32, i32, i32, i32),
)
    requires
        work_area.0 + window_size.0 <= work_area.2,
        work_area.1 + window_size.1 <= work_area.3,
    ensures
        ({
            let (top, left, bottom, _) = anchor;
            let (width, height) = window_size;
            let (work_left, work_top, work_right, work_bottom) = work_area;
            let (x, y) = placement(anchor, window_size, work_area);
            &&& work_left <= left - 15 <= work_right - width ==> x == left - 15
            &&& left - 15 < work_left ==> x == work_left
            &&& left - 15 > work_right - width ==> x + width == work_right
            &&& work_top <= bottom <= work_bottom - height ==> y == bottom
            &&& bottom < work_top ==> y == work_top
            &&& bottom > work_bottom - height && work_top <= top - height <= work_bottom - height
                ==> y + height == top
            &&& bottom > work_bottom - height && top - height < work_top ==> y == work_top
            &&& bottom > work_bottom - height && top > work_bottom ==> y + height == work_bottom
        }),
{
}

/// A window that is too large for the work area begins at its left or upper edge.
pub proof fn a_window_that_is_too_large_begins_at_the_edge(
    anchor: (i32, i32, i32, i32),
    window_size: (u32, u32),
    work_area: (i32, i32, i32, i32),
)
    ensures
        work_area.0 + window_size.0 > work_area.2 ==> placement(anchor, window_size, work_area).0
            == work_area.0,
        work_area.1 + window_size.1 > work_area.3 ==> placement(anchor, window_size, work_area).1
            == work_area.1,
{
}

/// The window does not cover the line of the caret, where there is room below or
/// above it.
pub proof fn the_caret_stays_visible(
    anchor: (i32, i32, i32, i32),
    window_size: (u32, u32),
    work_area: (i32, i32, i32, i32),
)
    requires
        work_area.1 <= anchor.0 <= anchor.2 <= work_area.3,
        anchor.2 + window_size.1 <= work_area.3 || work_area.1 + window_size.1 <= anchor.0,
    ensures
        ({
            let (_, y) = placement(anchor, window_size, work_area);
            y >= anchor.2 || y + window_size.1 <= anchor.0
        }),
{
}

/// Where the mode indicator stands: left of the caret and below it.
pub fn indicator_position(left: i32, bottom: i32) -> (position: (i32, i32))
    requires
        i32::MIN + INDICATOR_OFFSET <= left,
    ensures
        position == ((left - INDICATOR_OFFSET) as i32, bottom),
        position.0 == left - 45,
        position.1 == bottom,
{
    (left - INDICATOR_OFFSET, bottom)
}

/// What is known of the window: its width, the height of the page, the caret that
/// it belongs to, and whether it is wanted.
#[derive(Clone, Copy, Debug, PartialEq, Eq)]
pub struct CandidateWindowState {
    pub width: u32,
    pub content_height: Option<u32>,
    pub anchor: Option<(i32, i32, i32, i32)>,
    pub show_requested: bool,
}

impl CandidateWindowState {
    /// The size of the window, once the page has been measured.
    pub open spec fn size(self) -> Option<(u32, u32)> {
        match self.content_height {
            Some(height) => Some((self.width, height)),
            None => None,
        }
    }

    /// Whether the window is to be seen: it is wanted, and it is known how large
    /// it is and where it stands.
    pub open spec fn is_shown(self) -> bool {
        self.show_requested && self.anchor is Some && self.content_height is Some
    }

    /// Makes the state of a window that is not wanted yet.
    pub fn new(width: u32) -> (state: CandidateWindowState)
        ensures
            state == (CandidateWindowState {
                width,
                content_height: None,
                anchor: None,
                show_requested: false,
            }),
    {
        CandidateWindowState { width, content_height: None, anchor: None, show_requested: false }
    }

    /// Sets the width.
    pub fn set_width(&mut self, width: u32)
        ensures
            *final(self) == (CandidateWindowState { width, ..*old(self) }),
    {
        self.width = width;
    }

    /// Sets the height of the page. A page of no height has not been measured.
    pub fn set_content_height(&mut self, height: u32)
        ensures
            *final(self) == if height > 0 {
                CandidateWindowState { content_height: Some(height), ..*old(self) }
            } else {
                *old(self)
            },
    {
        if height > 0 {
            self.content_height = Some(height);
        }
    }

    /// Sets the caret that the window belongs to.
    pub fn set_anchor(&mut self, anchor: (i32, i32, i32, i32))
        ensures
            *final(self) == (CandidateWindowState { anchor: Some(anchor), ..*old(self) }),
    {
        self.anchor = Some(anchor);
    }

    /// Returns the caret that the window belongs to.
    pub fn anchor(&self) -> (anchor: Option<(i32, i32, i32, i32)>)
        ensures
            anchor == self.anchor,
    {
        self.anchor
    }

    /// Returns the size of the window, once the page has been measured.
    pub fn logical_size(&self) -> (size: Option<(u32, u32)>)
        ensures
            size == self.size(),
    {
        match self.content_height {
            Some(height) => Some((self.width, height)),
            None => None,
        }
    }

    /// Notes that the window is wanted.
    pub fn request_show(&mut self)
        ensures
            *final(self) == (CandidateWindowState { show_requested: true, ..*old(self) }),
    {
        self.show_requested = true;
    }

    /// Tells whether the window is to be seen.
    pub fn should_show(&self) -> (show: bool)
        ensures
            show == self.is_shown(),
    {
        self.show_requested && self.anchor.is_some() && self.content_height.is_some()
    }

    /// Notes that the window is not wanted any more. Its caret belongs to the
    /// composition that has ended; the page stays measured.
    pub fn dismiss(&mut self)
        ensures
            *final(self) == (CandidateWindowState {
                show_requested: false,
                anchor: None,
                ..*old(self)
            }),
    {
        self.show_requested = false;
        self.anchor = None;
    }
}

/// A request of a client to the window.
#[derive(Debug)]
pub enum WindowAction {
    Show,
    Hide,
    SetPosition { top: i32, left: i32, bottom: i32, right: i32 },
    SetCandidate { candidates: Vec<String> },
    SetCandidateState { candidates: Vec<String>, selection: i32 },
    SetSelection { index: i32 },
    SetInputMode(String),
}

/// What happens to the window: a message of its page, or a request of a client.
#[derive(Debug)]
pub enum UserEvent {
    UpdateHeight(i32),
    WindowAction(WindowAction),
}

/// Outside work on the windows.
#[derive(Debug)]
pub enum UiCommand<T = String> {
    /// Resize the candidate window.
    Resize { width: u32, height: u32 },
    /// Move both windows to a caret.
    Place { anchor: (i32, i32, i32, i32) },
    /// Show the candidate window, in place of the mode indicator.
    ShowCandidates,
    HideCandidates,
    /// Run a script in the page of the candidate window.
    RunCandidateScript(T),
    /// Run a script in the page of the mode indicator.
    RunIndicatorScript(T),
    /// Show the mode indicator for a while.
    FlashIndicator,
}

impl View for UiCommand<String> {
    type V = UiCommand<Seq<char>>;

    open spec fn view(&self) -> UiCommand<Seq<char>> {
        match self {
            UiCommand::Resize { width, height } => UiCommand::Resize {
                width: *width,
                height: *height,
            },
            UiCommand::Place { anchor } => UiCommand::Place { anchor: *anchor },
            UiCommand::ShowCandidates => UiCommand::ShowCandidates,
            UiCommand::HideCandidates => UiCommand::HideCandidates,
            UiCommand::RunCandidateScript(script) => UiCommand::RunCandidateScript(script@),
            UiCommand::RunIndicatorScript(script) => UiCommand::RunIndicatorScript(script@),
            UiCommand::FlashIndicator => UiCommand::FlashIndicator,
        }
    }
}

/// Commands, as contracts read them.
pub open spec fn commands_view(commands: Seq<UiCommand>) -> Seq<UiCommand<Seq<char>>> {
    commands.map_values(|command: UiCommand| command@)
}

/// The commands that bring a window to a state: nothing before the page has been
/// measured; then its size, its place where the caret is known, and itself where
/// it is to be seen.
pub open spec fn bring_to(state: CandidateWindowState) -> Seq<UiCommand<Seq<char>>> {
    match state.size() {
        None => Seq::empty(),
        Some((width, height)) => seq![UiCommand::Resize { width, height }] + (match state.anchor {
            Some(anchor) => seq![UiCommand::Place { anchor }],
            None => Seq::empty(),
        }) + (if state.is_shown() {
            seq![UiCommand::ShowCandidates]
        } else {
            Seq::empty()
        }),
    }
}

/// The state of the window after an event, and the commands that follow.
pub open spec fn handled(state: CandidateWindowState, event: UserEvent) -> (
    CandidateWindowState,
    Seq<UiCommand<Seq<char>>>,
) {
    match event {
        UserEvent::UpdateHeight(height) => if height < 0 {
            (state, Seq::empty())
        } else {
            let measured = if height > 0 {
                CandidateWindowState { content_height: Some(height as u32), ..state }
            } else {
                state
            };
            (measured, bring_to(measured))
        },
        UserEvent::WindowAction(WindowAction::Show) => {
            let wanted = CandidateWindowState { show_requested: true, ..state };
            (wanted, bring_to(wanted))
        },
        UserEvent::WindowAction(WindowAction::Hide) => (
            CandidateWindowState { show_requested: false, anchor: None, ..state },
            seq![UiCommand::HideCandidates],
        ),
        UserEvent::WindowAction(WindowAction::SetPosition { top, left, bottom, right }) => {
            let placed = CandidateWindowState { anchor: Some((top, left, bottom, right)), ..state };
            (placed, bring_to(placed))
        },
        UserEvent::WindowAction(WindowAction::SetCandidate { candidates }) => {
            let texts = texts_view(candidates@);
            let sized = CandidateWindowState { width: width_for(texts) as u32, ..state };
            (
                sized,
                bring_to(sized) + seq![UiCommand::RunCandidateScript(candidates_script_of(texts))],
            )
        },
        UserEvent::WindowAction(WindowAction::SetCandidateState { candidates, selection }) => {
            let texts = texts_view(candidates@);
            let sized = CandidateWindowState { width: width_for(texts) as u32, ..state };
            let wanted = CandidateWindowState { show_requested: true, ..sized };
            (
                wanted,
                bring_to(sized) + seq![
                    UiCommand::RunCandidateScript(candidate_state_script_of(texts, selection)),
                ] + bring_to(wanted),
            )
        },
        UserEvent::WindowAction(WindowAction::SetSelection { index }) => (
            state,
            seq![UiCommand::RunCandidateScript(selection_script_of(index))],
        ),
        UserEvent::WindowAction(WindowAction::SetInputMode(mode)) => (
            state,
            seq![
                UiCommand::RunIndicatorScript(input_mode_script_of(mode@)),
                UiCommand::FlashIndicator,
            ],
        ),
    }
}

fn push_command(commands: &mut Vec<UiCommand>, command: UiCommand)
    ensures
        commands_view(final(commands)@) == commands_view(old(commands)@).push(command@),
{
    commands.push(command);
    assert(commands_view(commands@) =~= commands_view(old(commands)@).push(command@));
}

impl CandidateWindowState {
    fn apply(&self, commands: &mut Vec<UiCommand>)
        ensures
            commands_view(final(commands)@) == commands_view(old(commands)@) + bring_to(*self),
    {
        if let Some((width, height)) = self.logical_size() {
            push_command(commands, UiCommand::Resize { width, height });
            if let Some(anchor) = self.anchor() {
                push_command(commands, UiCommand::Place { anchor });
            }
            if self.should_show() {
                push_command(commands, UiCommand::ShowCandidates);
            }
        }
        assert(commands_view(commands@) =~= commands_view(old(commands)@) + bring_to(*self));
    }

    /// Handles an event, and returns the commands that follow.
    pub fn handle(&mut self, event: UserEvent) -> (commands: Vec<UiCommand>)
        ensures
            (*final(self), commands_view(commands@)) == handled(*old(self), event),
    {
        let mut commands: Vec<UiCommand> = Vec::new();
        assert(commands_view(commands@) =~= Seq::empty());
        match event {
            UserEvent::UpdateHeight(height) => {
                if height >= 0 {
                    self.set_content_height(height as u32);
                    self.apply(&mut commands);
                }
            },
            UserEvent::WindowAction(WindowAction::Show) => {
                self.request_show();
                self.apply(&mut commands);
            },
            UserEvent::WindowAction(WindowAction::Hide) => {
                self.dismiss();
                push_command(&mut commands, UiCommand::HideCandidates);
            },
            UserEvent::WindowAction(WindowAction::SetPosition { top, left, bottom, right }) => {
                self.set_anchor((top, left, bottom, right));
                self.apply(&mut commands);
            },
            UserEvent::WindowAction(WindowAction::SetCandidate { candidates }) => {
                self.set_width(candidate_window_width(&candidates));
                self.apply(&mut commands);
                push_command(
                    &mut commands,
                    UiCommand::RunCandidateScript(candidates_script(&candidates)),
                );
            },
            UserEvent::WindowAction(WindowAction::SetCandidateState { candidates, selection }) => {
                self.set_width(candidate_window_width(&candidates));
                self.apply(&mut commands);
                push_command(
                    &mut commands,
                    UiCommand::RunCandidateScript(candidate_state_script(&candidates, selection)),
                );
                self.request_show();
                self.apply(&mut commands);
            },
            UserEvent::WindowAction(WindowAction::SetSelection { index }) => {
                push_command(
                    &mut commands,
                    UiCommand::RunCandidateScript(selection_script(index)),
                );
            },
            UserEvent::WindowAction(WindowAction::SetInputMode(mode)) => {
                push_command(
                    &mut commands,
                    UiCommand::RunIndicatorScript(input_mode_script(mode.as_str())),
                );
                push_command(&mut commands, UiCommand::FlashIndicator);
            },
        }
        proof {
            assert(commands_view(commands@) =~= handled(*old(self), event).1);
        }
        commands
    }
}

/// The window is not shown before it is wanted and its size and place are known.
pub proof fn the_window_waits_for_size_and_place(
    state: CandidateWindowState,
    event: UserEvent,
    i: int,
)
    requires
        0 <= i < handled(state, event).1.len(),
        handled(state, event).1[i] is ShowCandidates,
    ensures
        handled(state, event).0.is_shown(),
{
}

/// A hidden window is not shown again at the old caret: it takes another
/// position first.
pub proof fn a_hidden_window_needs_a_new_caret(state: CandidateWindowState)
    ensures
        ({
            let hidden = handled(state, UserEvent::WindowAction(WindowAction::Hide)).0;
            let wanted = handled(hidden, UserEvent::WindowAction(WindowAction::Show)).0;
            &&& !wanted.is_shown()
            &&& wanted.size() == state.size()
        }),
{
}

/// What the commands do last to a window that is wanted and whose size and place
/// are known: it gets its size and its place, and then it is shown.
pub open spec fn ends_shown(
    state: CandidateWindowState,
    commands: Seq<UiCommand<Seq<char>>>,
) -> bool {
    &&& commands.len() >= 3
    &&& commands[commands.len() - 3] == UiCommand::<Seq<char>>::Resize {
        width: state.width,
        height: state.content_height->0,
    }
    &&& commands[commands.len() - 2] == UiCommand::<Seq<char>>::Place { anchor: state.anchor->0 }
    &&& commands[commands.len() - 1] is ShowCandidates
}

/// New candidates make the window wanted, in every state, and leave its caret and
/// its height as they are: once both are known it is shown, at the new width.
pub proof fn new_candidates_show_the_window(
    state: CandidateWindowState,
    candidates: Vec<String>,
    selection: i32,
)
    ensures
        ({
            let event = UserEvent::WindowAction(
                WindowAction::SetCandidateState { candidates, selection },
            );
            let (after, commands) = handled(state, event);
            &&& after.show_requested
            &&& after.anchor == state.anchor
            &&& after.content_height == state.content_height
            &&& after.width == width_for(texts_view(candidates@))
            &&& state.anchor is Some && state.content_height is Some ==> ends_shown(after, commands)
            &&& exists|i: int|
                0 <= i < commands.len() && #[trigger] commands[i]
                    == UiCommand::RunCandidateScript(
                    candidate_state_script_of(texts_view(candidates@), selection),
                )
        }),
{
    let event = UserEvent::WindowAction(WindowAction::SetCandidateState { candidates, selection });
    let texts = texts_view(candidates@);
    the_width_is_bounded_and_grows(texts, Seq::empty());
    let sized = CandidateWindowState { width: width_for(texts) as u32, ..state };
    let commands = handled(state, event).1;
    let place = bring_to(sized).len() as int;
    assert(commands[place] == UiCommand::RunCandidateScript(
        candidate_state_script_of(texts, selection),
    ));
}

/// Showing the window, moving it and measuring its page each change their own part
/// of what is known, and once the window is wanted and its size and place are
/// known, it is shown there, in that size.
pub proof fn a_window_is_shown_as_soon_as_it_can_be(
    state: CandidateWindowState,
    event: UserEvent,
)
    requires
        match event {
            UserEvent::UpdateHeight(height) => height >= 0,
            UserEvent::WindowAction(WindowAction::Show) => true,
            UserEvent::WindowAction(WindowAction::SetPosition { .. }) => true,
            _ => false,
        },
    ensures
        ({
            let (after, commands) = handled(state, event);
            &&& after.width == state.width
            &&& after.show_requested == (state.show_requested || event matches
                UserEvent::WindowAction(WindowAction::Show))
            &&& match event {
                UserEvent::UpdateHeight(height) => if height > 0 {
                    after.content_height matches Some(measured) && measured == height
                } else {
                    after.content_height == state.content_height
                },
                _ => after.content_height == state.content_height,
            }
            &&& match event {
                UserEvent::WindowAction(WindowAction::SetPosition { top, left, bottom, right }) => {
                    after.anchor == Some((top, left, bottom, right))
                },
                _ => after.anchor == state.anchor,
            }
            &&& after.show_requested && after.anchor is Some && after.content_height is Some
                ==> ends_shown(after, commands)
            &&& after.content_height is None ==> commands.len() == 0
        }),
{
}

/// The window is hidden when it is told to hide, and at no other time; its size is
/// kept.
pub proof fn only_hiding_hides(state: CandidateWindowState, event: UserEvent, i: int)
    requires
        0 <= i < handled(state, event).1.len(),
    ensures
        handled(state, event).1[i] is HideCandidates ==> event == UserEvent::WindowAction(
            WindowAction::Hide,
        ),
        event == UserEvent::WindowAction(WindowAction::Hide) ==> ({
            let (after, commands) = handled(state, event);
            &&& !after.show_requested
            &&& after.anchor is None
            &&& after.width == state.width
            &&& after.content_height == state.content_height
            &&& commands == seq![UiCommand::<Seq<char>>::HideCandidates]
        }),
        event != UserEvent::WindowAction(WindowAction::Hide) ==> ({
            let after = handled(state, event).0;
            &&& state.show_requested ==> after.show_requested
            &&& state.anchor is Some ==> after.anchor is Some
            &&& state.content_height is Some ==> after.content_height is Some
        }),
{
}

/// Candidates without a selection change the width and reach the page, and ask for
/// nothing to be shown; a selection and an input mode reach their page and change
/// nothing of the window; a negative height changes nothing at all.
pub proof fn the_pages_are_told(
    state: CandidateWindowState,
    candidates: Vec<String>,
    index: i32,
    mode: String,
    height: i32,
)
    ensures
        ({
            let event = UserEvent::WindowAction(WindowAction::SetCandidate { candidates });
            let (after, commands) = handled(state, event);
            &&& after.width == width_for(texts_view(candidates@))
            &&& after.anchor == state.anchor
            &&& after.content_height == state.content_height
            &&& after.show_requested == state.show_requested
            &&& commands.len() > 0
            &&& commands.last() == UiCommand::RunCandidateScript(
                candidates_script_of(texts_view(candidates@)),
            )
            &&& state.content_height matches Some(height) ==> commands[0] == UiCommand::<
                Seq<char>,
            >::Resize { width: after.width, height }
        }),
        handled(state, UserEvent::WindowAction(WindowAction::SetSelection { index })) == (
            state,
            seq![UiCommand::RunCandidateScript(selection_script_of(index))],
        ),
        handled(state, UserEvent::WindowAction(WindowAction::SetInputMode(mode))) == (
            state,
            seq![
                UiCommand::RunIndicatorScript(input_mode_script_of(mode@)),
                UiCommand::FlashIndicator,
            ],
        ),
        height < 0 ==> handled(state, UserEvent::UpdateHeight(height)) == (
            state,
            Seq::<UiCommand<Seq<char>>>::empty(),
        ),
{
    the_width_is_bounded_and_grows(texts_view(candidates@), Seq::empty());
}

/// The directory for the data of the pages cannot be found.
#[derive(Clone, Copy, Debug, PartialEq, Eq, Structural)]
pub struct NoDataDirectory;

impl NoDataDirectory {
    /// The text of this error.
    pub fn message(self) -> (message: &'static str)
        ensures
            message@ == "LOCALAPPDATA is unavailable for the WebView2 data directory"@,
    {
        "LOCALAPPDATA is unavailable for the WebView2 data directory"
    }
}

/// Finds the directory for the data of the pages: the user's own, not that of the
/// program.
pub fn webview_data_directory_from_local_app_data(local_app_data: Option<&str>) -> (directory:
    Result<String, NoDataDirectory>)
    ensures
        match directory {
            Ok(directory) => {
                &&& local_app_data matches Some(root) && root@.len() > 0
                &&& directory@ == joined_path(
                    joined_path(local_app_data->0@, "Azookey"@),
                    "WebView2"@,
                )
            },
            Err(_) => local_app_data matches Some(root) ==> root@.len() == 0,
        },
{
    let root = match local_app_data {
        Some(root) => root,
        None => return Err(NoDataDirectory),
    };
    if root.is_empty() {
        return Err(NoDataDirectory);
    }
    let app = join_path(root, "Azookey");
    Ok(join_path(app.as_str(), "WebView2"))
}

} // verus!
