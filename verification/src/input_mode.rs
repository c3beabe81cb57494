//! The two input modes of the text service.

use vstd::prelude::*;

verus! {

/// The mode in which typed keys are read.
#[derive(Clone, Copy, Debug, PartialEq, Eq, Structural)]
pub enum InputMode {
    /// Keys go to the host as they are.
    Latin,
    /// Keys are converted to kana.
    Kana,
}

impl Default for InputMode {
    fn default() -> (mode: Self)
        ensures
            mode == InputMode::Latin,
    {
        InputMode::Latin
    }
}

impl InputMode {
    /// The other mode.
    pub open spec fn other(self) -> InputMode {
        match self {
            InputMode::Latin => InputMode::Kana,
            InputMode::Kana => InputMode::Latin,
        }
    }

    /// The text by which the indicator window shows the mode.
    pub open spec fn indicator_text(self) -> Seq<char> {
        match self {
            InputMode::Latin => "A"@,
            InputMode::Kana => "あ"@,
        }
    }

    /// Switches between the two modes.
    pub fn toggled(self) -> (mode: Self)
        ensures
            mode == self.other(),
    {
        match self {
            InputMode::Latin => InputMode::Kana,
            InputMode::Kana => InputMode::Latin,
        }
    }

    /// Returns the text that the indicator window shows for the mode.
    pub fn indicator(self) -> (text: &'static str)
        ensures
            text@ == self.indicator_text(),
    {
        match self {
            InputMode::Latin => "A",
            InputMode::Kana => "あ",
        }
    }
}

/// Toggling twice gives the first mode back, and toggling once never does.
pub proof fn toggling_twice_restores_the_mode(mode: InputMode)
    ensures
        mode.other().other() == mode,
        mode.other() != mode,
{
}

/// The indicator shows a Latin letter where keys go to the host as they are, and a
/// kana where they are converted.
pub proof fn the_indicator_shows_how_keys_are_read(mode: InputMode)
    ensures
        mode is Latin ==> mode.indicator_text() == seq!['A'],
        mode is Kana ==> mode.indicator_text() == seq!['あ'],
{
    reveal_strlit("A");
    reveal_strlit("あ");
    assert("A"@ =~= seq!['A']);
    assert("あ"@ =~= seq!['あ']);
}

} // verus!
