//! Conversion candidates, as the server reports them.

use vstd::prelude::*;
use std::sync::Arc;

verus! {

broadcast use vstd::string::group_string_axioms;

/// One suggestion: what to show, what stays unconverted behind it, and how many
/// composing characters the shown text stands for.
#[derive(Debug)]
pub struct Suggestion {
    pub text: String,
    pub subtext: String,
    pub corresponding_count: i32,
}

/// The server's state of a composition.
#[derive(Debug)]
pub struct ComposingText {
    pub hiragana: String,
    pub suggestions: Vec<Suggestion>,
    pub raw_input: String,
}

/// The reply held no composing text.
#[derive(Clone, Copy, Debug, PartialEq, Eq, Structural)]
pub struct MissingComposingText;

impl MissingComposingText {
    /// The text of this error.
    pub fn message(self) -> (message: &'static str)
        ensures
            message@ == "composing_text is None"@,
    {
        "composing_text is None"
    }
}

/// The candidates that the user can pick from, in the order of their rank.
#[derive(Debug)]
pub struct Candidates {
    pub texts: Vec<String>,
    pub sub_texts: Vec<String>,
    pub hiragana: Arc<String>,
    pub raw_input: Arc<String>,
    pub corresponding_count: Vec<i32>,
}

/// The contents of `Candidates`.
#[verifier::ext_equal]
pub struct CandidatesView {
    pub texts: Seq<Seq<char>>,
    pub sub_texts: Seq<Seq<char>>,
    pub hiragana: Seq<char>,
    pub raw_input: Seq<char>,
    pub corresponding_count: Seq<i32>,
}

/// The texts of a list of strings.
pub open spec fn texts_view(texts: Seq<String>) -> Seq<Seq<char>> {
    texts.map_values(|text: String| text@)
}

/// One more string adds its text to the list.
pub proof fn texts_view_of_push(texts: Seq<String>, text: String)
    ensures
        texts_view(texts.push(text)) == texts_view(texts).push(text@),
{
    assert(texts_view(texts.push(text)) =~= texts_view(texts).push(text@));
}

impl View for Candidates {
    type V = CandidatesView;

    open spec fn view(&self) -> CandidatesView {
        CandidatesView {
            texts: texts_view(self.texts@),
            sub_texts: texts_view(self.sub_texts@),
            hiragana: self.hiragana@,
            raw_input: self.raw_input@,
            corresponding_count: self.corresponding_count@,
        }
    }
}

impl CandidatesView {
    /// No candidates at all.
    pub open spec fn empty() -> CandidatesView {
        CandidatesView {
            texts: Seq::empty(),
            sub_texts: Seq::empty(),
            hiragana: Seq::empty(),
            raw_input: Seq::empty(),
            corresponding_count: Seq::empty(),
        }
    }

    /// Every candidate has its text, its remaining text and its count.
    pub open spec fn is_aligned(self) -> bool {
        &&& self.sub_texts.len() == self.texts.len()
        &&& self.corresponding_count.len() == self.texts.len()
    }
}

/// The number of characters of a text, at most the largest `i32`.
pub open spec fn surface_count(text: Seq<char>) -> i32 {
    if text.len() <= i32::MAX {
        text.len() as i32
    } else {
        i32::MAX
    }
}

/// Counts the characters of a text, up to the largest `i32`.
pub fn count_surface(text: &str) -> (count: i32)
    ensures
        count == surface_count(text@),
{
    let len: usize = text.unicode_len();
    if len <= i32::MAX as usize {
        len as i32
    } else {
        i32::MAX
    }
}

/// The candidates of a composing text: its suggestions in order, or the
/// unconverted text where it has none.
pub open spec fn candidates_of(composing_text: ComposingText) -> CandidatesView {
    let suggestions = composing_text.suggestions@;
    let hiragana = composing_text.hiragana@;
    if suggestions.len() == 0 {
        CandidatesView {
            texts: seq![hiragana],
            sub_texts: seq![Seq::empty()],
            hiragana,
            raw_input: composing_text.raw_input@,
            corresponding_count: seq![surface_count(hiragana)],
        }
    } else {
        CandidatesView {
            texts: suggestions.map_values(|s: Suggestion| s.text@),
            sub_texts: suggestions.map_values(|s: Suggestion| s.subtext@),
            hiragana,
            raw_input: composing_text.raw_input@,
            corresponding_count: suggestions.map_values(|s: Suggestion| s.corresponding_count),
        }
    }
}

impl Default for Candidates {
    fn default() -> (candidates: Candidates)
        ensures
            candidates@ == CandidatesView::empty(),
    {
        let candidates = Candidates {
            texts: Vec::new(),
            sub_texts: Vec::new(),
            hiragana: Arc::new(String::new()),
            raw_input: Arc::new(String::new()),
            corresponding_count: Vec::new(),
        };
        assert(candidates@ =~= CandidatesView::empty());
        candidates
    }
}

impl Candidates {
    /// Takes the candidates out of a server reply. A conversion can yield no
    /// suggestion, for partial roman input or punctuation; the unconverted text
    /// is then the one candidate, so that the selection stays valid.
    pub fn from_composing_text(composing_text: Option<ComposingText>) -> (candidates: Result<
        Candidates,
        MissingComposingText,
    >)
        ensures
            match composing_text {
                Some(composing_text) => {
                    candidates matches Ok(candidates) && candidates@ == candidates_of(composing_text)
                },
                None => candidates == Err::<Candidates, MissingComposingText>(MissingComposingText),
            },
    {
        let composing_text = match composing_text {
            Some(composing_text) => composing_text,
            None => return Err(MissingComposingText),
        };
        let mut texts: Vec<String> = Vec::new();
        let mut sub_texts: Vec<String> = Vec::new();
        let mut corresponding_count: Vec<i32> = Vec::new();
        let ghost suggestions = composing_text.suggestions@;
        for i in 0..composing_text.suggestions.len()
            invariant
                suggestions == composing_text.suggestions@,
                texts_view(texts@) == suggestions.take(i as int).map_values(|s: Suggestion| s.text@),
                texts_view(sub_texts@)
                    == suggestions.take(i as int).map_values(|s: Suggestion| s.subtext@),
                corresponding_count@
                    == suggestions.take(i as int).map_values(|s: Suggestion| s.corresponding_count),
        {
            let suggestion = &composing_text.suggestions[i];
            proof {
                texts_view_of_push(texts@, suggestion.text);
                texts_view_of_push(sub_texts@, suggestion.subtext);
            }
            texts.push(suggestion.text.clone());
            sub_texts.push(suggestion.subtext.clone());
            corresponding_count.push(suggestion.corresponding_count);
            proof {
                let taken = suggestions.take(i + 1);
                assert(taken =~= suggestions.take(i as int).push(suggestions[i as int]));
                assert(texts_view(texts@) =~= taken.map_values(|s: Suggestion| s.text@));
                assert(texts_view(sub_texts@) =~= taken.map_values(|s: Suggestion| s.subtext@));
                assert(corresponding_count@
                    =~= taken.map_values(|s: Suggestion| s.corresponding_count));
            }
        }
        assert(suggestions.take(suggestions.len() as int) =~= suggestions);
        if composing_text.suggestions.len() == 0 {
            corresponding_count.push(count_surface(composing_text.hiragana.as_str()));
            texts.push(composing_text.hiragana.clone());
            sub_texts.push(String::new());
        }
        let candidates = Candidates {
            texts,
            sub_texts,
            hiragana: Arc::new(composing_text.hiragana),
            raw_input: Arc::new(composing_text.raw_input),
            corresponding_count,
        };
        assert(candidates@ =~= candidates_of(composing_text));
        Ok(candidates)
    }
}

/// Every reply gives at least one candidate, and each of them is complete, so
/// that the first one can always be shown.
pub proof fn a_reply_always_has_a_candidate(composing_text: ComposingText)
    ensures
        candidates_of(composing_text).texts.len() >= 1,
        candidates_of(composing_text).is_aligned(),
{
}

/// Every suggestion is a candidate in its place: its text, its rest and its count
/// stand at the same index, and there are no others. The typed keys and the
/// unconverted text are kept as they are.
pub proof fn suggestions_become_candidates(composing_text: ComposingText, i: int)
    requires
        0 <= i < composing_text.suggestions@.len(),
    ensures
        ({
            let candidates = candidates_of(composing_text);
            let suggestion = composing_text.suggestions@[i];
            &&& candidates.texts.len() == composing_text.suggestions@.len()
            &&& candidates.texts[i] == suggestion.text@
            &&& candidates.sub_texts[i] == suggestion.subtext@
            &&& candidates.corresponding_count[i] == suggestion.corresponding_count
            &&& candidates.hiragana == composing_text.hiragana@
            &&& candidates.raw_input == composing_text.raw_input@
        }),
{
}

/// Without suggestions the unconverted text is the one candidate: nothing is left
/// behind it, and it stands for all of its characters.
pub proof fn the_unconverted_text_is_the_last_resort(composing_text: ComposingText)
    requires
        composing_text.suggestions@.len() == 0,
    ensures
        ({
            let candidates = candidates_of(composing_text);
            let hiragana = composing_text.hiragana@;
            &&& candidates.texts == seq![hiragana]
            &&& candidates.sub_texts.len() == 1 && candidates.sub_texts[0].len() == 0
            &&& candidates.corresponding_count.len() == 1
            &&& hiragana.len() <= i32::MAX ==> candidates.corresponding_count[0] == hiragana.len()
            &&& hiragana.len() > i32::MAX ==> candidates.corresponding_count[0] == i32::MAX
            &&& candidates.hiragana == hiragana
            &&& candidates.raw_input == composing_text.raw_input@
        }),
{
}

} // verus!
