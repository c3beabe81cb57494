//! The requests that the conversion server answers.
//!
//! The converter is a library behind a C interface. What it is handed and what
//! it hands back is checked here; a request is answered by a script of calls.

use vstd::prelude::*;

use crate::candidates::Suggestion;
use crate::session::IpcSessionToken;
use crate::text::{characters, decimal, decimal_notation, decimal_signed, joined, same_text};

verus! {

broadcast use vstd::string::group_string_axioms;

/// The status of a call that has succeeded.
pub const FFI_SUCCESS: i32 = 0;

/// Why the converter cannot be used.
#[derive(Debug, PartialEq, Eq)]
pub enum FfiError<T = &'static str> {
    InteriorNul(T),
    CallFailed(T),
    Status { operation: T, status: i32 },
    InvalidCandidateCount(i32),
    NullCandidate(usize),
    NullCandidateField { index: usize, field: T },
}

impl View for FfiError<&'static str> {
    type V = FfiError<Seq<char>>;

    open spec fn view(&self) -> FfiError<Seq<char>> {
        match self {
            FfiError::InteriorNul(field) => FfiError::InteriorNul(field@),
            FfiError::CallFailed(operation) => FfiError::CallFailed(operation@),
            FfiError::Status { operation, status } => FfiError::Status {
                operation: operation@,
                status: *status,
            },
            FfiError::InvalidCandidateCount(count) => FfiError::InvalidCandidateCount(*count),
            FfiError::NullCandidate(index) => FfiError::NullCandidate(*index),
            FfiError::NullCandidateField { index, field } => FfiError::NullCandidateField {
                index: *index,
                field: field@,
            },
        }
    }
}

impl FfiError<Seq<char>> {
    /// The text of this error.
    pub open spec fn text(self) -> Seq<char> {
        match self {
            FfiError::InteriorNul(field) => field + " contains an interior NUL byte"@,
            FfiError::CallFailed(operation) => operation + " returned a null result"@,
            FfiError::Status { operation, status } => operation + " failed with FFI status "@
                + decimal_notation(status as int),
            FfiError::InvalidCandidateCount(count) => {
                "GetComposedText returned invalid candidate count "@ + decimal_notation(
                    count as int,
                )
            },
            FfiError::NullCandidate(index) => {
                "GetComposedText returned a null candidate at index "@ + decimal_notation(
                    index as int,
                )
            },
            FfiError::NullCandidateField { index, field } => "GetComposedText returned a null "@
                + field + " pointer at index "@ + decimal_notation(index as int),
        }
    }
}

impl FfiError<&'static str> {
    /// Writes the text of this error.
    pub fn message(&self) -> (message: String)
        ensures
            message@ == self@.text(),
    {
        match self {
            FfiError::InteriorNul(field) => {
                joined(field, " contains an interior NUL byte")
            },
            FfiError::CallFailed(operation) => {
                joined(operation, " returned a null result")
            },
            FfiError::Status { operation, status } => {
                let mut message = joined(operation, " failed with FFI status ");
                message.append(decimal_signed(*status as i64).as_str());
                message
            },
            FfiError::InvalidCandidateCount(count) => {
                let mut message = "GetComposedText returned invalid candidate count ".to_owned();
                message.append(decimal_signed(*count as i64).as_str());
                message
            },
            FfiError::NullCandidate(index) => {
                let mut message = "GetComposedText returned a null candidate at index ".to_owned();
                message.append(decimal(*index as u64).as_str());
                message
            },
            FfiError::NullCandidateField { index, field } => {
                let mut message = "GetComposedText returned a null ".to_owned();
                message.append(field);
                message.append(" pointer at index ");
                message.append(decimal(*index as u64).as_str());
                message
            },
        }
    }
}

/// The kind of a refusal.
#[derive(Clone, Copy, Debug, PartialEq, Eq, Structural)]
pub enum StatusCode {
    InvalidArgument,
    Internal,
    FailedPrecondition,
}

/// A refusal.
#[derive(Debug, PartialEq, Eq)]
pub struct Refusal<T = String> {
    pub code: StatusCode,
    pub message: T,
}

impl View for Refusal<String> {
    type V = Refusal<Seq<char>>;

    open spec fn view(&self) -> Refusal<Seq<char>> {
        Refusal { code: self.code, message: self.message@ }
    }
}

/// The refusal that an error of the converter leads to: the client is to blame
/// only for a text that cannot be handed over.
pub open spec fn refusal_of(error: FfiError<Seq<char>>) -> Refusal<Seq<char>> {
    Refusal {
        code: if error is InteriorNul {
            StatusCode::InvalidArgument
        } else {
            StatusCode::Internal
        },
        message: error.text(),
    }
}

/// Turns an error of the converter into a refusal.
pub fn ffi_error_status(error: &FfiError) -> (refusal: Refusal)
    ensures
        refusal@ == refusal_of(error@),
{
    let code = match error {
        FfiError::InteriorNul(_) => StatusCode::InvalidArgument,
        _ => StatusCode::Internal,
    };
    Refusal { code, message: error.message() }
}

/// The text of the refusal to a client that does not own the converter.
pub open spec fn non_owner_text(operation: Seq<char>) -> Seq<char> {
    "conversion session does not own the converter for "@ + operation
}

/// Refuses a request of a client that does not own the converter.
pub fn non_owner_status(operation: &'static str) -> (refusal: Refusal)
    ensures
        refusal@ == (Refusal {
            code: StatusCode::FailedPrecondition,
            message: non_owner_text(operation@),
        }),
{
    let mut message = "conversion session does not own the converter for ".to_owned();
    message.append(operation);
    Refusal { code: StatusCode::FailedPrecondition, message }
}

/// Whether a text can be handed to the converter: it holds no zero.
pub open spec fn is_c_text(text: Seq<char>) -> bool {
    !text.contains('\0')
}

/// Checks that a text can be handed to the converter.
pub fn make_c_string(value: &str, field: &'static str) -> (checked: Result<(), FfiError>)
    ensures
        match checked {
            Ok(_) => is_c_text(value@),
            Err(error) => !is_c_text(value@) && error == FfiError::InteriorNul(field),
        },
{
    let chars = characters(value);
    for i in 0..chars.len()
        invariant
            chars@ == value@,
            forall|j: int| 0 <= j < i ==> #[trigger] chars@[j] != '\0',
    {
        if chars[i] == '\0' {
            assert(value@[i as int] == '\0');
            return Err(FfiError::InteriorNul(field));
        }
    }
    Ok(())
}

/// Checks the status of a call.
pub fn check_status(operation: &'static str, status: i32) -> (checked: Result<(), FfiError>)
    ensures
        checked == if status == FFI_SUCCESS {
            Ok::<(), FfiError>(())
        } else {
            Err(FfiError::Status { operation, status })
        },
{
    if status == FFI_SUCCESS {
        Ok(())
    } else {
        Err(FfiError::Status { operation, status })
    }
}

/// Checks that a call has handed back a text.
pub fn copy_owned_string(text: Option<String>, operation: &'static str) -> (checked: Result<
    String,
    FfiError,
>)
    ensures
        checked == match text {
            Some(text) => Ok::<String, FfiError>(text),
            None => Err(FfiError::CallFailed(operation)),
        },
{
    match text {
        Some(text) => Ok(text),
        None => Err(FfiError::CallFailed(operation)),
    }
}

/// Returns the number of characters to be removed: at least one, and no more than
/// the converter can be told.
pub fn normalized_remove_count(count: u32) -> (removed: i32)
    ensures
        removed as int == if count == 0 {
            1
        } else if count > i32::MAX {
            i32::MAX as int
        } else {
            count as int
        },
{
    if count == 0 {
        1
    } else if count > i32::MAX as u32 {
        i32::MAX
    } else {
        count as i32
    }
}

/// A text without carriage returns at its end.
pub open spec fn without_trailing_returns(text: Seq<char>) -> Seq<char>
    decreases text.len(),
{
    if text.len() > 0 && text.last() == '\r' {
        without_trailing_returns(text.drop_last())
    } else {
        text
    }
}

/// What stands behind the last carriage return of a text.
pub open spec fn after_last_return(text: Seq<char>) -> Seq<char>
    decreases text.len(),
{
    if text.len() == 0 || text.last() == '\r' {
        Seq::empty()
    } else {
        after_last_return(text.drop_last()).push(text.last())
    }
}

/// The last line of a context that is not empty, or nothing.
pub open spec fn last_line(context: Seq<char>) -> Seq<char> {
    after_last_return(without_trailing_returns(context))
}

proof fn after_last_return_is_a_suffix(text: Seq<char>, start: int)
    requires
        0 <= start <= text.len(),
        start == 0 || text[start - 1] == '\r',
        forall|i: int| start <= i < text.len() ==> text[i] != '\r',
    ensures
        after_last_return(text) == text.skip(start),
    decreases text.len(),
{
    if text.len() == start {
        assert(text.skip(start) =~= Seq::empty());
    } else {
        let shorter = text.drop_last();
        after_last_return_is_a_suffix(shorter, start);
        assert(shorter.skip(start).push(text.last()) =~= text.skip(start));
    }
}

/// Takes the last line of a context that is not empty, and checks that it can be
/// handed to the converter before it is accepted.
pub fn normalize_context(context: &str) -> (line: Result<String, FfiError>)
    ensures
        match line {
            Ok(line) => line@ == last_line(context@) && is_c_text(line@),
            Err(error) => !is_c_text(last_line(context@)) && error@ == FfiError::InteriorNul(
                "context"@,
            ),
        },
{
    let chars = characters(context);
    let mut end: usize = chars.len();
    assert(chars@.take(end as int) =~= context@);
    while end > 0 && chars[end - 1] == '\r'
        invariant
            chars@ == context@,
            end <= chars.len(),
            without_trailing_returns(context@) == without_trailing_returns(
                chars@.take(end as int),
            ),
        decreases end,
    {
        assert(chars@.take(end as int).drop_last() =~= chars@.take(end - 1));
        end = end - 1;
    }
    let ghost trimmed = chars@.take(end as int);
    assert(without_trailing_returns(context@) == trimmed);
    let mut start: usize = end;
    while start > 0 && chars[start - 1] != '\r'
        invariant
            chars@ == context@,
            start <= end <= chars.len(),
            trimmed == chars@.take(end as int),
            forall|i: int| start <= i < end ==> trimmed[i] != '\r',
        decreases start,
    {
        start = start - 1;
    }
    proof {
        after_last_return_is_a_suffix(trimmed, start as int);
    }
    let mut line = String::new();
    for i in start..end
        invariant
            chars@ == context@,
            start <= end <= chars.len(),
            line@ == chars@.subrange(start as int, i as int),
    {
        line.push(chars[i]);
        assert(line@ =~= chars@.subrange(start as int, i + 1));
    }
    assert(line@ =~= trimmed.skip(start as int));
    match make_c_string(line.as_str(), "context") {
        Ok(_) => Ok(line),
        Err(error) => Err(error),
    }
}

/// Whether a list of candidates is too long to be held in memory.
pub open spec fn is_unaddressable(length: i32) -> bool {
    length * (usize::BITS / 8) > isize::MAX
}

/// Checks the length of a list of candidates. An empty list may be missing.
pub fn candidate_list_count(is_null: bool, length: i32) -> (count: Result<usize, FfiError>)
    ensures
        match count {
            Ok(count) => count == length && (length == 0 || !is_null) && !is_unaddressable(length),
            Err(error) => if length < 0 {
                error@ == FfiError::<Seq<char>>::InvalidCandidateCount(length)
            } else {
                &&& length > 0
                &&& error@ == if is_null {
                    FfiError::CallFailed("GetComposedText"@)
                } else {
                    FfiError::InvalidCandidateCount(length)
                }
                &&& is_null || is_unaddressable(length)
            },
        },
{
    if length < 0 {
        return Err(FfiError::InvalidCandidateCount(length));
    }
    if length == 0 {
        return Ok(0);
    }
    if is_null {
        return Err(FfiError::CallFailed("GetComposedText"));
    }
    let pointer_size: u128 = (usize::BITS / 8) as u128;
    proof {
        assert(length * pointer_size <= 0x7fff_ffff * 8) by (nonlinear_arith)
            requires
                0 <= length <= 0x7fff_ffff,
                pointer_size <= 8,
        ;
        assert(0 <= length * pointer_size) by (nonlinear_arith)
            requires
                0 <= length,
                0 <= pointer_size,
        ;
    }
    if length as u128 * pointer_size > isize::MAX as u128 {
        return Err(FfiError::InvalidCandidateCount(length));
    }
    Ok(length as usize)
}

/// A candidate as the converter hands it back, where parts may be missing.
#[derive(Debug)]
pub struct RawCandidate {
    pub text: Option<String>,
    pub subtext: Option<String>,
    pub corresponding_count: i32,
}

/// A suggestion.
#[verifier::ext_equal]
pub struct SuggestionView {
    pub text: Seq<char>,
    pub subtext: Seq<char>,
    pub corresponding_count: i32,
}

/// The contents of a suggestion.
pub open spec fn suggestion_view(suggestion: Suggestion) -> SuggestionView {
    SuggestionView {
        text: suggestion.text@,
        subtext: suggestion.subtext@,
        corresponding_count: suggestion.corresponding_count,
    }
}

/// The contents of suggestions.
pub open spec fn suggestions_view(suggestions: Seq<Suggestion>) -> Seq<SuggestionView> {
    suggestions.map_values(|suggestion: Suggestion| suggestion_view(suggestion))
}

/// Whether a text is among those of suggestions.
pub open spec fn is_known(suggestions: Seq<SuggestionView>, text: Seq<char>) -> bool {
    exists|i: int| 0 <= i < suggestions.len() && #[trigger] suggestions[i].text == text
}

/// The suggestions that a list of candidates gives: each text once, in the order
/// in which it comes first. The first missing part is an error.
pub open spec fn suggestions_of(candidates: Seq<Option<RawCandidate>>) -> Result<
    Seq<SuggestionView>,
    FfiError<Seq<char>>,
>
    decreases candidates.len(),
{
    if candidates.len() == 0 {
        Ok(Seq::empty())
    } else {
        let index = (candidates.len() - 1) as usize;
        match suggestions_of(candidates.drop_last()) {
            Err(error) => Err(error),
            Ok(suggestions) => match candidates.last() {
                None => Err(FfiError::NullCandidate(index)),
                Some(candidate) => match candidate.text {
                    None => Err(FfiError::NullCandidateField { index, field: "text"@ }),
                    Some(text) => if is_known(suggestions, text@) {
                        Ok(suggestions)
                    } else {
                        match candidate.subtext {
                            None => Err(FfiError::NullCandidateField { index, field: "subtext"@ }),
                            Some(subtext) => Ok(
                                suggestions.push(
                                    SuggestionView {
                                        text: text@,
                                        subtext: subtext@,
                                        corresponding_count: candidate.corresponding_count,
                                    },
                                ),
                            ),
                        }
                    },
                },
            },
        }
    }
}

proof fn an_error_stays(candidates: Seq<Option<RawCandidate>>, count: int)
    requires
        0 <= count <= candidates.len(),
        suggestions_of(candidates.take(count)) is Err,
    ensures
        suggestions_of(candidates) == suggestions_of(candidates.take(count)),
    decreases candidates.len() - count,
{
    if count == candidates.len() {
        assert(candidates.take(count) =~= candidates);
    } else {
        assert(candidates.take(count + 1).drop_last() =~= candidates.take(count));
        an_error_stays(candidates, count + 1);
    }
}

fn knows(suggestions: &Vec<Suggestion>, text: &String) -> (known: bool)
    ensures
        known == is_known(suggestions_view(suggestions@), text@),
{
    for i in 0..suggestions.len()
        invariant
            forall|j: int|
                0 <= j < i ==> #[trigger] suggestions_view(suggestions@)[j].text != text@,
    {
        if same_text(suggestions[i].text.as_str(), text.as_str()) {
            assert(suggestions_view(suggestions@)[i as int].text == text@);
            return true;
        }
    }
    false
}

/// Takes the suggestions out of a list of candidates.
pub fn get_composed_text(candidates: &Vec<Option<RawCandidate>>) -> (suggestions: Result<
    Vec<Suggestion>,
    FfiError,
>)
    ensures
        match suggestions {
            Ok(suggestions) => suggestions_of(candidates@) == Ok::<
                Seq<SuggestionView>,
                FfiError<Seq<char>>,
            >(suggestions_view(suggestions@)),
            Err(error) => suggestions_of(candidates@) == Err::<
                Seq<SuggestionView>,
                FfiError<Seq<char>>,
            >(error@),
        },
{
    let mut suggestions: Vec<Suggestion> = Vec::new();
    assert(candidates@.take(0) =~= Seq::empty());
    assert(suggestions_view(suggestions@) =~= Seq::empty());
    for index in 0..candidates.len()
        invariant
            suggestions_of(candidates@.take(index as int)) == Ok::<
                Seq<SuggestionView>,
                FfiError<Seq<char>>,
            >(suggestions_view(suggestions@)),
    {
        let ghost taken = candidates@.take(index + 1);
        proof {
            assert(taken.drop_last() =~= candidates@.take(index as int));
            assert(taken.last() == candidates@[index as int]);
            if suggestions_of(taken) is Err {
                an_error_stays(candidates@, index + 1);
            }
        }
        let candidate = match &candidates[index] {
            Some(candidate) => candidate,
            None => return Err(FfiError::NullCandidate(index)),
        };
        let text = match &candidate.text {
            Some(text) => text,
            None => return Err(FfiError::NullCandidateField { index, field: "text" }),
        };
        if !knows(&suggestions, text) {
            let subtext = match &candidate.subtext {
                Some(subtext) => subtext,
                None => return Err(FfiError::NullCandidateField { index, field: "subtext" }),
            };
            let suggestion = Suggestion {
                text: text.clone(),
                subtext: subtext.clone(),
                corresponding_count: candidate.corresponding_count,
            };
            let ghost before = suggestions@;
            suggestions.push(suggestion);
            assert(suggestions_view(suggestions@) =~= suggestions_view(before).push(
                suggestion_view(suggestion),
            ));
        }
    }
    assert(candidates@.take(candidates@.len() as int) =~= candidates@);
    Ok(suggestions)
}

/// No text is suggested twice.
pub proof fn suggestions_are_distinct(candidates: Seq<Option<RawCandidate>>)
    ensures
        suggestions_of(candidates) matches Ok(suggestions) ==> forall|i: int, j: int|
            0 <= i < j < suggestions.len() ==> #[trigger] suggestions[i].text
                != #[trigger] suggestions[j].text,
    decreases candidates.len(),
{
    if candidates.len() > 0 {
        suggestions_are_distinct(candidates.drop_last());
    }
}

/// A candidate with its text and the rest behind it.
pub open spec fn is_complete(candidate: Option<RawCandidate>) -> bool {
    candidate matches Some(candidate) && candidate.text is Some && candidate.subtext is Some
}

/// The text of a candidate that has one.
pub open spec fn raw_text(candidate: Option<RawCandidate>) -> Seq<char> {
    candidate->0.text->0@
}

/// The suggestion says what the candidate says.
pub open spec fn is_of_candidate(
    suggestion: SuggestionView,
    candidate: Option<RawCandidate>,
) -> bool {
    &&& is_complete(candidate)
    &&& suggestion.text == candidate->0.text->0@
    &&& suggestion.subtext == candidate->0.subtext->0@
    &&& suggestion.corresponding_count == candidate->0.corresponding_count
}

/// Nothing is lost: the text of every candidate is among the suggestions.
pub proof fn every_candidate_is_suggested(
    candidates: Seq<Option<RawCandidate>>,
    suggestions: Seq<SuggestionView>,
    i: int,
) -> (j: int)
    requires
        suggestions_of(candidates) == Ok::<Seq<SuggestionView>, FfiError<Seq<char>>>(suggestions),
        0 <= i < candidates.len(),
    ensures
        candidates[i] is Some && candidates[i]->0.text is Some,
        0 <= j < suggestions.len(),
        suggestions[j].text == raw_text(candidates[i]),
    decreases candidates.len(),
{
    let before = candidates.drop_last();
    let earlier = suggestions_of(before)->Ok_0;
    if i < before.len() {
        assert(before[i] == candidates[i]);
        every_candidate_is_suggested(before, earlier, i)
    } else if is_known(earlier, raw_text(candidates[i])) {
        choose|j: int|
            0 <= j < earlier.len() && #[trigger] earlier[j].text == raw_text(candidates[i])
    } else {
        suggestions.len() - 1
    }
}

/// Each suggestion says what the first candidate of its text says: its text, its
/// rest and its count.
pub proof fn a_suggestion_is_its_first_candidate(
    candidates: Seq<Option<RawCandidate>>,
    suggestions: Seq<SuggestionView>,
    j: int,
) -> (i: int)
    requires
        suggestions_of(candidates) == Ok::<Seq<SuggestionView>, FfiError<Seq<char>>>(suggestions),
        0 <= j < suggestions.len(),
    ensures
        0 <= i < candidates.len(),
        is_of_candidate(suggestions[j], candidates[i]),
        forall|k: int| 0 <= k < i ==> raw_text(#[trigger] candidates[k]) != suggestions[j].text,
    decreases candidates.len(),
{
    let before = candidates.drop_last();
    let earlier = suggestions_of(before)->Ok_0;
    let last = candidates.len() - 1;
    if j < earlier.len() {
        assert(suggestions[j] == earlier[j]);
        let i = a_suggestion_is_its_first_candidate(before, earlier, j);
        assert(candidates[i] == before[i]);
        assert forall|k: int| 0 <= k < i implies raw_text(#[trigger] candidates[k])
            != suggestions[j].text by {
            assert(candidates[k] == before[k]);
        }
        i
    } else {
        assert forall|k: int| 0 <= k < last implies raw_text(#[trigger] candidates[k])
            != suggestions[j].text by {
            assert(candidates[k] == before[k]);
            let known = every_candidate_is_suggested(before, earlier, k);
            assert(earlier[known].text == raw_text(candidates[k]));
        }
        last
    }
}

/// Candidates that are complete and of different texts are all suggested, as they
/// are and in their order.
pub proof fn different_candidates_keep_their_order(candidates: Seq<Option<RawCandidate>>)
    requires
        forall|i: int| 0 <= i < candidates.len() ==> is_complete(#[trigger] candidates[i]),
        forall|i: int, k: int|
            0 <= i < k < candidates.len() ==> raw_text(#[trigger] candidates[i]) != raw_text(
                #[trigger] candidates[k],
            ),
    ensures
        suggestions_of(candidates) is Ok,
        suggestions_of(candidates)->Ok_0.len() == candidates.len(),
        forall|i: int|
            0 <= i < candidates.len() ==> is_of_candidate(
                #[trigger] suggestions_of(candidates)->Ok_0[i],
                candidates[i],
            ),
    decreases candidates.len(),
{
    if candidates.len() > 0 {
        let before = candidates.drop_last();
        assert(forall|i: int| 0 <= i < before.len() ==> before[i] == candidates[i]);
        different_candidates_keep_their_order(before);
        let earlier = suggestions_of(before)->Ok_0;
        let suggestions = suggestions_of(candidates)->Ok_0;
        let last = candidates.len() - 1;
        assert(!is_known(earlier, raw_text(candidates[last]))) by {
            if is_known(earlier, raw_text(candidates[last])) {
                let j = choose|j: int|
                    0 <= j < earlier.len() && #[trigger] earlier[j].text == raw_text(
                        candidates[last],
                    );
                assert(is_of_candidate(earlier[j], before[j]));
                assert(raw_text(candidates[j]) != raw_text(candidates[last]));
            }
        }
        assert forall|i: int| 0 <= i < candidates.len() implies is_of_candidate(
            #[trigger] suggestions[i],
            candidates[i],
        ) by {
            if i < last {
                assert(suggestions[i] == earlier[i]);
                assert(is_of_candidate(earlier[i], before[i]));
            }
        }
    }
}

/// The suggestions stand in the order in which their texts come first: of two of
/// them, the text of the earlier one comes before any of the later one.
pub proof fn suggestions_follow_the_candidates(
    candidates: Seq<Option<RawCandidate>>,
    suggestions: Seq<SuggestionView>,
    j: int,
    l: int,
) -> (i: int)
    requires
        suggestions_of(candidates) == Ok::<Seq<SuggestionView>, FfiError<Seq<char>>>(suggestions),
        0 <= j < l < suggestions.len(),
    ensures
        0 <= i < candidates.len(),
        raw_text(candidates[i]) == suggestions[j].text,
        forall|k: int| 0 <= k <= i ==> raw_text(#[trigger] candidates[k]) != suggestions[l].text,
    decreases candidates.len(),
{
    let before = candidates.drop_last();
    let earlier = suggestions_of(before)->Ok_0;
    assert(suggestions[j] == earlier[j]);
    if l < earlier.len() {
        assert(suggestions[l] == earlier[l]);
        let i = suggestions_follow_the_candidates(before, earlier, j, l);
        assert forall|k: int| 0 <= k <= i implies raw_text(#[trigger] candidates[k])
            != suggestions[l].text by {
            assert(candidates[k] == before[k]);
        }
        i
    } else {
        let i = a_suggestion_is_its_first_candidate(before, earlier, j);
        assert forall|k: int| 0 <= k <= i implies raw_text(#[trigger] candidates[k])
            != suggestions[l].text by {
            assert(candidates[k] == before[k]);
            let known = every_candidate_is_suggested(before, earlier, k);
            assert(earlier[known].text == raw_text(candidates[k]));
        }
        i
    }
}

/// Complete candidates always give suggestions. Where there are none, the error
/// names a candidate that is missing, or one without its text, or one without its
/// rest whose text is new.
pub proof fn only_a_missing_part_is_an_error(candidates: Seq<Option<RawCandidate>>)
    requires
        candidates.len() <= usize::MAX,
    ensures
        (forall|i: int| 0 <= i < candidates.len() ==> is_complete(#[trigger] candidates[i]))
            ==> suggestions_of(candidates) is Ok,
        match suggestions_of(candidates) {
            Ok(_) => true,
            Err(FfiError::NullCandidate(index)) => index < candidates.len()
                && candidates[index as int] is None,
            Err(FfiError::NullCandidateField { index, field }) => {
                &&& index < candidates.len()
                &&& candidates[index as int] matches Some(candidate) && (if candidate.text is None {
                    field == "text"@
                } else {
                    field == "subtext"@ && candidate.subtext is None
                })
                &&& candidates[index as int]->0.text is Some ==> forall|k: int|
                    0 <= k < index ==> raw_text(#[trigger] candidates[k]) != raw_text(
                        candidates[index as int],
                    )
            },
            Err(_) => false,
        },
    decreases candidates.len(),
{
    if candidates.len() > 0 {
        let before = candidates.drop_last();
        assert(forall|i: int| 0 <= i < before.len() ==> #[trigger] before[i] == candidates[i]);
        only_a_missing_part_is_an_error(before);
        if suggestions_of(before) is Err {
            assert(suggestions_of(candidates) == suggestions_of(before));
            if let Err(FfiError::NullCandidateField { index, field }) = suggestions_of(before) {
                assert(candidates[index as int] == before[index as int]);
                if candidates[index as int]->0.text is Some {
                    assert forall|k: int| 0 <= k < index implies raw_text(#[trigger] candidates[k])
                        != raw_text(candidates[index as int]) by {
                        assert(candidates[k] == before[k]);
                    }
                }
            }
        } else if suggestions_of(candidates) is Err {
            let earlier = suggestions_of(before)->Ok_0;
            let last = candidates.len() - 1;
            assert(candidates[last] == candidates.last());
            if candidates[last] is Some && candidates[last]->0.text is Some {
                assert forall|k: int| 0 <= k < last implies raw_text(#[trigger] candidates[k])
                    != raw_text(candidates[last]) by {
                    assert(before[k] == candidates[k]);
                    let known = every_candidate_is_suggested(before, earlier, k);
                    assert(earlier[known].text == raw_text(candidates[k]));
                }
            }
        }
    }
}

/// The prefix of the names of pipes for smoke tests.
pub open spec fn smoke_test_prefix() -> Seq<char> {
    "azookey_server_smoke_"@
}

/// Whether a character is a hexadecimal digit.
pub open spec fn is_hex_digit(c: char) -> bool {
    '0' <= c <= '9' || 'a' <= c <= 'f' || 'A' <= c <= 'F'
}

/// Whether a name is that of a pipe for smoke tests: the prefix and thirty-two
/// hexadecimal digits.
pub open spec fn is_smoke_test_name(name: Seq<char>) -> bool {
    &&& name.len() == 53
    &&& name.take(21) == smoke_test_prefix()
    &&& forall|i: int| 21 <= i < 53 ==> is_hex_digit(#[trigger] name[i])
}

/// Tells whether a name is that of a pipe for smoke tests.
pub fn is_valid_smoke_test_pipe_name(name: &str) -> (valid: bool)
    ensures
        valid == is_smoke_test_name(name@),
{
    let chars = characters(name);
    let prefix = characters("azookey_server_smoke_");
    proof {
        reveal_strlit("azookey_server_smoke_");
    }
    if chars.len() != 53 {
        return false;
    }
    for i in 0..21
        invariant
            chars@ == name@,
            chars.len() == 53,
            prefix@ == smoke_test_prefix(),
            prefix.len() == 21,
            forall|j: int| 0 <= j < i ==> chars@[j] == prefix@[j],
    {
        if chars[i] != prefix[i] {
            assert(name@.take(21)[i as int] != smoke_test_prefix()[i as int]);
            return false;
        }
    }
    assert(name@.take(21) =~= smoke_test_prefix());
    for i in 21..53
        invariant
            chars@ == name@,
            chars.len() == 53,
            name@.take(21) == smoke_test_prefix(),
            forall|j: int| 21 <= j < i ==> is_hex_digit(#[trigger] name@[j]),
    {
        let c = chars[i];
        if !(('0' <= c && c <= '9') || ('a' <= c && c <= 'f') || ('A' <= c && c <= 'F')) {
            assert(!is_hex_digit(name@[i as int]));
            return false;
        }
    }
    true
}

/// A setting of the environment.
#[derive(Debug)]
pub enum Setting {
    NotPresent,
    NotUnicode,
    Value(String),
}

/// Finds the name of the server's pipe: the usual one, or one for smoke tests
/// that the environment asks for. The error is its text.
pub fn server_pipe_name(setting: Setting) -> (name: Result<String, &'static str>)
    ensures
        match setting {
            Setting::NotPresent => name matches Ok(name) && name@ == "azookey_server"@,
            Setting::NotUnicode => name matches Err(message) && message@
                == "AZOOKEY_SERVER_SMOKE_TEST_PIPE_NAME is not valid Unicode"@,
            Setting::Value(value) => if is_smoke_test_name(value@) {
                name matches Ok(name) && name@ == value@
            } else {
                name matches Err(message) && message@
                    == "AZOOKEY_SERVER_SMOKE_TEST_PIPE_NAME must be 'azookey_server_smoke_' followed by 32 hexadecimal characters"@
            },
        },
{
    match setting {
        Setting::NotPresent => Ok("azookey_server".to_owned()),
        Setting::NotUnicode => Err("AZOOKEY_SERVER_SMOKE_TEST_PIPE_NAME is not valid Unicode"),
        Setting::Value(value) => if is_valid_smoke_test_pipe_name(value.as_str()) {
            Ok(value)
        } else {
            Err(
                "AZOOKEY_SERVER_SMOKE_TEST_PIPE_NAME must be 'azookey_server_smoke_' followed by 32 hexadecimal characters",
            )
        },
    }
}

/// Whether a byte may stand in the name of a session: printable ASCII, or a tab.
pub open spec fn is_visible_ascii(byte: u8) -> bool {
    32 <= byte < 127 || byte == 9
}

/// The client that a request comes from: the name in its metadata, which is
/// `None` where there is no such entry.
pub open spec fn token_of(metadata: Option<Seq<u8>>, key: Seq<char>) -> Result<
    IpcSessionToken<Seq<char>>,
    Refusal<Seq<char>>,
> {
    let name = "gRPC metadata '"@ + key;
    match metadata {
        None => Ok(IpcSessionToken::Legacy),
        Some(bytes) => if exists|i: int|
            0 <= i < bytes.len() && !is_visible_ascii(#[trigger] bytes[i]) {
            Err(
                Refusal {
                    code: StatusCode::InvalidArgument,
                    message: name + "' must be ASCII"@,
                },
            )
        } else if bytes.len() == 0 {
            Err(
                Refusal {
                    code: StatusCode::InvalidArgument,
                    message: name + "' must not be empty"@,
                },
            )
        } else {
            Ok(IpcSessionToken::Explicit(bytes.map_values(|byte: u8| byte as char)))
        },
    }
}

fn metadata_refusal(key: &str, complaint: &str) -> (refusal: Refusal)
    ensures
        refusal@ == (Refusal {
            code: StatusCode::InvalidArgument,
            message: "gRPC metadata '"@ + key@ + complaint@,
        }),
{
    let mut message = "gRPC metadata '".to_owned();
    message.append(key);
    message.append(complaint);
    Refusal { code: StatusCode::InvalidArgument, message }
}

/// Finds out which client a request comes from.
pub fn ipc_session_token(metadata: Option<&[u8]>, key: &str) -> (token: Result<
    IpcSessionToken,
    Refusal,
>)
    ensures
        match token {
            Ok(token) => token_of(
                match metadata {
                    Some(bytes) => Some(bytes@),
                    None => None,
                },
                key@,
            ) == Ok::<IpcSessionToken<Seq<char>>, Refusal<Seq<char>>>(token@),
            Err(refusal) => token_of(
                match metadata {
                    Some(bytes) => Some(bytes@),
                    None => None,
                },
                key@,
            ) == Err::<IpcSessionToken<Seq<char>>, Refusal<Seq<char>>>(refusal@),
        },
{
    let bytes = match metadata {
        None => return Ok(IpcSessionToken::Legacy),
        Some(bytes) => bytes,
    };
    let mut name = String::new();
    for i in 0..bytes.len()
        invariant
            metadata == Some(bytes),
            forall|j: int| 0 <= j < i ==> is_visible_ascii(#[trigger] bytes@[j]),
            name@ == bytes@.take(i as int).map_values(|byte: u8| byte as char),
    {
        let byte: u8 = bytes[i];
        if !((32 <= byte && byte < 127) || byte == 9) {
            assert(!is_visible_ascii(bytes@[i as int]));
            return Err(metadata_refusal(key, "' must be ASCII"));
        }
        name.push(byte as char);
        assert(name@ =~= bytes@.take(i + 1).map_values(|byte: u8| byte as char));
    }
    if bytes.len() == 0 {
        return Err(metadata_refusal(key, "' must not be empty"));
    }
    assert(bytes@.take(bytes@.len() as int) =~= bytes@);
    Ok(IpcSessionToken::Explicit(name))
}

/// The last line of a context that is not empty is handed on, without the carriage
/// returns around it; a context of nothing but carriage returns gives nothing.
pub proof fn the_last_line_is_handed_on(
    before: Seq<char>,
    line: Seq<char>,
    ending: Seq<char>,
)
    requires
        before.len() == 0 || before.last() == '\r',
        line.len() > 0,
        forall|i: int| 0 <= i < line.len() ==> #[trigger] line[i] != '\r',
        forall|i: int| 0 <= i < ending.len() ==> #[trigger] ending[i] == '\r',
    ensures
        last_line(before + line + ending) == line,
        last_line(ending).len() == 0,
    decreases ending.len(),
{
    if ending.len() == 0 {
        let text = before + line;
        assert(before + line + ending =~= text);
        assert(text.last() == line.last());
        assert(line.last() == line[line.len() - 1]);
        assert(without_trailing_returns(text) == text);
        assert forall|i: int| before.len() <= i < text.len() implies text[i] != '\r' by {
            assert(text[i] == line[i - before.len()]);
        }
        after_last_return_is_a_suffix(text, before.len() as int);
        assert(text.skip(before.len() as int) =~= line);
    } else {
        let shorter = ending.drop_last();
        assert(forall|i: int| 0 <= i < shorter.len() ==> #[trigger] shorter[i] == ending[i]);
        the_last_line_is_handed_on(before, line, shorter);
        assert(ending.last() == ending[ending.len() - 1]);
        assert((before + line + ending).drop_last() =~= before + line + shorter);
        assert((before + line + ending).last() == ending.last());
    }
}

/// A text can be handed to the converter exactly where none of its characters is a
/// zero.
pub proof fn only_a_zero_keeps_a_text_back(text: Seq<char>)
    ensures
        is_c_text(text) <==> forall|i: int| 0 <= i < text.len() ==> #[trigger] text[i] != '\0',
{
}

/// Only a text that cannot be handed over is the fault of the client; every other
/// error is the server's own.
pub proof fn the_client_is_blamed_for_its_text_only(error: FfiError<Seq<char>>)
    ensures
        refusal_of(error).code == StatusCode::InvalidArgument <==> error is InteriorNul,
        refusal_of(error).code == StatusCode::Internal <==> !(error is InteriorNul),
{
}

/// A request without a name of its session comes from the one client without a
/// name. A name of printable ASCII is taken as it is, so that different names are
/// different clients; any other name, and an empty one, is refused as the fault of
/// the client.
pub proof fn a_client_is_known_by_its_name(
    name: Seq<u8>,
    other: Seq<u8>,
    key: Seq<char>,
)
    requires
        name.len() > 0,
        forall|i: int| 0 <= i < name.len() ==> 32 <= #[trigger] name[i] < 127 || name[i] == 9,
    ensures
        token_of(None, key) == Ok::<IpcSessionToken<Seq<char>>, Refusal<Seq<char>>>(
            IpcSessionToken::Legacy,
        ),
        token_of(Some(name), key) matches Ok(IpcSessionToken::Explicit(token)) && token.len()
            == name.len() && forall|i: int|
            0 <= i < name.len() ==> #[trigger] token[i] as u32 == name[i] as u32,
        token_of(Some(other), key) == token_of(Some(name), key) <==> other == name,
        token_of(Some(other), key) is Ok <==> other.len() > 0 && forall|i: int|
            0 <= i < other.len() ==> 32 <= #[trigger] other[i] < 127 || other[i] == 9,
        token_of(Some(other), key) matches Err(refusal) ==> refusal.code
            == StatusCode::InvalidArgument,
{
    assert(forall|i: int| 0 <= i < name.len() ==> is_visible_ascii(#[trigger] name[i]));
    if token_of(Some(other), key) is Ok {
        let left = token_of(Some(name), key)->Ok_0->Explicit_0;
        let right = token_of(Some(other), key)->Ok_0->Explicit_0;
        if left == right {
            assert(left.len() == name.len() && right.len() == other.len());
            assert forall|i: int| 0 <= i < name.len() implies #[trigger] name[i] == other[i] by {
                assert(left[i] as u32 == name[i] as u32);
                assert(right[i] as u32 == other[i] as u32);
            }
            assert(name =~= other);
        }
        assert forall|i: int| 0 <= i < other.len() implies 32 <= #[trigger] other[i] < 127
            || other[i] == 9 by {
            assert(is_visible_ascii(other[i]));
        }
    } else if other.len() > 0 && forall|i: int|
        0 <= i < other.len() ==> 32 <= #[trigger] other[i] < 127 || other[i] == 9 {
        assert(forall|i: int| 0 <= i < other.len() ==> is_visible_ascii(#[trigger] other[i]));
    }
}

/// A pipe for smoke tests is named by the prefix and thirty-two hexadecimal digits,
/// and by nothing else.
pub proof fn a_smoke_test_pipe_has_a_long_number(prefix: Seq<char>, number: Seq<char>)
    requires
        prefix == "azookey_server_smoke_"@,
    ensures
        is_smoke_test_name(prefix + number) <==> number.len() == 32 && forall|i: int|
            0 <= i < number.len() ==> ('0' <= #[trigger] number[i] <= '9' || 'a' <= number[i] <= 'f'
                || 'A' <= number[i] <= 'F'),
        !is_smoke_test_name("azookey_server"@),
{
    reveal_strlit("azookey_server_smoke_");
    reveal_strlit("azookey_server");
    let name = prefix + number;
    assert(name.take(21) =~= prefix);
    assert forall|i: int| 0 <= i < number.len() implies #[trigger] number[i] == name[i + 21] by {}
    if is_smoke_test_name(name) {
        assert forall|i: int| 0 <= i < number.len() implies is_hex_digit(#[trigger] number[i]) by {
            assert(is_hex_digit(name[i + 21]));
        }
    }
    if number.len() == 32 && forall|i: int|
        0 <= i < number.len() ==> ('0' <= #[trigger] number[i] <= '9' || 'a' <= number[i] <= 'f'
            || 'A' <= number[i] <= 'F') {
        assert forall|i: int| 21 <= i < 53 implies is_hex_digit(#[trigger] name[i]) by {
            assert(number[i - 21] == name[i]);
        }
    }
}

} // verus!
