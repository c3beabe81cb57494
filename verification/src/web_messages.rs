//! What passes between the candidate window and the page inside it.

use vstd::prelude::*;

use crate::candidates::texts_view;
use crate::text::{
    a_number_reads_back, decimal_notation, decimal_signed, decimal_value, same_text,
};

verus! {

broadcast use vstd::string::group_string_axioms;

/// A hexadecimal digit in lower case.
pub open spec fn low_hex_digit(value: int) -> char {
    if value < 10 {
        ('0' as u32 + value) as char
    } else {
        ('a' as u32 + value - 10) as char
    }
}

/// A character as it stands in a JSON string.
pub open spec fn json_char(c: char) -> Seq<char> {
    if c == '"' || c == '\\' {
        seq!['\\', c]
    } else if c == '\u{8}' {
        seq!['\\', 'b']
    } else if c == '\t' {
        seq!['\\', 't']
    } else if c == '\n' {
        seq!['\\', 'n']
    } else if c == '\u{c}' {
        seq!['\\', 'f']
    } else if c == '\r' {
        seq!['\\', 'r']
    } else if (c as u32) < 0x20 {
        seq![
            '\\',
            'u',
            '0',
            '0',
            low_hex_digit(c as int / 16),
            low_hex_digit(c as int % 16),
        ]
    } else {
        seq![c]
    }
}

/// Characters as they stand in a JSON string.
pub open spec fn json_chars(text: Seq<char>) -> Seq<char>
    decreases text.len(),
{
    if text.len() == 0 {
        Seq::empty()
    } else {
        json_chars(text.drop_last()) + json_char(text.last())
    }
}

/// A text as a JSON string.
pub open spec fn json_string(text: Seq<char>) -> Seq<char> {
    seq!['"'] + json_chars(text) + seq!['"']
}

/// Texts as JSON strings, with commas between them.
pub open spec fn json_items(texts: Seq<Seq<char>>) -> Seq<char>
    decreases texts.len(),
{
    if texts.len() == 0 {
        Seq::empty()
    } else if texts.len() == 1 {
        json_string(texts[0])
    } else {
        json_items(texts.drop_last()) + seq![','] + json_string(texts.last())
    }
}

/// Texts as a JSON array.
pub open spec fn json_array(texts: Seq<Seq<char>>) -> Seq<char> {
    seq!['['] + json_items(texts) + seq![']']
}

/// `serde_json::to_string` of a list of strings: a JSON array of JSON strings,
/// without spaces. It always succeeds.
#[verifier::external_body]
fn texts_to_json(texts: &Vec<String>) -> (json: Option<String>)
    ensures
        json matches Some(json) && json@ == json_array(texts_view(texts@)),
{
    serde_json::to_string(texts).ok()
}

/// `serde_json::to_string` of a string: a JSON string, in which only quotes,
/// backslashes and control characters below a space are escaped. It always
/// succeeds.
#[verifier::external_body]
fn text_to_json(text: &str) -> (json: Option<String>)
    ensures
        json matches Some(json) && json@ == json_string(text@),
{
    serde_json::to_string(text).ok()
}

/// The script that shows candidates.
pub open spec fn candidates_script_of(texts: Seq<Seq<char>>) -> Seq<char> {
    "updateCandidates("@ + json_array(texts) + ")"@
}

/// The script that shows candidates, one of them selected.
pub open spec fn candidate_state_script_of(texts: Seq<Seq<char>>, selection: i32) -> Seq<char> {
    "updateCandidateState("@ + json_array(texts) + ", "@ + decimal_notation(selection as int)
        + ")"@
}

/// The script that selects a candidate.
pub open spec fn selection_script_of(index: i32) -> Seq<char> {
    "updateSelection("@ + decimal_notation(index as int) + ")"@
}

/// The script that shows the input mode.
pub open spec fn input_mode_script_of(mode: Seq<char>) -> Seq<char> {
    "updateInputMethod("@ + json_string(mode) + ")"@
}

/// Writes the script that shows candidates.
pub fn candidates_script(texts: &Vec<String>) -> (script: String)
    ensures
        script@ == candidates_script_of(texts_view(texts@)),
{
    let mut script = "updateCandidates(".to_owned();
    if let Some(json) = texts_to_json(texts) {
        script.append(json.as_str());
    }
    script.append(")");
    script
}

/// Writes the script that shows candidates, one of them selected.
pub fn candidate_state_script(texts: &Vec<String>, selection: i32) -> (script: String)
    ensures
        script@ == candidate_state_script_of(texts_view(texts@), selection),
{
    let mut script = "updateCandidateState(".to_owned();
    if let Some(json) = texts_to_json(texts) {
        script.append(json.as_str());
    }
    script.append(", ");
    script.append(decimal_signed(selection as i64).as_str());
    script.append(")");
    script
}

/// Writes the script that selects a candidate.
pub fn selection_script(index: i32) -> (script: String)
    ensures
        script@ == selection_script_of(index),
{
    let mut script = "updateSelection(".to_owned();
    script.append(decimal_signed(index as i64).as_str());
    script.append(")");
    script
}

/// Writes the script that shows the input mode.
pub fn input_mode_script(mode: &str) -> (script: String)
    ensures
        script@ == input_mode_script_of(mode@),
{
    let mut script = "updateInputMethod(".to_owned();
    if let Some(json) = text_to_json(mode) {
        script.append(json.as_str());
    }
    script.append(")");
    script
}

/// A text in a script is closed by its own quotes: no character of it stands for
/// itself that could end the string or the line.
pub proof fn a_quoted_text_stays_quoted(c: char)
    ensures
        json_char(c).len() == 1 ==> json_char(c)[0] != '"' && json_char(c)[0] != '\\'
            && json_char(c)[0] as u32 >= 0x20,
        json_char(c).len() > 1 ==> json_char(c)[0] == '\\',
{
}

/// What `serde_json::from_str` finds in a message under two names: the text under
/// the first, and under the second the whole part of a number, where the message
/// is JSON. What stands under the second name may be no number.
pub uninterp spec fn message_fields(body: Seq<char>, text_name: Seq<char>, number_name: Seq<char>) -> Option<(Option<Seq<char>>, Option<Option<i32>>)>;

/// Two fields of a message from the page: a text, and a number, which is `None`
/// inside where something else stands in its place.
#[derive(Debug)]
pub struct WebMessage {
    pub text: Option<String>,
    pub number: Option<Option<i32>>,
}

/// `serde_json::from_str` parses a message as JSON; `Value::get`, `as_str` and
/// `as_f64` pick a text and a number out of it, under the names that they are
/// asked for. The claim is that the message and the two names alone decide what is
/// found; what a given message holds is left unsaid.
#[verifier::external_body]
fn parse_message(body: &str, text_name: &str, number_name: &str) -> (message: Option<WebMessage>)
    ensures
        message_fields(body@, text_name@, number_name@) == match message {
            Some(message) => Some(
                (
                    match message.text {
                        Some(text) => Some(text@),
                        None => None,
                    },
                    message.number,
                ),
            ),
            None => None,
        },
{
    let value = serde_json::from_str::<serde_json::Value>(body).ok()?;
    Some(WebMessage {
        text: value.get(text_name).and_then(|text| text.as_str()).map(|text| text.to_owned()),
        number: value.get(number_name).map(|number| number.as_f64().map(|number| number as i32)),
    })
}

/// The height that a message of this kind reports: only a message about a resize
/// does, and only where it has a height. A height that is no number counts as zero.
pub open spec fn reported_height(
    kind: Option<Seq<char>>,
    height: Option<Option<i32>>,
) -> Option<i32> {
    if kind == Some("resize"@) {
        match height {
            Some(Some(height)) => Some(height),
            Some(None) => Some(0),
            None => None,
        }
    } else {
        None
    }
}

/// Finds the height that a message reports.
pub fn resize_height(kind: &Option<String>, height: Option<Option<i32>>) -> (reported: Option<i32>)
    ensures
        reported == reported_height(
            match kind {
                Some(kind) => Some(kind@),
                None => None,
            },
            height,
        ),
{
    match kind {
        Some(kind) => if same_text(kind.as_str(), "resize") {
            match height {
                Some(Some(height)) => Some(height),
                Some(None) => Some(0),
                None => None,
            }
        } else {
            None
        },
        None => None,
    }
}

/// Reads a message from the page, and finds the height that it reports.
pub fn page_height(body: &str) -> (reported: Option<i32>)
    ensures
        reported == match message_fields(body@, "type"@, "height"@) {
            Some((kind, height)) => reported_height(kind, height),
            None => None,
        },
{
    match parse_message(body, "type", "height") {
        Some(message) => resize_height(&message.text, message.number),
        None => None,
    }
}

/// The script that selects a candidate names its index, and reads back as it; so
/// does the script that shows candidates with a selection, behind the candidates.
pub proof fn a_script_names_the_selection(texts: Seq<Seq<char>>, index: i32)
    requires
        index >= 0,
    ensures
        ({
            let script = selection_script_of(index);
            let head = "updateSelection("@;
            &&& script.len() > head.len() + 1
            &&& script.take(head.len() as int) == head
            &&& script.last() == ')'
            &&& decimal_value(script.subrange(head.len() as int, script.len() - 1)) == index
        }),
        ({
            let script = candidate_state_script_of(texts, index);
            let head = "updateCandidateState("@ + json_array(texts) + ", "@;
            &&& script.len() > head.len() + 1
            &&& script.take(head.len() as int) == head
            &&& script.last() == ')'
            &&& decimal_value(script.subrange(head.len() as int, script.len() - 1)) == index
        }),
{
    reveal_strlit(")");
    a_number_reads_back(index as nat);
    let digits = decimal_notation(index as int);
    let script = selection_script_of(index);
    let head = "updateSelection("@;
    assert(script.take(head.len() as int) =~= head);
    assert(script.subrange(head.len() as int, script.len() - 1) =~= digits);
    let state_script = candidate_state_script_of(texts, index);
    let state_head = "updateCandidateState("@ + json_array(texts) + ", "@;
    assert(state_script.take(state_head.len() as int) =~= state_head);
    assert(state_script.subrange(state_head.len() as int, state_script.len() - 1) =~= digits);
}

/// The scripts for candidates hold all of them, in order: one more candidate stands
/// behind the others, and none is left out.
pub proof fn a_script_holds_all_candidates(texts: Seq<Seq<char>>, text: Seq<char>)
    ensures
        candidates_script_of(texts) == "updateCandidates("@ + json_array(texts) + ")"@,
        json_array(Seq::empty()) == seq!['[', ']'],
        json_array(seq![text]) == seq!['['] + json_string(text) + seq![']'],
        texts.len() > 0 ==> json_array(texts.push(text)) == json_array(texts).drop_last()
            + seq![','] + json_string(text) + seq![']'],
{
    assert(json_array(Seq::empty()) =~= seq!['[', ']']);
    let more = texts.push(text);
    assert(more.drop_last() =~= texts);
    if texts.len() > 0 {
        assert(json_array(texts).drop_last() =~= seq!['['] + json_items(texts));
        assert(json_array(more) =~= json_array(texts).drop_last() + seq![','] + json_string(text)
            + seq![']']);
    }
}

/// A height is reported by a message about a resize and by no other; a message
/// without a height reports none, and one whose height is no number reports zero.
pub proof fn only_a_resize_reports_a_height(
    kind: Option<Seq<char>>,
    height: i32,
    any: Option<Option<i32>>,
)
    ensures
        kind == Some("resize"@) ==> reported_height(kind, Some(Some(height))) == Some(height),
        kind == Some("resize"@) ==> reported_height(kind, Some(None)) == Some(0i32),
        kind == Some("resize"@) ==> reported_height(kind, None) is None,
        kind != Some("resize"@) ==> reported_height(kind, any) is None,
{
}

/// A character in a quoted text stands for itself, unless it is a quotation mark, a
/// backslash or a control character. The first two stand behind a backslash; five of
/// the control characters have a letter there, and the others their number, in four
/// hexadecimal digits.
pub proof fn a_quoted_character_is_written_plainly_or_escaped(c: char)
    ensures
        c != '"' && c != '\\' && c as u32 >= 0x20 ==> json_char(c) == seq![c],
        c == '"' || c == '\\' ==> json_char(c) == seq!['\\', c],
        c as u32 == 8 ==> json_char(c) == seq!['\\', 'b'],
        c as u32 == 9 ==> json_char(c) == seq!['\\', 't'],
        c as u32 == 10 ==> json_char(c) == seq!['\\', 'n'],
        c as u32 == 12 ==> json_char(c) == seq!['\\', 'f'],
        c as u32 == 13 ==> json_char(c) == seq!['\\', 'r'],
        (c as u32) < 8 ==> json_char(c) == seq![
            '\\',
            'u',
            '0',
            '0',
            '0',
            ('0' as int + c as int) as char,
        ],
        c as u32 == 11 ==> json_char(c) == seq!['\\', 'u', '0', '0', '0', 'b'],
        14 <= c as u32 <= 15 ==> json_char(c) == seq![
            '\\',
            'u',
            '0',
            '0',
            '0',
            ('a' as int + c as int - 10) as char,
        ],
        16 <= c as u32 <= 25 ==> json_char(c) == seq![
            '\\',
            'u',
            '0',
            '0',
            '1',
            ('0' as int + c as int - 16) as char,
        ],
        26 <= c as u32 <= 31 ==> json_char(c) == seq![
            '\\',
            'u',
            '0',
            '0',
            '1',
            ('a' as int + c as int - 26) as char,
        ],
{
}

} // verus!
