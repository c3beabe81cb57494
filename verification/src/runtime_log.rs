//! The log of the launcher and of the processes that it starts.
//!
//! What goes into the log is cleaned of control characters and kept short, so
//! that one event takes one line, and the file is replaced before it grows too
//! large.

use vstd::prelude::*;
use vstd::utf8::{decode_utf8, valid_utf8};

use crate::candidates::{texts_view, texts_view_of_push};
use crate::text::{
    byte_len, char_width, characters, utf8_len, utf8_len_bounds, utf8_len_of_concat,
    utf8_len_of_push,
};

verus! {

broadcast use vstd::string::group_string_axioms;

/// The largest size of the log file, in bytes.
pub const RUNTIME_LOG_MAX_BYTES: u64 = 0x10_0000;

/// The longest message of an entry, in bytes.
pub const LOG_ENTRY_MAX_BYTES: usize = 0x4000;

/// The longest line that is kept of a process's output, in bytes.
pub const CHILD_OUTPUT_MAX_BYTES: usize = 0x1000;

/// The end of a text that was cut.
pub open spec fn truncation_marker() -> Seq<char> {
    "...[truncated]"@
}

/// What `String::from_utf8_lossy` makes of bytes.
pub uninterp spec fn utf8_lossy(bytes: Seq<u8>) -> Seq<char>;

/// `String::from_utf8_lossy` decodes bytes as UTF-8. Valid bytes give their text.
/// Nothing is stated of how many replacement characters stand for invalid bytes.
#[verifier::external_body]
pub(crate) fn text_from_utf8(bytes: &[u8]) -> (text: String)
    ensures
        text@ == utf8_lossy(bytes@),
        valid_utf8(bytes@) ==> text@ == decode_utf8(bytes@),
{
    String::from_utf8_lossy(bytes).into_owned()
}

/// Whether a character is a control character.
pub open spec fn is_control(c: char) -> bool {
    c as u32 <= 0x1f || 0x7f <= c as u32 <= 0x9f
}

/// A character as it may stand in the log: a space for a control character.
pub open spec fn cleaned_char(c: char) -> char {
    if is_control(c) {
        ' '
    } else {
        c
    }
}

/// A text as it may stand in the log.
pub open spec fn cleaned(text: Seq<char>) -> Seq<char> {
    text.map_values(|c: char| cleaned_char(c))
}

/// The longest beginning of a text that takes at most so many bytes.
pub open spec fn longest_prefix(text: Seq<char>, max_bytes: int) -> Seq<char>
    decreases text.len(),
{
    if text.len() == 0 || utf8_len(text) <= max_bytes {
        text
    } else {
        longest_prefix(text.drop_last(), max_bytes)
    }
}

/// A text that is cut to so many bytes and marked as such. Where there is not
/// even room for the mark, nothing is left.
pub open spec fn marked(text: Seq<char>, max_bytes: usize) -> Seq<char> {
    if utf8_len(truncation_marker()) > max_bytes {
        Seq::empty()
    } else {
        longest_prefix(text, max_bytes - utf8_len(truncation_marker())) + truncation_marker()
    }
}

/// A text as it may stand in the log, cut where it is too long.
pub open spec fn sanitized(input: Seq<char>, max_bytes: usize) -> Seq<char> {
    if utf8_len(cleaned(input)) <= max_bytes {
        cleaned(input)
    } else {
        marked(cleaned(input), max_bytes)
    }
}

proof fn marker_len()
    ensures
        utf8_len(truncation_marker()) == 14,
{
    reveal_strlit("...[truncated]");
    assert(vstd::utf8::is_ascii_chars(truncation_marker()));
    vstd::utf8::is_ascii_chars_encode_utf8(truncation_marker());
}

proof fn a_prefix_is_no_longer(text: Seq<char>, count: int)
    requires
        0 <= count <= text.len(),
    ensures
        utf8_len(text.take(count)) <= utf8_len(text),
{
    assert(text =~= text.take(count) + text.skip(count));
    utf8_len_of_concat(text.take(count), text.skip(count));
}

proof fn longest_prefix_is(text: Seq<char>, max_bytes: int, count: int)
    requires
        0 <= count <= text.len(),
        utf8_len(text.take(count)) <= max_bytes,
        count < text.len() ==> utf8_len(text.take(count + 1)) > max_bytes,
    ensures
        longest_prefix(text, max_bytes) == text.take(count),
    decreases text.len(),
{
    if count == text.len() {
        assert(text.take(count) =~= text);
    } else {
        a_prefix_is_no_longer(text, count + 1);
        let shorter = text.drop_last();
        assert(shorter.take(count) =~= text.take(count));
        if count + 1 <= shorter.len() {
            assert(shorter.take(count + 1) =~= text.take(count + 1));
        }
        longest_prefix_is(shorter, max_bytes, count);
    }
}

proof fn longest_prefix_fits(text: Seq<char>, max_bytes: int)
    requires
        0 <= max_bytes,
    ensures
        utf8_len(longest_prefix(text, max_bytes)) <= max_bytes,
        longest_prefix(text, max_bytes).is_prefix_of(text),
    decreases text.len(),
{
    if text.len() == 0 {
        utf8_len_bounds(text);
    } else if utf8_len(text) > max_bytes {
        longest_prefix_fits(text.drop_last(), max_bytes);
    }
}

/// Takes the longest beginning of a text that takes at most so many bytes.
fn take_longest_prefix(text: &str, max_bytes: usize) -> (prefix: String)
    ensures
        prefix@ == longest_prefix(text@, max_bytes as int),
{
    let chars = characters(text);
    let mut prefix = String::new();
    let mut bytes: usize = 0;
    assert(text@.take(0) =~= Seq::empty());
    proof {
        utf8_len_bounds(Seq::empty());
    }
    for i in 0..chars.len()
        invariant
            chars@ == text@,
            prefix@ == text@.take(i as int),
            bytes == utf8_len(prefix@),
            bytes <= max_bytes,
    {
        let width: usize = char_width(chars[i]);
        proof {
            assert(text@.take(i + 1) =~= prefix@.push(text@[i as int]));
            utf8_len_of_push(prefix@, text@[i as int]);
        }
        if width > max_bytes - bytes {
            proof {
                longest_prefix_is(text@, max_bytes as int, i as int);
            }
            return prefix;
        }
        bytes = bytes + width;
        prefix.push(chars[i]);
    }
    proof {
        assert(text@.take(text@.len() as int) =~= text@);
        longest_prefix_is(text@, max_bytes as int, text@.len() as int);
    }
    prefix
}

fn cleaned_text(input: &str) -> (text: String)
    ensures
        text@ == cleaned(input@),
{
    let mut text = String::new();
    for c in it: input.chars()
        invariant
            it.seq() == input@,
            text@ == cleaned(input@.take(it.index() as int)),
    {
        let value: u32 = c as u32;
        text.push(
            if value <= 0x1f || (0x7f <= value && value <= 0x9f) {
                ' '
            } else {
                c
            },
        );
        assert(text@ =~= cleaned(input@.take(it.index() + 1)));
    }
    assert(input@.take(input@.len() as int) =~= input@);
    text
}

/// Cuts a text to so many bytes and marks it as such.
pub fn append_truncation_marker(output: &mut String, max_bytes: usize)
    ensures
        final(output)@ == marked(old(output)@, max_bytes),
{
    let marker = "...[truncated]";
    proof {
        marker_len();
    }
    if 14 > max_bytes {
        *output = String::new();
        assert(output@ =~= Seq::empty());
        return;
    }
    let mut cut = take_longest_prefix(output.as_str(), max_bytes - 14);
    cut.append(marker);
    *output = cut;
}

/// Cleans a text of control characters, and cuts it where it takes more than so
/// many bytes.
pub fn sanitize_and_truncate(input: &str, max_bytes: usize) -> (output: String)
    ensures
        output@ == sanitized(input@, max_bytes),
{
    let mut output = cleaned_text(input);
    if byte_len(output.as_str()) > max_bytes {
        append_truncation_marker(&mut output, max_bytes);
    }
    output
}

/// Whether a text holds no control character.
pub open spec fn is_clean(text: Seq<char>) -> bool {
    forall|i: int| 0 <= i < text.len() ==> !is_control(#[trigger] text[i])
}

proof fn marked_is_clean_and_short(text: Seq<char>, max_bytes: usize)
    requires
        is_clean(text),
    ensures
        is_clean(marked(text, max_bytes)),
        utf8_len(marked(text, max_bytes)) <= max_bytes,
{
    marker_len();
    reveal_strlit("...[truncated]");
    if max_bytes >= 14 {
        let prefix = longest_prefix(text, max_bytes - 14);
        longest_prefix_fits(text, max_bytes - 14);
        utf8_len_of_concat(prefix, truncation_marker());
        let output = prefix + truncation_marker();
        assert forall|i: int| 0 <= i < output.len() implies !is_control(#[trigger] output[i]) by {
            if i < prefix.len() {
                assert(prefix[i] == text[i]);
            } else {
                assert(output[i] == truncation_marker()[i - prefix.len()]);
            }
        }
    } else {
        utf8_len_bounds(Seq::empty());
    }
}

/// What goes into the log holds no control character, and so no line break, and
/// takes no more bytes than it may.
pub proof fn sanitized_text_is_clean_and_short(input: Seq<char>, max_bytes: usize)
    ensures
        is_clean(sanitized(input, max_bytes)),
        utf8_len(sanitized(input, max_bytes)) <= max_bytes,
{
    let text = cleaned(input);
    assert(is_clean(text));
    marked_is_clean_and_short(text, max_bytes);
}

/// A short text without control characters goes into the log as it is.
pub proof fn clean_text_is_kept(input: Seq<char>, max_bytes: usize)
    requires
        is_clean(input),
        utf8_len(input) <= max_bytes,
    ensures
        sanitized(input, max_bytes) == input,
{
    assert(cleaned(input) =~= input);
}

/// Bytes without a carriage return at their end.
pub open spec fn without_return(bytes: Seq<u8>) -> Seq<u8> {
    if bytes.len() > 0 && bytes.last() == 0x0d {
        bytes.drop_last()
    } else {
        bytes
    }
}

/// Whether a text ends with another one.
pub open spec fn ends_with(text: Seq<char>, end: Seq<char>) -> bool {
    end.len() <= text.len() && text.skip(text.len() - end.len()) == end
}

/// The text of a line, as it is kept. `was_truncated` tells that bytes were left
/// out.
pub open spec fn kept_line(text: Seq<char>, was_truncated: bool, max_bytes: usize) -> Seq<char> {
    let output = sanitized(text, max_bytes);
    if was_truncated && !ends_with(output, truncation_marker()) {
        marked(output, max_bytes)
    } else {
        output
    }
}

/// A line of a process's output, as it is kept.
pub open spec fn child_line(bytes: Seq<u8>, was_truncated: bool, max_bytes: usize) -> Seq<char> {
    kept_line(utf8_lossy(without_return(bytes)), was_truncated, max_bytes)
}

fn has_marker(text: &str) -> (has: bool)
    ensures
        has == ends_with(text@, truncation_marker()),
{
    let chars = characters(text);
    let marker = characters("...[truncated]");
    if marker.len() > chars.len() {
        return false;
    }
    let start: usize = chars.len() - marker.len();
    let ghost end = text@.skip(start as int);
    for i in 0..marker.len()
        invariant
            chars@ == text@,
            marker@ == truncation_marker(),
            start == chars.len() - marker.len(),
            end == text@.skip(start as int),
            forall|j: int| 0 <= j < i ==> end[j] == marker@[j],
    {
        if chars[start + i] != marker[i] {
            assert(end[i as int] != truncation_marker()[i as int]);
            return false;
        }
    }
    assert(end =~= truncation_marker());
    true
}

/// Formats the text of a line.
pub fn format_line(text: &str, was_truncated: bool, max_bytes: usize) -> (line: String)
    ensures
        line@ == kept_line(text@, was_truncated, max_bytes),
{
    let mut output = sanitize_and_truncate(text, max_bytes);
    if was_truncated && !has_marker(output.as_str()) {
        append_truncation_marker(&mut output, max_bytes);
    }
    output
}

/// Formats a line of a process's output.
pub fn format_child_line(bytes: &[u8], was_truncated: bool, max_bytes: usize) -> (line: String)
    ensures
        line@ == child_line(bytes@, was_truncated, max_bytes),
{
    let text = if bytes.len() > 0 && bytes[bytes.len() - 1] == 0x0d {
        let kept = vstd::slice::slice_subrange(bytes, 0, bytes.len() - 1);
        assert(kept@ =~= bytes@.drop_last());
        text_from_utf8(kept)
    } else {
        text_from_utf8(bytes)
    };
    format_line(text.as_str(), was_truncated, max_bytes)
}

/// A line of a process's output is one line of the log, of limited length.
pub proof fn child_lines_are_clean_and_short(
    bytes: Seq<u8>,
    was_truncated: bool,
    max_bytes: usize,
)
    ensures
        is_clean(child_line(bytes, was_truncated, max_bytes)),
        utf8_len(child_line(bytes, was_truncated, max_bytes)) <= max_bytes,
{
    let output = sanitized(utf8_lossy(without_return(bytes)), max_bytes);
    sanitized_text_is_clean_and_short(utf8_lossy(without_return(bytes)), max_bytes);
    marked_is_clean_and_short(output, max_bytes);
}

/// A reader in the middle of a process's output: the lines that are complete,
/// and what is kept of the line that is not.
#[verifier::ext_equal]
pub struct Reading {
    pub lines: Seq<Seq<char>>,
    pub line: Seq<u8>,
    pub truncated: bool,
}

impl Reading {
    /// Nothing has been read.
    pub open spec fn begun() -> Reading {
        Reading { lines: Seq::empty(), line: Seq::empty(), truncated: false }
    }

    /// One more byte has been read. Of a line only so many bytes are kept.
    pub open spec fn with_byte(self, byte: u8, max_bytes: usize) -> Reading {
        if byte == 0x0a {
            Reading {
                lines: self.lines.push(child_line(self.line, self.truncated, max_bytes)),
                line: Seq::empty(),
                truncated: false,
            }
        } else if self.line.len() < max_bytes {
            Reading { line: self.line.push(byte), ..self }
        } else {
            Reading { truncated: true, ..self }
        }
    }

    /// More bytes have been read.
    pub open spec fn with_bytes(self, bytes: Seq<u8>, max_bytes: usize) -> Reading
        decreases bytes.len(),
    {
        if bytes.len() == 0 {
            self
        } else {
            self.with_bytes(bytes.drop_last(), max_bytes).with_byte(bytes.last(), max_bytes)
        }
    }

    /// All lines, at the end of the output. A line without an end counts too.
    pub open spec fn finished(self, max_bytes: usize) -> Seq<Seq<char>> {
        if self.line.len() > 0 || self.truncated {
            self.lines.push(child_line(self.line, self.truncated, max_bytes))
        } else {
            self.lines
        }
    }
}

/// The lines of a process's whole output.
pub open spec fn bounded_lines(output: Seq<u8>, max_bytes: usize) -> Seq<Seq<char>> {
    Reading::begun().with_bytes(output, max_bytes).finished(max_bytes)
}

/// It does not matter how the output is cut into pieces: reading two pieces one
/// after the other is reading them at once.
pub proof fn pieces_do_not_matter(
    reading: Reading,
    first: Seq<u8>,
    second: Seq<u8>,
    max_bytes: usize,
)
    ensures
        reading.with_bytes(first, max_bytes).with_bytes(second, max_bytes) == reading.with_bytes(
            first + second,
            max_bytes,
        ),
    decreases second.len(),
{
    if second.len() == 0 {
        assert(first + second =~= first);
    } else {
        pieces_do_not_matter(reading, first, second.drop_last(), max_bytes);
        assert((first + second).drop_last() =~= first + second.drop_last());
    }
}

/// A reader of a process's output, which comes in pieces.
#[derive(Debug)]
pub struct BoundedLines {
    lines: Vec<String>,
    line: Vec<u8>,
    truncated: bool,
    max_bytes: usize,
}

impl BoundedLines {
    /// What has been read.
    pub closed spec fn reading(self) -> Reading {
        Reading {
            lines: texts_view(self.lines@),
            line: self.line@,
            truncated: self.truncated,
        }
    }

    /// How many bytes of a line are kept.
    pub closed spec fn limit(self) -> usize {
        self.max_bytes
    }

    /// Begins to read.
    pub fn new(max_bytes: usize) -> (reader: BoundedLines)
        ensures
            reader.reading() == Reading::begun(),
            reader.limit() == max_bytes,
    {
        let reader = BoundedLines {
            lines: Vec::new(),
            line: Vec::new(),
            truncated: false,
            max_bytes,
        };
        assert(reader.reading() =~= Reading::begun());
        reader
    }

    fn feed_byte(&mut self, byte: u8)
        ensures
            final(self).limit() == old(self).limit(),
            final(self).reading() == old(self).reading().with_byte(byte, old(self).limit()),
    {
        if byte == 0x0a {
            let line = format_child_line(self.line.as_slice(), self.truncated, self.max_bytes);
            proof {
                texts_view_of_push(self.lines@, line);
            }
            self.lines.push(line);
            self.line = Vec::new();
            self.truncated = false;
        } else if self.line.len() < self.max_bytes {
            self.line.push(byte);
        } else {
            self.truncated = true;
        }
        assert(self.reading() =~= old(self).reading().with_byte(byte, old(self).limit()));
    }

    /// Reads a piece of the output.
    pub fn feed(&mut self, piece: &[u8])
        ensures
            final(self).limit() == old(self).limit(),
            final(self).reading() == old(self).reading().with_bytes(piece@, old(self).limit()),
    {
        for i in 0..piece.len()
            invariant
                self.limit() == old(self).limit(),
                self.reading() == old(self).reading().with_bytes(
                    piece@.take(i as int),
                    old(self).limit(),
                ),
        {
            assert(piece@.take(i + 1).drop_last() =~= piece@.take(i as int));
            self.feed_byte(piece[i]);
        }
        assert(piece@.take(piece@.len() as int) =~= piece@);
    }

    /// Takes the lines that are complete.
    pub fn take_lines(&mut self) -> (lines: Vec<String>)
        ensures
            texts_view(lines@) == old(self).reading().lines,
            final(self).limit() == old(self).limit(),
            final(self).reading() == (Reading {
                lines: Seq::empty(),
                ..old(self).reading()
            }),
    {
        let mut lines: Vec<String> = Vec::new();
        std::mem::swap(&mut lines, &mut self.lines);
        assert(self.reading() =~= (Reading { lines: Seq::empty(), ..old(self).reading() }));
        lines
    }

    /// Ends the reading: a line without an end counts too.
    pub fn finish(self) -> (lines: Vec<String>)
        ensures
            texts_view(lines@) == self.reading().finished(self.limit()),
    {
        let mut lines = self.lines;
        if self.line.len() > 0 || self.truncated {
            let line = format_child_line(self.line.as_slice(), self.truncated, self.max_bytes);
            proof {
                texts_view_of_push(lines@, line);
            }
            lines.push(line);
        }
        lines
    }
}

/// The bytes of pieces in a row.
pub open spec fn joined_pieces(pieces: Seq<Vec<u8>>) -> Seq<u8>
    decreases pieces.len(),
{
    if pieces.len() == 0 {
        Seq::empty()
    } else {
        joined_pieces(pieces.drop_last()) + pieces.last()@
    }
}

/// Reads the lines of a process's output, which comes in pieces.
pub fn read_bounded_lines(pieces: &Vec<Vec<u8>>, max_bytes: usize) -> (lines: Vec<String>)
    ensures
        texts_view(lines@) == bounded_lines(joined_pieces(pieces@), max_bytes),
{
    let mut reader = BoundedLines::new(max_bytes);
    assert(pieces@.take(0) =~= Seq::empty());
    for i in 0..pieces.len()
        invariant
            reader.limit() == max_bytes,
            reader.reading() == Reading::begun().with_bytes(
                joined_pieces(pieces@.take(i as int)),
                max_bytes,
            ),
    {
        reader.feed(pieces[i].as_slice());
        proof {
            assert(pieces@.take(i + 1).drop_last() =~= pieces@.take(i as int));
            pieces_do_not_matter(
                Reading::begun(),
                joined_pieces(pieces@.take(i as int)),
                pieces@[i as int]@,
                max_bytes,
            );
        }
    }
    assert(pieces@.take(pieces@.len() as int) =~= pieces@);
    reader.finish()
}

/// A text that has room goes into the log character by character: a space for each
/// of the control characters, and every other character as it is.
pub proof fn only_control_characters_are_replaced(input: Seq<char>, max_bytes: usize, i: int)
    requires
        0 <= i < input.len(),
        utf8_len(cleaned(input)) <= max_bytes,
    ensures
        sanitized(input, max_bytes).len() == input.len(),
        input[i] as u32 <= 0x1f ==> sanitized(input, max_bytes)[i] == ' ',
        0x20 <= input[i] as u32 <= 0x7e ==> sanitized(input, max_bytes)[i] == input[i],
        0x7f <= input[i] as u32 <= 0x9f ==> sanitized(input, max_bytes)[i] == ' ',
        0xa0 <= input[i] as u32 ==> sanitized(input, max_bytes)[i] == input[i],
{
}

proof fn longest_prefix_ends(text: Seq<char>, max_bytes: int) -> (count: int)
    requires
        0 <= max_bytes,
    ensures
        0 <= count <= text.len(),
        longest_prefix(text, max_bytes) == text.take(count),
        utf8_len(text.take(count)) <= max_bytes,
        count < text.len() ==> utf8_len(text.take(count + 1)) > max_bytes,
    decreases text.len(),
{
    if text.len() == 0 {
        utf8_len_bounds(text);
        assert(text.take(0) =~= text);
        0
    } else if utf8_len(text) <= max_bytes {
        assert(text.take(text.len() as int) =~= text);
        text.len() as int
    } else {
        let count = longest_prefix_ends(text.drop_last(), max_bytes);
        assert(text.drop_last().take(count) =~= text.take(count));
        if count < text.drop_last().len() {
            assert(text.drop_last().take(count + 1) =~= text.take(count + 1));
        } else {
            assert(text.take(count + 1) =~= text);
        }
        count
    }
}

/// A text that is too long is cut and marked. As many of its characters are kept as
/// fit in front of the mark, which takes fourteen bytes: one more would not. Where
/// there is no room for the mark, nothing is left.
pub proof fn a_long_text_is_cut_at_its_limit(input: Seq<char>, max_bytes: usize) -> (count: int)
    requires
        utf8_len(cleaned(input)) > max_bytes,
    ensures
        max_bytes < 14 ==> sanitized(input, max_bytes).len() == 0,
        max_bytes >= 14 ==> {
            &&& 0 <= count < input.len()
            &&& sanitized(input, max_bytes) == cleaned(input).take(count) + "...[truncated]"@
            &&& utf8_len(cleaned(input).take(count)) + 14 <= max_bytes
            &&& utf8_len(cleaned(input).take(count + 1)) + 14 > max_bytes
        },
{
    marker_len();
    if max_bytes >= 14 {
        let text = cleaned(input);
        let count = longest_prefix_ends(text, max_bytes - 14);
        if count == text.len() {
            assert(text.take(count) =~= text);
        }
        count
    } else {
        0
    }
}

/// A carriage return at the end of a line of output is dropped, and nothing else:
/// what is left, where it is clean and short, is the line.
pub proof fn a_carriage_return_ends_the_line(line: Seq<u8>, max_bytes: usize)
    requires
        is_clean(utf8_lossy(line)),
        utf8_len(utf8_lossy(line)) <= max_bytes,
    ensures
        child_line(line.push(0x0d), false, max_bytes) == utf8_lossy(line),
        line.len() == 0 || line.last() != 0x0d ==> child_line(line, false, max_bytes)
            == utf8_lossy(line),
{
    assert(line.push(0x0d).drop_last() =~= line);
    clean_text_is_kept(utf8_lossy(line), max_bytes);
}

/// A line of which bytes were left out ends with the mark, wherever that has room.
pub proof fn a_cut_line_is_marked(text: Seq<char>, max_bytes: usize) -> (kept: Seq<char>)
    requires
        max_bytes >= 14,
    ensures
        kept_line(text, true, max_bytes) == kept + "...[truncated]"@,
        kept.is_prefix_of(cleaned(text)),
{
    marker_len();
    let output = sanitized(text, max_bytes);
    if ends_with(output, truncation_marker()) {
        let count = output.len() - truncation_marker().len();
        assert(output =~= output.take(count) + output.skip(count));
        if utf8_len(cleaned(text)) <= max_bytes {
            output.take(count)
        } else {
            longest_prefix_fits(cleaned(text), max_bytes - 14);
            let prefix = longest_prefix(cleaned(text), max_bytes - 14);
            prefix
        }
    } else {
        if utf8_len(cleaned(text)) > max_bytes {
            let prefix = longest_prefix(cleaned(text), max_bytes - 14);
            assert((prefix + truncation_marker()).skip(prefix.len() as int)
                =~= truncation_marker());
        }
        longest_prefix_fits(output, max_bytes - 14);
        longest_prefix(output, max_bytes - 14)
    }
}

/// What reading a line without a line feed leaves: its first bytes, as many as are
/// kept, and whether there were more.
proof fn a_line_is_collected(lines: Seq<Seq<char>>, line: Seq<u8>, max_bytes: usize)
    requires
        !line.contains(0x0a),
    ensures
        (Reading { lines, line: Seq::empty(), truncated: false }).with_bytes(line, max_bytes)
            == (Reading {
            lines,
            line: if line.len() <= max_bytes {
                line
            } else {
                line.take(max_bytes as int)
            },
            truncated: line.len() > max_bytes,
        }),
    decreases line.len(),
{
    let begun = Reading { lines, line: Seq::empty(), truncated: false };
    if line.len() == 0 {
        assert(begun.with_bytes(line, max_bytes) == begun);
        assert(line =~= Seq::empty());
    } else {
        let shorter = line.drop_last();
        assert forall|i: int| 0 <= i < shorter.len() implies shorter[i] != 0x0a by {
            assert(line.contains(line[i]));
        }
        assert(line.contains(line.last()));
        a_line_is_collected(lines, shorter, max_bytes);
        if line.len() <= max_bytes {
            assert(shorter.push(line.last()) =~= line);
        } else if line.len() == max_bytes + 1 {
            assert(line.take(max_bytes as int) =~= shorter);
        } else {
            assert(line.take(max_bytes as int) =~= shorter.take(max_bytes as int));
        }
    }
}

proof fn earlier_lines_stay_in_front(
    reading: Reading,
    front: Seq<Seq<char>>,
    bytes: Seq<u8>,
    max_bytes: usize,
)
    ensures
        (Reading { lines: front + reading.lines, ..reading }).with_bytes(bytes, max_bytes) == (
        Reading {
            lines: front + reading.with_bytes(bytes, max_bytes).lines,
            ..reading.with_bytes(bytes, max_bytes)
        }),
    decreases bytes.len(),
{
    if bytes.len() > 0 {
        earlier_lines_stay_in_front(reading, front, bytes.drop_last(), max_bytes);
        let before = reading.with_bytes(bytes.drop_last(), max_bytes);
        let line = child_line(before.line, before.truncated, max_bytes);
        assert((front + before.lines).push(line) =~= front + before.lines.push(line));
    }
}

/// Output is cut into lines at its line feeds: the first line is what stands in front
/// of the first one, and the others are the lines of what stands behind it. Of a line
/// no more than its first bytes are kept, as many as may be; the line is then told to
/// be cut.
pub proof fn output_is_cut_at_line_feeds(line: Seq<u8>, rest: Seq<u8>, max_bytes: usize)
    requires
        !line.contains(0x0a),
    ensures
        line.len() <= max_bytes ==> bounded_lines(line.push(0x0a) + rest, max_bytes) == seq![
            child_line(line, false, max_bytes),
        ] + bounded_lines(rest, max_bytes),
        line.len() > max_bytes ==> bounded_lines(line.push(0x0a) + rest, max_bytes) == seq![
            child_line(line.take(max_bytes as int), true, max_bytes),
        ] + bounded_lines(rest, max_bytes),
{
    let begun = Reading::begun();
    pieces_do_not_matter(begun, line.push(0x0a), rest, max_bytes);
    a_line_is_collected(Seq::empty(), line, max_bytes);
    assert(line.push(0x0a).drop_last() =~= line);
    let first = begun.with_bytes(line, max_bytes);
    let text = child_line(first.line, first.truncated, max_bytes);
    let after = begun.with_bytes(line.push(0x0a), max_bytes);
    assert(after == first.with_byte(0x0a, max_bytes));
    assert(after.lines =~= seq![text] + begun.lines);
    earlier_lines_stay_in_front(begun, seq![text], rest, max_bytes);
    let last = begun.with_bytes(rest, max_bytes);
    assert((Reading { lines: seq![text] + begun.lines, ..begun }) == after);
    let extra = child_line(last.line, last.truncated, max_bytes);
    assert((seq![text] + last.lines).push(extra) =~= seq![text] + last.lines.push(extra));
}

/// Output that does not end with a line feed has a last line all the same, unless
/// nothing stands behind the last line feed.
pub proof fn the_last_line_counts_too(line: Seq<u8>, max_bytes: usize)
    requires
        !line.contains(0x0a),
    ensures
        line.len() == 0 ==> bounded_lines(line, max_bytes).len() == 0,
        0 < line.len() <= max_bytes ==> bounded_lines(line, max_bytes) == seq![
            child_line(line, false, max_bytes),
        ],
        line.len() > max_bytes ==> bounded_lines(line, max_bytes) == seq![
            child_line(line.take(max_bytes as int), true, max_bytes),
        ],
{
    a_line_is_collected(Seq::empty(), line, max_bytes);
}

/// The pieces of an output follow each other with nothing lost between them, and
/// however they are grouped.
pub proof fn pieces_follow_each_other(first: Seq<Vec<u8>>, second: Seq<Vec<u8>>, piece: Vec<u8>)
    ensures
        joined_pieces(seq![piece]) == piece@,
        joined_pieces(first + second) == joined_pieces(first) + joined_pieces(second),
    decreases second.len(),
{
    assert(seq![piece].drop_last() =~= Seq::empty());
    assert(joined_pieces(seq![piece].drop_last()) =~= Seq::empty());
    assert(joined_pieces(seq![piece]) =~= piece@);
    if second.len() == 0 {
        assert(first + second =~= first);
    } else {
        pieces_follow_each_other(first, second.drop_last(), piece);
        assert((first + second).drop_last() =~= first + second.drop_last());
        assert((first + second).last() == second.last());
        assert(joined_pieces(first + second) =~= joined_pieces(first) + joined_pieces(second));
    }
}

} // verus!
