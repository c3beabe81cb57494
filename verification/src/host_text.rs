//! What the scripts of range operations come to in the host's text.

use vstd::prelude::*;

use crate::edit_session::{end_script, set_text_script, shift_start_script, RangeOp};
use crate::surrounding_text::preceding_script;
use crate::text::encode_utf16;

verus! {

/// A document of the host: its code units, the display attribute of each, the
/// range of the composition, the range and the part that a script works on, and
/// the selection.
#[verifier::ext_equal]
pub struct HostText {
    pub units: Seq<u16>,
    pub marks: Seq<Option<i32>>,
    pub composition: Option<(int, int)>,
    pub range: (int, int),
    pub part: (int, int),
    pub selection: (int, int),
}

/// A position, kept inside a document.
pub open spec fn inside(position: int, len: int) -> int {
    if position < 0 {
        0
    } else if position > len {
        len
    } else {
        position
    }
}

/// Attributes with those of a range replaced.
pub open spec fn marked(marks: Seq<Option<i32>>, range: (int, int), mark: Option<i32>) -> Seq<
    Option<i32>,
> {
    Seq::new(
        marks.len(),
        |i: int|
            if range.0 <= i < range.1 {
                mark
            } else {
                marks[i]
            },
    )
}

impl HostText {
    /// The ranges lie inside the document, and every code unit has its attribute.
    pub open spec fn is_valid(self) -> bool {
        &&& self.marks.len() == self.units.len()
        &&& self.composition matches Some((start, end)) ==> 0 <= start <= end <= self.units.len()
        &&& 0 <= self.range.0 <= self.range.1 <= self.units.len()
    }

    /// The document with the text of the range replaced. New text has no attribute;
    /// a composition around the range grows or shrinks with it.
    pub open spec fn replaced(self, units: Seq<u16>) -> HostText {
        let (start, end) = self.range;
        let grown = units.len() - (end - start);
        HostText {
            units: self.units.take(start) + units + self.units.skip(end),
            marks: self.marks.take(start) + Seq::new(units.len(), |i: int| None::<i32>)
                + self.marks.skip(end),
            composition: match self.composition {
                Some((first, last)) => Some((first, last + grown)),
                None => None,
            },
            range: (start, start + units.len()),
            ..self
        }
    }

    /// The document after one operation. Moving one end of a range beyond the other
    /// takes the other along.
    pub open spec fn after(self, op: RangeOp<Seq<u16>>) -> HostText {
        let len = self.units.len() as int;
        match op {
            RangeOp::TakeRange => match self.composition {
                Some(range) => HostText { range, ..self },
                None => self,
            },
            RangeOp::ClearAttribute => HostText {
                marks: marked(self.marks, self.range, None),
                ..self
            },
            RangeOp::SetText(units) => self.replaced(units),
            RangeOp::TakePart => HostText { part: self.range, ..self },
            RangeOp::CollapsePartToStart => HostText { part: (self.part.0, self.part.0), ..self },
            RangeOp::ExtendPart(count) => {
                let end = inside(self.part.1 + count, len);
                let start = if self.part.0 > end {
                    end
                } else {
                    self.part.0
                };
                HostText { part: (start, end), ..self }
            },
            RangeOp::MarkPart(mark) => HostText {
                marks: marked(self.marks, self.part, Some(mark)),
                ..self
            },
            RangeOp::MarkRange(mark) => HostText {
                marks: marked(self.marks, self.range, Some(mark)),
                ..self
            },
            RangeOp::CollapseToStart => HostText { range: (self.range.0, self.range.0), ..self },
            RangeOp::CollapseToEnd => HostText { range: (self.range.1, self.range.1), ..self },
            RangeOp::MoveStart(count) => {
                let start = inside(self.range.0 + count, len);
                let end = if self.range.1 < start {
                    start
                } else {
                    self.range.1
                };
                HostText { range: (start, end), ..self }
            },
            RangeOp::MoveEnd(count) => {
                let end = inside(self.range.1 + count, len);
                let start = if self.range.0 > end {
                    end
                } else {
                    self.range.0
                };
                HostText { range: (start, end), ..self }
            },
            RangeOp::MoveCompositionStart => HostText {
                composition: match self.composition {
                    Some((_, end)) => Some((self.range.0, end)),
                    None => None,
                },
                ..self
            },
            RangeOp::Select => HostText { selection: self.range, ..self },
            RangeOp::EndComposition => HostText { composition: None, ..self },
        }
    }

    /// The document after a script.
    pub open spec fn carried_out(self, ops: Seq<RangeOp<Seq<u16>>>) -> HostText
        decreases ops.len(),
    {
        if ops.len() == 0 {
            self
        } else {
            self.carried_out(ops.drop_last()).after(ops.last())
        }
    }
}

proof fn one_more(host: HostText, ops: Seq<RangeOp<Seq<u16>>>, op: RangeOp<Seq<u16>>)
    ensures
        host.carried_out(ops.push(op)) == host.carried_out(ops).after(op),
{
    assert(ops.push(op).drop_last() =~= ops);
}

/// Showing a text replaces what the composition held by the text and the rest
/// behind it, and nothing else of the document. The text, and not the rest, has the
/// display attribute; the caret stands behind both.
pub proof fn a_shown_text_replaces_the_composition(
    host: HostText,
    text: Seq<char>,
    subtext: Seq<char>,
    attribute: Option<u32>,
    start: int,
    end: int,
)
    requires
        host.is_valid(),
        host.composition == Some((start, end)),
        encode_utf16(text).len() <= i32::MAX,
    ensures
        ({
            let after = host.carried_out(set_text_script(text, subtext, attribute));
            let units = encode_utf16(text) + encode_utf16(subtext);
            let shown = start + encode_utf16(text).len();
            &&& after.units == host.units.take(start) + units + host.units.skip(end)
            &&& after.composition == Some((start, start + units.len()))
            &&& after.selection == (start + units.len(), start + units.len())
            &&& after.marks.len() == after.units.len()
            &&& forall|i: int|
                0 <= i < after.marks.len() ==> #[trigger] after.marks[i] == if i < start {
                    host.marks[i]
                } else if i < shown {
                    match attribute {
                        Some(atom) => Some(atom as i32),
                        None => None,
                    }
                } else if i < start + units.len() {
                    None
                } else {
                    host.marks[i - units.len() + (end - start)]
                }
        }),
{
    crate::text::encode_utf16_of_concat(text, subtext);
    let units = encode_utf16(text + subtext);
    let count = encode_utf16(text).len() as i32;
    let none = Seq::<RangeOp<Seq<u16>>>::empty();
    let ops_1 = none.push(RangeOp::TakeRange);
    let ops_2 = ops_1.push(RangeOp::SetText(units));
    let ops_3 = ops_2.push(RangeOp::TakePart);
    let ops_4 = ops_3.push(RangeOp::CollapsePartToStart);
    let ops_5 = ops_4.push(RangeOp::ExtendPart(count));
    let ops_6 = match attribute {
        Some(atom) => ops_5.push(RangeOp::MarkPart(atom as i32)),
        None => ops_5,
    };
    let ops_7 = ops_6.push(RangeOp::CollapseToEnd);
    let ops_8 = ops_7.push(RangeOp::Select);
    one_more(host, none, RangeOp::TakeRange);
    one_more(host, ops_1, RangeOp::SetText(units));
    one_more(host, ops_2, RangeOp::TakePart);
    one_more(host, ops_3, RangeOp::CollapsePartToStart);
    one_more(host, ops_4, RangeOp::ExtendPart(count));
    if let Some(atom) = attribute {
        one_more(host, ops_5, RangeOp::MarkPart(atom as i32));
    }
    one_more(host, ops_6, RangeOp::CollapseToEnd);
    one_more(host, ops_7, RangeOp::Select);
    assert(set_text_script(text, subtext, attribute) =~= ops_8);
}

/// Committing a text leaves it in the document, in front of the composition and
/// without the display attribute; what the composition held behind it is replaced
/// by the new text, which has the attribute. The caret stands behind it.
pub proof fn a_committed_text_stays_in_front(
    host: HostText,
    text: Seq<char>,
    subtext: Seq<char>,
    attribute: Option<u32>,
    start: int,
    end: int,
)
    requires
        host.is_valid(),
        host.composition == Some((start, end)),
        encode_utf16(text).len() <= i32::MAX,
        start + encode_utf16(text).len() <= end,
    ensures
        ({
            let after = host.carried_out(shift_start_script(text, subtext, attribute));
            let kept = start + encode_utf16(text).len();
            let units = encode_utf16(subtext);
            &&& after.units == host.units.take(kept) + units + host.units.skip(end)
            &&& after.composition == Some((kept, kept + units.len()))
            &&& after.selection == (kept + units.len(), kept + units.len())
            &&& after.marks.len() == after.units.len()
            &&& forall|i: int|
                0 <= i < kept + units.len() ==> #[trigger] after.marks[i] == if i < start {
                    host.marks[i]
                } else if i < kept {
                    None
                } else {
                    match attribute {
                        Some(atom) => Some(atom as i32),
                        None => None,
                    }
                }
        }),
{
    let units = encode_utf16(subtext);
    let count = encode_utf16(text).len() as i32;
    let none = Seq::<RangeOp<Seq<u16>>>::empty();
    let ops_1 = none.push(RangeOp::TakeRange);
    let ops_2 = ops_1.push(RangeOp::ClearAttribute);
    let ops_3 = ops_2.push(RangeOp::CollapseToStart);
    let ops_4 = ops_3.push(RangeOp::MoveStart(count));
    let ops_5 = ops_4.push(RangeOp::MoveCompositionStart);
    let ops_6 = ops_5.push(RangeOp::TakeRange);
    let ops_7 = ops_6.push(RangeOp::SetText(units));
    let ops_8 = match attribute {
        Some(atom) => ops_7.push(RangeOp::MarkRange(atom as i32)),
        None => ops_7,
    };
    let ops_9 = ops_8.push(RangeOp::CollapseToEnd);
    let ops_10 = ops_9.push(RangeOp::Select);
    one_more(host, none, RangeOp::TakeRange);
    one_more(host, ops_1, RangeOp::ClearAttribute);
    one_more(host, ops_2, RangeOp::CollapseToStart);
    one_more(host, ops_3, RangeOp::MoveStart(count));
    one_more(host, ops_4, RangeOp::MoveCompositionStart);
    one_more(host, ops_5, RangeOp::TakeRange);
    one_more(host, ops_6, RangeOp::SetText(units));
    if let Some(atom) = attribute {
        one_more(host, ops_7, RangeOp::MarkRange(atom as i32));
    }
    one_more(host, ops_8, RangeOp::CollapseToEnd);
    one_more(host, ops_9, RangeOp::Select);
    assert(shift_start_script(text, subtext, attribute) =~= ops_10);
}

/// Ending a composition leaves all text where it is, takes the display attribute
/// from the composition and from nothing else, and puts the caret behind it.
pub proof fn an_ended_composition_stays_as_text(host: HostText, start: int, end: int)
    requires
        host.is_valid(),
        host.composition == Some((start, end)),
    ensures
        ({
            let after = host.carried_out(end_script());
            &&& after.units == host.units
            &&& after.composition is None
            &&& after.selection == (end, end)
            &&& after.marks.len() == host.marks.len()
            &&& forall|i: int|
                0 <= i < host.marks.len() ==> #[trigger] after.marks[i] == if start <= i < end {
                    None
                } else {
                    host.marks[i]
                }
        }),
{
    let none = Seq::<RangeOp<Seq<u16>>>::empty();
    let ops_1 = none.push(RangeOp::TakeRange);
    let ops_2 = ops_1.push(RangeOp::ClearAttribute);
    let ops_3 = ops_2.push(RangeOp::CollapseToEnd);
    let ops_4 = ops_3.push(RangeOp::Select);
    let ops_5 = ops_4.push(RangeOp::EndComposition);
    one_more(host, none, RangeOp::TakeRange);
    one_more(host, ops_1, RangeOp::ClearAttribute);
    one_more(host, ops_2, RangeOp::CollapseToEnd);
    one_more(host, ops_3, RangeOp::Select);
    one_more(host, ops_4, RangeOp::EndComposition);
    assert(end_script() =~= ops_5);
}

/// The text in front of a composition of `count` code units is read up to where the
/// composition begins: from thirty code units before the caret, or from the
/// beginning of the document, and nothing of the composition is read. Where the
/// composition is longer than that, nothing is read.
pub proof fn the_text_in_front_ends_at_the_composition(host: HostText, count: nat)
    requires
        host.is_valid(),
        count <= i32::MAX,
        count <= host.range.0,
    ensures
        ({
            let caret = host.range.0;
            let read = host.carried_out(preceding_script(count)).range;
            &&& read.1 == caret - count
            &&& count <= 30 && caret >= 30 ==> read.0 == caret - 30
            &&& caret < 30 ==> read.0 == 0
            &&& count > 30 ==> read.0 == read.1
            &&& host.carried_out(preceding_script(count)).units == host.units
            &&& host.carried_out(preceding_script(count)).selection == host.selection
        }),
{
    let none = Seq::<RangeOp<Seq<u16>>>::empty();
    let ops_1 = none.push(RangeOp::CollapseToStart);
    let ops_2 = ops_1.push(RangeOp::MoveStart(-30i32));
    let ops_3 = ops_2.push(RangeOp::MoveEnd((-count) as i32));
    one_more(host, none, RangeOp::CollapseToStart);
    one_more(host, ops_1, RangeOp::MoveStart(-30i32));
    one_more(host, ops_2, RangeOp::MoveEnd((-count) as i32));
    assert(preceding_script(count) =~= ops_3);
}

} // verus!
