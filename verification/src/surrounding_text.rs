//! The text in front of the composition, which the server converts with.

use vstd::prelude::*;

use crate::edit_session::{cap, capped, ops_view, RangeOp};
use crate::key_handling::TextServiceFactory;
use crate::text::{encode_utf16, utf16_of};
use crate::text_service::{HostError, MissingHandle};

verus! {

/// The flag of a context that stands in for another one.
pub const TS_SS_TRANSITORY: u32 = 4;

/// How many code units are read in front of the composition.
pub const PRECEDING_UNITS: i32 = 30;

/// Whether a code unit is the first half of a pair.
pub open spec fn is_high_surrogate(unit: u16) -> bool {
    0xd800 <= unit < 0xdc00
}

/// Whether a code unit is the second half of a pair.
pub open spec fn is_low_surrogate(unit: u16) -> bool {
    0xdc00 <= unit < 0xe000
}

/// The text of UTF-16 code units. A half of a pair that stands alone is replaced
/// by the replacement character.
pub open spec fn decode_utf16_lossy(units: Seq<u16>) -> Seq<char>
    decreases units.len(),
{
    if units.len() == 0 {
        Seq::empty()
    } else {
        let first = units[0];
        if is_high_surrogate(first) && units.len() > 1 && is_low_surrogate(units[1]) {
            seq![pair_char(first, units[1])] + decode_utf16_lossy(units.skip(2))
        } else {
            seq![single_char(first)] + decode_utf16_lossy(units.skip(1))
        }
    }
}

/// The character of a pair.
pub open spec fn pair_char(high: u16, low: u16) -> char {
    (0x10000 + (high - 0xd800) * 0x400 + (low - 0xdc00)) as char
}

/// The character of a code unit that stands alone.
pub open spec fn single_char(unit: u16) -> char {
    if is_high_surrogate(unit) || is_low_surrogate(unit) {
        '\u{fffd}'
    } else {
        unit as char
    }
}

fn scalar_char(value: u32) -> (c: char)
    requires
        value < 0xd800 || 0xe000 <= value <= 0x10ffff,
    ensures
        c == value as char,
{
    match char::from_u32(value) {
        Some(c) => {
            proof {
                vstd::utf8::char_u32_cast(c, value);
            }
            c
        },
        None => '\u{fffd}',
    }
}

/// Decodes UTF-16 code units, replacing halves of pairs that stand alone.
pub fn text_from_utf16(units: &[u16]) -> (text: String)
    ensures
        text@ == decode_utf16_lossy(units@),
{
    let mut text = String::new();
    let mut i: usize = 0;
    assert(units@.skip(0) =~= units@);
    while i < units.len()
        invariant
            i <= units.len(),
            text@ + decode_utf16_lossy(units@.skip(i as int)) == decode_utf16_lossy(units@),
        decreases units.len() - i,
    {
        let first: u16 = units[i];
        let ghost rest = units@.skip(i as int);
        let ghost before = text@;
        if 0xd800 <= first && first < 0xdc00 && i + 1 < units.len() && 0xdc00 <= units[i + 1]
            && units[i + 1] < 0xe000 {
            let second: u16 = units[i + 1];
            let c = scalar_char(
                0x10000 + (first - 0xd800) as u32 * 0x400 + (second - 0xdc00) as u32,
            );
            text.push(c);
            i = i + 2;
            proof {
                assert(rest.skip(2) =~= units@.skip(i as int));
                assert(text@ =~= before + seq![c]);
                assert(text@ + decode_utf16_lossy(rest.skip(2)) =~= before + (seq![c]
                    + decode_utf16_lossy(rest.skip(2))));
            }
        } else {
            let c = if 0xd800 <= first && first < 0xe000 {
                '\u{fffd}'
            } else {
                scalar_char(first as u32)
            };
            text.push(c);
            i = i + 1;
            proof {
                assert(rest.skip(1) =~= units@.skip(i as int));
                assert(text@ =~= before + seq![c]);
                assert(text@ + decode_utf16_lossy(rest.skip(1)) =~= before + (seq![c]
                    + decode_utf16_lossy(rest.skip(1))));
            }
        }
    }
    assert(units@.skip(i as int) =~= Seq::empty());
    assert(text@ + Seq::empty() =~= text@);
    text
}

proof fn decoding_starts_with_the_first(c: char, rest: Seq<u16>)
    ensures
        decode_utf16_lossy(utf16_of(c) + rest) == seq![c] + decode_utf16_lossy(rest),
{
    let units = utf16_of(c) + rest;
    let value = c as u32;
    vstd::utf8::char_is_scalar(c);
    if value < 0x10000 {
        assert(units.skip(1) =~= rest);
        assert(value as u16 as char == c) by {
            vstd::utf8::char_u32_cast(c, value);
        }
    } else {
        assert(units.skip(2) =~= rest);
        let offset = (value - 0x10000) as u32;
        let high = (0xd800 + offset / 0x400) as u16;
        let low = (0xdc00 + offset % 0x400) as u16;
        assert(units[0] == high && units[1] == low);
        assert((high - 0xd800) * 0x400 + (low - 0xdc00) == offset);
        vstd::utf8::char_u32_cast(c, value);
        assert(pair_char(high, low) == c);
    }
}

/// A text that was encoded in UTF-16 comes back whole.
pub proof fn decoding_undoes_encoding(chars: Seq<char>)
    ensures
        decode_utf16_lossy(encode_utf16(chars)) == chars,
    decreases chars.len(),
{
    if chars.len() > 0 {
        let first = seq![chars[0]];
        let rest = chars.drop_first();
        decoding_undoes_encoding(rest);
        assert(chars =~= first + rest);
        crate::text::encode_utf16_of_concat(first, rest);
        assert(first.drop_last() =~= Seq::empty());
        assert(encode_utf16(first) =~= utf16_of(chars[0])) by {
            reveal_with_fuel(encode_utf16, 2);
        }
        decoding_starts_with_the_first(chars[0], encode_utf16(rest));
    }
}

/// Finding the context that a context stands in for: what is waited for. Objects
/// of the host are known by their handles.
#[derive(Clone, Copy, Debug, PartialEq, Eq, Structural)]
pub enum ParentSearch {
    FindingDocument,
    FindingTop { document: u64 },
    ReadingStatus { document: u64, top: u64 },
    FindingCompartments { document: u64 },
    FindingCompartment { document: u64, compartments: u64 },
    ReadingParent { document: u64, compartment: u64 },
    CastingParent { document: u64, value: u64 },
    FindingParentDocument { document: u64, unknown: u64 },
    FindingParentTop { document: u64 },
}

/// Outside work of the search.
#[derive(Clone, Copy, Debug, PartialEq, Eq, Structural)]
pub enum ParentEffect {
    DocumentOfContext(u64),
    TopOfDocument(u64),
    StatusOfContext(u64),
    CompartmentsOfDocument(u64),
    ParentCompartment(u64),
    ValueOfCompartment(u64),
    ObjectInValue(u64),
    DocumentOfObject(u64),
}

/// What came of it.
#[derive(Clone, Copy, Debug, PartialEq, Eq, Structural)]
pub enum ParentReply {
    Object(u64),
    /// The static flags of a context.
    Status(u32),
    Failed,
}

/// What the search comes to: the handle of a context.
#[derive(Clone, Copy, Debug, PartialEq, Eq, Structural)]
pub enum ParentNext {
    Waiting(ParentSearch),
    Found(u64),
}

/// Whether a context stands in for another one.
pub open spec fn is_transitory(flags: u32) -> bool {
    flags & TS_SS_TRANSITORY == TS_SS_TRANSITORY
}

impl ParentSearch {
    /// The outside work that is waited for, in a search from `context`.
    pub open spec fn awaited(self, context: u64) -> ParentEffect {
        match self {
            ParentSearch::FindingDocument => ParentEffect::DocumentOfContext(context),
            ParentSearch::FindingTop { document } => ParentEffect::TopOfDocument(document),
            ParentSearch::ReadingStatus { top, .. } => ParentEffect::StatusOfContext(top),
            ParentSearch::FindingCompartments { document } => {
                ParentEffect::CompartmentsOfDocument(document)
            },
            ParentSearch::FindingCompartment { compartments, .. } => {
                ParentEffect::ParentCompartment(compartments)
            },
            ParentSearch::ReadingParent { compartment, .. } => {
                ParentEffect::ValueOfCompartment(compartment)
            },
            ParentSearch::CastingParent { value, .. } => ParentEffect::ObjectInValue(value),
            ParentSearch::FindingParentDocument { unknown, .. } => {
                ParentEffect::DocumentOfObject(unknown)
            },
            ParentSearch::FindingParentTop { document } => ParentEffect::TopOfDocument(document),
        }
    }

    /// Goes on after a reply. Where no parent document can be found the document
    /// itself is taken, and where no document can be found the context itself.
    pub open spec fn resumed(self, context: u64, reply: ParentReply) -> ParentNext {
        match self {
            ParentSearch::FindingDocument => match reply {
                ParentReply::Object(document) => ParentNext::Waiting(
                    ParentSearch::FindingTop { document },
                ),
                _ => ParentNext::Found(context),
            },
            ParentSearch::FindingTop { document } => match reply {
                ParentReply::Object(top) => ParentNext::Waiting(
                    ParentSearch::ReadingStatus { document, top },
                ),
                _ => top_of(document),
            },
            ParentSearch::ReadingStatus { document, .. } => match reply {
                ParentReply::Status(flags) => if is_transitory(flags) {
                    ParentNext::Waiting(ParentSearch::FindingCompartments { document })
                } else {
                    top_of(document)
                },
                _ => top_of(document),
            },
            ParentSearch::FindingCompartments { document } => match reply {
                ParentReply::Object(compartments) => ParentNext::Waiting(
                    ParentSearch::FindingCompartment { document, compartments },
                ),
                _ => top_of(document),
            },
            ParentSearch::FindingCompartment { document, .. } => match reply {
                ParentReply::Object(compartment) => ParentNext::Waiting(
                    ParentSearch::ReadingParent { document, compartment },
                ),
                _ => top_of(document),
            },
            ParentSearch::ReadingParent { document, .. } => match reply {
                ParentReply::Object(value) => ParentNext::Waiting(
                    ParentSearch::CastingParent { document, value },
                ),
                _ => top_of(document),
            },
            ParentSearch::CastingParent { document, .. } => match reply {
                ParentReply::Object(unknown) => ParentNext::Waiting(
                    ParentSearch::FindingParentDocument { document, unknown },
                ),
                _ => top_of(document),
            },
            ParentSearch::FindingParentDocument { document, .. } => match reply {
                ParentReply::Object(parent) => top_of(parent),
                _ => top_of(document),
            },
            ParentSearch::FindingParentTop { .. } => match reply {
                ParentReply::Object(top) => ParentNext::Found(top),
                _ => ParentNext::Found(context),
            },
        }
    }

    /// Returns the outside work that is waited for, in a search from `context`.
    pub fn effect(&self, context: u64) -> (effect: ParentEffect)
        ensures
            effect == self.awaited(context),
    {
        match *self {
            ParentSearch::FindingDocument => ParentEffect::DocumentOfContext(context),
            ParentSearch::FindingTop { document } => ParentEffect::TopOfDocument(document),
            ParentSearch::ReadingStatus { top, .. } => ParentEffect::StatusOfContext(top),
            ParentSearch::FindingCompartments { document } => {
                ParentEffect::CompartmentsOfDocument(document)
            },
            ParentSearch::FindingCompartment { compartments, .. } => {
                ParentEffect::ParentCompartment(compartments)
            },
            ParentSearch::ReadingParent { compartment, .. } => {
                ParentEffect::ValueOfCompartment(compartment)
            },
            ParentSearch::CastingParent { value, .. } => ParentEffect::ObjectInValue(value),
            ParentSearch::FindingParentDocument { unknown, .. } => {
                ParentEffect::DocumentOfObject(unknown)
            },
            ParentSearch::FindingParentTop { document } => ParentEffect::TopOfDocument(document),
        }
    }

    /// Goes on after a reply, in a search from `context`.
    pub fn resume(self, context: u64, reply: ParentReply) -> (next: ParentNext)
        ensures
            next == self.resumed(context, reply),
    {
        match self {
            ParentSearch::FindingDocument => match reply {
                ParentReply::Object(document) => ParentNext::Waiting(
                    ParentSearch::FindingTop { document },
                ),
                _ => ParentNext::Found(context),
            },
            ParentSearch::FindingTop { document } => match reply {
                ParentReply::Object(top) => ParentNext::Waiting(
                    ParentSearch::ReadingStatus { document, top },
                ),
                _ => find_top(document),
            },
            ParentSearch::ReadingStatus { document, .. } => match reply {
                ParentReply::Status(flags) => {
                    if flags & TS_SS_TRANSITORY == TS_SS_TRANSITORY {
                        ParentNext::Waiting(ParentSearch::FindingCompartments { document })
                    } else {
                        find_top(document)
                    }
                },
                _ => find_top(document),
            },
            ParentSearch::FindingCompartments { document } => match reply {
                ParentReply::Object(compartments) => ParentNext::Waiting(
                    ParentSearch::FindingCompartment { document, compartments },
                ),
                _ => find_top(document),
            },
            ParentSearch::FindingCompartment { document, .. } => match reply {
                ParentReply::Object(compartment) => ParentNext::Waiting(
                    ParentSearch::ReadingParent { document, compartment },
                ),
                _ => find_top(document),
            },
            ParentSearch::ReadingParent { document, .. } => match reply {
                ParentReply::Object(value) => ParentNext::Waiting(
                    ParentSearch::CastingParent { document, value },
                ),
                _ => find_top(document),
            },
            ParentSearch::CastingParent { document, .. } => match reply {
                ParentReply::Object(unknown) => ParentNext::Waiting(
                    ParentSearch::FindingParentDocument { document, unknown },
                ),
                _ => find_top(document),
            },
            ParentSearch::FindingParentDocument { document, .. } => match reply {
                ParentReply::Object(parent) => find_top(parent),
                _ => find_top(document),
            },
            ParentSearch::FindingParentTop { .. } => match reply {
                ParentReply::Object(top) => ParentNext::Found(top),
                _ => ParentNext::Found(context),
            },
        }
    }
}

/// Goes on to the top context of a document.
pub open spec fn top_of(document: u64) -> ParentNext {
    ParentNext::Waiting(ParentSearch::FindingParentTop { document })
}

fn find_top(document: u64) -> (next: ParentNext)
    ensures
        next == top_of(document),
{
    ParentNext::Waiting(ParentSearch::FindingParentTop { document })
}

/// A context that stands in for no other is used itself: the search asks for no
/// parent unless the context's status says that there is one.
pub proof fn only_transitory_contexts_have_a_parent(
    document: u64,
    top: u64,
    context: u64,
    reply: ParentReply,
)
    requires
        !(reply matches ParentReply::Status(flags) && is_transitory(flags)),
    ensures
        (ParentSearch::ReadingStatus { document, top }).resumed(context, reply) == top_of(document),
{
}

/// What is done to the selection of a context to reach the text in front of the
/// composition: from its start, so many code units back, less the composition.
pub open spec fn preceding_script(composition_utf16_count: nat) -> Seq<RangeOp<Seq<u16>>> {
    seq![
        RangeOp::CollapseToStart,
        RangeOp::MoveStart((0 - PRECEDING_UNITS) as i32),
        RangeOp::MoveEnd((0 - capped(composition_utf16_count)) as i32),
    ]
}

/// Returns what is done to the selection to reach the text in front of the
/// composition.
pub fn preceding_range(composition_utf16_count: usize) -> (ops: Vec<RangeOp>)
    ensures
        ops_view(ops@) == preceding_script(composition_utf16_count as nat),
{
    let start: i32 = 0 - PRECEDING_UNITS;
    let end: i32 = 0 - cap(composition_utf16_count);
    let ops: Vec<RangeOp> = vec![
        RangeOp::CollapseToStart,
        RangeOp::MoveStart(start),
        RangeOp::MoveEnd(end),
    ];
    assert(ops_view(ops@) =~= preceding_script(
        composition_utf16_count as nat,
    ));
    ops
}

/// The context for the server: the text in front of the composition, and behind
/// it what is about to be committed. Without a selection there is no text in
/// front.
pub open spec fn server_context(
    preceding: Option<Seq<u16>>,
    committed_text: Seq<char>,
) -> Seq<char> {
    match preceding {
        Some(units) => decode_utf16_lossy(units) + committed_text,
        None => committed_text,
    }
}

/// Builds the context for the server.
pub fn context_for_server(preceding: Option<&[u16]>, committed_text: &str) -> (context: String)
    ensures
        context@ == server_context(
            match preceding {
                Some(units) => Some(units@),
                None => None,
            },
            committed_text@,
        ),
{
    match preceding {
        Some(units) => {
            let mut context = text_from_utf16(units);
            context.append(committed_text);
            context
        },
        None => committed_text.to_owned(),
    }
}

/// The context for the server being updated: what is waited for.
#[derive(Debug)]
pub enum ContextStage<T = String> {
    Searching(ParentSearch),
    /// Read the text in front of the composition in this context.
    Reading { parent: u64 },
    FindingServer { context: T },
    Sending { context: T },
}

impl View for ContextStage<String> {
    type V = ContextStage<Seq<char>>;

    open spec fn view(&self) -> ContextStage<Seq<char>> {
        match self {
            ContextStage::Searching(search) => ContextStage::Searching(*search),
            ContextStage::Reading { parent } => ContextStage::Reading { parent: *parent },
            ContextStage::FindingServer { context } => ContextStage::FindingServer {
                context: context@,
            },
            ContextStage::Sending { context } => ContextStage::Sending { context: context@ },
        }
    }
}

/// What came of outside work on the context for the server.
#[derive(Debug)]
pub enum ContextReply {
    Parent(ParentReply),
    /// The text in front of the composition, or none without a selection.
    Preceding(Option<Vec<u16>>),
    Ipc(bool),
    Done,
    Failed,
}

/// The context for the server being updated: the client id, the context that the
/// search begins from, how long the composition is, what is about to be committed,
/// and what is waited for.
#[derive(Debug)]
pub struct ContextUpdate<T = String> {
    pub tid: u32,
    pub from: u64,
    pub composition_utf16_count: usize,
    pub committed_text: T,
    pub stage: ContextStage<T>,
}

impl View for ContextUpdate<String> {
    type V = ContextUpdate<Seq<char>>;

    open spec fn view(&self) -> ContextUpdate<Seq<char>> {
        ContextUpdate {
            tid: self.tid,
            from: self.from,
            composition_utf16_count: self.composition_utf16_count,
            committed_text: self.committed_text@,
            stage: self.stage@,
        }
    }
}

/// What updating the context comes to. A failure is only reported: the server
/// converts with an older context.
#[derive(Debug)]
pub enum ContextNext<T = String> {
    Waiting(ContextUpdate<T>),
    Finished { failed: bool },
}

impl View for ContextNext<String> {
    type V = ContextNext<Seq<char>>;

    open spec fn view(&self) -> ContextNext<Seq<char>> {
        match self {
            ContextNext::Waiting(update) => ContextNext::Waiting(update@),
            ContextNext::Finished { failed } => ContextNext::Finished { failed: *failed },
        }
    }
}

/// Outside work on the context for the server.
#[derive(Debug)]
pub enum ContextEffect {
    Parent(ParentEffect),
    /// Read the text of a context, in a range moved from its selection.
    ReadPreceding { tid: u32, parent: u64, ops: Vec<RangeOp> },
    SnapshotIpc,
    SetContext(String),
}

/// The contents of a `ContextEffect`.
#[verifier::ext_equal]
pub enum ContextEffectView {
    Parent(ParentEffect),
    ReadPreceding { tid: u32, parent: u64, ops: Seq<RangeOp<Seq<u16>>> },
    SnapshotIpc,
    SetContext(Seq<char>),
}

impl View for ContextEffect {
    type V = ContextEffectView;

    open spec fn view(&self) -> ContextEffectView {
        match self {
            ContextEffect::Parent(effect) => ContextEffectView::Parent(*effect),
            ContextEffect::ReadPreceding { tid, parent, ops } => {
                ContextEffectView::ReadPreceding { tid: *tid, parent: *parent, ops: ops_view(ops@) }
            },
            ContextEffect::SnapshotIpc => ContextEffectView::SnapshotIpc,
            ContextEffect::SetContext(context) => ContextEffectView::SetContext(context@),
        }
    }
}

/// A text in front of the composition, as code units.
pub open spec fn units_view(preceding: Option<Vec<u16>>) -> Option<Seq<u16>> {
    match preceding {
        Some(units) => Some(units@),
        None => None,
    }
}

impl ContextUpdate<Seq<char>> {
    /// This update, waiting for something else.
    pub open spec fn at(self, stage: ContextStage<Seq<char>>) -> ContextNext<Seq<char>> {
        ContextNext::Waiting(ContextUpdate { stage, ..self })
    }

    /// The outside work that is waited for.
    pub open spec fn awaited(self) -> ContextEffectView {
        match self.stage {
            ContextStage::Searching(search) => ContextEffectView::Parent(search.awaited(self.from)),
            ContextStage::Reading { parent } => ContextEffectView::ReadPreceding {
                tid: self.tid,
                parent,
                ops: preceding_script(self.composition_utf16_count as nat),
            },
            ContextStage::FindingServer { .. } => ContextEffectView::SnapshotIpc,
            ContextStage::Sending { context } => ContextEffectView::SetContext(context),
        }
    }

    /// Goes on updating the context for the server after a reply.
    pub open spec fn resumed(self, reply: ContextReply) -> ContextNext<Seq<char>> {
        match (self.stage, reply) {
            (ContextStage::Searching(search), ContextReply::Parent(reply)) => {
                match search.resumed(self.from, reply) {
                    ParentNext::Waiting(search) => self.at(ContextStage::Searching(search)),
                    ParentNext::Found(parent) => self.at(ContextStage::Reading { parent }),
                }
            },
            (ContextStage::Reading { .. }, ContextReply::Preceding(preceding)) => self.at(
                ContextStage::FindingServer {
                    context: server_context(units_view(preceding), self.committed_text),
                },
            ),
            (ContextStage::FindingServer { context }, ContextReply::Ipc(available)) => {
                if available {
                    self.at(ContextStage::Sending { context })
                } else {
                    ContextNext::Finished { failed: false }
                }
            },
            (ContextStage::Sending { .. }, ContextReply::Done) => ContextNext::Finished {
                failed: false,
            },
            _ => ContextNext::Finished { failed: true },
        }
    }
}

impl ContextUpdate<String> {
    /// Returns the outside work that is waited for.
    pub fn effect(&self) -> (effect: ContextEffect)
        ensures
            effect@ == self@.awaited(),
    {
        match &self.stage {
            ContextStage::Searching(search) => ContextEffect::Parent(search.effect(self.from)),
            ContextStage::Reading { parent } => ContextEffect::ReadPreceding {
                tid: self.tid,
                parent: *parent,
                ops: preceding_range(self.composition_utf16_count),
            },
            ContextStage::FindingServer { .. } => ContextEffect::SnapshotIpc,
            ContextStage::Sending { context } => ContextEffect::SetContext(
                context.as_str().to_owned(),
            ),
        }
    }

    /// Goes on updating the context for the server after a reply.
    pub fn resume(self, reply: ContextReply) -> (next: ContextNext)
        ensures
            next@ == self@.resumed(reply),
    {
        let mut update = self;
        update.stage = match (update.stage, reply) {
            (ContextStage::Searching(search), ContextReply::Parent(reply)) => {
                match search.resume(update.from, reply) {
                    ParentNext::Waiting(search) => ContextStage::Searching(search),
                    ParentNext::Found(parent) => ContextStage::Reading { parent },
                }
            },
            (ContextStage::Reading { .. }, ContextReply::Preceding(preceding)) => {
                let committed = update.committed_text.as_str();
                ContextStage::FindingServer {
                    context: match preceding {
                        Some(units) => context_for_server(Some(units.as_slice()), committed),
                        None => context_for_server(None, committed),
                    },
                }
            },
            (ContextStage::FindingServer { context }, ContextReply::Ipc(available)) => {
                if !available {
                    return ContextNext::Finished { failed: false };
                }
                ContextStage::Sending { context }
            },
            (ContextStage::Sending { .. }, ContextReply::Done) => {
                return ContextNext::Finished { failed: false };
            },
            _ => {
                return ContextNext::Finished { failed: true };
            },
        };
        ContextNext::Waiting(update)
    }
}

/// The server is told what stands in front of the composition followed by what
/// is about to be committed, as it was read.
pub proof fn the_server_sees_the_text_in_front(
    update: ContextUpdate<Seq<char>>,
    preceding: Seq<char>,
    reply: ContextReply,
)
    requires
        update.stage is Reading,
        reply matches ContextReply::Preceding(Some(units)) && units@ == encode_utf16(preceding),
    ensures
        update.resumed(reply) == update.at(
            ContextStage::FindingServer { context: preceding + update.committed_text },
        ),
{
    decoding_undoes_encoding(preceding);
}

/// The contexts that the server is told while an update goes on over replies.
pub open spec fn contexts_sent(
    next: ContextNext<Seq<char>>,
    replies: Seq<ContextReply>,
) -> Seq<Seq<char>>
    decreases replies.len(),
{
    match next {
        ContextNext::Waiting(update) if replies.len() > 0 => {
            let later = contexts_sent(update.resumed(replies[0]), replies.drop_first());
            match update.awaited() {
                ContextEffectView::SetContext(context) => seq![context] + later,
                _ => later,
            }
        },
        _ => Seq::empty(),
    }
}

/// Whether the text in front of the composition was read, and with what was about
/// to be committed gives this context.
pub open spec fn was_read(
    context: Seq<char>,
    committed_text: Seq<char>,
    replies: Seq<ContextReply>,
) -> bool {
    exists|i: int|
        0 <= i < replies.len() && (#[trigger] replies[i] matches ContextReply::Preceding(preceding)
            && context == server_context(units_view(preceding), committed_text))
}

proof fn a_context_is_sent_once(update: ContextUpdate<Seq<char>>, replies: Seq<ContextReply>)
    ensures
        ({
            let sent = contexts_sent(ContextNext::Waiting(update), replies);
            &&& sent.len() <= 1
            &&& match update.stage {
                ContextStage::FindingServer { context } | ContextStage::Sending { context } => {
                    sent.len() == 1 ==> sent[0] == context
                },
                _ => sent.len() == 1 ==> was_read(sent[0], update.committed_text, replies),
            }
        }),
    decreases replies.len(),
{
    if replies.len() > 0 {
        let rest = replies.drop_first();
        let next = update.resumed(replies[0]);
        assert(next is Finished ==> contexts_sent(next, rest) == Seq::<Seq<char>>::empty());
        if let ContextNext::Waiting(following) = next {
            a_context_is_sent_once(following, rest);
            let sent = contexts_sent(next, rest);
            if sent.len() == 1 && !(update.stage is FindingServer) {
                if update.stage is Reading {
                    assert(replies[0] is Preceding);
                    assert(was_read(sent[0], update.committed_text, replies));
                } else {
                    let i = choose|i: int|
                        0 <= i < rest.len() && (#[trigger] rest[i] matches ContextReply::Preceding(
                            preceding,
                        ) && sent[0] == server_context(
                            units_view(preceding),
                            update.committed_text,
                        ));
                    assert(replies[i + 1] == rest[i]);
                }
            }
        }
    }
}

/// An update tells the server one context at most, whatever replies come: the text
/// in front of the composition as it was read, followed by what is about to be
/// committed. Nothing is told where that text could not be read or where there is
/// no connection.
pub proof fn one_context_is_sent_at_most(
    update: ContextUpdate<Seq<char>>,
    replies: Seq<ContextReply>,
)
    requires
        update.stage is Searching,
    ensures
        ({
            let sent = contexts_sent(ContextNext::Waiting(update), replies);
            &&& sent.len() <= 1
            &&& sent.len() == 1 ==> was_read(sent[0], update.committed_text, replies)
            &&& sent.len() == 1 ==> replies.contains(ContextReply::Ipc(true))
        }),
{
    a_context_is_sent_once(update, replies);
    a_context_needs_a_connection(update, replies);
}

/// Once the text in front of the composition was read, and where there is a
/// connection, the server is told the context exactly once, whatever it answers.
/// Without a connection it is told nothing, and the update has not failed.
pub proof fn a_context_that_was_read_is_sent(
    update: ContextUpdate<Seq<char>>,
    read: ContextReply,
    connected: bool,
    answer: ContextReply,
)
    requires
        update.stage is Reading,
        read is Preceding,
    ensures
        ({
            let context = server_context(
                units_view(read->Preceding_0),
                update.committed_text,
            );
            let replies = seq![read, ContextReply::Ipc(connected), answer];
            let sent = contexts_sent(ContextNext::Waiting(update), replies);
            if connected {
                sent == seq![context]
            } else {
                &&& sent == Seq::<Seq<char>>::empty()
                &&& update.resumed(read) matches ContextNext::Waiting(found)
                &&& found.resumed(replies[1]) == ContextNext::<Seq<char>>::Finished {
                    failed: false,
                }
            }
        }),
{
    reveal_with_fuel(contexts_sent, 4);
    let replies = seq![read, ContextReply::Ipc(connected), answer];
    assert(replies.drop_first()[0] == ContextReply::Ipc(connected));
    assert(replies.drop_first().drop_first()[0] == answer);
    assert(replies.drop_first().drop_first().drop_first().len() == 0);
}

proof fn a_context_needs_a_connection(update: ContextUpdate<Seq<char>>, replies: Seq<ContextReply>)
    requires
        !(update.stage is Sending),
    ensures
        contexts_sent(ContextNext::Waiting(update), replies).len() > 0 ==> replies.contains(
            ContextReply::Ipc(true),
        ),
    decreases replies.len(),
{
    if replies.len() > 0 {
        let rest = replies.drop_first();
        let next = update.resumed(replies[0]);
        assert(next is Finished ==> contexts_sent(next, rest) == Seq::<Seq<char>>::empty());
        if let ContextNext::Waiting(following) = next {
            if following.stage is Sending {
                assert(replies[0] == ContextReply::Ipc(true));
            } else {
                a_context_needs_a_connection(following, rest);
                if rest.contains(ContextReply::Ipc(true)) {
                    let i = choose|i: int| 0 <= i < rest.len() && rest[i] == ContextReply::Ipc(true);
                    assert(replies[i + 1] == rest[i]);
                }
            }
        }
    }
}

impl TextServiceFactory {
    /// Begins to update the context for the server. Without a context of the host
    /// the update has failed at once, which is only reported.
    pub fn update_context(&self, composition_utf16_count: usize, committed_text: &str) -> (next:
        ContextNext)
        ensures
            next@ == match self@.context {
                Some(from) => ContextNext::Waiting(
                    ContextUpdate {
                        tid: self@.tid,
                        from,
                        composition_utf16_count,
                        committed_text: committed_text@,
                        stage: ContextStage::Searching(ParentSearch::FindingDocument),
                    },
                ),
                None => ContextNext::Finished { failed: true },
            },
    {
        match self.text_service.context() {
            Ok(from) => ContextNext::Waiting(
                ContextUpdate {
                    tid: self.text_service.tid,
                    from,
                    composition_utf16_count,
                    committed_text: committed_text.to_owned(),
                    stage: ContextStage::Searching(ParentSearch::FindingDocument),
                },
            ),
            Err(_) => ContextNext::Finished { failed: true },
        }
    }
}

/// A half of a pair that stands alone is replaced, and what follows it is read as if
/// it stood alone; a code unit that is no half is its own character.
pub proof fn a_lone_half_is_replaced(unit: u16, rest: Seq<u16>)
    ensures
        0xdc00 <= unit < 0xe000 ==> decode_utf16_lossy(seq![unit] + rest) == seq!['\u{fffd}']
            + decode_utf16_lossy(rest),
        0xd800 <= unit < 0xdc00 && (rest.len() == 0 || !(0xdc00 <= rest[0] < 0xe000))
            ==> decode_utf16_lossy(seq![unit] + rest) == seq!['\u{fffd}'] + decode_utf16_lossy(
            rest,
        ),
        unit < 0xd800 || 0xe000 <= unit ==> decode_utf16_lossy(seq![unit] + rest) == seq![
            unit as char,
        ] + decode_utf16_lossy(rest),
{
    assert((seq![unit] + rest).skip(1) =~= rest);
}

/// The context behind one that stands in for it is found through the document: the
/// parent that its compartment names, and of that the top context.
pub proof fn a_parent_is_found_through_its_document(
    context: u64,
    document: u64,
    top: u64,
    flags: u32,
    compartments: u64,
    compartment: u64,
    value: u64,
    unknown: u64,
    parent: u64,
    parent_top: u64,
)
    requires
        flags & 4 == 4,
    ensures
        ({
            let found = |object: u64| ParentReply::Object(object);
            let search_1 = ParentSearch::FindingDocument;
            let search_2 = search_1.resumed(context, found(document))->Waiting_0;
            let search_3 = search_2.resumed(context, found(top))->Waiting_0;
            let search_4 = search_3.resumed(context, ParentReply::Status(flags))->Waiting_0;
            let search_5 = search_4.resumed(context, found(compartments))->Waiting_0;
            let search_6 = search_5.resumed(context, found(compartment))->Waiting_0;
            let search_7 = search_6.resumed(context, found(value))->Waiting_0;
            let search_8 = search_7.resumed(context, found(unknown))->Waiting_0;
            let search_9 = search_8.resumed(context, found(parent))->Waiting_0;
            &&& search_1.awaited(context) == ParentEffect::DocumentOfContext(context)
            &&& search_2.awaited(context) == ParentEffect::TopOfDocument(document)
            &&& search_3.awaited(context) == ParentEffect::StatusOfContext(top)
            &&& search_4.awaited(context) == ParentEffect::CompartmentsOfDocument(document)
            &&& search_5.awaited(context) == ParentEffect::ParentCompartment(compartments)
            &&& search_6.awaited(context) == ParentEffect::ValueOfCompartment(compartment)
            &&& search_7.awaited(context) == ParentEffect::ObjectInValue(value)
            &&& search_8.awaited(context) == ParentEffect::DocumentOfObject(unknown)
            &&& search_9.awaited(context) == ParentEffect::TopOfDocument(parent)
            &&& search_9.resumed(context, found(parent_top)) == ParentNext::Found(parent_top)
        }),
{
}

/// Where the way to a parent breaks off, the top context of the document itself is
/// taken; without a document, or without its top, the context that the search began
/// from.
pub proof fn a_broken_search_stays_at_its_document(search: ParentSearch, context: u64)
    ensures
        ({
            let next = search.resumed(context, ParentReply::Failed);
            match search {
                ParentSearch::FindingDocument => next == ParentNext::Found(context),
                ParentSearch::FindingParentTop { .. } => next == ParentNext::Found(context),
                ParentSearch::FindingTop { document }
                | ParentSearch::ReadingStatus { document, .. }
                | ParentSearch::FindingCompartments { document }
                | ParentSearch::FindingCompartment { document, .. }
                | ParentSearch::ReadingParent { document, .. }
                | ParentSearch::CastingParent { document, .. }
                | ParentSearch::FindingParentDocument { document, .. } => next is Waiting
                    && next->Waiting_0 is FindingParentTop && next->Waiting_0.awaited(context)
                    == ParentEffect::TopOfDocument(document),
            }
        }),
{
}

/// Once the context is found its text is read under the id of the service, in front
/// of a composition of the given length. Without a selection only what is about to
/// be committed counts, and what cannot be read ends the update as failed, with
/// nothing told.
pub proof fn the_text_is_read_where_the_search_ends(
    update: ContextUpdate<Seq<char>>,
    document: u64,
    parent: u64,
    nothing: ContextReply,
)
    requires
        update.stage == ContextStage::<Seq<char>>::Searching(
            ParentSearch::FindingParentTop { document },
        ),
        nothing == ContextReply::Preceding(None),
    ensures
        ({
            let found = update.resumed(ContextReply::Parent(ParentReply::Object(parent)));
            let reading = found->Waiting_0;
            let finding = reading.resumed(nothing)->Waiting_0;
            let sending = finding.resumed(ContextReply::Ipc(true))->Waiting_0;
            let failed = ContextNext::<Seq<char>>::Finished { failed: true };
            &&& found is Waiting
            &&& reading.awaited() == (ContextEffectView::ReadPreceding {
                tid: update.tid,
                parent,
                ops: preceding_script(update.composition_utf16_count as nat),
            })
            &&& finding.awaited() == ContextEffectView::SnapshotIpc
            &&& sending.awaited() == ContextEffectView::SetContext(update.committed_text)
            &&& sending.resumed(ContextReply::Done) == (ContextNext::<Seq<char>>::Finished {
                failed: false,
            })
            &&& reading.resumed(ContextReply::Failed) == failed
            &&& sending.resumed(ContextReply::Failed) == failed
        }),
{
}

} // verus!
