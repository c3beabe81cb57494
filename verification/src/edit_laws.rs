//! What a run of each action comes to: which outside work it asks for, in which
//! order, and what it stores once the replies are in.

use vstd::prelude::*;

use crate::action_run::{
    advanced, failed, moved_selection, resumed, script, scripts, sent_text, started_run, ActionError,
    Advanced, LocalsView, Performed, RunNextView, RunView, Step,
};
use crate::actions::{ClientAction, SetSelectionType, SetTextType};
use crate::candidates::CandidatesView;
use crate::composition::{
    displayed_units, ActionProgress, CompositionState, CompositionView,
};
use crate::effects::{EffectView, ReplyView};
use crate::input_mode::InputMode;
use crate::kana::typed_text;

verus! {

/// The first of the candidates is selected by index 0, so a candidate list of this
/// length can be walked by an index.
pub open spec fn can_be_indexed(len: nat) -> bool {
    0 < len <= i32::MAX
}

/// The index after `times` moves down from the first of `len` candidates.
pub open spec fn moved_down(len: nat, times: nat) -> i32
    decreases times,
{
    if times == 0 {
        0
    } else {
        moved_selection(moved_down(len, (times - 1) as nat), SetSelectionType::Down, len)
    }
}

/// Moving down goes on by exactly one candidate and stops at the last one; moving
/// up goes back by exactly one and stops at the first one.
pub proof fn the_selection_moves_by_one(index: i32, len: nat)
    requires
        can_be_indexed(len),
        0 <= index < len,
    ensures
        index < len - 1 ==> moved_selection(index, SetSelectionType::Down, len) == index + 1,
        index == len - 1 ==> moved_selection(index, SetSelectionType::Down, len) == index,
        index > 0 ==> moved_selection(index, SetSelectionType::Up, len) == index - 1,
        index == 0 ==> moved_selection(index, SetSelectionType::Up, len) == 0,
{
}

/// Between the first and the last candidate, a move up undoes a move down, and a
/// move down undoes a move up.
pub proof fn opposite_moves_cancel(index: i32, len: nat)
    requires
        can_be_indexed(len),
        0 <= index < len,
    ensures
        index < len - 1 ==> moved_selection(
            moved_selection(index, SetSelectionType::Down, len),
            SetSelectionType::Up,
            len,
        ) == index,
        index > 0 ==> moved_selection(
            moved_selection(index, SetSelectionType::Up, len),
            SetSelectionType::Down,
            len,
        ) == index,
{
}

/// Every candidate is reached from the first one by moving down as often as there
/// are candidates before it.
pub proof fn every_candidate_is_reached(len: nat, place: nat)
    requires
        can_be_indexed(len),
        place < len,
    ensures
        moved_down(len, place) == place,
    decreases place,
{
    if place > 0 {
        every_candidate_is_reached(len, (place - 1) as nat);
    }
}

/// A number selects the candidate at that index, and the nearest one where there
/// is none. Whatever the move, the selection stays within the candidates.
pub proof fn the_selection_stays_within(index: i32, selection: SetSelectionType, len: nat)
    requires
        can_be_indexed(len),
        index < i32::MAX,
    ensures
        0 <= moved_selection(index, SetSelectionType::Up, len),
        moved_selection(index, SetSelectionType::Down, len) < len,
        selection matches SetSelectionType::Number(number) ==> {
            let moved = moved_selection(index, selection, len);
            &&& 0 <= moved < len
            &&& 0 <= number < len ==> moved == number
            &&& number < 0 ==> moved == 0
            &&& number >= len ==> moved == len - 1
        },
        0 <= index < len ==> 0 <= moved_selection(index, selection, len) < len,
{
}

/// A run of one action, up to its first outside work.
#[verifier::opaque]
pub open spec fn begun(
    composition: CompositionView,
    mode: InputMode,
    ipc: bool,
    action: ClientAction<Seq<char>>,
    transition: CompositionState,
) -> Advanced {
    let run = started_run(composition, mode, ipc, seq![action], transition);
    advanced(run.locals, run.steps, composition)
}

/// The run after a reply, with the composition as it is by then.
#[verifier::opaque]
pub open spec fn followed(
    after: Advanced,
    reply: ReplyView,
    composition: CompositionView,
) -> Advanced {
    resumed(after.run, reply, composition)
}

/// The run has ended, and stored a composition of the next generation in the same
/// range of the host, in the given state.
pub open spec fn has_stored(
    after: Advanced,
    before: CompositionView,
    state: CompositionState,
) -> bool {
    &&& after.next == RunNextView::Finished(Ok(()))
    &&& after.composition.state == state
    &&& after.composition.tip_composition == before.tip_composition
    &&& after.composition.generation == if before.generation == u64::MAX {
        0
    } else {
        before.generation + 1
    }
}

/// The run asks for `effect`, and the composition is as it was.
pub open spec fn asks_for(after: Advanced, before: CompositionView, effect: EffectView) -> bool {
    &&& after.next == RunNextView::Perform(effect)
    &&& after.composition == before
}

#[verifier::opaque]
spec fn ran(
    locals: LocalsView,
    steps: Seq<Step<Seq<char>>>,
    composition: CompositionView,
) -> Advanced {
    advanced(locals, steps, composition)
}

spec fn waiting(
    locals: LocalsView,
    step: Step<Seq<char>>,
    rest: Seq<Step<Seq<char>>>,
    composition: CompositionView,
    effect: EffectView,
) -> Advanced {
    Advanced {
        run: RunView { locals, steps: seq![step] + rest },
        composition,
        next: RunNextView::Perform(effect),
    }
}

spec fn first_locals(
    composition: CompositionView,
    mode: InputMode,
    ipc: bool,
    transition: CompositionState,
) -> LocalsView {
    LocalsView {
        snapshot: CompositionView { state: transition, ..composition },
        mode,
        ipc,
        progress: ActionProgress {
            started_composition: false,
            visible_or_committed_effect: false,
            must_eat_on_failure: false,
        },
        mode_changed: false,
    }
}

proof fn beginning(
    composition: CompositionView,
    mode: InputMode,
    ipc: bool,
    action: ClientAction<Seq<char>>,
    transition: CompositionState,
    steps: Seq<Step<Seq<char>>>,
)
    requires
        steps == script(action).push(Step::WriteBack),
    ensures
        begun(composition, mode, ipc, action, transition) == ran(
            first_locals(composition, mode, ipc, transition),
            steps,
            composition,
        ),
{
    reveal(begun);
    reveal(ran);
    reveal_with_fuel(scripts, 2);
    assert(seq![action].drop_last() =~= Seq::empty());
    assert(seq![action].last() == action);
    assert(scripts(seq![action]) =~= script(action));
}

proof fn awaiting(
    locals: LocalsView,
    step: Step<Seq<char>>,
    rest: Seq<Step<Seq<char>>>,
    composition: CompositionView,
    effect: EffectView,
)
    requires
        locals.perform(step, composition) == Performed::Await(effect),
    ensures
        ran(locals, seq![step] + rest, composition) == waiting(
            locals,
            step,
            rest,
            composition,
            effect,
        ),
{
    reveal(ran);
    let steps = seq![step] + rest;
    assert(steps[0] == step);
}

proof fn passing(
    locals: LocalsView,
    step: Step<Seq<char>>,
    rest: Seq<Step<Seq<char>>>,
    composition: CompositionView,
    next: LocalsView,
)
    requires
        locals.perform(step, composition) == Performed::Pass(next),
    ensures
        ran(locals, seq![step] + rest, composition) == ran(next, rest, composition),
{
    reveal(ran);
    let steps = seq![step] + rest;
    assert(steps[0] == step);
    assert(steps.drop_first() =~= rest);
}

proof fn failing(
    locals: LocalsView,
    step: Step<Seq<char>>,
    rest: Seq<Step<Seq<char>>>,
    composition: CompositionView,
    error: ActionError,
)
    requires
        locals.perform(step, composition) == Performed::Fail(error),
    ensures
        ran(locals, seq![step] + rest, composition) == failed(locals, composition, error),
{
    reveal(ran);
    let steps = seq![step] + rest;
    assert(steps[0] == step);
}

proof fn storing(locals: LocalsView, composition: CompositionView)
    requires
        locals.snapshot.generation == composition.generation,
    ensures
        ran(locals, seq![Step::WriteBack], composition) == (Advanced {
            run: RunView { locals, steps: Seq::empty() },
            composition: composition.updated_from(locals.snapshot),
            next: RunNextView::Finished(Ok(())),
        }),
{
    reveal(ran);
    reveal_with_fuel(advanced, 2);
    let steps = seq![Step::<Seq<char>>::WriteBack];
    assert(steps[0] is WriteBack);
    assert(steps.drop_first() =~= Seq::empty());
}

proof fn replying(
    locals: LocalsView,
    step: Step<Seq<char>>,
    rest: Seq<Step<Seq<char>>>,
    before: CompositionView,
    effect: EffectView,
    reply: ReplyView,
    composition: CompositionView,
    next: LocalsView,
)
    requires
        locals.accept(step, reply, composition) == Ok::<LocalsView, ActionError>(next),
    ensures
        followed(waiting(locals, step, rest, before, effect), reply, composition) == ran(
            next,
            rest,
            composition,
        ),
{
    reveal(ran);
    reveal(followed);
    let steps = seq![step] + rest;
    assert(steps[0] == step);
    assert(steps.drop_first() =~= rest);
}

/// Backspace asks the server to remove a character, shows the first candidate of
/// its reply, tells the window all of them, and stores that very candidate: its
/// text as the preview, its rest as the suffix and its count as the count. Where
/// the reply has none, nothing is left.
pub proof fn a_removal_takes_the_first_candidate(
    composition: CompositionView,
    mode: InputMode,
    transition: CompositionState,
    candidates: CandidatesView,
)
    ensures
        ({
            let first = begun(composition, mode, true, ClientAction::RemoveText, transition);
            let second = followed(first, ReplyView::Candidates(candidates), composition);
            let third = followed(second, ReplyView::Done, composition);
            let last = followed(third, ReplyView::Done, composition);
            let stored = last.composition;
            &&& asks_for(first, composition, EffectView::RemoveText)
            &&& asks_for(
                second,
                composition,
                EffectView::SetText { text: stored.preview, subtext: stored.suffix },
            )
            &&& asks_for(
                third,
                composition,
                EffectView::SetCandidateState { candidates, selection: 0 },
            )
            &&& has_stored(last, composition, transition)
            &&& candidates.texts.len() > 0 ==> stored.preview == candidates.texts[0]
            &&& candidates.texts.len() == 0 ==> stored.preview.len() == 0
            &&& candidates.sub_texts.len() > 0 ==> stored.suffix == candidates.sub_texts[0]
            &&& candidates.sub_texts.len() == 0 ==> stored.suffix.len() == 0
            &&& candidates.corresponding_count.len() > 0 ==> stored.corresponding_count
                == candidates.corresponding_count[0]
            &&& candidates.corresponding_count.len() == 0 ==> stored.corresponding_count == 0
            &&& stored.raw_input == candidates.raw_input
            &&& stored.raw_hiragana == candidates.hiragana
            &&& stored.candidates == candidates
            &&& stored.selection_index == 0
        }),
{
    let stored = seq![Step::<Seq<char>>::WriteBack];
    let published = seq![Step::<Seq<char>>::Publish] + stored;
    let taken = seq![Step::<Seq<char>>::TakeFirstOrNothing] + published;
    let checked = seq![Step::<Seq<char>>::Recheck] + taken;
    let shown = seq![Step::<Seq<char>>::ShowFirstOrNothing] + checked;
    let steps = seq![Step::<Seq<char>>::Remove] + shown;
    assert(steps =~= script(ClientAction::RemoveText).push(Step::WriteBack));
    beginning(composition, mode, true, ClientAction::RemoveText, transition, steps);
    let locals = first_locals(composition, mode, true, transition);
    awaiting(locals, Step::Remove, shown, composition, EffectView::RemoveText);
    let offering = locals.offering(candidates);
    let reply = ReplyView::Candidates(candidates);
    replying(
        locals,
        Step::Remove,
        shown,
        composition,
        EffectView::RemoveText,
        reply,
        composition,
        offering,
    );
    let showing = offering.perform(Step::ShowFirstOrNothing, composition)->Await_0;
    awaiting(offering, Step::ShowFirstOrNothing, checked, composition, showing);
    let visible = offering.made_visible();
    replying(
        offering,
        Step::ShowFirstOrNothing,
        checked,
        composition,
        showing,
        ReplyView::Done,
        composition,
        visible,
    );
    passing(visible, Step::Recheck, taken, composition, visible);
    let taking = visible.perform(Step::TakeFirstOrNothing, composition)->Pass_0;
    passing(visible, Step::TakeFirstOrNothing, published, composition, taking);
    let publishing = EffectView::SetCandidateState { candidates, selection: 0 };
    awaiting(taking, Step::Publish, stored, composition, publishing);
    replying(
        taking,
        Step::Publish,
        stored,
        composition,
        publishing,
        ReplyView::Done,
        composition,
        taking,
    );
    storing(taking, composition);
}

/// `sent` is what is sent for `text`: in Latin mode the text itself; in kana mode
/// each printable character but the Latin letters in its full-width form.
pub open spec fn is_sent(text: Seq<char>, mode: InputMode, sent: Seq<char>) -> bool {
    &&& sent.len() == text.len()
    &&& forall|i: int|
        0 <= i < text.len() ==> {
            let c = text[i];
            let is_letter = 'a' <= c <= 'z' || 'A' <= c <= 'Z';
            &&& mode == InputMode::Latin || is_letter || c < ' ' || c > '~' ==> #[trigger] sent[i]
                == c
            &&& mode == InputMode::Kana && c == ' ' ==> sent[i] == '\u{3000}'
            &&& mode == InputMode::Kana && !is_letter && '!' <= c <= '~' ==> sent[i] as u32 == c
                as u32 + 0xfee0
        }
}

/// The composition holds no text and no candidates.
pub open spec fn holds_nothing(composition: CompositionView) -> bool {
    &&& composition.preview.len() == 0
    &&& composition.suffix.len() == 0
    &&& composition.raw_input.len() == 0
    &&& composition.raw_hiragana.len() == 0
    &&& composition.corresponding_count == 0
    &&& composition.selection_index == 0
    &&& composition.candidates.texts.len() == 0
    &&& composition.candidates.sub_texts.len() == 0
    &&& composition.candidates.corresponding_count.len() == 0
    &&& composition.candidates.hiragana.len() == 0
    &&& composition.candidates.raw_input.len() == 0
}

/// The composition holds the text and the candidates that it held before.
pub open spec fn keeps_the_text(composition: CompositionView, before: CompositionView) -> bool {
    &&& composition.preview == before.preview
    &&& composition.suffix == before.suffix
    &&& composition.raw_input == before.raw_input
    &&& composition.raw_hiragana == before.raw_hiragana
    &&& composition.corresponding_count == before.corresponding_count
    &&& composition.selection_index == before.selection_index
    &&& composition.candidates == before.candidates
}

/// The run has failed, and the composition is as it was.
pub open spec fn has_failed(after: Advanced, before: CompositionView, error: ActionError) -> bool {
    &&& after.next == RunNextView::Finished(Err(error))
    &&& after.composition == before
}

proof fn sending(text: Seq<char>, mode: InputMode)
    ensures
        is_sent(text, mode, sent_text(text, mode)),
{
}

proof fn abandoning(
    locals: LocalsView,
    rest: Seq<Step<Seq<char>>>,
    composition: CompositionView,
    hide_reply: ReplyView,
    clear_reply: ReplyView,
)
    requires
        locals.ipc,
        locals.snapshot.generation != composition.generation,
    ensures
        ({
            let second = ran(locals, seq![Step::Recheck] + rest, composition);
            let third = followed(second, hide_reply, composition);
            let last = followed(third, clear_reply, composition);
            &&& asks_for(second, composition, EffectView::HideWindow)
            &&& asks_for(third, composition, EffectView::ClearText)
            &&& last.next == RunNextView::Finished(Ok(()))
            &&& last.composition == composition
        }),
{
    let ending = Seq::<Step<Seq<char>>>::empty();
    let clearing = seq![Step::<Seq<char>>::ClearTextQuietly] + ending;
    let hiding = seq![Step::<Seq<char>>::HideWindowQuietly] + clearing;
    assert(ran(locals, seq![Step::Recheck] + rest, composition) == waiting(
        locals,
        Step::HideWindowQuietly,
        clearing,
        composition,
        EffectView::HideWindow,
    )) by {
        reveal(ran);
        let steps = seq![Step::Recheck] + rest;
        assert(steps[0] is Recheck);
        assert(hiding =~= seq![Step::HideWindowQuietly, Step::ClearTextQuietly]);
    }
    replying(
        locals,
        Step::HideWindowQuietly,
        clearing,
        composition,
        EffectView::HideWindow,
        hide_reply,
        composition,
        locals,
    );
    awaiting(locals, Step::ClearTextQuietly, ending, composition, EffectView::ClearText);
    replying(
        locals,
        Step::ClearTextQuietly,
        ending,
        composition,
        EffectView::ClearText,
        clear_reply,
        composition,
        locals,
    );
    assert(ran(locals, ending, composition).next == RunNextView::Finished(Ok(()))
        && ran(locals, ending, composition).composition == composition) by {
        reveal(ran);
    }
}

proof fn typing_takes_a_server(
    composition: CompositionView,
    mode: InputMode,
    transition: CompositionState,
    text: Seq<char>,
)
    ensures
        has_failed(
            begun(composition, mode, false, ClientAction::AppendText(text), transition),
            composition,
            ActionError::IpcMissing,
        ),
{
    let steps_5 = seq![Step::<Seq<char>>::WriteBack];
    let steps_4 = seq![Step::<Seq<char>>::Publish] + steps_5;
    let steps_3 = seq![Step::<Seq<char>>::TakeFirst] + steps_4;
    let steps_2 = seq![Step::<Seq<char>>::Recheck] + steps_3;
    let steps_1 = seq![Step::<Seq<char>>::ShowFirst] + steps_2;
    let steps_0 = seq![Step::<Seq<char>>::Append(text)] + steps_1;
    assert(steps_0 =~= script(ClientAction::AppendText(text)).push(Step::WriteBack));
    beginning(composition, mode, false, ClientAction::AppendText(text), transition, steps_0);
    let locals_0 = first_locals(composition, mode, false, transition);
    failing(locals_0, Step::Append(text), steps_1, composition, ActionError::IpcMissing);
}

proof fn removing_takes_a_server(
    composition: CompositionView,
    mode: InputMode,
    transition: CompositionState,
)
    ensures
        has_failed(
            begun(composition, mode, false, ClientAction::RemoveText, transition),
            composition,
            ActionError::IpcMissing,
        ),
{
    let steps_5 = seq![Step::<Seq<char>>::WriteBack];
    let steps_4 = seq![Step::<Seq<char>>::Publish] + steps_5;
    let steps_3 = seq![Step::<Seq<char>>::TakeFirstOrNothing] + steps_4;
    let steps_2 = seq![Step::<Seq<char>>::Recheck] + steps_3;
    let steps_1 = seq![Step::<Seq<char>>::ShowFirstOrNothing] + steps_2;
    let steps_0 = seq![Step::<Seq<char>>::Remove] + steps_1;
    assert(steps_0 =~= script(ClientAction::RemoveText).push(Step::WriteBack));
    beginning(composition, mode, false, ClientAction::RemoveText, transition, steps_0);
    let locals_0 = first_locals(composition, mode, false, transition);
    failing(locals_0, Step::Remove, steps_1, composition, ActionError::IpcMissing);
}

/// Typed text is sent to the server, the first candidate of its reply is shown, the
/// window is told all of them, and that very candidate is stored: its text as the
/// preview, its rest as the suffix and its count as the count.
pub proof fn typed_text_takes_the_first_candidate(
    composition: CompositionView,
    mode: InputMode,
    transition: CompositionState,
    text: Seq<char>,
    candidates: CandidatesView,
)
    requires
        0 < candidates.texts.len(),
        0 < candidates.sub_texts.len(),
        0 < candidates.corresponding_count.len(),
    ensures
        ({
            let first = begun(composition, mode, true, ClientAction::AppendText(text), transition);
            let second = followed(first, ReplyView::Candidates(candidates), composition);
            let third = followed(second, ReplyView::Done, composition);
            let last = followed(third, ReplyView::Done, composition);
            let stored = last.composition;
            &&& first.next matches RunNextView::Perform(EffectView::AppendText(sent)) && is_sent(
                text,
                mode,
                sent,
            )
            &&& first.composition == composition
            &&& asks_for(
                second,
                composition,
                EffectView::SetText {
                    text: candidates.texts[0],
                    subtext: candidates.sub_texts[0],
                },
            )
            &&& asks_for(
                third,
                composition,
                EffectView::SetCandidateState { candidates, selection: 0 },
            )
            &&& has_stored(last, composition, transition)
            &&& stored.preview == candidates.texts[0]
            &&& stored.suffix == candidates.sub_texts[0]
            &&& stored.corresponding_count == candidates.corresponding_count[0]
            &&& stored.raw_input == candidates.raw_input
            &&& stored.raw_hiragana == candidates.hiragana
            &&& stored.candidates == candidates
            &&& stored.selection_index == 0
        }),
{
    let steps_5 = seq![Step::<Seq<char>>::WriteBack];
    let steps_4 = seq![Step::<Seq<char>>::Publish] + steps_5;
    let steps_3 = seq![Step::<Seq<char>>::TakeFirst] + steps_4;
    let steps_2 = seq![Step::<Seq<char>>::Recheck] + steps_3;
    let steps_1 = seq![Step::<Seq<char>>::ShowFirst] + steps_2;
    let steps_0 = seq![Step::<Seq<char>>::Append(text)] + steps_1;
    assert(steps_0 =~= script(ClientAction::AppendText(text)).push(Step::WriteBack));
    beginning(composition, mode, true, ClientAction::AppendText(text), transition, steps_0);
    let locals_0 = first_locals(composition, mode, true, transition);
    let effect_0 = locals_0.perform(Step::Append(text), composition)->Await_0;
    awaiting(locals_0, Step::Append(text), steps_1, composition, effect_0);
    let locals_1 = locals_0.offering(candidates);
    replying(
        locals_0,
        Step::Append(text),
        steps_1,
        composition,
        effect_0,
        ReplyView::Candidates(candidates),
        composition,
        locals_1,
    );
    let effect_1 = locals_1.perform(Step::ShowFirst, composition)->Await_0;
    awaiting(locals_1, Step::ShowFirst, steps_2, composition, effect_1);
    let locals_2 = locals_1.made_visible();
    replying(
        locals_1,
        Step::ShowFirst,
        steps_2,
        composition,
        effect_1,
        ReplyView::Done,
        composition,
        locals_2,
    );
    passing(locals_2, Step::Recheck, steps_3, composition, locals_2);
    let locals_3 = locals_2.perform(Step::TakeFirst, composition)->Pass_0;
    passing(locals_2, Step::TakeFirst, steps_4, composition, locals_3);
    let effect_4 = locals_3.perform(Step::Publish, composition)->Await_0;
    awaiting(locals_3, Step::Publish, steps_5, composition, effect_4);
    replying(
        locals_3,
        Step::Publish,
        steps_5,
        composition,
        effect_4,
        ReplyView::Done,
        composition,
        locals_3,
    );
    storing(locals_3, composition);
    sending(text, mode);
}

/// Committing the preview tells the server what stands in front of the rest, hands
/// over exactly the count of the preview with what was typed, leaves the preview
/// behind and shows the first candidate of the reply in its place, moves the window,
/// and stores that candidate. The composition is being composed again.
pub proof fn a_commit_hands_over_the_preview(
    composition: CompositionView,
    mode: InputMode,
    transition: CompositionState,
    text: Seq<char>,
    candidates: CandidatesView,
    context_reply: ReplyView,
    position_reply: ReplyView,
)
    requires
        0 < candidates.texts.len(),
        0 < candidates.sub_texts.len(),
        0 < candidates.corresponding_count.len(),
    ensures
        ({
            let action = ClientAction::CommitPrefixAndAppend(text);
            let first = begun(composition, mode, true, action, transition);
            let second = followed(first, context_reply, composition);
            let third = followed(second, ReplyView::Candidates(candidates), composition);
            let fourth = followed(third, ReplyView::Done, composition);
            let fifth = followed(fourth, ReplyView::Done, composition);
            let last = followed(fifth, position_reply, composition);
            let stored = last.composition;
            &&& asks_for(
                first,
                composition,
                EffectView::UpdateContext {
                    composition_utf16_count: displayed_units(
                        composition.preview,
                        composition.suffix,
                    ),
                    committed_text: composition.preview,
                },
            )
            &&& second.next matches RunNextView::Perform(
                EffectView::CommitPrefixAndAppend { offset, text: sent },
            ) && offset == composition.corresponding_count && is_sent(text, mode, sent)
            &&& second.composition == composition
            &&& asks_for(
                third,
                composition,
                EffectView::ShiftStart {
                    text: composition.preview,
                    subtext: candidates.texts[0] + candidates.sub_texts[0],
                },
            )
            &&& asks_for(
                fourth,
                composition,
                EffectView::SetCandidateState { candidates, selection: 0 },
            )
            &&& asks_for(fifth, composition, EffectView::UpdatePosition)
            &&& has_stored(last, composition, CompositionState::Composing)
            &&& stored.preview == candidates.texts[0]
            &&& stored.suffix == candidates.sub_texts[0]
            &&& stored.corresponding_count == candidates.corresponding_count[0]
            &&& stored.raw_input == candidates.raw_input
            &&& stored.raw_hiragana == candidates.hiragana
            &&& stored.candidates == candidates
            &&& stored.selection_index == 0
        }),
{
    let steps_10 = seq![Step::<Seq<char>>::WriteBack];
    let steps_9 = seq![Step::<Seq<char>>::BackToComposing] + steps_10;
    let steps_8 = seq![Step::<Seq<char>>::Recheck] + steps_9;
    let steps_7 = seq![Step::<Seq<char>>::UpdatePosition] + steps_8;
    let steps_6 = seq![Step::<Seq<char>>::Publish] + steps_7;
    let steps_5 = seq![Step::<Seq<char>>::TakeFirst] + steps_6;
    let steps_4 = seq![Step::<Seq<char>>::Recheck] + steps_5;
    let steps_3 = seq![Step::<Seq<char>>::ShiftStart] + steps_4;
    let steps_2 = seq![Step::<Seq<char>>::CommitPreview(text)] + steps_3;
    let steps_1 = seq![Step::<Seq<char>>::Recheck] + steps_2;
    let steps_0 = seq![Step::<Seq<char>>::UpdateContextBehindPreview] + steps_1;
    assert(steps_0 =~= script(ClientAction::CommitPrefixAndAppend(text)).push(Step::WriteBack));
    beginning(composition, mode, true, ClientAction::CommitPrefixAndAppend(text), transition, steps_0);
    let locals_0 = first_locals(composition, mode, true, transition);
    let effect_0 = locals_0.perform(Step::UpdateContextBehindPreview, composition)->Await_0;
    awaiting(locals_0, Step::UpdateContextBehindPreview, steps_1, composition, effect_0);
    replying(
        locals_0,
        Step::UpdateContextBehindPreview,
        steps_1,
        composition,
        effect_0,
        context_reply,
        composition,
        locals_0,
    );
    passing(locals_0, Step::Recheck, steps_2, composition, locals_0);
    let effect_2 = locals_0.perform(Step::CommitPreview(text), composition)->Await_0;
    awaiting(locals_0, Step::CommitPreview(text), steps_3, composition, effect_2);
    let locals_1 = locals_0.offering(candidates);
    replying(
        locals_0,
        Step::CommitPreview(text),
        steps_3,
        composition,
        effect_2,
        ReplyView::Candidates(candidates),
        composition,
        locals_1,
    );
    let effect_3 = locals_1.perform(Step::ShiftStart, composition)->Await_0;
    awaiting(locals_1, Step::ShiftStart, steps_4, composition, effect_3);
    let locals_2 = locals_1.made_visible();
    replying(
        locals_1,
        Step::ShiftStart,
        steps_4,
        composition,
        effect_3,
        ReplyView::Done,
        composition,
        locals_2,
    );
    passing(locals_2, Step::Recheck, steps_5, composition, locals_2);
    let locals_3 = locals_2.perform(Step::TakeFirst, composition)->Pass_0;
    passing(locals_2, Step::TakeFirst, steps_6, composition, locals_3);
    let effect_6 = locals_3.perform(Step::Publish, composition)->Await_0;
    awaiting(locals_3, Step::Publish, steps_7, composition, effect_6);
    replying(
        locals_3,
        Step::Publish,
        steps_7,
        composition,
        effect_6,
        ReplyView::Done,
        composition,
        locals_3,
    );
    let effect_7 = locals_3.perform(Step::UpdatePosition, composition)->Await_0;
    awaiting(locals_3, Step::UpdatePosition, steps_8, composition, effect_7);
    replying(
        locals_3,
        Step::UpdatePosition,
        steps_8,
        composition,
        effect_7,
        position_reply,
        composition,
        locals_3,
    );
    passing(locals_3, Step::Recheck, steps_9, composition, locals_3);
    let locals_4 = locals_3.perform(Step::BackToComposing, composition)->Pass_0;
    passing(locals_3, Step::BackToComposing, steps_10, composition, locals_4);
    storing(locals_4, composition);
    sending(text, mode);
}

/// Selecting a candidate tells the window its index, shows it, and stores it: the
/// text, the rest and the count are those at that index. The candidates and the
/// typed keys stay.
pub proof fn a_selection_takes_its_candidate(
    composition: CompositionView,
    mode: InputMode,
    transition: CompositionState,
    selection: SetSelectionType,
)
    requires
        can_be_indexed(composition.candidates.texts.len()),
        composition.candidates.is_aligned(),
        0 <= composition.selection_index < composition.candidates.texts.len(),
    ensures
        ({
            let action = ClientAction::SetSelection(selection);
            let first = begun(composition, mode, true, action, transition);
            let second = followed(first, ReplyView::Done, composition);
            let last = followed(second, ReplyView::Done, composition);
            let stored = last.composition;
            let candidates = composition.candidates;
            let index = moved_selection(
                composition.selection_index,
                selection,
                candidates.texts.len(),
            );
            &&& 0 <= index < candidates.texts.len()
            &&& asks_for(first, composition, EffectView::SetSelection(index))
            &&& asks_for(
                second,
                composition,
                EffectView::SetText {
                    text: candidates.texts[index as int],
                    subtext: candidates.sub_texts[index as int],
                },
            )
            &&& has_stored(last, composition, transition)
            &&& stored.selection_index == index
            &&& stored.preview == candidates.texts[index as int]
            &&& stored.suffix == candidates.sub_texts[index as int]
            &&& stored.corresponding_count == candidates.corresponding_count[index as int]
            &&& stored.candidates == candidates
            &&& stored.raw_input == composition.raw_input
            &&& stored.raw_hiragana == candidates.hiragana
        }),
{
    the_selection_stays_within(
        composition.selection_index,
        selection,
        composition.candidates.texts.len(),
    );
    let steps_5 = seq![Step::<Seq<char>>::WriteBack];
    let steps_4 = seq![Step::<Seq<char>>::TakeSelected] + steps_5;
    let steps_3 = seq![Step::<Seq<char>>::Recheck] + steps_4;
    let steps_2 = seq![Step::<Seq<char>>::ShowSelected] + steps_3;
    let steps_1 = seq![Step::<Seq<char>>::SendSelection] + steps_2;
    let steps_0 = seq![Step::<Seq<char>>::Select(selection)] + steps_1;
    assert(steps_0 =~= script(ClientAction::SetSelection(selection)).push(Step::WriteBack));
    beginning(composition, mode, true, ClientAction::SetSelection(selection), transition, steps_0);
    let locals_0 = first_locals(composition, mode, true, transition);
    let locals_1 = locals_0.perform(Step::Select(selection), composition)->Pass_0;
    passing(locals_0, Step::Select(selection), steps_1, composition, locals_1);
    let effect_1 = locals_1.perform(Step::SendSelection, composition)->Await_0;
    awaiting(locals_1, Step::SendSelection, steps_2, composition, effect_1);
    replying(
        locals_1,
        Step::SendSelection,
        steps_2,
        composition,
        effect_1,
        ReplyView::Done,
        composition,
        locals_1,
    );
    let effect_2 = locals_1.perform(Step::ShowSelected, composition)->Await_0;
    awaiting(locals_1, Step::ShowSelected, steps_3, composition, effect_2);
    let locals_2 = locals_1.made_visible();
    replying(
        locals_1,
        Step::ShowSelected,
        steps_3,
        composition,
        effect_2,
        ReplyView::Done,
        composition,
        locals_2,
    );
    passing(locals_2, Step::Recheck, steps_4, composition, locals_2);
    let locals_3 = locals_2.perform(Step::TakeSelected, composition)->Pass_0;
    passing(locals_2, Step::TakeSelected, steps_5, composition, locals_3);
    storing(locals_3, composition);
}

/// A conversion to another script shows the whole composition in it and stores it
/// as the preview, with nothing behind it and with the count of all its characters.
/// The candidates, the selection and the typed keys stay. It takes no server.
pub proof fn a_conversion_takes_the_whole_text(
    composition: CompositionView,
    mode: InputMode,
    transition: CompositionState,
    ipc: bool,
    script_type: SetTextType,
)
    requires
        composition.raw_hiragana.len() <= i32::MAX,
    ensures
        ({
            let action = ClientAction::SetTextWithType(script_type);
            let first = begun(composition, mode, ipc, action, transition);
            let last = followed(first, ReplyView::Done, composition);
            let stored = last.composition;
            &&& asks_for(
                first,
                composition,
                EffectView::SetText {
                    text: typed_text(script_type, composition.raw_input, composition.raw_hiragana),
                    subtext: Seq::empty(),
                },
            )
            &&& has_stored(last, composition, transition)
            &&& stored.preview == typed_text(
                script_type,
                composition.raw_input,
                composition.raw_hiragana,
            )
            &&& stored.suffix.len() == 0
            &&& stored.corresponding_count == composition.raw_hiragana.len()
            &&& stored.raw_input == composition.raw_input
            &&& stored.raw_hiragana == composition.raw_hiragana
            &&& stored.candidates == composition.candidates
            &&& stored.selection_index == composition.selection_index
        }),
{
    let steps_3 = seq![Step::<Seq<char>>::WriteBack];
    let steps_2 = seq![Step::<Seq<char>>::TakeTyped(script_type)] + steps_3;
    let steps_1 = seq![Step::<Seq<char>>::Recheck] + steps_2;
    let steps_0 = seq![Step::<Seq<char>>::ShowTyped(script_type)] + steps_1;
    assert(steps_0 =~= script(ClientAction::SetTextWithType(script_type)).push(Step::WriteBack));
    beginning(composition, mode, ipc, ClientAction::SetTextWithType(script_type), transition, steps_0);
    let locals_0 = first_locals(composition, mode, ipc, transition);
    let effect_0 = locals_0.perform(Step::ShowTyped(script_type), composition)->Await_0;
    awaiting(locals_0, Step::ShowTyped(script_type), steps_1, composition, effect_0);
    let locals_1 = locals_0.made_visible();
    replying(
        locals_0,
        Step::ShowTyped(script_type),
        steps_1,
        composition,
        effect_0,
        ReplyView::Done,
        composition,
        locals_1,
    );
    passing(locals_1, Step::Recheck, steps_2, composition, locals_1);
    let locals_2 = locals_1.perform(Step::TakeTyped(script_type), composition)->Pass_0;
    passing(locals_1, Step::TakeTyped(script_type), steps_3, composition, locals_2);
    storing(locals_2, composition);
}

/// Starting a composition tells the server what stands in front of it, opens the
/// range, and moves the window to it. The text of the composition stays as it is.
pub proof fn a_start_opens_a_range(
    composition: CompositionView,
    mode: InputMode,
    transition: CompositionState,
    ipc: bool,
    opened: CompositionView,
    context_reply: ReplyView,
    position_reply: ReplyView,
)
    requires
        opened.generation == composition.generation,
    ensures
        ({
            let action = ClientAction::StartComposition;
            let first = begun(composition, mode, ipc, action, transition);
            let second = followed(first, context_reply, composition);
            let third = followed(second, ReplyView::Done, opened);
            let last = followed(third, position_reply, opened);
            &&& asks_for(
                first,
                composition,
                EffectView::UpdateContext {
                    composition_utf16_count: 0,
                    committed_text: Seq::empty(),
                },
            )
            &&& asks_for(second, composition, EffectView::StartComposition)
            &&& asks_for(third, opened, EffectView::UpdatePosition)
            &&& third.run.locals.progress.started_composition
            &&& !second.run.locals.progress.started_composition
            &&& has_stored(last, opened, transition)
            &&& keeps_the_text(last.composition, composition)
        }),
{
    let steps_6 = seq![Step::<Seq<char>>::WriteBack];
    let steps_5 = seq![Step::<Seq<char>>::Recheck] + steps_6;
    let steps_4 = seq![Step::<Seq<char>>::UpdatePosition] + steps_5;
    let steps_3 = seq![Step::<Seq<char>>::Recheck] + steps_4;
    let steps_2 = seq![Step::<Seq<char>>::StartTip] + steps_3;
    let steps_1 = seq![Step::<Seq<char>>::Recheck] + steps_2;
    let steps_0 = seq![Step::<Seq<char>>::UpdateContext] + steps_1;
    assert(steps_0 =~= script(ClientAction::StartComposition).push(Step::WriteBack));
    beginning(composition, mode, ipc, ClientAction::StartComposition, transition, steps_0);
    let locals_0 = first_locals(composition, mode, ipc, transition);
    let effect_0 = locals_0.perform(Step::UpdateContext, composition)->Await_0;
    awaiting(locals_0, Step::UpdateContext, steps_1, composition, effect_0);
    replying(
        locals_0,
        Step::UpdateContext,
        steps_1,
        composition,
        effect_0,
        context_reply,
        composition,
        locals_0,
    );
    passing(locals_0, Step::Recheck, steps_2, composition, locals_0);
    let effect_2 = locals_0.perform(Step::StartTip, composition)->Await_0;
    awaiting(locals_0, Step::StartTip, steps_3, composition, effect_2);
    let locals_1 = LocalsView {
        progress: ActionProgress { started_composition: true, ..locals_0.progress },
        ..locals_0
    };
    replying(
        locals_0,
        Step::StartTip,
        steps_3,
        composition,
        effect_2,
        ReplyView::Done,
        opened,
        locals_1,
    );
    passing(locals_1, Step::Recheck, steps_4, opened, locals_1);
    let effect_4 = locals_1.perform(Step::UpdatePosition, opened)->Await_0;
    awaiting(locals_1, Step::UpdatePosition, steps_5, opened, effect_4);
    replying(
        locals_1,
        Step::UpdatePosition,
        steps_5,
        opened,
        effect_4,
        position_reply,
        opened,
        locals_1,
    );
    passing(locals_1, Step::Recheck, steps_6, opened, locals_1);
    storing(locals_1, opened);
}

/// Ending a composition closes the range with its text in it, hides the window,
/// clears the server, and stores an empty composition over whatever the host has
/// made of it.
pub proof fn an_end_closes_the_range(
    composition: CompositionView,
    mode: InputMode,
    transition: CompositionState,
    ended: CompositionView,
)
    ensures
        ({
            let action = ClientAction::EndComposition;
            let first = begun(composition, mode, true, action, transition);
            let second = followed(first, ReplyView::Done, ended);
            let third = followed(second, ReplyView::Done, ended);
            let last = followed(third, ReplyView::Done, ended);
            &&& asks_for(first, composition, EffectView::EndComposition)
            &&& asks_for(second, ended, EffectView::HideWindow)
            &&& asks_for(third, ended, EffectView::ClearText)
            &&& has_stored(last, ended, transition)
            &&& holds_nothing(last.composition)
        }),
{
    let steps_6 = seq![Step::<Seq<char>>::WriteBack];
    let steps_5 = seq![Step::<Seq<char>>::ClearText] + steps_6;
    let steps_4 = seq![Step::<Seq<char>>::HideWindow] + steps_5;
    let steps_3 = seq![Step::<Seq<char>>::Forget] + steps_4;
    let steps_2 = seq![Step::<Seq<char>>::AdoptGeneration] + steps_3;
    let steps_1 = seq![Step::<Seq<char>>::EndTip] + steps_2;
    let steps_0 = seq![Step::<Seq<char>>::MustEat] + steps_1;
    assert(steps_0 =~= script(ClientAction::EndComposition).push(Step::WriteBack));
    beginning(composition, mode, true, ClientAction::EndComposition, transition, steps_0);
    let locals_0 = first_locals(composition, mode, true, transition);
    let locals_1 = locals_0.perform(Step::MustEat, composition)->Pass_0;
    passing(locals_0, Step::MustEat, steps_1, composition, locals_1);
    let effect_1 = locals_1.perform(Step::EndTip, composition)->Await_0;
    awaiting(locals_1, Step::EndTip, steps_2, composition, effect_1);
    let locals_2 = locals_1.made_visible();
    replying(
        locals_1,
        Step::EndTip,
        steps_2,
        composition,
        effect_1,
        ReplyView::Done,
        ended,
        locals_2,
    );
    let locals_3 = locals_2.perform(Step::AdoptGeneration, ended)->Pass_0;
    passing(locals_2, Step::AdoptGeneration, steps_3, ended, locals_3);
    let locals_4 = locals_3.perform(Step::Forget, ended)->Pass_0;
    passing(locals_3, Step::Forget, steps_4, ended, locals_4);
    let effect_4 = locals_4.perform(Step::HideWindow, ended)->Await_0;
    awaiting(locals_4, Step::HideWindow, steps_5, ended, effect_4);
    replying(
        locals_4,
        Step::HideWindow,
        steps_5,
        ended,
        effect_4,
        ReplyView::Done,
        ended,
        locals_4,
    );
    let effect_5 = locals_4.perform(Step::ClearText, ended)->Await_0;
    awaiting(locals_4, Step::ClearText, steps_6, ended, effect_5);
    replying(
        locals_4,
        Step::ClearText,
        steps_6,
        ended,
        effect_5,
        ReplyView::Done,
        ended,
        locals_4,
    );
    storing(locals_4, ended);
}

/// Without a server, ending a composition closes the range and stores an empty
/// composition.
pub proof fn an_end_takes_no_server(
    composition: CompositionView,
    mode: InputMode,
    transition: CompositionState,
    ended: CompositionView,
)
    ensures
        ({
            let action = ClientAction::EndComposition;
            let first = begun(composition, mode, false, action, transition);
            let last = followed(first, ReplyView::Done, ended);
            &&& asks_for(first, composition, EffectView::EndComposition)
            &&& has_stored(last, ended, transition)
            &&& holds_nothing(last.composition)
        }),
{
    let steps_6 = seq![Step::<Seq<char>>::WriteBack];
    let steps_5 = seq![Step::<Seq<char>>::ClearText] + steps_6;
    let steps_4 = seq![Step::<Seq<char>>::HideWindow] + steps_5;
    let steps_3 = seq![Step::<Seq<char>>::Forget] + steps_4;
    let steps_2 = seq![Step::<Seq<char>>::AdoptGeneration] + steps_3;
    let steps_1 = seq![Step::<Seq<char>>::EndTip] + steps_2;
    let steps_0 = seq![Step::<Seq<char>>::MustEat] + steps_1;
    assert(steps_0 =~= script(ClientAction::EndComposition).push(Step::WriteBack));
    beginning(composition, mode, false, ClientAction::EndComposition, transition, steps_0);
    let locals_0 = first_locals(composition, mode, false, transition);
    let locals_1 = locals_0.perform(Step::MustEat, composition)->Pass_0;
    passing(locals_0, Step::MustEat, steps_1, composition, locals_1);
    let effect_1 = locals_1.perform(Step::EndTip, composition)->Await_0;
    awaiting(locals_1, Step::EndTip, steps_2, composition, effect_1);
    let locals_2 = locals_1.made_visible();
    replying(
        locals_1,
        Step::EndTip,
        steps_2,
        composition,
        effect_1,
        ReplyView::Done,
        ended,
        locals_2,
    );
    let locals_3 = locals_2.perform(Step::AdoptGeneration, ended)->Pass_0;
    passing(locals_2, Step::AdoptGeneration, steps_3, ended, locals_3);
    let locals_4 = locals_3.perform(Step::Forget, ended)->Pass_0;
    passing(locals_3, Step::Forget, steps_4, ended, locals_4);
    passing(locals_4, Step::HideWindow, steps_5, ended, locals_4);
    passing(locals_4, Step::ClearText, steps_6, ended, locals_4);
    storing(locals_4, ended);
}

/// Discarding a composition empties the range before closing it, so that nothing of
/// it stays in the host, and then does as an end does.
pub proof fn a_discard_empties_the_range(
    composition: CompositionView,
    mode: InputMode,
    transition: CompositionState,
    ended: CompositionView,
)
    ensures
        ({
            let action = ClientAction::DiscardComposition;
            let first = begun(composition, mode, true, action, transition);
            let second = followed(first, ReplyView::Done, composition);
            let third = followed(second, ReplyView::Done, ended);
            let fourth = followed(third, ReplyView::Done, ended);
            let last = followed(fourth, ReplyView::Done, ended);
            &&& asks_for(
                first,
                composition,
                EffectView::SetText { text: Seq::empty(), subtext: Seq::empty() },
            )
            &&& asks_for(second, composition, EffectView::EndComposition)
            &&& asks_for(third, ended, EffectView::HideWindow)
            &&& asks_for(fourth, ended, EffectView::ClearText)
            &&& has_stored(last, ended, transition)
            &&& holds_nothing(last.composition)
        }),
{
    let steps_8 = seq![Step::<Seq<char>>::WriteBack];
    let steps_7 = seq![Step::<Seq<char>>::ClearText] + steps_8;
    let steps_6 = seq![Step::<Seq<char>>::HideWindow] + steps_7;
    let steps_5 = seq![Step::<Seq<char>>::Forget] + steps_6;
    let steps_4 = seq![Step::<Seq<char>>::AdoptGeneration] + steps_5;
    let steps_3 = seq![Step::<Seq<char>>::EndTip] + steps_4;
    let steps_2 = seq![Step::<Seq<char>>::Recheck] + steps_3;
    let steps_1 = seq![Step::<Seq<char>>::ShowNothing] + steps_2;
    let steps_0 = seq![Step::<Seq<char>>::MustEat] + steps_1;
    assert(steps_0 =~= script(ClientAction::DiscardComposition).push(Step::WriteBack));
    beginning(composition, mode, true, ClientAction::DiscardComposition, transition, steps_0);
    let locals_0 = first_locals(composition, mode, true, transition);
    let locals_1 = locals_0.perform(Step::MustEat, composition)->Pass_0;
    passing(locals_0, Step::MustEat, steps_1, composition, locals_1);
    let effect_1 = locals_1.perform(Step::ShowNothing, composition)->Await_0;
    awaiting(locals_1, Step::ShowNothing, steps_2, composition, effect_1);
    let locals_2 = locals_1.made_visible();
    replying(
        locals_1,
        Step::ShowNothing,
        steps_2,
        composition,
        effect_1,
        ReplyView::Done,
        composition,
        locals_2,
    );
    passing(locals_2, Step::Recheck, steps_3, composition, locals_2);
    let effect_3 = locals_2.perform(Step::EndTip, composition)->Await_0;
    awaiting(locals_2, Step::EndTip, steps_4, composition, effect_3);
    let locals_3 = locals_2.made_visible();
    replying(
        locals_2,
        Step::EndTip,
        steps_4,
        composition,
        effect_3,
        ReplyView::Done,
        ended,
        locals_3,
    );
    let locals_4 = locals_3.perform(Step::AdoptGeneration, ended)->Pass_0;
    passing(locals_3, Step::AdoptGeneration, steps_5, ended, locals_4);
    let locals_5 = locals_4.perform(Step::Forget, ended)->Pass_0;
    passing(locals_4, Step::Forget, steps_6, ended, locals_5);
    let effect_6 = locals_5.perform(Step::HideWindow, ended)->Await_0;
    awaiting(locals_5, Step::HideWindow, steps_7, ended, effect_6);
    replying(
        locals_5,
        Step::HideWindow,
        steps_7,
        ended,
        effect_6,
        ReplyView::Done,
        ended,
        locals_5,
    );
    let effect_7 = locals_5.perform(Step::ClearText, ended)->Await_0;
    awaiting(locals_5, Step::ClearText, steps_8, ended, effect_7);
    replying(
        locals_5,
        Step::ClearText,
        steps_8,
        ended,
        effect_7,
        ReplyView::Done,
        ended,
        locals_5,
    );
    storing(locals_5, ended);
}

/// Moving the cursor asks for nothing and changes nothing but the state.
pub proof fn a_cursor_move_changes_nothing(
    composition: CompositionView,
    mode: InputMode,
    transition: CompositionState,
    ipc: bool,
    offset: i32,
)
    ensures
        ({
            let last = begun(
                composition,
                mode,
                ipc,
                ClientAction::MoveCursor(offset),
                transition,
            );
            &&& has_stored(last, composition, transition)
            &&& keeps_the_text(last.composition, composition)
        }),
{
    let steps_0 = seq![Step::<Seq<char>>::WriteBack];
    assert(steps_0 =~= script(ClientAction::MoveCursor(offset)).push(Step::WriteBack));
    beginning(composition, mode, ipc, ClientAction::MoveCursor(offset), transition, steps_0);
    let locals_0 = first_locals(composition, mode, ipc, transition);
    storing(locals_0, composition);
}

/// A change of mode with a range in the host closes the range first, then writes the
/// mode, tells the window the mode that came of it, clears the server, and stores an
/// empty composition.
pub proof fn a_mode_change_ends_the_composition(
    composition: CompositionView,
    mode: InputMode,
    transition: CompositionState,
    ended: CompositionView,
    requested: InputMode,
    actual: InputMode,
    mode_reply: ReplyView,
    clear_reply: ReplyView,
)
    requires
        mode != requested,
        composition.tip_composition is Some,
    ensures
        ({
            let action = ClientAction::SetIMEMode(requested);
            let first = begun(composition, mode, true, action, transition);
            let second = followed(first, ReplyView::Done, ended);
            let third = followed(second, ReplyView::Mode(actual), ended);
            let fourth = followed(third, mode_reply, ended);
            let last = followed(fourth, clear_reply, ended);
            &&& asks_for(first, composition, EffectView::EndComposition)
            &&& asks_for(second, ended, EffectView::SetInputModeCompartments(requested))
            &&& asks_for(third, ended, EffectView::SetInputMode(actual))
            &&& asks_for(fourth, ended, EffectView::ClearText)
            &&& has_stored(last, ended, transition)
            &&& holds_nothing(last.composition)
        }),
{
    let steps_5 = seq![Step::<Seq<char>>::WriteBack];
    let steps_4 = seq![Step::<Seq<char>>::ClearTextAfterMode] + steps_5;
    let steps_3 = seq![Step::<Seq<char>>::ShowMode] + steps_4;
    let steps_2 = seq![Step::<Seq<char>>::SetMode(requested)] + steps_3;
    let steps_1 = seq![Step::<Seq<char>>::EndTipBeforeMode(requested)] + steps_2;
    let steps_0 = seq![Step::<Seq<char>>::MustEat] + steps_1;
    assert(steps_0 =~= script(ClientAction::SetIMEMode(requested)).push(Step::WriteBack));
    beginning(composition, mode, true, ClientAction::SetIMEMode(requested), transition, steps_0);
    let locals_0 = first_locals(composition, mode, true, transition);
    let locals_1 = locals_0.perform(Step::MustEat, composition)->Pass_0;
    passing(locals_0, Step::MustEat, steps_1, composition, locals_1);
    let effect_1 = locals_1.perform(Step::EndTipBeforeMode(requested), composition)->Await_0;
    awaiting(locals_1, Step::EndTipBeforeMode(requested), steps_2, composition, effect_1);
    let locals_2 = locals_1.made_visible().with(
        CompositionView { generation: ended.generation, ..locals_1.snapshot },
    );
    replying(
        locals_1,
        Step::EndTipBeforeMode(requested),
        steps_2,
        composition,
        effect_1,
        ReplyView::Done,
        ended,
        locals_2,
    );
    let effect_2 = locals_2.perform(Step::SetMode(requested), ended)->Await_0;
    awaiting(locals_2, Step::SetMode(requested), steps_3, ended, effect_2);
    let locals_3 = LocalsView {
        mode: actual,
        mode_changed: true,
        snapshot: locals_2.snapshot.forgotten(),
        ..locals_2
    };
    replying(
        locals_2,
        Step::SetMode(requested),
        steps_3,
        ended,
        effect_2,
        ReplyView::Mode(actual),
        ended,
        locals_3,
    );
    let effect_3 = locals_3.perform(Step::ShowMode, ended)->Await_0;
    awaiting(locals_3, Step::ShowMode, steps_4, ended, effect_3);
    replying(
        locals_3,
        Step::ShowMode,
        steps_4,
        ended,
        effect_3,
        mode_reply,
        ended,
        locals_3,
    );
    let effect_4 = locals_3.perform(Step::ClearTextAfterMode, ended)->Await_0;
    awaiting(locals_3, Step::ClearTextAfterMode, steps_5, ended, effect_4);
    replying(
        locals_3,
        Step::ClearTextAfterMode,
        steps_5,
        ended,
        effect_4,
        clear_reply,
        ended,
        locals_3,
    );
    storing(locals_3, ended);
}

/// A change of mode with no range in the host writes the mode, tells the window the
/// mode that came of it, clears the server, and stores an empty composition.
pub proof fn a_mode_change_empties_the_composition(
    composition: CompositionView,
    mode: InputMode,
    transition: CompositionState,
    requested: InputMode,
    actual: InputMode,
    mode_reply: ReplyView,
    clear_reply: ReplyView,
)
    requires
        mode != requested || mode != actual,
        mode == requested || composition.tip_composition is None,
    ensures
        ({
            let action = ClientAction::SetIMEMode(requested);
            let first = begun(composition, mode, true, action, transition);
            let second = followed(first, ReplyView::Mode(actual), composition);
            let third = followed(second, mode_reply, composition);
            let last = followed(third, clear_reply, composition);
            &&& asks_for(first, composition, EffectView::SetInputModeCompartments(requested))
            &&& asks_for(second, composition, EffectView::SetInputMode(actual))
            &&& asks_for(third, composition, EffectView::ClearText)
            &&& has_stored(last, composition, transition)
            &&& holds_nothing(last.composition)
        }),
{
    let steps_5 = seq![Step::<Seq<char>>::WriteBack];
    let steps_4 = seq![Step::<Seq<char>>::ClearTextAfterMode] + steps_5;
    let steps_3 = seq![Step::<Seq<char>>::ShowMode] + steps_4;
    let steps_2 = seq![Step::<Seq<char>>::SetMode(requested)] + steps_3;
    let steps_1 = seq![Step::<Seq<char>>::EndTipBeforeMode(requested)] + steps_2;
    let steps_0 = seq![Step::<Seq<char>>::MustEat] + steps_1;
    assert(steps_0 =~= script(ClientAction::SetIMEMode(requested)).push(Step::WriteBack));
    beginning(composition, mode, true, ClientAction::SetIMEMode(requested), transition, steps_0);
    let locals_0 = first_locals(composition, mode, true, transition);
    let locals_1 = locals_0.perform(Step::MustEat, composition)->Pass_0;
    passing(locals_0, Step::MustEat, steps_1, composition, locals_1);
    passing(locals_1, Step::EndTipBeforeMode(requested), steps_2, composition, locals_1);
    let effect_2 = locals_1.perform(Step::SetMode(requested), composition)->Await_0;
    awaiting(locals_1, Step::SetMode(requested), steps_3, composition, effect_2);
    let locals_2 = LocalsView {
        mode: actual,
        mode_changed: true,
        snapshot: locals_1.snapshot.forgotten(),
        ..locals_1
    };
    replying(
        locals_1,
        Step::SetMode(requested),
        steps_3,
        composition,
        effect_2,
        ReplyView::Mode(actual),
        composition,
        locals_2,
    );
    let effect_3 = locals_2.perform(Step::ShowMode, composition)->Await_0;
    awaiting(locals_2, Step::ShowMode, steps_4, composition, effect_3);
    replying(
        locals_2,
        Step::ShowMode,
        steps_4,
        composition,
        effect_3,
        mode_reply,
        composition,
        locals_2,
    );
    let effect_4 = locals_2.perform(Step::ClearTextAfterMode, composition)->Await_0;
    awaiting(locals_2, Step::ClearTextAfterMode, steps_5, composition, effect_4);
    replying(
        locals_2,
        Step::ClearTextAfterMode,
        steps_5,
        composition,
        effect_4,
        clear_reply,
        composition,
        locals_2,
    );
    storing(locals_2, composition);
}

/// Asking for the mode in effect leaves the composition and its range alone: the
/// mode is written and the window is told, and the text stays.
pub proof fn the_mode_in_effect_keeps_the_composition(
    composition: CompositionView,
    mode: InputMode,
    transition: CompositionState,
    mode_reply: ReplyView,
)
    ensures
        ({
            let action = ClientAction::SetIMEMode(mode);
            let first = begun(composition, mode, true, action, transition);
            let second = followed(first, ReplyView::Mode(mode), composition);
            let last = followed(second, mode_reply, composition);
            &&& asks_for(first, composition, EffectView::SetInputModeCompartments(mode))
            &&& asks_for(second, composition, EffectView::SetInputMode(mode))
            &&& has_stored(last, composition, transition)
            &&& keeps_the_text(last.composition, composition)
        }),
{
    let steps_5 = seq![Step::<Seq<char>>::WriteBack];
    let steps_4 = seq![Step::<Seq<char>>::ClearTextAfterMode] + steps_5;
    let steps_3 = seq![Step::<Seq<char>>::ShowMode] + steps_4;
    let steps_2 = seq![Step::<Seq<char>>::SetMode(mode)] + steps_3;
    let steps_1 = seq![Step::<Seq<char>>::EndTipBeforeMode(mode)] + steps_2;
    let steps_0 = seq![Step::<Seq<char>>::MustEat] + steps_1;
    assert(steps_0 =~= script(ClientAction::SetIMEMode(mode)).push(Step::WriteBack));
    beginning(composition, mode, true, ClientAction::SetIMEMode(mode), transition, steps_0);
    let locals_0 = first_locals(composition, mode, true, transition);
    let locals_1 = locals_0.perform(Step::MustEat, composition)->Pass_0;
    passing(locals_0, Step::MustEat, steps_1, composition, locals_1);
    passing(locals_1, Step::EndTipBeforeMode(mode), steps_2, composition, locals_1);
    let effect_2 = locals_1.perform(Step::SetMode(mode), composition)->Await_0;
    awaiting(locals_1, Step::SetMode(mode), steps_3, composition, effect_2);
    let locals_2 = LocalsView { mode, mode_changed: false, ..locals_1 };
    replying(
        locals_1,
        Step::SetMode(mode),
        steps_3,
        composition,
        effect_2,
        ReplyView::Mode(mode),
        composition,
        locals_2,
    );
    let effect_3 = locals_2.perform(Step::ShowMode, composition)->Await_0;
    awaiting(locals_2, Step::ShowMode, steps_4, composition, effect_3);
    replying(
        locals_2,
        Step::ShowMode,
        steps_4,
        composition,
        effect_3,
        mode_reply,
        composition,
        locals_2,
    );
    passing(locals_2, Step::ClearTextAfterMode, steps_5, composition, locals_2);
    storing(locals_2, composition);
}

/// Without a server a change of mode writes the mode, and stores an empty
/// composition once it is written.
pub proof fn a_mode_change_takes_no_server(
    composition: CompositionView,
    mode: InputMode,
    transition: CompositionState,
    requested: InputMode,
    actual: InputMode,
)
    requires
        mode != requested || mode != actual,
        mode == requested || composition.tip_composition is None,
    ensures
        ({
            let action = ClientAction::SetIMEMode(requested);
            let first = begun(composition, mode, false, action, transition);
            let last = followed(first, ReplyView::Mode(actual), composition);
            &&& asks_for(first, composition, EffectView::SetInputModeCompartments(requested))
            &&& has_stored(last, composition, transition)
            &&& holds_nothing(last.composition)
        }),
{
    let steps_5 = seq![Step::<Seq<char>>::WriteBack];
    let steps_4 = seq![Step::<Seq<char>>::ClearTextAfterMode] + steps_5;
    let steps_3 = seq![Step::<Seq<char>>::ShowMode] + steps_4;
    let steps_2 = seq![Step::<Seq<char>>::SetMode(requested)] + steps_3;
    let steps_1 = seq![Step::<Seq<char>>::EndTipBeforeMode(requested)] + steps_2;
    let steps_0 = seq![Step::<Seq<char>>::MustEat] + steps_1;
    assert(steps_0 =~= script(ClientAction::SetIMEMode(requested)).push(Step::WriteBack));
    beginning(composition, mode, false, ClientAction::SetIMEMode(requested), transition, steps_0);
    let locals_0 = first_locals(composition, mode, false, transition);
    let locals_1 = locals_0.perform(Step::MustEat, composition)->Pass_0;
    passing(locals_0, Step::MustEat, steps_1, composition, locals_1);
    passing(locals_1, Step::EndTipBeforeMode(requested), steps_2, composition, locals_1);
    let effect_2 = locals_1.perform(Step::SetMode(requested), composition)->Await_0;
    awaiting(locals_1, Step::SetMode(requested), steps_3, composition, effect_2);
    let locals_2 = LocalsView {
        mode: actual,
        mode_changed: true,
        snapshot: locals_1.snapshot.forgotten(),
        ..locals_1
    };
    replying(
        locals_1,
        Step::SetMode(requested),
        steps_3,
        composition,
        effect_2,
        ReplyView::Mode(actual),
        composition,
        locals_2,
    );
    passing(locals_2, Step::ShowMode, steps_4, composition, locals_2);
    passing(locals_2, Step::ClearTextAfterMode, steps_5, composition, locals_2);
    storing(locals_2, composition);
}

/// Without a server, text can be neither typed nor removed: the run fails before
/// anything is asked for, and the composition stays.
pub proof fn editing_takes_a_server(
    composition: CompositionView,
    mode: InputMode,
    transition: CompositionState,
    text: Seq<char>,
)
    ensures
        ({
            let typed = begun(composition, mode, false, ClientAction::AppendText(text), transition);
            let removed = begun(composition, mode, false, ClientAction::RemoveText, transition);
            &&& has_failed(typed, composition, ActionError::IpcMissing)
            &&& has_failed(removed, composition, ActionError::IpcMissing)
        }),
{
    typing_takes_a_server(composition, mode, transition, text);
    removing_takes_a_server(composition, mode, transition);
}

/// A reply to typed text without a first candidate fails the run before anything is
/// shown, and the error says which part is missing.
pub proof fn an_empty_reply_shows_nothing(
    composition: CompositionView,
    mode: InputMode,
    transition: CompositionState,
    text: Seq<char>,
    candidates: CandidatesView,
    error: ActionError,
)
    requires
        match error {
            ActionError::CandidateTextEmpty => candidates.texts.len() == 0,
            ActionError::CandidateSubtextEmpty => candidates.texts.len() > 0
                && candidates.sub_texts.len() == 0,
            ActionError::CandidateCountEmpty => candidates.texts.len() > 0
                && candidates.sub_texts.len() > 0 && candidates.corresponding_count.len() == 0,
            _ => false,
        },
    ensures
        ({
            let first = begun(composition, mode, true, ClientAction::AppendText(text), transition);
            let last = followed(first, ReplyView::Candidates(candidates), composition);
            &&& has_failed(last, composition, error)
            &&& !last.run.locals.progress.visible_or_committed_effect
        }),
{
    let steps_5 = seq![Step::<Seq<char>>::WriteBack];
    let steps_4 = seq![Step::<Seq<char>>::Publish] + steps_5;
    let steps_3 = seq![Step::<Seq<char>>::TakeFirst] + steps_4;
    let steps_2 = seq![Step::<Seq<char>>::Recheck] + steps_3;
    let steps_1 = seq![Step::<Seq<char>>::ShowFirst] + steps_2;
    let steps_0 = seq![Step::<Seq<char>>::Append(text)] + steps_1;
    assert(steps_0 =~= script(ClientAction::AppendText(text)).push(Step::WriteBack));
    beginning(composition, mode, true, ClientAction::AppendText(text), transition, steps_0);
    let locals_0 = first_locals(composition, mode, true, transition);
    let effect_0 = locals_0.perform(Step::Append(text), composition)->Await_0;
    awaiting(locals_0, Step::Append(text), steps_1, composition, effect_0);
    let locals_1 = locals_0.offering(candidates);
    replying(
        locals_0,
        Step::Append(text),
        steps_1,
        composition,
        effect_0,
        ReplyView::Candidates(candidates),
        composition,
        locals_1,
    );
    failing(locals_1, Step::ShowFirst, steps_2, composition, error);
}

/// A selection outside the candidates fails the run before anything is shown, and the
/// error says which list is too short.
pub proof fn a_selection_outside_the_candidates_fails(
    composition: CompositionView,
    mode: InputMode,
    transition: CompositionState,
    ipc: bool,
    selection: SetSelectionType,
    error: ActionError,
)
    requires
        ({
            let candidates = composition.candidates;
            let index = moved_selection(
                composition.selection_index,
                selection,
                candidates.texts.len(),
            );
            let place = if index < 0 {
                0
            } else {
                index as int
            };
            match error {
                ActionError::SelectionOutOfRange => candidates.texts.len() <= place,
                ActionError::SubtextSelectionOutOfRange => place < candidates.texts.len()
                    && candidates.sub_texts.len() <= place,
                ActionError::CountSelectionOutOfRange => place < candidates.texts.len() && place
                    < candidates.sub_texts.len() && candidates.corresponding_count.len() <= place,
                _ => false,
            }
        }),
    ensures
        ({
            let action = ClientAction::SetSelection(selection);
            has_failed(begun(composition, mode, ipc, action, transition), composition, error)
        }),
{
    let steps_5 = seq![Step::<Seq<char>>::WriteBack];
    let steps_4 = seq![Step::<Seq<char>>::TakeSelected] + steps_5;
    let steps_3 = seq![Step::<Seq<char>>::Recheck] + steps_4;
    let steps_2 = seq![Step::<Seq<char>>::ShowSelected] + steps_3;
    let steps_1 = seq![Step::<Seq<char>>::SendSelection] + steps_2;
    let steps_0 = seq![Step::<Seq<char>>::Select(selection)] + steps_1;
    assert(steps_0 =~= script(ClientAction::SetSelection(selection)).push(Step::WriteBack));
    beginning(composition, mode, ipc, ClientAction::SetSelection(selection), transition, steps_0);
    let locals_0 = first_locals(composition, mode, ipc, transition);
    failing(locals_0, Step::Select(selection), steps_1, composition, error);
}

/// A composition that the host has changed meanwhile is not written over: what the
/// server and the window show is cleared, and the run ends with the composition as
/// the host has left it.
pub proof fn a_changed_composition_is_left_alone(
    composition: CompositionView,
    mode: InputMode,
    transition: CompositionState,
    script_type: SetTextType,
    changed: CompositionView,
    hide_reply: ReplyView,
    clear_reply: ReplyView,
)
    requires
        changed.generation != composition.generation,
    ensures
        ({
            let action = ClientAction::SetTextWithType(script_type);
            let first = begun(composition, mode, true, action, transition);
            let second = followed(first, ReplyView::Done, changed);
            let third = followed(second, hide_reply, changed);
            let last = followed(third, clear_reply, changed);
            &&& asks_for(second, changed, EffectView::HideWindow)
            &&& asks_for(third, changed, EffectView::ClearText)
            &&& last.next == RunNextView::Finished(Ok(()))
            &&& last.composition == changed
        }),
{
    let steps_3 = seq![Step::<Seq<char>>::WriteBack];
    let steps_2 = seq![Step::<Seq<char>>::TakeTyped(script_type)] + steps_3;
    let steps_1 = seq![Step::<Seq<char>>::Recheck] + steps_2;
    let steps_0 = seq![Step::<Seq<char>>::ShowTyped(script_type)] + steps_1;
    assert(steps_0 =~= script(ClientAction::SetTextWithType(script_type)).push(Step::WriteBack));
    beginning(composition, mode, true, ClientAction::SetTextWithType(script_type), transition, steps_0);
    let locals_0 = first_locals(composition, mode, true, transition);
    let effect_0 = locals_0.perform(Step::ShowTyped(script_type), composition)->Await_0;
    awaiting(locals_0, Step::ShowTyped(script_type), steps_1, composition, effect_0);
    let locals_1 = locals_0.made_visible();
    replying(
        locals_0,
        Step::ShowTyped(script_type),
        steps_1,
        composition,
        effect_0,
        ReplyView::Done,
        changed,
        locals_1,
    );
    abandoning(locals_1, steps_2, changed, hide_reply, clear_reply);
}

} // verus!
