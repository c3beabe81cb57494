//! What holds of every run of actions, whatever the outside work comes to.

use vstd::prelude::*;

use crate::action_run::{
    advanced, resumed, script, scripts, started_run, ActionError, Advanced, LocalsView, Performed,
    RunNextView, RunView, Step,
};
use crate::actions::ClientAction;
use crate::composition::{ActionProgress, CompositionState, CompositionView};
use crate::effects::ReplyView;
use crate::input_mode::InputMode;

verus! {

/// No step but the last one stores the snapshot.
pub open spec fn stores_last(steps: Seq<Step<Seq<char>>>) -> bool {
    forall|i: int| 0 <= i < steps.len() - 1 ==> !(#[trigger] steps[i] is WriteBack)
}

/// What taking steps may do to the composition: nothing, or, as the last thing
/// of a run that succeeds, replace it by a snapshot of the same generation.
pub open spec fn stores_only_current(composition: CompositionView, after: Advanced) -> bool {
    ||| after.composition == composition
    ||| {
        &&& after.next == RunNextView::Finished(Ok(()))
        &&& after.run.locals.snapshot.generation == composition.generation
        &&& after.composition == composition.updated_from(after.run.locals.snapshot)
    }
}

proof fn scripts_never_store(actions: Seq<ClientAction<Seq<char>>>)
    ensures
        forall|i: int| 0 <= i < scripts(actions).len() ==> !(#[trigger] scripts(actions)[i] is WriteBack),
    decreases actions.len(),
{
    if actions.len() > 0 {
        scripts_never_store(actions.drop_last());
    }
}

proof fn advancing_stores_only_current(
    locals: LocalsView,
    steps: Seq<Step<Seq<char>>>,
    composition: CompositionView,
)
    requires
        stores_last(steps),
    ensures
        stores_last(advanced(locals, steps, composition).run.steps),
        stores_only_current(composition, advanced(locals, steps, composition)),
    decreases steps.len(),
{
    reveal_with_fuel(advanced, 2);
    if steps.len() > 0 {
        let rest = steps.drop_first();
        assert(forall|i: int| 0 <= i < rest.len() ==> rest[i] == #[trigger] steps[i + 1]);
        assert(stores_last(rest));
        match locals.perform(steps[0], composition) {
            Performed::Pass(next) => {
                advancing_stores_only_current(next, rest, composition);
            },
            Performed::Store => {
                assert(steps.len() == 1);
                assert(rest =~= Seq::empty());
            },
            _ => {},
        }
    }
}

/// A run begins with the one step that stores its snapshot at the end.
pub proof fn a_run_stores_last(
    composition: CompositionView,
    mode: InputMode,
    ipc: bool,
    actions: Seq<ClientAction<Seq<char>>>,
    transition: CompositionState,
)
    ensures
        stores_last(started_run(composition, mode, ipc, actions, transition).steps),
{
    scripts_never_store(actions);
}

/// A stale snapshot is never stored: whatever replies come, a run leaves the
/// composition alone until it ends with success, and then stores its snapshot
/// only over a composition of the snapshot's generation.
pub proof fn a_stale_snapshot_is_never_stored(
    run: RunView,
    reply: ReplyView,
    composition: CompositionView,
)
    requires
        stores_last(run.steps),
    ensures
        stores_last(resumed(run, reply, composition).run.steps),
        stores_only_current(composition, resumed(run, reply, composition)),
{
    if run.steps.len() == 0 {
        advancing_stores_only_current(run.locals, run.steps, composition);
    } else {
        let rest = run.steps.drop_first();
        assert(forall|i: int| 0 <= i < rest.len() ==> rest[i] == #[trigger] run.steps[i + 1]);
        assert(stores_last(rest));
        if let Ok(locals) = run.locals.accept(run.steps[0], reply, composition) {
            advancing_stores_only_current(locals, rest, composition);
        }
    }
}

/// Everything that `before` has done, `after` has done too.
pub open spec fn includes(after: ActionProgress, before: ActionProgress) -> bool {
    &&& before.started_composition ==> after.started_composition
    &&& before.visible_or_committed_effect ==> after.visible_or_committed_effect
    &&& before.must_eat_on_failure ==> after.must_eat_on_failure
}

proof fn advancing_forgets_no_progress(
    locals: LocalsView,
    steps: Seq<Step<Seq<char>>>,
    composition: CompositionView,
)
    ensures
        includes(advanced(locals, steps, composition).run.locals.progress, locals.progress),
    decreases steps.len(),
{
    if steps.len() > 0 {
        match locals.perform(steps[0], composition) {
            Performed::Pass(next) => {
                advancing_forgets_no_progress(next, steps.drop_first(), composition);
            },
            Performed::Store => {
                advancing_forgets_no_progress(
                    locals,
                    steps.drop_first(),
                    composition.updated_from(locals.snapshot),
                );
            },
            _ => {},
        }
    }
}

/// What a run has made visible, or insists on, is never forgotten, so that a
/// later failure cannot hand the key to the host.
pub proof fn progress_is_never_forgotten(
    run: RunView,
    reply: ReplyView,
    composition: CompositionView,
)
    ensures
        includes(
            resumed(run, reply, composition).run.locals.progress,
            run.locals.progress,
        ),
{
    if run.steps.len() == 0 {
        advancing_forgets_no_progress(run.locals, run.steps, composition);
    } else if let Ok(locals) = run.locals.accept(run.steps[0], reply, composition) {
        advancing_forgets_no_progress(locals, run.steps.drop_first(), composition);
    }
}

/// Telling the server what stands around the composition, and the window where it
/// stands, never fails a run: whatever comes of them, the run goes on.
pub proof fn context_and_position_never_fail_a_run(
    locals: LocalsView,
    step: Step<Seq<char>>,
    reply: ReplyView,
    composition: CompositionView,
)
    requires
        step is UpdateContext || step is UpdateContextBehindPreview || step is UpdatePosition,
    ensures
        locals.accept(step, reply, composition) is Ok,
        locals.accept(step, reply, composition)->Ok_0 == locals,
        locals.perform(step, composition) is Await,
{
}

/// Whether advancing takes a step that insists on the key.
pub open spec fn takes_insisting_step(
    locals: LocalsView,
    steps: Seq<Step<Seq<char>>>,
    composition: CompositionView,
) -> bool
    decreases steps.len(),
{
    steps.len() > 0 && (steps[0] is MustEat || match locals.perform(steps[0], composition) {
        Performed::Pass(next) => takes_insisting_step(next, steps.drop_first(), composition),
        Performed::Store => locals.is_current(composition) && takes_insisting_step(
            locals,
            steps.drop_first(),
            composition.updated_from(locals.snapshot),
        ),
        _ => false,
    })
}

proof fn advancing_insists_by_steps(
    locals: LocalsView,
    steps: Seq<Step<Seq<char>>>,
    composition: CompositionView,
)
    ensures
        advanced(locals, steps, composition).run.locals.progress.must_eat_on_failure == (
        locals.progress.must_eat_on_failure || takes_insisting_step(locals, steps, composition)),
    decreases steps.len(),
{
    if steps.len() > 0 {
        match locals.perform(steps[0], composition) {
            Performed::Pass(next) => {
                advancing_insists_by_steps(next, steps.drop_first(), composition);
            },
            Performed::Store => {
                advancing_insists_by_steps(
                    locals,
                    steps.drop_first(),
                    composition.updated_from(locals.snapshot),
                );
            },
            _ => {},
        }
    }
}

/// A run insists on its key from the moment that it reaches an action that ends or
/// discards the composition or sets the mode, and not before: these actions begin
/// with the one step that insists, no other action has it, and neither replies nor
/// other steps make a run insist.
pub proof fn a_key_is_insisted_on_by_its_actions(
    action: ClientAction<Seq<char>>,
    run: RunView,
    reply: ReplyView,
    composition: CompositionView,
)
    ensures
        forall|i: int|
            0 <= i < script(action).len() ==> (#[trigger] script(action)[i] is MustEat <==> i == 0
                && (action is EndComposition || action is DiscardComposition
                || action is SetIMEMode)),
        resumed(run, reply, composition).run.locals.progress.must_eat_on_failure == (
        run.locals.progress.must_eat_on_failure || if run.steps.len() == 0 {
            false
        } else {
            match run.locals.accept(run.steps[0], reply, composition) {
                Ok(locals) => takes_insisting_step(locals, run.steps.drop_first(), composition),
                Err(_) => false,
            }
        }),
        advanced(run.locals, run.steps, composition).run.locals.progress.must_eat_on_failure == (
        run.locals.progress.must_eat_on_failure || takes_insisting_step(
            run.locals,
            run.steps,
            composition,
        )),
{
    advancing_insists_by_steps(run.locals, run.steps, composition);
    if run.steps.len() > 0 {
        if let Ok(locals) = run.locals.accept(run.steps[0], reply, composition) {
            advancing_insists_by_steps(locals, run.steps.drop_first(), composition);
        }
    }
}

/// The step asks the host for something during which the host may end the
/// composition.
pub open spec fn lets_the_host_in(step: Step<Seq<char>>) -> bool {
    step is UpdateContext || step is UpdateContextBehindPreview || step is StartTip
        || step is UpdatePosition || step is ShowNothing || step is ShowFirst
        || step is ShowFirstOrNothing || step is ShowSelected || step is ShiftStart
        || step is ShowTyped
}

/// After every step during which the host may end the composition, the snapshot
/// is checked before anything else happens; after the composition was ended on
/// purpose, its new generation is accepted.
pub proof fn every_host_step_is_checked(action: ClientAction<Seq<char>>, i: int)
    requires
        0 <= i < script(action).len(),
    ensures
        lets_the_host_in(script(action)[i]) ==> {
            &&& i + 1 < script(action).len()
            &&& script(action)[i + 1] is Recheck
        },
        script(action)[i] is EndTip ==> {
            &&& i + 1 < script(action).len()
            &&& script(action)[i + 1] is AdoptGeneration
        },
{
}

/// The snapshot holds no text and no candidates.
pub open spec fn is_forgotten(composition: CompositionView) -> bool {
    composition == composition.forgotten()
}

/// Whether taking `steps` leaves the snapshot without text and candidates, where
/// `empty` tells whether it is so now. Telling the server and the window, and
/// storing the snapshot, keep it so.
pub open spec fn leaves_empty(empty: bool, steps: Seq<Step<Seq<char>>>) -> bool
    decreases steps.len(),
{
    if steps.len() == 0 {
        empty
    } else {
        let step = steps[0];
        let keeps = step is HideWindow || step is ClearText || step is WriteBack;
        leaves_empty(step is Forget || (keeps && empty), steps.drop_first())
    }
}

/// A run that, if it stores its snapshot at all, stores one without text and
/// candidates.
pub open spec fn is_ending(run: RunView) -> bool {
    &&& stores_last(run.steps)
    &&& (run.steps.len() > 0 && run.steps.last() is WriteBack) ==> leaves_empty(
        is_forgotten(run.locals.snapshot),
        run.steps,
    )
}

/// The run waits for a reply: its next step is none that needs no outside work.
pub open spec fn awaits_a_reply(run: RunView) -> bool {
    run.steps.len() > 0 ==> !(run.steps[0] is Forget)
}

proof fn emptier_is_as_good(less: bool, more: bool, steps: Seq<Step<Seq<char>>>)
    requires
        less ==> more,
        leaves_empty(less, steps),
    ensures
        leaves_empty(more, steps),
    decreases steps.len(),
{
    if steps.len() > 0 {
        let step = steps[0];
        let keeps = step is HideWindow || step is ClearText || step is WriteBack;
        emptier_is_as_good(
            step is Forget || (keeps && less),
            step is Forget || (keeps && more),
            steps.drop_first(),
        );
    }
}

proof fn advancing_keeps_ending(
    locals: LocalsView,
    steps: Seq<Step<Seq<char>>>,
    composition: CompositionView,
)
    requires
        is_ending(RunView { locals, steps }),
    ensures
        is_ending(advanced(locals, steps, composition).run),
        awaits_a_reply(advanced(locals, steps, composition).run),
        advanced(locals, steps, composition).composition == composition || is_forgotten(
            advanced(locals, steps, composition).composition,
        ),
    decreases steps.len(),
{
    reveal_with_fuel(advanced, 2);
    if steps.len() > 0 {
        let rest = steps.drop_first();
        assert(forall|i: int| 0 <= i < rest.len() ==> rest[i] == #[trigger] steps[i + 1]);
        assert(stores_last(rest));
        let step = steps[0];
        let keeps = step is HideWindow || step is ClearText || step is WriteBack;
        let empty = is_forgotten(locals.snapshot);
        match locals.perform(step, composition) {
            Performed::Pass(next) => {
                if rest.len() > 0 && rest.last() is WriteBack {
                    assert(steps.last() == rest.last());
                    assert((step is Forget || (keeps && empty)) ==> is_forgotten(next.snapshot));
                    emptier_is_as_good(
                        step is Forget || (keeps && empty),
                        is_forgotten(next.snapshot),
                        rest,
                    );
                }
                advancing_keeps_ending(next, rest, composition);
            },
            Performed::Store => {
                assert(steps.len() == 1);
                assert(rest =~= Seq::empty());
                assert(leaves_empty(empty, rest));
            },
            _ => {},
        }
    }
}

/// A run that ends a composition stores nothing but an empty one, whatever
/// replies come.
pub proof fn an_ended_composition_is_empty(
    run: RunView,
    reply: ReplyView,
    composition: CompositionView,
)
    requires
        is_ending(run),
        awaits_a_reply(run),
    ensures
        is_ending(resumed(run, reply, composition).run),
        awaits_a_reply(resumed(run, reply, composition).run),
        resumed(run, reply, composition).composition == composition || is_forgotten(
            resumed(run, reply, composition).composition,
        ),
{
    if run.steps.len() == 0 {
        advancing_keeps_ending(run.locals, run.steps, composition);
    } else {
        let rest = run.steps.drop_first();
        assert(forall|i: int| 0 <= i < rest.len() ==> rest[i] == #[trigger] run.steps[i + 1]);
        assert(stores_last(rest));
        let step = run.steps[0];
        let keeps = step is HideWindow || step is ClearText || step is WriteBack;
        let empty = is_forgotten(run.locals.snapshot);
        if let Ok(locals) = run.locals.accept(step, reply, composition) {
            if rest.len() > 0 && rest.last() is WriteBack {
                assert(run.steps.last() == rest.last());
                emptier_is_as_good(
                    step is Forget || (keeps && empty),
                    is_forgotten(locals.snapshot),
                    rest,
                );
            }
            advancing_keeps_ending(locals, rest, composition);
        }
    }
}

proof fn a_last_forget_is_enough(
    empty: bool,
    before: Seq<Step<Seq<char>>>,
    after: Seq<Step<Seq<char>>>,
)
    requires
        leaves_empty(false, after),
    ensures
        leaves_empty(empty, before + after),
    decreases before.len(),
{
    if before.len() == 0 {
        assert(before + after =~= after);
        emptier_is_as_good(false, empty, after);
    } else {
        let step = before[0];
        let keeps = step is HideWindow || step is ClearText || step is WriteBack;
        assert((before + after).drop_first() =~= before.drop_first() + after);
        a_last_forget_is_enough(
            step is Forget || (keeps && empty),
            before.drop_first(),
            after,
        );
    }
}

/// Actions that end or discard the composition last start a run that stores
/// nothing but an empty composition.
pub proof fn ending_actions_start_an_ending_run(
    composition: CompositionView,
    mode: InputMode,
    ipc: bool,
    actions: Seq<ClientAction<Seq<char>>>,
    transition: CompositionState,
)
    requires
        actions.len() > 0,
        actions.last() is EndComposition || actions.last() is DiscardComposition,
    ensures
        ({
            let run = started_run(composition, mode, ipc, actions, transition);
            let first = advanced(run.locals, run.steps, composition);
            &&& is_ending(first.run)
            &&& awaits_a_reply(first.run)
            &&& first.composition == composition || is_forgotten(first.composition)
        }),
{
    let run = started_run(composition, mode, ipc, actions, transition);
    let before = scripts(actions.drop_last());
    let last = script(actions.last()).push(Step::WriteBack);
    scripts_never_store(actions);
    assert(run.steps =~= before + last);
    assert(leaves_empty(false, last)) by {
        reveal_with_fuel(leaves_empty, 10);
    }
    a_last_forget_is_enough(is_forgotten(run.locals.snapshot), before, last);
    advancing_keeps_ending(run.locals, run.steps, composition);
}

/// The step changes what the host shows, or commits text in it.
pub open spec fn changes_the_host(step: Step<Seq<char>>) -> bool {
    step is EndTip || step is EndTipBeforeMode || step is ShowNothing || step is ShowFirst
        || step is ShowFirstOrNothing || step is ShowSelected || step is ShowTyped
        || step is ShiftStart
}

/// The run goes on whatever comes of the step.
pub open spec fn is_optional(step: Step<Seq<char>>) -> bool {
    step is UpdateContext || step is UpdateContextBehindPreview || step is UpdatePosition
        || step is ShowMode || step is ClearTextAfterMode || step is HideWindowQuietly
        || step is ClearTextQuietly
}

/// Every change that the host shows is noted when it is done, and so is the start
/// of a composition; nothing else is.
pub proof fn what_the_host_shows_is_noted(
    locals: LocalsView,
    step: Step<Seq<char>>,
    reply: ReplyView,
    composition: CompositionView,
)
    requires
        locals.accept(step, reply, composition) is Ok,
    ensures
        ({
            let after = locals.accept(step, reply, composition)->Ok_0.progress;
            let before = locals.progress;
            &&& after.visible_or_committed_effect == (before.visible_or_committed_effect
                || changes_the_host(step))
            &&& after.started_composition == (before.started_composition || step is StartTip)
            &&& after.must_eat_on_failure == before.must_eat_on_failure
        }),
{
}

/// Outside work that fails ends the run with an error and leaves the composition
/// and the progress alone, except where the step is optional: then nothing of it
/// is felt.
pub proof fn failed_work_fails_the_run(run: RunView, composition: CompositionView)
    requires
        run.steps.len() > 0,
    ensures
        ({
            let after = resumed(run, ReplyView::Failed, composition);
            &&& !is_optional(run.steps[0]) ==> {
                &&& after.next == RunNextView::Finished(Err(ActionError::Outside))
                &&& after.composition == composition
                &&& after.run.locals == run.locals
            }
            &&& is_optional(run.steps[0]) ==> after == advanced(
                run.locals,
                run.steps.drop_first(),
                composition,
            )
        }),
{
}

/// Actions run one after the other, each with the steps that it has by itself.
pub proof fn actions_run_in_order(
    before: Seq<ClientAction<Seq<char>>>,
    after: Seq<ClientAction<Seq<char>>>,
)
    ensures
        scripts(before + after) == scripts(before) + scripts(after),
    decreases after.len(),
{
    if after.len() == 0 {
        assert(before + after =~= before);
        assert(scripts(before) + scripts(after) =~= scripts(before));
    } else {
        assert((before + after).drop_last() =~= before + after.drop_last());
        actions_run_in_order(before, after.drop_last());
        assert(scripts(before + after) =~= scripts(before) + scripts(after));
    }
}

} // verus!
