//! From a key to its effect: settle what is left over, classify the key, run its
//! actions, and clean up after a failure.

use vstd::prelude::*;

use crate::action_run::{
    advanced, resumed, started_run, ActionError, ActionRun, Advanced, RunNext, RunNextView, RunView,
};
use crate::actions::{actions_view, ClientAction, UserAction};
use crate::composition::{
    answer_key, input_mode_transition, is_last_composing_character, key_answer, key_answer_view,
    failed_key_disposition, state_after_mode_command, ActionProgress, CompositionState,
    FailedKeyDisposition, KeyAnswer, KeySituation,
};
use crate::effects::{Effect, EffectView, Reply, ReplyView};
use crate::settling::{SettleNext, SettlePurpose, Settled, Settling};
use crate::text_service::{TextService, TextServiceView};

verus! {

/// What came of running actions.
#[derive(Clone, Copy, Debug, PartialEq, Eq, Structural)]
pub enum ActionExecution {
    Applied,
    Failed { error: ActionError, disposition: FailedKeyDisposition },
}

impl ActionExecution {
    /// The outcome as a result.
    pub fn result(self) -> (result: Result<(), ActionError>)
        ensures
            result == match self {
                ActionExecution::Applied => Ok::<(), ActionError>(()),
                ActionExecution::Failed { error, .. } => Err(error),
            },
    {
        match self {
            ActionExecution::Applied => Ok(()),
            ActionExecution::Failed { error, .. } => Err(error),
        }
    }

    /// Whether the key is kept from the host.
    pub open spec fn eats(self) -> bool {
        match self {
            ActionExecution::Applied => true,
            ActionExecution::Failed { disposition, .. } => disposition == FailedKeyDisposition::Eat,
        }
    }

    /// Tells whether the key is kept from the host.
    pub fn eaten(self) -> (eaten: bool)
        ensures
            eaten == self.eats(),
    {
        match self {
            ActionExecution::Applied => true,
            ActionExecution::Failed { disposition, .. } => disposition == FailedKeyDisposition::Eat,
        }
    }
}

/// Actions being run, or the clean-up after they have failed.
#[derive(Debug)]
pub enum Execution {
    Acting(ActionRun),
    Recovering { settling: Settling, error: ActionError, progress: ActionProgress },
    Finished,
}

/// The contents of an `Execution`.
#[verifier::ext_equal]
pub enum ExecutionView {
    Acting(RunView),
    Recovering { settling: Settling, error: ActionError, progress: ActionProgress },
    Finished,
}

impl View for Execution {
    type V = ExecutionView;

    open spec fn view(&self) -> ExecutionView {
        match self {
            Execution::Acting(run) => ExecutionView::Acting(run@),
            Execution::Recovering { settling, error, progress } => ExecutionView::Recovering {
                settling: *settling,
                error: *error,
                progress: *progress,
            },
            Execution::Finished => ExecutionView::Finished,
        }
    }
}

/// What an execution does next.
#[derive(Debug)]
pub enum ExecutionNext {
    Perform(Effect),
    Finished(ActionExecution),
}

/// The contents of an `ExecutionNext`.
#[verifier::ext_equal]
pub enum ExecutionNextView {
    Perform(EffectView),
    Finished(ActionExecution),
}

impl View for ExecutionNext {
    type V = ExecutionNextView;

    open spec fn view(&self) -> ExecutionNextView {
        match self {
            ExecutionNext::Perform(effect) => ExecutionNextView::Perform(effect@),
            ExecutionNext::Finished(outcome) => ExecutionNextView::Finished(*outcome),
        }
    }
}

/// Where an execution has come to.
#[verifier::ext_equal]
pub struct Executed {
    pub execution: ExecutionView,
    pub service: TextServiceView,
    pub next: ExecutionNextView,
}

/// The outcome of a failure, once the clean-up has come to its end.
pub open spec fn failure(
    error: ActionError,
    progress: ActionProgress,
    settled: Settled,
) -> ActionExecution {
    ActionExecution::Failed {
        error,
        disposition: if settled != Settled::Failed && !progress.visible_or_committed_effect
            && !progress.must_eat_on_failure {
            FailedKeyDisposition::PassThrough
        } else {
            FailedKeyDisposition::Eat
        },
    }
}

/// An execution that cleans up.
pub open spec fn recovering(
    error: ActionError,
    progress: ActionProgress,
    settled: (TextServiceView, SettleNext),
) -> Executed {
    match settled.1 {
        SettleNext::Waiting(settling) => Executed {
            execution: ExecutionView::Recovering { settling, error, progress },
            service: settled.0,
            next: ExecutionNextView::Perform(settling.awaited()),
        },
        SettleNext::Finished(result) => Executed {
            execution: ExecutionView::Finished,
            service: settled.0,
            next: ExecutionNextView::Finished(failure(error, progress, result)),
        },
    }
}

/// An execution whose run has come to `after`.
pub open spec fn acting(service: TextServiceView, after: Advanced) -> Executed {
    let service = TextServiceView { composition: after.composition, ..service };
    let progress = after.run.locals.progress;
    match after.next {
        RunNextView::Perform(effect) => Executed {
            execution: ExecutionView::Acting(after.run),
            service,
            next: ExecutionNextView::Perform(effect),
        },
        RunNextView::Finished(Ok(_)) => Executed {
            execution: ExecutionView::Finished,
            service,
            next: ExecutionNextView::Finished(ActionExecution::Applied),
        },
        RunNextView::Finished(Err(error)) => recovering(
            error,
            progress,
            service.settle_begun(
                SettlePurpose::FailedAction { started_composition: progress.started_composition },
            ),
        ),
    }
}

impl TextServiceView {
    /// Begins to run actions.
    pub open spec fn execution_begun(
        self,
        actions: Seq<ClientAction<Seq<char>>>,
        transition: CompositionState,
        ipc: bool,
    ) -> Executed {
        let run = started_run(self.composition, self.mode, ipc, actions, transition);
        acting(self, advanced(run.locals, run.steps, self.composition))
    }

    /// Goes on after a reply.
    pub open spec fn execution_resumed(
        self,
        execution: ExecutionView,
        reply: ReplyView,
    ) -> Executed {
        match execution {
            ExecutionView::Acting(run) => acting(self, resumed(run, reply, self.composition)),
            ExecutionView::Recovering { settling, error, progress } => recovering(
                error,
                progress,
                self.settle_resumed(settling, reply),
            ),
            ExecutionView::Finished => Executed {
                execution,
                service: self,
                next: ExecutionNextView::Finished(ActionExecution::Applied),
            },
        }
    }

    /// What decides how a key is answered.
    pub open spec fn key_situation(
        self,
        ipc_available: bool,
        shortcut_pressed: bool,
    ) -> KeySituation {
        KeySituation {
            state: self.composition.state,
            tip_exists: self.composition.tip_composition is Some,
            is_last_input: self.composition.raw_hiragana.len() <= 1,
            suffix_is_empty: self.composition.suffix.len() == 0,
            mode: self.mode,
            ipc_available,
            shortcut_pressed,
        }
    }
}

impl Execution {
    /// The run is valid.
    pub open spec fn is_valid(self) -> bool {
        self matches Execution::Acting(run) ==> run.is_valid()
    }
}

fn recover(
    error: ActionError,
    progress: ActionProgress,
    next: SettleNext,
) -> (stepped: (Execution, ExecutionNext))
    ensures
        stepped.0.is_valid(),
        forall|service: TextServiceView| #[trigger]
            recovering(error, progress, (service, next)) == (Executed {
                execution: stepped.0@,
                service,
                next: stepped.1@,
            }),
{
    match next {
        SettleNext::Waiting(settling) => (
            Execution::Recovering { settling, error, progress },
            ExecutionNext::Perform(settling.effect()),
        ),
        SettleNext::Finished(settled) => (
            Execution::Finished,
            ExecutionNext::Finished(
                ActionExecution::Failed {
                    error,
                    disposition: failed_key_disposition(progress, settled != Settled::Failed),
                },
            ),
        ),
    }
}

fn act(service: &mut TextService, run: ActionRun, next: RunNext) -> (stepped: (
    Execution,
    ExecutionNext,
))
    requires
        run.is_valid(),
    ensures
        stepped.0.is_valid(),
        acting(
            old(service)@,
            (Advanced { run: run@, composition: old(service)@.composition, next: next@ }),
        ) == (Executed {
            execution: stepped.0@,
            service: final(service)@,
            next: stepped.1@,
        }),
{
    match next {
        RunNext::Perform(effect) => (Execution::Acting(run), ExecutionNext::Perform(effect)),
        RunNext::Finished(Ok(_)) => (
            Execution::Finished,
            ExecutionNext::Finished(ActionExecution::Applied),
        ),
        RunNext::Finished(Err(error)) => {
            let progress = run.progress();
            let next = service.settle(
                SettlePurpose::FailedAction { started_composition: progress.started_composition },
            );
            recover(error, progress, next)
        },
    }
}

impl TextService {
    /// Begins to run `actions`. `ipc` tells whether there is a connection to the
    /// server, and `transition` is the state after the run.
    pub fn execute_actions(
        &mut self,
        actions: &[ClientAction],
        transition: CompositionState,
        ipc: bool,
    ) -> (stepped: (Execution, ExecutionNext))
        ensures
            stepped.0.is_valid(),
            old(self)@.execution_begun(actions_view(actions@), transition, ipc) == (Executed {
                execution: stepped.0@,
                service: final(self)@,
                next: stepped.1@,
            }),
    {
        let mut run = ActionRun::start(&self.composition, self.mode, ipc, actions, transition);
        let next = run.advance(&mut self.composition);
        act(self, run, next)
    }

    /// Goes on after a reply.
    pub fn resume_actions(&mut self, execution: Execution, reply: Reply) -> (stepped: (
        Execution,
        ExecutionNext,
    ))
        requires
            execution.is_valid(),
        ensures
            stepped.0.is_valid(),
            old(self)@.execution_resumed(execution@, reply@) == (Executed {
                execution: stepped.0@,
                service: final(self)@,
                next: stepped.1@,
            }),
    {
        match execution {
            Execution::Acting(run) => {
                let mut run = run;
                let next = run.resume(&mut self.composition, reply);
                act(self, run, next)
            },
            Execution::Recovering { settling, error, progress } => {
                let next = self.resume_settling(settling, &reply);
                recover(error, progress, next)
            },
            Execution::Finished => (
                Execution::Finished,
                ExecutionNext::Finished(ActionExecution::Applied),
            ),
        }
    }
}

/// What a text service is asked to do with a key.
#[derive(Clone, Copy, Debug, PartialEq, Eq, Structural)]
pub enum KeyCommand {
    /// Find out what the key means and do it.
    HandleKey,
    /// Switch between the input modes, whatever the modifier keys.
    ToggleInputMode,
}

/// A key being handled.
#[derive(Debug)]
pub enum KeyStage {
    Cleanup(Settling),
    ModeChange(Settling),
    FindingServerForMode,
    ShowingMode,
    ReadingKey,
    FindingServer { actions: Vec<ClientAction>, transition: CompositionState },
    Executing(Execution),
    Finished,
}

/// The contents of a `KeyStage`.
#[verifier::ext_equal]
pub enum KeyStageView {
    Cleanup(Settling),
    ModeChange(Settling),
    FindingServerForMode,
    ShowingMode,
    ReadingKey,
    FindingServer(KeyAnswer),
    Executing(ExecutionView),
    Finished,
}

impl View for KeyStage {
    type V = KeyStageView;

    open spec fn view(&self) -> KeyStageView {
        match self {
            KeyStage::Cleanup(settling) => KeyStageView::Cleanup(*settling),
            KeyStage::ModeChange(settling) => KeyStageView::ModeChange(*settling),
            KeyStage::FindingServerForMode => KeyStageView::FindingServerForMode,
            KeyStage::ShowingMode => KeyStageView::ShowingMode,
            KeyStage::ReadingKey => KeyStageView::ReadingKey,
            KeyStage::FindingServer { actions, transition } => KeyStageView::FindingServer(
                KeyAnswer { actions: actions_view(actions@), state: *transition },
            ),
            KeyStage::Executing(execution) => KeyStageView::Executing(execution@),
            KeyStage::Finished => KeyStageView::Finished,
        }
    }
}

impl KeyStage {
    /// The run is valid.
    pub open spec fn is_valid(self) -> bool {
        self matches KeyStage::Executing(execution) ==> execution.is_valid()
    }
}

/// What came of a key.
#[derive(Clone, Copy, Debug, PartialEq, Eq, Structural)]
pub enum KeyOutcome {
    /// The key was handled, and is kept from the host.
    Eaten,
    /// The host gets the key.
    PassedThrough,
    /// It could not be found out what the key means.
    Failed,
}

/// What handling a key does next.
#[derive(Debug)]
pub enum KeyNext {
    Perform(Effect),
    Finished(KeyOutcome),
}

/// The contents of a `KeyNext`.
#[verifier::ext_equal]
pub enum KeyNextView {
    Perform(EffectView),
    Finished(KeyOutcome),
}

impl View for KeyNext {
    type V = KeyNextView;

    open spec fn view(&self) -> KeyNextView {
        match self {
            KeyNext::Perform(effect) => KeyNextView::Perform(effect@),
            KeyNext::Finished(outcome) => KeyNextView::Finished(*outcome),
        }
    }
}

/// Where handling a key has come to.
#[verifier::ext_equal]
pub struct KeyHandled {
    pub service: TextServiceView,
    pub stage: KeyStageView,
    pub next: KeyNextView,
}

impl TextServiceView {
    /// The key has come to its end.
    pub open spec fn key_finished(self, outcome: KeyOutcome) -> KeyHandled {
        KeyHandled {
            service: self,
            stage: KeyStageView::Finished,
            next: KeyNextView::Finished(outcome),
        }
    }

    /// The key waits for outside work.
    pub open spec fn key_waits(self, stage: KeyStageView, effect: EffectView) -> KeyHandled {
        KeyHandled { service: self, stage, next: KeyNextView::Perform(effect) }
    }

    /// Begins to handle a key. Without a context the host gets it.
    pub open spec fn key_begun(self, command: KeyCommand, context: Option<u64>) -> KeyHandled {
        if context is None {
            self.key_finished(KeyOutcome::PassedThrough)
        } else {
            let service = TextServiceView { context, ..self };
            key_cleaning_up(command, service.settle_begun(SettlePurpose::PendingCleanup))
        }
    }

    /// Goes on once nothing is left to settle.
    pub open spec fn key_settled(self, command: KeyCommand) -> KeyHandled {
        match command {
            KeyCommand::HandleKey => self.key_waits(
                KeyStageView::FindingServerForMode,
                EffectView::SnapshotIpc,
            ),
            KeyCommand::ToggleInputMode => {
                let requested = self.mode.other();
                let answer = KeyAnswer {
                    actions: seq![ClientAction::SetIMEMode(requested)],
                    state: state_after_mode_command(self.composition.state, self.mode, requested),
                };
                self.key_waits(KeyStageView::FindingServer(answer), EffectView::SnapshotIpc)
            },
        }
    }

    /// Goes on after a reply.
    pub open spec fn key_resumed(
        self,
        command: KeyCommand,
        stage: KeyStageView,
        reply: ReplyView,
    ) -> KeyHandled {
        match stage {
            KeyStageView::Cleanup(settling) => key_cleaning_up(
                command,
                self.settle_resumed(settling, reply),
            ),
            KeyStageView::ModeChange(settling) => key_changing_mode(
                command,
                self.settle_resumed(settling, reply),
            ),
            KeyStageView::FindingServerForMode => if reply == ReplyView::Ipc(true) {
                self.key_waits(KeyStageView::ShowingMode, EffectView::SetInputMode(self.mode))
            } else {
                self.key_waits(KeyStageView::ReadingKey, EffectView::ReadKey)
            },
            KeyStageView::ShowingMode => {
                self.key_waits(KeyStageView::ReadingKey, EffectView::ReadKey)
            },
            KeyStageView::ReadingKey => match reply {
                ReplyView::Key { action, ipc_available, shortcut_pressed } => {
                    let situation = self.key_situation(ipc_available, shortcut_pressed);
                    match key_answer(situation, action) {
                        Some(answer) => self.key_waits(
                            KeyStageView::FindingServer(answer),
                            EffectView::SnapshotIpc,
                        ),
                        None => self.key_finished(KeyOutcome::PassedThrough),
                    }
                },
                _ => self.key_finished(KeyOutcome::Failed),
            },
            KeyStageView::FindingServer(answer) => key_executed(
                self.execution_begun(answer.actions, answer.state, reply == ReplyView::Ipc(true)),
            ),
            KeyStageView::Executing(execution) => key_executed(
                self.execution_resumed(execution, reply),
            ),
            KeyStageView::Finished => self.key_finished(KeyOutcome::PassedThrough),
        }
    }
}

/// Handles a key while an earlier failure is cleaned up. Where that does not
/// succeed the key is kept from the host, which could edit underneath the range
/// that is left.
pub open spec fn key_cleaning_up(
    command: KeyCommand,
    settled: (TextServiceView, SettleNext),
) -> KeyHandled {
    match settled.1 {
        SettleNext::Waiting(settling) => settled.0.key_waits(
            KeyStageView::Cleanup(settling),
            settling.awaited(),
        ),
        SettleNext::Finished(Settled::Failed) => settled.0.key_finished(KeyOutcome::Eaten),
        SettleNext::Finished(_) => key_changing_mode(
            command,
            settled.0.settle_begun(SettlePurpose::PendingMode),
        ),
    }
}

/// Handles a key while a mode change from outside is settled.
pub open spec fn key_changing_mode(
    command: KeyCommand,
    settled: (TextServiceView, SettleNext),
) -> KeyHandled {
    match settled.1 {
        SettleNext::Waiting(settling) => settled.0.key_waits(
            KeyStageView::ModeChange(settling),
            settling.awaited(),
        ),
        SettleNext::Finished(Settled::Failed) => settled.0.key_finished(KeyOutcome::Eaten),
        SettleNext::Finished(_) => settled.0.key_settled(command),
    }
}

/// Handles a key whose actions are being run.
pub open spec fn key_executed(executed: Executed) -> KeyHandled {
    match executed.next {
        ExecutionNextView::Perform(effect) => executed.service.key_waits(
            KeyStageView::Executing(executed.execution),
            effect,
        ),
        ExecutionNextView::Finished(outcome) => executed.service.key_finished(
            if outcome.eats() {
                KeyOutcome::Eaten
            } else {
                KeyOutcome::PassedThrough
            },
        ),
    }
}

/// A text service, as the host sees it.
#[derive(Debug)]
pub struct TextServiceFactory {
    pub text_service: TextService,
}

impl View for TextServiceFactory {
    type V = TextServiceView;

    open spec fn view(&self) -> TextServiceView {
        self.text_service@
    }
}

impl TextServiceFactory {
    /// Makes a service that was never activated.
    pub fn new() -> (factory: TextServiceFactory)
        ensures
            factory@ == TextServiceView::new(),
    {
        TextServiceFactory { text_service: TextService::default() }
    }

    /// Returns the generation of the composition.
    pub fn composition_generation(&self) -> (generation: u64)
        ensures
            generation == self@.composition.generation,
    {
        self.text_service.composition.generation
    }

    /// Tells whether a mode change from outside waits for the composition to
    /// end.
    pub fn has_pending_input_mode_transition(&self) -> (pending: bool)
        ensures
            pending == (self@.pending_input_mode_transition is Some),
    {
        self.text_service.pending_input_mode_transition.is_some()
    }

    /// Tells whether anything has to be settled before the next key.
    pub fn has_pending_key_cleanup(&self) -> (pending: bool)
        ensures
            pending == (self@.pending_composition_cleanup
                || self@.pending_input_mode_transition is Some),
    {
        self.text_service.pending_composition_cleanup
            || self.has_pending_input_mode_transition()
    }

    /// Drops the composition after the host has ended it, and begins to clear
    /// the server and the window.
    pub fn handle_composition_terminated(&mut self) -> (next: SettleNext)
        ensures
            (final(self)@, next) == old(self)@.settle_begun(SettlePurpose::HostEnded),
    {
        self.text_service.settle(SettlePurpose::HostEnded)
    }

    /// Begins to clean up after an earlier failure, where a clean-up is owed.
    pub fn finish_pending_composition_cleanup(&mut self) -> (next: SettleNext)
        ensures
            (final(self)@, next) == old(self)@.settle_begun(SettlePurpose::PendingCleanup),
    {
        self.text_service.settle(SettlePurpose::PendingCleanup)
    }

    /// Begins to clean up after actions have failed.
    pub fn recover_failed_action(&mut self, started_composition: bool) -> (next: SettleNext)
        ensures
            (final(self)@, next) == old(self)@.settle_begun(
                SettlePurpose::FailedAction { started_composition },
            ),
    {
        self.text_service.settle(SettlePurpose::FailedAction { started_composition })
    }

    /// Begins to settle a mode change from outside. It waits for a key, because
    /// the notice of the change may come while the host cannot be asked to end a
    /// composition.
    pub fn finish_pending_input_mode_transition(&mut self) -> (next: SettleNext)
        ensures
            (final(self)@, next) == old(self)@.settle_begun(SettlePurpose::PendingMode),
    {
        self.text_service.settle(SettlePurpose::PendingMode)
    }

    /// Goes on settling after a reply.
    pub fn resume_settling(&mut self, settling: Settling, reply: &Reply) -> (next: SettleNext)
        ensures
            (final(self)@, next) == old(self)@.settle_resumed(settling, reply@),
    {
        self.text_service.resume_settling(settling, reply)
    }

    /// Finds the actions that answer a key. Without a context, and where the
    /// answer is `None`, the host gets the key.
    pub fn process_key(
        &self,
        has_context: bool,
        action: UserAction,
        ipc_available: bool,
        shortcut_pressed: bool,
    ) -> (answered: Option<(Vec<ClientAction>, CompositionState)>)
        ensures
            key_answer_view(answered) == if has_context {
                key_answer(self@.key_situation(ipc_available, shortcut_pressed), action)
            } else {
                None
            },
    {
        if !has_context {
            return None;
        }
        let composition = &self.text_service.composition;
        let situation = KeySituation {
            state: composition.state,
            tip_exists: composition.tip_composition.is_some(),
            is_last_input: is_last_composing_character(composition.raw_hiragana.as_str()),
            suffix_is_empty: composition.suffix.as_str().is_empty(),
            mode: self.text_service.mode,
            ipc_available,
            shortcut_pressed,
        };
        answer_key(situation, action)
    }

    /// Begins to run actions, and to clean up where they fail.
    pub fn execute_actions(
        &mut self,
        actions: &[ClientAction],
        transition: CompositionState,
        ipc: bool,
    ) -> (stepped: (Execution, ExecutionNext))
        ensures
            stepped.0.is_valid(),
            old(self)@.execution_begun(actions_view(actions@), transition, ipc) == (Executed {
                execution: stepped.0@,
                service: final(self)@,
                next: stepped.1@,
            }),
    {
        self.text_service.execute_actions(actions, transition, ipc)
    }

    /// Begins to run actions that no key has asked for.
    pub fn handle_action(
        &mut self,
        actions: &[ClientAction],
        transition: CompositionState,
        ipc: bool,
    ) -> (stepped: (Execution, ExecutionNext))
        ensures
            stepped.0.is_valid(),
            old(self)@.execution_begun(actions_view(actions@), transition, ipc) == (Executed {
                execution: stepped.0@,
                service: final(self)@,
                next: stepped.1@,
            }),
    {
        self.execute_actions(actions, transition, ipc)
    }

    /// Goes on running actions after a reply.
    pub fn resume_actions(&mut self, execution: Execution, reply: Reply) -> (stepped: (
        Execution,
        ExecutionNext,
    ))
        requires
            execution.is_valid(),
        ensures
            stepped.0.is_valid(),
            old(self)@.execution_resumed(execution@, reply@) == (Executed {
                execution: stepped.0@,
                service: final(self)@,
                next: stepped.1@,
            }),
    {
        self.text_service.resume_actions(execution, reply)
    }

    fn key_done(&self, outcome: KeyOutcome) -> (stepped: (KeyStage, KeyNext))
        ensures
            stepped.0.is_valid(),
            self@.key_finished(outcome) == (KeyHandled {
                service: self@,
                stage: stepped.0@,
                next: stepped.1@,
            }),
    {
        (KeyStage::Finished, KeyNext::Finished(outcome))
    }

    fn key_after_execution(&self, stepped: (Execution, ExecutionNext)) -> (handled: (
        KeyStage,
        KeyNext,
    ))
        requires
            stepped.0.is_valid(),
        ensures
            handled.0.is_valid(),
            key_executed(
                Executed { execution: stepped.0@, service: self@, next: stepped.1@ },
            ) == (KeyHandled { service: self@, stage: handled.0@, next: handled.1@ }),
    {
        match stepped.1 {
            ExecutionNext::Perform(effect) => (
                KeyStage::Executing(stepped.0),
                KeyNext::Perform(effect),
            ),
            ExecutionNext::Finished(outcome) => self.key_done(
                if outcome.eaten() {
                    KeyOutcome::Eaten
                } else {
                    KeyOutcome::PassedThrough
                },
            ),
        }
    }

    fn key_after_settling(&self, command: KeyCommand) -> (stepped: (KeyStage, KeyNext))
        ensures
            stepped.0.is_valid(),
            self@.key_settled(command) == (KeyHandled {
                service: self@,
                stage: stepped.0@,
                next: stepped.1@,
            }),
    {
        match command {
            KeyCommand::HandleKey => (
                KeyStage::FindingServerForMode,
                KeyNext::Perform(Effect::SnapshotIpc),
            ),
            KeyCommand::ToggleInputMode => {
                let mode = self.text_service.mode;
                let (transition, actions) = input_mode_transition(
                    self.text_service.composition.state,
                    mode,
                    mode.toggled(),
                );
                (
                    KeyStage::FindingServer { actions, transition },
                    KeyNext::Perform(Effect::SnapshotIpc),
                )
            },
        }
    }

    fn key_after_mode_change(&mut self, command: KeyCommand, next: SettleNext) -> (stepped: (
        KeyStage,
        KeyNext,
    ))
        ensures
            stepped.0.is_valid(),
            key_changing_mode(command, (old(self)@, next)) == (KeyHandled {
                service: final(self)@,
                stage: stepped.0@,
                next: stepped.1@,
            }),
    {
        match next {
            SettleNext::Waiting(settling) => (
                KeyStage::ModeChange(settling),
                KeyNext::Perform(settling.effect()),
            ),
            SettleNext::Finished(Settled::Failed) => self.key_done(KeyOutcome::Eaten),
            SettleNext::Finished(_) => self.key_after_settling(command),
        }
    }

    fn key_after_cleanup(&mut self, command: KeyCommand, next: SettleNext) -> (stepped: (
        KeyStage,
        KeyNext,
    ))
        ensures
            stepped.0.is_valid(),
            key_cleaning_up(command, (old(self)@, next)) == (KeyHandled {
                service: final(self)@,
                stage: stepped.0@,
                next: stepped.1@,
            }),
    {
        match next {
            SettleNext::Waiting(settling) => (
                KeyStage::Cleanup(settling),
                KeyNext::Perform(settling.effect()),
            ),
            SettleNext::Finished(Settled::Failed) => self.key_done(KeyOutcome::Eaten),
            SettleNext::Finished(_) => {
                let next = self.finish_pending_input_mode_transition();
                self.key_after_mode_change(command, next)
            },
        }
    }

    fn begin_key(&mut self, command: KeyCommand, context: Option<u64>) -> (stepped: (
        KeyStage,
        KeyNext,
    ))
        ensures
            stepped.0.is_valid(),
            old(self)@.key_begun(command, context) == (KeyHandled {
                service: final(self)@,
                stage: stepped.0@,
                next: stepped.1@,
            }),
    {
        if context.is_none() {
            return self.key_done(KeyOutcome::PassedThrough);
        }
        self.text_service.context = context;
        let next = self.finish_pending_composition_cleanup();
        self.key_after_cleanup(command, next)
    }

    /// Begins to handle a key.
    pub fn handle_key(&mut self, context: Option<u64>) -> (stepped: (KeyStage, KeyNext))
        ensures
            stepped.0.is_valid(),
            old(self)@.key_begun(KeyCommand::HandleKey, context) == (KeyHandled {
                service: final(self)@,
                stage: stepped.0@,
                next: stepped.1@,
            }),
    {
        self.begin_key(KeyCommand::HandleKey, context)
    }

    /// Begins to switch between the input modes, whatever the modifier keys: the
    /// command may arrive after they have changed.
    pub fn handle_input_mode_toggle(&mut self, context: Option<u64>) -> (stepped: (
        KeyStage,
        KeyNext,
    ))
        ensures
            stepped.0.is_valid(),
            old(self)@.key_begun(KeyCommand::ToggleInputMode, context) == (KeyHandled {
                service: final(self)@,
                stage: stepped.0@,
                next: stepped.1@,
            }),
    {
        self.begin_key(KeyCommand::ToggleInputMode, context)
    }

    /// Goes on handling a key after a reply.
    pub fn resume_key(&mut self, command: KeyCommand, stage: KeyStage, reply: Reply) -> (stepped: (
        KeyStage,
        KeyNext,
    ))
        requires
            stage.is_valid(),
        ensures
            stepped.0.is_valid(),
            old(self)@.key_resumed(command, stage@, reply@) == (KeyHandled {
                service: final(self)@,
                stage: stepped.0@,
                next: stepped.1@,
            }),
    {
        match stage {
            KeyStage::Cleanup(settling) => {
                let next = self.resume_settling(settling, &reply);
                self.key_after_cleanup(command, next)
            },
            KeyStage::ModeChange(settling) => {
                let next = self.resume_settling(settling, &reply);
                self.key_after_mode_change(command, next)
            },
            KeyStage::FindingServerForMode => match reply {
                Reply::Ipc(true) => (
                    KeyStage::ShowingMode,
                    KeyNext::Perform(Effect::SetInputMode(self.text_service.mode)),
                ),
                _ => (KeyStage::ReadingKey, KeyNext::Perform(Effect::ReadKey)),
            },
            KeyStage::ShowingMode => (KeyStage::ReadingKey, KeyNext::Perform(Effect::ReadKey)),
            KeyStage::ReadingKey => match reply {
                Reply::Key { action, ipc_available, shortcut_pressed } => {
                    match self.process_key(true, action, ipc_available, shortcut_pressed) {
                        Some((actions, transition)) => (
                            KeyStage::FindingServer { actions, transition },
                            KeyNext::Perform(Effect::SnapshotIpc),
                        ),
                        None => self.key_done(KeyOutcome::PassedThrough),
                    }
                },
                _ => self.key_done(KeyOutcome::Failed),
            },
            KeyStage::FindingServer { actions, transition } => {
                let ipc = matches!(reply, Reply::Ipc(true));
                let stepped = self.execute_actions(actions.as_slice(), transition, ipc);
                self.key_after_execution(stepped)
            },
            KeyStage::Executing(execution) => {
                let stepped = self.resume_actions(execution, reply);
                self.key_after_execution(stepped)
            },
            KeyStage::Finished => self.key_done(KeyOutcome::PassedThrough),
        }
    }
}

/// Until what is left over has been settled, no key reaches the host: where the
/// host's range cannot be ended the key is eaten.
pub proof fn unsettled_keys_are_eaten(
    service: TextServiceView,
    command: KeyCommand,
    settling: Settling,
)
    requires
        settling.stage == crate::settling::SettleStage::EndingComposition,
    ensures
        service.key_resumed(command, KeyStageView::Cleanup(settling), ReplyView::Failed).next
            == KeyNextView::Finished(KeyOutcome::Eaten),
        service.key_resumed(command, KeyStageView::ModeChange(settling), ReplyView::Failed).next
            == KeyNextView::Finished(KeyOutcome::Eaten),
{
}

/// A key whose actions have made something visible, or insist on it, never
/// reaches the host, even where they fail.
pub proof fn visible_effects_keep_the_key(
    error: ActionError,
    progress: ActionProgress,
    settled: Settled,
)
    requires
        progress.visible_or_committed_effect || progress.must_eat_on_failure || settled
            == Settled::Failed,
    ensures
        failure(error, progress, settled).eats(),
{
}

/// Toggling the input mode asks for the other mode, whatever keys are down.
pub proof fn a_toggle_asks_for_the_other_mode(service: TextServiceView)
    ensures
        service.key_settled(KeyCommand::ToggleInputMode).stage == KeyStageView::FindingServer(
            KeyAnswer {
                actions: seq![ClientAction::SetIMEMode(service.mode.other())],
                state: CompositionState::Inactive,
            },
        ),
{
}

/// A key whose actions fail reaches the host only where nothing became visible, the
/// actions did not insist, and the clean-up succeeded; otherwise it is kept.
pub proof fn a_clean_failure_passes_the_key(
    error: ActionError,
    progress: ActionProgress,
    settled: Settled,
)
    ensures
        failure(error, progress, settled) matches ActionExecution::Failed {
            error: reported,
            disposition,
        } && reported == error && (disposition == FailedKeyDisposition::Eat <==> (settled
            == Settled::Failed || progress.visible_or_committed_effect
            || progress.must_eat_on_failure)),
        failure(error, progress, settled).eats() <==> (settled == Settled::Failed
            || progress.visible_or_committed_effect || progress.must_eat_on_failure),
        ActionExecution::Applied.eats(),
{
}

/// Without a context the host gets the key and nothing changes. With one, the
/// context is kept; with nothing to settle, the server is looked for first.
pub proof fn a_key_needs_a_context(
    service: TextServiceView,
    command: KeyCommand,
    context: u64,
)
    ensures
        ({
            let without = service.key_begun(command, None);
            &&& without.service == service
            &&& without.next == KeyNextView::Finished(KeyOutcome::PassedThrough)
        }),
        ({
            let with = service.key_begun(command, Some(context));
            let is_settled = !service.pending_composition_cleanup
                && service.pending_input_mode_transition is None;
            &&& with.service.context == Some(context)
            &&& is_settled ==> with.service == (TextServiceView {
                context: Some(context),
                ..service
            }) && with.next == KeyNextView::Perform(EffectView::SnapshotIpc)
            &&& service.pending_composition_cleanup ==> with.next == KeyNextView::Perform(
                EffectView::EndComposition,
            ) && with.stage is Cleanup
        }),
{
}

/// A key is read once nothing is left to settle: with a server the window is told
/// the mode first, and without one the key is read at once. Whatever comes of
/// telling the mode, the key is read.
pub proof fn a_key_is_read_after_the_mode_is_shown(
    service: TextServiceView,
    command: KeyCommand,
    reply: ReplyView,
)
    ensures
        ({
            let settled = service.key_settled(KeyCommand::HandleKey);
            let found = service.key_resumed(command, settled.stage, ReplyView::Ipc(true));
            let missed = service.key_resumed(command, settled.stage, ReplyView::Ipc(false));
            let shown = service.key_resumed(command, found.stage, reply);
            &&& settled.next == KeyNextView::Perform(EffectView::SnapshotIpc)
            &&& found.next == KeyNextView::Perform(EffectView::SetInputMode(service.mode))
            &&& missed.next == KeyNextView::Perform(EffectView::ReadKey)
            &&& shown.next == KeyNextView::Perform(EffectView::ReadKey)
            &&& shown.stage == missed.stage
            &&& settled.service == service
            &&& found.service == service
            &&& missed.service == service
            &&& shown.service == service
        }),
{
}

/// A key that was read is answered by what the composition is: how far it has come,
/// whether the host holds a range, whether one character is left at most, whether
/// text stands behind the preview, and the mode. A key that has no answer goes to
/// the host, and nothing changes; one that cannot be read is reported.
pub proof fn a_key_is_answered_by_the_composition(
    service: TextServiceView,
    command: KeyCommand,
    action: UserAction,
    situation: KeySituation,
)
    requires
        situation.state == service.composition.state,
        situation.tip_exists <==> service.composition.tip_composition is Some,
        situation.is_last_input <==> service.composition.raw_hiragana.len() <= 1,
        situation.suffix_is_empty <==> service.composition.suffix.len() == 0,
        situation.mode == service.mode,
    ensures
        ({
            let reply = ReplyView::Key {
                action,
                ipc_available: situation.ipc_available,
                shortcut_pressed: situation.shortcut_pressed,
            };
            let after = service.key_resumed(command, KeyStageView::ReadingKey, reply);
            &&& after.service == service
            &&& match key_answer(situation, action) {
                Some(answer) => after.stage == KeyStageView::FindingServer(answer) && after.next
                    == KeyNextView::Perform(EffectView::SnapshotIpc),
                None => after.next == KeyNextView::Finished(KeyOutcome::PassedThrough),
            }
        }),
        service.key_resumed(command, KeyStageView::ReadingKey, ReplyView::Failed).next
            == KeyNextView::Finished(KeyOutcome::Failed),
{
    assert(situation == service.key_situation(
        situation.ipc_available,
        situation.shortcut_pressed,
    ));
}

/// An answered key runs its own actions towards its own state, and with a server
/// exactly where one was found. A run that succeeds keeps the key from the host; one
/// that fails is cleaned up first, beginning with the host's range where there is a
/// composition or one was started.
pub proof fn an_answer_is_run(
    service: TextServiceView,
    command: KeyCommand,
    answer: KeyAnswer,
    ipc: bool,
)
    ensures
        ({
            let after = service.key_resumed(
                command,
                KeyStageView::FindingServer(answer),
                ReplyView::Ipc(ipc),
            );
            let run = started_run(
                service.composition,
                service.mode,
                ipc,
                answer.actions,
                answer.state,
            );
            let acted = advanced(run.locals, run.steps, service.composition);
            let progress = acted.run.locals.progress;
            match acted.next {
                RunNextView::Perform(effect) => after.next == KeyNextView::Perform(effect)
                    && after.service.composition == acted.composition,
                RunNextView::Finished(Ok(_)) => after.next == KeyNextView::Finished(
                    KeyOutcome::Eaten,
                ) && after.service.composition == acted.composition,
                RunNextView::Finished(Err(_)) => if acted.composition.tip_composition is Some
                    || acted.composition.state != CompositionState::Inactive
                    || progress.started_composition {
                    after.next == KeyNextView::Perform(EffectView::EndComposition)
                        && after.service.pending_composition_cleanup
                } else {
                    after.next == KeyNextView::Finished(
                        if progress.visible_or_committed_effect || progress.must_eat_on_failure {
                            KeyOutcome::Eaten
                        } else {
                            KeyOutcome::PassedThrough
                        },
                    )
                },
            }
        }),
{
}

} // verus!
