use azookey::action_run::ActionError;
use azookey::actions::{
    ClientAction, Function, Navigation, SetSelectionType, SetTextType, UserAction,
};
use azookey::candidates::Candidates;
use azookey::composition::{answer_key, CompositionState, FailedKeyDisposition, KeySituation};
use azookey::effects::{Effect, Reply};
use azookey::input_mode::InputMode;
use azookey::key_handling::{
    ActionExecution, ExecutionNext, KeyCommand, KeyNext, KeyOutcome, KeyStage, TextServiceFactory,
};
use azookey::settling::{SettleNext, Settled};
use azookey::text_service::PendingInputModeTransition;
use std::sync::Arc;

/// A host, a server and a window that note what they are asked for.
struct World {
    action: UserAction,
    shortcut: bool,
    connected: bool,
    candidates: Vec<(&'static str, &'static str, i32)>,
    hiragana: &'static str,
    raw_input: &'static str,
    /// Whether the host reports the end of a composition while it ends it.
    reports_end: bool,
    /// Whether the host ends the composition while its text is set.
    ends_on_text: bool,
    fails: &'static str,
    log: Vec<String>,
}

impl World {
    fn new(action: UserAction) -> World {
        World {
            action,
            shortcut: false,
            connected: true,
            candidates: vec![("変換", "のこり", 4), ("返還", "", 8)],
            hiragana: "へんかんのこり",
            raw_input: "henkannnokori",
            reports_end: true,
            ends_on_text: false,
            fails: "",
            log: Vec::new(),
        }
    }

    fn candidates(&self) -> Candidates {
        Candidates {
            texts: self.candidates.iter().map(|c| c.0.to_owned()).collect(),
            sub_texts: self.candidates.iter().map(|c| c.1.to_owned()).collect(),
            hiragana: Arc::new(self.hiragana.to_owned()),
            raw_input: Arc::new(self.raw_input.to_owned()),
            corresponding_count: self.candidates.iter().map(|c| c.2).collect(),
        }
    }

    fn terminate(&mut self, service: &mut TextServiceFactory) {
        let mut next = service.handle_composition_terminated();
        while let SettleNext::Waiting(settling) = next {
            next = service.resume_settling(settling, &Reply::Ipc(false));
        }
        assert_eq!(next, SettleNext::Finished(Settled::Done));
    }

    fn perform(&mut self, service: &mut TextServiceFactory, effect: Effect) -> Reply {
        let name = match &effect {
            Effect::UpdateContext {
                composition_utf16_count,
                committed_text,
            } => format!("context {composition_utf16_count} {committed_text}"),
            Effect::StartComposition => "start".to_owned(),
            Effect::EndComposition => "end".to_owned(),
            Effect::UpdatePosition => "position".to_owned(),
            Effect::SetText { text, subtext } => format!("text {text}|{subtext}"),
            Effect::ShiftStart { text, subtext } => format!("shift {text}|{subtext}"),
            Effect::SetInputModeCompartments(mode) => format!("compartments {mode:?}"),
            Effect::AppendText(text) => format!("append {text}"),
            Effect::RemoveText => "remove".to_owned(),
            Effect::CommitPrefixAndAppend { offset, text } => format!("commit {offset} {text}"),
            Effect::SetCandidateState { selection, .. } => format!("candidates {selection}"),
            Effect::SetSelection(index) => format!("selection {index}"),
            Effect::SetInputMode(mode) => format!("mode {mode:?}"),
            Effect::HideWindow => "hide".to_owned(),
            Effect::ClearText => "clear".to_owned(),
            Effect::SnapshotIpc => {
                return Reply::Ipc(self.connected);
            }
            Effect::ReadKey => {
                return Reply::Key {
                    action: self.action,
                    ipc_available: self.connected,
                    shortcut_pressed: self.shortcut,
                };
            }
        };
        let failed = !self.fails.is_empty() && name.starts_with(self.fails);
        self.log.push(name);
        if failed {
            return Reply::Failed;
        }
        match effect {
            Effect::StartComposition => {
                service.composition_started(77);
                Reply::Done
            }
            Effect::EndComposition => {
                if self.reports_end {
                    self.terminate(service);
                }
                service.composition_ended();
                Reply::Done
            }
            Effect::SetText { .. } => {
                if self.ends_on_text {
                    self.terminate(service);
                }
                Reply::Done
            }
            Effect::SetInputModeCompartments(mode) => {
                service.store_mode(mode);
                Reply::Mode(mode)
            }
            Effect::AppendText(_) | Effect::RemoveText | Effect::CommitPrefixAndAppend { .. } => {
                Reply::Candidates(self.candidates())
            }
            _ => Reply::Done,
        }
    }

    fn drive(
        &mut self,
        service: &mut TextServiceFactory,
        command: KeyCommand,
        begun: (KeyStage, KeyNext),
    ) -> KeyOutcome {
        let (mut stage, mut next) = begun;
        loop {
            match next {
                KeyNext::Finished(outcome) => return outcome,
                KeyNext::Perform(effect) => {
                    let reply = self.perform(service, effect);
                    (stage, next) = service.resume_key(command, stage, reply);
                }
            }
        }
    }

    fn press(&mut self, service: &mut TextServiceFactory) -> KeyOutcome {
        let begun = service.handle_key(Some(1));
        self.drive(service, KeyCommand::HandleKey, begun)
    }

    fn toggle(&mut self, service: &mut TextServiceFactory) -> KeyOutcome {
        let begun = service.handle_input_mode_toggle(Some(1));
        self.drive(service, KeyCommand::ToggleInputMode, begun)
    }
}

/// A service in kana mode.
fn kana() -> TextServiceFactory {
    let mut service = TextServiceFactory::new();
    service.store_mode(InputMode::Kana);
    service
}

/// A service in kana mode, with a composition.
fn composing() -> TextServiceFactory {
    let mut service = kana();
    let outcome = World::new(UserAction::Input('a')).press(&mut service);
    assert_eq!(outcome, KeyOutcome::Eaten);
    service
}

#[test]
fn the_first_character_starts_a_composition() {
    let mut service = kana();
    let mut world = World::new(UserAction::Input('k'));
    assert_eq!(world.press(&mut service), KeyOutcome::Eaten);
    assert_eq!(
        world.log,
        [
            "mode Kana",
            "context 0 ",
            "start",
            "position",
            "append k",
            "text 変換|のこり",
            "candidates 0",
        ]
    );
    let composition = &service.text_service.composition;
    assert_eq!(composition.preview.as_str(), "変換");
    assert_eq!(composition.suffix.as_str(), "のこり");
    assert_eq!(composition.raw_input.as_str(), "henkannnokori");
    assert_eq!(composition.raw_hiragana.as_str(), "へんかんのこり");
    assert_eq!(composition.corresponding_count, 4);
    assert_eq!(composition.state, CompositionState::Composing);
    assert_eq!(composition.tip_composition, Some(77));
    assert_eq!(composition.generation, 1);
}

#[test]
fn a_digit_is_sent_full_width() {
    let mut service = kana();
    let mut world = World::new(UserAction::Number(7));
    assert_eq!(world.press(&mut service), KeyOutcome::Eaten);
    assert!(world.log.contains(&"append ７".to_owned()));
}

#[test]
fn latin_keys_pass_through() {
    let mut service = TextServiceFactory::new();
    let mut world = World::new(UserAction::Input('k'));
    assert_eq!(world.press(&mut service), KeyOutcome::PassedThrough);
    assert_eq!(world.log, ["mode Latin"]);
}

#[test]
fn a_key_without_a_context_passes_through() {
    let mut service = kana();
    let mut world = World::new(UserAction::Input('k'));
    let begun = service.handle_key(None);
    assert_eq!(
        world.drive(&mut service, KeyCommand::HandleKey, begun),
        KeyOutcome::PassedThrough
    );
    assert!(world.log.is_empty());
}

#[test]
fn an_unreadable_key_fails() {
    let mut service = kana();
    let (stage, _) = service.handle_key(Some(1));
    let (stage, _) = service.resume_key(KeyCommand::HandleKey, stage, Reply::Ipc(false));
    let (_, next) = service.resume_key(KeyCommand::HandleKey, stage, Reply::Failed);
    assert!(matches!(next, KeyNext::Finished(KeyOutcome::Failed)));
}

#[test]
fn offline_typing_reaches_the_host() {
    let mut service = kana();
    let mut world = World::new(UserAction::Input('k'));
    world.connected = false;
    assert_eq!(world.press(&mut service), KeyOutcome::PassedThrough);
    assert!(world.log.is_empty());
}

#[test]
fn losing_the_server_ends_the_composition() {
    let mut service = composing();
    let mut world = World::new(UserAction::Input('k'));
    world.connected = false;
    world.shortcut = true;
    assert_eq!(world.press(&mut service), KeyOutcome::Eaten);
    assert_eq!(world.log, ["end"]);
    assert!(!service.text_service.composition.is_active());
}

#[test]
fn shortcuts_reach_the_host() {
    let mut service = composing();
    let mut world = World::new(UserAction::Input('k'));
    world.shortcut = true;
    assert_eq!(world.press(&mut service), KeyOutcome::PassedThrough);
    assert_eq!(world.log, ["mode Kana"]);
}

#[test]
fn the_selection_moves_within_the_candidates() {
    let mut service = composing();
    let mut world = World::new(UserAction::Space);
    assert_eq!(world.press(&mut service), KeyOutcome::Eaten);
    assert_eq!(world.log, ["mode Kana", "selection 1", "text 返還|"]);
    assert_eq!(service.text_service.composition.corresponding_count, 8);
    assert_eq!(
        service.text_service.composition.state,
        CompositionState::Previewing
    );

    let mut world = World::new(UserAction::Navigation(Navigation::Down));
    assert_eq!(world.press(&mut service), KeyOutcome::Eaten);
    assert_eq!(world.log, ["mode Kana", "selection 1", "text 返還|"]);

    for _ in 0..2 {
        let mut world = World::new(UserAction::Navigation(Navigation::Up));
        assert_eq!(world.press(&mut service), KeyOutcome::Eaten);
        assert_eq!(world.log, ["mode Kana", "selection 0", "text 変換|のこり"]);
    }
}

#[test]
fn typing_behind_a_preview_commits_it() {
    let mut service = composing();
    World::new(UserAction::Tab).press(&mut service);
    World::new(UserAction::Navigation(Navigation::Up)).press(&mut service);
    let mut world = World::new(UserAction::Input('b'));
    assert_eq!(world.press(&mut service), KeyOutcome::Eaten);
    assert_eq!(
        world.log,
        [
            "mode Kana",
            "context 5 変換",
            "commit 4 b",
            "shift 変換|変換のこり",
            "candidates 0",
            "position",
        ]
    );
    assert_eq!(
        service.text_service.composition.state,
        CompositionState::Composing
    );
}

#[test]
fn enter_commits_the_prefix_where_more_follows() {
    let mut service = composing();
    let mut world = World::new(UserAction::Enter);
    world.candidates = vec![("のこり", "", 3)];
    assert_eq!(world.press(&mut service), KeyOutcome::Eaten);
    assert_eq!(world.log[2], "commit 4 ");

    let mut world = World::new(UserAction::Enter);
    assert_eq!(world.press(&mut service), KeyOutcome::Eaten);
    assert_eq!(world.log, ["mode Kana", "end", "hide", "clear"]);
    assert!(!service.text_service.composition.is_active());
}

#[test]
fn escape_discards_the_composition() {
    let mut service = composing();
    let mut world = World::new(UserAction::Escape);
    assert_eq!(world.press(&mut service), KeyOutcome::Eaten);
    assert_eq!(world.log, ["mode Kana", "text |", "end", "hide", "clear"]);
    assert!(!service.text_service.composition.is_active());
    assert_eq!(service.text_service.composition.preview.as_str(), "");
}

#[test]
fn backspace_removes_or_discards() {
    let mut service = composing();
    let mut world = World::new(UserAction::Backspace);
    world.hiragana = "へ";
    world.candidates = vec![("へ", "", 1)];
    assert_eq!(world.press(&mut service), KeyOutcome::Eaten);
    assert_eq!(world.log, ["mode Kana", "remove", "text へ|", "candidates 0"]);

    let mut world = World::new(UserAction::Backspace);
    assert_eq!(world.press(&mut service), KeyOutcome::Eaten);
    assert_eq!(world.log[1], "text |");
    assert!(!service.text_service.composition.is_active());
}

#[test]
fn a_function_key_shows_another_script() {
    let mut service = composing();
    let mut world = World::new(UserAction::Function(Function::Seven));
    assert_eq!(world.press(&mut service), KeyOutcome::Eaten);
    assert_eq!(world.log, ["mode Kana", "text ヘンカンノコリ|"]);
    let composition = &service.text_service.composition;
    assert_eq!(composition.preview.as_str(), "ヘンカンノコリ");
    assert_eq!(composition.suffix.as_str(), "");
    assert_eq!(composition.corresponding_count, 7);
}

#[test]
fn a_mode_key_ends_the_composition_and_changes_the_mode() {
    let mut service = composing();
    let mut world = World::new(UserAction::SetInputMode(InputMode::Latin));
    assert_eq!(world.press(&mut service), KeyOutcome::Eaten);
    assert_eq!(
        world.log,
        [
            "mode Kana",
            "end",
            "compartments Latin",
            "mode Latin",
            "clear",
        ]
    );
    assert_eq!(service.text_service.mode, InputMode::Latin);
    assert!(!service.text_service.composition.is_active());
}

#[test]
fn the_current_mode_can_be_asked_for_again() {
    let mut service = composing();
    let mut world = World::new(UserAction::SetInputMode(InputMode::Kana));
    assert_eq!(world.press(&mut service), KeyOutcome::Eaten);
    assert_eq!(world.log, ["mode Kana", "compartments Kana", "mode Kana"]);
    assert_eq!(
        service.text_service.composition.state,
        CompositionState::Composing
    );
}

#[test]
fn toggling_ignores_the_keys_that_are_down() {
    let mut service = kana();
    let mut world = World::new(UserAction::Unknown);
    world.shortcut = true;
    assert_eq!(world.toggle(&mut service), KeyOutcome::Eaten);
    assert_eq!(world.log, ["compartments Latin", "mode Latin", "clear"]);
    let mut world = World::new(UserAction::Unknown);
    assert_eq!(world.toggle(&mut service), KeyOutcome::Eaten);
    assert_eq!(world.log[0], "compartments Kana");
}

#[test]
fn a_failure_before_anything_is_visible_hands_the_key_to_the_host() {
    let mut service = kana();
    let mut world = World::new(UserAction::Input('k'));
    world.fails = "append";
    assert_eq!(world.press(&mut service), KeyOutcome::PassedThrough);
    assert_eq!(world.log.last().map(String::as_str), Some("end"));
    assert!(!service.text_service.composition.is_active());
    assert!(!service.has_pending_key_cleanup());
}

#[test]
fn context_and_position_never_fail_a_key() {
    for fails in ["context", "position"] {
        let mut service = kana();
        let mut world = World::new(UserAction::Input('k'));
        world.fails = fails;
        assert_eq!(world.press(&mut service), KeyOutcome::Eaten);
        assert_eq!(
            world.log,
            [
                "mode Kana",
                "context 0 ",
                "start",
                "position",
                "append k",
                "text 変換|のこり",
                "candidates 0",
            ]
        );
        assert!(service.text_service.composition.is_active());
        assert!(!service.has_pending_key_cleanup());
    }
    let mut service = composing();
    let mut world = World::new(UserAction::Input('k'));
    world.press(&mut service);
    let mut world = World::new(UserAction::Space);
    world.press(&mut service);
    let mut world = World::new(UserAction::Input('k'));
    world.fails = "context";
    assert_eq!(world.press(&mut service), KeyOutcome::Eaten);
    assert!(service.text_service.composition.is_active());
}

#[test]
fn actions_that_end_or_switch_insist_on_their_key() {
    for (action, fails) in [
        (UserAction::Escape, "text"),
        (UserAction::ToggleInputMode, "compartments"),
    ] {
        let mut service = composing();
        let mut world = World::new(action);
        world.fails = fails;
        assert_eq!(world.press(&mut service), KeyOutcome::Eaten);
        assert!(world.log.iter().any(|name| name.starts_with(fails)));
    }
    let mut service = kana();
    let mut world = World::new(UserAction::Input('k'));
    world.fails = "start";
    assert_eq!(world.press(&mut service), KeyOutcome::PassedThrough);
}

#[test]
fn a_failure_after_something_is_visible_keeps_the_key() {
    let mut service = kana();
    let mut world = World::new(UserAction::Input('k'));
    world.fails = "candidates";
    assert_eq!(world.press(&mut service), KeyOutcome::Eaten);
    assert!(!service.text_service.composition.is_active());
}

#[test]
fn an_owed_cleanup_keeps_keys_until_it_succeeds() {
    let mut service = composing();
    let mut world = World::new(UserAction::Enter);
    world.candidates = vec![("変換", "", 4)];
    world.press(&mut service);

    let mut world = World::new(UserAction::Escape);
    world.fails = "end";
    assert_eq!(world.press(&mut service), KeyOutcome::Eaten);
    assert!(service.has_pending_key_cleanup());

    let mut world = World::new(UserAction::Input('k'));
    world.fails = "end";
    assert_eq!(world.press(&mut service), KeyOutcome::Eaten);
    assert_eq!(world.log, ["end"]);
    assert!(service.has_pending_key_cleanup());

    let mut world = World::new(UserAction::Input('k'));
    assert_eq!(world.press(&mut service), KeyOutcome::Eaten);
    assert_eq!(world.log[0], "end");
    assert!(world.log.contains(&"append k".to_owned()));
    assert!(!service.has_pending_key_cleanup());
}

#[test]
fn a_host_that_reports_no_end_is_cleaned_up_anyway() {
    let mut service = composing();
    service.text_service.pending_composition_cleanup = true;
    let mut world = World::new(UserAction::Unknown);
    world.reports_end = false;
    assert_eq!(world.press(&mut service), KeyOutcome::PassedThrough);
    assert_eq!(world.log, ["end", "hide", "clear", "mode Kana"]);
    assert!(!service.text_service.composition.is_active());
}

#[test]
fn a_mode_change_from_outside_ends_the_composition_first() {
    let mut service = composing();
    service.store_mode(InputMode::Latin);
    service.text_service.pending_input_mode_transition = Some(PendingInputModeTransition {
        from: InputMode::Kana,
        to: InputMode::Latin,
    });
    assert!(service.has_pending_input_mode_transition());
    let mut world = World::new(UserAction::Input('k'));
    assert_eq!(world.press(&mut service), KeyOutcome::PassedThrough);
    assert_eq!(world.log, ["end", "mode Latin"]);
    assert!(!service.has_pending_input_mode_transition());
    assert!(!service.text_service.composition.is_active());
}

#[test]
fn a_composition_that_ends_underneath_is_not_brought_back() {
    let mut service = kana();
    let mut world = World::new(UserAction::Input('k'));
    world.ends_on_text = true;
    assert_eq!(world.press(&mut service), KeyOutcome::Eaten);
    assert_eq!(
        world.log,
        [
            "mode Kana",
            "context 0 ",
            "start",
            "position",
            "append k",
            "text 変換|のこり",
            "hide",
            "clear",
        ]
    );
    assert!(!service.text_service.composition.is_active());
    assert_eq!(service.text_service.composition.preview.as_str(), "");
}

#[test]
fn actions_can_be_run_on_their_own() {
    let mut service = kana();
    service.text_service.context = Some(1);
    let actions = [ClientAction::AppendText("a".to_owned())];
    let (_, next) = service.handle_action(&actions, CompositionState::Composing, false);
    let ExecutionNext::Finished(outcome) = next else {
        panic!("the run waits");
    };
    assert_eq!(
        outcome,
        ActionExecution::Failed {
            error: ActionError::IpcMissing,
            disposition: FailedKeyDisposition::PassThrough,
        }
    );
    assert_eq!(outcome.result(), Err(ActionError::IpcMissing));
    assert_eq!(ActionError::IpcMissing.message(), Some("ipc_service is None"));
}

/// Runs actions to their end, with the given candidates from the server.
fn run(
    candidates: Candidates,
    service: &mut TextServiceFactory,
    actions: &[ClientAction],
) -> ActionExecution {
    let mut offered = Some(candidates);
    let (mut execution, mut next) =
        service.execute_actions(actions, CompositionState::Composing, true);
    loop {
        match next {
            ExecutionNext::Finished(outcome) => return outcome,
            ExecutionNext::Perform(effect) => {
                let reply = match effect {
                    Effect::AppendText(_)
                    | Effect::RemoveText
                    | Effect::CommitPrefixAndAppend { .. } => {
                        Reply::Candidates(offered.take().unwrap())
                    }
                    _ => Reply::Done,
                };
                (execution, next) = service.resume_actions(execution, reply);
            }
        }
    }
}

#[test]
fn incomplete_candidates_are_errors() {
    let error = |texts: Vec<String>, sub_texts: Vec<String>, counts: Vec<i32>| {
        let candidates = Candidates {
            texts,
            sub_texts,
            corresponding_count: counts,
            ..Candidates::default()
        };
        let mut service = kana();
        let actions = [ClientAction::AppendText("a".to_owned())];
        run(candidates, &mut service, &actions).result().unwrap_err()
    };
    let text = || vec!["a".to_owned()];
    assert_eq!(
        error(vec![], vec![], vec![]),
        ActionError::CandidateTextEmpty
    );
    assert_eq!(
        error(text(), vec![], vec![]),
        ActionError::CandidateSubtextEmpty
    );
    assert_eq!(
        error(text(), text(), vec![]),
        ActionError::CandidateCountEmpty
    );
}

#[test]
fn a_selection_out_of_range_is_an_error() {
    let select = |texts: usize, sub_texts: usize, counts: usize| {
        let mut service = kana();
        service.text_service.composition.candidates = Arc::new(Candidates {
            texts: vec![String::new(); texts],
            sub_texts: vec![String::new(); sub_texts],
            corresponding_count: vec![0; counts],
            ..Candidates::default()
        });
        let actions = [ClientAction::SetSelection(SetSelectionType::Number(5))];
        let outcome = run(Candidates::default(), &mut service, &actions);
        (outcome.result(), service.text_service.composition.selection_index)
    };
    assert_eq!(
        select(0, 0, 0),
        (Err(ActionError::SelectionOutOfRange), 0)
    );
    assert_eq!(
        select(2, 1, 1),
        (Err(ActionError::SubtextSelectionOutOfRange), 0)
    );
    assert_eq!(
        select(2, 2, 1),
        (Err(ActionError::CountSelectionOutOfRange), 0)
    );
    assert_eq!(select(2, 2, 2), (Ok(()), 1));
}

#[test]
fn removing_text_survives_empty_candidates() {
    let mut service = kana();
    let outcome = run(
        Candidates::default(),
        &mut service,
        &[ClientAction::RemoveText],
    );
    assert_eq!(outcome, ActionExecution::Applied);
    assert_eq!(service.text_service.composition.corresponding_count, 0);
}

#[test]
fn errors_have_their_messages() {
    assert_eq!(ActionError::Outside.message(), None);
    assert_eq!(
        ActionError::CandidateTextEmpty.message(),
        Some("candidate text is empty")
    );
    assert_eq!(
        ActionError::CandidateSubtextEmpty.message(),
        Some("candidate subtext is empty")
    );
    assert_eq!(
        ActionError::CandidateCountEmpty.message(),
        Some("candidate corresponding_count is empty")
    );
    assert_eq!(
        ActionError::SelectionOutOfRange.message(),
        Some("candidate selection is out of range")
    );
    assert_eq!(
        ActionError::SubtextSelectionOutOfRange.message(),
        Some("candidate subtext selection is out of range")
    );
    assert_eq!(
        ActionError::CountSelectionOutOfRange.message(),
        Some("candidate corresponding_count selection is out of range")
    );
}

#[test]
fn every_key_has_its_answer() {
    let situation = KeySituation {
        state: CompositionState::Composing,
        tip_exists: true,
        is_last_input: false,
        suffix_is_empty: false,
        mode: InputMode::Kana,
        ipc_available: true,
        shortcut_pressed: false,
    };
    let answer = |situation, action| answer_key(situation, action);
    assert_eq!(
        answer(situation, UserAction::Navigation(Navigation::Left)),
        Some((
            vec![ClientAction::MoveCursor(-1)],
            CompositionState::Composing
        ))
    );
    assert_eq!(
        answer(situation, UserAction::Navigation(Navigation::Right)),
        Some((
            vec![ClientAction::MoveCursor(1)],
            CompositionState::Composing
        ))
    );
    for (key, set_type) in [
        (Function::Six, SetTextType::Hiragana),
        (Function::Seven, SetTextType::Katakana),
        (Function::Eight, SetTextType::HalfKatakana),
        (Function::Nine, SetTextType::FullLatin),
        (Function::Ten, SetTextType::HalfLatin),
    ] {
        assert_eq!(
            answer(situation, UserAction::Function(key)),
            Some((
                vec![ClientAction::SetTextWithType(set_type)],
                CompositionState::Previewing
            ))
        );
    }
    assert_eq!(answer(situation, UserAction::Unknown), None);
    let selecting = KeySituation {
        state: CompositionState::Selecting,
        ..situation
    };
    assert_eq!(answer(selecting, UserAction::Enter), None);
    assert_eq!(
        answer(selecting, UserAction::ToggleInputMode),
        Some((
            vec![ClientAction::SetIMEMode(InputMode::Latin)],
            CompositionState::Inactive
        ))
    );
}
