use azookey::actions::{ClientAction, SetTextType};
use azookey::candidates::{Candidates, ComposingText};
use azookey::compartments::{
    compartment_updates, input_mode_from_compartments, is_input_mode_compartment,
    CompartmentUpdate, HIRAGANA_CONVERSION_MODE,
};
use azookey::composition::{
    candidate_display_text, displayed_utf16_count, failed_key_disposition, input_mode_transition,
    is_last_composing_character, snapshot_is_current, ActionProgress, Composition,
    CompositionState, FailedKeyDisposition,
};
use azookey::diagnostics::{formatted_line, log_file_pid};
use azookey::edit_session::take_sync_result;
use azookey::ime_state::{reconnect_is_due, IPC_RECONNECT_RETRY_INTERVAL};
use azookey::input_mode::InputMode;
use azookey::kana::text_with_type;
use azookey::keys::{
    input_mode_preserved_keys, is_input_mode_preserved_key, is_key_repeat,
    should_claim_pending_cleanup, should_log_input_mode_key, should_use_direct_alt_grave,
    with_preserved_key, PRESERVED_ALT_GRAVE, PRESERVED_KANJI, PREVIOUS_KEY_STATE_BIT,
};
use azookey::text_service::{
    next_pending_input_mode_transition, BackspaceRepeatState, HostError,
    PendingInputModeTransition,
};
use std::sync::Arc;

/// Values of the Windows SDK.
const S_OK: i32 = 0;
const E_FAIL: i32 = 0x8000_4005_u32 as i32;
const TF_S_ASYNC: i32 = 0x0004_0300;
const VK_OEM_3: u32 = 0xC0;
const VK_KANJI: u32 = 0x19;
const TF_MOD_ALT: u32 = 1;
const TF_MOD_IGNORE_ALL_MODIFIER: u32 = 1024;
const KEYBOARD_OPENCLOSE: u128 = 0x58273aad_01bb_4164_95c6_755ba0b5162d;
const KEYBOARD_INPUTMODE_CONVERSION: u128 = 0xccf05dd8_4a87_11d7_a6e2_00065b84435c;

fn millis(count: u64) -> u64 {
    count * 1_000_000
}

#[test]
fn diagnostic_line_contains_only_the_explicit_event_fields() {
    let line = formatted_line("mode_key", 7, 9, "vk=192 alt=true eaten=true");
    assert!(line.contains("event=mode_key"));
    assert!(line.contains("vk=192 alt=true eaten=true"));
    assert!(!line.contains("candidate="));
    assert!(!line.contains("text="));
}

#[test]
fn diagnostic_log_filename_exposes_only_its_numeric_pid() {
    assert_eq!(
        log_file_pid("client-1234-123456789-x86_64.log"),
        Some(1234)
    );
    assert_eq!(log_file_pid("unrelated.log"), None);
    assert_eq!(log_file_pid("client-nope-x86.log"), None);
}

#[test]
fn last_input_check_handles_multibyte_characters() {
    assert!(is_last_composing_character(""));
    assert!(is_last_composing_character("あ"));
    assert!(!is_last_composing_character("あい"));
    assert!(!is_last_composing_character("ab"));
}

#[test]
fn function_key_text_uses_server_canonical_raw_input() {
    let raw_input = "kyou";
    let hiragana = "きょう";

    assert_eq!(
        text_with_type(&SetTextType::Hiragana, raw_input, hiragana),
        "きょう"
    );
    assert_eq!(
        text_with_type(&SetTextType::Katakana, raw_input, hiragana),
        "キョウ"
    );
    assert_eq!(
        text_with_type(&SetTextType::HalfKatakana, raw_input, hiragana),
        "ｷｮｳ"
    );
    assert_eq!(
        text_with_type(&SetTextType::FullLatin, raw_input, hiragana),
        "ｋｙｏｕ"
    );
    assert_eq!(
        text_with_type(&SetTextType::HalfLatin, raw_input, hiragana),
        "kyou"
    );
}

#[test]
fn committed_prefix_replacement_keeps_the_new_suffix_visible() {
    assert_eq!(candidate_display_text("変換", "のこり"), "変換のこり");
}

#[test]
fn displayed_composition_count_uses_utf16_code_units() {
    assert_eq!(displayed_utf16_count("変換😀", "後🚀"), 7);
}

#[test]
fn nested_termination_invalidates_outer_snapshot() {
    assert!(snapshot_is_current(7, 7));
    assert!(!snapshot_is_current(7, 8));
    assert!(!snapshot_is_current(u64::MAX, 0));
}

#[test]
fn local_reset_clears_stale_preedit_and_advances_generation() {
    let mut composition = Composition {
        preview: Arc::new("変換".to_owned()),
        suffix: Arc::new("中".to_owned()),
        raw_input: Arc::new("henkann".to_owned()),
        raw_hiragana: Arc::new("へんかん".to_owned()),
        corresponding_count: 4,
        selection_index: 2,
        state: CompositionState::Composing,
        generation: u64::MAX,
        ..Composition::default()
    };

    composition.reset();

    assert!(composition.preview.is_empty());
    assert!(composition.suffix.is_empty());
    assert!(composition.raw_input.is_empty());
    assert!(composition.raw_hiragana.is_empty());
    assert_eq!(composition.corresponding_count, 0);
    assert_eq!(composition.selection_index, 0);
    assert_eq!(composition.state, CompositionState::Inactive);
    assert!(composition.tip_composition.is_none());
    assert_eq!(composition.generation, 0);
}

#[test]
fn changing_input_mode_ends_the_composition_state() {
    let (state, actions) = input_mode_transition(
        CompositionState::Composing,
        InputMode::Kana,
        InputMode::Latin,
    );

    assert_eq!(state, CompositionState::Inactive);
    assert_eq!(actions, [ClientAction::SetIMEMode(InputMode::Latin)]);
}

#[test]
fn requesting_the_current_input_mode_preserves_composition_state() {
    let (state, actions) = input_mode_transition(
        CompositionState::Composing,
        InputMode::Kana,
        InputMode::Kana,
    );

    assert_eq!(state, CompositionState::Composing);
    assert_eq!(actions, [ClientAction::SetIMEMode(InputMode::Kana)]);
}

#[test]
fn input_mode_toggle_moves_both_directions() {
    for (current, expected) in [
        (InputMode::Latin, InputMode::Kana),
        (InputMode::Kana, InputMode::Latin),
    ] {
        let (state, actions) =
            input_mode_transition(CompositionState::Inactive, current, current.toggled());
        assert_eq!(state, CompositionState::Inactive);
        assert_eq!(actions, [ClientAction::SetIMEMode(expected)]);
    }
}

#[test]
fn failed_action_passes_through_only_after_no_effect_cleanup() {
    assert_eq!(
        failed_key_disposition(ActionProgress::default(), true),
        FailedKeyDisposition::PassThrough
    );

    assert_eq!(
        failed_key_disposition(
            ActionProgress {
                started_composition: true,
                ..ActionProgress::default()
            },
            true,
        ),
        FailedKeyDisposition::PassThrough
    );
}

#[test]
fn failed_action_is_eaten_after_effect_or_failed_cleanup() {
    assert_eq!(
        failed_key_disposition(
            ActionProgress {
                visible_or_committed_effect: true,
                ..ActionProgress::default()
            },
            true,
        ),
        FailedKeyDisposition::Eat
    );
    assert_eq!(
        failed_key_disposition(
            ActionProgress {
                must_eat_on_failure: true,
                ..ActionProgress::default()
            },
            true,
        ),
        FailedKeyDisposition::Eat
    );
    assert_eq!(
        failed_key_disposition(ActionProgress::default(), false),
        FailedKeyDisposition::Eat
    );
}

#[test]
fn empty_suggestions_fall_back_to_unconverted_text() {
    let candidates = Candidates::from_composing_text(Some(ComposingText {
        hiragana: "みへんかん".to_owned(),
        suggestions: Vec::new(),
        raw_input: "mihenkann".to_owned(),
    }))
    .unwrap();

    assert_eq!(candidates.texts, ["みへんかん"]);
    assert_eq!(candidates.sub_texts, [""]);
    assert_eq!(candidates.corresponding_count, [5]);
    assert_eq!(candidates.raw_input.as_str(), "mihenkann");
}

#[test]
fn reconnect_attempts_are_throttled_and_not_duplicated() {
    let start = millis(1000);
    assert!(reconnect_is_due(None, None, start, false));
    assert!(!reconnect_is_due(Some(1), None, start, false));
    assert!(!reconnect_is_due(
        None,
        Some(start),
        start + IPC_RECONNECT_RETRY_INTERVAL - millis(1),
        false,
    ));
    assert!(reconnect_is_due(
        None,
        Some(start),
        start + IPC_RECONNECT_RETRY_INTERVAL,
        false,
    ));
}

#[test]
fn failure_forces_retry_without_allowing_duplicate_worker() {
    let start = millis(1000);
    assert!(reconnect_is_due(None, Some(start), start, true));
    assert!(!reconnect_is_due(Some(2), Some(start), start, true));
}

#[test]
fn synchronous_session_requires_its_callback_result() {
    assert_eq!(take_sync_result(S_OK, Some(7)).unwrap(), 7);
    assert!(take_sync_result::<()>(S_OK, None).is_err());
    assert!(take_sync_result::<()>(TF_S_ASYNC, None).is_err());
}

#[test]
fn synchronous_session_propagates_inner_hresult_failure() {
    let error = take_sync_result(E_FAIL, Some(())).unwrap_err();
    assert_eq!(error, HostError::Refused(E_FAIL));
}

#[test]
fn compartment_values_reduce_to_supported_input_modes() {
    assert_eq!(
        input_mode_from_compartments(Some(0), Some(HIRAGANA_CONVERSION_MODE)),
        InputMode::Latin
    );
    assert_eq!(
        input_mode_from_compartments(Some(1), Some(HIRAGANA_CONVERSION_MODE)),
        InputMode::Kana
    );
    assert_eq!(
        input_mode_from_compartments(Some(1), Some(0)),
        InputMode::Latin
    );
    assert_eq!(
        input_mode_from_compartments(Some(0), Some(0)),
        InputMode::Latin
    );
    assert_eq!(input_mode_from_compartments(None, None), InputMode::Latin);
}

#[test]
fn outbound_updates_preserve_conversion_when_closing() {
    assert_eq!(
        compartment_updates(InputMode::Latin),
        [CompartmentUpdate::OpenClose(0)]
    );
}

#[test]
fn outbound_updates_configure_hiragana_before_opening() {
    assert_eq!(
        compartment_updates(InputMode::Kana),
        [
            CompartmentUpdate::Conversion(HIRAGANA_CONVERSION_MODE),
            CompartmentUpdate::OpenClose(1),
        ]
    );
}

#[test]
fn event_routing_accepts_only_the_two_input_mode_compartments() {
    assert!(is_input_mode_compartment(
        KEYBOARD_OPENCLOSE
    ));
    assert!(is_input_mode_compartment(
        KEYBOARD_INPUTMODE_CONVERSION
    ));
    assert!(!is_input_mode_compartment(0));
}

#[test]
fn detects_only_the_previous_key_state_bit() {
    assert!(!is_key_repeat(0));
    assert!(!is_key_repeat(1));
    assert!(is_key_repeat(PREVIOUS_KEY_STATE_BIT as isize));
}

#[test]
fn pending_cleanup_is_claimed_before_ipc_key_classification() {
    assert!(should_claim_pending_cleanup(true, true));
    assert!(!should_claim_pending_cleanup(true, false));
    assert!(!should_claim_pending_cleanup(false, true));
}

#[test]
fn only_the_input_mode_command_guid_is_claimed() {
    let input_mode_key = 0x1234_5678_90ab_cdef;
    assert!(is_input_mode_preserved_key(input_mode_key, input_mode_key));
    assert!(!is_input_mode_preserved_key(
        0,
        input_mode_key
    ));
}

#[test]
fn preserved_key_definitions_cover_101_and_japanese_keyboards() {
    let keys = input_mode_preserved_keys();
    assert_eq!(keys[0].0, PRESERVED_ALT_GRAVE);
    assert_eq!(keys[0].1.virtual_key, VK_OEM_3);
    assert_eq!(keys[0].1.modifiers, TF_MOD_ALT);
    assert_eq!(keys[1].0, PRESERVED_KANJI);
    assert_eq!(keys[1].1.virtual_key, VK_KANJI);
    assert_eq!(keys[1].1.modifiers, TF_MOD_IGNORE_ALL_MODIFIER);
}

#[test]
fn direct_alt_grave_is_only_a_fallback_for_an_unowned_shortcut() {
    let grave = VK_OEM_3 as usize;
    assert!(should_use_direct_alt_grave(grave, true, false, 0));
    assert!(!should_use_direct_alt_grave(grave, false, false, 0));
    assert!(!should_use_direct_alt_grave(grave, true, true, 0));
    assert!(!should_use_direct_alt_grave(
        grave,
        true,
        false,
        PRESERVED_ALT_GRAVE
    ));
    assert!(!should_use_direct_alt_grave(0x41, true, false, 0));
}

#[test]
fn preserved_key_ownership_is_tracked_per_shortcut() {
    let only_alt_grave = with_preserved_key(0, PRESERVED_ALT_GRAVE, true);
    assert_eq!(only_alt_grave, PRESERVED_ALT_GRAVE);

    let both = with_preserved_key(only_alt_grave, PRESERVED_KANJI, true);
    assert_eq!(both, PRESERVED_ALT_GRAVE | PRESERVED_KANJI);

    assert_eq!(
        with_preserved_key(both, PRESERVED_ALT_GRAVE, false),
        PRESERVED_KANJI
    );
}

#[test]
fn diagnostic_filter_excludes_ordinary_typing_keys() {
    for key in [0x15, 0x16, 0x19, 0x1A, 0xF0, 0xF2, 0xF3, 0xF4] {
        assert!(should_log_input_mode_key(key, false));
    }
    assert!(should_log_input_mode_key(VK_OEM_3 as usize, true));
    assert!(!should_log_input_mode_key(VK_OEM_3 as usize, false));
    for key in [0x08, 0x20, 0x41, 0x5A] {
        assert!(!should_log_input_mode_key(key, false));
    }
}

#[test]
fn backspace_repeat_state_preserves_deferred_deletions() {
    let start = millis(1000);
    let mut state = BackspaceRepeatState::default();
    state.mark_batch_started(start);

    assert!(!state.should_defer(false, start + millis(1)));
    assert!(state.should_defer(true, start + millis(79)));
    state.defer(2);
    state.defer(3);
    assert_eq!(state.pending_count(), 5);
    assert_eq!(state.batch_count(1), 6);
    state.clear_pending();
    assert_eq!(state.pending_count(), 0);
    assert!(!state.should_defer(true, start + millis(80)));
}

#[test]
fn backspace_repeat_count_saturates_instead_of_wrapping() {
    let mut state = BackspaceRepeatState::default();
    state.defer(u32::MAX);
    state.defer(1);

    assert_eq!(state.take_pending(), u32::MAX);
}

#[test]
fn terminated_composition_does_not_leak_deletions_into_the_next_one() {
    let start = millis(1000);
    let mut state = BackspaceRepeatState::default();
    state.mark_batch_started(start);
    state.defer(4);

    state.clear_pending();

    assert_eq!(state.batch_count(1), 1);
    // Keep the short safety window so queued repeats cannot reach committed host text.
    assert!(state.should_defer(true, start + millis(1)));

    state.reset();
    assert!(!state.should_defer(true, start + millis(1)));
}

#[test]
fn thirty_hertz_repeat_sequence_keeps_every_deletion_while_batching_conversions() {
    let start = millis(1000);
    let mut state = BackspaceRepeatState::default();
    let mut processed_count = 0;
    let mut conversion_count = 0;

    for index in 0..30 {
        let now = start + millis(index * 33);
        let is_repeat = index != 0;
        if state.should_defer(is_repeat, now) {
            state.defer(1);
        } else {
            processed_count += state.batch_count(1);
            state.clear_pending();
            conversion_count += 1;
            state.mark_batch_started(now);
        }
    }
    processed_count += state.take_pending();

    assert_eq!(processed_count, 30);
    assert!(conversion_count < 15);
}

#[test]
fn pending_mode_transition_coalesces_to_the_latest_external_mode() {
    let pending =
        next_pending_input_mode_transition(None, InputMode::Kana, InputMode::Latin, true);
    assert_eq!(
        pending,
        Some(PendingInputModeTransition {
            from: InputMode::Kana,
            to: InputMode::Latin,
        })
    );

    assert_eq!(
        next_pending_input_mode_transition(pending, InputMode::Latin, InputMode::Kana, true),
        None
    );
}

#[test]
fn mode_change_without_a_composition_does_not_stay_pending() {
    assert_eq!(
        next_pending_input_mode_transition(
            Some(PendingInputModeTransition {
                from: InputMode::Kana,
                to: InputMode::Latin,
            }),
            InputMode::Latin,
            InputMode::Kana,
            false,
        ),
        None
    );
}
