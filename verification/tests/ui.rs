use azookey::candidate_window::{
    calculate_candidate_window_position, candidate_window_width, indicator_position,
    webview_data_directory_from_local_app_data, CandidateWindowState, UiCommand, UserEvent,
    WindowAction, CANDIDATE_CHARACTER_WIDTH, CANDIDATE_WINDOW_BASE_WIDTH,
    CANDIDATE_WINDOW_MAX_WIDTH, CANDIDATE_WINDOW_MIN_WIDTH,
};
use azookey::web_messages::{
    candidate_state_script, candidates_script, input_mode_script, page_height, resize_height,
    selection_script,
};

#[test]
fn candidate_width_is_bounded() {
    assert_eq!(
        candidate_window_width(&Vec::new()),
        CANDIDATE_WINDOW_MIN_WIDTH
    );
    assert_eq!(
        candidate_window_width(&vec!["あ".repeat(10_000)]),
        CANDIDATE_WINDOW_MAX_WIDTH
    );
}

#[test]
fn candidate_width_counts_characters_not_utf8_bytes() {
    let expected = (CANDIDATE_WINDOW_BASE_WIDTH + 10 * CANDIDATE_CHARACTER_WIDTH)
        .clamp(CANDIDATE_WINDOW_MIN_WIDTH, CANDIDATE_WINDOW_MAX_WIDTH);
    assert_eq!(candidate_window_width(&vec!["あ".repeat(10)]), expected);
}

#[test]
fn the_longest_candidate_counts() {
    let texts = vec!["あ".repeat(7), "あ".repeat(12), "あ".repeat(3)];
    assert_eq!(candidate_window_width(&texts), 336);
    assert_eq!(candidate_window_width(&vec!["あ".repeat(33)]), 714);
    assert_eq!(candidate_window_width(&vec!["あ".repeat(34)]), 720);
}

#[test]
fn initial_show_waits_for_both_caret_position_and_webview_height() {
    let mut state = CandidateWindowState::new(CANDIDATE_WINDOW_MIN_WIDTH);

    state.request_show();
    assert!(!state.should_show());

    state.set_anchor((100, 200, 120, 220));
    assert!(!state.should_show());

    state.set_content_height(180);
    assert!(state.should_show());
    assert_eq!(
        state.logical_size(),
        Some((CANDIDATE_WINDOW_MIN_WIDTH, 180))
    );
}

#[test]
fn hiding_the_window_drops_only_the_composition_scoped_anchor() {
    let mut state = CandidateWindowState::new(CANDIDATE_WINDOW_MIN_WIDTH);
    state.set_content_height(180);
    state.set_anchor((100, 200, 120, 220));
    state.request_show();
    assert!(state.should_show());

    state.dismiss();
    state.request_show();

    assert!(!state.should_show());
    assert!(state.anchor().is_none());
    assert_eq!(
        state.logical_size(),
        Some((CANDIDATE_WINDOW_MIN_WIDTH, 180))
    );
}

#[test]
fn measured_height_and_candidate_width_share_logical_pixel_units() {
    let mut state = CandidateWindowState::new(CANDIDATE_WINDOW_MIN_WIDTH);
    state.set_content_height(180);
    state.set_width(360);

    assert_eq!(state.logical_size(), Some((360, 180)));
}

#[test]
fn a_page_of_no_height_has_not_been_measured() {
    let mut state = CandidateWindowState::new(CANDIDATE_WINDOW_MIN_WIDTH);
    state.set_content_height(0);
    assert_eq!(state.logical_size(), None);
    state.set_content_height(180);
    state.set_content_height(0);
    assert_eq!(
        state.logical_size(),
        Some((CANDIDATE_WINDOW_MIN_WIDTH, 180))
    );
}

#[test]
fn webview_data_is_stored_outside_the_install_directory() {
    let path =
        webview_data_directory_from_local_app_data(Some(r"C:\Users\tester\AppData\Local"))
            .unwrap();

    assert_eq!(path, r"C:\Users\tester\AppData\Local\Azookey\WebView2");
}

#[test]
fn webview_data_requires_a_user_local_directory() {
    assert!(webview_data_directory_from_local_app_data(None).is_err());
    assert!(webview_data_directory_from_local_app_data(Some("")).is_err());
    assert_eq!(
        webview_data_directory_from_local_app_data(None)
            .unwrap_err()
            .message(),
        "LOCALAPPDATA is unavailable for the WebView2 data directory"
    );
}

#[test]
fn placement_uses_the_space_below_the_caret_when_it_fits() {
    assert_eq!(
        calculate_candidate_window_position(
            (100, 200, 120, 220),
            (225, 180),
            (0, 0, 1920, 1040),
        ),
        (185, 120)
    );
}

#[test]
fn placement_moves_above_the_caret_near_the_bottom_edge() {
    assert_eq!(
        calculate_candidate_window_position(
            (900, 200, 920, 220),
            (225, 180),
            (0, 0, 1920, 1040),
        ),
        (185, 720)
    );
}

#[test]
fn placement_stays_inside_the_work_area_when_neither_side_is_tall_enough() {
    assert_eq!(
        calculate_candidate_window_position(
            (140, 200, 160, 220),
            (225, 180),
            (0, 0, 1920, 300),
        ),
        (185, 0)
    );
}

#[test]
fn placement_stays_inside_the_horizontal_work_area() {
    assert_eq!(
        calculate_candidate_window_position(
            (100, 1900, 120, 1920),
            (225, 180),
            (0, 0, 1920, 1040),
        ),
        (1695, 120)
    );
    assert_eq!(
        calculate_candidate_window_position(
            (100, -50, 120, -30),
            (225, 180),
            (0, 0, 1920, 1040),
        ),
        (0, 120)
    );
    assert_eq!(
        calculate_candidate_window_position((100, 300, 120, 320), (720, 180), (0, 0, 640, 480)),
        (0, 120)
    );
}

#[test]
fn placement_survives_extreme_coordinates() {
    assert_eq!(
        calculate_candidate_window_position(
            (i32::MIN, i32::MIN, i32::MAX, 0),
            (u32::MAX, u32::MAX),
            (i32::MIN, i32::MIN, i32::MAX, i32::MAX),
        ),
        (i32::MIN, i32::MIN)
    );
    assert_eq!(
        calculate_candidate_window_position(
            (0, i32::MAX, i32::MAX, 0),
            (0, 0),
            (i32::MAX, i32::MAX, i32::MIN, i32::MIN),
        ),
        (i32::MAX, i32::MAX)
    );
}

#[test]
fn the_indicator_stands_left_of_the_caret() {
    assert_eq!(indicator_position(200, 120), (155, 120));
}

/// A window that is shown at a caret.
fn shown() -> CandidateWindowState {
    let mut state = CandidateWindowState::new(CANDIDATE_WINDOW_MIN_WIDTH);
    state.set_content_height(180);
    state.set_anchor((100, 200, 120, 220));
    state.request_show();
    state
}

#[test]
fn a_new_caret_moves_a_shown_window() {
    let mut state = shown();
    let commands = state.handle(UserEvent::WindowAction(WindowAction::SetPosition {
        top: 10,
        left: 20,
        bottom: 30,
        right: 40,
    }));
    assert!(matches!(
        commands[..],
        [
            UiCommand::Resize {
                width: CANDIDATE_WINDOW_MIN_WIDTH,
                height: 180,
            },
            UiCommand::Place {
                anchor: (10, 20, 30, 40),
            },
            UiCommand::ShowCandidates,
        ]
    ));
}

#[test]
fn nothing_happens_before_the_page_is_measured() {
    let mut state = CandidateWindowState::new(CANDIDATE_WINDOW_MIN_WIDTH);
    assert!(state
        .handle(UserEvent::WindowAction(WindowAction::Show))
        .is_empty());
    assert!(state
        .handle(UserEvent::WindowAction(WindowAction::SetPosition {
            top: 10,
            left: 20,
            bottom: 30,
            right: 40,
        }))
        .is_empty());
    assert!(state.handle(UserEvent::UpdateHeight(-1)).is_empty());
    let commands = state.handle(UserEvent::UpdateHeight(150));
    assert!(matches!(
        commands[..],
        [
            UiCommand::Resize { height: 150, .. },
            UiCommand::Place { .. },
            UiCommand::ShowCandidates,
        ]
    ));
}

#[test]
fn candidates_resize_the_window_before_they_are_shown() {
    let mut state = shown();
    let commands = state.handle(UserEvent::WindowAction(WindowAction::SetCandidateState {
        candidates: vec!["あ".repeat(10)],
        selection: 0,
    }));
    assert!(matches!(
        &commands[..],
        [
            UiCommand::Resize {
                width: 300,
                height: 180,
            },
            UiCommand::Place { .. },
            UiCommand::ShowCandidates,
            UiCommand::RunCandidateScript(script),
            UiCommand::Resize { width: 300, .. },
            UiCommand::Place { .. },
            UiCommand::ShowCandidates,
        ] if script == "updateCandidateState([\"ああああああああああ\"], 0)"
    ));
    let commands = state.handle(UserEvent::WindowAction(WindowAction::SetCandidate {
        candidates: vec!["a".to_owned()],
    }));
    assert!(matches!(
        commands.last(),
        Some(UiCommand::RunCandidateScript(script)) if script == "updateCandidates([\"a\"])"
    ));
    let commands = state.handle(UserEvent::WindowAction(WindowAction::SetSelection {
        index: 3,
    }));
    assert!(matches!(
        &commands[..],
        [UiCommand::RunCandidateScript(script)] if script == "updateSelection(3)"
    ));
}

#[test]
fn a_hidden_window_waits_for_another_caret() {
    let mut state = shown();
    let commands = state.handle(UserEvent::WindowAction(WindowAction::Hide));
    assert!(matches!(commands[..], [UiCommand::HideCandidates]));
    let commands = state.handle(UserEvent::WindowAction(WindowAction::Show));
    assert!(matches!(commands[..], [UiCommand::Resize { .. }]));
}

#[test]
fn the_input_mode_is_shown_for_a_while() {
    let mut state = shown();
    let commands = state.handle(UserEvent::WindowAction(WindowAction::SetInputMode(
        "あ".to_owned(),
    )));
    assert!(matches!(
        &commands[..],
        [UiCommand::RunIndicatorScript(script), UiCommand::FlashIndicator]
            if script == "updateInputMethod(\"あ\")"
    ));
}

#[test]
fn texts_are_quoted_in_scripts() {
    let texts = vec![
        "a\"b".to_owned(),
        "c\\d".to_owned(),
        "\u{8}\u{c}\n\r\t".to_owned(),
        "\u{1}\u{1f}\u{7f}".to_owned(),
    ];
    assert_eq!(
        candidates_script(&texts),
        "updateCandidates([\"a\\\"b\",\"c\\\\d\",\"\\b\\f\\n\\r\\t\",\"\\u0001\\u001f\u{7f}\"])"
    );
    assert_eq!(candidates_script(&Vec::new()), "updateCandidates([])");
    assert_eq!(
        candidate_state_script(&vec!["変換".to_owned()], -1),
        "updateCandidateState([\"変換\"], -1)"
    );
    assert_eq!(selection_script(-2), "updateSelection(-2)");
    assert_eq!(input_mode_script("A\""), "updateInputMethod(\"A\\\"\")");
}

#[test]
fn the_page_reports_its_height() {
    assert_eq!(
        page_height("{\"type\":\"resize\",\"height\":181.7}"),
        Some(181)
    );
    assert_eq!(
        page_height("{\"type\":\"resize\",\"height\":\"tall\"}"),
        Some(0)
    );
    assert_eq!(page_height("{\"type\":\"resize\"}"), None);
    assert_eq!(page_height("{\"type\":\"click\",\"height\":181}"), None);
    assert_eq!(page_height("{\"height\":181}"), None);
    assert_eq!(page_height("not a message"), None);
    assert_eq!(
        resize_height(&Some("resize".to_owned()), Some(Some(12))),
        Some(12)
    );
    assert_eq!(resize_height(&Some("click".to_owned()), Some(Some(12))), None);
    assert_eq!(resize_height(&None, Some(Some(12))), None);
    assert_eq!(resize_height(&Some("resize".to_owned()), Some(None)), Some(0));
    assert_eq!(resize_height(&Some("resize".to_owned()), None), None);
}
