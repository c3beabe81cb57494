use azookey::candidates::ComposingText;
use azookey::requests::{
    begin_answer, convert, plan_request, take_step, AnswerNext, ClientRequest, ConverterReply,
    Reading, ServerStep,
};
use azookey::server::{
    candidate_list_count, check_status, copy_owned_string, ffi_error_status, get_composed_text,
    ipc_session_token, is_valid_smoke_test_pipe_name, make_c_string, non_owner_status,
    normalize_context, normalized_remove_count, server_pipe_name, FfiError, RawCandidate, Refusal,
    Setting, StatusCode,
};
use azookey::session::{
    AppendAccess, FfiSessionState, IpcSessionToken, OwnerAccess, PendingContext, SetContextAccess,
};

#[test]
fn ffi_uses_fixed_width_counts() {
    let candidate = RawCandidate {
        text: None,
        subtext: None,
        corresponding_count: i32::MAX,
    };
    assert_eq!(std::mem::size_of::<i32>(), 4);
    assert_eq!(std::mem::size_of_val(&candidate.corresponding_count), 4);
}

#[test]
fn null_empty_candidate_list_is_valid() {
    assert_eq!(candidate_list_count(true, 0).unwrap(), 0);
}

#[test]
fn null_nonempty_candidate_list_is_rejected() {
    assert!(matches!(
        candidate_list_count(true, 1),
        Err(FfiError::CallFailed("GetComposedText"))
    ));
}

#[test]
fn negative_candidate_count_is_rejected() {
    assert!(matches!(
        candidate_list_count(true, -1),
        Err(FfiError::InvalidCandidateCount(-1))
    ));
}

#[test]
fn a_filled_candidate_list_is_counted() {
    assert_eq!(candidate_list_count(false, 3).unwrap(), 3);
    assert_eq!(candidate_list_count(false, 0).unwrap(), 0);
}

#[test]
fn c_string_validation_accepts_empty_and_rejects_embedded_nul() {
    assert!(make_c_string("", "test").is_ok());
    assert!(matches!(
        make_c_string("a\0b", "test"),
        Err(FfiError::InteriorNul("test"))
    ));
}

#[test]
fn composing_text_raw_input_is_independent_of_candidates() {
    let composing_text = ComposingText {
        hiragana: "きょ".to_owned(),
        suggestions: Vec::new(),
        raw_input: "kyo".to_owned(),
    };
    assert!(composing_text.suggestions.is_empty());
    assert_eq!(composing_text.raw_input, "kyo");
}

#[test]
fn remove_count_is_backward_compatible_and_bounded_for_ffi() {
    assert_eq!(normalized_remove_count(0), 1);
    assert_eq!(normalized_remove_count(1), 1);
    assert_eq!(normalized_remove_count(37), 37);
    assert_eq!(normalized_remove_count(u32::MAX), i32::MAX);
}

#[test]
fn missing_session_metadata_uses_the_fixed_legacy_owner() {
    let request = tonic::Request::new(());
    let metadata = request
        .metadata()
        .get("session")
        .map(|value| value.as_bytes());

    assert_eq!(
        ipc_session_token(metadata, "session").unwrap(),
        IpcSessionToken::Legacy
    );
}

fn explicit_token(name: &str) -> IpcSessionToken {
    IpcSessionToken::Explicit(name.to_owned())
}

#[test]
fn non_owner_context_is_staged_without_changing_the_owner() {
    let mut state = FfiSessionState::default();
    let token = explicit_token("tip-a");

    assert_eq!(
        state.set_context_access(&token, "context-a".to_owned()),
        SetContextAccess::Staged
    );
    assert_eq!(state.active_session_token, None);
    assert_eq!(state.owner_generation, 0);
    assert_eq!(
        state.pending_contexts.get(&token),
        Some(&PendingContext {
            observed_owner_generation: 0,
            context: "context-a".to_owned(),
        })
    );
}

#[test]
fn staged_append_claims_and_carries_context_atomically() {
    let mut state = FfiSessionState::default();
    let token = explicit_token("tip-a");
    state.set_context_access(&token, "context-a".to_owned());

    assert_eq!(
        state.append_access(&token),
        AppendAccess::ClaimedExplicit {
            context: "context-a".to_owned(),
        }
    );
    assert_eq!(state.active_session_token, None);
    assert_eq!(state.owner_generation, 0);
    // The handler commits this only after apply_context succeeds.
    state.change_owner(token.copy());
    assert_eq!(state.active_session_token, Some(token));
    assert_eq!(state.owner_generation, 1);
    assert!(state.pending_contexts.is_empty());
}

#[test]
fn newer_claim_fences_an_append_staged_for_the_previous_generation() {
    let mut state = FfiSessionState::default();
    let old = explicit_token("tip-a");
    let new = explicit_token("tip-b");
    state.set_context_access(&old, "context-a".to_owned());
    state.set_context_access(&new, "context-b".to_owned());

    assert!(matches!(
        state.append_access(&new),
        AppendAccess::ClaimedExplicit { .. }
    ));
    state.change_owner(new.copy());
    assert_eq!(state.append_access(&old), AppendAccess::Rejected);
    assert_eq!(state.active_session_token, Some(new));
    assert_eq!(state.owner_generation, 1);
}

#[test]
fn staged_contexts_belong_to_the_present_owner() {
    let mut state = FfiSessionState::default();
    let first = explicit_token("tip-a");
    let second = explicit_token("tip-b");
    state.set_context_access(&first, "context-a".to_owned());
    state.change_owner(second.copy());
    assert!(state.pending_contexts.is_empty());
    state.set_context_access(&first, "again".to_owned());
    let staged = state.pending_contexts.get(&first).unwrap();
    assert_eq!(staged.observed_owner_generation, state.owner_generation);
}

#[test]
fn delayed_context_after_a_claim_does_not_replace_or_clear_the_owner() {
    let mut state = FfiSessionState::default();
    let old = explicit_token("tip-a");
    let current = explicit_token("tip-b");
    state.set_context_access(&current, "context-b".to_owned());
    state.append_access(&current);
    state.change_owner(current.copy());

    assert_eq!(
        state.set_context_access(&old, "late-a".to_owned()),
        SetContextAccess::Staged
    );
    assert_eq!(state.active_session_token, Some(current));
    assert_eq!(state.owner_generation, 1);
}

#[test]
fn non_owner_clear_is_a_noop_and_other_mutations_are_rejected() {
    let mut state = FfiSessionState::default();
    let owner = explicit_token("tip-a");
    let stale = explicit_token("tip-b");
    state.set_context_access(&owner, "context-a".to_owned());
    state.append_access(&owner);
    state.change_owner(owner.copy());
    let generation = state.owner_generation;

    // ClearText maps Rejected to a successful no-op; other mutation handlers map it to
    // failed_precondition. In both cases authorization leaves ownership untouched.
    assert_eq!(state.owner_access(&stale), OwnerAccess::Rejected);
    assert_eq!(state.owner_access(&stale), OwnerAccess::Rejected);
    assert_eq!(state.active_session_token, Some(owner));
    assert_eq!(state.owner_generation, generation);
}

#[test]
fn owner_clear_does_not_advance_the_ownership_generation() {
    let mut state = FfiSessionState::default();
    let owner = explicit_token("tip-a");
    state.set_context_access(&owner, "context-a".to_owned());
    state.append_access(&owner);
    state.change_owner(owner.copy());
    let generation = state.owner_generation;

    assert_eq!(state.owner_access(&owner), OwnerAccess::Owned);
    assert_eq!(state.owner_generation, generation);
}

#[test]
fn active_owner_context_applies_without_resetting_ownership() {
    let mut state = FfiSessionState::default();
    let owner = explicit_token("tip-a");
    state.set_context_access(&owner, "first".to_owned());
    state.append_access(&owner);
    state.change_owner(owner.copy());
    let generation = state.owner_generation;

    assert_eq!(
        state.set_context_access(&owner, "updated".to_owned()),
        SetContextAccess::Apply
    );
    assert_eq!(state.owner_generation, generation);
}

#[test]
fn restarted_server_requires_context_before_the_first_explicit_append() {
    let mut state = FfiSessionState::default();
    let token = explicit_token("tip-a");

    assert_eq!(state.append_access(&token), AppendAccess::Rejected);
    assert_eq!(
        state.set_context_access(&token, "context-a".to_owned()),
        SetContextAccess::Staged
    );
    assert!(matches!(
        state.append_access(&token),
        AppendAccess::ClaimedExplicit { .. }
    ));
    state.change_owner(token.copy());
    assert_eq!(state.active_session_token, Some(token));
}

#[test]
fn legacy_requests_keep_claim_on_any_stateful_operation_behavior() {
    let mut state = FfiSessionState::default();
    assert_eq!(
        state.owner_access(&IpcSessionToken::Legacy),
        OwnerAccess::ClaimedLegacy
    );
    assert_eq!(
        state.owner_access(&IpcSessionToken::Legacy),
        OwnerAccess::Owned
    );

    let explicit = explicit_token("tip-a");
    state.set_context_access(&explicit, "context-a".to_owned());
    state.append_access(&explicit);
    state.change_owner(explicit);
    assert_eq!(
        state.owner_access(&IpcSessionToken::Legacy),
        OwnerAccess::ClaimedLegacy
    );
    assert_eq!(state.active_session_token, Some(IpcSessionToken::Legacy));
}

#[test]
fn smoke_test_pipe_name_requires_a_guid_suffix() {
    assert!(is_valid_smoke_test_pipe_name(
        "azookey_server_smoke_0123456789abcdef0123456789abcdef"
    ));
    assert!(!is_valid_smoke_test_pipe_name("azookey_server"));
    assert!(!is_valid_smoke_test_pipe_name(
        "azookey_server_smoke_not-a-guid"
    ));
}

#[test]
fn the_pipe_can_be_named_for_a_smoke_test_only() {
    let name = "azookey_server_smoke_0123456789abcdefABCDEF0123456789";
    assert_eq!(
        server_pipe_name(Setting::Value(name.to_owned())),
        Ok(name.to_owned())
    );
    assert_eq!(
        server_pipe_name(Setting::NotPresent),
        Ok("azookey_server".to_owned())
    );
    assert_eq!(
        server_pipe_name(Setting::Value("azookey_server".to_owned())),
        Err(
            "AZOOKEY_SERVER_SMOKE_TEST_PIPE_NAME must be 'azookey_server_smoke_' followed by 32 \
             hexadecimal characters"
        )
    );
    assert_eq!(
        server_pipe_name(Setting::NotUnicode),
        Err("AZOOKEY_SERVER_SMOKE_TEST_PIPE_NAME is not valid Unicode")
    );
}

#[test]
fn session_names_are_visible_text() {
    assert_eq!(
        ipc_session_token(Some(b"tip a\t~"), "session").unwrap(),
        explicit_token("tip a\t~")
    );
    assert_eq!(
        ipc_session_token(Some(b""), "session").unwrap_err(),
        Refusal {
            code: StatusCode::InvalidArgument,
            message: "gRPC metadata 'session' must not be empty".to_owned(),
        }
    );
    for bytes in [&b"tip\x7f"[..], &b"\x1f"[..], &b"tip\xff"[..]] {
        assert_eq!(
            ipc_session_token(Some(bytes), "session").unwrap_err(),
            Refusal {
                code: StatusCode::InvalidArgument,
                message: "gRPC metadata 'session' must be ASCII".to_owned(),
            }
        );
    }
}

/// The accepted bytes of a session name are those that a metadata value gives
/// back as text.
#[test]
fn session_names_agree_with_metadata_values() {
    for byte in 0..=255u8 {
        let Ok(value) = tonic::metadata::MetadataValue::try_from(&[b'a', byte][..]) else {
            continue;
        };
        let text = value.to_str().ok().map(|text: &str| text.to_owned());
        let token = ipc_session_token(Some(value.as_bytes()), "session").ok();
        assert_eq!(token, text.map(IpcSessionToken::Explicit));
    }
}

#[test]
fn failures_have_their_messages() {
    let message = |error: FfiError| error.message();
    assert_eq!(
        message(FfiError::InteriorNul("context")),
        "context contains an interior NUL byte"
    );
    assert_eq!(
        message(FfiError::CallFailed("AppendText")),
        "AppendText returned a null result"
    );
    assert_eq!(
        message(FfiError::Status {
            operation: "SetContext",
            status: -3,
        }),
        "SetContext failed with FFI status -3"
    );
    assert_eq!(
        message(FfiError::InvalidCandidateCount(-1)),
        "GetComposedText returned invalid candidate count -1"
    );
    assert_eq!(
        message(FfiError::NullCandidate(4)),
        "GetComposedText returned a null candidate at index 4"
    );
    assert_eq!(
        message(FfiError::NullCandidateField {
            index: 2,
            field: "subtext",
        }),
        "GetComposedText returned a null subtext pointer at index 2"
    );
}

#[test]
fn failures_have_their_codes() {
    let refusal = ffi_error_status(&FfiError::InteriorNul("context"));
    assert_eq!(refusal.code, StatusCode::InvalidArgument);
    assert_eq!(refusal.message, "context contains an interior NUL byte");
    let refusal = ffi_error_status(&FfiError::CallFailed("AppendText"));
    assert_eq!(refusal.code, StatusCode::Internal);
    assert_eq!(
        non_owner_status("RemoveText"),
        Refusal {
            code: StatusCode::FailedPrecondition,
            message: "conversion session does not own the converter for RemoveText".to_owned(),
        }
    );
}

#[test]
fn calls_are_checked() {
    assert_eq!(check_status("LoadConfig", 0), Ok(()));
    assert_eq!(
        check_status("LoadConfig", 5),
        Err(FfiError::Status {
            operation: "LoadConfig",
            status: 5,
        })
    );
    assert_eq!(
        copy_owned_string(Some("text".to_owned()), "GetRawInput"),
        Ok("text".to_owned())
    );
    assert_eq!(
        copy_owned_string(None, "GetRawInput"),
        Err(FfiError::CallFailed("GetRawInput"))
    );
}

#[test]
fn the_context_is_the_last_line_with_text() {
    assert_eq!(normalize_context("one\rtwo\r\r"), Ok("two".to_owned()));
    assert_eq!(normalize_context("one"), Ok("one".to_owned()));
    assert_eq!(normalize_context("\r\r"), Ok(String::new()));
    assert_eq!(normalize_context(""), Ok(String::new()));
    assert_eq!(
        normalize_context("one\rt\0wo"),
        Err(FfiError::InteriorNul("context"))
    );
    assert_eq!(normalize_context("o\0ne\rtwo"), Ok("two".to_owned()));
}

fn raw(text: Option<&str>, subtext: Option<&str>, count: i32) -> Option<RawCandidate> {
    Some(RawCandidate {
        text: text.map(str::to_owned),
        subtext: subtext.map(str::to_owned),
        corresponding_count: count,
    })
}

#[test]
fn repeated_suggestions_are_left_out() {
    let suggestions = get_composed_text(&vec![
        raw(Some("a"), Some("x"), 1),
        raw(Some("a"), None, 2),
        raw(Some("b"), Some(""), 3),
    ])
    .unwrap();
    assert_eq!(suggestions.len(), 2);
    assert_eq!(suggestions[0].text, "a");
    assert_eq!(suggestions[0].subtext, "x");
    assert_eq!(suggestions[0].corresponding_count, 1);
    assert_eq!(suggestions[1].text, "b");
    assert_eq!(suggestions[1].corresponding_count, 3);
}

#[test]
fn incomplete_suggestions_are_refused() {
    assert_eq!(
        get_composed_text(&vec![raw(Some("a"), Some(""), 1), None]).unwrap_err(),
        FfiError::NullCandidate(1)
    );
    assert_eq!(
        get_composed_text(&vec![raw(None, Some(""), 1)]).unwrap_err(),
        FfiError::NullCandidateField {
            index: 0,
            field: "text",
        }
    );
    assert_eq!(
        get_composed_text(&vec![raw(Some("a"), None, 1)]).unwrap_err(),
        FfiError::NullCandidateField {
            index: 0,
            field: "subtext",
        }
    );
}

/// Answers a request, with a converter that notes its calls and refuses one.
fn answer(
    state: &mut FfiSessionState,
    token: &IpcSessionToken,
    request: ClientRequest,
    fails: &str,
) -> (Vec<String>, Result<ComposingText, Refusal>) {
    let name = match token {
        IpcSessionToken::Explicit(name) => Some(name.as_bytes()),
        IpcSessionToken::Legacy => None,
    };
    answer_from(state, name, request, fails)
}

/// Answers a request that comes with the given name of its session.
fn answer_from(
    state: &mut FfiSessionState,
    name: Option<&[u8]>,
    request: ClientRequest,
    fails: &str,
) -> (Vec<String>, Result<ComposingText, Refusal>) {
    let mut calls = Vec::new();
    let mut next = begin_answer(state, name, "session", request);
    loop {
        let answer = match next {
            AnswerNext::Waiting(answer) => answer,
            AnswerNext::Finished(result) => return (calls, result),
        };
        let text = |calls: &mut Vec<String>, name: String| {
            let failed = !fails.is_empty() && name.starts_with(fails);
            calls.push(name);
            ConverterReply::Text(if failed { None } else { Some("よみ".to_owned()) })
        };
        let reply = match &answer.step {
            ServerStep::ClearText => {
                calls.push("clear".to_owned());
                ConverterReply::Done
            }
            ServerStep::SetContext(context) => {
                calls.push(format!("context {context}"));
                ConverterReply::Status(if fails == "context" { 1 } else { 0 })
            }
            ServerStep::Claim => {
                calls.push("claim".to_owned());
                ConverterReply::Done
            }
            ServerStep::AppendText(input) => text(&mut calls, format!("append {input}")),
            ServerStep::RemoveText(count) => text(&mut calls, format!("remove {count}")),
            ServerStep::MoveCursor(offset) => text(&mut calls, format!("move {offset}")),
            ServerStep::ShrinkText(offset) => text(&mut calls, format!("shrink {offset}")),
            ServerStep::CommitPrefixAndAppend { offset, text: input } => {
                text(&mut calls, format!("commit {offset} {input}"))
            }
            ServerStep::GetRawInput => text(&mut calls, "raw".to_owned()),
            ServerStep::GetComposedText => {
                calls.push("composed".to_owned());
                ConverterReply::Candidates {
                    is_null: false,
                    length: 1,
                    items: vec![raw(Some("読み"), Some(""), 2)],
                }
            }
            ServerStep::LoadConfig => {
                calls.push("config".to_owned());
                ConverterReply::Status(if fails == "config" { 9 } else { 0 })
            }
            ServerStep::Fail(_) => ConverterReply::Done,
        };
        next = answer.resume(state, reply);
    }
}

#[test]
fn a_step_can_be_taken_on_its_own() {
    let mut state = FfiSessionState::default();
    let token = IpcSessionToken::Legacy;
    let steps = plan_request(&mut state, &token, ClientRequest::MoveCursor { offset: 2 }).unwrap();
    assert_eq!(steps.len(), 4);
    let mut reading = Reading::default();
    let reply = ConverterReply::Text(Some("よみ".to_owned()));
    let step = steps.into_iter().nth(1).unwrap();
    take_step(&mut state, &token, &mut reading, step, reply).unwrap();
    assert_eq!(convert(reading).hiragana, "よみ");
}

#[test]
fn a_failed_context_leaves_the_previous_owner() {
    let mut state = FfiSessionState::default();
    let owner = explicit_token("tip-a");
    state.change_owner(owner.copy());
    let stranger = explicit_token("tip-b");
    let context = ClientRequest::SetContext("front".to_owned());
    answer(&mut state, &stranger, context, "").1.unwrap();
    let append = ClientRequest::AppendText("k".to_owned());
    let (calls, answered) = answer(&mut state, &stranger, append, "context");
    assert_eq!(calls, ["clear", "context front"]);
    assert_eq!(answered.unwrap_err().code, StatusCode::Internal);
    assert_eq!(state.active_session_token, Some(owner));
    assert_eq!(state.owner_generation, 1);
}

#[test]
fn settings_are_loaded_for_anybody() {
    let mut state = FfiSessionState::default();
    for name in [None, Some(&b""[..]), Some(&b"\xff"[..]), Some(&b"tip-a"[..])] {
        let (calls, answered) = answer_from(&mut state, name, ClientRequest::UpdateConfig, "");
        assert_eq!(calls, ["config"]);
        assert!(answered.is_ok());
    }
    for (name, message) in [
        (&b""[..], "gRPC metadata 'session' must not be empty"),
        (&b"\xff"[..], "gRPC metadata 'session' must be ASCII"),
    ] {
        let (calls, answered) =
            answer_from(&mut state, Some(name), ClientRequest::ClearText, "");
        assert!(calls.is_empty());
        assert_eq!(answered.unwrap_err().message, message);
    }
}

#[test]
fn the_first_text_of_a_session_claims_the_converter() {
    let mut state = FfiSessionState::default();
    let token = explicit_token("tip-a");
    let (calls, _) = answer(
        &mut state,
        &token,
        ClientRequest::SetContext("old\rfront".to_owned()),
        "",
    );
    assert!(calls.is_empty());
    let (calls, answered) = answer(
        &mut state,
        &token,
        ClientRequest::AppendText("k".to_owned()),
        "",
    );
    assert_eq!(
        calls,
        ["clear", "context front", "claim", "append k", "raw", "composed"]
    );
    let composing_text = answered.unwrap();
    assert_eq!(composing_text.hiragana, "よみ");
    assert_eq!(composing_text.raw_input, "よみ");
    assert_eq!(composing_text.suggestions[0].text, "読み");
    assert_eq!(state.active_session_token, Some(token));
}

#[test]
fn a_context_that_is_refused_leaves_the_owner() {
    let mut state = FfiSessionState::default();
    let owner = explicit_token("tip-a");
    let other = explicit_token("tip-b");
    answer(
        &mut state,
        &owner,
        ClientRequest::SetContext(String::new()),
        "",
    );
    answer(
        &mut state,
        &owner,
        ClientRequest::AppendText("k".to_owned()),
        "",
    );
    answer(
        &mut state,
        &other,
        ClientRequest::SetContext("front".to_owned()),
        "",
    );
    let (calls, answered) = answer(
        &mut state,
        &other,
        ClientRequest::AppendText("k".to_owned()),
        "context",
    );
    assert_eq!(calls, ["clear", "context front"]);
    let refusal = answered.unwrap_err();
    assert_eq!(refusal.code, StatusCode::Internal);
    assert_eq!(refusal.message, "SetContext failed with FFI status 1");
    assert_eq!(state.active_session_token, Some(owner));
    assert_eq!(state.owner_generation, 1);
}

#[test]
fn a_stranger_is_refused() {
    let mut state = FfiSessionState::default();
    state.change_owner(explicit_token("tip-a"));
    let stranger = explicit_token("tip-b");
    for (request, operation) in [
        (ClientRequest::AppendText("k".to_owned()), "AppendText"),
        (ClientRequest::RemoveText { count: 1 }, "RemoveText"),
        (ClientRequest::MoveCursor { offset: 1 }, "MoveCursor"),
        (ClientRequest::ShrinkText { offset: 1 }, "ShrinkText"),
        (
            ClientRequest::CommitPrefixAndAppend {
                offset: 1,
                text: String::new(),
            },
            "CommitPrefixAndAppend",
        ),
    ] {
        let (calls, answered) = answer(&mut state, &stranger, request, "");
        assert!(calls.is_empty());
        assert_eq!(answered.unwrap_err(), non_owner_status(operation));
    }
    let (calls, answered) = answer(&mut state, &stranger, ClientRequest::ClearText, "");
    assert!(calls.is_empty());
    assert!(answered.is_ok());
    assert_eq!(state.active_session_token, Some(explicit_token("tip-a")));
    assert_eq!(state.owner_generation, 1);
}

#[test]
fn the_owner_edits_its_text() {
    let mut state = FfiSessionState::default();
    let owner = explicit_token("tip-a");
    state.change_owner(owner.copy());
    let mut calls_of = |request| answer(&mut state, &owner, request, "").0;
    assert_eq!(
        calls_of(ClientRequest::RemoveText { count: 0 }),
        ["remove 1", "raw", "composed"]
    );
    assert_eq!(
        calls_of(ClientRequest::MoveCursor { offset: -2 }),
        ["move -2", "raw", "composed"]
    );
    assert_eq!(
        calls_of(ClientRequest::ShrinkText { offset: 3 }),
        ["shrink 3", "raw", "composed"]
    );
    assert_eq!(
        calls_of(ClientRequest::CommitPrefixAndAppend {
            offset: 2,
            text: "a".to_owned(),
        }),
        ["commit 2 a", "raw", "composed"]
    );
    assert_eq!(
        calls_of(ClientRequest::SetContext("front".to_owned())),
        ["context front"]
    );
    assert_eq!(calls_of(ClientRequest::ClearText), ["clear"]);
    assert_eq!(calls_of(ClientRequest::UpdateConfig), ["config"]);
}

#[test]
fn a_legacy_client_takes_the_converter() {
    let mut state = FfiSessionState::default();
    state.change_owner(explicit_token("tip-a"));
    let (calls, _) = answer(
        &mut state,
        &IpcSessionToken::Legacy,
        ClientRequest::RemoveText { count: 2 },
        "",
    );
    assert_eq!(calls, ["clear", "remove 2", "raw", "composed"]);
    assert_eq!(state.active_session_token, Some(IpcSessionToken::Legacy));
    let (calls, _) = answer(
        &mut state,
        &IpcSessionToken::Legacy,
        ClientRequest::AppendText("a".to_owned()),
        "",
    );
    assert_eq!(calls, ["append a", "raw", "composed"]);
}

#[test]
fn failures_of_the_converter_are_reported() {
    let mut state = FfiSessionState::default();
    let legacy = IpcSessionToken::Legacy;
    state.change_owner(IpcSessionToken::Legacy);
    let append = || ClientRequest::AppendText("a".to_owned());
    let (calls, answered) = answer(&mut state, &legacy, append(), "append");
    assert_eq!(calls, ["append a"]);
    assert_eq!(
        answered.unwrap_err().message,
        "AppendText returned a null result"
    );
    let (calls, answered) = answer(&mut state, &legacy, append(), "raw");
    assert_eq!(calls, ["append a", "raw"]);
    assert_eq!(
        answered.unwrap_err().message,
        "GetRawInput returned a null result"
    );
    let (_, answered) = answer(&mut state, &legacy, ClientRequest::UpdateConfig, "config");
    assert_eq!(
        answered.unwrap_err().message,
        "LoadConfig failed with FFI status 9"
    );
    let nul = ClientRequest::AppendText("a\0".to_owned());
    let (calls, answered) = answer(&mut state, &legacy, nul, "");
    assert!(calls.is_empty());
    let refusal = answered.unwrap_err();
    assert_eq!(refusal.code, StatusCode::InvalidArgument);
    assert_eq!(
        refusal.message,
        "text_to_append contains an interior NUL byte"
    );
    let nul = ClientRequest::SetContext("a\0".to_owned());
    let (calls, answered) = answer(&mut state, &legacy, nul, "");
    assert!(calls.is_empty());
    assert_eq!(
        answered.unwrap_err().message,
        "context contains an interior NUL byte"
    );
}

#[test]
fn a_new_context_replaces_the_one_that_was_put_aside() {
    let mut state = FfiSessionState::default();
    let token = explicit_token("tip-a");
    state.set_context_access(&token, "first".to_owned());
    state.set_context_access(&token, "second".to_owned());
    assert_eq!(
        state.append_access(&token),
        AppendAccess::ClaimedExplicit {
            context: "second".to_owned(),
        }
    );
    assert_eq!(state.append_access(&token), AppendAccess::Rejected);
    assert!(token.is_same(&explicit_token("tip-a")));
    assert!(!token.is_same(&IpcSessionToken::Legacy));
}
