//! Answering a request with calls of the converter.

use vstd::prelude::*;

use crate::candidates::{ComposingText, Suggestion};
use crate::server::{
    candidate_list_count, check_status, copy_owned_string, ffi_error_status, get_composed_text,
    ipc_session_token, is_c_text, is_unaddressable, last_line, make_c_string, non_owner_status,
    non_owner_text, normalize_context, normalized_remove_count, refusal_of, suggestions_of,
    suggestions_view, token_of, FfiError, RawCandidate, Refusal, StatusCode, SuggestionView,
    FFI_SUCCESS,
};
use crate::session::{
    AppendAccess, FfiSessionState, IpcSessionToken, OwnerAccess, SessionView, SetContextAccess,
};

verus! {

broadcast use vstd::string::group_string_axioms;

/// A request of a client.
#[derive(Debug)]
pub enum ClientRequest<T = String> {
    AppendText(T),
    RemoveText { count: u32 },
    MoveCursor { offset: i32 },
    ClearText,
    ShrinkText { offset: i32 },
    CommitPrefixAndAppend { offset: i32, text: T },
    SetContext(T),
    UpdateConfig,
}

impl View for ClientRequest<String> {
    type V = ClientRequest<Seq<char>>;

    open spec fn view(&self) -> ClientRequest<Seq<char>> {
        match self {
            ClientRequest::AppendText(text) => ClientRequest::AppendText(text@),
            ClientRequest::RemoveText { count } => ClientRequest::RemoveText { count: *count },
            ClientRequest::MoveCursor { offset } => ClientRequest::MoveCursor { offset: *offset },
            ClientRequest::ClearText => ClientRequest::ClearText,
            ClientRequest::ShrinkText { offset } => ClientRequest::ShrinkText { offset: *offset },
            ClientRequest::CommitPrefixAndAppend { offset, text } => {
                ClientRequest::CommitPrefixAndAppend { offset: *offset, text: text@ }
            },
            ClientRequest::SetContext(context) => ClientRequest::SetContext(context@),
            ClientRequest::UpdateConfig => ClientRequest::UpdateConfig,
        }
    }
}

/// A call of the converter, or another step of an answer.
#[derive(Debug)]
pub enum ServerStep<T = String, E = FfiError> {
    ClearText,
    SetContext(T),
    /// Hand the converter to the client of the request.
    Claim,
    AppendText(T),
    RemoveText(i32),
    MoveCursor(i32),
    ShrinkText(i32),
    CommitPrefixAndAppend { offset: i32, text: T },
    GetRawInput,
    GetComposedText,
    LoadConfig,
    /// The request cannot be carried out.
    Fail(E),
}

impl View for ServerStep<String, FfiError> {
    type V = ServerStep<Seq<char>, FfiError<Seq<char>>>;

    open spec fn view(&self) -> ServerStep<Seq<char>, FfiError<Seq<char>>> {
        match self {
            ServerStep::ClearText => ServerStep::ClearText,
            ServerStep::SetContext(context) => ServerStep::SetContext(context@),
            ServerStep::Claim => ServerStep::Claim,
            ServerStep::AppendText(text) => ServerStep::AppendText(text@),
            ServerStep::RemoveText(count) => ServerStep::RemoveText(*count),
            ServerStep::MoveCursor(offset) => ServerStep::MoveCursor(*offset),
            ServerStep::ShrinkText(offset) => ServerStep::ShrinkText(*offset),
            ServerStep::CommitPrefixAndAppend { offset, text } => {
                ServerStep::CommitPrefixAndAppend { offset: *offset, text: text@ }
            },
            ServerStep::GetRawInput => ServerStep::GetRawInput,
            ServerStep::GetComposedText => ServerStep::GetComposedText,
            ServerStep::LoadConfig => ServerStep::LoadConfig,
            ServerStep::Fail(error) => ServerStep::Fail(error@),
        }
    }
}

/// A step, as contracts read it.
pub type StepView = ServerStep<Seq<char>, FfiError<Seq<char>>>;

/// Steps, as contracts read them.
pub open spec fn steps_view(steps: Seq<ServerStep>) -> Seq<StepView> {
    steps.map_values(|step: ServerStep| step@)
}

/// The step that hands a text to the converter, where it can be handed over.
pub open spec fn text_step(text: Seq<char>, step: StepView) -> StepView {
    if is_c_text(text) {
        step
    } else {
        ServerStep::Fail(FfiError::InteriorNul("text_to_append"@))
    }
}

/// The steps that change the composition and read the result.
pub open spec fn converting(step: StepView) -> Seq<StepView> {
    seq![step, ServerStep::GetRawInput, ServerStep::GetComposedText]
}

/// The count of characters to be removed, as the converter is told.
pub open spec fn told_count(count: u32) -> i32 {
    if count == 0 {
        1
    } else if count > i32::MAX {
        i32::MAX
    } else {
        count as i32
    }
}

/// The refusal of a request of a client that does not own the converter.
pub open spec fn non_owner(operation: Seq<char>) -> Refusal<Seq<char>> {
    Refusal { code: StatusCode::FailedPrecondition, message: non_owner_text(operation) }
}

/// The steps of a request that only the owner may make. A client without a name
/// that has just taken over begins with an empty composition.
pub open spec fn owner_plan(
    state: SessionView,
    token: IpcSessionToken<Seq<char>>,
    operation: Seq<char>,
    steps: Seq<StepView>,
) -> (SessionView, Result<Seq<StepView>, Refusal<Seq<char>>>) {
    match state.access(token) {
        (after, OwnerAccess::Owned) => (after, Ok(steps)),
        (after, OwnerAccess::ClaimedLegacy) => (after, Ok(seq![ServerStep::ClearText] + steps)),
        (after, OwnerAccess::Rejected) => (after, Err(non_owner(operation))),
    }
}

/// The steps that answer a request, or its refusal.
pub open spec fn plan_of(
    state: SessionView,
    token: IpcSessionToken<Seq<char>>,
    request: ClientRequest<Seq<char>>,
) -> (SessionView, Result<Seq<StepView>, Refusal<Seq<char>>>) {
    match request {
        ClientRequest::AppendText(text) => {
            let steps = converting(text_step(text, ServerStep::AppendText(text)));
            match state.append_access(token) {
                (after, AppendAccess::Owned) => (after, Ok(steps)),
                (after, AppendAccess::ClaimedLegacy) => (
                    after,
                    Ok(seq![ServerStep::ClearText] + steps),
                ),
                (after, AppendAccess::ClaimedExplicit { context }) => (
                    after,
                    Ok(
                        seq![
                            ServerStep::ClearText,
                            context_step(context),
                            ServerStep::Claim,
                        ] + steps,
                    ),
                ),
                (after, AppendAccess::Rejected) => (after, Err(non_owner("AppendText"@))),
            }
        },
        ClientRequest::RemoveText { count } => owner_plan(
            state,
            token,
            "RemoveText"@,
            converting(ServerStep::RemoveText(told_count(count))),
        ),
        ClientRequest::MoveCursor { offset } => owner_plan(
            state,
            token,
            "MoveCursor"@,
            converting(ServerStep::MoveCursor(offset)),
        ),
        ClientRequest::ShrinkText { offset } => owner_plan(
            state,
            token,
            "ShrinkText"@,
            converting(ServerStep::ShrinkText(offset)),
        ),
        ClientRequest::CommitPrefixAndAppend { offset, text } => owner_plan(
            state,
            token,
            "CommitPrefixAndAppend"@,
            converting(text_step(text, ServerStep::CommitPrefixAndAppend { offset, text })),
        ),
        ClientRequest::ClearText => {
            let (after, access) = state.access(token);
            (
                after,
                Ok(
                    if access == OwnerAccess::Rejected {
                        Seq::empty()
                    } else {
                        seq![ServerStep::ClearText]
                    },
                ),
            )
        },
        ClientRequest::SetContext(context) => {
            let line = last_line(context);
            if !is_c_text(line) {
                (state, Err(refusal_of(FfiError::InteriorNul("context"@))))
            } else {
                match state.context_access(token, line) {
                    (after, SetContextAccess::Apply) => (after, Ok(seq![context_step(line)])),
                    (after, SetContextAccess::ClaimedLegacy) => (
                        after,
                        Ok(seq![ServerStep::ClearText, context_step(line)]),
                    ),
                    (after, SetContextAccess::Staged) => (after, Ok(Seq::empty())),
                }
            }
        },
        ClientRequest::UpdateConfig => (state, Ok(seq![ServerStep::LoadConfig])),
    }
}

/// The step that hands a context to the converter, where it can be handed over.
pub open spec fn context_step(context: Seq<char>) -> StepView {
    if is_c_text(context) {
        ServerStep::SetContext(context)
    } else {
        ServerStep::Fail(FfiError::InteriorNul("context"@))
    }
}

fn text_step_of(text: &String, step: ServerStep) -> (checked: ServerStep)
    ensures
        checked@ == text_step(text@, step@),
{
    match make_c_string(text.as_str(), "text_to_append") {
        Ok(_) => step,
        Err(error) => ServerStep::Fail(error),
    }
}

fn context_step_of(context: String) -> (step: ServerStep)
    ensures
        step@ == context_step(context@),
{
    match make_c_string(context.as_str(), "context") {
        Ok(_) => ServerStep::SetContext(context),
        Err(error) => ServerStep::Fail(error),
    }
}

fn push_converting(steps: &mut Vec<ServerStep>, step: ServerStep)
    ensures
        steps_view(final(steps)@) == steps_view(old(steps)@) + converting(step@),
{
    steps.push(step);
    steps.push(ServerStep::GetRawInput);
    steps.push(ServerStep::GetComposedText);
    assert(steps_view(steps@) =~= steps_view(old(steps)@) + converting(step@));
}

fn plan_for_owner(
    state: &mut FfiSessionState,
    token: &IpcSessionToken,
    operation: &'static str,
    step: ServerStep,
) -> (plan: Result<Vec<ServerStep>, Refusal>)
    requires
        old(state).is_valid(),
    ensures
        final(state).is_valid(),
        (final(state)@, plan_view(plan)) == owner_plan(
            old(state)@,
            token@,
            operation@,
            converting(step@),
        ),
{
    let mut steps: Vec<ServerStep> = Vec::new();
    assert(steps_view(steps@) =~= Seq::empty());
    match state.owner_access(token) {
        OwnerAccess::Owned => {
            push_converting(&mut steps, step);
            assert(steps_view(steps@) =~= converting(step@));
            Ok(steps)
        },
        OwnerAccess::ClaimedLegacy => {
            steps.push(ServerStep::ClearText);
            assert(steps_view(steps@) =~= seq![ServerStep::ClearText]);
            push_converting(&mut steps, step);
            Ok(steps)
        },
        OwnerAccess::Rejected => Err(non_owner_status(operation)),
    }
}

/// How an executable plan is read in contracts.
pub open spec fn plan_view(plan: Result<Vec<ServerStep>, Refusal>) -> Result<
    Seq<StepView>,
    Refusal<Seq<char>>,
> {
    match plan {
        Ok(steps) => Ok(steps_view(steps@)),
        Err(refusal) => Err(refusal@),
    }
}

fn plan_append(state: &mut FfiSessionState, token: &IpcSessionToken, text: String) -> (plan: Result<
    Vec<ServerStep>,
    Refusal,
>)
    requires
        old(state).is_valid(),
    ensures
        final(state).is_valid(),
        (final(state)@, plan_view(plan)) == plan_of(
            old(state)@,
            token@,
            ClientRequest::AppendText(text@),
        ),
{
    let step = text_step_of(&text, ServerStep::AppendText(text.clone()));
    let mut steps: Vec<ServerStep> = Vec::new();
    assert(steps_view(steps@) =~= Seq::empty());
    match state.append_access(token) {
        AppendAccess::Owned => {
            push_converting(&mut steps, step);
            assert(steps_view(steps@) =~= converting(step@));
            Ok(steps)
        },
        AppendAccess::ClaimedLegacy => {
            steps.push(ServerStep::ClearText);
            assert(steps_view(steps@) =~= seq![ServerStep::ClearText]);
            push_converting(&mut steps, step);
            Ok(steps)
        },
        AppendAccess::ClaimedExplicit { context } => {
            let context_step = context_step_of(context);
            steps.push(ServerStep::ClearText);
            steps.push(context_step);
            steps.push(ServerStep::Claim);
            assert(steps_view(steps@) =~= seq![
                ServerStep::ClearText,
                context_step@,
                ServerStep::Claim,
            ]);
            push_converting(&mut steps, step);
            Ok(steps)
        },
        AppendAccess::Rejected => Err(non_owner_status("AppendText")),
    }
}

fn plan_context(state: &mut FfiSessionState, token: &IpcSessionToken, context: String) -> (plan:
    Result<Vec<ServerStep>, Refusal>)
    requires
        old(state).is_valid(),
    ensures
        final(state).is_valid(),
        (final(state)@, plan_view(plan)) == plan_of(
            old(state)@,
            token@,
            ClientRequest::SetContext(context@),
        ),
{
    let line = match normalize_context(context.as_str()) {
        Ok(line) => line,
        Err(error) => return Err(ffi_error_status(&error)),
    };
    let mut steps: Vec<ServerStep> = Vec::new();
    match state.set_context_access(token, line.clone()) {
        SetContextAccess::Apply => {
            steps.push(context_step_of(line));
            assert(steps_view(steps@) =~= seq![context_step(line@)]);
        },
        SetContextAccess::ClaimedLegacy => {
            steps.push(ServerStep::ClearText);
            steps.push(context_step_of(line));
            assert(steps_view(steps@) =~= seq![ServerStep::ClearText, context_step(line@)]);
        },
        SetContextAccess::Staged => {
            assert(steps_view(steps@) =~= Seq::empty());
        },
    }
    Ok(steps)
}

/// Plans the answer to a request.
pub fn plan_request(
    state: &mut FfiSessionState,
    token: &IpcSessionToken,
    request: ClientRequest,
) -> (plan: Result<Vec<ServerStep>, Refusal>)
    requires
        old(state).is_valid(),
    ensures
        final(state).is_valid(),
        (final(state)@, plan_view(plan)) == plan_of(old(state)@, token@, request@),
{
    match request {
        ClientRequest::AppendText(text) => plan_append(state, token, text),
        ClientRequest::RemoveText { count } => plan_for_owner(
            state,
            token,
            "RemoveText",
            ServerStep::RemoveText(normalized_remove_count(count)),
        ),
        ClientRequest::MoveCursor { offset } => plan_for_owner(
            state,
            token,
            "MoveCursor",
            ServerStep::MoveCursor(offset),
        ),
        ClientRequest::ShrinkText { offset } => plan_for_owner(
            state,
            token,
            "ShrinkText",
            ServerStep::ShrinkText(offset),
        ),
        ClientRequest::CommitPrefixAndAppend { offset, text } => {
            let step = text_step_of(
                &text,
                ServerStep::CommitPrefixAndAppend { offset, text: text.clone() },
            );
            plan_for_owner(state, token, "CommitPrefixAndAppend", step)
        },
        ClientRequest::ClearText => {
            let mut steps: Vec<ServerStep> = Vec::new();
            assert(steps_view(steps@) =~= Seq::empty());
            match state.owner_access(token) {
                OwnerAccess::Owned | OwnerAccess::ClaimedLegacy => {
                    steps.push(ServerStep::ClearText);
                    assert(steps_view(steps@) =~= seq![ServerStep::ClearText]);
                },
                OwnerAccess::Rejected => {},
            }
            Ok(steps)
        },
        ClientRequest::SetContext(context) => plan_context(state, token, context),
        ClientRequest::UpdateConfig => {
            let steps: Vec<ServerStep> = vec![ServerStep::LoadConfig];
            assert(steps_view(steps@) =~= seq![ServerStep::LoadConfig]);
            Ok(steps)
        },
    }
}

/// What a call of the converter hands back.
#[derive(Debug)]
pub enum ConverterReply {
    Done,
    Status(i32),
    /// A text, or none.
    Text(Option<String>),
    /// A list of candidates: whether it is missing, its length, and its items.
    Candidates { is_null: bool, length: i32, items: Vec<Option<RawCandidate>> },
}

/// What has been read of the converter so far.
#[derive(Debug)]
pub struct Reading {
    pub hiragana: String,
    pub raw_input: String,
    pub suggestions: Vec<Suggestion>,
}

/// The contents of a `Reading`.
#[verifier::ext_equal]
pub struct ReadingView {
    pub hiragana: Seq<char>,
    pub raw_input: Seq<char>,
    pub suggestions: Seq<SuggestionView>,
}

impl View for Reading {
    type V = ReadingView;

    open spec fn view(&self) -> ReadingView {
        ReadingView {
            hiragana: self.hiragana@,
            raw_input: self.raw_input@,
            suggestions: suggestions_view(self.suggestions@),
        }
    }
}

impl Default for Reading {
    fn default() -> (reading: Reading)
        ensures
            reading@ == nothing_read(),
    {
        let reading = Reading {
            hiragana: String::new(),
            raw_input: String::new(),
            suggestions: Vec::new(),
        };
        assert(reading@.hiragana =~= Seq::empty());
        assert(reading@.raw_input =~= Seq::empty());
        assert(reading@.suggestions =~= Seq::empty());
        reading
    }
}

/// The name of the call that a step makes.
pub open spec fn call_name(step: StepView) -> Seq<char> {
    match step {
        ServerStep::ClearText => "ClearText"@,
        ServerStep::SetContext(_) => "SetContext"@,
        ServerStep::AppendText(_) => "AppendText"@,
        ServerStep::RemoveText(_) => "RemoveText"@,
        ServerStep::MoveCursor(_) => "MoveCursor"@,
        ServerStep::ShrinkText(_) => "ShrinkText"@,
        ServerStep::CommitPrefixAndAppend { .. } => "CommitPrefixAndAppend"@,
        ServerStep::GetRawInput => "GetRawInput"@,
        ServerStep::GetComposedText => "GetComposedText"@,
        ServerStep::LoadConfig => "LoadConfig"@,
        ServerStep::Claim | ServerStep::Fail(_) => Seq::empty(),
    }
}

fn name_of(step: &ServerStep) -> (name: &'static str)
    ensures
        name@ == call_name(step@),
{
    match step {
        ServerStep::ClearText => "ClearText",
        ServerStep::SetContext(_) => "SetContext",
        ServerStep::AppendText(_) => "AppendText",
        ServerStep::RemoveText(_) => "RemoveText",
        ServerStep::MoveCursor(_) => "MoveCursor",
        ServerStep::ShrinkText(_) => "ShrinkText",
        ServerStep::CommitPrefixAndAppend { .. } => "CommitPrefixAndAppend",
        ServerStep::GetRawInput => "GetRawInput",
        ServerStep::GetComposedText => "GetComposedText",
        ServerStep::LoadConfig => "LoadConfig",
        ServerStep::Claim | ServerStep::Fail(_) => {
            let name = "";
            proof {
                reveal_strlit("");
            }
            assert(name@ =~= Seq::empty());
            name
        },
    }
}

/// The error of a list of candidates whose length is wrong.
pub open spec fn count_error(is_null: bool, length: i32) -> Option<FfiError<Seq<char>>> {
    if length < 0 {
        Some(FfiError::InvalidCandidateCount(length))
    } else if length == 0 {
        None
    } else if is_null {
        Some(FfiError::CallFailed("GetComposedText"@))
    } else if is_unaddressable(length) {
        Some(FfiError::InvalidCandidateCount(length))
    } else {
        None
    }
}

/// The state and what has been read after a step, or the error of the step.
pub open spec fn step_taken(
    state: SessionView,
    token: IpcSessionToken<Seq<char>>,
    reading: ReadingView,
    step: StepView,
    reply: ConverterReply,
) -> (SessionView, Result<ReadingView, FfiError<Seq<char>>>) {
    let failed = FfiError::CallFailed(call_name(step));
    match step {
        ServerStep::ClearText => (state, Ok(reading)),
        ServerStep::Claim => (state.owned_by(token), Ok(reading)),
        ServerStep::Fail(error) => (state, Err(error)),
        ServerStep::SetContext(_) | ServerStep::LoadConfig => (
            state,
            match reply {
                ConverterReply::Status(status) => if status == FFI_SUCCESS {
                    Ok(reading)
                } else {
                    Err(FfiError::Status { operation: call_name(step), status })
                },
                _ => Err(failed),
            },
        ),
        ServerStep::GetRawInput => (
            state,
            match reply {
                ConverterReply::Text(Some(text)) => Ok(
                    ReadingView { raw_input: text@, ..reading },
                ),
                _ => Err(failed),
            },
        ),
        ServerStep::GetComposedText => (
            state,
            match reply {
                ConverterReply::Candidates { is_null, length, items } => {
                    match count_error(is_null, length) {
                        Some(error) => Err(error),
                        None => if length == 0 {
                            Ok(ReadingView { suggestions: Seq::empty(), ..reading })
                        } else {
                            match suggestions_of(items@) {
                                Ok(suggestions) => Ok(ReadingView { suggestions, ..reading }),
                                Err(error) => Err(error),
                            }
                        },
                    }
                },
                _ => Err(failed),
            },
        ),
        _ => (
            state,
            match reply {
                ConverterReply::Text(Some(text)) => Ok(ReadingView { hiragana: text@, ..reading }),
                _ => Err(failed),
            },
        ),
    }
}

fn read_candidates(reading: &mut Reading, reply: ConverterReply) -> (read: Result<(), FfiError>)
    ensures
        forall|state: SessionView, token: IpcSessionToken<Seq<char>>| #[trigger]
            step_taken(state, token, old(reading)@, ServerStep::GetComposedText, reply) == (
                state,
                match read {
                    Ok(_) => Ok::<ReadingView, FfiError<Seq<char>>>(final(reading)@),
                    Err(error) => Err(error@),
                },
            ),
{
    match reply {
        ConverterReply::Candidates { is_null, length, items } => {
            let count: usize = match candidate_list_count(is_null, length) {
                Ok(count) => count,
                Err(error) => return Err(error),
            };
            if count == 0 {
                reading.suggestions = Vec::new();
                assert(suggestions_view(reading.suggestions@) =~= Seq::empty());
                return Ok(());
            }
            match get_composed_text(&items) {
                Ok(suggestions) => {
                    reading.suggestions = suggestions;
                    Ok(())
                },
                Err(error) => Err(error),
            }
        },
        _ => Err(FfiError::CallFailed("GetComposedText")),
    }
}

/// Takes a step of an answer, with what the converter has handed back.
pub fn take_step(
    state: &mut FfiSessionState,
    token: &IpcSessionToken,
    reading: &mut Reading,
    step: ServerStep,
    reply: ConverterReply,
) -> (taken: Result<(), Refusal>)
    requires
        old(state).is_valid(),
    ensures
        final(state).is_valid(),
        match taken {
            Ok(_) => step_taken(old(state)@, token@, old(reading)@, step@, reply) == (
                final(state)@,
                Ok::<ReadingView, FfiError<Seq<char>>>(final(reading)@),
            ),
            Err(refusal) => {
                let (after, result) = step_taken(
                    old(state)@,
                    token@,
                    old(reading)@,
                    step@,
                    reply,
                );
                &&& final(state)@ == after
                &&& result matches Err(error) && refusal@ == refusal_of(error)
            },
        },
{
    let name = name_of(&step);
    match step {
        ServerStep::ClearText => Ok(()),
        ServerStep::Claim => {
            state.change_owner(token.copy());
            Ok(())
        },
        ServerStep::Fail(error) => Err(ffi_error_status(&error)),
        ServerStep::SetContext(_) | ServerStep::LoadConfig => match reply {
            ConverterReply::Status(status) => match check_status(name, status) {
                Ok(_) => Ok(()),
                Err(error) => Err(ffi_error_status(&error)),
            },
            _ => Err(ffi_error_status(&FfiError::CallFailed(name))),
        },
        ServerStep::GetRawInput => match reply {
            ConverterReply::Text(text) => match copy_owned_string(text, name) {
                Ok(text) => {
                    reading.raw_input = text;
                    Ok(())
                },
                Err(error) => Err(ffi_error_status(&error)),
            },
            _ => Err(ffi_error_status(&FfiError::CallFailed(name))),
        },
        ServerStep::GetComposedText => {
            let ghost state_before = state@;
            match read_candidates(reading, reply) {
                Ok(_) => {
                    assert(step_taken(
                        state_before,
                        token@,
                        old(reading)@,
                        ServerStep::GetComposedText,
                        reply,
                    ).0 == state_before);
                    Ok(())
                },
                Err(error) => {
                    assert(step_taken(
                        state_before,
                        token@,
                        old(reading)@,
                        ServerStep::GetComposedText,
                        reply,
                    ).0 == state_before);
                    Err(ffi_error_status(&error))
                },
            }
        },
        _ => match reply {
            ConverterReply::Text(text) => match copy_owned_string(text, name) {
                Ok(text) => {
                    reading.hiragana = text;
                    Ok(())
                },
                Err(error) => Err(ffi_error_status(&error)),
            },
            _ => Err(ffi_error_status(&FfiError::CallFailed(name))),
        },
    }
}

/// The composing text that an answer holds, once all its steps were taken.
pub fn convert(reading: Reading) -> (composing_text: ComposingText)
    ensures
        composing_text.hiragana == reading.hiragana,
        composing_text.raw_input == reading.raw_input,
        composing_text.suggestions == reading.suggestions,
{
    ComposingText {
        hiragana: reading.hiragana,
        suggestions: reading.suggestions,
        raw_input: reading.raw_input,
    }
}

/// Whether a step changes what the converter holds.
pub open spec fn touches_converter(step: StepView) -> bool {
    !(step is Claim || step is Fail || step is LoadConfig || step is GetRawInput
        || step is GetComposedText)
}

/// A client that names its session and does not own the converter leaves what it
/// holds untouched, unless its text claims it: a late request of an old session
/// is refused, or answered without a call.
pub proof fn a_stranger_touches_nothing(
    state: SessionView,
    name: Seq<char>,
    request: ClientRequest<Seq<char>>,
)
    requires
        state.owner != Some(IpcSessionToken::Explicit(name)),
        !(request is AppendText && state.append_access(
            IpcSessionToken::Explicit(name),
        ).1 is ClaimedExplicit),
    ensures
        ({
            let (after, plan) = plan_of(state, IpcSessionToken::Explicit(name), request);
            &&& after.owner == state.owner && after.generation == state.generation
            &&& plan matches Ok(steps) ==> forall|i: int|
                0 <= i < steps.len() ==> !touches_converter(#[trigger] steps[i])
        }),
{
}

/// A request being answered: the client that it comes from, what has been read so
/// far, the step that is waited for, and those behind it.
#[derive(Debug)]
pub struct Answer {
    pub token: IpcSessionToken,
    pub reading: Reading,
    pub step: ServerStep,
    pub rest: Vec<ServerStep>,
}

/// The contents of an `Answer`.
#[verifier::ext_equal]
pub struct AnswerView {
    pub token: IpcSessionToken<Seq<char>>,
    pub reading: ReadingView,
    pub step: StepView,
    pub rest: Seq<StepView>,
}

impl View for Answer {
    type V = AnswerView;

    open spec fn view(&self) -> AnswerView {
        AnswerView {
            token: self.token@,
            reading: self.reading@,
            step: self.step@,
            rest: steps_view(self.rest@),
        }
    }
}

/// What answering a request comes to.
#[derive(Debug)]
pub enum AnswerNext {
    Waiting(Answer),
    Finished(Result<ComposingText, Refusal>),
}

/// The contents of an `AnswerNext`.
#[verifier::ext_equal]
pub enum AnswerNextView {
    Waiting(AnswerView),
    Finished(Result<ReadingView, Refusal<Seq<char>>>),
}

impl View for AnswerNext {
    type V = AnswerNextView;

    open spec fn view(&self) -> AnswerNextView {
        match self {
            AnswerNext::Waiting(answer) => AnswerNextView::Waiting(answer@),
            AnswerNext::Finished(Ok(text)) => AnswerNextView::Finished(
                Ok(
                    ReadingView {
                        hiragana: text.hiragana@,
                        raw_input: text.raw_input@,
                        suggestions: suggestions_view(text.suggestions@),
                    },
                ),
            ),
            AnswerNext::Finished(Err(refusal)) => AnswerNextView::Finished(Err(refusal@)),
        }
    }
}

/// Nothing has been read.
pub open spec fn nothing_read() -> ReadingView {
    ReadingView { hiragana: Seq::empty(), raw_input: Seq::empty(), suggestions: Seq::empty() }
}

/// Goes on with the first of the steps that are left. An answer without any is done.
pub open spec fn answer_continued(
    token: IpcSessionToken<Seq<char>>,
    reading: ReadingView,
    steps: Seq<StepView>,
) -> AnswerNextView {
    if steps.len() == 0 {
        AnswerNextView::Finished(Ok(reading))
    } else {
        AnswerNextView::Waiting(
            AnswerView { token, reading, step: steps[0], rest: steps.drop_first() },
        )
    }
}

/// The client that a request comes from. Settings are loaded for anybody: the
/// metadata of that request is not looked at.
pub open spec fn client_of(
    metadata: Option<Seq<u8>>,
    key: Seq<char>,
    request: ClientRequest<Seq<char>>,
) -> Result<IpcSessionToken<Seq<char>>, Refusal<Seq<char>>> {
    if request is UpdateConfig {
        Ok(IpcSessionToken::Legacy)
    } else {
        token_of(metadata, key)
    }
}

/// Begins to answer a request.
pub open spec fn answer_begun(
    state: SessionView,
    metadata: Option<Seq<u8>>,
    key: Seq<char>,
    request: ClientRequest<Seq<char>>,
) -> (SessionView, AnswerNextView) {
    match client_of(metadata, key, request) {
        Err(refusal) => (state, AnswerNextView::Finished(Err(refusal))),
        Ok(token) => match plan_of(state, token, request) {
            (after, Err(refusal)) => (after, AnswerNextView::Finished(Err(refusal))),
            (after, Ok(steps)) => (after, answer_continued(token, nothing_read(), steps)),
        },
    }
}

/// Goes on answering a request with what the converter has handed back. A step that
/// is refused ends the answer.
pub open spec fn answer_resumed(
    state: SessionView,
    answer: AnswerView,
    reply: ConverterReply,
) -> (SessionView, AnswerNextView) {
    match step_taken(state, answer.token, answer.reading, answer.step, reply) {
        (after, Ok(reading)) => (after, answer_continued(answer.token, reading, answer.rest)),
        (after, Err(error)) => (after, AnswerNextView::Finished(Err(refusal_of(error)))),
    }
}

/// Where an answer stands after replies. What comes behind its end changes nothing.
pub open spec fn answer_run(
    state: SessionView,
    next: AnswerNextView,
    replies: Seq<ConverterReply>,
) -> (SessionView, AnswerNextView)
    decreases replies.len(),
{
    match next {
        AnswerNextView::Waiting(answer) if replies.len() > 0 => {
            let (after, next) = answer_resumed(state, answer, replies[0]);
            answer_run(after, next, replies.drop_first())
        },
        _ => (state, next),
    }
}

fn continue_answer(token: IpcSessionToken, reading: Reading, steps: Vec<ServerStep>) -> (next:
    AnswerNext)
    ensures
        next@ == answer_continued(token@, reading@, steps_view(steps@)),
{
    let mut rest = steps;
    if rest.len() == 0 {
        return AnswerNext::Finished(Ok(convert(reading)));
    }
    let ghost all = rest@;
    let step = rest.remove(0);
    assert(steps_view(rest@) =~= steps_view(all).drop_first());
    AnswerNext::Waiting(Answer { token, reading, step, rest })
}

/// Begins to answer a request, which comes with the name of its session in its
/// metadata.
pub fn begin_answer(
    state: &mut FfiSessionState,
    metadata: Option<&[u8]>,
    key: &str,
    request: ClientRequest,
) -> (next: AnswerNext)
    requires
        old(state).is_valid(),
    ensures
        final(state).is_valid(),
        (final(state)@, next@) == answer_begun(
            old(state)@,
            match metadata {
                Some(bytes) => Some(bytes@),
                None => None,
            },
            key@,
            request@,
        ),
{
    let token = match request {
        ClientRequest::UpdateConfig => IpcSessionToken::Legacy,
        _ => match ipc_session_token(metadata, key) {
            Ok(token) => token,
            Err(refusal) => return AnswerNext::Finished(Err(refusal)),
        },
    };
    match plan_request(state, &token, request) {
        Ok(steps) => continue_answer(token, Reading::default(), steps),
        Err(refusal) => AnswerNext::Finished(Err(refusal)),
    }
}

impl Answer {
    /// Goes on answering a request with what the converter has handed back.
    pub fn resume(self, state: &mut FfiSessionState, reply: ConverterReply) -> (next: AnswerNext)
        requires
            old(state).is_valid(),
        ensures
            final(state).is_valid(),
            (final(state)@, next@) == answer_resumed(old(state)@, self@, reply),
    {
        let mut reading = self.reading;
        match take_step(state, &self.token, &mut reading, self.step, reply) {
            Ok(_) => continue_answer(self.token, reading, self.rest),
            Err(refusal) => AnswerNext::Finished(Err(refusal)),
        }
    }
}

/// The first step that is refused ends the answer, with the refusal of that step: no
/// later step is taken, whatever else the converter would hand back.
pub proof fn the_first_refusal_ends_the_answer(
    state: SessionView,
    answer: AnswerView,
    reply: ConverterReply,
    later: Seq<ConverterReply>,
)
    requires
        step_taken(state, answer.token, answer.reading, answer.step, reply).1 is Err,
    ensures
        ({
            let (after, result) = step_taken(
                state,
                answer.token,
                answer.reading,
                answer.step,
                reply,
            );
            answer_run(state, AnswerNextView::Waiting(answer), seq![reply] + later) == (
                after,
                AnswerNextView::Finished(Err(refusal_of(result->Err_0))),
            )
        }),
{
    let replies = seq![reply] + later;
    assert(replies.drop_first() =~= later);
    let (after, next) = answer_resumed(state, answer, reply);
    assert(answer_run(after, next, later) == (after, next));
}

proof fn ownership_stays_without_a_claim(
    state: SessionView,
    next: AnswerNextView,
    replies: Seq<ConverterReply>,
)
    requires
        next matches AnswerNextView::Waiting(answer) ==> !(answer.step is Claim) && forall|i: int|
            0 <= i < answer.rest.len() ==> !(#[trigger] answer.rest[i] is Claim),
    ensures
        answer_run(state, next, replies).0 == state,
    decreases replies.len(),
{
    if let AnswerNextView::Waiting(answer) = next {
        if replies.len() > 0 {
            let (after, following) = answer_resumed(state, answer, replies[0]);
            assert(after == state);
            ownership_stays_without_a_claim(after, following, replies.drop_first());
        }
    }
}

/// A claim takes effect only after its context has reached the converter. Where the
/// context cannot be handed over, or the converter refuses it, the answer ends with
/// that refusal, and the previous owner stays in place, whatever comes behind it.
pub proof fn a_failed_context_leaves_the_owner(
    state: SessionView,
    name: Seq<char>,
    text: Seq<char>,
    context: Seq<char>,
    replies: Seq<ConverterReply>,
)
    requires
        state.owner != Some(IpcSessionToken::Explicit(name)),
        state.append_access(IpcSessionToken::Explicit(name)).1 == (AppendAccess::ClaimedExplicit {
            context,
        }),
        replies.len() >= 2,
        !is_c_text(context) || replies[1] != ConverterReply::Status(FFI_SUCCESS),
    ensures
        ({
            let token = IpcSessionToken::Explicit(name);
            let (claimed, plan) = plan_of(state, token, ClientRequest::AppendText(text));
            let (after, next) = answer_run(
                claimed,
                answer_continued(token, nothing_read(), plan->Ok_0),
                replies,
            );
            &&& plan is Ok
            &&& after == claimed
            &&& after.owner == state.owner && after.generation == state.generation
            &&& next matches AnswerNextView::Finished(Err(_))
        }),
{
    let token = IpcSessionToken::Explicit(name);
    let (claimed, plan) = plan_of(state, token, ClientRequest::AppendText(text));
    let steps = plan->Ok_0;
    assert(steps[0] == StepView::ClearText && steps[1] == context_step(context));
    let later = replies.drop_first();
    let second = AnswerView {
        token,
        reading: nothing_read(),
        step: steps[1],
        rest: steps.drop_first().drop_first(),
    };
    assert(steps.drop_first()[0] == steps[1]);
    assert(later[0] == replies[1]);
    assert(answer_run(claimed, answer_continued(token, nothing_read(), steps), replies)
        == answer_run(claimed, AnswerNextView::Waiting(second), later));
    assert(seq![later[0]] + later.drop_first() =~= later);
    the_first_refusal_ends_the_answer(claimed, second, later[0], later.drop_first());
}

/// Once the context has reached the converter the converter changes hands, and only
/// then: the first text of a client that has put a context aside is appended as its
/// own.
pub proof fn a_claim_follows_its_context(
    state: SessionView,
    name: Seq<char>,
    text: Seq<char>,
    context: Seq<char>,
    cleared: ConverterReply,
    claimed: ConverterReply,
    later: Seq<ConverterReply>,
)
    requires
        state.owner != Some(IpcSessionToken::Explicit(name)),
        state.append_access(IpcSessionToken::Explicit(name)).1 == (AppendAccess::ClaimedExplicit {
            context,
        }),
        is_c_text(context),
    ensures
        ({
            let token = IpcSessionToken::Explicit(name);
            let (before, plan) = plan_of(state, token, ClientRequest::AppendText(text));
            let begun = answer_continued(token, nothing_read(), plan->Ok_0);
            let replies = seq![cleared, ConverterReply::Status(FFI_SUCCESS), claimed];
            &&& plan is Ok
            &&& before.owner == state.owner
            &&& answer_run(before, begun, replies.take(2)).0 == before
            &&& answer_run(before, begun, replies + later).0 == before.owned_by(token)
        }),
{
    let token = IpcSessionToken::Explicit(name);
    let (before, plan) = plan_of(state, token, ClientRequest::AppendText(text));
    let steps = plan->Ok_0;
    let own = converting(text_step(text, ServerStep::AppendText(text)));
    assert(steps[0] == StepView::ClearText && steps[1] == StepView::SetContext(context)
        && steps[2] is Claim);
    assert(steps.drop_first().drop_first().drop_first() =~= own);
    let begun = answer_continued(token, nothing_read(), steps);
    let replies = seq![cleared, ConverterReply::Status(FFI_SUCCESS), claimed];
    let three = answer_continued(token, nothing_read(), own);
    let all = replies + later;
    assert(all.drop_first()[0] == replies[1]);
    assert(all.drop_first().drop_first()[0] == replies[2]);
    assert(all.drop_first().drop_first().drop_first() =~= later);
    let first = replies.take(2);
    assert(first.drop_first()[0] == replies[1]);
    assert(first.drop_first().drop_first().len() == 0);
    assert(answer_run(before, begun, first).0 == before) by {
        reveal_with_fuel(answer_run, 3);
    }
    assert(answer_run(before, begun, all) == answer_run(before.owned_by(token), three, later)) by {
        reveal_with_fuel(answer_run, 4);
    }
    ownership_stays_without_a_claim(before.owned_by(token), three, later);
}

/// The owner is answered by the calls that its request names, with what it names,
/// and nothing changes hands. Each change of the composition is read back: first
/// the typed keys, then the candidates.
pub proof fn the_owner_is_answered(
    state: SessionView,
    token: IpcSessionToken<Seq<char>>,
    text: Seq<char>,
    count: u32,
    offset: i32,
)
    requires
        state.owner == Some(token),
        forall|i: int| 0 <= i < text.len() ==> #[trigger] text[i] != '\0',
        0 < count <= i32::MAX,
    ensures
        plan_of(state, token, ClientRequest::AppendText(text)) == (
            state,
            Ok::<Seq<StepView>, Refusal<Seq<char>>>(
                seq![
                    ServerStep::AppendText(text),
                    ServerStep::GetRawInput,
                    ServerStep::GetComposedText,
                ],
            ),
        ),
        plan_of(state, token, ClientRequest::CommitPrefixAndAppend { offset, text }) == (
            state,
            Ok::<Seq<StepView>, Refusal<Seq<char>>>(
                seq![
                    ServerStep::CommitPrefixAndAppend { offset, text },
                    ServerStep::GetRawInput,
                    ServerStep::GetComposedText,
                ],
            ),
        ),
        plan_of(state, token, ClientRequest::RemoveText { count }) == (
            state,
            Ok::<Seq<StepView>, Refusal<Seq<char>>>(
                seq![
                    ServerStep::RemoveText(count as i32),
                    ServerStep::GetRawInput,
                    ServerStep::GetComposedText,
                ],
            ),
        ),
        plan_of(state, token, ClientRequest::MoveCursor { offset }) == (
            state,
            Ok::<Seq<StepView>, Refusal<Seq<char>>>(
                seq![
                    ServerStep::MoveCursor(offset),
                    ServerStep::GetRawInput,
                    ServerStep::GetComposedText,
                ],
            ),
        ),
        plan_of(state, token, ClientRequest::ShrinkText { offset }) == (
            state,
            Ok::<Seq<StepView>, Refusal<Seq<char>>>(
                seq![
                    ServerStep::ShrinkText(offset),
                    ServerStep::GetRawInput,
                    ServerStep::GetComposedText,
                ],
            ),
        ),
        plan_of(state, token, ClientRequest::ClearText) == (
            state,
            Ok::<Seq<StepView>, Refusal<Seq<char>>>(seq![ServerStep::ClearText]),
        ),
        plan_of(state, token, ClientRequest::UpdateConfig) == (
            state,
            Ok::<Seq<StepView>, Refusal<Seq<char>>>(seq![ServerStep::LoadConfig]),
        ),
{
}

/// A count of characters to be removed reaches the converter as it is; none counts
/// as one, and more than the converter can be told as the most it can be told.
pub proof fn a_count_is_told_as_it_is(count: u32)
    ensures
        0 < count <= i32::MAX ==> told_count(count) == count,
        told_count(0) == 1,
        count > i32::MAX ==> told_count(count) == i32::MAX,
{
}

/// The owner's context reaches the converter as the last line that is not empty; the
/// context of another client with a name is put aside, without a call; one that
/// cannot be handed over is refused, and nothing changes.
pub proof fn a_context_is_applied_or_put_aside(
    state: SessionView,
    token: IpcSessionToken<Seq<char>>,
    context: Seq<char>,
)
    ensures
        ({
            let (after, plan) = plan_of(state, token, ClientRequest::SetContext(context));
            let line = last_line(context);
            let is_handed = forall|i: int| 0 <= i < line.len() ==> #[trigger] line[i] != '\0';
            &&& !is_handed ==> after == state && plan is Err && plan->Err_0.code
                == StatusCode::InvalidArgument
            &&& is_handed && state.owner == Some(token) ==> after == state && plan == Ok::<
                Seq<StepView>,
                Refusal<Seq<char>>,
            >(seq![ServerStep::SetContext(line)])
            &&& is_handed && state.owner != Some(token) && token is Explicit ==> {
                &&& plan == Ok::<Seq<StepView>, Refusal<Seq<char>>>(Seq::empty())
                &&& after.owner == state.owner && after.generation == state.generation
                &&& after.append_access(token).1 == (AppendAccess::ClaimedExplicit { context: line })
            }
        }),
{
}

/// A text with a zero in it is never handed to the converter: the first call is
/// replaced by a refusal that blames the client.
pub proof fn a_text_with_a_zero_is_refused(
    state: SessionView,
    token: IpcSessionToken<Seq<char>>,
    text: Seq<char>,
    offset: i32,
    i: int,
    reading: ReadingView,
    reply: ConverterReply,
)
    requires
        state.owner == Some(token),
        0 <= i < text.len(),
        text[i] == '\0',
    ensures
        ({
            let appended = plan_of(state, token, ClientRequest::AppendText(text)).1;
            let committed = plan_of(
                state,
                token,
                ClientRequest::CommitPrefixAndAppend { offset, text },
            ).1;
            let taken = step_taken(state, token, reading, appended->Ok_0[0], reply);
            &&& appended is Ok && committed is Ok
            &&& appended->Ok_0.len() > 0 && committed->Ok_0.len() > 0
            &&& appended->Ok_0[0] == committed->Ok_0[0]
            &&& taken.0 == state
            &&& taken.1 matches Err(error) && refusal_of(error).code
                == StatusCode::InvalidArgument && refusal_of(error).message == "text_to_append"@
                + " contains an interior NUL byte"@
        }),
{
    assert(text.contains('\0'));
}

/// A client with a name that does not own the converter is refused every change of
/// the composition, under the name of the request; it may ask to clear, but nothing
/// is cleared.
pub proof fn a_stranger_is_refused(
    state: SessionView,
    name: Seq<char>,
    text: Seq<char>,
    count: u32,
    offset: i32,
)
    requires
        state.owner != Some(IpcSessionToken::Explicit(name)),
    ensures
        ({
            let token = IpcSessionToken::Explicit(name);
            let told = "conversion session does not own the converter for "@;
            let refused = |operation: Seq<char>|
                Err::<Seq<StepView>, Refusal<Seq<char>>>(
                    Refusal {
                        code: StatusCode::FailedPrecondition,
                        message: told + operation,
                    },
                );
            &&& plan_of(state, token, ClientRequest::RemoveText { count }) == (
                state,
                refused("RemoveText"@),
            )
            &&& plan_of(state, token, ClientRequest::MoveCursor { offset }) == (
                state,
                refused("MoveCursor"@),
            )
            &&& plan_of(state, token, ClientRequest::ShrinkText { offset }) == (
                state,
                refused("ShrinkText"@),
            )
            &&& plan_of(state, token, ClientRequest::CommitPrefixAndAppend { offset, text }) == (
                state,
                refused("CommitPrefixAndAppend"@),
            )
            &&& plan_of(state, token, ClientRequest::ClearText) == (
                state,
                Ok::<Seq<StepView>, Refusal<Seq<char>>>(Seq::empty()),
            )
            &&& !state.pending.contains_key(token) ==> plan_of(
                state,
                token,
                ClientRequest::AppendText(text),
            ).1 == refused("AppendText"@)
        }),
{
}

/// The first text of a client that has put a context aside empties the converter,
/// hands it the context, changes hands, and then goes on as the owner's text does.
pub proof fn a_claim_begins_empty(
    state: SessionView,
    name: Seq<char>,
    text: Seq<char>,
    context: Seq<char>,
)
    requires
        state.owner != Some(IpcSessionToken::Explicit(name)),
        state.append_access(IpcSessionToken::Explicit(name)).1 == (AppendAccess::ClaimedExplicit {
            context,
        }),
        forall|i: int| 0 <= i < context.len() ==> #[trigger] context[i] != '\0',
    ensures
        ({
            let token = IpcSessionToken::Explicit(name);
            let request = ClientRequest::AppendText(text);
            let (after, plan) = plan_of(state, token, request);
            let owned = plan_of(state.owned_by(token), token, request).1;
            let claim: Seq<StepView> = seq![
                ServerStep::ClearText,
                ServerStep::SetContext(context),
                ServerStep::Claim,
            ];
            &&& plan == Ok::<Seq<StepView>, Refusal<Seq<char>>>(claim + owned->Ok_0)
            &&& owned is Ok
            &&& after.owner == state.owner
        }),
{
}

/// A client without a name that takes over begins with an empty converter: what it
/// asks for is done as for the owner, behind a call that clears.
pub proof fn a_legacy_takeover_begins_empty(
    state: SessionView,
    request: ClientRequest<Seq<char>>,
)
    requires
        state.owner != Some(IpcSessionToken::<Seq<char>>::Legacy),
        !(request is UpdateConfig),
    ensures
        ({
            let token = IpcSessionToken::<Seq<char>>::Legacy;
            let (after, plan) = plan_of(state, token, request);
            let (later, owned) = plan_of(after, token, request);
            let clear: Seq<StepView> = seq![ServerStep::ClearText];
            &&& plan is Ok ==> after.owner == Some(token) && later == after
            &&& plan matches Err(_) ==> after == state && request is SetContext
            &&& !(request is ClearText) && plan is Ok ==> owned is Ok && plan->Ok_0 == clear
                + owned->Ok_0
            &&& request is ClearText ==> plan->Ok_0 == clear
        }),
{
}

/// What the converter hands back is what the answer holds: the text of the call, the
/// typed keys, and the suggestions of its candidates.
pub proof fn an_answer_holds_what_was_read(
    state: SessionView,
    token: IpcSessionToken<Seq<char>>,
    step: StepView,
    hiragana: String,
    raw_input: String,
    items: Vec<Option<RawCandidate>>,
    length: i32,
)
    requires
        step is AppendText || step is RemoveText || step is MoveCursor || step is ShrinkText
            || step is CommitPrefixAndAppend,
        0 < length,
        length * (usize::BITS / 8) <= isize::MAX,
    ensures
        ({
            let steps: Seq<StepView> = seq![
                step,
                ServerStep::GetRawInput,
                ServerStep::GetComposedText,
            ];
            let replies = seq![
                ConverterReply::Text(Some(hiragana)),
                ConverterReply::Text(Some(raw_input)),
                ConverterReply::Candidates { is_null: false, length, items },
            ];
            let (after, next) = answer_run(
                state,
                answer_continued(token, nothing_read(), steps),
                replies,
            );
            &&& after == state
            &&& match suggestions_of(items@) {
                Ok(suggestions) => next matches AnswerNextView::Finished(Ok(reading))
                    && reading.hiragana == hiragana@ && reading.raw_input == raw_input@
                    && reading.suggestions == suggestions,
                Err(error) => next == AnswerNextView::Finished(Err(refusal_of(error))),
            }
        }),
{
    let steps: Seq<StepView> = seq![step, ServerStep::GetRawInput, ServerStep::GetComposedText];
    let replies = seq![
        ConverterReply::Text(Some(hiragana)),
        ConverterReply::Text(Some(raw_input)),
        ConverterReply::Candidates { is_null: false, length, items },
    ];
    let first = answer_continued(token, nothing_read(), steps)->Waiting_0;
    let (state_1, next_1) = answer_resumed(state, first, replies[0]);
    let second = next_1->Waiting_0;
    assert(second.step is GetRawInput);
    let (state_2, next_2) = answer_resumed(state_1, second, replies[1]);
    let third = next_2->Waiting_0;
    assert(third.step is GetComposedText);
    let (state_3, next_3) = answer_resumed(state_2, third, replies[2]);
    assert(third.rest.len() == 0);
    let rest_1 = replies.drop_first();
    let rest_2 = rest_1.drop_first();
    let rest_3 = rest_2.drop_first();
    assert(rest_1[0] == replies[1] && rest_2[0] == replies[2]);
    assert(answer_run(state_3, next_3, rest_3) == (state_3, next_3));
    assert(answer_run(state_2, next_2, rest_2) == (state_3, next_3));
    assert(answer_run(state_1, next_1, rest_1) == (state_3, next_3));
}

/// A call that hands nothing back, and one whose status is not zero, is refused under
/// its own name; a list of candidates is refused where its length is negative, or
/// where it is missing though it should not be empty.
pub proof fn a_failed_call_is_named(
    state: SessionView,
    token: IpcSessionToken<Seq<char>>,
    reading: ReadingView,
    text: Seq<char>,
    offset: i32,
    status: i32,
    length: i32,
    items: Vec<Option<RawCandidate>>,
)
    requires
        status != 0,
    ensures
        ({
            let nothing = ConverterReply::Text(None);
            let refused = ConverterReply::Status(status);
            let error = |step: StepView, reply: ConverterReply|
                step_taken(state, token, reading, step, reply).1;
            &&& error(ServerStep::AppendText(text), nothing) == Err::<
                ReadingView,
                FfiError<Seq<char>>,
            >(FfiError::CallFailed("AppendText"@))
            &&& error(ServerStep::RemoveText(offset), nothing) == Err::<
                ReadingView,
                FfiError<Seq<char>>,
            >(FfiError::CallFailed("RemoveText"@))
            &&& error(ServerStep::MoveCursor(offset), nothing) == Err::<
                ReadingView,
                FfiError<Seq<char>>,
            >(FfiError::CallFailed("MoveCursor"@))
            &&& error(ServerStep::ShrinkText(offset), nothing) == Err::<
                ReadingView,
                FfiError<Seq<char>>,
            >(FfiError::CallFailed("ShrinkText"@))
            &&& error(ServerStep::CommitPrefixAndAppend { offset, text }, nothing) == Err::<
                ReadingView,
                FfiError<Seq<char>>,
            >(FfiError::CallFailed("CommitPrefixAndAppend"@))
            &&& error(ServerStep::GetRawInput, nothing) == Err::<ReadingView, FfiError<Seq<char>>>(
                FfiError::CallFailed("GetRawInput"@),
            )
            &&& error(ServerStep::SetContext(text), refused) == Err::<
                ReadingView,
                FfiError<Seq<char>>,
            >(FfiError::Status { operation: "SetContext"@, status })
            &&& error(ServerStep::LoadConfig, refused) == Err::<ReadingView, FfiError<Seq<char>>>(
                FfiError::Status { operation: "LoadConfig"@, status },
            )
            &&& error(ServerStep::SetContext(text), ConverterReply::Status(0)) == Ok::<
                ReadingView,
                FfiError<Seq<char>>,
            >(reading)
            &&& length < 0 ==> error(
                ServerStep::GetComposedText,
                ConverterReply::Candidates { is_null: false, length, items },
            ) == Err::<ReadingView, FfiError<Seq<char>>>(FfiError::InvalidCandidateCount(length))
            &&& length > 0 ==> error(
                ServerStep::GetComposedText,
                ConverterReply::Candidates { is_null: true, length, items },
            ) == Err::<ReadingView, FfiError<Seq<char>>>(
                FfiError::CallFailed("GetComposedText"@),
            )
            &&& error(
                ServerStep::GetComposedText,
                ConverterReply::Candidates { is_null: true, length: 0, items },
            ) matches Ok(read) && read.suggestions.len() == 0
        }),
{
}

/// A request whose session cannot be named is refused before anything is done,
/// unless it only asks for the settings to be loaded.
pub proof fn a_nameless_request_changes_nothing(
    state: SessionView,
    metadata: Seq<u8>,
    key: Seq<char>,
    request: ClientRequest<Seq<char>>,
)
    requires
        token_of(Some(metadata), key) is Err,
    ensures
        !(request is UpdateConfig) ==> answer_begun(state, Some(metadata), key, request) == (
            state,
            AnswerNextView::Finished(Err(token_of(Some(metadata), key)->Err_0)),
        ),
        request is UpdateConfig ==> ({
            let (after, next) = answer_begun(state, Some(metadata), key, request);
            &&& after == state
            &&& next matches AnswerNextView::Waiting(answer) && answer.step is LoadConfig
                && answer.rest.len() == 0
        }),
{
}

} // verus!
