use azookey::diagnostics::{
    diagnostic_line, event, formatted_line, log_directory, log_file_name, log_file_pid,
    log_of_process, process_is_running, recovered_detail, removable_logs, session_start_detail,
    EventNext, LogEffect, LogFile, LogReply, LoggerState, INVALID_PROCESS_ID, MAX_LOG_BYTES,
    RETRY_INTERVAL,
};
use azookey::ime_state::{pipe_retry_delay, Connection, IMEState, IPC_RECONNECT_RETRY_INTERVAL};
use azookey::input_mode::InputMode;
use azookey::composition::{Composition, CompositionState};
use azookey::text_service::{
    next_pending_input_mode_transition, BackspaceRepeatState, PendingInputModeTransition,
    UpdatePosState,
};
use azookey::ui_state::{UIState, WindowCommand, WindowPosition};

#[test]
fn attempts_are_throttled_and_numbered() {
    let mut state = IMEState::new();
    assert_eq!(state.ipc_snapshot(), None);
    assert_eq!(state.start_ipc_reconnect(0, false), Some(1));
    assert_eq!(state.start_ipc_reconnect(0, true), None);
    assert_eq!(state.finish_ipc_reconnect(1, None), None);
    assert_eq!(
        state.start_ipc_reconnect(IPC_RECONNECT_RETRY_INTERVAL - 1, false),
        None
    );
    assert_eq!(
        state.start_ipc_reconnect(IPC_RECONNECT_RETRY_INTERVAL, false),
        Some(2)
    );
    state.abandon_ipc_reconnect(1);
    assert_eq!(state.active_ipc_reconnect_attempt, Some(2));
    state.abandon_ipc_reconnect(2);
    assert_eq!(state.start_ipc_reconnect(IPC_RECONNECT_RETRY_INTERVAL, true), Some(3));
}

#[test]
fn a_connection_is_published_once() {
    let mut state = IMEState::new();
    let attempt = state.start_ipc_reconnect(0, false).unwrap();
    assert!(state.install_ipc_if_absent(40));
    assert!(!state.install_ipc_if_absent(41));
    assert_eq!(state.finish_ipc_reconnect(attempt, Some(42)), Some(42));
    assert_eq!(state.ipc_snapshot(), Some(40));
    assert_eq!(state.start_ipc_reconnect(u64::MAX, true), None);
    assert_eq!(state.invalidate_ipc(42, 1), None);
    let invalidated = state.invalidate_ipc(40, 1).unwrap();
    assert_eq!(
        invalidated.removed,
        Connection {
            id: 40,
            active: false,
        }
    );
    assert_eq!(state.ipc_snapshot(), None);
    assert_eq!(state.invalidate_ipc(40, 2), None);
    let attempt = invalidated.attempt_id.unwrap();
    assert_eq!(state.active_ipc_reconnect_attempt, Some(attempt));
    assert_eq!(state.last_ipc_reconnect_attempt, Some(1));
    assert_eq!(state.finish_ipc_reconnect(attempt, Some(43)), None);
    assert_eq!(
        state.ipc_service,
        Some(Connection {
            id: 43,
            active: true,
        })
    );
}

#[test]
fn a_failure_does_not_start_a_second_attempt() {
    let mut state = IMEState::new();
    let attempt = state.start_ipc_reconnect(0, false).unwrap();
    assert!(state.install_ipc_if_absent(40));
    let invalidated = state.invalidate_ipc(40, 1).unwrap();
    assert_eq!(invalidated.attempt_id, None);
    assert_eq!(state.active_ipc_reconnect_attempt, Some(attempt));
    assert_eq!(state.finish_ipc_reconnect(attempt, Some(41)), None);
    assert_eq!(state.ipc_snapshot(), Some(41));
}

#[test]
fn a_stale_attempt_gives_its_connection_up() {
    let mut state = IMEState::new();
    let first = state.start_ipc_reconnect(0, false).unwrap();
    state.abandon_ipc_reconnect(first);
    let second = state.start_ipc_reconnect(0, true).unwrap();
    assert_eq!(state.finish_ipc_reconnect(first, Some(40)), Some(40));
    assert_eq!(state.finish_ipc_reconnect(second, Some(41)), None);
    assert_eq!(state.ipc_snapshot(), Some(41));
}

#[test]
fn only_a_busy_pipe_is_tried_again() {
    assert_eq!(pipe_retry_delay(Some(231)), Some(50));
    assert_eq!(pipe_retry_delay(Some(2)), None);
    assert_eq!(pipe_retry_delay(None), None);
}

#[test]
fn the_window_is_told_what_it_does_not_know() {
    let place = |top| {
        WindowCommand::SetPosition(WindowPosition {
            top,
            left: 0,
            bottom: 0,
            right: 0,
        })
    };
    let mut state = UIState::default();
    assert!(!state.is_redundant(&WindowCommand::Hide));
    state.told(WindowCommand::Hide);
    assert!(state.is_redundant(&WindowCommand::Hide));

    state.told(place(1));
    assert!(state.is_redundant(&place(1)));
    assert!(!state.is_redundant(&place(2)));

    let candidates = || WindowCommand::SetCandidateState { selection: 3 };
    state.told(candidates());
    assert!(!state.is_redundant(&candidates()));
    assert!(!state.is_redundant(&place(1)));
    assert!(!state.is_redundant(&WindowCommand::Hide));
    assert!(state.is_redundant(&WindowCommand::SetSelection(3)));
    state.told(WindowCommand::SetSelection(4));
    assert!(!state.is_redundant(&WindowCommand::SetSelection(3)));

    let mode = |text: &str| WindowCommand::SetInputMode(text.to_owned());
    state.told(mode("あ"));
    assert!(state.is_redundant(&mode("あ")));
    assert!(!state.is_redundant(&mode("A")));
}

#[test]
fn a_snapshot_is_stored_while_it_is_current() {
    let mut composition = Composition::default();
    let mut snapshot = composition.snapshot();
    let other = composition.snapshot();
    snapshot.state = CompositionState::Composing;
    assert!(composition.write_back(&snapshot));
    assert_eq!(composition.state, CompositionState::Composing);
    assert_eq!(composition.generation, 1);
    assert!(!composition.write_back(&other));
    composition.reset();
    assert_eq!(composition.generation, 2);
    assert!(!composition.write_back(&snapshot));
    assert!(!composition.is_active());
}

#[test]
fn presses_wait_or_run() {
    let mut state = BackspaceRepeatState::default();
    assert!(!state.should_defer(true, 0));
    state.mark_batch_started(100);
    assert!(state.should_defer(true, 0));
    state.defer(0);
    assert_eq!(state.pending_count(), 1);
    assert_eq!(state.batch_count(0), 2);
    assert_eq!(state.take_pending(), 1);
    assert_eq!(state.take_pending(), 0);
}

#[test]
fn layout_changes_are_ignored_for_a_while() {
    let mut state = UpdatePosState::default();
    assert!(!state.should_skip_layout_change(0));
    assert!(state.try_begin_update(1_000));
    assert!(!state.try_begin_update(1_000));
    assert!(state.should_skip_layout_change(u64::MAX));
    state.finish_update(2_000);
    assert_eq!(
        state,
        UpdatePosState::SuppressingLayoutChange { until: 200_001_000 }
    );
    state.finish_update(u64::MAX);
    assert!(state.should_skip_layout_change(200_001_000));
    assert!(!state.should_skip_layout_change(200_001_001));
    assert_eq!(state, UpdatePosState::Idle);
    assert!(state.try_begin_update(1_000));
    state.finish_update(300_000_000);
    assert_eq!(state, UpdatePosState::Idle);
}

#[test]
fn waiting_mode_changes_coalesce() {
    let change = |from, to| Some(PendingInputModeTransition { from, to });
    let waiting = change(InputMode::Kana, InputMode::Latin);
    assert_eq!(
        next_pending_input_mode_transition(waiting, InputMode::Latin, InputMode::Latin, true),
        waiting
    );
    assert_eq!(
        next_pending_input_mode_transition(None, InputMode::Latin, InputMode::Kana, true),
        change(InputMode::Latin, InputMode::Kana)
    );
}

#[test]
fn a_line_holds_time_event_and_process() {
    assert_eq!(
        diagnostic_line("2026-01-02T03:04:05.678+09:00", "mode_key", 12, 34, "vk=192"),
        "2026-01-02T03:04:05.678+09:00 event=mode_key pid=12 tid=34 vk=192"
    );
    let line = formatted_line("mode_key", 12, 34, "vk=192");
    let (timestamp, rest) = line.split_once(' ').unwrap();
    assert_eq!(rest, "event=mode_key pid=12 tid=34 vk=192");
    assert!(chrono::DateTime::parse_from_rfc3339(timestamp).is_ok());
    assert_eq!(timestamp.len(), 29);
    let marks: String = timestamp.chars().filter(|c| !c.is_ascii_digit()).collect();
    assert!(marks == "--T::.+:" || marks == "--T::.-:");
    assert_eq!(line.matches('=').count(), 4);
    assert_eq!(
        session_start_detail("0.1.0", "x86_64"),
        "version=0.1.0 arch=x86_64"
    );
}

#[test]
fn a_log_is_named_after_its_process() {
    assert_eq!(
        log_directory(r"C:\Users\tester\AppData\Local"),
        r"C:\Users\tester\AppData\Local\Azookey\logs\client"
    );
    let name = log_file_name(1234, 5678, "x86_64");
    assert_eq!(name, "client-1234-5678-x86_64.log");
    assert_eq!(log_file_pid(&name), Some(1234));
    assert_eq!(log_of_process(r"C:\logs\client-7-8-x86.log"), Some(7));
    assert_eq!(log_of_process(r"C:\logs\client-7-8-x86.txt"), None);
    assert_eq!(log_file_pid("client-4294967295-8-x86.log"), Some(u32::MAX));
    assert_eq!(log_file_pid("client-4294967296-8-x86.log"), None);
    assert_eq!(log_file_pid("client-+7-8-x86.log"), Some(7));
    assert_eq!(log_file_pid("client--8-x86.log"), None);
    assert_eq!(log_file_pid("client-7.log"), None);
}

#[test]
fn only_a_missing_process_has_ended() {
    assert!(process_is_running(None));
    assert!(process_is_running(Some(-2147024891)));
    assert!(!process_is_running(Some(INVALID_PROCESS_ID)));
}

#[test]
fn old_logs_of_ended_processes_are_removed() {
    let logs = |count: i128, same: bool, running: i128| -> Vec<LogFile> {
        (0..count)
            .map(|i| LogFile {
                path: format!("client-{i}-0-x86.log"),
                modified: if same { 0 } else { i },
                running: i == running,
            })
            .collect()
    };
    assert_eq!(
        removable_logs(&logs(70, false, -1), "client-2-0-x86.log"),
        [0, 1, 3, 4, 5]
    );
    assert_eq!(
        removable_logs(&logs(70, false, -1), "client-2-0-x86.log/"),
        [0, 1, 3, 4, 5]
    );
    assert_eq!(removable_logs(&logs(70, false, 4), ""), [0, 1, 2, 3, 5]);
    assert_eq!(removable_logs(&logs(66, true, -1), ""), [64, 65]);
    assert_eq!(removable_logs(&logs(64, false, -1), ""), [0_usize; 0]);
}

/// A log file in memory.
struct Log {
    bytes: Vec<u8>,
    fails: bool,
    opened: usize,
}

impl Log {
    fn write(&mut self, state: &mut LoggerState, line: &str, now: u64) {
        let mut next = event(state, line.to_owned(), now);
        while let EventNext::Waiting(stage) = next {
            let reply = if self.fails {
                LogReply::Failed("PermissionDenied".to_owned())
            } else {
                match stage.effect() {
                    LogEffect::Open => {
                        self.opened += 1;
                        self.bytes.clear();
                    }
                    LogEffect::Truncate => self.bytes.clear(),
                    LogEffect::Append(line) => self.bytes.extend_from_slice(line.as_bytes()),
                }
                LogReply::Done
            };
            next = state.resume_event_at(stage, reply, "T", 12, 34, now);
        }
    }

    fn text(&self) -> &str {
        std::str::from_utf8(&self.bytes).unwrap()
    }
}

#[test]
fn the_log_recovers_from_failures() {
    let mut state = LoggerState::default();
    let mut log = Log {
        bytes: Vec::new(),
        fails: true,
        opened: 0,
    };
    log.write(&mut state, "lost", 0);
    assert_eq!(state.failure_count, 1);
    assert_eq!(state.retry_after, Some(RETRY_INTERVAL));
    log.fails = false;
    log.write(&mut state, "lost too", RETRY_INTERVAL - 1);
    assert_eq!(log.opened, 0);
    log.write(&mut state, "kept", RETRY_INTERVAL);
    assert_eq!(
        log.text(),
        "T event=diagnostic_recovered pid=12 tid=34 failures=1 \
         last_error=Some(PermissionDenied)\nkept\n"
    );
    log.write(&mut state, "more", RETRY_INTERVAL);
    assert!(log.text().ends_with("kept\nmore\n"));
    assert_eq!(log.opened, 1);
    assert_eq!(state.log, Some(log.bytes.len() as u64));
    log.fails = true;
    log.write(&mut state, "lost again", RETRY_INTERVAL);
    assert_eq!(state.log, None);
    assert_eq!(state.failure_count, 2);
}

#[test]
fn a_recovered_log_tells_the_time() {
    let mut state = LoggerState {
        failure_count: 3,
        ..LoggerState::default()
    };
    let EventNext::Waiting(opening) = event(&state, "own".to_owned(), 0) else {
        panic!("the log is not opened");
    };
    let EventNext::Waiting(appending) = state.resume_event(opening, LogReply::Done, 12, 34, 0)
    else {
        panic!("nothing is written");
    };
    let LogEffect::Append(line) = appending.effect() else {
        panic!("no line is written");
    };
    let (timestamp, rest) = line.split_once(' ').unwrap();
    assert!(timestamp.contains('T'));
    assert_eq!(
        rest,
        "event=diagnostic_recovered pid=12 tid=34 failures=3 last_error=None\n"
    );
}

#[test]
fn the_log_starts_again_at_its_limit() {
    let mut state = LoggerState::default();
    let mut log = Log {
        bytes: Vec::new(),
        fails: false,
        opened: 0,
    };
    let line = "x".repeat(MAX_LOG_BYTES as usize / 2);
    for _ in 0..3 {
        log.write(&mut state, &line, 0);
        assert!(log.bytes.len() as u64 <= MAX_LOG_BYTES);
        assert_eq!(log.bytes.len(), line.len() + 1);
    }
    assert_eq!(recovered_detail(2, &None), "failures=2 last_error=None");
}
