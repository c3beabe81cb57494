use azookey::launcher::{
    exit_record, runtime_paths, search_path_with, start_up, stop_record, supervise, taskkill_path,
    unexpected_exit, NoParentDirectory, Program, Startup, StartupNext, StartupReply, Supervision,
    SupervisionNext, SupervisionReply, Termination, TerminationNext, TerminationReply,
};
use azookey::log_rotation::{
    log_entry, rotated_log_path, runtime_log_path_under, FileEffect, FileReply, LogWorkNext,
    RuntimeLog, RuntimeLogWriter,
};
use azookey::paths::parent_directory;
use azookey::runtime_log::{
    append_truncation_marker, format_child_line, format_line, read_bounded_lines,
    sanitize_and_truncate, BoundedLines,
};

const TRUNCATION_MARKER: &str = "...[truncated]";

#[test]
fn runtime_paths_are_absolute_siblings_of_launcher() {
    let paths = runtime_paths(r"C:\Program Files\Azookey\launcher.exe", "vulkan").unwrap();

    assert_eq!(paths.app_dir, r"C:\Program Files\Azookey");
    assert_eq!(
        paths.backend_dir,
        r"C:\Program Files\Azookey\llama_vulkan"
    );
    assert_eq!(
        paths.server,
        r"C:\Program Files\Azookey\azookey-server.exe"
    );
    assert_eq!(paths.ui, r"C:\Program Files\Azookey\ui.exe");
}

#[test]
fn the_programs_lie_beside_the_launcher() {
    for launcher in [
        r"C:\launcher.exe",
        r"C:launcher.exe",
        r"\\server\share\bin\launcher.exe",
        r"bin/./launcher.exe",
        r"\\?\C:\launcher.exe",
        r"\\?\C:\a/b\launcher.exe",
        r"\\?\UNC\server\share\launcher.exe",
        r"\\?\volume\bin\launcher.exe",
        r"\\.\device\launcher.exe",
    ] {
        let paths = runtime_paths(launcher, "cuda").unwrap();
        let app_dir = parent_directory(launcher).unwrap();
        assert_eq!(paths.app_dir, app_dir);
        for path in [&paths.server, &paths.ui, &paths.backend_dir] {
            assert_eq!(parent_directory(path).as_deref(), Some(app_dir.as_str()));
        }
    }
}

#[test]
fn unknown_backend_falls_back_to_cpu() {
    let paths = runtime_paths(r"D:\Azookey\launcher.exe", "unknown").unwrap();

    assert_eq!(paths.backend_dir, r"D:\Azookey\llama_cpu");
}

#[test]
fn every_backend_has_its_directory() {
    let backend = |name: &str| {
        runtime_paths(r"D:\Azookey\launcher.exe", name)
            .unwrap()
            .backend_dir
    };
    assert_eq!(backend("cpu"), r"D:\Azookey\llama_cpu");
    assert_eq!(backend("cuda"), r"D:\Azookey\llama_cuda");
    assert_eq!(backend("vulkan"), r"D:\Azookey\llama_vulkan");
    assert_eq!(backend(""), r"D:\Azookey\llama_cpu");
}

#[test]
fn a_bare_program_name_has_no_directory() {
    let error = runtime_paths("launcher.exe", "cpu").unwrap_err();
    assert_eq!(error, NoParentDirectory);
    assert_eq!(error.message(), "launcher.exe has no parent directory");
}

#[test]
fn the_backend_is_searched_first() {
    assert_eq!(
        search_path_with(
            r"D:\Azookey\llama_cpu",
            Some(vec![r"C:\Windows", r"C:\Tools"])
        ),
        [r"D:\Azookey\llama_cpu", r"C:\Windows", r"C:\Tools"]
    );
    assert_eq!(
        search_path_with(r"D:\Azookey\llama_cpu", None),
        [r"D:\Azookey\llama_cpu"]
    );
}

#[test]
fn a_server_is_not_left_alone() {
    let failed = |error: &str| StartupReply::Failed(error.to_owned());
    let next = start_up(Startup::Starting(Program::Server), StartupReply::Done);
    assert!(matches!(
        next,
        StartupNext::Waiting(Startup::Starting(Program::Ui))
    ));
    let next = start_up(Startup::Starting(Program::Ui), StartupReply::Done);
    assert!(matches!(next, StartupNext::Running));
    let next = start_up(Startup::Starting(Program::Server), failed("no server"));
    assert!(matches!(next, StartupNext::ServerFailed { error } if error == "no server"));
    for (reply, expected) in [
        (StartupReply::Done, None),
        (failed("stuck"), Some("stuck".to_owned())),
    ] {
        let next = start_up(Startup::Starting(Program::Ui), failed("no window"));
        let StartupNext::Waiting(stopping) = next else {
            panic!("the server is not stopped");
        };
        let StartupNext::UiFailed {
            error,
            cleanup_error,
        } = start_up(stopping, reply)
        else {
            panic!("the start has not failed");
        };
        assert_eq!(error, "no window");
        assert_eq!(cleanup_error, expected);
    }
    assert_eq!(
        stop_record(7, None),
        "process=stop name=azookey-server.exe pid=7 reason=ui-start-failed"
    );
    assert_eq!(
        stop_record(7, Some("stuck")),
        "process=stop-failed name=azookey-server.exe pid=7 reason=ui-start-failed error=stuck"
    );
}

/// Runs the watch over what the queries find, and returns its end and the
/// programs that it stopped.
fn watch(mut found: Vec<SupervisionReply>) -> (SupervisionNext, Vec<Program>) {
    let mut stopped = Vec::new();
    let mut stage = Supervision::Querying(Program::Server);
    loop {
        if let Supervision::Stopping { exited, .. } = &stage {
            stopped.push(exited.companion());
        }
        match supervise(stage, found.remove(0)) {
            SupervisionNext::Waiting(next) => stage = next,
            finished => return (finished, stopped),
        }
    }
}

#[test]
fn supervision_stops_ui_when_server_exits() {
    let (end, stopped) = watch(vec![
        SupervisionReply::Exited("exit code: 0".to_owned()),
        SupervisionReply::Done,
    ]);
    assert_eq!(stopped, [Program::Ui]);
    let SupervisionNext::Exited {
        exited,
        status,
        cleanup_error,
    } = end
    else {
        panic!("the watch goes on");
    };
    assert!(unexpected_exit(exited, &status, cleanup_error.as_deref())
        .contains("azookey-server.exe exited unexpectedly"));
}

#[test]
fn supervision_stops_server_when_ui_exits() {
    let (end, stopped) = watch(vec![
        SupervisionReply::Running,
        SupervisionReply::Exited("exit code: 0".to_owned()),
        SupervisionReply::Done,
    ]);
    assert_eq!(stopped, [Program::Server]);
    let SupervisionNext::Exited {
        exited,
        status,
        cleanup_error,
    } = end
    else {
        panic!("the watch goes on");
    };
    assert!(unexpected_exit(exited, &status, cleanup_error.as_deref())
        .contains("ui.exe exited unexpectedly"));
}

#[test]
fn the_watch_sleeps_while_both_programs_run() {
    let (end, stopped) = watch(vec![
        SupervisionReply::Running,
        SupervisionReply::Running,
        SupervisionReply::Done,
        SupervisionReply::Running,
        SupervisionReply::Failed("denied".to_owned()),
    ]);
    assert!(stopped.is_empty());
    assert!(matches!(
        end,
        SupervisionNext::QueryFailed { program: Program::Ui, error } if error == "denied"
    ));
}

#[test]
fn a_companion_that_cannot_be_stopped_is_reported() {
    let (end, _) = watch(vec![
        SupervisionReply::Exited("exit code: 3".to_owned()),
        SupervisionReply::Failed("failed to wait for terminated child".to_owned()),
    ]);
    let SupervisionNext::Exited {
        exited,
        status,
        cleanup_error,
    } = end
    else {
        panic!("the watch goes on");
    };
    assert_eq!(
        unexpected_exit(exited, &status, cleanup_error.as_deref()),
        "azookey-server.exe exited unexpectedly with exit code: 3; failed to stop ui.exe: \
         failed to wait for terminated child"
    );
    assert_eq!(
        exit_record(exited, 10, &status, 11, cleanup_error.as_deref()),
        "process=unexpected-exit name=azookey-server.exe pid=10 status=exit code: 3 \
         companion=ui.exe companion_pid=11 cleanup_error=failed to wait for terminated child"
    );
    assert_eq!(
        unexpected_exit(Program::Ui, "exit code: 0", None),
        "ui.exe exited unexpectedly with exit code: 0; stopped azookey-server.exe"
    );
    assert_eq!(
        exit_record(Program::Ui, 11, "exit code: 0", 10, None),
        "process=unexpected-exit name=ui.exe pid=11 status=exit code: 0 \
         companion=azookey-server.exe companion_pid=10 cleanup_error=none"
    );
}

/// Stops a process over the given replies, and returns the end and the steps
/// that were taken.
fn stop(mut replies: Vec<TerminationReply>) -> (TerminationNext, Vec<Termination>) {
    let mut steps = Vec::new();
    let mut stage = Termination::Querying;
    loop {
        steps.push(stage);
        match stage.resume(replies.remove(0)) {
            TerminationNext::Waiting(next) => stage = next,
            finished => return (finished, steps),
        }
    }
}

#[test]
fn a_process_that_has_exited_is_left_alone() {
    assert_eq!(
        stop(vec![TerminationReply::Exited]),
        (TerminationNext::Stopped, vec![Termination::Querying])
    );
}

#[test]
fn a_running_process_is_stopped_by_the_tool_and_reaped() {
    assert_eq!(
        stop(vec![
            TerminationReply::Running,
            TerminationReply::Done,
            TerminationReply::Done,
        ]),
        (
            TerminationNext::Stopped,
            vec![
                Termination::Querying,
                Termination::RunningTool,
                Termination::Reaping,
            ]
        )
    );
}

#[test]
fn a_process_that_survives_the_tool_is_killed() {
    assert_eq!(
        stop(vec![
            TerminationReply::Running,
            TerminationReply::ToolFailed,
            TerminationReply::Running,
            TerminationReply::Done,
            TerminationReply::Done,
        ]),
        (
            TerminationNext::Stopped,
            vec![
                Termination::Querying,
                Termination::RunningTool,
                Termination::QueryingAgain,
                Termination::Killing,
                Termination::Reaping,
            ]
        )
    );
    assert_eq!(
        stop(vec![
            TerminationReply::Running,
            TerminationReply::ToolFailed,
            TerminationReply::Running,
            TerminationReply::Failed,
        ])
        .0,
        TerminationNext::Failed(Termination::Killing)
    );
}

#[test]
fn the_tool_is_found_under_the_windows_directory() {
    assert_eq!(
        taskkill_path(Some(r"D:\Windows")),
        r"D:\Windows\System32\taskkill.exe"
    );
    assert_eq!(taskkill_path(None), r"C:\Windows\System32\taskkill.exe");
}

#[test]
fn runtime_log_path_uses_local_app_data() {
    assert_eq!(
        runtime_log_path_under(r"C:\Users\tester\AppData\Local"),
        r"C:\Users\tester\AppData\Local\Azookey\logs\runtime.log"
    );
}

#[test]
fn the_rotated_log_stands_beside_the_log() {
    assert_eq!(
        rotated_log_path(r"C:\logs\runtime.log"),
        r"C:\logs\runtime.log.1"
    );
}

#[test]
fn bounded_reader_removes_newlines_and_limits_long_lines() {
    let input = format!("first\r\n{}\nlast", "x".repeat(10_000));
    let pieces: Vec<Vec<u8>> = input.as_bytes().chunks(17).map(|piece| piece.to_vec()).collect();

    let lines = read_bounded_lines(&pieces, 64);

    assert_eq!(lines.len(), 3);
    assert_eq!(lines[0], "first");
    assert!(lines[1].len() <= 64);
    assert!(lines[1].ends_with(TRUNCATION_MARKER));
    assert_eq!(lines[2], "last");
    assert!(lines.iter().all(|line| !line.contains(['\r', '\n'])));
}

#[test]
fn the_pieces_of_the_output_do_not_matter() {
    let input = "one\r\ntwo\n\nthree".as_bytes();
    let expected = ["one", "two", "", "three"];
    for size in [1, 2, 3, 5, 100] {
        let pieces: Vec<Vec<u8>> = input.chunks(size).map(|piece| piece.to_vec()).collect();
        assert_eq!(read_bounded_lines(&pieces, 4096), expected);
    }
}

#[test]
fn lines_are_handed_out_as_they_end() {
    let mut reader = BoundedLines::new(4096);
    reader.feed(b"one\ntw");
    assert_eq!(reader.take_lines(), ["one"]);
    reader.feed(b"o\n");
    assert_eq!(reader.take_lines(), ["two"]);
    reader.feed(b"three");
    assert!(reader.take_lines().is_empty());
    assert_eq!(reader.finish(), ["three"]);
}

#[test]
fn bytes_that_are_no_text_are_replaced() {
    assert_eq!(format_child_line(b"a\xffb\r", false, 4096), "a\u{fffd}b");
}

#[test]
fn a_shortened_line_says_so_once() {
    assert_eq!(
        format_child_line(b"0123456789012345", true, 20),
        "012345...[truncated]"
    );
    assert_eq!(
        format_child_line(b"text...[truncated]", true, 20),
        "text...[truncated]"
    );
}

#[test]
fn the_text_of_a_line_is_cleaned_and_marked() {
    assert_eq!(format_line("a\tb", false, 64), "a b");
    assert_eq!(format_line("abc", true, 64), "abc...[truncated]");
    assert_eq!(format_line("abc", true, 13), "");
}

#[test]
fn long_text_is_cut_between_characters() {
    assert_eq!(sanitize_and_truncate("short\ttext", 64), "short text");
    assert_eq!(sanitize_and_truncate("ああああああ", 18), "ああああああ");
    assert_eq!(
        sanitize_and_truncate("ああああああ", 17),
        "あ...[truncated]"
    );
    assert_eq!(sanitize_and_truncate("abcdef", 5), "");
    let mut text = "abcdefgh".to_owned();
    append_truncation_marker(&mut text, 16);
    assert_eq!(text, "ab...[truncated]");
}

/// The log file and its rotated copy, in memory.
struct Files {
    log: Vec<u8>,
    rotated: Option<Vec<u8>>,
    fails: Option<FileReply>,
}

impl Files {
    fn new() -> Files {
        Files {
            log: Vec::new(),
            rotated: None,
            fails: None,
        }
    }

    fn perform(&mut self, effect: FileEffect) -> FileReply {
        if let Some(reply) = self.fails {
            return reply;
        }
        match effect {
            FileEffect::Open | FileEffect::Measure => FileReply::Length(self.log.len() as u64),
            FileEffect::RemoveRotated => match self.rotated.take() {
                Some(_) => FileReply::Done,
                None => FileReply::NotFound,
            },
            FileEffect::Rename => {
                self.rotated = Some(std::mem::take(&mut self.log));
                FileReply::Done
            }
            FileEffect::Truncate => {
                self.log.clear();
                FileReply::Done
            }
            FileEffect::Reopen => FileReply::Done,
            FileEffect::Append(text) => {
                self.log.extend_from_slice(text.as_bytes());
                FileReply::Done
            }
        }
    }

    fn run(&mut self, log: &mut RuntimeLog, mut next: LogWorkNext) {
        while let LogWorkNext::Waiting(work) = next {
            let reply = self.perform(work.effect());
            next = log.resume(work, reply);
        }
    }
}

#[test]
fn record_sanitizes_embedded_newlines() {
    let mut files = Files::new();
    let (mut log, next) = RuntimeLog::open(1024);
    files.run(&mut log, next);

    let next = log.record(1, 2, "launcher error: first\r\nsecond\u{1b}[31m");
    files.run(&mut log, next);

    let contents = String::from_utf8(files.log).unwrap();
    assert!(contents.contains("launcher error: first  second"));
    assert!(!contents.contains('\u{1b}'));
    assert_eq!(contents.lines().count(), 1);
    assert_eq!(contents, "[1] pid=2 launcher error: first  second [31m\r\n");
}

#[test]
fn record_rotates_before_exceeding_limit() {
    let mut files = Files::new();
    let (mut log, next) = RuntimeLog::open(256);
    files.run(&mut log, next);

    for index in 0..10 {
        let next = log.record(
            1_700_000_000_000,
            4321,
            &format!("event={index} payload={}", "x".repeat(70)),
        );
        files.run(&mut log, next);
    }

    assert!(!files.log.is_empty());
    assert!(files.log.len() <= 256);
    assert!(files.rotated.unwrap().len() <= 256);
}

#[test]
fn an_entry_is_cut_to_the_limit_of_the_file() {
    let entry = log_entry(1, 2, &"x".repeat(100), 64);
    assert_eq!(entry.len(), 64);
    assert!(entry.starts_with("[1] pid=2 x"));
    assert!(entry.ends_with("...[truncated]\r\n"));
}

#[test]
fn a_full_log_is_rotated_when_it_is_opened() {
    let mut files = Files::new();
    files.log = vec![b'x'; 256];
    let (mut log, next) = RuntimeLog::open(256);
    files.run(&mut log, next);
    assert!(files.log.is_empty());
    assert_eq!(files.rotated.as_ref().map(|rotated| rotated.len()), Some(256));
    assert_eq!(
        log.writer,
        Some(RuntimeLogWriter {
            open: true,
            length: 0,
            max_bytes: 256,
        })
    );
}

#[test]
fn a_failed_log_is_disabled_for_good() {
    let mut files = Files::new();
    let (mut log, next) = RuntimeLog::open(256);
    files.run(&mut log, next);
    files.fails = Some(FileReply::Failed);
    let next = log.record(1, 2, "lost");
    files.run(&mut log, next);
    assert_eq!(log.writer, None);
    files.fails = None;
    assert!(matches!(log.record(1, 2, "lost too"), LogWorkNext::Finished));
    assert!(files.log.is_empty());
    assert!(matches!(
        RuntimeLog::disabled().record(1, 2, "lost"),
        LogWorkNext::Finished
    ));
}

#[test]
fn a_log_of_no_size_is_refused() {
    let (log, next) = RuntimeLog::open(0);
    assert_eq!(log.writer, None);
    assert!(matches!(next, LogWorkNext::Finished));
}

/// A rotated file that another process holds.
#[test]
fn a_held_rotated_file_does_not_let_the_log_grow() {
    let mut effects = Vec::new();
    let (mut log, mut next) = RuntimeLog::open(16);
    while let LogWorkNext::Waiting(work) = next {
        let effect = work.effect();
        let reply = match effect {
            FileEffect::Open => FileReply::Length(16),
            FileEffect::RemoveRotated => FileReply::Failed,
            _ => FileReply::Done,
        };
        effects.push(effect);
        next = log.resume(work, reply);
    }
    assert!(matches!(
        effects[..],
        [
            FileEffect::Open,
            FileEffect::RemoveRotated,
            FileEffect::Truncate,
            FileEffect::Reopen,
        ]
    ));
    assert_eq!(log.writer.map(|writer| writer.length), Some(0));
}
