//! Starting the server and the candidate window, and watching over them.

use vstd::prelude::*;

use crate::paths::{
    a_joined_name_is_a_sibling, join_path, joined_path, keeps_directory, parent_directory,
    parent_of, prefix_len,
};
use crate::text::{decimal, decimal_notation, same_text};

verus! {

broadcast use vstd::string::group_string_axioms;

/// How long the launcher sleeps between two looks at its processes, in
/// milliseconds.
pub const PROCESS_POLL_INTERVAL_MILLIS: u64 = 100;

/// Where the programs are.
#[derive(Debug)]
pub struct RuntimePaths {
    pub app_dir: String,
    pub backend_dir: String,
    pub server: String,
    pub ui: String,
}

/// The contents of `RuntimePaths`.
#[verifier::ext_equal]
pub struct RuntimePathsView {
    pub app_dir: Seq<char>,
    pub backend_dir: Seq<char>,
    pub server: Seq<char>,
    pub ui: Seq<char>,
}

impl View for RuntimePaths {
    type V = RuntimePathsView;

    open spec fn view(&self) -> RuntimePathsView {
        RuntimePathsView {
            app_dir: self.app_dir@,
            backend_dir: self.backend_dir@,
            server: self.server@,
            ui: self.ui@,
        }
    }
}

/// The launcher is in no directory.
#[derive(Clone, Copy, Debug, PartialEq, Eq, Structural)]
pub struct NoParentDirectory;

impl NoParentDirectory {
    /// The text of this error.
    pub fn message(self) -> (message: &'static str)
        ensures
            message@ == "launcher.exe has no parent directory"@,
    {
        "launcher.exe has no parent directory"
    }
}

/// The directory of a backend. Anything unknown is the one for the processor.
pub open spec fn backend_name(configured: Seq<char>) -> Seq<char> {
    if configured == "cuda"@ {
        "llama_cuda"@
    } else if configured == "vulkan"@ {
        "llama_vulkan"@
    } else {
        "llama_cpu"@
    }
}

/// Returns the directory of a backend.
pub fn backend_directory(configured: &str) -> (name: &'static str)
    ensures
        name@ == backend_name(configured@),
{
    if same_text(configured, "cuda") {
        "llama_cuda"
    } else if same_text(configured, "vulkan") {
        "llama_vulkan"
    } else {
        "llama_cpu"
    }
}

/// Where the programs are that belong to a launcher in `app_dir`.
pub open spec fn paths_in(app_dir: Seq<char>, configured_backend: Seq<char>) -> RuntimePathsView {
    RuntimePathsView {
        app_dir,
        backend_dir: joined_path(app_dir, backend_name(configured_backend)),
        server: joined_path(app_dir, "azookey-server.exe"@),
        ui: joined_path(app_dir, "ui.exe"@),
    }
}

/// Finds the programs beside the launcher.
pub fn runtime_paths(current_exe: &str, configured_backend: &str) -> (paths: Result<
    RuntimePaths,
    NoParentDirectory,
>)
    ensures
        match paths {
            Ok(paths) => {
                &&& parent_of(current_exe@) matches Some(app_dir) && app_dir.len() > 0
                    && paths@ == paths_in(app_dir, configured_backend@)
            },
            Err(_) => parent_of(current_exe@) matches Some(app_dir) ==> app_dir.len() == 0,
        },
{
    let app_dir = match parent_directory(current_exe) {
        Some(app_dir) => app_dir,
        None => return Err(NoParentDirectory),
    };
    if app_dir.as_str().is_empty() {
        return Err(NoParentDirectory);
    }
    let backend_dir = join_path(app_dir.as_str(), backend_directory(configured_backend));
    let server = join_path(app_dir.as_str(), "azookey-server.exe");
    let ui = join_path(app_dir.as_str(), "ui.exe");
    Ok(RuntimePaths { app_dir, backend_dir, server, ui })
}

/// The programs and the backend lie beside the launcher: the directory of each is
/// that of the launcher. The exceptions are a launcher in a directory that is the
/// bare name of a server, and one whose verbatim path has doubled separators.
pub proof fn the_programs_lie_beside_the_launcher(
    current_exe: Seq<char>,
    configured_backend: Seq<char>,
)
    requires
        parent_of(current_exe) matches Some(app_dir) && app_dir.len() > 0,
        ({
            let app_dir = parent_of(current_exe)->0;
            let prefix = prefix_len(current_exe);
            &&& keeps_directory(app_dir, "azookey-server.exe"@, prefix)
            &&& keeps_directory(app_dir, "ui.exe"@, prefix)
            &&& keeps_directory(app_dir, backend_name(configured_backend), prefix)
        }),
    ensures
        ({
            let paths = paths_in(parent_of(current_exe)->0, configured_backend);
            &&& parent_of(paths.server) == parent_of(current_exe)
            &&& parent_of(paths.ui) == parent_of(current_exe)
            &&& parent_of(paths.backend_dir) == parent_of(current_exe)
        }),
{
    reveal_strlit("llama_cuda");
    reveal_strlit("llama_vulkan");
    reveal_strlit("llama_cpu");
    reveal_strlit("azookey-server.exe");
    reveal_strlit("ui.exe");
    a_joined_name_is_a_sibling(current_exe, backend_name(configured_backend));
    a_joined_name_is_a_sibling(current_exe, "azookey-server.exe"@);
    a_joined_name_is_a_sibling(current_exe, "ui.exe"@);
}

/// Puts a directory in front of the entries of a search path.
pub fn search_path_with<T>(directory: T, existing: Option<Vec<T>>) -> (entries: Vec<T>)
    ensures
        entries@ == match existing {
            Some(existing) => seq![directory] + existing@,
            None => seq![directory],
        },
{
    let mut entries: Vec<T> = Vec::new();
    entries.push(directory);
    if let Some(existing) = existing {
        let mut existing = existing;
        entries.append(&mut existing);
    }
    entries
}

/// A process that the launcher watches over.
#[derive(Clone, Copy, Debug, PartialEq, Eq, Structural)]
pub enum Program {
    Server,
    Ui,
}

impl Program {
    /// The name of the program.
    pub open spec fn text(self) -> Seq<char> {
        match self {
            Program::Server => "azookey-server.exe"@,
            Program::Ui => "ui.exe"@,
        }
    }

    /// The other program.
    pub open spec fn other(self) -> Program {
        match self {
            Program::Server => Program::Ui,
            Program::Ui => Program::Server,
        }
    }

    /// Returns the name of the program.
    pub fn name(self) -> (name: &'static str)
        ensures
            name@ == self.text(),
    {
        match self {
            Program::Server => "azookey-server.exe",
            Program::Ui => "ui.exe",
        }
    }

    /// Returns the other program.
    pub fn companion(self) -> (companion: Program)
        ensures
            companion == self.other(),
    {
        match self {
            Program::Server => Program::Ui,
            Program::Ui => Program::Server,
        }
    }
}

/// Starting the programs: what is waited for. The text of an error is the system's.
#[derive(Debug)]
pub enum Startup<T = String> {
    Starting(Program),
    /// The window could not be started: stop the server.
    StoppingServer { error: T },
}

impl View for Startup<String> {
    type V = Startup<Seq<char>>;

    open spec fn view(&self) -> Startup<Seq<char>> {
        match self {
            Startup::Starting(program) => Startup::Starting(*program),
            Startup::StoppingServer { error } => Startup::StoppingServer { error: error@ },
        }
    }
}

/// What came of it.
#[derive(Debug)]
pub enum StartupReply {
    Done,
    Failed(String),
}

/// What starting the programs comes to.
#[derive(Debug)]
pub enum StartupNext<T = String> {
    Waiting(Startup<T>),
    /// Both programs run.
    Running,
    /// The server could not be started, and nothing runs.
    ServerFailed { error: T },
    /// The window could not be started, and the server was stopped, or could not be.
    UiFailed { error: T, cleanup_error: Option<T> },
}

impl View for StartupNext<String> {
    type V = StartupNext<Seq<char>>;

    open spec fn view(&self) -> StartupNext<Seq<char>> {
        match self {
            StartupNext::Waiting(startup) => StartupNext::Waiting(startup@),
            StartupNext::Running => StartupNext::Running,
            StartupNext::ServerFailed { error } => StartupNext::ServerFailed { error: error@ },
            StartupNext::UiFailed { error, cleanup_error } => StartupNext::UiFailed {
                error: error@,
                cleanup_error: match cleanup_error {
                    Some(error) => Some(error@),
                    None => None,
                },
            },
        }
    }
}

/// Goes on after a reply. The server is started first, then the window.
pub open spec fn started(stage: Startup<Seq<char>>, reply: StartupReply) -> StartupNext<Seq<char>> {
    match (stage, reply) {
        (Startup::Starting(Program::Server), StartupReply::Done) => StartupNext::Waiting(
            Startup::Starting(Program::Ui),
        ),
        (Startup::Starting(Program::Ui), StartupReply::Done) => StartupNext::Running,
        (Startup::Starting(Program::Server), StartupReply::Failed(error)) => {
            StartupNext::ServerFailed { error: error@ }
        },
        (Startup::Starting(Program::Ui), StartupReply::Failed(error)) => StartupNext::Waiting(
            Startup::StoppingServer { error: error@ },
        ),
        (Startup::StoppingServer { error }, StartupReply::Done) => StartupNext::UiFailed {
            error,
            cleanup_error: None,
        },
        (Startup::StoppingServer { error }, StartupReply::Failed(cleanup_error)) => {
            StartupNext::UiFailed { error, cleanup_error: Some(cleanup_error@) }
        },
    }
}

/// Goes on starting the programs after a reply.
pub fn start_up(stage: Startup, reply: StartupReply) -> (next: StartupNext)
    ensures
        next@ == started(stage@, reply),
{
    match (stage, reply) {
        (Startup::Starting(Program::Server), StartupReply::Done) => StartupNext::Waiting(
            Startup::Starting(Program::Ui),
        ),
        (Startup::Starting(Program::Ui), StartupReply::Done) => StartupNext::Running,
        (Startup::Starting(Program::Server), StartupReply::Failed(error)) => {
            StartupNext::ServerFailed { error }
        },
        (Startup::Starting(Program::Ui), StartupReply::Failed(error)) => StartupNext::Waiting(
            Startup::StoppingServer { error },
        ),
        (Startup::StoppingServer { error }, StartupReply::Done) => StartupNext::UiFailed {
            error,
            cleanup_error: None,
        },
        (Startup::StoppingServer { error }, StartupReply::Failed(cleanup_error)) => {
            StartupNext::UiFailed { error, cleanup_error: Some(cleanup_error) }
        },
    }
}

/// A server is not left alone: where the window cannot be started, the next thing is
/// to stop the server, and whatever comes of that the start fails with the window's
/// error. Both programs run only where both were started.
pub proof fn a_server_is_not_left_alone(error: String, stopped: StartupReply, reply: StartupReply)
    ensures
        started(Startup::Starting(Program::Ui), StartupReply::Failed(error))
            == StartupNext::Waiting(Startup::StoppingServer { error: error@ }),
        started(Startup::StoppingServer { error: error@ }, stopped)
            matches StartupNext::UiFailed { error: reported, .. } && reported == error@,
        started(Startup::Starting(Program::Server), reply) is Waiting <==> reply is Done,
        !(started(Startup::Starting(Program::Server), reply) is Running),
        started(Startup::Starting(Program::Ui), reply) is Running <==> reply is Done,
{
}

/// The entry of the log about a server that was stopped because the window could not
/// be started.
pub open spec fn stop_record_text(pid: u32, cleanup_error: Option<Seq<char>>) -> Seq<char> {
    match cleanup_error {
        None => "process=stop name="@ + Program::Server.text() + " pid="@ + decimal_notation(
            pid as int,
        ) + " reason=ui-start-failed"@,
        Some(error) => "process=stop-failed name="@ + Program::Server.text() + " pid="@
            + decimal_notation(pid as int) + " reason=ui-start-failed error="@ + error,
    }
}

/// Writes the entry of the log about a server that was stopped because the window
/// could not be started.
pub fn stop_record(pid: u32, cleanup_error: Option<&str>) -> (record: String)
    ensures
        record@ == stop_record_text(
            pid,
            match cleanup_error {
                Some(error) => Some(error@),
                None => None,
            },
        ),
{
    let mut record = match cleanup_error {
        None => "process=stop name=",
        Some(_) => "process=stop-failed name=",
    }.to_owned();
    record.append(Program::Server.name());
    record.append(" pid=");
    record.append(decimal(pid as u64).as_str());
    match cleanup_error {
        None => {
            record.append(" reason=ui-start-failed");
        },
        Some(error) => {
            record.append(" reason=ui-start-failed error=");
            record.append(error);
        },
    }
    record
}

/// Watching over the programs: what is waited for. The text of a status is the
/// system's.
#[derive(Debug)]
pub enum Supervision<T = String> {
    /// Find out whether a program has ended.
    Querying(Program),
    /// Look again a while later.
    Sleeping,
    /// A program has ended: stop the other one.
    Stopping { exited: Program, status: T },
}

impl View for Supervision<String> {
    type V = Supervision<Seq<char>>;

    open spec fn view(&self) -> Supervision<Seq<char>> {
        match self {
            Supervision::Querying(program) => Supervision::Querying(*program),
            Supervision::Sleeping => Supervision::Sleeping,
            Supervision::Stopping { exited, status } => Supervision::Stopping {
                exited: *exited,
                status: status@,
            },
        }
    }
}

/// What came of it.
#[derive(Debug)]
pub enum SupervisionReply {
    Done,
    /// The program is running.
    Running,
    /// The program has ended.
    Exited(String),
    Failed(String),
}

/// What watching over the programs comes to. It ends only with an error.
#[derive(Debug)]
pub enum SupervisionNext<T = String> {
    Waiting(Supervision<T>),
    /// A program could not be asked for its status.
    QueryFailed { program: Program, error: T },
    /// A program has ended, and the other one was stopped, or could not be.
    Exited { exited: Program, status: T, cleanup_error: Option<T> },
}

impl View for SupervisionNext<String> {
    type V = SupervisionNext<Seq<char>>;

    open spec fn view(&self) -> SupervisionNext<Seq<char>> {
        match self {
            SupervisionNext::Waiting(supervision) => SupervisionNext::Waiting(supervision@),
            SupervisionNext::QueryFailed { program, error } => SupervisionNext::QueryFailed {
                program: *program,
                error: error@,
            },
            SupervisionNext::Exited { exited, status, cleanup_error } => SupervisionNext::Exited {
                exited: *exited,
                status: status@,
                cleanup_error: match cleanup_error {
                    Some(error) => Some(error@),
                    None => None,
                },
            },
        }
    }
}

/// Goes on after a reply. The server is asked first, then the window, and then
/// again after a while.
pub open spec fn supervised(
    supervision: Supervision<Seq<char>>,
    reply: SupervisionReply,
) -> SupervisionNext<Seq<char>> {
    match supervision {
        Supervision::Querying(program) => match reply {
            SupervisionReply::Exited(status) => SupervisionNext::Waiting(
                Supervision::Stopping { exited: program, status: status@ },
            ),
            SupervisionReply::Failed(error) => SupervisionNext::QueryFailed {
                program,
                error: error@,
            },
            _ => SupervisionNext::Waiting(
                match program {
                    Program::Server => Supervision::Querying(Program::Ui),
                    Program::Ui => Supervision::Sleeping,
                },
            ),
        },
        Supervision::Sleeping => SupervisionNext::Waiting(Supervision::Querying(Program::Server)),
        Supervision::Stopping { exited, status } => SupervisionNext::Exited {
            exited,
            status,
            cleanup_error: match reply {
                SupervisionReply::Failed(error) => Some(error@),
                _ => None,
            },
        },
    }
}

/// Goes on watching over the programs after a reply.
pub fn supervise(supervision: Supervision, reply: SupervisionReply) -> (next: SupervisionNext)
    ensures
        next@ == supervised(supervision@, reply),
{
    match supervision {
        Supervision::Querying(program) => match reply {
            SupervisionReply::Exited(status) => SupervisionNext::Waiting(
                Supervision::Stopping { exited: program, status },
            ),
            SupervisionReply::Failed(error) => SupervisionNext::QueryFailed { program, error },
            _ => SupervisionNext::Waiting(
                match program {
                    Program::Server => Supervision::Querying(Program::Ui),
                    Program::Ui => Supervision::Sleeping,
                },
            ),
        },
        Supervision::Sleeping => SupervisionNext::Waiting(Supervision::Querying(Program::Server)),
        Supervision::Stopping { exited, status } => SupervisionNext::Exited {
            exited,
            status,
            cleanup_error: match reply {
                SupervisionReply::Failed(error) => Some(error),
                _ => None,
            },
        },
    }
}

/// Neither program outlives the other: once one has been seen to end, nothing
/// happens before the other one was told to stop, and then the watch is over.
pub proof fn neither_program_outlives_the_other(
    program: Program,
    status: String,
    reply: SupervisionReply,
)
    ensures
        supervised(Supervision::Querying(program), SupervisionReply::Exited(status))
            == SupervisionNext::Waiting(
            Supervision::Stopping { exited: program, status: status@ },
        ),
        supervised(Supervision::Stopping { exited: program, status: status@ }, reply) is Exited,
{
}

/// As long as both programs run, both are looked at again and again, and the
/// watch goes on.
pub proof fn the_watch_goes_on_while_both_run()
    ensures
        supervised(Supervision::Querying(Program::Server), SupervisionReply::Running)
            == SupervisionNext::<Seq<char>>::Waiting(Supervision::Querying(Program::Ui)),
        supervised(Supervision::Querying(Program::Ui), SupervisionReply::Running)
            == SupervisionNext::<Seq<char>>::Waiting(Supervision::Sleeping),
        supervised(Supervision::Sleeping, SupervisionReply::Done)
            == SupervisionNext::<Seq<char>>::Waiting(Supervision::Querying(Program::Server)),
{
}

/// The text of the error about a program that has ended.
pub open spec fn exit_text(
    exited: Program,
    status: Seq<char>,
    cleanup_error: Option<Seq<char>>,
) -> Seq<char> {
    let exit = exited.text() + " exited unexpectedly with "@ + status;
    match cleanup_error {
        Some(error) => exit + "; failed to stop "@ + exited.other().text() + ": "@ + error,
        None => exit + "; stopped "@ + exited.other().text(),
    }
}

/// Writes the text of the error about a program that has ended.
pub fn unexpected_exit(exited: Program, status: &str, cleanup_error: Option<&str>) -> (message:
    String)
    ensures
        message@ == exit_text(
            exited,
            status@,
            match cleanup_error {
                Some(error) => Some(error@),
                None => None,
            },
        ),
{
    let mut message = exited.name().to_owned();
    message.append(" exited unexpectedly with ");
    message.append(status);
    match cleanup_error {
        Some(error) => {
            message.append("; failed to stop ");
            message.append(exited.companion().name());
            message.append(": ");
            message.append(error);
        },
        None => {
            message.append("; stopped ");
            message.append(exited.companion().name());
        },
    }
    message
}

/// The entry of the log about a program that has ended.
pub open spec fn exit_record_text(
    exited: Program,
    pid: u32,
    status: Seq<char>,
    companion_pid: u32,
    cleanup_error: Option<Seq<char>>,
) -> Seq<char> {
    "process=unexpected-exit name="@ + exited.text() + " pid="@ + decimal_notation(pid as int)
        + " status="@ + status + " companion="@ + exited.other().text() + " companion_pid="@
        + decimal_notation(companion_pid as int) + " cleanup_error="@ + match cleanup_error {
        Some(error) => error,
        None => "none"@,
    }
}

/// Writes the entry of the log about a program that has ended.
pub fn exit_record(
    exited: Program,
    pid: u32,
    status: &str,
    companion_pid: u32,
    cleanup_error: Option<&str>,
) -> (record: String)
    ensures
        record@ == exit_record_text(
            exited,
            pid,
            status@,
            companion_pid,
            match cleanup_error {
                Some(error) => Some(error@),
                None => None,
            },
        ),
{
    let mut record = "process=unexpected-exit name=".to_owned();
    record.append(exited.name());
    record.append(" pid=");
    record.append(decimal(pid as u64).as_str());
    record.append(" status=");
    record.append(status);
    record.append(" companion=");
    record.append(exited.companion().name());
    record.append(" companion_pid=");
    record.append(decimal(companion_pid as u64).as_str());
    record.append(" cleanup_error=");
    record.append(
        match cleanup_error {
            Some(error) => error,
            None => "none",
        },
    );
    record
}

/// Stopping a process and those that it has started: what is waited for.
#[derive(Clone, Copy, Debug, PartialEq, Eq, Structural)]
pub enum Termination {
    Querying,
    /// Run the system's tool for it.
    RunningTool,
    /// The tool has failed: look whether the process has ended anyway.
    QueryingAgain,
    Killing,
    Reaping,
}

/// What came of it.
#[derive(Clone, Copy, Debug, PartialEq, Eq, Structural)]
pub enum TerminationReply {
    Done,
    Running,
    Exited,
    /// The tool has run and reports failure.
    ToolFailed,
    Failed,
}

/// What stopping a process comes to.
#[derive(Clone, Copy, Debug, PartialEq, Eq, Structural)]
pub enum TerminationNext {
    Waiting(Termination),
    Stopped,
    /// Stopping has failed at this point.
    Failed(Termination),
}

impl Termination {
    /// Goes on after a reply.
    pub open spec fn resumed(self, reply: TerminationReply) -> TerminationNext {
        if reply == TerminationReply::Failed {
            TerminationNext::Failed(self)
        } else {
            match self {
                Termination::Querying => if reply == TerminationReply::Exited {
                    TerminationNext::Stopped
                } else {
                    TerminationNext::Waiting(Termination::RunningTool)
                },
                Termination::RunningTool => if reply == TerminationReply::ToolFailed {
                    TerminationNext::Waiting(Termination::QueryingAgain)
                } else {
                    TerminationNext::Waiting(Termination::Reaping)
                },
                Termination::QueryingAgain => if reply == TerminationReply::Exited {
                    TerminationNext::Waiting(Termination::Reaping)
                } else {
                    TerminationNext::Waiting(Termination::Killing)
                },
                Termination::Killing => TerminationNext::Waiting(Termination::Reaping),
                Termination::Reaping => TerminationNext::Stopped,
            }
        }
    }

    /// Goes on after a reply.
    pub fn resume(self, reply: TerminationReply) -> (next: TerminationNext)
        ensures
            next == self.resumed(reply),
    {
        if reply == TerminationReply::Failed {
            return TerminationNext::Failed(self);
        }
        match self {
            Termination::Querying => if reply == TerminationReply::Exited {
                TerminationNext::Stopped
            } else {
                TerminationNext::Waiting(Termination::RunningTool)
            },
            Termination::RunningTool => if reply == TerminationReply::ToolFailed {
                TerminationNext::Waiting(Termination::QueryingAgain)
            } else {
                TerminationNext::Waiting(Termination::Reaping)
            },
            Termination::QueryingAgain => if reply == TerminationReply::Exited {
                TerminationNext::Waiting(Termination::Reaping)
            } else {
                TerminationNext::Waiting(Termination::Killing)
            },
            Termination::Killing => TerminationNext::Waiting(Termination::Reaping),
            Termination::Reaping => TerminationNext::Stopped,
        }
    }
}

/// A process that is still running when the tool has failed is killed, and every
/// process that is stopped is waited for.
pub proof fn a_running_process_is_killed_and_reaped(reply: TerminationReply)
    requires
        reply != TerminationReply::Failed,
    ensures
        Termination::QueryingAgain.resumed(TerminationReply::Running) == TerminationNext::Waiting(
            Termination::Killing,
        ),
        Termination::Killing.resumed(reply) == TerminationNext::Waiting(Termination::Reaping),
{
}

/// The tool that stops a process and those that it has started.
pub open spec fn taskkill_path_of(windows_directory: Option<Seq<char>>) -> Seq<char> {
    joined_path(
        joined_path(
            match windows_directory {
                Some(directory) => directory,
                None => "C:\\Windows"@,
            },
            "System32"@,
        ),
        "taskkill.exe"@,
    )
}

/// Returns the path of the tool that stops a process and those that it has
/// started.
pub fn taskkill_path(windows_directory: Option<&str>) -> (path: String)
    ensures
        path@ == taskkill_path_of(
            match windows_directory {
                Some(directory) => Some(directory@),
                None => None,
            },
        ),
{
    let directory = match windows_directory {
        Some(directory) => directory,
        None => "C:\\Windows",
    };
    let system = join_path(directory, "System32");
    join_path(system.as_str(), "taskkill.exe")
}

/// The programs go by their fixed names in the directory of the launcher, and the
/// backend's directory by what was configured: the two graphics backends have one
/// each, and anything else is the one for the processor.
pub proof fn the_programs_go_by_their_names(app_dir: Seq<char>, configured: Seq<char>)
    ensures
        ({
            let paths = paths_in(app_dir, configured);
            &&& paths.app_dir == app_dir
            &&& paths.server == joined_path(app_dir, "azookey-server.exe"@)
            &&& paths.ui == joined_path(app_dir, "ui.exe"@)
            &&& configured == "cuda"@ ==> paths.backend_dir == joined_path(app_dir, "llama_cuda"@)
            &&& configured == "vulkan"@ ==> paths.backend_dir == joined_path(
                app_dir,
                "llama_vulkan"@,
            )
            &&& configured != "cuda"@ && configured != "vulkan"@ ==> paths.backend_dir
                == joined_path(app_dir, "llama_cpu"@)
        }),
{
    reveal_strlit("cuda");
    reveal_strlit("vulkan");
    assert("cuda"@.len() != "vulkan"@.len());
}

/// A start ends as its steps did. Where the server could not be started, its error
/// is reported and there is nothing to stop. Where the window could not be, its
/// error is reported with that of stopping the server, where that failed too.
pub proof fn a_start_ends_as_its_steps_did(error: String, cleanup_error: String)
    ensures
        started(Startup::Starting(Program::Server), StartupReply::Done) == StartupNext::Waiting(
            Startup::<Seq<char>>::Starting(Program::Ui),
        ),
        started(Startup::Starting(Program::Server), StartupReply::Failed(error))
            == (StartupNext::<Seq<char>>::ServerFailed { error: error@ }),
        started(Startup::StoppingServer { error: error@ }, StartupReply::Done)
            == (StartupNext::<Seq<char>>::UiFailed { error: error@, cleanup_error: None }),
        started(
            Startup::StoppingServer { error: error@ },
            StartupReply::Failed(cleanup_error),
        ) == (StartupNext::<Seq<char>>::UiFailed {
            error: error@,
            cleanup_error: Some(cleanup_error@),
        }),
{
}

/// A watch ends as it was broken off: with the program that could not be asked and
/// the error of that, or with the program that ended, its status, and the error of
/// stopping the other one where that failed.
pub proof fn a_watch_ends_as_it_was_broken_off(program: Program, status: String, error: String)
    ensures
        supervised(Supervision::Querying(program), SupervisionReply::Failed(error))
            == (SupervisionNext::<Seq<char>>::QueryFailed { program, error: error@ }),
        supervised(
            Supervision::Stopping { exited: program, status: status@ },
            SupervisionReply::Done,
        ) == (SupervisionNext::<Seq<char>>::Exited {
            exited: program,
            status: status@,
            cleanup_error: None,
        }),
        supervised(
            Supervision::Stopping { exited: program, status: status@ },
            SupervisionReply::Failed(error),
        ) == (SupervisionNext::<Seq<char>>::Exited {
            exited: program,
            status: status@,
            cleanup_error: Some(error@),
        }),
{
}

/// A process is stopped with the least force: one that has ended is left alone, the
/// tool is tried before the kill, and after either the process is waited for. One
/// that has ended although the tool failed is waited for without a kill.
pub proof fn a_process_is_stopped_with_the_least_force()
    ensures
        Termination::Querying.resumed(TerminationReply::Exited) == TerminationNext::Stopped,
        Termination::Querying.resumed(TerminationReply::Running) == TerminationNext::Waiting(
            Termination::RunningTool,
        ),
        Termination::RunningTool.resumed(TerminationReply::Done) == TerminationNext::Waiting(
            Termination::Reaping,
        ),
        Termination::RunningTool.resumed(TerminationReply::ToolFailed) == TerminationNext::Waiting(
            Termination::QueryingAgain,
        ),
        Termination::QueryingAgain.resumed(TerminationReply::Exited) == TerminationNext::Waiting(
            Termination::Reaping,
        ),
        Termination::Reaping.resumed(TerminationReply::Done) == TerminationNext::Stopped,
{
}

/// Stopping a process fails exactly where one of its steps does, and tells which.
pub proof fn stopping_fails_where_a_step_does(step: Termination, reply: TerminationReply)
    ensures
        step.resumed(reply) is Failed <==> reply is Failed,
        step.resumed(reply) matches TerminationNext::Failed(at) ==> at == step,
{
}

/// The error about a program that has ended names that program first and then its
/// companion, which was stopped, or could not be for the reason that is given.
pub proof fn an_unexpected_exit_names_both_programs(status: Seq<char>, error: Seq<char>)
    ensures
        exit_text(Program::Server, status, None) == "azookey-server.exe"@
            + " exited unexpectedly with "@ + status + "; stopped "@ + "ui.exe"@,
        exit_text(Program::Ui, status, None) == "ui.exe"@ + " exited unexpectedly with "@ + status
            + "; stopped "@ + "azookey-server.exe"@,
        exit_text(Program::Server, status, Some(error)) == "azookey-server.exe"@
            + " exited unexpectedly with "@ + status + "; failed to stop "@ + "ui.exe"@ + ": "@
            + error,
        exit_text(Program::Ui, status, Some(error)) == "ui.exe"@ + " exited unexpectedly with "@
            + status + "; failed to stop "@ + "azookey-server.exe"@ + ": "@ + error,
{
}

/// The log names both programs with their process numbers, in the same order, and
/// says `none` where the other one could be stopped.
pub proof fn an_unexpected_exit_is_logged_with_both_numbers(
    pid: u32,
    status: Seq<char>,
    companion_pid: u32,
    error: Seq<char>,
)
    ensures
        exit_record_text(Program::Server, pid, status, companion_pid, None)
            == "process=unexpected-exit name="@ + "azookey-server.exe"@ + " pid="@
            + decimal_notation(pid as int) + " status="@ + status + " companion="@ + "ui.exe"@
            + " companion_pid="@ + decimal_notation(companion_pid as int) + " cleanup_error="@
            + "none"@,
        exit_record_text(Program::Ui, pid, status, companion_pid, Some(error))
            == "process=unexpected-exit name="@ + "ui.exe"@ + " pid="@ + decimal_notation(
            pid as int,
        ) + " status="@ + status + " companion="@ + "azookey-server.exe"@ + " companion_pid="@
            + decimal_notation(companion_pid as int) + " cleanup_error="@ + error,
{
}

/// The log of a server that was stopped again tells its process number, and the
/// error where it could not be stopped.
pub proof fn a_stopped_server_is_logged_with_its_number(pid: u32, error: Seq<char>)
    ensures
        stop_record_text(pid, None) == "process=stop name="@ + "azookey-server.exe"@ + " pid="@
            + decimal_notation(pid as int) + " reason=ui-start-failed"@,
        stop_record_text(pid, Some(error)) == "process=stop-failed name="@ + "azookey-server.exe"@
            + " pid="@ + decimal_notation(pid as int) + " reason=ui-start-failed error="@ + error,
{
}

/// The tool that stops processes is the system's own: it lies in the system's
/// directory, which is the usual one where the system does not tell it.
pub proof fn the_tool_is_the_systems_own(directory: Seq<char>)
    ensures
        taskkill_path_of(Some(directory)) == joined_path(
            joined_path(directory, "System32"@),
            "taskkill.exe"@,
        ),
        taskkill_path_of(None) == taskkill_path_of(Some("C:\\Windows"@)),
{
}

} // verus!
