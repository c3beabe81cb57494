//! Writing to the launcher's log, and replacing it before it grows too large.

use vstd::prelude::*;

use crate::diagnostics::grown;
use crate::paths::{join_path, joined_path, with_extension, with_extension_of};
use crate::runtime_log::{
    clean_text_is_kept, is_clean, sanitize_and_truncate, sanitized,
    sanitized_text_is_clean_and_short, LOG_ENTRY_MAX_BYTES,
};
use crate::text::{byte_len, decimal, decimal_notation, utf8_len, utf8_len_of_concat};

verus! {

broadcast use vstd::string::group_string_axioms;

/// The path of the log.
pub open spec fn log_path_of(local_app_data: Seq<char>) -> Seq<char> {
    joined_path(joined_path(joined_path(local_app_data, "Azookey"@), "logs"@), "runtime.log"@)
}

/// Returns the path of the log.
pub fn runtime_log_path_under(local_app_data: &str) -> (path: String)
    ensures
        path@ == log_path_of(local_app_data@),
{
    let app = join_path(local_app_data, "Azookey");
    let logs = join_path(app.as_str(), "logs");
    join_path(logs.as_str(), "runtime.log")
}

/// Returns the path that the log is moved to when it is replaced.
pub fn rotated_log_path(path: &str) -> (rotated: String)
    ensures
        rotated@ == with_extension_of(path@, "log.1"@),
{
    with_extension(path, "log.1")
}

/// What stands in front of the message of an entry.
pub open spec fn entry_prefix(timestamp_millis: u64, pid: u32) -> Seq<char> {
    "["@ + decimal_notation(timestamp_millis as int) + "] pid="@ + decimal_notation(pid as int)
        + " "@
}

/// How many bytes the message of an entry may take.
pub open spec fn payload_budget(max_bytes: u64, prefix_len: nat) -> usize {
    if max_bytes <= prefix_len + 2 {
        0
    } else if max_bytes - (prefix_len + 2) < LOG_ENTRY_MAX_BYTES {
        (max_bytes - (prefix_len + 2)) as usize
    } else {
        LOG_ENTRY_MAX_BYTES
    }
}

/// An entry of the log.
pub open spec fn entry_text(
    timestamp_millis: u64,
    pid: u32,
    message: Seq<char>,
    max_bytes: u64,
) -> Seq<char> {
    let prefix = entry_prefix(timestamp_millis, pid);
    prefix + sanitized(message, payload_budget(max_bytes, utf8_len(prefix))) + "\r\n"@
}

/// Writes an entry of the log.
pub fn log_entry(timestamp_millis: u64, pid: u32, message: &str, max_bytes: u64) -> (entry: String)
    ensures
        entry@ == entry_text(timestamp_millis, pid, message@, max_bytes),
{
    let mut entry = "[".to_owned();
    entry.append(decimal(timestamp_millis).as_str());
    entry.append("] pid=");
    entry.append(decimal(pid as u64).as_str());
    entry.append(" ");
    let prefix_len: u64 = byte_len(entry.as_str()) as u64;
    let budget: usize = if max_bytes <= 2 || max_bytes - 2 <= prefix_len {
        0
    } else if max_bytes - 2 - prefix_len < LOG_ENTRY_MAX_BYTES as u64 {
        (max_bytes - 2 - prefix_len) as usize
    } else {
        LOG_ENTRY_MAX_BYTES
    };
    let payload = sanitize_and_truncate(message, budget);
    entry.append(payload.as_str());
    entry.append("\r\n");
    entry
}

/// An entry fits into the file, wherever there is room for what stands around
/// its message.
pub proof fn an_entry_fits(timestamp_millis: u64, pid: u32, message: Seq<char>, max_bytes: u64)
    requires
        utf8_len(entry_prefix(timestamp_millis, pid)) + 2 <= max_bytes,
    ensures
        utf8_len(entry_text(timestamp_millis, pid, message, max_bytes)) <= max_bytes,
{
    reveal_strlit("\r\n");
    let prefix = entry_prefix(timestamp_millis, pid);
    let budget = payload_budget(max_bytes, utf8_len(prefix));
    let payload = sanitized(message, budget);
    sanitized_text_is_clean_and_short(message, budget);
    utf8_len_of_concat(prefix, payload);
    utf8_len_of_concat(prefix + payload, "\r\n"@);
    assert(vstd::utf8::is_ascii_chars("\r\n"@));
    vstd::utf8::is_ascii_chars_encode_utf8("\r\n"@);
}

/// The log file: whether it is open, how long it was when it was last looked at,
/// and how long it may be.
#[derive(Clone, Copy, Debug, PartialEq, Eq, Structural)]
pub struct RuntimeLogWriter {
    pub open: bool,
    pub length: u64,
    pub max_bytes: u64,
}

/// Outside work on the log file.
#[derive(Debug)]
pub enum FileEffect {
    /// Open the file, in a directory that is made where it is missing.
    Open,
    /// Find out how long the file is.
    Measure,
    /// Remove the file that was replaced before.
    RemoveRotated,
    /// Move the file aside.
    Rename,
    /// Empty the file.
    Truncate,
    /// Open the file again.
    Reopen,
    /// Write an entry at the end of the file.
    Append(String),
}

/// The contents of a `FileEffect`.
pub enum FileEffectView {
    Open,
    Measure,
    RemoveRotated,
    Rename,
    Truncate,
    Reopen,
    Append(Seq<char>),
}

impl View for FileEffect {
    type V = FileEffectView;

    open spec fn view(&self) -> FileEffectView {
        match self {
            FileEffect::Open => FileEffectView::Open,
            FileEffect::Measure => FileEffectView::Measure,
            FileEffect::RemoveRotated => FileEffectView::RemoveRotated,
            FileEffect::Rename => FileEffectView::Rename,
            FileEffect::Truncate => FileEffectView::Truncate,
            FileEffect::Reopen => FileEffectView::Reopen,
            FileEffect::Append(entry) => FileEffectView::Append(entry@),
        }
    }
}

/// What came of it.
#[derive(Clone, Copy, Debug, PartialEq, Eq, Structural)]
pub enum FileReply {
    Done,
    /// There is no such file.
    NotFound,
    Failed,
    Length(u64),
}

/// Replacing the log file: what is waited for. Where the old file cannot be moved
/// aside it is emptied, so that it cannot grow without bound.
#[derive(Clone, Copy, Debug, PartialEq, Eq, Structural)]
pub enum Rotation {
    Removing,
    Renaming,
    Truncating,
    Reopening,
}

/// What replacing the log file comes to.
#[derive(Clone, Copy, Debug, PartialEq, Eq, Structural)]
pub enum RotationNext {
    Waiting(Rotation),
    Rotated,
    Failed,
}

impl Rotation {
    /// Goes on after a reply.
    pub open spec fn resumed(self, reply: FileReply) -> RotationNext {
        let gone = reply == FileReply::Done || reply == FileReply::NotFound;
        match self {
            Rotation::Removing => if gone {
                RotationNext::Waiting(Rotation::Renaming)
            } else {
                RotationNext::Waiting(Rotation::Truncating)
            },
            Rotation::Renaming => if gone {
                RotationNext::Waiting(Rotation::Reopening)
            } else {
                RotationNext::Waiting(Rotation::Truncating)
            },
            Rotation::Truncating => if reply == FileReply::Done {
                RotationNext::Waiting(Rotation::Reopening)
            } else {
                RotationNext::Failed
            },
            Rotation::Reopening => if reply == FileReply::Done {
                RotationNext::Rotated
            } else {
                RotationNext::Failed
            },
        }
    }

    /// The outside work that is waited for.
    pub open spec fn awaited(self) -> FileEffectView {
        match self {
            Rotation::Removing => FileEffectView::RemoveRotated,
            Rotation::Renaming => FileEffectView::Rename,
            Rotation::Truncating => FileEffectView::Truncate,
            Rotation::Reopening => FileEffectView::Reopen,
        }
    }

    fn effect(&self) -> (effect: FileEffect)
        ensures
            effect@ == self.awaited(),
    {
        match self {
            Rotation::Removing => FileEffect::RemoveRotated,
            Rotation::Renaming => FileEffect::Rename,
            Rotation::Truncating => FileEffect::Truncate,
            Rotation::Reopening => FileEffect::Reopen,
        }
    }

    fn resume(self, reply: FileReply) -> (next: RotationNext)
        ensures
            next == self.resumed(reply),
    {
        let done = reply == FileReply::Done;
        let gone = done || reply == FileReply::NotFound;
        match self {
            Rotation::Removing => if gone {
                RotationNext::Waiting(Rotation::Renaming)
            } else {
                RotationNext::Waiting(Rotation::Truncating)
            },
            Rotation::Renaming => if gone {
                RotationNext::Waiting(Rotation::Reopening)
            } else {
                RotationNext::Waiting(Rotation::Truncating)
            },
            Rotation::Truncating => if done {
                RotationNext::Waiting(Rotation::Reopening)
            } else {
                RotationNext::Failed
            },
            Rotation::Reopening => if done {
                RotationNext::Rotated
            } else {
                RotationNext::Failed
            },
        }
    }
}

/// Work on the log: opening it, or recording an entry.
#[allow(inconsistent_fields)]
#[derive(Debug)]
pub enum LogWork<T = String> {
    Opening,
    Measuring { entry: T },
    /// Replacing the file, to write `entry` to the new one, or nothing.
    Rotating { rotation: Rotation, entry: Option<T> },
    Appending { entry: T },
}

impl View for LogWork<String> {
    type V = LogWork<Seq<char>>;

    open spec fn view(&self) -> LogWork<Seq<char>> {
        match self {
            LogWork::Opening => LogWork::Opening,
            LogWork::Measuring { entry } => LogWork::Measuring { entry: entry@ },
            LogWork::Rotating { rotation, entry } => LogWork::Rotating {
                rotation: *rotation,
                entry: match entry {
                    Some(entry) => Some(entry@),
                    None => None,
                },
            },
            LogWork::Appending { entry } => LogWork::Appending { entry: entry@ },
        }
    }
}

/// What work on the log comes to.
#[derive(Debug)]
pub enum LogWorkNext<T = String> {
    Waiting(LogWork<T>),
    Finished,
}

impl View for LogWorkNext<String> {
    type V = LogWorkNext<Seq<char>>;

    open spec fn view(&self) -> LogWorkNext<Seq<char>> {
        match self {
            LogWorkNext::Waiting(work) => LogWorkNext::Waiting(work@),
            LogWorkNext::Finished => LogWorkNext::Finished,
        }
    }
}

impl LogWork<Seq<char>> {
    /// The outside work that is waited for.
    pub open spec fn awaited(self) -> FileEffectView {
        match self {
            LogWork::Opening => FileEffectView::Open,
            LogWork::Measuring { .. } => FileEffectView::Measure,
            LogWork::Rotating { rotation, .. } => rotation.awaited(),
            LogWork::Appending { entry } => FileEffectView::Append(entry),
        }
    }
}

impl LogWork<String> {
    /// Returns the outside work that is waited for.
    pub fn effect(&self) -> (effect: FileEffect)
        ensures
            effect@ == self@.awaited(),
    {
        match self {
            LogWork::Opening => FileEffect::Open,
            LogWork::Measuring { .. } => FileEffect::Measure,
            LogWork::Rotating { rotation, .. } => rotation.effect(),
            LogWork::Appending { entry } => FileEffect::Append(entry.clone()),
        }
    }
}

/// The launcher's log. After the first failure it is given up, so that a broken
/// path does not slow the launcher down. There is one value for each log, which all
/// who write to the log share: it cannot be copied.
#[derive(Debug)]
pub struct RuntimeLog {
    pub writer: Option<RuntimeLogWriter>,
}

impl RuntimeLog {
    /// The log after it was given up.
    pub open spec fn disabled_state() -> RuntimeLog {
        RuntimeLog { writer: None }
    }

    /// Goes on to write an entry to a file, which is replaced first where it
    /// would grow too large.
    pub open spec fn entry_next(writer: RuntimeLogWriter, entry: Seq<char>) -> (
        RuntimeLog,
        LogWorkNext<Seq<char>>,
    ) {
        if grown(writer.length, utf8_len(entry)) > writer.max_bytes {
            (
                RuntimeLog { writer: Some(RuntimeLogWriter { open: false, ..writer }) },
                LogWorkNext::Waiting(
                    LogWork::Rotating { rotation: Rotation::Removing, entry: Some(entry) },
                ),
            )
        } else if writer.open {
            (
                RuntimeLog { writer: Some(writer) },
                LogWorkNext::Waiting(LogWork::Appending { entry }),
            )
        } else {
            (RuntimeLog::disabled_state(), LogWorkNext::Finished)
        }
    }

    /// Begins to record a message.
    pub open spec fn record_begun(
        self,
        timestamp_millis: u64,
        pid: u32,
        message: Seq<char>,
    ) -> (RuntimeLog, LogWorkNext<Seq<char>>) {
        match self.writer {
            None => (self, LogWorkNext::Finished),
            Some(writer) => {
                let entry = entry_text(timestamp_millis, pid, message, writer.max_bytes);
                if writer.open {
                    (self, LogWorkNext::Waiting(LogWork::Measuring { entry }))
                } else {
                    RuntimeLog::entry_next(writer, entry)
                }
            },
        }
    }

    /// Goes on after a reply.
    pub open spec fn resumed(self, work: LogWork<Seq<char>>, reply: FileReply) -> (
        RuntimeLog,
        LogWorkNext<Seq<char>>,
    ) {
        let given_up = (RuntimeLog::disabled_state(), LogWorkNext::Finished);
        match self.writer {
            None => (self, LogWorkNext::Finished),
            Some(writer) => match work {
                LogWork::Opening => match reply {
                    FileReply::Length(length) => {
                        let opened = RuntimeLogWriter { open: true, length, ..writer };
                        if length >= writer.max_bytes {
                            (
                                RuntimeLog {
                                    writer: Some(RuntimeLogWriter { open: false, ..opened }),
                                },
                                LogWorkNext::Waiting(
                                    LogWork::Rotating { rotation: Rotation::Removing, entry: None },
                                ),
                            )
                        } else {
                            (RuntimeLog { writer: Some(opened) }, LogWorkNext::Finished)
                        }
                    },
                    _ => given_up,
                },
                LogWork::Measuring { entry } => match reply {
                    FileReply::Length(length) => RuntimeLog::entry_next(
                        RuntimeLogWriter { length, ..writer },
                        entry,
                    ),
                    _ => given_up,
                },
                LogWork::Rotating { rotation, entry } => match rotation.resumed(reply) {
                    RotationNext::Waiting(rotation) => (
                        self,
                        LogWorkNext::Waiting(LogWork::Rotating { rotation, entry }),
                    ),
                    RotationNext::Rotated => (
                        RuntimeLog {
                            writer: Some(RuntimeLogWriter { open: true, length: 0, ..writer }),
                        },
                        match entry {
                            Some(entry) => LogWorkNext::Waiting(LogWork::Appending { entry }),
                            None => LogWorkNext::Finished,
                        },
                    ),
                    RotationNext::Failed => given_up,
                },
                LogWork::Appending { entry } => if reply == FileReply::Done {
                    (
                        RuntimeLog {
                            writer: Some(
                                RuntimeLogWriter {
                                    length: grown(writer.length, utf8_len(entry)),
                                    ..writer
                                },
                            ),
                        },
                        LogWorkNext::Finished,
                    )
                } else {
                    given_up
                },
            },
        }
    }

    /// A log that nothing is written to.
    pub fn disabled() -> (log: RuntimeLog)
        ensures
            log == RuntimeLog::disabled_state(),
    {
        RuntimeLog { writer: None }
    }

    /// Begins to open the log. A log of no size cannot be opened.
    pub fn open(max_bytes: u64) -> (opening: (RuntimeLog, LogWorkNext))
        ensures
            max_bytes == 0 ==> opening.0 == RuntimeLog::disabled_state() && opening.1@
                == LogWorkNext::<Seq<char>>::Finished,
            max_bytes > 0 ==> opening.0.writer == Some(
                RuntimeLogWriter { open: false, length: 0, max_bytes },
            ) && opening.1@ == LogWorkNext::Waiting(LogWork::<Seq<char>>::Opening),
    {
        if max_bytes == 0 {
            return (RuntimeLog::disabled(), LogWorkNext::Finished);
        }
        (
            RuntimeLog { writer: Some(RuntimeLogWriter { open: false, length: 0, max_bytes }) },
            LogWorkNext::Waiting(LogWork::Opening),
        )
    }

    fn give_up(&mut self) -> (next: LogWorkNext)
        ensures
            *final(self) == RuntimeLog::disabled_state(),
            next@ == LogWorkNext::<Seq<char>>::Finished,
    {
        self.writer = None;
        LogWorkNext::Finished
    }

    fn write_entry(&mut self, writer: RuntimeLogWriter, entry: String) -> (next: LogWorkNext)
        ensures
            (*final(self), next@) == RuntimeLog::entry_next(writer, entry@),
    {
        let entry_len: u64 = byte_len(entry.as_str()) as u64;
        if writer.length.saturating_add(entry_len) > writer.max_bytes {
            self.writer = Some(RuntimeLogWriter { open: false, ..writer });
            LogWorkNext::Waiting(
                LogWork::Rotating { rotation: Rotation::Removing, entry: Some(entry) },
            )
        } else if writer.open {
            self.writer = Some(writer);
            LogWorkNext::Waiting(LogWork::Appending { entry })
        } else {
            self.give_up()
        }
    }

    /// Begins to record a message. Nothing happens once the log was given up.
    pub fn record(&mut self, timestamp_millis: u64, pid: u32, message: &str) -> (next: LogWorkNext)
        ensures
            (*final(self), next@) == old(self).record_begun(timestamp_millis, pid, message@),
    {
        match self.writer {
            None => LogWorkNext::Finished,
            Some(writer) => {
                let entry = log_entry(timestamp_millis, pid, message, writer.max_bytes);
                if writer.open {
                    LogWorkNext::Waiting(LogWork::Measuring { entry })
                } else {
                    self.write_entry(writer, entry)
                }
            },
        }
    }

    /// Goes on after a reply.
    pub fn resume(&mut self, work: LogWork, reply: FileReply) -> (next: LogWorkNext)
        ensures
            (*final(self), next@) == old(self).resumed(work@, reply),
    {
        let writer = match self.writer {
            None => return LogWorkNext::Finished,
            Some(writer) => writer,
        };
        match work {
            LogWork::Opening => match reply {
                FileReply::Length(length) => {
                    if length >= writer.max_bytes {
                        self.writer = Some(RuntimeLogWriter { open: false, length, ..writer });
                        LogWorkNext::Waiting(
                            LogWork::Rotating { rotation: Rotation::Removing, entry: None },
                        )
                    } else {
                        self.writer = Some(RuntimeLogWriter { open: true, length, ..writer });
                        LogWorkNext::Finished
                    }
                },
                _ => self.give_up(),
            },
            LogWork::Measuring { entry } => match reply {
                FileReply::Length(length) => self.write_entry(
                    RuntimeLogWriter { length, ..writer },
                    entry,
                ),
                _ => self.give_up(),
            },
            LogWork::Rotating { rotation, entry } => match rotation.resume(reply) {
                RotationNext::Waiting(rotation) => LogWorkNext::Waiting(
                    LogWork::Rotating { rotation, entry },
                ),
                RotationNext::Rotated => {
                    self.writer = Some(RuntimeLogWriter { open: true, length: 0, ..writer });
                    match entry {
                        Some(entry) => LogWorkNext::Waiting(LogWork::Appending { entry }),
                        None => LogWorkNext::Finished,
                    }
                },
                RotationNext::Failed => self.give_up(),
            },
            LogWork::Appending { entry } => {
                if reply == FileReply::Done {
                    let entry_len: u64 = byte_len(entry.as_str()) as u64;
                    self.writer = Some(
                        RuntimeLogWriter {
                            length: writer.length.saturating_add(entry_len),
                            ..writer
                        },
                    );
                    LogWorkNext::Finished
                } else {
                    self.give_up()
                }
            },
        }
    }
}

/// An entry that is about to be appended fits behind what the file holds.
pub open spec fn fits(log: RuntimeLog, next: LogWorkNext<Seq<char>>) -> bool {
    match (log.writer, next) {
        (Some(writer), LogWorkNext::Waiting(LogWork::Appending { entry })) => writer.length
            + utf8_len(entry) <= writer.max_bytes,
        _ => true,
    }
}

/// The entry that work on a log is about.
pub open spec fn entry_of(work: LogWork<Seq<char>>) -> Option<Seq<char>> {
    match work {
        LogWork::Opening => None,
        LogWork::Measuring { entry } => Some(entry),
        LogWork::Rotating { entry, .. } => entry,
        LogWork::Appending { entry } => Some(entry),
    }
}

/// The file is replaced before it would grow beyond its limit: an entry that is
/// no longer than the limit is only appended where it fits.
pub proof fn the_file_is_replaced_in_time(
    log: RuntimeLog,
    work: LogWork<Seq<char>>,
    reply: FileReply,
)
    requires
        log.writer is Some,
        log.writer->0.max_bytes < u64::MAX,
        entry_of(work) matches Some(entry) ==> utf8_len(entry) <= log.writer->0.max_bytes,
        fits(log, LogWorkNext::Waiting(work)),
    ensures
        ({
            let (after, next) = log.resumed(work, reply);
            &&& fits(after, next)
            &&& after.writer matches Some(writer) ==> writer.max_bytes == log.writer->0.max_bytes
            &&& work is Appending ==> (after.writer matches Some(writer) ==> writer.length
                <= writer.max_bytes)
            &&& next matches LogWorkNext::Waiting(next) ==> entry_of(next) == entry_of(work)
        }),
{
}

/// Whether a reply is a failure that the log does not recover from.
pub open spec fn is_fatal(work: LogWork<Seq<char>>, reply: FileReply) -> bool {
    match work {
        LogWork::Opening | LogWork::Measuring { .. } => !(reply is Length),
        LogWork::Rotating { rotation, .. } => rotation.resumed(reply) is Failed,
        LogWork::Appending { .. } => reply != FileReply::Done,
    }
}

/// The first failure gives the log up, and a log that was given up stays so: no
/// later message, from whoever shares the log, asks for anything any more.
pub proof fn the_first_failure_ends_the_log(
    log: RuntimeLog,
    work: LogWork<Seq<char>>,
    reply: FileReply,
    timestamp_millis: u64,
    pid: u32,
    message: Seq<char>,
    later_work: LogWork<Seq<char>>,
    later_reply: FileReply,
)
    requires
        log.writer is None || is_fatal(work, reply),
    ensures
        ({
            let (after, next) = log.resumed(work, reply);
            let nothing = (after, LogWorkNext::<Seq<char>>::Finished);
            &&& after == RuntimeLog::disabled_state()
            &&& next is Finished
            &&& after.record_begun(timestamp_millis, pid, message) == nothing
            &&& after.resumed(later_work, later_reply) == nothing
        }),
{
}

/// An entry is one line: the time in brackets, the process, the message, and a line
/// break, which is the only one. A message that is clean and has room stands in it as
/// it is.
pub proof fn an_entry_is_one_line(
    timestamp_millis: u64,
    pid: u32,
    message: Seq<char>,
    max_bytes: u64,
)
    requires
        is_clean(message),
        utf8_len(message) <= 0x4000,
        utf8_len(entry_prefix(timestamp_millis, pid)) + utf8_len(message) + 2 <= max_bytes,
    ensures
        entry_text(timestamp_millis, pid, message, max_bytes) == "["@ + decimal_notation(
            timestamp_millis as int,
        ) + "] pid="@ + decimal_notation(pid as int) + " "@ + message + "\r\n"@,
{
    let budget = payload_budget(max_bytes, utf8_len(entry_prefix(timestamp_millis, pid)));
    clean_text_is_kept(message, budget);
}

/// What stands around the message of an entry is kept whole, however little room
/// there is: only the message is cleaned and cut. It takes no more than sixteen
/// kibibytes, and no more than is left in the file.
pub proof fn only_the_message_is_cut(
    timestamp_millis: u64,
    pid: u32,
    message: Seq<char>,
    max_bytes: u64,
) -> (payload: Seq<char>)
    ensures
        entry_text(timestamp_millis, pid, message, max_bytes) == "["@ + decimal_notation(
            timestamp_millis as int,
        ) + "] pid="@ + decimal_notation(pid as int) + " "@ + payload + "\r\n"@,
        is_clean(payload),
        utf8_len(payload) <= 0x4000,
        utf8_len(payload) == 0 || utf8_len(
            "["@ + decimal_notation(timestamp_millis as int) + "] pid="@ + decimal_notation(
                pid as int,
            ) + " "@,
        ) + utf8_len(payload) + 2 <= max_bytes,
{
    let budget = payload_budget(max_bytes, utf8_len(entry_prefix(timestamp_millis, pid)));
    sanitized_text_is_clean_and_short(message, budget);
    sanitized(message, budget)
}

/// A file that has room is opened as it is; one that has none is replaced, and
/// nothing is written to it.
pub proof fn a_full_file_is_replaced_when_it_is_opened(log: RuntimeLog, length: u64)
    requires
        log.writer is Some,
    ensures
        ({
            let (after, next) = log.resumed(LogWork::Opening, FileReply::Length(length));
            let limit = log.writer->0.max_bytes;
            &&& length < limit ==> next is Finished && after.writer == Some(
                RuntimeLogWriter { open: true, length, max_bytes: limit },
            )
            &&& length >= limit ==> {
                &&& next is Waiting
                &&& next->Waiting_0.awaited() is RemoveRotated
                &&& next->Waiting_0 is Rotating
                &&& next->Waiting_0->Rotating_entry is None
                &&& after.writer == Some(
                    RuntimeLogWriter { open: false, length, max_bytes: limit },
                )
            }
        }),
{
}

/// A message is recorded by measuring the file first and then, where it has room,
/// by writing the entry at its end. The length that was measured then grows by that
/// of the entry, and not before it was written.
pub proof fn a_message_is_written_where_there_is_room(
    log: RuntimeLog,
    timestamp_millis: u64,
    pid: u32,
    message: Seq<char>,
    length: u64,
)
    requires
        log.writer is Some,
        log.writer->0.open,
        length + utf8_len(entry_text(timestamp_millis, pid, message, log.writer->0.max_bytes))
            <= log.writer->0.max_bytes,
    ensures
        ({
            let limit = log.writer->0.max_bytes;
            let entry = entry_text(timestamp_millis, pid, message, limit);
            let (begun, measuring) = log.record_begun(timestamp_millis, pid, message);
            let (measured, appending) = begun.resumed(
                measuring->Waiting_0,
                FileReply::Length(length),
            );
            let (written, ended) = measured.resumed(appending->Waiting_0, FileReply::Done);
            &&& begun == log
            &&& measuring is Waiting && measuring->Waiting_0.awaited() is Measure
            &&& appending is Waiting
            &&& appending->Waiting_0.awaited() == FileEffectView::Append(entry)
            &&& ended is Finished
            &&& written.writer == Some(
                RuntimeLogWriter {
                    open: true,
                    length: (length + utf8_len(entry)) as u64,
                    max_bytes: limit,
                },
            )
        }),
{
}

/// A message that has no room is recorded in a new file: the one that was moved
/// aside before is removed, the full one takes its place, another is opened, and the
/// same entry is written to that one, whose length is then the entry's.
pub proof fn a_message_without_room_goes_to_a_new_file(
    log: RuntimeLog,
    entry: Seq<char>,
    length: u64,
    removed: FileReply,
)
    requires
        log.writer is Some,
        log.writer->0.open,
        log.writer->0.max_bytes < u64::MAX,
        length + utf8_len(entry) > log.writer->0.max_bytes,
        utf8_len(entry) <= u64::MAX,
        removed is Done || removed is NotFound,
    ensures
        ({
            let limit = log.writer->0.max_bytes;
            let (closed, removing) = log.resumed(
                LogWork::Measuring { entry },
                FileReply::Length(length),
            );
            let (_, renaming) = closed.resumed(removing->Waiting_0, removed);
            let (_, reopening) = closed.resumed(renaming->Waiting_0, FileReply::Done);
            let (opened, appending) = closed.resumed(reopening->Waiting_0, FileReply::Done);
            let (written, ended) = opened.resumed(appending->Waiting_0, FileReply::Done);
            &&& closed.writer == Some(
                RuntimeLogWriter { open: false, length, max_bytes: limit },
            )
            &&& removing is Waiting && removing->Waiting_0.awaited() is RemoveRotated
            &&& renaming is Waiting && renaming->Waiting_0.awaited() is Rename
            &&& reopening is Waiting && reopening->Waiting_0.awaited() is Reopen
            &&& opened.writer == Some(
                RuntimeLogWriter { open: true, length: 0, max_bytes: limit },
            )
            &&& appending is Waiting
            &&& appending->Waiting_0.awaited() == FileEffectView::Append(entry)
            &&& ended is Finished
            &&& written.writer == Some(
                RuntimeLogWriter {
                    open: true,
                    length: utf8_len(entry) as u64,
                    max_bytes: limit,
                },
            )
        }),
{
}

/// A file that cannot be moved aside is emptied in its place, and then opened again.
/// That it was gone already is as good as having moved it.
pub proof fn a_file_that_cannot_be_moved_is_emptied(log: RuntimeLog, entry: Option<Seq<char>>)
    requires
        log.writer is Some,
    ensures
        ({
            let at = |rotation: Rotation| LogWork::Rotating { rotation, entry };
            let after = |rotation: Rotation, reply: FileReply|
                log.resumed(at(rotation), reply).1;
            &&& after(Rotation::Removing, FileReply::Failed) is Waiting
            &&& after(Rotation::Removing, FileReply::Failed)->Waiting_0.awaited() is Truncate
            &&& after(Rotation::Renaming, FileReply::Failed) is Waiting
            &&& after(Rotation::Renaming, FileReply::Failed)->Waiting_0.awaited() is Truncate
            &&& after(Rotation::Renaming, FileReply::NotFound) is Waiting
            &&& after(Rotation::Renaming, FileReply::NotFound)->Waiting_0.awaited() is Reopen
            &&& after(Rotation::Truncating, FileReply::Done) is Waiting
            &&& after(Rotation::Truncating, FileReply::Done)->Waiting_0.awaited() is Reopen
            &&& after(Rotation::Truncating, FileReply::Failed) is Finished
            &&& after(Rotation::Reopening, FileReply::Failed) is Finished
        }),
{
}

/// A failure that leaves no file to write to gives the log up: one while it is
/// opened, measured or written, and one while it is emptied or opened again.
pub proof fn a_lost_file_gives_the_log_up(log: RuntimeLog, entry: Seq<char>)
    ensures
        log.resumed(LogWork::Opening, FileReply::Failed).0.writer is None,
        log.resumed(LogWork::Measuring { entry }, FileReply::Failed).0.writer is None,
        log.resumed(LogWork::Appending { entry }, FileReply::Failed).0.writer is None,
        log.resumed(
            LogWork::Rotating { rotation: Rotation::Truncating, entry: Some(entry) },
            FileReply::Failed,
        ).0.writer is None,
        log.resumed(
            LogWork::Rotating { rotation: Rotation::Reopening, entry: Some(entry) },
            FileReply::Failed,
        ).0.writer is None,
{
}

/// The log has its fixed place below the directory of the user's own data.
pub proof fn the_log_has_a_fixed_place(local_app_data: Seq<char>)
    ensures
        log_path_of(local_app_data) == joined_path(
            joined_path(joined_path(local_app_data, "Azookey"@), "logs"@),
            "runtime.log"@,
        ),
{
}

} // verus!
