//! The diagnostic log of a client.
//!
//! Only named events with details that the program composes are written, never
//! what the user types. Times are nanoseconds of a monotonic clock.

use vstd::prelude::*;

use crate::paths::{
    component_start, extension_of, file_name, file_name_span, is_same_path, is_separator,
    join_path, joined_path, last_dot, same_path, stem_of,
};
use crate::text::{
    byte_len, characters, decimal, decimal_digits, decimal_notation, digit_char, same_text,
    utf8_len,
};

verus! {

broadcast use vstd::string::group_string_axioms;

/// The largest size of a log file, in bytes.
pub const MAX_LOG_BYTES: u64 = 0x10_0000;

/// How many log files are kept besides those in use.
pub const MAX_LOG_FILES: usize = 64;

/// How long the log is left alone after a failure.
pub const RETRY_INTERVAL: u64 = 30_000_000_000;

/// The code of an attempt to open a process that does not exist.
pub const INVALID_PROCESS_ID: i32 = -0x7ff8_ffa9;

/// How the time of a line is written: the local date and time with milliseconds,
/// and the offset from UTC.
pub open spec fn timestamp_format() -> Seq<char> {
    "%Y-%m-%dT%H:%M:%S%.3f%:z"@
}

/// Whether a character may stand at a place of a time, which is counted from the
/// end of the year.
pub open spec fn fits_timestamp(c: char, place: int) -> bool {
    if place == 0 || place == 3 {
        c == '-'
    } else if place == 6 {
        c == 'T'
    } else if place == 9 || place == 12 || place == 22 {
        c == ':'
    } else if place == 15 {
        c == '.'
    } else if place == 19 {
        c == '+' || c == '-'
    } else {
        is_digit(c)
    }
}

/// Whether a text is a time as it is written in a line. A year has four digits, or
/// more of them behind a plus sign; what follows it has a fixed length.
pub open spec fn is_timestamp(text: Seq<char>) -> bool {
    &&& text.len() >= 29
    &&& forall|i: int|
        0 <= i < text.len() ==> fits_timestamp(#[trigger] text[i], i - (text.len() - 25)) || (i == 0
            && text[i] == '+' && text.len() > 29)
}

/// `Local::now`, formatted by `DateTime::format`: the local date and time with
/// milliseconds and the offset from UTC, each part with its digits and marks in
/// place. Which time it is, is left unsaid: that depends on the clock and on the
/// machine's time zone.
#[verifier::external_body]
pub(crate) fn local_timestamp(format: &str) -> (timestamp: String)
    requires
        format@ == timestamp_format(),
    ensures
        is_timestamp(timestamp@),
{
    chrono::Local::now().format(format).to_string()
}

fn current_timestamp() -> (timestamp: String)
    ensures
        is_timestamp(timestamp@),
{
    local_timestamp("%Y-%m-%dT%H:%M:%S%.3f%:z")
}

/// A line of the log.
pub open spec fn line_text(
    timestamp: Seq<char>,
    event: Seq<char>,
    pid: u32,
    tid: u32,
    details: Seq<char>,
) -> Seq<char> {
    timestamp + " event="@ + event + " pid="@ + decimal_notation(pid as int) + " tid="@
        + decimal_notation(tid as int) + " "@ + details
}

/// Writes a line of the log: the time, the event, the process and thread, and
/// the details, and nothing else.
pub fn diagnostic_line(timestamp: &str, event: &str, pid: u32, tid: u32, details: &str) -> (line:
    String)
    ensures
        line@ == line_text(timestamp@, event@, pid, tid, details@),
{
    let mut line = timestamp.to_owned();
    line.append(" event=");
    line.append(event);
    line.append(" pid=");
    line.append(decimal(pid as u64).as_str());
    line.append(" tid=");
    line.append(decimal(tid as u64).as_str());
    line.append(" ");
    line.append(details);
    line
}

/// Writes a line of the log about something that happens now.
pub fn formatted_line(event: &str, pid: u32, tid: u32, details: &str) -> (line: String)
    ensures
        exists|timestamp: Seq<char>|
            is_timestamp(timestamp) && line@ == #[trigger] line_text(
                timestamp,
                event@,
                pid,
                tid,
                details@,
            ),
{
    let timestamp = current_timestamp();
    diagnostic_line(timestamp.as_str(), event, pid, tid, details)
}

/// A line holds its named fields and nothing else: in front of the details the only
/// equals signs are those behind the names of the event, the process and the thread,
/// so that no other field stands there.
pub proof fn a_line_holds_only_its_fields(
    timestamp: Seq<char>,
    event: Seq<char>,
    pid: u32,
    tid: u32,
    details: Seq<char>,
    i: int,
)
    requires
        is_timestamp(timestamp),
        !event.contains('='),
        0 <= i < line_text(timestamp, event, pid, tid, details).len(),
        line_text(timestamp, event, pid, tid, details)[i] == '=',
    ensures
        ({
            let line = line_text(timestamp, event, pid, tid, details);
            let details_from = line.len() - details.len();
            ||| i >= details_from
            ||| line.take(i + 1) == timestamp + " event="@
            ||| line.take(i + 1) == timestamp + " event="@ + event + " pid="@
            ||| line.take(i + 1) == timestamp + " event="@ + event + " pid="@ + decimal_notation(
                pid as int,
            ) + " tid="@
        }),
{
    reveal_strlit(" event=");
    reveal_strlit(" pid=");
    reveal_strlit(" tid=");
    reveal_strlit(" ");
    let pid_digits = decimal_notation(pid as int);
    let tid_digits = decimal_notation(tid as int);
    decimal_digits_read_back(pid as nat);
    decimal_digits_read_back(tid as nat);
    let line = line_text(timestamp, event, pid, tid, details);
    let to_event = timestamp + " event="@;
    let to_pid = to_event + event + " pid="@;
    let to_tid = to_pid + pid_digits + " tid="@;
    let front = to_tid + tid_digits + " "@;
    assert(line =~= front + details);
    if i < timestamp.len() {
        assert(line[i] == timestamp[i]);
        assert(fits_timestamp(timestamp[i], i - (timestamp.len() - 25)) || timestamp[i] == '+');
    } else if i < to_event.len() {
        assert(line[i] == " event="@[i - timestamp.len()]);
        assert(line.take(i + 1) =~= to_event);
    } else if i < to_event.len() + event.len() {
        assert(line[i] == event[i - to_event.len()]);
        assert(event.contains('='));
    } else if i < to_pid.len() {
        assert(line[i] == " pid="@[i - to_event.len() - event.len()]);
        assert(line.take(i + 1) =~= to_pid);
    } else if i < to_pid.len() + pid_digits.len() {
        assert(line[i] == pid_digits[i - to_pid.len()]);
        assert(is_digit(pid_digits[i - to_pid.len()]));
    } else if i < to_tid.len() {
        assert(line[i] == " tid="@[i - to_pid.len() - pid_digits.len()]);
        assert(line.take(i + 1) =~= to_tid);
    } else if i < to_tid.len() + tid_digits.len() {
        assert(line[i] == tid_digits[i - to_tid.len()]);
        assert(is_digit(tid_digits[i - to_tid.len()]));
    } else if i < front.len() {
        assert(line[i] == ' ');
    }
}

/// The details of the first event of a log.
pub fn session_start_detail(version: &str, arch: &str) -> (detail: String)
    ensures
        detail@ == "version="@ + version@ + " arch="@ + arch@,
{
    let mut detail = "version=".to_owned();
    detail.append(version);
    detail.append(" arch=");
    detail.append(arch);
    detail
}

/// The directory of the logs.
pub open spec fn log_directory_of(local_app_data: Seq<char>) -> Seq<char> {
    joined_path(joined_path(joined_path(local_app_data, "Azookey"@), "logs"@), "client"@)
}

/// Returns the directory of the logs.
pub fn log_directory(local_app_data: &str) -> (directory: String)
    ensures
        directory@ == log_directory_of(local_app_data@),
{
    let app = join_path(local_app_data, "Azookey");
    let logs = join_path(app.as_str(), "logs");
    join_path(logs.as_str(), "client")
}

/// The name of a log file.
pub open spec fn log_name(pid: u32, started_millis: u64, arch: Seq<char>) -> Seq<char> {
    "client-"@ + decimal_notation(pid as int) + "-"@ + decimal_notation(started_millis as int)
        + "-"@ + arch + ".log"@
}

/// Returns the name of a log file, for a process and the time of its start.
pub fn log_file_name(pid: u32, started_millis: u64, arch: &str) -> (name: String)
    ensures
        name@ == log_name(pid, started_millis, arch@),
{
    let mut name = "client-".to_owned();
    name.append(decimal(pid as u64).as_str());
    name.append("-");
    name.append(decimal(started_millis).as_str());
    name.append("-");
    name.append(arch);
    name.append(".log");
    name
}

/// Whether a character is a decimal digit.
pub open spec fn is_digit(c: char) -> bool {
    '0' <= c <= '9'
}

/// The value of decimal digits.
pub open spec fn digits_value(digits: Seq<char>) -> int
    decreases digits.len(),
{
    if digits.len() == 0 {
        0
    } else {
        digits_value(digits.drop_last()) * 10 + (digits.last() as int - '0' as int)
    }
}

/// Whether a text is made of decimal digits alone, and of at least one.
pub open spec fn is_number(text: Seq<char>) -> bool {
    text.len() > 0 && forall|i: int| 0 <= i < text.len() ==> is_digit(#[trigger] text[i])
}

/// The number that a text stands for: digits, with a plus sign in front or not,
/// of a value that fits.
pub open spec fn parsed_u32(text: Seq<char>) -> Option<u32> {
    let digits = if text.len() > 0 && text[0] == '+' {
        text.drop_first()
    } else {
        text
    };
    if is_number(digits) && digits_value(digits) <= u32::MAX {
        Some(digits_value(digits) as u32)
    } else {
        None
    }
}

pub(crate) proof fn digits_value_grows(digits: Seq<char>, more: Seq<char>)
    requires
        forall|i: int| 0 <= i < digits.len() ==> is_digit(#[trigger] digits[i]),
        forall|i: int| 0 <= i < more.len() ==> is_digit(#[trigger] more[i]),
    ensures
        0 <= digits_value(digits) <= digits_value(digits + more),
    decreases digits.len() + more.len(),
{
    if more.len() == 0 {
        assert(digits + more =~= digits);
        if digits.len() > 0 {
            let shorter = digits.drop_last();
            assert(forall|i: int| 0 <= i < shorter.len() ==> shorter[i] == digits[i]);
            digits_value_grows(shorter, Seq::empty());
            assert(is_digit(digits[digits.len() - 1]));
        }
    } else {
        let shorter = more.drop_last();
        assert(forall|i: int| 0 <= i < shorter.len() ==> shorter[i] == more[i]);
        digits_value_grows(digits, shorter);
        assert((digits + more).drop_last() =~= digits + shorter);
        assert(is_digit(more[more.len() - 1]));
    }
}

/// Reads a number.
fn parse_u32(chars: &[char]) -> (value: Option<u32>)
    ensures
        value == parsed_u32(chars@),
{
    let start: usize = if chars.len() > 0 && chars[0] == '+' {
        1
    } else {
        0
    };
    let ghost digits = chars@.skip(start as int);
    assert(chars@.len() > 0 && chars@[0] == '+' ==> digits =~= chars@.drop_first());
    assert(start == 0 ==> digits =~= chars@);
    if start >= chars.len() {
        return None;
    }
    let mut value: u32 = 0;
    for i in start..chars.len()
        invariant
            start <= chars.len(),
            digits == chars@.skip(start as int),
            forall|j: int| 0 <= j < i - start ==> is_digit(#[trigger] digits[j]),
            value == digits_value(digits.take(i - start)),
            parsed_u32(chars@) == if is_number(digits) && digits_value(digits) <= u32::MAX {
                Some(digits_value(digits) as u32)
            } else {
                None
            },
    {
        let c = chars[i];
        assert(digits[i - start] == c);
        if !('0' <= c && c <= '9') {
            return None;
        }
        let digit: u64 = c as u64 - '0' as u64;
        let next: u64 = value as u64 * 10 + digit;
        proof {
            let taken = digits.take(i - start + 1);
            assert(taken.drop_last() =~= digits.take(i - start));
            assert(next == digits_value(taken));
            if next > u32::MAX && is_number(digits) {
                assert(digits =~= taken + digits.skip(i - start + 1));
                digits_value_grows(taken, digits.skip(i - start + 1));
            }
        }
        if next > u32::MAX as u64 {
            return None;
        }
        value = next as u32;
    }
    assert(digits.take(digits.len() as int) =~= digits);
    Some(value)
}

/// The position of the first dash of a text, or its length.
pub open spec fn first_dash(text: Seq<char>) -> int
    decreases text.len(),
{
    if text.len() == 0 || text[0] == '-' {
        0
    } else {
        1 + first_dash(text.drop_first())
    }
}

/// The process that a log's name tells of: between the first two dashes of a
/// name that begins with `client-`.
pub open spec fn pid_in_stem(stem: Seq<char>) -> Option<u32> {
    let rest = stem.skip(7);
    if stem.len() < 7 || stem.take(7) != "client-"@ || first_dash(rest) >= rest.len() {
        None
    } else {
        parsed_u32(rest.take(first_dash(rest)))
    }
}

/// The process that a log file belongs to.
pub open spec fn pid_of_log(path: Seq<char>) -> Option<u32> {
    match file_name_span(path) {
        Some((start, end)) => pid_in_stem(stem_of(path.subrange(start, end))),
        None => None,
    }
}

fn dash_from(chars: &Vec<char>, from: usize) -> (dash: usize)
    requires
        from <= chars.len(),
    ensures
        from <= dash <= chars.len(),
        dash - from == first_dash(chars@.skip(from as int)),
    decreases chars.len() - from,
{
    assert(from < chars.len() ==> chars@.skip(from as int).drop_first() =~= chars@.skip(from + 1));
    if from >= chars.len() || chars[from] == '-' {
        from
    } else {
        dash_from(chars, from + 1)
    }
}

/// Returns the process that a log file belongs to. Nothing but its number is in
/// the name.
pub fn log_file_pid(path: &str) -> (pid: Option<u32>)
    ensures
        pid == pid_of_log(path@),
{
    let name = match file_name(path) {
        Some(name) => name,
        None => return None,
    };
    let chars = characters(name.stem.as_str());
    let prefix = characters("client-");
    proof {
        reveal_strlit("client-");
    }
    if chars.len() < 7 {
        return None;
    }
    for i in 0..7
        invariant
            chars.len() >= 7,
            chars@ == name.stem@,
            prefix@ == "client-"@,
            prefix.len() == 7,
            pid_of_log(path@) == pid_in_stem(name.stem@),
            forall|j: int| 0 <= j < i ==> chars@[j] == prefix@[j],
    {
        if chars[i] != prefix[i] {
            proof {
                assert(chars@.take(7)[i as int] != "client-"@[i as int]);
            }
            return None;
        }
    }
    assert(chars@.take(7) =~= "client-"@);
    let dash: usize = dash_from(&chars, 7);
    if dash >= chars.len() {
        return None;
    }
    let digits = slice_between(&chars, 7, dash);
    assert(digits@ =~= chars@.skip(7).take(dash - 7));
    parse_u32(digits.as_slice())
}

fn slice_between(chars: &Vec<char>, start: usize, end: usize) -> (part: Vec<char>)
    requires
        start <= end <= chars.len(),
    ensures
        part@ == chars@.subrange(start as int, end as int),
{
    let mut part: Vec<char> = Vec::new();
    for i in start..end
        invariant
            start <= end <= chars.len(),
            part@ == chars@.subrange(start as int, i as int),
    {
        part.push(chars[i]);
        assert(part@ =~= chars@.subrange(start as int, i + 1));
    }
    part
}

/// Tells whether a file is a log: its process, where it has the name and the
/// extension of one.
pub fn log_of_process(path: &str) -> (pid: Option<u32>)
    ensures
        pid == match file_name_span(path@) {
            Some((start, end)) => if extension_of(path@.subrange(start, end)) == Some("log"@) {
                pid_of_log(path@)
            } else {
                None
            },
            None => None,
        },
{
    let name = match file_name(path) {
        Some(name) => name,
        None => return None,
    };
    match name.extension {
        Some(extension) => if same_text(extension.as_str(), "log") {
            log_file_pid(path)
        } else {
            None
        },
        None => None,
    }
}

/// Tells whether a process is running, from the code of an attempt to open it.
/// Any refusal but that of an unknown process counts as running.
pub fn process_is_running(open_error: Option<i32>) -> (running: bool)
    ensures
        running == (open_error != Some(INVALID_PROCESS_ID)),
        running <==> open_error != Some(-0x7ff8_ffa9i32),
{
    match open_error {
        Some(code) => code != INVALID_PROCESS_ID,
        None => true,
    }
}

/// A log file: its path, when it was written last, and whether the process that it
/// belongs to is running.
#[derive(Debug)]
pub struct LogFile {
    pub path: String,
    pub modified: i128,
    pub running: bool,
}

/// How many of the first `end` logs come before log `i`: those written later, and
/// of those written at the same time the ones listed first.
pub open spec fn rank_among(logs: Seq<LogFile>, i: int, end: int) -> int
    decreases end,
{
    if end <= 0 {
        0
    } else {
        rank_among(logs, i, end - 1) + if comes_before(logs, end - 1, i) {
            1int
        } else {
            0
        }
    }
}

/// Whether log `j` comes before log `i`.
pub open spec fn comes_before(logs: Seq<LogFile>, j: int, i: int) -> bool {
    logs[j].modified > logs[i].modified || (logs[j].modified == logs[i].modified && j < i)
}

/// The place of a log in the order from the newest to the oldest.
pub open spec fn rank(logs: Seq<LogFile>, i: int) -> int {
    rank_among(logs, i, logs.len() as int)
}

/// Whether a log is removed: it is not among the newest, not the current one, and
/// its process has ended.
pub open spec fn is_removable(logs: Seq<LogFile>, current_path: Seq<char>, i: int) -> bool {
    rank(logs, i) >= MAX_LOG_FILES && !is_same_path(logs[i].path@, current_path)
        && !logs[i].running
}

fn rank_of(logs: &Vec<LogFile>, i: usize) -> (rank_of_i: usize)
    requires
        i < logs.len(),
    ensures
        rank_of_i as int == rank(logs@, i as int),
{
    let mut count: usize = 0;
    for j in 0..logs.len()
        invariant
            i < logs.len(),
            count <= j,
            count as int == rank_among(logs@, i as int, j as int),
    {
        if logs[j].modified > logs[i].modified || (logs[j].modified == logs[i].modified && j < i) {
            count = count + 1;
        }
    }
    count
}

/// Picks the logs that are removed.
pub fn removable_logs(logs: &Vec<LogFile>, current_path: &str) -> (removable: Vec<usize>)
    ensures
        forall|k: int| 0 <= k < removable.len() ==> #[trigger] removable[k] < logs.len() && is_removable(
            logs@,
            current_path@,
            removable[k] as int,
        ),
        forall|i: int|
            0 <= i < logs.len() && #[trigger] is_removable(logs@, current_path@, i) ==> removable@.contains(
                i as usize,
            ),
        forall|k: int, l: int| 0 <= k < l < removable.len() ==> #[trigger] removable[k] < #[trigger] removable[l],
{
    let mut removable: Vec<usize> = Vec::new();
    for i in 0..logs.len()
        invariant
            forall|k: int| 0 <= k < removable.len() ==> #[trigger] removable[k] < i && is_removable(
                logs@,
                current_path@,
                removable[k] as int,
            ),
            forall|j: int|
                0 <= j < i && #[trigger] is_removable(logs@, current_path@, j) ==> removable@.contains(
                    j as usize,
                ),
            forall|k: int, l: int| 0 <= k < l < removable.len() ==> #[trigger] removable[k] < #[trigger] removable[l],
    {
        let ghost before = removable@;
        if !logs[i].running && rank_of(logs, i) >= MAX_LOG_FILES && !same_path(
            logs[i].path.as_str(),
            current_path,
        ) {
            removable.push(i);
            proof {
                assert(removable@[removable.len() - 1] == i);
                assert forall|j: int|
                    0 <= j < i + 1 && #[trigger] is_removable(logs@, current_path@, j) implies
                    removable@.contains(j as usize) by {
                    if j < i {
                        let k = choose|k: int| 0 <= k < before.len() && before[k] == j as usize;
                        assert(removable@[k] == j as usize);
                    }
                }
            }
        }
    }
    removable
}

proof fn an_earlier_log_ranks_lower(logs: Seq<LogFile>, j: int, i: int, end: int)
    requires
        0 <= j < logs.len(),
        0 <= i < logs.len(),
        comes_before(logs, j, i),
        0 <= end <= logs.len(),
    ensures
        0 <= rank_among(logs, j, end),
        rank_among(logs, j, end) + (if j < end {
            1int
        } else {
            0
        }) <= rank_among(logs, i, end),
    decreases end,
{
    if end > 0 {
        an_earlier_log_ranks_lower(logs, j, i, end - 1);
    }
}

proof fn ranks_are_not_negative(logs: Seq<LogFile>, i: int, end: int)
    requires
        0 <= end,
    ensures
        0 <= rank_among(logs, i, end),
    decreases end,
{
    if end > 0 {
        ranks_are_not_negative(logs, i, end - 1);
    }
}

/// The logs of ended processes that are left, besides the current one, once the
/// removable ones are gone.
pub open spec fn ended_logs_left(logs: Seq<LogFile>, current_path: Seq<char>) -> Set<int> {
    Set::new(
        |i: int|
            0 <= i < logs.len() && !is_same_path(logs[i].path@, current_path) && !logs[i].running
                && !is_removable(logs, current_path, i),
    )
}

/// Once the removable logs are gone, at most a fixed number of logs of ended
/// processes is left besides the current one, however many there were.
pub proof fn few_ended_logs_are_left(logs: Seq<LogFile>, current_path: Seq<char>)
    ensures
        ended_logs_left(logs, current_path).finite(),
        ended_logs_left(logs, current_path).len() <= MAX_LOG_FILES,
{
    let kept = ended_logs_left(logs, current_path);
    let all = vstd::set_lib::set_int_range(0, logs.len() as int);
    vstd::set_lib::lemma_int_range(0, logs.len() as int);
    assert(kept.subset_of(all));
    vstd::set_lib::lemma_set_subset_finite(all, kept);
    let f = |i: int| rank(logs, i);
    assert forall|i: int, j: int| #![trigger f(i), f(j)]
        kept.contains(i) && kept.contains(j) && f(i) == f(j) implies i == j by {
        if i != j {
            if comes_before(logs, i, j) {
                an_earlier_log_ranks_lower(logs, i, j, logs.len() as int);
            } else {
                an_earlier_log_ranks_lower(logs, j, i, logs.len() as int);
            }
        }
    }
    let places = kept.map(f);
    vstd::set_lib::lemma_map_size(kept, places, f);
    let few = vstd::set_lib::set_int_range(0, MAX_LOG_FILES as int);
    vstd::set_lib::lemma_int_range(0, MAX_LOG_FILES as int);
    assert forall|place: int| places.contains(place) implies few.contains(place) by {
        let i = choose|i: int| kept.contains(i) && f(i) == place;
        ranks_are_not_negative(logs, i, logs.len() as int);
    }
    vstd::set_lib::lemma_len_subset(places, few);
}

pub(crate) proof fn decimal_digits_read_back(value: nat)
    ensures
        is_number(decimal_digits(value)),
        digits_value(decimal_digits(value)) == value,
    decreases value,
{
    let digits = decimal_digits(value);
    let last = digit_char(value % 10);
    assert('0' <= last <= '9' && last as int - '0' as int == value % 10);
    if value < 10 {
        assert(digits.drop_last() =~= Seq::empty());
        assert(digits_value(Seq::empty()) == 0);
        assert(digits == seq![last]);
        assert(digits.last() == last);
    } else {
        decimal_digits_read_back(value / 10);
        assert(digits.drop_last() =~= decimal_digits(value / 10));
        let shorter = decimal_digits(value / 10);
        assert forall|i: int| 0 <= i < digits.len() implies is_digit(#[trigger] digits[i]) by {
            if i < shorter.len() {
                assert(digits[i] == shorter[i]);
            }
        }
    }
}

proof fn digits_hold_no_dash(digits: Seq<char>, rest: Seq<char>)
    requires
        forall|i: int| 0 <= i < digits.len() ==> is_digit(#[trigger] digits[i]),
        rest.len() > 0,
        rest[0] == '-',
    ensures
        first_dash(digits + rest) == digits.len(),
    decreases digits.len(),
{
    if digits.len() == 0 {
        assert(digits + rest =~= rest);
    } else {
        let shorter = digits.drop_first();
        assert((digits + rest)[0] == digits[0]);
        assert(forall|i: int| 0 <= i < shorter.len() ==> shorter[i] == digits[i + 1]);
        digits_hold_no_dash(shorter, rest);
        assert((digits + rest).drop_first() =~= shorter + rest);
    }
}

proof fn a_name_starts_at_its_front(path: Seq<char>, end: int)
    requires
        0 <= end <= path.len(),
        forall|i: int| 0 <= i < end ==> !is_separator(#[trigger] path[i]),
    ensures
        component_start(path, 0, end) == 0,
    decreases end,
{
    if end > 0 {
        a_name_starts_at_its_front(path, end - 1);
    }
}

/// What stands in the name of a log behind the process.
spec fn log_name_rest(started_millis: u64, arch: Seq<char>) -> Seq<char> {
    "-"@ + decimal_digits(started_millis as nat) + "-"@ + arch
}

/// The name of a log without its extension.
spec fn log_name_stem(pid: u32, started_millis: u64, arch: Seq<char>) -> Seq<char> {
    "client-"@ + (decimal_digits(pid as nat) + log_name_rest(started_millis, arch))
}

proof fn a_log_name_is_one_component(pid: u32, started_millis: u64, arch: Seq<char>)
    requires
        forall|i: int| 0 <= i < arch.len() ==> !is_separator(#[trigger] arch[i]),
    ensures
        ({
            let name = log_name(pid, started_millis, arch);
            &&& name == log_name_stem(pid, started_millis, arch) + ".log"@
            &&& forall|i: int| 0 <= i < name.len() ==> !is_separator(#[trigger] name[i])
        }),
{
    reveal_strlit("client-");
    reveal_strlit("-");
    reveal_strlit(".log");
    let digits = decimal_digits(pid as nat);
    let started = decimal_digits(started_millis as nat);
    decimal_digits_read_back(pid as nat);
    decimal_digits_read_back(started_millis as nat);
    let name = log_name(pid, started_millis, arch);
    let rest = log_name_rest(started_millis, arch);
    assert(name =~= log_name_stem(pid, started_millis, arch) + ".log"@);
    assert forall|i: int| 0 <= i < name.len() implies !is_separator(#[trigger] name[i]) by {
        let after_pid = i - 7 - digits.len();
        if i < 7 {
            assert(name[i] == "client-"@[i]);
        } else if after_pid < 0 {
            assert(name[i] == digits[i - 7]);
        } else if after_pid >= 1 && after_pid < 1 + started.len() {
            assert(name[i] == started[after_pid - 1]);
        } else if after_pid >= 2 + started.len() && after_pid < rest.len() {
            assert(name[i] == arch[after_pid - 2 - started.len()]);
        } else if after_pid >= rest.len() {
            assert(name[i] == ".log"@[after_pid - rest.len()]);
        }
    }
}

proof fn a_bare_name_is_the_file_name(name: Seq<char>)
    requires
        name.len() > 2,
        forall|i: int| 0 <= i < name.len() ==> !is_separator(#[trigger] name[i]),
        name[1] != ':',
        name.last() != '.',
    ensures
        file_name_span(name) == Some((0int, name.len() as int)),
{
    assert(!is_separator(name[0]));
    a_name_starts_at_its_front(name, name.len() as int);
    assert(name.subrange(0, name.len() as int) =~= name);
}

proof fn a_stem_tells_its_process(pid: u32, started_millis: u64, arch: Seq<char>)
    ensures
        pid_in_stem(log_name_stem(pid, started_millis, arch)) == Some(pid),
{
    reveal_strlit("client-");
    reveal_strlit("-");
    let digits = decimal_digits(pid as nat);
    let rest = log_name_rest(started_millis, arch);
    let stem = log_name_stem(pid, started_millis, arch);
    decimal_digits_read_back(pid as nat);
    assert(rest[0] == '-');
    assert(stem.take(7) =~= "client-"@);
    assert(stem.skip(7) =~= digits + rest);
    digits_hold_no_dash(digits, rest);
    assert((digits + rest).take(digits.len() as int) =~= digits);
    assert(is_digit(digits[0]));
}

/// The name of a log gives back the process that it was made for.
pub proof fn a_log_name_tells_its_process(pid: u32, started_millis: u64, arch: Seq<char>)
    requires
        forall|i: int| 0 <= i < arch.len() ==> !is_separator(#[trigger] arch[i]),
    ensures
        pid_of_log(log_name(pid, started_millis, arch)) == Some(pid),
{
    reveal_strlit("client-");
    reveal_strlit(".log");
    let name = log_name(pid, started_millis, arch);
    let stem = log_name_stem(pid, started_millis, arch);
    a_log_name_is_one_component(pid, started_millis, arch);
    assert(name[1] == 'l' && name.last() == 'g');
    a_bare_name_is_the_file_name(name);
    assert(name.subrange(0, name.len() as int) =~= name);
    assert(last_dot(name) == stem.len()) by {
        reveal_with_fuel(last_dot, 5);
        assert(name.drop_last().drop_last().drop_last().last() == '.');
    }
    assert(stem_of(name) =~= stem);
    a_stem_tells_its_process(pid, started_millis, arch);
}

/// The log as it is: the bytes of the open file, and what is known of failures.
#[derive(Debug)]
pub struct LoggerState {
    pub log: Option<u64>,
    pub retry_after: Option<u64>,
    pub failure_count: u32,
    pub last_error: Option<String>,
}

/// The contents of a `LoggerState`.
#[verifier::ext_equal]
pub struct LoggerView {
    pub log: Option<u64>,
    pub retry_after: Option<u64>,
    pub failure_count: u32,
    pub last_error: Option<Seq<char>>,
}

impl View for LoggerState {
    type V = LoggerView;

    open spec fn view(&self) -> LoggerView {
        LoggerView {
            log: self.log,
            retry_after: self.retry_after,
            failure_count: self.failure_count,
            last_error: match self.last_error {
                Some(error) => Some(error@),
                None => None,
            },
        }
    }
}

impl Default for LoggerState {
    fn default() -> (state: LoggerState)
        ensures
            state@ == (LoggerView {
                log: None,
                retry_after: None,
                failure_count: 0,
                last_error: None,
            }),
    {
        LoggerState { log: None, retry_after: None, failure_count: 0, last_error: None }
    }
}

/// Outside work on the log file.
#[derive(Debug)]
pub enum LogEffect {
    /// Open a new file, and remove old ones.
    Open,
    /// Empty the file.
    Truncate,
    /// Write a line at the end of the file.
    Append(String),
}

/// The contents of a `LogEffect`.
pub enum LogEffectView {
    Open,
    Truncate,
    Append(Seq<char>),
}

impl View for LogEffect {
    type V = LogEffectView;

    open spec fn view(&self) -> LogEffectView {
        match self {
            LogEffect::Open => LogEffectView::Open,
            LogEffect::Truncate => LogEffectView::Truncate,
            LogEffect::Append(line) => LogEffectView::Append(line@),
        }
    }
}

/// What came of it. A failure names its kind.
#[derive(Debug)]
pub enum LogReply {
    Done,
    Failed(String),
}

/// An event being written: what is waited for. `following` is the line of the
/// event itself while a line about earlier failures is written.
#[derive(Debug)]
pub enum EventStage<T = String> {
    Opening { line: T },
    Truncating { line: T, following: Option<T> },
    Appending { line: T, following: Option<T> },
}

impl View for EventStage<String> {
    type V = EventStage<Seq<char>>;

    open spec fn view(&self) -> EventStage<Seq<char>> {
        match self {
            EventStage::Opening { line } => EventStage::Opening { line: line@ },
            EventStage::Truncating { line, following } => EventStage::Truncating {
                line: line@,
                following: optional_view(*following),
            },
            EventStage::Appending { line, following } => EventStage::Appending {
                line: line@,
                following: optional_view(*following),
            },
        }
    }
}

/// An optional text.
pub open spec fn optional_view(text: Option<String>) -> Option<Seq<char>> {
    match text {
        Some(text) => Some(text@),
        None => None,
    }
}

/// What writing an event comes to. The event may be lost; it is no error.
#[derive(Debug)]
pub enum EventNext<T = String> {
    Waiting(EventStage<T>),
    Finished,
}

impl View for EventNext<String> {
    type V = EventNext<Seq<char>>;

    open spec fn view(&self) -> EventNext<Seq<char>> {
        match self {
            EventNext::Waiting(stage) => EventNext::Waiting(stage@),
            EventNext::Finished => EventNext::Finished,
        }
    }
}

impl EventStage<Seq<char>> {
    /// The outside work that is waited for.
    pub open spec fn awaited(self) -> LogEffectView {
        match self {
            EventStage::Opening { .. } => LogEffectView::Open,
            EventStage::Truncating { .. } => LogEffectView::Truncate,
            EventStage::Appending { line, .. } => LogEffectView::Append(line),
        }
    }
}

impl EventStage<String> {
    /// Returns the outside work that is waited for.
    pub fn effect(&self) -> (effect: LogEffect)
        ensures
            effect@ == self@.awaited(),
    {
        match self {
            EventStage::Opening { .. } => LogEffect::Open,
            EventStage::Truncating { .. } => LogEffect::Truncate,
            EventStage::Appending { line, .. } => LogEffect::Append(line.clone()),
        }
    }
}

/// The bytes of a file after more were written, at most the largest number.
pub open spec fn grown(bytes: u64, more: nat) -> u64 {
    if bytes + more <= u64::MAX {
        (bytes + more) as u64
    } else {
        u64::MAX
    }
}

/// The details of the line about earlier failures.
pub open spec fn recovered_text(failure_count: u32, last_error: Option<Seq<char>>) -> Seq<char> {
    "failures="@ + decimal_notation(failure_count as int) + " last_error="@ + match last_error {
        Some(kind) => "Some("@ + kind + ")"@,
        None => "None"@,
    }
}

impl LoggerView {
    /// The line about earlier failures.
    pub open spec fn recovered_line(self, timestamp: Seq<char>, pid: u32, tid: u32) -> Seq<char> {
        line_text(
            timestamp,
            "diagnostic_recovered"@,
            pid,
            tid,
            recovered_text(self.failure_count, self.last_error),
        )
    }

    /// Whether the log may be opened.
    pub open spec fn may_open(self, now: u64) -> bool {
        match self.retry_after {
            Some(retry_after) => now >= retry_after,
            None => true,
        }
    }

    /// The log after a failure: it is closed, and left alone for a while.
    pub open spec fn failed(self, kind: Seq<char>, now: u64) -> LoggerView {
        LoggerView {
            log: None,
            failure_count: if self.failure_count == u32::MAX {
                u32::MAX
            } else {
                (self.failure_count + 1) as u32
            },
            last_error: Some(kind),
            retry_after: Some((now + RETRY_INTERVAL) as u64),
        }
    }

    /// Begins to write a line to a file of so many bytes: a file that would grow
    /// too large is emptied first.
    pub open spec fn write(
        self,
        bytes: u64,
        line: Seq<char>,
        following: Option<Seq<char>>,
    ) -> EventNext<Seq<char>> {
        if grown(bytes, utf8_len(line)) > MAX_LOG_BYTES {
            EventNext::Waiting(EventStage::Truncating { line, following })
        } else {
            EventNext::Waiting(EventStage::Appending { line, following })
        }
    }

    /// Begins to write an event.
    pub open spec fn event(self, line: Seq<char>, now: u64) -> EventNext<Seq<char>> {
        let line = line.push('\n');
        match self.log {
            Some(bytes) => self.write(bytes, line, None),
            None => if self.may_open(now) {
                EventNext::Waiting(EventStage::Opening { line })
            } else {
                EventNext::Finished
            },
        }
    }

    /// Goes on once a line could not be written. Only the event itself counts.
    pub open spec fn line_failed(
        self,
        following: Option<Seq<char>>,
        kind: Seq<char>,
        now: u64,
    ) -> (LoggerView, EventNext<Seq<char>>) {
        match (following, self.log) {
            (Some(line), Some(bytes)) => (self, self.write(bytes, line, None)),
            _ => (self.failed(kind, now), EventNext::Finished),
        }
    }

    /// Goes on after a reply. Where there were failures before, a line about them
    /// comes first in a new file; it has the time and the numbers that are given.
    pub open spec fn resumed(
        self,
        stage: EventStage<Seq<char>>,
        reply: LogReply,
        timestamp: Seq<char>,
        pid: u32,
        tid: u32,
        now: u64,
    ) -> (LoggerView, EventNext<Seq<char>>) {
        match (stage, reply) {
            (EventStage::Opening { line }, LogReply::Done) => {
                let opened = LoggerView { log: Some(0), retry_after: None, ..self };
                if self.failure_count != 0 {
                    let recovered = self.recovered_line(timestamp, pid, tid);
                    (opened, opened.write(0, recovered.push('\n'), Some(line)))
                } else {
                    (opened, opened.write(0, line, None))
                }
            },
            (EventStage::Opening { .. }, LogReply::Failed(kind)) => (
                self.failed(kind@, now),
                EventNext::Finished,
            ),
            (EventStage::Truncating { line, following }, LogReply::Done) => (
                LoggerView { log: Some(0), ..self },
                EventNext::Waiting(EventStage::Appending { line, following }),
            ),
            (EventStage::Appending { line, following }, LogReply::Done) => {
                let bytes = grown(
                    match self.log {
                        Some(bytes) => bytes,
                        None => 0,
                    },
                    utf8_len(line),
                );
                let written = LoggerView { log: Some(bytes), ..self };
                match following {
                    Some(line) => (written, written.write(bytes, line, None)),
                    None => (written, EventNext::Finished),
                }
            },
            (EventStage::Truncating { following, .. }, LogReply::Failed(kind)) => {
                self.line_failed(following, kind@, now)
            },
            (EventStage::Appending { following, .. }, LogReply::Failed(kind)) => {
                self.line_failed(following, kind@, now)
            },
        }
    }
}

/// Writes the details of the line about earlier failures.
pub fn recovered_detail(failure_count: u32, last_error: &Option<String>) -> (detail: String)
    ensures
        detail@ == recovered_text(failure_count, optional_view(*last_error)),
{
    let mut detail = "failures=".to_owned();
    detail.append(decimal(failure_count as u64).as_str());
    detail.append(" last_error=");
    match last_error {
        Some(kind) => {
            let mut name = "Some(".to_owned();
            name.append(kind.as_str());
            name.append(")");
            detail.append(name.as_str());
        },
        None => {
            detail.append("None");
        },
    }
    detail
}

impl LoggerState {
    fn fail(&mut self, kind: String, now: u64)
        requires
            now + RETRY_INTERVAL <= u64::MAX,
        ensures
            final(self)@ == old(self)@.failed(kind@, now),
    {
        self.log = None;
        self.failure_count = self.failure_count.saturating_add(1);
        self.last_error = Some(kind);
        self.retry_after = Some(now + RETRY_INTERVAL);
    }

    fn begin_line(&self, bytes: u64, line: String, following: Option<String>) -> (next: EventNext)
        ensures
            next@ == self@.write(bytes, line@, optional_view(following)),
    {
        let line_bytes: u64 = byte_len(line.as_str()) as u64;
        if bytes.saturating_add(line_bytes) > MAX_LOG_BYTES {
            EventNext::Waiting(EventStage::Truncating { line, following })
        } else {
            EventNext::Waiting(EventStage::Appending { line, following })
        }
    }

    fn fail_line(&mut self, following: Option<String>, kind: String, now: u64) -> (next: EventNext)
        requires
            now + RETRY_INTERVAL <= u64::MAX,
        ensures
            (final(self)@, next@) == old(self)@.line_failed(
                optional_view(following),
                kind@,
                now,
            ),
    {
        match (following, self.log) {
            (Some(line), Some(bytes)) => self.begin_line(bytes, line, None),
            _ => {
                self.fail(kind, now);
                EventNext::Finished
            },
        }
    }

    /// Goes on writing an event after a reply. A line about earlier failures, where
    /// there were any, has the time of the call.
    pub fn resume_event(
        &mut self,
        stage: EventStage,
        reply: LogReply,
        pid: u32,
        tid: u32,
        now: u64,
    ) -> (next: EventNext)
        requires
            now + RETRY_INTERVAL <= u64::MAX,
        ensures
            exists|timestamp: Seq<char>|
                is_timestamp(timestamp) && (final(self)@, next@) == #[trigger] old(self)@.resumed(
                    stage@,
                    reply,
                    timestamp,
                    pid,
                    tid,
                    now,
                ),
    {
        let timestamp = current_timestamp();
        self.resume_event_at(stage, reply, timestamp.as_str(), pid, tid, now)
    }

    /// Goes on writing an event after a reply. A line about earlier failures, where
    /// there were any, has the time that is given.
    pub fn resume_event_at(
        &mut self,
        stage: EventStage,
        reply: LogReply,
        timestamp: &str,
        pid: u32,
        tid: u32,
        now: u64,
    ) -> (next: EventNext)
        requires
            now + RETRY_INTERVAL <= u64::MAX,
        ensures
            (final(self)@, next@) == old(self)@.resumed(
                stage@,
                reply,
                timestamp@,
                pid,
                tid,
                now,
            ),
    {
        match (stage, reply) {
            (EventStage::Opening { line }, LogReply::Done) => {
                self.log = Some(0);
                self.retry_after = None;
                if self.failure_count != 0 {
                    let details = recovered_detail(self.failure_count, &self.last_error);
                    let mut recovered = diagnostic_line(
                        timestamp,
                        "diagnostic_recovered",
                        pid,
                        tid,
                        details.as_str(),
                    );
                    recovered.push('\n');
                    self.begin_line(0, recovered, Some(line))
                } else {
                    self.begin_line(0, line, None)
                }
            },
            (EventStage::Opening { .. }, LogReply::Failed(kind)) => {
                self.fail(kind, now);
                EventNext::Finished
            },
            (EventStage::Truncating { line, following }, LogReply::Done) => {
                self.log = Some(0);
                EventNext::Waiting(EventStage::Appending { line, following })
            },
            (EventStage::Appending { line, following }, LogReply::Done) => {
                let before: u64 = match self.log {
                    Some(bytes) => bytes,
                    None => 0,
                };
                let bytes: u64 = before.saturating_add(byte_len(line.as_str()) as u64);
                self.log = Some(bytes);
                match following {
                    Some(line) => self.begin_line(bytes, line, None),
                    None => EventNext::Finished,
                }
            },
            (EventStage::Truncating { following, .. }, LogReply::Failed(kind)) => {
                self.fail_line(following, kind, now)
            },
            (EventStage::Appending { following, .. }, LogReply::Failed(kind)) => {
                self.fail_line(following, kind, now)
            },
        }
    }
}

/// Begins to write an event. Where the log is closed it is opened, unless the
/// last failure is too recent: then the event is lost.
pub fn event(state: &LoggerState, line: String, now: u64) -> (next: EventNext)
    ensures
        next@ == state@.event(line@, now),
{
    let mut line = line;
    line.push('\n');
    match state.log {
        Some(bytes) => state.begin_line(bytes, line, None),
        None => {
            let may_open = match state.retry_after {
                Some(retry_after) => now >= retry_after,
                None => true,
            };
            if may_open {
                EventNext::Waiting(EventStage::Opening { line })
            } else {
                EventNext::Finished
            }
        },
    }
}

/// Whether a line about to be appended fits into the file.
pub open spec fn fits(state: LoggerView, next: EventNext<Seq<char>>) -> bool {
    next matches EventNext::Waiting(EventStage::Appending { line, .. }) ==> {
        &&& state.log matches Some(bytes)
        &&& bytes + utf8_len(line) <= MAX_LOG_BYTES
    }
}

/// No line of the log is longer than the log may be.
pub open spec fn has_short_lines(stage: EventStage<Seq<char>>) -> bool {
    match stage {
        EventStage::Opening { line } => utf8_len(line) <= MAX_LOG_BYTES,
        EventStage::Truncating { line, following } => utf8_len(line) <= MAX_LOG_BYTES && (
        following matches Some(line) ==> utf8_len(line) <= MAX_LOG_BYTES),
        EventStage::Appending { line, following } => utf8_len(line) <= MAX_LOG_BYTES && (
        following matches Some(line) ==> utf8_len(line) <= MAX_LOG_BYTES),
    }
}

/// The log never grows beyond its limit: a line is only appended where it fits,
/// and the known size stays within the limit.
pub proof fn the_log_stays_within_its_limit(
    state: LoggerView,
    stage: EventStage<Seq<char>>,
    reply: LogReply,
    timestamp: Seq<char>,
    pid: u32,
    tid: u32,
    now: u64,
)
    requires
        state.log matches Some(bytes) ==> bytes <= MAX_LOG_BYTES,
        has_short_lines(stage),
        utf8_len(state.recovered_line(timestamp, pid, tid).push('\n')) <= MAX_LOG_BYTES,
        fits(state, EventNext::Waiting(stage)),
    ensures
        ({
            let (after, next) = state.resumed(stage, reply, timestamp, pid, tid, now);
            &&& after.log matches Some(bytes) ==> bytes <= MAX_LOG_BYTES
            &&& fits(after, next)
            &&& next matches EventNext::Waiting(stage) ==> has_short_lines(stage)
        }),
{
}

/// After a failure the log is left alone for a while, and then recovers. No event
/// opens it before the time is over; the first event after it tries to. A new file
/// begins with a line that tells how many failures there were and what the last
/// one was, and the event's own line comes behind it, whatever became of the first.
pub proof fn a_failed_log_recovers(
    state: LoggerView,
    kind: Seq<char>,
    failed_at: u64,
    now: u64,
    line: Seq<char>,
    timestamp: Seq<char>,
    pid: u32,
    tid: u32,
    reply: LogReply,
)
    requires
        failed_at + RETRY_INTERVAL <= u64::MAX,
    ensures
        ({
            let failed = state.failed(kind, failed_at);
            let own = line.push('\n');
            let recovered = line_text(
                timestamp,
                "diagnostic_recovered"@,
                pid,
                tid,
                "failures="@ + decimal_notation(failed.failure_count as int) + " last_error="@ + (
                "Some("@ + kind + ")"@),
            ).push('\n');
            let opening = EventStage::Opening { line: own };
            let opened = LoggerView { log: Some(0), retry_after: None, ..failed };
            &&& failed.failure_count > 0
            &&& failed.event(line, now) == if now < failed_at + RETRY_INTERVAL {
                EventNext::Finished
            } else {
                EventNext::Waiting(opening)
            }
            &&& failed.resumed(opening, LogReply::Done, timestamp, pid, tid, now) == (
                opened,
                opened.write(0, recovered, Some(own)),
            )
            &&& ({
                let appending = EventStage::Appending { line: recovered, following: Some(own) };
                let (after, next) = opened.resumed(appending, reply, timestamp, pid, tid, now);
                after.log matches Some(bytes) && next == after.write(bytes, own, None)
            })
        }),
{
}

} // verus!
