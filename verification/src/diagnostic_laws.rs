//! What holds of the diagnostic log as a whole.

use vstd::prelude::*;

use crate::diagnostics::{
    comes_before, decimal_digits_read_back, digits_value, digits_value_grows, first_dash, is_digit,
    is_number, is_removable, line_text, log_directory_of, log_name, parsed_u32, pid_in_stem,
    rank_among, EventStage, LogEffectView, LogFile, LogReply, LoggerView,
};
use crate::paths::{is_same_path, joined_path};
use crate::text::{decimal_digits, decimal_notation, utf8_len};

verus! {

broadcast use vstd::string::group_string_axioms;

/// A line begins with its time and ends with its details, and between them stand the
/// event, the process and the thread, in this order.
pub proof fn a_line_tells_its_fields_in_order(
    timestamp: Seq<char>,
    event: Seq<char>,
    pid: u32,
    tid: u32,
    details: Seq<char>,
)
    ensures
        line_text(timestamp, event, pid, tid, details) == timestamp + " event="@ + event + " pid="@
            + decimal_notation(pid as int) + " tid="@ + decimal_notation(tid as int) + " "@
            + details,
{
}

/// A log's name tells the process, the time of its start and the machine's kind, in
/// the directory of this program's client logs.
pub proof fn a_log_lies_among_the_client_logs(
    local_app_data: Seq<char>,
    pid: u32,
    started_millis: u64,
    arch: Seq<char>,
)
    ensures
        log_directory_of(local_app_data) == joined_path(
            joined_path(joined_path(local_app_data, "Azookey"@), "logs"@),
            "client"@,
        ),
        log_name(pid, started_millis, arch) == "client-"@ + decimal_notation(pid as int) + "-"@
            + decimal_notation(started_millis as int) + "-"@ + arch + ".log"@,
{
}

/// A number is read back as it was written, with a plus sign in front or without.
pub proof fn a_written_number_is_read(value: u32)
    ensures
        parsed_u32(decimal_notation(value as int)) == Some(value),
        parsed_u32(seq!['+'] + decimal_notation(value as int)) == Some(value),
{
    let digits = decimal_digits(value as nat);
    decimal_digits_read_back(value as nat);
    assert(is_digit(digits[0]));
    assert((seq!['+'] + digits).drop_first() =~= digits);
}

/// One more digit behind a number makes it ten times as large, and adds the digit.
/// What is too large for a number is not one.
pub proof fn a_digit_counts_ten_times(text: Seq<char>, digit: char, value: u32)
    requires
        parsed_u32(text) == Some(value),
        '0' <= digit <= '9',
    ensures
        ({
            let longer = value * 10 + (digit as int - '0' as int);
            parsed_u32(text.push(digit)) == if longer <= 0xffff_ffff {
                Some(longer as u32)
            } else {
                None
            }
        }),
{
    let digits = if text[0] == '+' {
        text.drop_first()
    } else {
        text
    };
    digits_value_grows(digits, Seq::empty());
    let longer = digits.push(digit);
    assert(longer.drop_last() =~= digits);
    assert forall|i: int| 0 <= i < longer.len() implies is_digit(#[trigger] longer[i]) by {
        if i < digits.len() {
            assert(longer[i] == digits[i]);
        }
    }
    assert(digits_value(longer) == value * 10 + (digit as int - '0' as int));
    assert(text.push(digit)[0] == text[0]);
    if text[0] == '+' {
        assert(text.push(digit).drop_first() =~= longer);
    }
    assert(is_number(longer));
}

/// A text that holds anything but digits, behind a plus sign at most, is no number,
/// and neither is one without a digit.
pub proof fn only_digits_make_a_number(text: Seq<char>, i: int)
    requires
        text.len() == 0 || text == seq!['+'] || (0 <= i < text.len() && !('0' <= text[i] <= '9')
            && !(i == 0 && text[i] == '+')),
    ensures
        parsed_u32(text) is None,
{
    if text.len() > 0 && text != seq!['+'] {
        if text[0] == '+' {
            assert(text.drop_first()[i - 1] == text[i]);
            assert(!is_digit(text.drop_first()[i - 1]));
        } else {
            assert(!is_digit(text[i]));
        }
    }
}

proof fn the_first_dash_is_found(front: Seq<char>, rest: Seq<char>)
    requires
        !front.contains('-'),
    ensures
        first_dash(front + seq!['-'] + rest) == front.len(),
    decreases front.len(),
{
    let text = front + seq!['-'] + rest;
    if front.len() == 0 {
        assert(text[0] == '-');
    } else {
        assert(front.contains(front[0]));
        assert(text[0] == front[0]);
        let shorter = front.drop_first();
        assert forall|i: int| 0 <= i < shorter.len() implies shorter[i] != '-' by {
            assert(front.contains(front[i + 1]));
        }
        the_first_dash_is_found(shorter, rest);
        assert(text.drop_first() =~= shorter + seq!['-'] + rest);
    }
}

proof fn no_dash_is_found(text: Seq<char>)
    requires
        !text.contains('-'),
    ensures
        first_dash(text) == text.len(),
    decreases text.len(),
{
    if text.len() > 0 {
        assert(text.contains(text[0]));
        let shorter = text.drop_first();
        assert forall|i: int| 0 <= i < shorter.len() implies shorter[i] != '-' by {
            assert(text.contains(text[i + 1]));
        }
        no_dash_is_found(shorter);
    }
}

/// The process of a log is the number between the first two dashes of a name that
/// begins as the names of logs do.
pub proof fn the_process_stands_between_dashes(number: Seq<char>, rest: Seq<char>)
    requires
        !number.contains('-'),
    ensures
        pid_in_stem("client-"@ + (number + seq!['-'] + rest)) == parsed_u32(number),
{
    reveal_strlit("client-");
    let behind = number + seq!['-'] + rest;
    let stem = "client-"@ + behind;
    assert(stem.take(7) =~= "client-"@);
    assert(stem.skip(7) =~= behind);
    the_first_dash_is_found(number, rest);
    assert(behind.take(number.len() as int) =~= number);
}

/// A name that begins otherwise, or that has no second dash, tells of no process.
pub proof fn other_names_tell_of_no_process(stem: Seq<char>, number: Seq<char>)
    requires
        !number.contains('-'),
    ensures
        !"client-"@.is_prefix_of(stem) ==> pid_in_stem(stem) is None,
        pid_in_stem("client-"@ + number) is None,
{
    reveal_strlit("client-");
    if stem.len() >= 7 && stem.take(7) == "client-"@ {
        assert("client-"@.is_prefix_of(stem));
    }
    let short = "client-"@ + number;
    assert(short.skip(7) =~= number);
    no_dash_is_found(number);
}

/// The logs in front of one in the order from the newest to the oldest: those written
/// later, and those listed before it that were written at the same time.
pub open spec fn newer_logs(logs: Seq<LogFile>, i: int) -> Set<int> {
    Set::new(
        |j: int|
            0 <= j < logs.len() && (logs[j].modified > logs[i].modified || (logs[j].modified
                == logs[i].modified && j < i)),
    )
}

proof fn ranks_are_counted(logs: Seq<LogFile>, i: int, end: int)
    requires
        0 <= end <= logs.len(),
    ensures
        ({
            let before = Set::new(|j: int| 0 <= j < end && comes_before(logs, j, i));
            before.finite() && before.len() == rank_among(logs, i, end)
        }),
    decreases end,
{
    let before = Set::new(|j: int| 0 <= j < end && comes_before(logs, j, i));
    if end == 0 {
        assert(before =~= Set::empty());
    } else {
        ranks_are_counted(logs, i, end - 1);
        let fewer = Set::new(|j: int| 0 <= j < end - 1 && comes_before(logs, j, i));
        if comes_before(logs, end - 1, i) {
            assert(before =~= fewer.insert(end - 1));
        } else {
            assert(before =~= fewer);
        }
    }
}

/// A log is removed where its process has ended, it is not the current one, and at
/// least sixty-four logs are newer; and only there.
pub proof fn a_log_is_removed_behind_newer_ones(
    logs: Seq<LogFile>,
    current_path: Seq<char>,
    i: int,
)
    requires
        0 <= i < logs.len(),
    ensures
        newer_logs(logs, i).finite(),
        is_removable(logs, current_path, i) <==> newer_logs(logs, i).len() >= 64
            && !logs[i].running && !is_same_path(logs[i].path@, current_path),
{
    ranks_are_counted(logs, i, logs.len() as int);
    assert(newer_logs(logs, i) =~= Set::new(
        |j: int| 0 <= j < logs.len() && comes_before(logs, j, i),
    ));
}

/// Whether a log was given up at a time because of a failure: it is closed for half a
/// minute, and the failure is counted and kept.
pub open spec fn is_given_up(before: LoggerView, after: LoggerView, kind: Seq<char>, now: u64) -> bool {
    &&& after.log is None
    &&& after.retry_after == Some((now + 30_000_000_000) as u64)
    &&& after.last_error == Some(kind)
    &&& before.failure_count < u32::MAX ==> after.failure_count == before.failure_count + 1
    &&& before.failure_count == u32::MAX ==> after.failure_count == u32::MAX
}

/// A log that cannot be opened, emptied or written to is given up, and the event is
/// lost.
pub proof fn a_failure_gives_the_log_up(
    state: LoggerView,
    line: Seq<char>,
    kind: String,
    timestamp: Seq<char>,
    pid: u32,
    tid: u32,
    now: u64,
)
    requires
        now + 30_000_000_000 <= u64::MAX,
    ensures
        ({
            let failed = LogReply::Failed(kind);
            let opening = EventStage::Opening { line };
            let truncating = EventStage::Truncating { line, following: None };
            let appending = EventStage::Appending { line, following: None };
            let (unopened, first) = state.resumed(opening, failed, timestamp, pid, tid, now);
            let (full, second) = state.resumed(truncating, failed, timestamp, pid, tid, now);
            let (unwritten, third) = state.resumed(appending, failed, timestamp, pid, tid, now);
            &&& first is Finished && is_given_up(state, unopened, kind@, now)
            &&& second is Finished && is_given_up(state, full, kind@, now)
            &&& third is Finished && is_given_up(state, unwritten, kind@, now)
        }),
{
}

/// An event is one line in the file, with a line feed at its end. It goes behind what
/// the file holds where there is room for it, and the file's length then grows by it.
pub proof fn an_event_is_appended_where_there_is_room(
    state: LoggerView,
    bytes: u64,
    line: Seq<char>,
    timestamp: Seq<char>,
    pid: u32,
    tid: u32,
    now: u64,
)
    requires
        state.log == Some(bytes),
        bytes + utf8_len(line.push('\n')) <= 0x10_0000,
    ensures
        ({
            let next = state.event(line, now);
            let (after, ended) = state.resumed(
                next->Waiting_0,
                LogReply::Done,
                timestamp,
                pid,
                tid,
                now,
            );
            &&& next is Waiting
            &&& next->Waiting_0.awaited() == LogEffectView::Append(line.push('\n'))
            &&& ended is Finished
            &&& after == (LoggerView {
                log: Some((bytes + utf8_len(line.push('\n'))) as u64),
                ..state
            })
        }),
{
}

/// A file without room for an event is emptied, and then holds the event alone.
pub proof fn a_full_log_begins_anew(
    state: LoggerView,
    bytes: u64,
    line: Seq<char>,
    timestamp: Seq<char>,
    pid: u32,
    tid: u32,
    now: u64,
)
    requires
        state.log == Some(bytes),
        bytes + utf8_len(line.push('\n')) > 0x10_0000,
        utf8_len(line.push('\n')) <= u64::MAX,
    ensures
        ({
            let next = state.event(line, now);
            let (emptied, appending) = state.resumed(
                next->Waiting_0,
                LogReply::Done,
                timestamp,
                pid,
                tid,
                now,
            );
            let (after, ended) = emptied.resumed(
                appending->Waiting_0,
                LogReply::Done,
                timestamp,
                pid,
                tid,
                now,
            );
            &&& next is Waiting && next->Waiting_0.awaited() is Truncate
            &&& emptied == (LoggerView { log: Some(0), ..state })
            &&& appending is Waiting
            &&& appending->Waiting_0.awaited() == LogEffectView::Append(line.push('\n'))
            &&& ended is Finished
            &&& after == (LoggerView { log: Some(utf8_len(line.push('\n')) as u64), ..state })
        }),
{
}

/// A log without failures is opened at its first event, and holds that event alone.
pub proof fn a_log_is_opened_at_its_first_event(
    line: Seq<char>,
    timestamp: Seq<char>,
    pid: u32,
    tid: u32,
    now: u64,
)
    requires
        utf8_len(line.push('\n')) <= 0x10_0000,
    ensures
        ({
            let state = LoggerView {
                log: None,
                retry_after: None,
                failure_count: 0,
                last_error: None,
            };
            let next = state.event(line, now);
            let (opened, appending) = state.resumed(
                next->Waiting_0,
                LogReply::Done,
                timestamp,
                pid,
                tid,
                now,
            );
            let (after, ended) = opened.resumed(
                appending->Waiting_0,
                LogReply::Done,
                timestamp,
                pid,
                tid,
                now,
            );
            &&& next is Waiting && next->Waiting_0.awaited() is Open
            &&& appending is Waiting
            &&& appending->Waiting_0.awaited() == LogEffectView::Append(line.push('\n'))
            &&& ended is Finished
            &&& after == (LoggerView { log: Some(utf8_len(line.push('\n')) as u64), ..state })
        }),
{
}

/// A line about earlier failures that cannot be written does not count: the event's
/// own line follows it, and the log stays open.
pub proof fn a_lost_report_does_not_count(
    state: LoggerView,
    bytes: u64,
    report: Seq<char>,
    line: Seq<char>,
    kind: String,
    timestamp: Seq<char>,
    pid: u32,
    tid: u32,
    now: u64,
)
    requires
        state.log == Some(bytes),
        bytes + utf8_len(line) <= 0x10_0000,
    ensures
        ({
            let appending = EventStage::Appending { line: report, following: Some(line) };
            let (after, next) = state.resumed(
                appending,
                LogReply::Failed(kind),
                timestamp,
                pid,
                tid,
                now,
            );
            &&& after == state
            &&& next is Waiting
            &&& next->Waiting_0.awaited() == LogEffectView::Append(line)
        }),
{
}

} // verus!
