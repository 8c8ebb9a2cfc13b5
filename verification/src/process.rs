//! Processes, told apart by what `/proc/<pid>/stat` says of them.

use crate::state::ProcessIdentity;
use crate::text;
use vstd::prelude::*;
use vstd::string::*;

verus! {

/// Where the start time stands among the fields that follow the process name.
pub const START_TIME_FIELD: usize = 19;

/// Why the text of a stat file names no start time.
#[derive(Debug, Clone, PartialEq, Eq)]
pub enum StatFault {
    /// No closing parenthesis ends the process name.
    MissingTerminator,
    /// There are too few fields after the process name.
    MissingStartTime,
    /// The start time is not a number; the cause says why.
    MalformedStartTime { cause: String },
}

/// A fault, with the text that it holds.
pub enum StatFaultView {
    MissingTerminator,
    MissingStartTime,
    MalformedStartTime { cause: Seq<char> },
}

impl View for StatFault {
    type V = StatFaultView;

    open spec fn view(&self) -> StatFaultView {
        match *self {
            StatFault::MissingTerminator => StatFaultView::MissingTerminator,
            StatFault::MissingStartTime => StatFaultView::MissingStartTime,
            StatFault::MalformedStartTime { cause } => StatFaultView::MalformedStartTime {
                cause: cause@,
            },
        }
    }
}

/// The start time that the text of a stat file gives. The process name may hold anything, so the
/// fields are counted from its last closing parenthesis on.
pub open spec fn start_time(stat: Seq<char>) -> Result<u64, StatFaultView> {
    match stat.index_of_last(')') {
        None => Err(StatFaultView::MissingTerminator),
        Some(end) => {
            let fields = text::words(stat.skip(end + 1));
            if fields.len() <= START_TIME_FIELD {
                Err(StatFaultView::MissingStartTime)
            } else {
                match text::unsigned_value(fields[START_TIME_FIELD as int]) {
                    Some(ticks) => Ok(ticks),
                    None => Err(
                        StatFaultView::MalformedStartTime {
                            cause: text::unsigned_fault(fields[START_TIME_FIELD as int]),
                        },
                    ),
                }
            }
        },
    }
}

/// A fault in words.
pub open spec fn fault_message(fault: StatFaultView) -> Seq<char> {
    match fault {
        StatFaultView::MissingTerminator =>
            "Malformed /proc stat: missing process-name terminator"@,
        StatFaultView::MissingStartTime => "Malformed /proc stat: missing process start time"@,
        StatFaultView::MalformedStartTime { cause } => text::caused(
            "Malformed /proc stat process start time"@,
            cause,
        ),
    }
}

/// The path of the stat file of a process.
pub open spec fn stat_path(pid: u32) -> Seq<char> {
    "/proc/"@ + text::decimal(pid as nat) + "/stat"@
}

/// Whether a process is the one that now has its number, whose stat file reads as given; nothing
/// could be read where it is `None`.
pub open spec fn alive(identity: ProcessIdentity, stat: Option<Seq<char>>) -> bool {
    stat matches Some(stat) && start_time(stat) == Ok::<u64, StatFaultView>(
        identity.start_time_ticks,
    )
}

impl StatFault {
    /// The fault in words.
    pub fn message(&self) -> (message: String)
        ensures
            message@ == fault_message(self@),
    {
        match self {
            StatFault::MissingTerminator => String::from_str(
                "Malformed /proc stat: missing process-name terminator",
            ),
            StatFault::MissingStartTime => String::from_str(
                "Malformed /proc stat: missing process start time",
            ),
            StatFault::MalformedStartTime { cause } => text::with_cause(
                "Malformed /proc stat process start time",
                cause.as_str(),
            ),
        }
    }
}

/// The path of the stat file of a process.
pub fn process_stat_path(pid: u32) -> (path: String)
    ensures
        path@ == stat_path(pid),
{
    let mut path = String::from_str("/proc/");
    path.append(text::decimal_text(pid as u64).as_str());
    path.append("/stat");
    path
}

/// Identifies the process that has a number, given the text of its stat file.
pub fn process_identity(pid: u32, stat: &str) -> (identity: Result<ProcessIdentity, StatFault>)
    ensures
        match identity {
            Ok(identity) => identity.pid == pid && start_time(stat@) == Ok::<u64, StatFaultView>(
                identity.start_time_ticks,
            ),
            Err(fault) => start_time(stat@) == Err::<u64, StatFaultView>(fault@),
        },
{
    let rest = match text::after_last(stat, ')') {
        Some(rest) => rest,
        None => return Err(StatFault::MissingTerminator),
    };
    let fields = text::split_words(rest);
    proof {
        assert(fields@.map_values(|word: String| word@).len() == fields@.len());
    }
    if fields.len() <= START_TIME_FIELD {
        return Err(StatFault::MissingStartTime);
    }
    assert(fields@.map_values(|word: String| word@)[START_TIME_FIELD as int]
        == fields@[START_TIME_FIELD as int]@);
    match text::parse_unsigned(fields[START_TIME_FIELD].as_str()) {
        Ok(start_time_ticks) => Ok(ProcessIdentity { pid, start_time_ticks }),
        Err(cause) => Err(StatFault::MalformedStartTime { cause }),
    }
}

/// Whether a process is the one that now has its number. The text of that number's stat file is
/// `None` where it could not be read.
pub fn identity_is_alive(identity: &ProcessIdentity, stat: Option<&str>) -> (answer: bool)
    ensures
        answer == alive(
            *identity,
            match stat {
                Some(stat) => Some(stat@),
                None => None,
            },
        ),
{
    match stat {
        Some(stat) => match process_identity(identity.pid, stat) {
            Ok(current) => current.start_time_ticks == identity.start_time_ticks,
            Err(_) => false,
        },
        None => false,
    }
}

/// Of all the processes that ever have a number, a stat file speaks for one at most.
pub proof fn law_pid_reuse_is_seen(a: ProcessIdentity, b: ProcessIdentity, stat: Option<Seq<char>>)
    requires
        a.pid == b.pid,
        alive(a, stat),
        alive(b, stat),
    ensures
        a == b,
{
}

/// A stat file without a closing parenthesis names no start time.
pub proof fn law_stat_needs_the_end_of_the_name(stat: Seq<char>)
    requires
        !stat.contains(')'),
    ensures
        start_time(stat) == Err::<u64, StatFaultView>(StatFaultView::MissingTerminator),
{
    stat.index_of_last_ensures(')');
}

/// Whatever stands before the last closing parenthesis, the start time is the twentieth word
/// after it, where there is one and it is a number; else the fault says which of the two it is.
pub proof fn law_start_time_is_the_twentieth_word(before: Seq<char>, after: Seq<char>)
    requires
        !after.contains(')'),
    ensures
        ({
            let found = start_time(before + seq![')'] + after);
            let words = text::words(after);
            &&& words.len() < 20 ==> found == Err::<u64, StatFaultView>(
                StatFaultView::MissingStartTime,
            )
            &&& words.len() >= 20 ==> match text::unsigned_value(words[19]) {
                Some(ticks) => found == Ok::<u64, StatFaultView>(ticks),
                None => found == Err::<u64, StatFaultView>(
                    StatFaultView::MalformedStartTime { cause: text::unsigned_fault(words[19]) },
                ),
            }
        }),
{
    let stat = before + seq![')'] + after;
    let end = before.len() as int;
    stat.index_of_last_ensures(')');
    assert(stat[end] == ')');
    assert(stat.contains(')'));
    let last = stat.index_of_last(')')->0;
    if last > end {
        assert(after[last - end - 1] == ')');
        assert(after.contains(')'));
    }
    assert(last == end);
    assert(stat.skip(end + 1) =~= after);
}

/// A process is alive exactly where the stat file of its number can be read and gives its start
/// time.
pub proof fn law_alive_means_started_when_it_started(
    identity: ProcessIdentity,
    stat: Option<Seq<char>>,
)
    ensures
        alive(identity, stat) <==> {
            &&& stat is Some
            &&& start_time(stat->0) is Ok
            &&& start_time(stat->0)->Ok_0 == identity.start_time_ticks
        },
{
}

/// The path of a stat file holds the process number between its fixed ends.
pub proof fn law_stat_path_names_the_process(pid: u32)
    ensures
        ({
            let path = stat_path(pid);
            &&& path.take(6) == "/proc/"@
            &&& path.skip(path.len() - 5) == "/stat"@
            &&& text::unsigned_value(path.subrange(6, path.len() - 5)) == Some(pid as u64)
        }),
{
    reveal_strlit("/proc/");
    reveal_strlit("/stat");
    let path = stat_path(pid);
    text::law_decimal_reads_back(pid as u64);
    assert(path.take(6) =~= "/proc/"@);
    assert(path.skip(path.len() - 5) =~= "/stat"@);
    assert(path.subrange(6, path.len() - 5) =~= text::decimal(pid as nat));
}

/// Each fault has words of its own; the one with a cause ends in it.
pub proof fn law_faults_say_what_is_wrong(cause: Seq<char>)
    ensures
        fault_message(StatFaultView::MissingTerminator)
            == "Malformed /proc stat: missing process-name terminator"@,
        fault_message(StatFaultView::MissingStartTime)
            == "Malformed /proc stat: missing process start time"@,
        fault_message(StatFaultView::MalformedStartTime { cause })
            == "Malformed /proc stat process start time: "@ + cause,
{
    reveal_strlit("Malformed /proc stat process start time");
    reveal_strlit("Malformed /proc stat process start time: ");
    reveal_strlit(": ");
    assert(fault_message(StatFaultView::MalformedStartTime { cause })
        =~= "Malformed /proc stat process start time: "@ + cause);
}

/// What is seen of a fault is the fault itself.
pub proof fn law_faults_are_seen_as_they_are(fault: StatFault)
    ensures
        fault is MissingTerminator <==> fault@ is MissingTerminator,
        fault is MissingStartTime <==> fault@ is MissingStartTime,
        fault matches StatFault::MalformedStartTime { cause } ==> fault@
            == (StatFaultView::MalformedStartTime { cause: cause@ }),
{
}

} // verus!
