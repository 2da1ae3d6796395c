//! Showing the log as it is written: which file to follow, and with which commands to open
//! a terminal window on it.
use vstd::prelude::*;
use vstd::string::*;

use crate::text;

verus! {

/// A file in the log directory.
#[derive(Debug)]
pub struct LogEntry {
    pub name: String,
    /// When the file was last modified, in nanoseconds since the Unix epoch, if known.
    pub modified: Option<i128>,
    pub path: String,
}

impl LogEntry {
    /// Whether the file is a log of this service with a known time of modification.
    pub open spec fn is_log(self) -> bool {
        "cam-stream.log"@.is_prefix_of(self.name@) && self.modified is Some
    }
}

/// Whether entry `k` is the log that was modified last, and the first of those.
pub open spec fn is_latest(entries: Seq<LogEntry>, k: int) -> bool {
    &&& 0 <= k < entries.len()
    &&& entries[k].is_log()
    &&& forall|j: int|
        0 <= j < entries.len() && (#[trigger] entries[j]).is_log() ==> {
            &&& entries[j].modified->0 <= entries[k].modified->0
            &&& j < k ==> entries[j].modified->0 < entries[k].modified->0
        }
}

/// Whether any entry is a log.
pub open spec fn has_log(entries: Seq<LogEntry>) -> bool {
    exists|j: int| 0 <= j < entries.len() && (#[trigger] entries[j]).is_log()
}

/// The place of the log that was modified last, if there is any log.
pub fn latest_log_file(entries: &Vec<LogEntry>) -> (r: Option<usize>)
    ensures
        match r {
            Some(k) => is_latest(entries@, k as int),
            None => !has_log(entries@),
        },
{
    let mut latest: Option<(i128, usize)> = None;
    let mut i: usize = 0;
    while i < entries.len()
        invariant
            i <= entries.len(),
            match latest {
                Some((time, k)) => {
                    &&& k < i
                    &&& is_latest(entries@.take(i as int), k as int)
                    &&& entries[k as int].modified == Some(time)
                },
                None => !has_log(entries@.take(i as int)),
            },
        decreases entries.len() - i,
    {
        let entry: &LogEntry = &entries[i];
        let ghost before = entries@.take(i as int);
        let ghost after = entries@.take(i + 1);
        assert(forall|j: int| 0 <= j < i ==> #[trigger] after[j] == before[j]);
        assert(after[i as int] == *entry);
        let ghost earlier = latest;
        if text::starts_with(entry.name.as_str(), "cam-stream.log") {
            if let Some(time) = entry.modified {
                let newer: bool = match latest {
                    None => true,
                    Some((prev, _)) => time > prev,
                };
                if newer {
                    latest = Some((time, i));
                }
            }
        }
        proof {
            assert forall|j: int| 0 <= j < i && (#[trigger] after[j]).is_log() implies has_log(
                before,
            ) by {
                assert(before[j].is_log());
            }
            if let Some((_, k)) = earlier {
                assert(before[k as int].is_log());
                assert forall|j: int| 0 <= j < i && (#[trigger] after[j]).is_log() implies
                    before[j].is_log() by {}
            }
        }
        i += 1;
    }
    assert(entries@.take(i as int) =~= entries@);
    match latest {
        Some((_, k)) => Some(k),
        None => None,
    }
}

/// A program to start, and its arguments.
#[derive(Debug)]
pub struct Launch {
    pub program: &'static str,
    pub args: Vec<String>,
}

/// The PowerShell command that shows the last lines of a file and then follows it, in UTF-8.
pub open spec fn follow_command(path: Seq<char>) -> Seq<char> {
    "[Console]::OutputEncoding=[System.Text.Encoding]::UTF8; Get-Content -Wait -Tail 200 -Encoding UTF8 -Path '"@
        + path + "'"@
}

/// The PowerShell command that follows a file.
pub fn follow_file(path: &str) -> (r: String)
    ensures
        r@ == follow_command(path@),
{
    let mut out: String =
        "[Console]::OutputEncoding=[System.Text.Encoding]::UTF8; Get-Content -Wait -Tail 200 -Encoding UTF8 -Path '".to_owned();
    out.append(path);
    out.append("'");
    out
}

/// Whether a launch runs the command in Windows Terminal.
pub open spec fn is_wt(launch: Launch, command: Seq<char>) -> bool {
    &&& launch.program@ == "wt.exe"@
    &&& text::texts(launch.args@) == seq![
        "-d"@,
        "."@,
        "powershell.exe"@,
        "-NoExit"@,
        "-Command"@,
        command,
    ]
}

/// Whether a launch runs the command in a PowerShell window.
pub open spec fn is_powershell(launch: Launch, command: Seq<char>) -> bool {
    &&& launch.program@ == "powershell.exe"@
    &&& text::texts(launch.args@) == seq!["-NoExit"@, "-Command"@, command]
}

/// Runs a PowerShell command in Windows Terminal.
pub fn try_wt(command: &str) -> (r: Launch)
    ensures
        is_wt(r, command@),
{
    let mut args: Vec<String> = Vec::new();
    args.push("-d".to_owned());
    args.push(".".to_owned());
    args.push("powershell.exe".to_owned());
    args.push("-NoExit".to_owned());
    args.push("-Command".to_owned());
    args.push(command.to_owned());
    assert(text::texts(args@) =~= seq![
        "-d"@,
        "."@,
        "powershell.exe"@,
        "-NoExit"@,
        "-Command"@,
        command@,
    ]);
    Launch { program: "wt.exe", args }
}

/// Runs a PowerShell command in a window of its own.
pub fn try_powershell(command: &str) -> (r: Launch)
    ensures
        is_powershell(r, command@),
{
    let mut args: Vec<String> = Vec::new();
    args.push("-NoExit".to_owned());
    args.push("-Command".to_owned());
    args.push(command.to_owned());
    assert(text::texts(args@) =~= seq!["-NoExit"@, "-Command"@, command@]);
    Launch { program: "powershell.exe", args }
}

/// A window that is to be opened on a log.
#[derive(Debug)]
pub struct LogWindow {
    /// The place of the log among the entries.
    pub entry: usize,
    pub terminal: Launch,
    /// What to start if the terminal cannot be started.
    pub fallback: Launch,
}

/// Plans the window on the latest log. There is none to open if the directory could not be
/// read, or holds no log.
pub fn open(entries: &Option<Vec<LogEntry>>) -> (r: Option<LogWindow>)
    ensures
        match r {
            Some(window) => entries matches Some(list) && {
                &&& is_latest(list@, window.entry as int)
                &&& is_wt(window.terminal, follow_command(list@[window.entry as int].path@))
                &&& is_powershell(
                    window.fallback,
                    follow_command(list@[window.entry as int].path@),
                )
            },
            None => entries matches Some(list) ==> !has_log(list@),
        },
{
    match entries {
        None => None,
        Some(list) => match latest_log_file(list) {
            None => None,
            Some(entry) => {
                let command: String = follow_file(list[entry].path.as_str());
                Some(
                    LogWindow {
                        entry,
                        terminal: try_wt(command.as_str()),
                        fallback: try_powershell(command.as_str()),
                    },
                )
            },
        },
    }
}

/// Which of the two programs was started.
#[derive(Clone, Copy, Debug, PartialEq, Eq, Structural)]
pub enum Attempt {
    Terminal,
    Fallback,
}

/// What to do after an attempt to start a program.
#[derive(Clone, Copy, Debug, PartialEq, Eq, Structural)]
pub enum AfterAttempt {
    /// The window is open.
    Opened,
    /// Start the fallback.
    TryFallback,
    /// Give up, with the error of this attempt.
    Failed,
}

/// What to do after an attempt: the fallback is tried if, and only if, the terminal could
/// not be started.
pub fn after_attempt(attempt: Attempt, started: bool) -> (r: AfterAttempt)
    ensures
        started ==> r is Opened,
        !started && attempt is Terminal ==> r is TryFallback,
        !started && attempt is Fallback ==> r is Failed,
{
    if started {
        AfterAttempt::Opened
    } else {
        match attempt {
            Attempt::Terminal => AfterAttempt::TryFallback,
            Attempt::Fallback => AfterAttempt::Failed,
        }
    }
}

/// A log directory has one latest log at most.
pub proof fn latest_is_unique(entries: Seq<LogEntry>, a: int, b: int)
    requires
        is_latest(entries, a),
        is_latest(entries, b),
    ensures
        a == b,
{
}

/// Files that are not logs have no part in which log is the latest: adding one at the end
/// changes nothing.
pub proof fn other_files_are_ignored(entries: Seq<LogEntry>, other: LogEntry, k: int)
    requires
        !other.is_log(),
    ensures
        is_latest(entries.push(other), k) <==> is_latest(entries, k),
{
    let more = entries.push(other);
    assert forall|j: int| 0 <= j < entries.len() implies #[trigger] more[j] == entries[j] by {}
    if is_latest(more, k) {
        assert forall|j: int| 0 <= j < entries.len() && (#[trigger] entries[j]).is_log() implies {
            &&& entries[j].modified->0 <= entries[k].modified->0
            &&& j < k ==> entries[j].modified->0 < entries[k].modified->0
        } by {
            assert(more[j].is_log());
        }
    }
}

/// The log to show: a file whose name begins with that of the logs and whose time of modification
/// is known, such that none of those was modified later and no earlier one in the list as late.
/// There is none exactly if no file is like that.
pub proof fn latest_log_is_shown(entries: Vec<LogEntry>, r: Option<usize>)
    requires
        call_ensures(latest_log_file, (&entries,), r),
    ensures
        r is None <==> forall|j: int|
            0 <= j < entries@.len() ==> !("cam-stream.log"@.is_prefix_of(
                (#[trigger] entries@[j]).name@,
            ) && entries@[j].modified is Some),
        r matches Some(k) ==> {
            &&& k < entries@.len()
            &&& "cam-stream.log"@.is_prefix_of(entries@[k as int].name@)
            &&& entries@[k as int].modified matches Some(latest) && forall|j: int|
                0 <= j < entries@.len() && "cam-stream.log"@.is_prefix_of(
                    (#[trigger] entries@[j]).name@,
                ) ==> (entries@[j].modified matches Some(time) ==> time <= latest && (j < k ==> time
                    < latest))
        },
{
    assert forall|j: int| 0 <= j < entries@.len() implies (#[trigger] entries@[j]).is_log() == (
    "cam-stream.log"@.is_prefix_of(entries@[j].name@) && entries@[j].modified is Some) by {}
    if let Some(k) = r {
        assert(entries@[k as int].is_log());
        assert forall|j: int|
            0 <= j < entries@.len() && "cam-stream.log"@.is_prefix_of(
                (#[trigger] entries@[j]).name@,
            ) && entries@[j].modified is Some implies entries@[j].is_log() by {}
    } else {
        assert forall|j: int| 0 <= j < entries@.len() implies !("cam-stream.log"@.is_prefix_of(
            (#[trigger] entries@[j]).name@,
        ) && entries@[j].modified is Some) by {
            assert(!entries@[j].is_log());
        }
    }
}

/// The window that is opened shows the latest log, in the terminal and in its fallback alike: both
/// run PowerShell, which stays open and follows the file at the log's path from its last 200
/// lines. There is no window exactly if there is no log to show.
pub proof fn window_follows_the_latest_log(
    list: Vec<LogEntry>,
    latest: Option<usize>,
    r: Option<LogWindow>,
    none: Option<LogWindow>,
)
    requires
        call_ensures(latest_log_file, (&list,), latest),
        call_ensures(open, (&Some(list),), r),
        call_ensures(open, (&None::<Vec<LogEntry>>,), none),
    ensures
        none is None,
        r is None <==> latest is None,
        r matches Some(window) ==> {
            let path = list@[window.entry as int].path@;
            let command =
                "[Console]::OutputEncoding=[System.Text.Encoding]::UTF8; Get-Content -Wait -Tail 200 -Encoding UTF8 -Path '"@
                + path + "'"@;
            let wt = window.terminal.args@;
            let powershell = window.fallback.args@;
            &&& latest == Some(window.entry)
            &&& window.terminal.program@ == "wt.exe"@
            &&& wt.len() == 6
            &&& wt[0]@ == "-d"@ && wt[1]@ == "."@ && wt[2]@ == "powershell.exe"@
            &&& wt[3]@ == "-NoExit"@ && wt[4]@ == "-Command"@ && wt[5]@ == command
            &&& window.fallback.program@ == "powershell.exe"@
            &&& powershell.len() == 3
            &&& powershell[0]@ == "-NoExit"@ && powershell[1]@ == "-Command"@ && powershell[2]@
                == command
        },
{
    if let Some(k) = latest {
        assert(list@[k as int].is_log());
        if let Some(window) = r {
            latest_is_unique(list@, k as int, window.entry as int);
            let wt = text::texts(window.terminal.args@);
            let powershell = text::texts(window.fallback.args@);
            assert(wt.len() == 6 && powershell.len() == 3);
            assert forall|i: int| 0 <= i < 6 implies #[trigger] wt[i]
                == window.terminal.args@[i]@ by {}
            assert forall|i: int| 0 <= i < 3 implies #[trigger] powershell[i]
                == window.fallback.args@[i]@ by {}
            assert(wt[0] == "-d"@ && wt[1] == "."@ && wt[2] == "powershell.exe"@);
            assert(wt[3] == "-NoExit"@ && wt[4] == "-Command"@);
            assert(powershell[0] == "-NoExit"@ && powershell[1] == "-Command"@);
            assert(wt[5] == wt.last() && powershell[2] == powershell.last());
        }
    } else if let Some(window) = r {
        assert(list@[window.entry as int].is_log());
    }
}

/// A program that was started is the end of it; the fallback is tried exactly if the terminal was
/// not, and nothing after the fallback.
pub proof fn fallback_is_tried_once(attempt: Attempt, started: bool, r: AfterAttempt)
    requires
        call_ensures(after_attempt, (attempt, started), r),
    ensures
        r is Opened <==> started,
        r is TryFallback <==> !started && attempt is Terminal,
        r is Failed <==> !started && attempt is Fallback,
{
}

} // verus!
