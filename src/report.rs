//! Log records, and what each external command's outcome reports.
use vstd::prelude::*;

verus! {

/// The levels a log record can have, least severe first.
#[derive(Clone, Copy, Debug, PartialEq, Eq, Structural)]
pub enum LogLevel {
    Debug,
    Info,
    Error,
}

pub open spec fn level_rank(l: LogLevel) -> nat {
    match l {
        LogLevel::Debug => 0,
        LogLevel::Info => 1,
        LogLevel::Error => 2,
    }
}

/// One line for the log sink.
#[derive(Clone, Debug, PartialEq, Eq)]
pub struct LogRecord {
    pub level: LogLevel,
    pub text: String,
}

impl View for LogRecord {
    type V = (LogLevel, Seq<char>);

    open spec fn view(&self) -> (LogLevel, Seq<char>) {
        (self.level, self.text@)
    }
}

pub open spec fn records_view(v: Seq<LogRecord>) -> Seq<(LogLevel, Seq<char>)> {
    v.map_values(|r: LogRecord| r@)
}

/// Which records the log sink lets through, chosen once at the entry point.
#[derive(Clone, Copy, Debug, PartialEq, Eq, Structural)]
pub struct LogConfig {
    pub min_level: LogLevel,
}

impl LogConfig {
    /// Debug builds log from `Debug` up, release builds from `Info` up.
    pub fn for_build(debug_build: bool) -> (r: LogConfig)
        ensures
            r.min_level == (if debug_build { LogLevel::Debug } else { LogLevel::Info }),
    {
        if debug_build {
            LogConfig { min_level: LogLevel::Debug }
        } else {
            LogConfig { min_level: LogLevel::Info }
        }
    }

    /// Whether a record of `level` is let through.
    pub fn enabled(&self, level: LogLevel) -> (r: bool)
        ensures
            r == (level_rank(level) >= level_rank(self.min_level)),
    {
        rank(level) >= rank(self.min_level)
    }
}

fn rank(l: LogLevel) -> (n: u8)
    ensures
        n as nat == level_rank(l),
{
    match l {
        LogLevel::Debug => 0,
        LogLevel::Info => 1,
        LogLevel::Error => 2,
    }
}

/// What one run of an external command gave back.
#[derive(Clone, Debug, PartialEq, Eq)]
pub struct CommandResult {
    /// Whether the exit status reports success.
    pub succeeded: bool,
    /// The exit status as the platform renders it.
    pub status: String,
    pub stdout: String,
    pub stderr: String,
}

/// The records that a command's outcome gives: one info line naming `label`
/// on success; otherwise an error line with the status, then stderr and
/// stdout each on an error line of its own when not empty.
pub open spec fn outcome_records(
    succeeded: bool,
    status: Seq<char>,
    stdout: Seq<char>,
    stderr: Seq<char>,
    label: Seq<char>,
) -> Seq<(LogLevel, Seq<char>)> {
    if succeeded {
        seq![(LogLevel::Info, "PowerShell command executed successfully "@ + label)]
    } else {
        seq![(LogLevel::Error, "PowerShell command failed with exit code "@ + status)] + (if stderr.len()
            > 0 {
            seq![(LogLevel::Error, "PowerShell stderr: "@ + stderr)]
        } else {
            Seq::empty()
        }) + (if stdout.len() > 0 {
            seq![(LogLevel::Error, "PowerShell stdout: "@ + stdout)]
        } else {
            Seq::empty()
        })
    }
}

/// `a` followed by `b`, as a new string.
pub fn joined(a: &str, b: &str) -> (r: String)
    ensures
        r@ == a@ + b@,
{
    let mut r = String::from_str(a);
    r.append(b);
    r
}

/// The log records for the outcome `res` of the command described by `label`.
pub fn classify(res: &CommandResult, label: &str) -> (r: Vec<LogRecord>)
    ensures
        records_view(r@) == outcome_records(
            res.succeeded,
            res.status@,
            res.stdout@,
            res.stderr@,
            label@,
        ),
{
    let mut r: Vec<LogRecord> = Vec::new();
    if res.succeeded {
        r.push(
            LogRecord {
                level: LogLevel::Info,
                text: joined("PowerShell command executed successfully ", label),
            },
        );
    } else {
        r.push(
            LogRecord {
                level: LogLevel::Error,
                text: joined("PowerShell command failed with exit code ", res.status.as_str()),
            },
        );
        if res.stderr.as_str().unicode_len() > 0 {
            r.push(
                LogRecord {
                    level: LogLevel::Error,
                    text: joined("PowerShell stderr: ", res.stderr.as_str()),
                },
            );
        }
        if res.stdout.as_str().unicode_len() > 0 {
            r.push(
                LogRecord {
                    level: LogLevel::Error,
                    text: joined("PowerShell stdout: ", res.stdout.as_str()),
                },
            );
        }
    }
    assert(records_view(r@) =~= outcome_records(
        res.succeeded,
        res.status@,
        res.stdout@,
        res.stderr@,
        label@,
    ));
    r
}

} // verus!
