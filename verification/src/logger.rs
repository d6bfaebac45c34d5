//! The diagnostic log: where lines go and what a line looks like.
//!
//! Every line is written to two places, so that the log survives a primary
//! location that is missing or cannot be written. The caller attempts each
//! write on its own and ignores its failure: a write that fails never keeps a
//! later one from being attempted, and logging never fails its caller.

use vstd::prelude::*;

verus! {

/// A log file, as a root directory and the path below it.
pub struct LogDestination {
    /// The directory that the operating system provides.
    pub root: String,
    /// The path below the root, one component after the other; the last one
    /// is the file, the others are directories to create as needed.
    pub segments: Vec<String>,
}

/// One write to attempt.
pub struct LogWrite {
    pub destination: LogDestination,
    /// The text to append, line terminator included.
    pub line: String,
}

/// A destination as plain values.
pub struct LogDestinationView {
    pub root: Seq<char>,
    pub segments: Seq<Seq<char>>,
}

impl View for LogDestination {
    type V = LogDestinationView;

    open spec fn view(&self) -> LogDestinationView {
        LogDestinationView {
            root: self.root@,
            segments: self.segments@.map_values(|segment: String| segment@),
        }
    }
}

/// The file under the per-application data directory.
pub open spec fn app_data_log(local_app_data: Seq<char>) -> LogDestinationView {
    LogDestinationView {
        root: local_app_data,
        segments: seq!["ChronosInventory"@, "logs"@, "tauri.log"@],
    }
}

/// The file under the temporary directory.
pub open spec fn temp_log(temp_dir: Seq<char>) -> LogDestinationView {
    LogDestinationView { root: temp_dir, segments: seq!["chronos_inventory_tauri.log"@] }
}

/// The primary destination: under the per-application data directory where
/// that is known, else the file under the temporary directory.
pub open spec fn primary_log(local_app_data: Option<Seq<char>>, temp_dir: Seq<char>)
    -> LogDestinationView {
    match local_app_data {
        Some(base) => app_data_log(base),
        None => temp_log(temp_dir),
    }
}

/// A log line: the time, a space, the message, and a line terminator.
pub open spec fn log_line_text(timestamp: Seq<char>, message: Seq<char>) -> Seq<char> {
    timestamp + " "@ + message + "\n"@
}

fn temp_destination(temp_dir: &str) -> (destination: LogDestination)
    ensures
        destination@ == temp_log(temp_dir@),
{
    let mut segments: Vec<String> = Vec::new();
    segments.push(String::from_str("chronos_inventory_tauri.log"));
    let destination = LogDestination { root: String::from_str(temp_dir), segments };
    assert(destination@.segments =~= temp_log(temp_dir@).segments);
    destination
}

/// The primary log destination.
pub fn log_path(local_app_data: Option<&str>, temp_dir: &str) -> (destination: LogDestination)
    ensures
        destination@ == primary_log(
            match local_app_data {
                Some(base) => Some(base@),
                None => None,
            },
            temp_dir@,
        ),
{
    match local_app_data {
        Some(base) => {
            let mut segments: Vec<String> = Vec::new();
            segments.push(String::from_str("ChronosInventory"));
            segments.push(String::from_str("logs"));
            segments.push(String::from_str("tauri.log"));
            let destination = LogDestination { root: String::from_str(base), segments };
            assert(destination@.segments =~= app_data_log(base@).segments);
            destination
        },
        None => temp_destination(temp_dir),
    }
}

/// Formats one log line.
pub fn format_line(timestamp: &str, message: &str) -> (line: String)
    ensures
        line@ == log_line_text(timestamp@, message@),
{
    let mut line = String::from_str(timestamp);
    line.append(" ");
    line.append(message);
    line.append("\n");
    line
}

/// Plans the logging of one message: the same line goes to the primary
/// destination first and to the file under the temporary directory second.
/// Each write is to be attempted whatever became of the other.
pub fn log_line(timestamp: &str, message: &str, local_app_data: Option<&str>, temp_dir: &str)
    -> (writes: Vec<LogWrite>)
    ensures
        writes@.len() == 2,
        writes@[0].destination@ == primary_log(
            match local_app_data {
                Some(base) => Some(base@),
                None => None,
            },
            temp_dir@,
        ),
        writes@[1].destination@ == temp_log(temp_dir@),
        writes@[0].line@ == log_line_text(timestamp@, message@),
        writes@[1].line@ == log_line_text(timestamp@, message@),
{
    let mut writes: Vec<LogWrite> = Vec::new();
    writes.push(
        LogWrite {
            destination: log_path(local_app_data, temp_dir),
            line: format_line(timestamp, message),
        },
    );
    writes.push(
        LogWrite {
            destination: temp_destination(temp_dir),
            line: format_line(timestamp, message),
        },
    );
    writes
}

/// The write that follows write `index` of `total`, if any. The outcome of
/// write `index` plays no part in it.
pub open spec fn following_write(index: usize, total: usize) -> Option<usize> {
    if index + 1 < total {
        Some((index + 1) as usize)
    } else {
        None
    }
}

/// Says which write to attempt after write `index` of a plan of `total`
/// writes has been attempted, successfully or not. A failed write is skipped
/// silently: it is not retried, it is not reported, and the writes after it
/// are attempted all the same.
#[allow(unused_variables)]
pub fn next_write(index: usize, total: usize, succeeded: bool) -> (next: Option<usize>)
    ensures
        next == following_write(index, total),
{
    if index < total && index + 1 < total {
        Some(index + 1)
    } else {
        None
    }
}

/// The line that records a fault of the supervisor itself.
pub open spec fn panic_line_text(info: Seq<char>) -> Seq<char> {
    "panic: "@ + info
}

/// The line to log when the supervisor itself has met an unexpected fault.
pub fn panic_line(info: &str) -> (line: String)
    ensures
        line@ == panic_line_text(info@),
{
    let mut line = String::from_str("panic: ");
    line.append(info);
    line
}

/// Logging is best effort towards each destination on its own: in the plan
/// of two writes the fallback follows the primary whether the primary write
/// failed or not, nothing follows the fallback, and the fallback lies under
/// the temporary directory whatever the primary destination is.
pub proof fn law_fallback_is_independent(
    local_app_data: Option<Seq<char>>,
    temp_dir: Seq<char>,
)
    ensures
        following_write(0, 2) == Some(1usize),
        following_write(1, 2) is None,
        temp_log(temp_dir).root == temp_dir,
        local_app_data is None ==> primary_log(local_app_data, temp_dir) == temp_log(temp_dir),
        local_app_data matches Some(base) ==> primary_log(local_app_data, temp_dir)
            == app_data_log(base),
{
}

} // verus!
