//! Audit records, and the identity that stamps each of them.

use vstd::prelude::*;
use crate::common::{GenerationError, get_time};
use crate::process::{find_process, new_system, process_cmd, process_name, refresh_processes};
use crate::text::{decimal, decimal_text, joined_text};

verus! {

/// One informational audit record. All columns are text; columns that do
/// not apply to the kind of event are empty.
#[derive(Debug)]
pub struct Log {
    pub t: String,
    pub timestamp: String,
    pub username: String,
    pub proc_name: String,
    pub proc_cmd: String,
    pub proc_id: String,
    pub activity: String,
    pub file_path: String,
    pub source_addr: String,
    pub source_port: String,
    pub dest_addr: String,
    pub dest_port: String,
    pub bytes_sent: String,
    pub protocol: String,
}

/// One error audit record.
#[derive(Debug)]
pub struct LogError {
    pub t: String,
    pub timestamp: String,
    pub message: String,
}

/// The type column of every informational record.
pub open spec fn information() -> Seq<char> {
    "Information"@
}

/// The network columns of `l` are all empty.
pub open spec fn no_network(l: &Log) -> bool {
    &&& l.source_addr@.len() == 0
    &&& l.source_port@.len() == 0
    &&& l.dest_addr@.len() == 0
    &&& l.dest_port@.len() == 0
    &&& l.bytes_sent@.len() == 0
    &&& l.protocol@.len() == 0
}

fn empty() -> (r: String)
    ensures
        r@.len() == 0,
{
    String::new()
}

fn information_text() -> (r: String)
    ensures
        r@ == information(),
{
    String::from_str("Information")
}

/// The record of a file operation on `file_path`, stamped with the current time.
pub fn adapt_log_file(activity: String, file_path: String) -> (r: Log)
    ensures
        r.t@ == information(),
        r.activity@ == activity@,
        r.file_path@ == file_path@,
        r.username@.len() == 0,
        r.proc_name@.len() == 0,
        r.proc_cmd@.len() == 0,
        r.proc_id@.len() == 0,
        no_network(&r),
{
    Log {
        t: information_text(),
        timestamp: get_time(),
        username: empty(),
        proc_name: empty(),
        proc_cmd: empty(),
        proc_id: empty(),
        activity,
        file_path,
        source_addr: empty(),
        source_port: empty(),
        dest_addr: empty(),
        dest_port: empty(),
        bytes_sent: empty(),
        protocol: empty(),
    }
}

/// The record of a process event; `timestamp` is the process's start time
/// in seconds since the Unix epoch and stands in the record as decimal text.
pub fn adapt_log_process(
    activity: String,
    timestamp: u64,
    proc_name: String,
    proc_cmd: String,
    proc_id: String,
) -> (r: Log)
    ensures
        r.t@ == information(),
        r.timestamp@ == decimal(timestamp as nat),
        r.username@.len() == 0,
        r.proc_name@ == proc_name@,
        r.proc_cmd@ == proc_cmd@,
        r.proc_id@ == proc_id@,
        r.activity@ == activity@,
        r.file_path@.len() == 0,
        no_network(&r),
{
    Log {
        t: information_text(),
        timestamp: decimal_text(timestamp),
        username: empty(),
        proc_name,
        proc_cmd,
        proc_id,
        activity,
        file_path: empty(),
        source_addr: empty(),
        source_port: empty(),
        dest_addr: empty(),
        dest_port: empty(),
        bytes_sent: empty(),
        protocol: empty(),
    }
}

/// The record of a network send from `source_addr:source_port` to
/// `dest_addr:dest_port` of `bytes_sent` bytes over `protocol`, stamped with
/// the current time.
pub fn adapt_log_network(
    activity: String,
    source_addr: String,
    source_port: u16,
    dest_addr: String,
    dest_port: u16,
    bytes_sent: usize,
    protocol: String,
) -> (r: Log)
    ensures
        r.t@ == information(),
        r.activity@ == activity@,
        r.username@.len() == 0,
        r.proc_name@.len() == 0,
        r.proc_cmd@.len() == 0,
        r.proc_id@.len() == 0,
        r.file_path@.len() == 0,
        r.source_addr@ == source_addr@,
        r.source_port@ == decimal(source_port as nat),
        r.dest_addr@ == dest_addr@,
        r.dest_port@ == decimal(dest_port as nat),
        r.bytes_sent@ == decimal(bytes_sent as nat),
        r.protocol@ == protocol@,
{
    Log {
        t: information_text(),
        timestamp: get_time(),
        username: empty(),
        proc_name: empty(),
        proc_cmd: empty(),
        proc_id: empty(),
        activity,
        file_path: empty(),
        source_addr,
        source_port: decimal_text(source_port as u64),
        dest_addr,
        dest_port: decimal_text(dest_port as u64),
        bytes_sent: decimal_text(bytes_sent as u64),
        protocol,
    }
}

/// The record of a completed pause of `millis` milliseconds, stamped with
/// the current time.
pub fn adapt_log_pause(millis: u64) -> (r: Log)
    ensures
        r.t@ == information(),
        r.activity@ == "Pause "@ + decimal(millis as nat) + " ms"@,
        r.username@.len() == 0,
        r.proc_name@.len() == 0,
        r.proc_cmd@.len() == 0,
        r.proc_id@.len() == 0,
        r.file_path@.len() == 0,
        no_network(&r),
{
    Log {
        t: information_text(),
        timestamp: get_time(),
        username: empty(),
        proc_name: empty(),
        proc_cmd: empty(),
        proc_id: empty(),
        activity: String::from_str("Pause ").concat(decimal_text(millis).as_str()).concat(" ms"),
        file_path: empty(),
        source_addr: empty(),
        source_port: empty(),
        dest_addr: empty(),
        dest_port: empty(),
        bytes_sent: empty(),
        protocol: empty(),
    }
}

/// `given` unless it is empty, in which case `fallback`.
pub open spec fn or_default(given: Seq<char>, fallback: Seq<char>) -> Seq<char> {
    if given.len() == 0 {
        fallback
    } else {
        given
    }
}

/// The message column of an error record: `<kind>: <message>`.
pub open spec fn error_message(kind: Seq<char>, message: Seq<char>) -> Seq<char> {
    kind + ": "@ + message
}

/// `r` is `data` completed with the identity of `logger`: the username is
/// the generator's, empty process columns take the generator's own, and
/// every other column is kept.
pub open spec fn stamped(r: Log, data: Log, logger: Logger) -> bool {
    &&& r.username@ == logger.username@
    &&& r.proc_name@ == or_default(data.proc_name@, logger.proc_name@)
    &&& r.proc_cmd@ == or_default(data.proc_cmd@, logger.proc_cmd@)
    &&& r.proc_id@ == or_default(data.proc_id@, logger.proc_id@)
    &&& r.t == data.t
    &&& r.timestamp == data.timestamp
    &&& r.activity == data.activity
    &&& r.file_path == data.file_path
    &&& r.source_addr == data.source_addr
    &&& r.source_port == data.source_port
    &&& r.dest_addr == data.dest_addr
    &&& r.dest_port == data.dest_port
    &&& r.bytes_sent == data.bytes_sent
    &&& r.protocol == data.protocol
}

/// The identity of the generator's own process, stamped on every record:
/// the user it runs as, and its name, command line and id.
#[derive(Clone, Debug)]
pub struct Logger {
    pub username: String,
    pub proc_name: String,
    pub proc_cmd: String,
    pub proc_id: String,
}

fn pick(given: String, fallback: &String) -> (r: String)
    ensures
        r@ == or_default(given@, fallback@),
{
    if given.unicode_len() == 0 {
        fallback.clone()
    } else {
        given
    }
}

/// Relies on whoami::username: the name of the user the generator runs as.
#[verifier::external_body]
fn current_username() -> String {
    whoami::username()
}

/// A file action of the dispatcher.
#[derive(PartialEq, Eq, Structural, Clone, Copy, Debug)]
pub enum FileOp {
    Create,
    Modify,
    Delete,
}

/// The activity text recorded for a file action.
pub open spec fn file_activity(op: FileOp) -> Seq<char> {
    match op {
        FileOp::Create => "New File"@,
        FileOp::Modify => "Modify File"@,
        FileOp::Delete => "Delete File"@,
    }
}

/// The record of a completed file action on `file_path`.
pub fn file_event(op: FileOp, file_path: String) -> (r: Log)
    ensures
        r.t@ == information(),
        r.activity@ == file_activity(op),
        r.file_path@ == file_path@,
        no_network(&r),
{
    let activity = match op {
        FileOp::Create => String::from_str("New File"),
        FileOp::Modify => String::from_str("Modify File"),
        FileOp::Delete => String::from_str("Delete File"),
    };
    adapt_log_file(activity, file_path)
}

impl Logger {
    /// The identity of the process `proc_id`, which is the generator's own:
    /// its user, and its name and command line as the process table lists
    /// them (empty if it is not listed).
    pub fn new(proc_id: u32) -> (r: Logger)
        ensures
            r.proc_id@ == decimal(proc_id as nat),
    {
        let mut system = new_system();
        refresh_processes(&mut system);
        let mut proc_name = String::new();
        let mut proc_cmd = String::new();
        let pid = proc_id as usize;
        if pid <= 0x7fff_ffff {
            match find_process(&system, pid) {
                Some(process) => {
                    proc_name = process_name(process);
                    proc_cmd = joined_text(&process_cmd(process), " ");
                },
                None => {},
            }
        }
        Logger { username: current_username(), proc_name, proc_cmd, proc_id: decimal_text(proc_id as u64) }
    }

    /// Completes an informational record: the username is always the
    /// generator's; process columns left empty take the generator's own.
    pub fn log_event(&self, data: Log) -> (r: Log)
        ensures
            stamped(r, data, *self),
    {
        Log {
            t: data.t,
            timestamp: data.timestamp,
            username: self.username.clone(),
            proc_name: pick(data.proc_name, &self.proc_name),
            proc_cmd: pick(data.proc_cmd, &self.proc_cmd),
            proc_id: pick(data.proc_id, &self.proc_id),
            activity: data.activity,
            file_path: data.file_path,
            source_addr: data.source_addr,
            source_port: data.source_port,
            dest_addr: data.dest_addr,
            dest_port: data.dest_port,
            bytes_sent: data.bytes_sent,
            protocol: data.protocol,
        }
    }

    /// The error record of `data`, stamped with the current time.
    pub fn log_error(&self, data: &GenerationError) -> (r: LogError)
        ensures
            r.t@ == "Error"@,
            r.message@ == error_message(data.kind@, data.message@),
    {
        let message = data.kind.clone().concat(": ").concat(data.message.as_str());
        LogError { t: String::from_str("Error"), timestamp: get_time(), message }
    }
}

} // verus!
