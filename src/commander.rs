//! The action dispatcher: validates each command row, routes it to one
//! action, and counts the errors of the session.

use vstd::prelude::*;
use vstd::string::StrSliceExecFns;
use vstd::utf8::encode_utf8;
use crate::common::{GenerationError, kind_input_format, kind_network, kind_process, kind_user_permissions};
use crate::log::{Log, Logger, stamped};
use crate::network::{address_text, send_target};
use crate::process::{Launch, ProcessManager};
use crate::text::{joined, joined_text, parse_unsigned, parse_unsigned_text, spaced, spaced_text, texts};

verus! {

/// One validated action, built from a command row.
#[derive(Debug)]
pub enum Command {
    /// Spawn `path` with a space-separated argument string; rows always
    /// give one, and `None` stands for a launch without arguments.
    Process { path: String, arguments: Option<String> },
    /// Block for `millis` milliseconds.
    Pause { millis: u64 },
    /// Create the file at `path`; it must not exist yet.
    NewFile { path: String },
    /// Append one byte to the file at `path`.
    ModFile { path: String },
    /// Delete the file at `path`.
    DeleteFile { path: String },
    /// Connect to `host:port` and send `payload`.
    Connect { host: String, port: u16, payload: Vec<u8> },
    /// Send `payload` through a loopback self-test.
    ConnectSelf { payload: Vec<u8> },
}

/// The mathematical content of a `Command`.
pub enum CommandView {
    Process { path: Seq<char>, arguments: Option<Seq<char>> },
    Pause { millis: nat },
    NewFile { path: Seq<char> },
    ModFile { path: Seq<char> },
    DeleteFile { path: Seq<char> },
    Connect { host: Seq<char>, port: nat, payload: Seq<u8> },
    ConnectSelf { payload: Seq<u8> },
}

impl View for Command {
    type V = CommandView;

    open spec fn view(&self) -> CommandView {
        match self {
            Command::Process { path, arguments } => CommandView::Process {
                path: path@,
                arguments: match arguments {
                    Some(a) => Some(a@),
                    None => None,
                },
            },
            Command::Pause { millis } => CommandView::Pause { millis: *millis as nat },
            Command::NewFile { path } => CommandView::NewFile { path: path@ },
            Command::ModFile { path } => CommandView::ModFile { path: path@ },
            Command::DeleteFile { path } => CommandView::DeleteFile { path: path@ },
            Command::Connect { host, port, payload } => CommandView::Connect {
                host: host@,
                port: *port as nat,
                payload: payload@,
            },
            Command::ConnectSelf { payload } => CommandView::ConnectSelf { payload: payload@ },
        }
    }
}

/// The verb of a row: its first field, or empty text for an empty row.
pub open spec fn verb(row: Seq<Seq<char>>) -> Seq<char> {
    if row.len() > 0 {
        row[0]
    } else {
        Seq::empty()
    }
}

/// The action that a row asks for, if the row is well formed. `may_spawn`
/// tells whether spawning processes is possible at all.
pub open spec fn planned(row: Seq<Seq<char>>, may_spawn: bool) -> Option<CommandView> {
    let v = verb(row);
    if v == "process"@ {
        if may_spawn && row.len() >= 3 {
            Some(
                CommandView::Process {
                    path: row[1],
                    arguments: Some(spaced(row.subrange(2, row.len() as int))),
                },
            )
        } else {
            None
        }
    } else if v == "pause"@ {
        if row.len() >= 2 {
            match parse_unsigned(row[1], u64::MAX as nat) {
                Some(n) => Some(CommandView::Pause { millis: n }),
                None => None,
            }
        } else {
            None
        }
    } else if v == "new_file"@ || v == "mod_file"@ || v == "delete_file"@ {
        if row.len() >= 2 {
            if v == "new_file"@ {
                Some(CommandView::NewFile { path: row[1] })
            } else if v == "mod_file"@ {
                Some(CommandView::ModFile { path: row[1] })
            } else {
                Some(CommandView::DeleteFile { path: row[1] })
            }
        } else {
            None
        }
    } else if v == "connect"@ {
        if row.len() >= 4 {
            match parse_unsigned(row[2], u16::MAX as nat) {
                Some(p) => Some(
                    CommandView::Connect { host: row[1], port: p, payload: encode_utf8(row[3]) },
                ),
                None => None,
            }
        } else {
            None
        }
    } else if v == "connect_self"@ {
        if row.len() >= 2 {
            Some(CommandView::ConnectSelf { payload: encode_utf8(row[1]) })
        } else {
            None
        }
    } else {
        None
    }
}

/// The number of errors that validating a row reports: none for a
/// well-formed row, two for a `pause` row without its argument (the missing
/// field is reported, and then its parse fails too), one otherwise.
pub open spec fn plan_errors(row: Seq<Seq<char>>, may_spawn: bool) -> nat {
    if planned(row, may_spawn) is Some {
        0
    } else if verb(row) == "pause"@ && row.len() < 2 {
        2
    } else {
        1
    }
}

/// The category of every error that validating a row reports.
pub open spec fn plan_error_kind(row: Seq<Seq<char>>, may_spawn: bool) -> Seq<char> {
    if verb(row) == "process"@ && !may_spawn {
        kind_user_permissions()
    } else {
        kind_input_format()
    }
}

/// The text by which error messages name a row: its fields, comma separated
/// in brackets.
pub open spec fn row_text(row: Seq<Seq<char>>) -> Seq<char> {
    "["@ + joined(row, ", "@) + "]"@
}

/// The outcome of validating one row: the action to perform, if the row is
/// well formed, and the errors that were reported.
#[derive(Debug)]
pub struct Plan {
    pub command: Option<Command>,
    pub errors: Vec<GenerationError>,
}

fn describe_row(row: &Vec<String>) -> (r: String)
    ensures
        r@ == row_text(texts(row@)),
{
    String::from_str("[").concat(joined_text(row, ", ").as_str()).concat("]")
}

fn format_error(row: &Vec<String>, kind: &str, usage: &str) -> (r: GenerationError)
    ensures
        r.kind@ == kind@,
{
    let message = String::from_str("Record ")
        .concat(describe_row(row).as_str())
        .concat(" is not formatted correctly: expected ")
        .concat(usage);
    GenerationError::new(String::from_str(kind), message)
}

fn name_failure(row: &Vec<String>, e: GenerationError) -> (r: GenerationError)
    ensures
        r.kind@ == e.kind@,
        r.message@ == "Record "@ + row_text(texts(row@)) + " encountered an error "@ + e.message@,
{
    let message = String::from_str("Record ")
        .concat(describe_row(row).as_str())
        .concat(" encountered an error ")
        .concat(e.message.as_str());
    GenerationError::new(e.kind, message)
}

fn is_verb(row: &Vec<String>, word: &str) -> (r: bool)
    ensures
        r == (verb(texts(row@)) == word@),
{
    if row.len() == 0 {
        proof {
            assert(verb(texts(row@)) == Seq::<char>::empty());
            assert(word@.len() == 0 ==> word@ =~= Seq::<char>::empty());
        }
        word.unicode_len() == 0
    } else {
        assert(texts(row@)[0] == row@[0]@);
        row[0] == String::from_str(word)
    }
}

fn single(e: GenerationError) -> (r: Vec<GenerationError>)
    ensures
        r@ == seq![e],
{
    let mut v = Vec::new();
    v.push(e);
    v
}

/// Validates one row into the action it asks for, or the errors it
/// reports. Nothing is performed here: a malformed row never partially runs.
pub fn plan_row(row: &Vec<String>, may_spawn: bool) -> (r: Plan)
    ensures
        r.command matches Some(c) ==> planned(texts(row@), may_spawn) == Some(c@),
        r.command is None ==> planned(texts(row@), may_spawn) is None,
        r.errors@.len() == plan_errors(texts(row@), may_spawn),
        forall|i: int|
            0 <= i < r.errors@.len() ==> (#[trigger] r.errors@[i]).kind@ == plan_error_kind(
                texts(row@),
                may_spawn,
            ),
{
    let ghost t = texts(row@);
    assert(row@.len() == t.len());
    proof {
        reveal_strlit("process");
        reveal_strlit("pause");
        assert("process"@.len() != "pause"@.len());
    }
    if is_verb(row, "process") {
        if !may_spawn {
            let e = GenerationError::new(
                String::from_str("user_permissions"),
                String::from_str("Child processes are not allowed to be spawned"),
            );
            return Plan { command: None, errors: single(e) };
        }
        if row.len() < 3 {
            let e = format_error(row, "input_format", "process,<path>,<arguments...>");
            return Plan { command: None, errors: single(e) };
        }
        let arguments = Some(spaced_text(row, 2));
        Plan { command: Some(Command::Process { path: row[1].clone(), arguments }), errors: Vec::new() }
    } else if is_verb(row, "pause") {
        if row.len() < 2 {
            let mut errors = Vec::new();
            errors.push(format_error(row, "input_format", "pause,<msec>"));
            errors.push(format_error(row, "input_format", "pause,<msec> with <msec> a number"));
            return Plan { command: None, errors };
        }
        match parse_unsigned_text(row[1].as_str(), u64::MAX) {
            Some(millis) => Plan { command: Some(Command::Pause { millis }), errors: Vec::new() },
            None => {
                let e = format_error(row, "input_format", "pause,<msec> with <msec> a number");
                Plan { command: None, errors: single(e) }
            },
        }
    } else if is_verb(row, "new_file") || is_verb(row, "mod_file") || is_verb(row, "delete_file") {
        if row.len() < 2 {
            let e = format_error(row, "input_format", "<file_op>,<path>");
            return Plan { command: None, errors: single(e) };
        }
        let path = row[1].clone();
        let command = if is_verb(row, "new_file") {
            Command::NewFile { path }
        } else if is_verb(row, "mod_file") {
            Command::ModFile { path }
        } else {
            Command::DeleteFile { path }
        };
        Plan { command: Some(command), errors: Vec::new() }
    } else if is_verb(row, "connect") {
        if row.len() < 4 {
            let e = format_error(row, "input_format", "connect,<host>,<port>,<message>");
            return Plan { command: None, errors: single(e) };
        }
        match parse_unsigned_text(row[2].as_str(), 65535) {
            Some(port) => Plan {
                command: Some(
                    Command::Connect {
                        host: row[1].clone(),
                        port: port as u16,
                        payload: row[3].as_str().as_bytes_vec(),
                    },
                ),
                errors: Vec::new(),
            },
            None => {
                let e = format_error(row, "input_format", "connect,<host>,<port>,<message> with <port> in 0..65535");
                Plan { command: None, errors: single(e) }
            },
        }
    } else if is_verb(row, "connect_self") {
        if row.len() < 2 {
            let e = format_error(row, "input_format", "connect_self,<message>");
            return Plan { command: None, errors: single(e) };
        }
        Plan { command: Some(Command::ConnectSelf { payload: row[1].as_str().as_bytes_vec() }), errors: Vec::new() }
    } else {
        let message = if row.len() > 0 {
            row[0].clone().concat(" is not a valid instruction")
        } else {
            String::from_str("an empty row is not a valid instruction")
        };
        Plan { command: None, errors: single(GenerationError::new(String::from_str("input_format"), message)) }
    }
}

/// The errors of a session before any action runs: the sum of what
/// validating each row reports.
pub open spec fn total_plan_errors(rows: Seq<Seq<Seq<char>>>, may_spawn: bool) -> nat
    decreases rows.len(),
{
    if rows.len() == 0 {
        0
    } else {
        total_plan_errors(rows.drop_last(), may_spawn) + plan_errors(rows.last(), may_spawn)
    }
}

/// The number of rows that are not well formed.
pub open spec fn malformed_rows(rows: Seq<Seq<Seq<char>>>, may_spawn: bool) -> nat
    decreases rows.len(),
{
    if rows.len() == 0 {
        0
    } else {
        malformed_rows(rows.drop_last(), may_spawn) + if planned(rows.last(), may_spawn) is None {
            1nat
        } else {
            0nat
        }
    }
}

/// The number of rows whose action is run and fails; `failed[i]` tells
/// whether the action of row `i`, if it has one, failed.
pub open spec fn failed_actions(rows: Seq<Seq<Seq<char>>>, may_spawn: bool, failed: Seq<bool>) -> nat
    decreases rows.len(),
{
    if rows.len() == 0 {
        0
    } else {
        failed_actions(rows.drop_last(), may_spawn, failed) + if planned(rows.last(), may_spawn) is Some
            && failed[rows.len() - 1] {
            1nat
        } else {
            0nat
        }
    }
}

/// The number of rows whose action is run and succeeds: one event each.
pub open spec fn session_events(rows: Seq<Seq<Seq<char>>>, may_spawn: bool, failed: Seq<bool>) -> nat
    decreases rows.len(),
{
    if rows.len() == 0 {
        0
    } else {
        session_events(rows.drop_last(), may_spawn, failed) + if planned(rows.last(), may_spawn) is Some
            && !failed[rows.len() - 1] {
            1nat
        } else {
            0nat
        }
    }
}

/// The error count of a whole session: each row adds what its validation
/// reports (`TaskCommander::read_next`), and one more if its action ran and
/// failed (`TaskCommander::conclude`).
pub open spec fn session_errors(rows: Seq<Seq<Seq<char>>>, may_spawn: bool, failed: Seq<bool>) -> nat {
    total_plan_errors(rows, may_spawn) + failed_actions(rows, may_spawn, failed)
}

/// A session of well-formed rows whose actions all succeed reports no error
/// and emits one event per row.
pub proof fn lemma_well_formed_session(rows: Seq<Seq<Seq<char>>>, may_spawn: bool, failed: Seq<bool>)
    requires
        forall|i: int| 0 <= i < rows.len() ==> (#[trigger] planned(rows[i], may_spawn)) is Some,
        rows.len() <= failed.len(),
        forall|i: int| 0 <= i < failed.len() ==> !#[trigger] failed[i],
    ensures
        session_errors(rows, may_spawn, failed) == 0,
        session_events(rows, may_spawn, failed) == rows.len(),
    decreases rows.len(),
{
    if rows.len() > 0 {
        let rest = rows.drop_last();
        assert forall|i: int| 0 <= i < rest.len() implies (#[trigger] planned(rest[i], may_spawn)) is Some by {
            assert(rest[i] == rows[i]);
        }
        assert(planned(rows[rows.len() - 1], may_spawn) is Some);
        assert(!failed[rows.len() - 1]);
        lemma_well_formed_session(rest, may_spawn, failed);
    }
}

/// A session goes on past malformed rows: with `K` malformed rows among
/// rows whose actions all succeed, it reports exactly `K` errors and still
/// emits one event for every other row. A `pause` row without its argument
/// reports two errors, so such rows are left out.
pub proof fn lemma_malformed_rows_counted(rows: Seq<Seq<Seq<char>>>, may_spawn: bool, failed: Seq<bool>)
    requires
        forall|i: int|
            0 <= i < rows.len() ==> !(verb(#[trigger] rows[i]) == "pause"@ && rows[i].len() < 2),
        rows.len() <= failed.len(),
        forall|i: int| 0 <= i < failed.len() ==> !#[trigger] failed[i],
    ensures
        session_errors(rows, may_spawn, failed) == malformed_rows(rows, may_spawn),
        session_events(rows, may_spawn, failed) + malformed_rows(rows, may_spawn) == rows.len(),
    decreases rows.len(),
{
    if rows.len() > 0 {
        let rest = rows.drop_last();
        assert forall|i: int| 0 <= i < rest.len() implies !(verb(#[trigger] rest[i]) == "pause"@ && rest[i].len()
            < 2) by {
            assert(rest[i] == rows[i]);
        }
        assert(!(verb(rows[rows.len() - 1]) == "pause"@ && rows[rows.len() - 1].len() < 2));
        assert(!failed[rows.len() - 1]);
        lemma_malformed_rows_counted(rest, may_spawn, failed);
    }
}

/// An error count after `n` more errors; the counter stops at its largest value.
pub open spec fn bumped(count: nat, n: nat) -> nat {
    if count + n > usize::MAX {
        usize::MAX as nat
    } else {
        count + n
    }
}

/// The error counter never decreases: every step of a session leaves it at
/// `bumped` of its previous value.
pub proof fn lemma_error_count_monotonic(count: nat, n: nat)
    requires
        count <= usize::MAX,
    ensures
        bumped(count, n) >= count,
        n > 0 && count < usize::MAX ==> bumped(count, n) > count,
{
}

/// The dispatcher of one session: the error counter, the process lifecycle
/// manager (absent when spawning is not possible), and the identity that
/// completes each record. Rows are read, and actions performed, by the caller.
pub struct TaskCommander {
    process_manager: Option<ProcessManager>,
    logger: Logger,
    errors_encountered: usize,
}

impl TaskCommander {
    /// The errors counted so far.
    pub closed spec fn errors(&self) -> nat {
        self.errors_encountered as nat
    }

    /// The identity that completes each record.
    pub closed spec fn identity(&self) -> Logger {
        self.logger
    }

    /// Whether `process` rows can spawn.
    pub closed spec fn may_spawn(&self) -> bool {
        self.process_manager is Some
    }

    /// A dispatcher with no errors counted, which stamps records with `logger`.
    pub fn new(logger: Logger) -> (r: TaskCommander)
        ensures
            r.errors() == 0,
            r.may_spawn(),
            r.identity() == logger,
    {
        let process_manager = match ProcessManager::new() {
            Ok(inner) => Some(inner),
            Err(_) => None,
        };
        TaskCommander { process_manager, logger, errors_encountered: 0 }
    }

    /// Whether `process` rows can spawn.
    pub fn can_spawn(&self) -> (r: bool)
        ensures
            r == self.may_spawn(),
    {
        self.process_manager.is_some()
    }

    /// The errors counted so far.
    pub fn error_count(&self) -> (r: usize)
        ensures
            r == self.errors(),
    {
        self.errors_encountered
    }

    /// The cumulative error count; this closes the session.
    pub fn get_num_errors(self) -> (r: usize)
        ensures
            r == self.errors(),
    {
        self.errors_encountered
    }

    fn count(&mut self, n: usize)
        ensures
            final(self).errors() == bumped(old(self).errors(), n as nat),
            final(self).may_spawn() == old(self).may_spawn(),
            final(self).logger == old(self).logger,
    {
        self.errors_encountered = self.errors_encountered.saturating_add(n);
    }

    /// Takes the next row of the session, or `None` when the source is
    /// exhausted, in which case nothing happens and `None` comes back.
    /// A row is validated into its action, and the errors it reports are
    /// counted; the caller reports them and performs the action, then hands
    /// its outcome to `conclude`.
    pub fn read_next(&mut self, row: Option<&Vec<String>>) -> (r: Option<Plan>)
        ensures
            row is None ==> r is None && final(self).errors() == old(self).errors(),
            row matches Some(row) ==> r matches Some(p) && ({
                let t = texts(row@);
                &&& (p.command matches Some(c) ==> planned(t, old(self).may_spawn()) == Some(c@))
                &&& (p.command is None ==> planned(t, old(self).may_spawn()) is None)
                &&& p.errors@.len() == plan_errors(t, old(self).may_spawn())
                &&& forall|i: int|
                    0 <= i < p.errors@.len() ==> (#[trigger] p.errors@[i]).kind@ == plan_error_kind(
                        t,
                        old(self).may_spawn(),
                    )
                &&& final(self).errors() == bumped(old(self).errors(), plan_errors(t, old(self).may_spawn()))
            }),
            final(self).may_spawn() == old(self).may_spawn(),
    {
        match row {
            None => None,
            Some(row) => {
                let plan = plan_row(row, self.can_spawn());
                self.count(plan.errors.len());
                Some(plan)
            },
        }
    }

    /// Records the outcome of the action of `row`: a success becomes the
    /// completed event to emit; a failure is counted once and comes back
    /// naming the row.
    pub fn conclude(&mut self, row: &Vec<String>, outcome: Result<Log, GenerationError>) -> (r: Result<
        Log,
        GenerationError,
    >)
        ensures
            r is Ok <==> outcome is Ok,
            r matches Ok(l) ==> stamped(l, outcome->Ok_0, old(self).identity()),
            r matches Err(e) ==> e.kind@ == outcome->Err_0.kind@ && e.message@ == "Record "@ + row_text(
                texts(row@),
            ) + " encountered an error "@ + outcome->Err_0.message@,
            final(self).errors() == bumped(old(self).errors(), if outcome is Err { 1nat } else { 0nat }),
            final(self).may_spawn() == old(self).may_spawn(),
    {
        match outcome {
            Ok(data) => Ok(self.logger.log_event(data)),
            Err(e) => {
                self.count(1);
                Err(name_failure(row, e))
            },
        }
    }

    /// Hands the outcome of a spawn to the process lifecycle manager, which
    /// tracks the process if the process table lists it; its failures are
    /// `process` errors. Without a manager the spawn is refused with a
    /// `user_permissions` error.
    pub fn new_process(&mut self, launch: Launch, spawned: Result<u32, GenerationError>) -> (r: Result<
        Log,
        GenerationError,
    >)
        ensures
            !old(self).may_spawn() ==> (r matches Err(e) && e.kind@ == kind_user_permissions()),
            old(self).may_spawn() ==> (r matches Err(e) ==> e.kind@ == kind_process()),
            old(self).may_spawn() && spawned is Err ==> (r matches Err(e) && e.message@ == spawned->Err_0.message@),
            r matches Ok(l) ==> l.proc_cmd@ == launch.cmd@ && l.activity@ == "New Process"@,
            final(self).errors() == old(self).errors(),
            final(self).may_spawn() == old(self).may_spawn(),
    {
        match &mut self.process_manager {
            Some(manager) => manager.new_process(launch, spawned),
            None => Err(
                GenerationError::new(
                    String::from_str("user_permissions"),
                    String::from_str("Child processes are not allowed to be spawned"),
                ),
            ),
        }
    }

    /// Validates the target of the `connect` action of `row` before any
    /// connection is attempted: port `0` is a `network` error, counted once
    /// and naming the row; otherwise the address to connect to.
    pub fn connect_target(&mut self, row: &Vec<String>, host: &String, port: u16) -> (r: Result<
        String,
        GenerationError,
    >)
        ensures
            r is Err <==> port == 0,
            r matches Ok(a) ==> a@ == address_text(host@, port as nat),
            r matches Err(e) ==> e.kind@ == kind_network() && e.message@ == "Record "@ + row_text(texts(row@))
                + " encountered an error "@ + "Invalid Port Number"@,
            final(self).errors() == bumped(old(self).errors(), if port == 0 { 1nat } else { 0nat }),
            final(self).may_spawn() == old(self).may_spawn(),
    {
        match send_target(host, port) {
            Ok(address) => Ok(address),
            Err(e) => {
                self.count(1);
                Err(name_failure(row, e))
            },
        }
    }

    /// Hands over the process lifecycle manager for teardown.
    pub fn take_process_manager(&mut self) -> (r: Option<ProcessManager>)
        ensures
            r is Some == old(self).may_spawn(),
            !final(self).may_spawn(),
            final(self).errors() == old(self).errors(),
    {
        self.process_manager.take()
    }
}

} // verus!
