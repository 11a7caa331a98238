//! The process lifecycle manager: the roster of spawned processes, and the
//! verified teardown that sorts every tracked process into one outcome.

use vstd::prelude::*;
use sysinfo::{ProcessExt, SystemExt};
use sysinfo::Process as ListedProcess;
use crate::common::{GenerationError, kind_process};
use crate::log::{Log, adapt_log_process, information, no_network};
use crate::text::{decimal, decimal_text, texts};

verus! {

#[verifier::external_type_specification]
#[verifier::external_body]
pub struct ExSystem(sysinfo::System);

#[verifier::external_type_specification]
#[verifier::external_body]
pub struct ExListedProcess(ListedProcess);

/// Relies on sysinfo's SystemExt::new: a process-table handle that has not
/// been filled yet.
#[verifier::external_body]
pub(crate) fn new_system() -> sysinfo::System {
    sysinfo::System::new()
}

/// Relies on sysinfo's SystemExt::refresh_processes: takes a new snapshot of
/// the live process table.
#[verifier::external_body]
pub(crate) fn refresh_processes(system: &mut sysinfo::System) {
    system.refresh_processes()
}

/// Relies on sysinfo's SystemExt::get_process: the entry of `pid` in the last
/// snapshot, if the process was listed there.
#[verifier::external_body]
pub(crate) fn find_process<'a>(system: &'a sysinfo::System, pid: usize) -> Option<&'a ListedProcess>
    requires
        pid <= 0x7fff_ffff,
{
    system.get_process(pid as sysinfo::Pid)
}

/// Relies on sysinfo's ProcessExt::name: the executable name of a listed process.
#[verifier::external_body]
pub(crate) fn process_name(process: &ListedProcess) -> String {
    process.name().to_string()
}

/// Relies on sysinfo's ProcessExt::cmd: the command line of a listed process.
#[verifier::external_body]
pub(crate) fn process_cmd(process: &ListedProcess) -> Vec<String> {
    process.cmd().to_vec()
}

/// Relies on sysinfo's ProcessExt::start_time: when a listed process started,
/// in seconds since the Unix epoch.
#[verifier::external_body]
fn process_start_time(process: &ListedProcess) -> u64 {
    process.start_time()
}

/// Relies on sysinfo's ProcessExt::kill: sends the kill signal to a listed
/// process; whether the signal was delivered is reported and not relied on.
#[verifier::external_body]
fn send_kill(process: &ListedProcess) -> bool {
    process.kill(sysinfo::Signal::Kill)
}

/// The words of `s` under POSIX shell quoting rules, as the shlex crate
/// splits them.
pub uninterp spec fn shell_words(s: Seq<char>) -> Seq<Seq<char>>;

/// Relies on shlex::Shlex: the words of `s` under POSIX shell quoting rules,
/// up to the first malformed quote or escape.
#[verifier::external_body]
fn split_shell_words(s: &str) -> (r: Vec<String>)
    ensures
        texts(r@) == shell_words(s@),
{
    shlex::Shlex::new(s).collect()
}

/// A process that was spawned and then found in the process table.
#[derive(Debug)]
pub struct Process {
    pub id: usize,
    pub name: String,
    pub cmd: String,
    pub stime: u64,
}

/// What to launch: the executable, its arguments after shell-word
/// splitting, and the full invocation text recorded for it.
#[derive(Debug)]
pub struct Launch {
    pub path: String,
    pub args: Vec<String>,
    pub cmd: String,
}

/// The argument string of a launch: the given one, or a single space.
pub open spec fn argument_text(arguments: Option<String>) -> Seq<char> {
    match arguments {
        Some(a) => a@,
        None => " "@,
    }
}

/// The invocation text recorded for `path` run with `arguments`.
pub open spec fn invocation_text(path: Seq<char>, arguments: Option<String>) -> Seq<char> {
    path + " "@ + argument_text(arguments)
}

/// Prepares the launch of `path` with an optional space-separated argument string.
pub fn plan_launch(path: String, arguments: Option<String>) -> (r: Launch)
    ensures
        r.path@ == path@,
        texts(r.args@) == shell_words(argument_text(arguments)),
        r.cmd@ == invocation_text(path@, arguments),
{
    let args = match arguments {
        Some(a) => a,
        None => String::from_str(" "),
    };
    let words = split_shell_words(args.as_str());
    let cmd = path.clone().concat(" ").concat(args.as_str());
    Launch { path, args: words, cmd }
}

/// Where a tracked process ended up on teardown.
#[derive(PartialEq, Eq, Structural, Clone, Copy, Debug)]
pub enum KillOutcome {
    /// It was found, signalled, and gone after the grace window.
    Killed,
    /// It was already gone before any signal was sent.
    Premature,
    /// It was still present after the grace window.
    Failed,
}

/// The outcome of a process that was or was not found before a signal was
/// sent, and was or was not found again after the grace window.
pub open spec fn classify(found_before: bool, found_after: bool) -> KillOutcome {
    if !found_before {
        KillOutcome::Premature
    } else if found_after {
        KillOutcome::Failed
    } else {
        KillOutcome::Killed
    }
}

/// Sorts one process by the two probes of the teardown protocol.
pub fn classify_probes(found_before: bool, found_after: bool) -> (r: KillOutcome)
    ensures
        r == classify(found_before, found_after),
{
    if !found_before {
        KillOutcome::Premature
    } else if found_after {
        KillOutcome::Failed
    } else {
        KillOutcome::Killed
    }
}

/// The roster positions whose outcome is `which`, in roster order.
pub open spec fn positions(outcomes: Seq<KillOutcome>, which: KillOutcome) -> Seq<int>
    decreases outcomes.len(),
{
    if outcomes.len() == 0 {
        Seq::empty()
    } else {
        let rest = positions(outcomes.drop_last(), which);
        if outcomes.last() == which {
            rest.push(outcomes.len() - 1)
        } else {
            rest
        }
    }
}

/// The activity text recorded for each outcome.
pub open spec fn outcome_activity(o: KillOutcome) -> Seq<char> {
    match o {
        KillOutcome::Killed => "Process Stopped"@,
        KillOutcome::Premature => "Process had prematurely terminated"@,
        KillOutcome::Failed => "Process Failed to Stop"@,
    }
}

/// `l` is the informational record of process `p` with activity `activity`;
/// its user, file and network columns are empty.
pub open spec fn records_process(l: Log, p: Process, activity: Seq<char>) -> bool {
    &&& l.t@ == information()
    &&& l.activity@ == activity
    &&& l.timestamp@ == decimal(p.stime as nat)
    &&& l.proc_name@ == p.name@
    &&& l.proc_cmd@ == p.cmd@
    &&& l.proc_id@ == decimal(p.id as nat)
    &&& l.username@.len() == 0
    &&& l.file_path@.len() == 0
    &&& no_network(&l)
}

/// `bucket` holds, in order, the records of the roster processes whose
/// outcome is `which`.
pub open spec fn bucket_matches(
    bucket: Seq<Log>,
    roster: Seq<Process>,
    outcomes: Seq<KillOutcome>,
    which: KillOutcome,
) -> bool {
    let pos = positions(outcomes, which);
    &&& bucket.len() == pos.len()
    &&& forall|k: int|
        0 <= k < bucket.len() ==> records_process(
            #[trigger] bucket[k],
            roster[pos[k]],
            outcome_activity(which),
        )
}

/// The three disjoint buckets of one teardown.
#[derive(Debug)]
pub struct KillCount {
    pub killed: Vec<Log>,
    pub premature: Vec<Log>,
    pub failures: Vec<Log>,
}

/// The buckets of `count` sort the roster processes by `outcomes`.
pub open spec fn count_matches(count: KillCount, roster: Seq<Process>, outcomes: Seq<KillOutcome>) -> bool {
    &&& bucket_matches(count.killed@, roster, outcomes, KillOutcome::Killed)
    &&& bucket_matches(count.premature@, roster, outcomes, KillOutcome::Premature)
    &&& bucket_matches(count.failures@, roster, outcomes, KillOutcome::Failed)
}

proof fn lemma_positions_push(outcomes: Seq<KillOutcome>, o: KillOutcome, which: KillOutcome)
    ensures
        positions(outcomes.push(o), which) == (if o == which {
            positions(outcomes, which).push(outcomes.len() as int)
        } else {
            positions(outcomes, which)
        }),
{
    assert(outcomes.push(o).drop_last() =~= outcomes);
}

/// Teardown puts every tracked process in exactly one bucket: position `i`
/// of the roster is listed under its own outcome and under no other.
pub proof fn lemma_each_process_in_one_bucket(outcomes: Seq<KillOutcome>, i: int)
    requires
        0 <= i < outcomes.len(),
    ensures
        forall|w: KillOutcome| #[trigger] positions(outcomes, w).contains(i) <==> w == outcomes[i],
    decreases outcomes.len(),
{
    let rest = outcomes.drop_last();
    assert forall|w: KillOutcome| #[trigger] positions(outcomes, w).contains(i) <==> w == outcomes[i] by {
        lemma_positions_bounded(rest, w);
        if i < outcomes.len() - 1 {
            lemma_each_process_in_one_bucket(rest, i);
            assert(positions(rest, w).contains(i) <==> w == rest[i]);
            if outcomes.last() == w {
                assert(positions(outcomes, w) == positions(rest, w).push(outcomes.len() - 1));
                if positions(outcomes, w).contains(i) {
                    let k = choose|k: int| 0 <= k < positions(outcomes, w).len() && positions(outcomes, w)[k] == i;
                    assert(k < positions(rest, w).len());
                    assert(positions(rest, w).contains(i));
                }
                if w == outcomes[i] {
                    let k = choose|k: int| 0 <= k < positions(rest, w).len() && positions(rest, w)[k] == i;
                    assert(positions(outcomes, w)[k] == i);
                }
            }
        } else {
            if outcomes.last() == w {
                assert(positions(outcomes, w).last() == i);
            } else {
                assert(!positions(rest, w).contains(i));
            }
        }
    }
}

proof fn lemma_positions_bounded(outcomes: Seq<KillOutcome>, which: KillOutcome)
    ensures
        forall|k: int|
            0 <= k < positions(outcomes, which).len() ==> 0 <= #[trigger] positions(outcomes, which)[k]
                < outcomes.len(),
    decreases outcomes.len(),
{
    if outcomes.len() > 0 {
        let rest = outcomes.drop_last();
        lemma_positions_bounded(rest, which);
        let p = positions(outcomes, which);
        assert forall|k: int| 0 <= k < p.len() implies 0 <= #[trigger] p[k] < outcomes.len() by {
            if k < positions(rest, which).len() {
                assert(p[k] == positions(rest, which)[k]);
            }
        }
    }
}

/// Teardown omits no tracked process and counts none twice: the three
/// buckets together are as large as the roster.
pub proof fn lemma_bucket_sizes_sum(outcomes: Seq<KillOutcome>)
    ensures
        positions(outcomes, KillOutcome::Killed).len() + positions(outcomes, KillOutcome::Premature).len()
            + positions(outcomes, KillOutcome::Failed).len() == outcomes.len(),
    decreases outcomes.len(),
{
    if outcomes.len() > 0 {
        lemma_bucket_sizes_sum(outcomes.drop_last());
    }
}

/// A tracked process that was listed at its first probe, was signalled,
/// and was gone after the grace window is reported among the killed, and
/// in no other bucket.
pub proof fn lemma_signalled_and_gone_is_killed(run: StopAll, roster: Seq<Process>, i: int)
    requires
        run.wf(roster),
        0 <= i < run.classified(),
        run.probes()[i] == (true, false),
    ensures
        positions(run.outcomes(), KillOutcome::Killed).contains(i),
        !positions(run.outcomes(), KillOutcome::Premature).contains(i),
        !positions(run.outcomes(), KillOutcome::Failed).contains(i),
{
    assert(run.outcomes()[i] == KillOutcome::Killed);
    lemma_each_process_in_one_bucket(run.outcomes(), i);
}

/// A tracked process that had already exited by its first probe is
/// reported as premature, and in no other bucket; no signal was sent to it.
pub proof fn lemma_exited_before_teardown_is_premature(run: StopAll, roster: Seq<Process>, i: int)
    requires
        run.wf(roster),
        0 <= i < run.classified(),
        !run.probes()[i].0,
    ensures
        positions(run.outcomes(), KillOutcome::Premature).contains(i),
        !positions(run.outcomes(), KillOutcome::Killed).contains(i),
        !positions(run.outcomes(), KillOutcome::Failed).contains(i),
{
    assert(run.outcomes()[i] == KillOutcome::Premature);
    lemma_each_process_in_one_bucket(run.outcomes(), i);
}

/// A completed teardown accounts for the whole roster: the three buckets
/// together hold one record per tracked process.
pub proof fn lemma_teardown_covers_roster(run: StopAll, roster: Seq<Process>)
    requires
        run.is_complete(roster),
    ensures
        run.count().killed@.len() + run.count().premature@.len() + run.count().failures@.len() == roster.len(),
{
    lemma_bucket_sizes_sum(run.outcomes());
}

/// The grace window, in milliseconds, between the kill signal and the
/// check that the process is gone.
pub const GRACE_MILLIS: u64 = 100;

/// A teardown in progress: how far it has gone through the roster, whether
/// the process at that position has been signalled and awaits its second
/// probe, and the outcomes so far.
pub struct StopAll {
    next: usize,
    signalled: bool,
    outcomes: Vec<KillOutcome>,
    probes: Ghost<Seq<(bool, bool)>>,
    count: KillCount,
}

impl StopAll {
    /// How many roster positions have been classified.
    pub closed spec fn classified(&self) -> nat {
        self.next as nat
    }

    /// Whether the process at the next position has been signalled and
    /// waits for the grace window to pass.
    pub closed spec fn waiting(&self) -> bool {
        self.signalled
    }

    /// The outcome of each classified position, in roster order.
    pub closed spec fn outcomes(&self) -> Seq<KillOutcome> {
        self.outcomes@
    }

    /// For each classified position, whether the process was listed at
    /// the first probe, and whether it was still listed after the grace window.
    pub closed spec fn probes(&self) -> Seq<(bool, bool)> {
        self.probes@
    }

    /// The buckets filled so far.
    pub closed spec fn count(&self) -> KillCount {
        self.count
    }

    /// The run is consistent with `roster`.
    pub open spec fn wf(&self, roster: Seq<Process>) -> bool {
        &&& self.outcomes().len() == self.classified()
        &&& self.classified() <= roster.len()
        &&& self.waiting() ==> self.classified() < roster.len()
        &&& count_matches(self.count(), roster, self.outcomes())
        &&& self.probes().len() == self.classified()
        &&& forall|i: int|
            0 <= i < self.classified() ==> #[trigger] self.outcomes()[i] == classify(
                self.probes()[i].0,
                self.probes()[i].1,
            )
    }

    /// Every roster position has been classified.
    pub open spec fn is_complete(&self, roster: Seq<Process>) -> bool {
        &&& self.wf(roster)
        &&& self.classified() == roster.len()
        &&& !self.waiting()
    }

    /// Classifies the next roster position, `p`, as `o`, the verdict of the
    /// probes `probe`, and files its record in the matching bucket.
    fn record(&mut self, p: &Process, o: KillOutcome, Ghost(roster): Ghost<Seq<Process>>, Ghost(probe): Ghost<(bool, bool)>)
        requires
            o == classify(probe.0, probe.1),
            old(self).wf(roster),
            old(self).classified() < roster.len(),
            roster.len() <= usize::MAX,
            roster[old(self).classified() as int] == *p,
        ensures
            final(self).outcomes() == old(self).outcomes().push(o),
            final(self).probes() == old(self).probes().push(probe),
            final(self).next == old(self).next + 1,
            !final(self).waiting(),
            final(self).wf(roster),
    {
        let log = adapt_log_process(
            match o {
                KillOutcome::Killed => String::from_str("Process Stopped"),
                KillOutcome::Premature => String::from_str("Process had prematurely terminated"),
                KillOutcome::Failed => String::from_str("Process Failed to Stop"),
            },
            p.stime,
            p.name.clone(),
            p.cmd.clone(),
            decimal_text(p.id as u64),
        );
        let ghost old_outcomes = self.outcomes@;
        let ghost old_count = self.count;
        match o {
            KillOutcome::Killed => self.count.killed.push(log),
            KillOutcome::Premature => self.count.premature.push(log),
            KillOutcome::Failed => self.count.failures.push(log),
        }
        self.outcomes.push(o);
        self.probes = Ghost(self.probes@.push(probe));
        self.next = self.next + 1;
        self.signalled = false;
        proof {
            lemma_positions_push(old_outcomes, o, KillOutcome::Killed);
            lemma_positions_push(old_outcomes, o, KillOutcome::Premature);
            lemma_positions_push(old_outcomes, o, KillOutcome::Failed);
            assert(bucket_matches(self.count.killed@, roster, self.outcomes@, KillOutcome::Killed)) by {
                assert forall|k: int| 0 <= k < self.count.killed@.len() implies records_process(
                    #[trigger] self.count.killed@[k],
                    roster[positions(self.outcomes@, KillOutcome::Killed)[k]],
                    outcome_activity(KillOutcome::Killed),
                ) by {
                    if k < old_count.killed@.len() {
                        assert(self.count.killed@[k] == old_count.killed@[k]);
                    }
                }
            }
            assert(bucket_matches(self.count.premature@, roster, self.outcomes@, KillOutcome::Premature)) by {
                assert forall|k: int| 0 <= k < self.count.premature@.len() implies records_process(
                    #[trigger] self.count.premature@[k],
                    roster[positions(self.outcomes@, KillOutcome::Premature)[k]],
                    outcome_activity(KillOutcome::Premature),
                ) by {
                    if k < old_count.premature@.len() {
                        assert(self.count.premature@[k] == old_count.premature@[k]);
                    }
                }
            }
            assert(bucket_matches(self.count.failures@, roster, self.outcomes@, KillOutcome::Failed)) by {
                assert forall|k: int| 0 <= k < self.count.failures@.len() implies records_process(
                    #[trigger] self.count.failures@[k],
                    roster[positions(self.outcomes@, KillOutcome::Failed)[k]],
                    outcome_activity(KillOutcome::Failed),
                ) by {
                    if k < old_count.failures@.len() {
                        assert(self.count.failures@[k] == old_count.failures@[k]);
                    }
                }
            }
        }
    }
}

/// A teardown in which no process was killed or found gone, and at least
/// one resisted: the error, together with the buckets as they were filled.
#[derive(Debug)]
pub struct StopFailure {
    pub error: GenerationError,
    pub count: KillCount,
}

/// The verdict on a completed teardown's buckets: the call fails only when
/// nothing was killed or found gone and something resisted.
pub open spec fn all_failed(count: KillCount) -> bool {
    count.killed@.len() == 0 && count.premature@.len() == 0 && count.failures@.len() > 0
}

/// Owns the roster of spawned processes and the process-table snapshot used
/// to confirm and terminate them.
pub struct ProcessManager {
    processes: Vec<Process>,
    system: sysinfo::System,
}

impl ProcessManager {
    /// The processes tracked, in the order they were spawned.
    pub closed spec fn roster(&self) -> Seq<Process> {
        self.processes@
    }

    /// A manager with an empty roster.
    pub fn new() -> (r: Result<ProcessManager, GenerationError>)
        ensures
            r matches Ok(m) && m.roster().len() == 0,
    {
        Ok(ProcessManager { processes: Vec::new(), system: new_system() })
    }

    /// The number of tracked processes.
    pub fn len(&self) -> (r: usize)
        ensures
            r == self.roster().len(),
    {
        self.processes.len()
    }

    /// Tracks a process spawned for `launch` with id `pid`, given what the
    /// process table lists for it: its name and start time, or nothing. A
    /// process that is not listed died before it could be confirmed; that
    /// is a `process` error and nothing is tracked.
    pub fn track_spawned(&mut self, launch: Launch, pid: u32, listed: Option<(String, u64)>) -> (r: Result<
        Log,
        GenerationError,
    >)
        ensures
            listed is None ==> (r matches Err(e) && e.kind@ == kind_process() && e.message@
                == "Process Died Unexpectedly"@ && final(self).roster() == old(self).roster()),
            listed matches Some((n, t)) ==> (r matches Ok(l) && final(self).roster().len() == old(self).roster().len() + 1
                && final(self).roster().drop_last() == old(self).roster() && ({
                let p = final(self).roster().last();
                &&& p.id == pid as usize
                &&& p.name@ == n@
                &&& p.stime == t
                &&& p.cmd@ == launch.cmd@
                &&& records_process(l, p, "New Process"@)
            })),
    {
        let (name, stime) = match listed {
            Some(found) => found,
            None => return Err(
                GenerationError::new(String::from_str("process"), String::from_str("Process Died Unexpectedly")),
            ),
        };
        let record = Process { id: pid as usize, name: name.clone(), cmd: launch.cmd.clone(), stime };
        self.processes.push(record);
        proof {
            assert(self.processes@.drop_last() =~= old(self).processes@);
        }
        Ok(adapt_log_process(String::from_str("New Process"), stime, name, launch.cmd, decimal_text(pid as u64)))
    }

    /// Records a launch whose spawn the caller attempted; `spawned` is the
    /// new process id or the spawn's error. A failed spawn is a `process`
    /// error that keeps the failure's message and operating-system kind. A
    /// spawned process is looked up in a fresh snapshot of the process table
    /// and tracked by `track_spawned` with what the table lists for it.
    pub fn new_process(&mut self, launch: Launch, spawned: Result<u32, GenerationError>) -> (r: Result<Log, GenerationError>)
        ensures
            spawned matches Err(e) ==> (r matches Err(x) && x.kind@ == kind_process() && x.message@ == e.message@
                && x.io_subkind == e.io_subkind),
            r is Err ==> final(self).roster() == old(self).roster(),
            r matches Err(e) ==> e.kind@ == kind_process(),
            r matches Ok(l) ==> spawned is Ok && final(self).roster().len() == old(self).roster().len() + 1
                && final(self).roster().drop_last() == old(self).roster() && ({
                let p = final(self).roster().last();
                &&& p.id == spawned->Ok_0 as usize
                &&& p.cmd@ == launch.cmd@
                &&& records_process(l, p, "New Process"@)
            }),
    {
        let pid = match spawned {
            Ok(pid) => pid,
            Err(e) => return Err(
                GenerationError { kind: String::from_str("process"), io_subkind: e.io_subkind, message: e.message },
            ),
        };
        refresh_processes(&mut self.system);
        let id = pid as usize;
        let listed = if id <= 0x7fff_ffff {
            match find_process(&self.system, id) {
                Some(process) => Some((process_name(process), process_start_time(process))),
                None => None,
            }
        } else {
            None
        };
        self.track_spawned(launch, pid, listed)
    }

    /// Probes the process at roster position `index` in the current snapshot
    /// and, if it is listed, sends it the kill signal. Returns whether it was listed.
    fn signal(&self, index: usize) -> bool
        requires
            index < self.roster().len(),
    {
        let pid = self.processes[index].id;
        if pid > 0x7fff_ffff {
            return false;
        }
        match find_process(&self.system, pid) {
            Some(process) => {
                send_kill(process);
                true
            },
            None => false,
        }
    }

    /// Starts a teardown of the whole roster: takes one snapshot of the
    /// process table for the first probe of every process.
    pub fn stop_all_begin(&mut self) -> (run: StopAll)
        ensures
            final(self).roster() == old(self).roster(),
            run.wf(final(self).roster()),
            run.classified() == 0,
            !run.waiting(),
    {
        refresh_processes(&mut self.system);
        StopAll {
            next: 0,
            signalled: false,
            outcomes: Vec::new(),
            probes: Ghost(Seq::empty()),
            count: KillCount { killed: Vec::new(), premature: Vec::new(), failures: Vec::new() },
        }
    }

    /// Advances a teardown. A process that was signalled on the previous
    /// step is probed again in a fresh snapshot: gone means killed, still
    /// listed means it resisted. Then each following process is probed; one
    /// that is not listed has ended prematurely, and the first that is listed
    /// is signalled, after which the step returns `true`: the caller waits
    /// `GRACE_MILLIS` and steps again. `false` means the roster is done.
    pub fn stop_all_step(&mut self, run: &mut StopAll) -> (wait: bool)
        requires
            old(run).wf(old(self).roster()),
        ensures
            final(self).roster() == old(self).roster(),
            final(run).wf(final(self).roster()),
            old(run).outcomes().is_prefix_of(final(run).outcomes()),
            wait == final(run).waiting(),
            !wait ==> final(run).is_complete(final(self).roster()),
            wait ==> final(run).classified() > old(run).classified() || !old(run).waiting(),
            forall|i: int|
                old(run).classified() <= i < final(run).classified() ==> (#[trigger] final(run).outcomes()[i]
                    == KillOutcome::Premature || (i == old(run).classified() && old(run).waiting())),
    {
        let ghost roster = self.processes@;
        let ghost start = run.outcomes@;
        let n = self.processes.len();
        if run.signalled {
            refresh_processes(&mut self.system);
            let found_after = self.signal(run.next);
            let o = classify_probes(true, found_after);
            run.record(&self.processes[run.next], o, Ghost(roster), Ghost((true, found_after)));
        }
        while run.next < n
            invariant
                n == roster.len(),
                self.processes@ == roster,
                old(self).roster() == roster,
                run.wf(roster),
                !run.waiting(),
                start.is_prefix_of(run.outcomes@),
                forall|i: int|
                    start.len() <= i < run.outcomes@.len() ==> (#[trigger] run.outcomes@[i]
                        == KillOutcome::Premature || (i == start.len() && old(run).waiting())),
                old(run).wf(roster),
                start == old(run).outcomes(),
                old(run).waiting() ==> run.outcomes@.len() > start.len(),
            decreases roster.len() - run.next,
        {
            if self.signal(run.next) {
                run.signalled = true;
                return true;
            }
            let o = classify_probes(false, false);
            run.record(&self.processes[run.next], o, Ghost(roster), Ghost((false, false)));
        }
        false
    }

    /// Ends a completed teardown with its buckets, or with a `process` error
    /// (and the buckets) when every tracked process resisted termination.
    pub fn stop_all_finish(&self, run: StopAll) -> (r: Result<KillCount, StopFailure>)
        requires
            run.is_complete(self.roster()),
        ensures
            r is Err <==> all_failed(run.count()),
            r matches Ok(c) ==> c == run.count(),
            r matches Err(f) ==> f.count == run.count() && f.error.kind@ == kind_process(),
            count_matches(run.count(), self.roster(), run.outcomes()),
    {
        let count = run.count;
        if count.killed.len() == 0 && count.premature.len() == 0 && count.failures.len() > 0 {
            return Err(
                StopFailure {
                    error: GenerationError::new(
                        String::from_str("process"),
                        String::from_str("All Child Processes Failed to Terminate"),
                    ),
                    count,
                },
            );
        }
        Ok(count)
    }
}

} // verus!
