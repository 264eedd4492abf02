use vstd::prelude::*;

verus! {

/// How many paths the backup manifest lists.
pub const BACKUP_PATH_COUNT: usize = 5;

/// The multi-step operations on the server.
#[derive(Clone, Copy, PartialEq, Eq, Structural)]
pub enum Workflow {
    /// Stop, reconcile the mods directory with the allow list and the
    /// staged mods, start.
    ReconcileMods,
    /// Rebuild the backup directory from the live server.
    Backup,
    /// Copy the backup back over the live server and repair what depends on it.
    Restore,
    /// Replace the installed modpack by the latest published server pack.
    FullPackUpdate,
}

/// One step of a workflow; the host carries it out and reports its outcome.
#[derive(Clone, Copy, PartialEq, Eq, Structural)]
pub enum Step {
    /// Ask the supervisor to stop the server.
    StopServer,
    /// Ask the supervisor to start the server.
    StartServer,
    /// Read the allow list of mods.
    ReadAllowList,
    /// Delete disallowed mods, then copy the staged ones in (best effort per file).
    ReconcileMods,
    /// Remove the backup directory if present and create it empty.
    WipeBackupRoot,
    /// Write the manifest of installed mods.
    WriteModsManifest,
    /// Copy the backup-manifest path of this index from the server to the backup.
    BackupPath(usize),
    /// Copy the backup-manifest path of this index from the backup to the server.
    RestorePath(usize),
    /// Set the message of the day from the configured modpack version.
    PatchMotd,
    /// Make the start script executable.
    MakeStartScriptExecutable,
    /// Write the manifest of installed mods if none exists.
    RegenerateManifest,
    /// Remove everything in the server directory.
    WipeServerRoot,
    /// Look up the latest published server pack.
    ResolveLatest,
    /// Download the server pack archive.
    DownloadArtifact,
    /// Unpack the server pack archive into the server directory.
    ExtractArtifact,
    /// Copy the staged mods into the mods directory.
    CopyStagedMods,
    /// Set the message of the day from the version of the pack just installed.
    AnnounceVersion,
}

/// The kinds of failure a step can report.
#[derive(Clone, Copy, PartialEq, Eq, Structural)]
pub enum ErrorKind {
    /// The process supervisor failed or refused.
    ProcessControl,
    /// A file could not be copied, removed, created or written.
    Filesystem,
    /// The remote repository could not be queried or had no artifact.
    Lookup,
}

/// The kind of failure that a step reports.
pub open spec fn step_error_kind(s: Step) -> ErrorKind {
    match s {
        Step::StopServer | Step::StartServer => ErrorKind::ProcessControl,
        Step::ResolveLatest | Step::DownloadArtifact => ErrorKind::Lookup,
        _ => ErrorKind::Filesystem,
    }
}

impl Step {
    /// The kind of failure this step reports.
    pub fn error_kind(&self) -> (r: ErrorKind)
        ensures
            r == step_error_kind(*self),
    {
        match self {
            Step::StopServer | Step::StartServer => ErrorKind::ProcessControl,
            Step::ResolveLatest | Step::DownloadArtifact => ErrorKind::Lookup,
            _ => ErrorKind::Filesystem,
        }
    }

    /// What is reported when this step fails, given what the host found.
    pub fn failure_message(&self, cause: FailureCause) -> (r: &'static str)
        ensures
            r@ == step_failure_text(*self, cause),
    {
        match self {
            Step::StopServer => "Failed to stop server.",
            Step::StartServer => "Failed to start server.",
            Step::ReadAllowList => "Failed to read mods.list",
            Step::ReconcileMods => "Failed to read mods directory",
            Step::WipeBackupRoot => match cause {
                FailureCause::CreateFailed => "Failed to create backup directory.",
                _ => "Failed to remove existing backup directory.",
            },
            Step::WriteModsManifest => "Failed to write mods.list.",
            Step::BackupPath(_) | Step::RestorePath(_) => match cause {
                FailureCause::DirectoryCopy => "Failed to copy directory.",
                _ => "Failed to copy file.",
            },
            Step::PatchMotd => "Failed to write server.properties.",
            Step::MakeStartScriptExecutable => "Failed to chmod startserver.sh.",
            Step::RegenerateManifest => "Failed to write mods.list.",
            Step::WipeServerRoot => "Failed to clear the server directory.",
            Step::ResolveLatest => "Failed to look up the latest server pack.",
            Step::DownloadArtifact => "Failed to download the server pack.",
            Step::ExtractArtifact => "Failed to extract the server pack.",
            Step::CopyStagedMods => "Failed to copy extra mods.",
            Step::AnnounceVersion => "Failed to write server.properties.",
        }
    }

    /// Whether the report of this step's failure names what could not be read.
    pub fn reports_detail(&self) -> (r: bool)
        ensures
            r == step_reports_detail(*self),
    {
        match self {
            Step::ReadAllowList | Step::ReconcileMods => true,
            _ => false,
        }
    }

    /// The report of this step's failure: its message, followed by
    /// `": "` and the detail for the steps whose report names it.
    pub fn failure_report(&self, cause: FailureCause, detail: &str) -> (r: String)
        ensures
            r@ == (if step_reports_detail(*self) {
                step_failure_text(*self, cause) + ": "@ + detail@
            } else {
                step_failure_text(*self, cause)
            }),
    {
        let mut r = String::from_str(self.failure_message(cause));
        if self.reports_detail() {
            r.append(": ");
            r.append(detail);
        }
        r
    }
}

/// What the host found when a step failed, where the report depends on it.
#[derive(Clone, Copy, PartialEq, Eq, Structural)]
pub enum FailureCause {
    /// Nothing that changes the report.
    Other,
    /// A directory could not be copied.
    DirectoryCopy,
    /// A file could not be copied.
    FileCopy,
    /// An existing directory could not be removed.
    RemoveFailed,
    /// A directory could not be created.
    CreateFailed,
}

/// The steps whose failure report names what could not be read.
pub open spec fn step_reports_detail(s: Step) -> bool {
    s == Step::ReadAllowList || s == Step::ReconcileMods
}

/// The message reported when a step fails, given what the host found.
pub open spec fn step_failure_text(s: Step, cause: FailureCause) -> Seq<char> {
    match s {
        Step::StopServer => "Failed to stop server."@,
        Step::StartServer => "Failed to start server."@,
        Step::ReadAllowList => "Failed to read mods.list"@,
        Step::ReconcileMods => "Failed to read mods directory"@,
        Step::WipeBackupRoot => if cause == FailureCause::CreateFailed {
            "Failed to create backup directory."@
        } else {
            "Failed to remove existing backup directory."@
        },
        Step::WriteModsManifest => "Failed to write mods.list."@,
        Step::BackupPath(_) | Step::RestorePath(_) => if cause == FailureCause::DirectoryCopy {
            "Failed to copy directory."@
        } else {
            "Failed to copy file."@
        },
        Step::PatchMotd => "Failed to write server.properties."@,
        Step::MakeStartScriptExecutable => "Failed to chmod startserver.sh."@,
        Step::RegenerateManifest => "Failed to write mods.list."@,
        Step::WipeServerRoot => "Failed to clear the server directory."@,
        Step::ResolveLatest => "Failed to look up the latest server pack."@,
        Step::DownloadArtifact => "Failed to download the server pack."@,
        Step::ExtractArtifact => "Failed to extract the server pack."@,
        Step::CopyStagedMods => "Failed to copy extra mods."@,
        Step::AnnounceVersion => "Failed to write server.properties."@,
    }
}

/// The copy steps over every backup-manifest path, in manifest order.
pub open spec fn backup_copies() -> Seq<Step> {
    Seq::new(BACKUP_PATH_COUNT as nat, |i: int| Step::BackupPath(i as usize))
}

/// The restore copies over every backup-manifest path, in manifest order.
pub open spec fn restore_copies() -> Seq<Step> {
    Seq::new(BACKUP_PATH_COUNT as nat, |i: int| Step::RestorePath(i as usize))
}

/// The steps of a backup: rebuild the backup directory, record the
/// installed mods, copy each manifest path.
pub open spec fn backup_steps() -> Seq<Step> {
    seq![Step::WipeBackupRoot, Step::WriteModsManifest] + backup_copies()
}

/// The steps of each workflow, in the order they are carried out.
pub open spec fn steps(w: Workflow) -> Seq<Step> {
    match w {
        Workflow::ReconcileMods => seq![
            Step::StopServer,
            Step::ReadAllowList,
            Step::ReconcileMods,
            Step::StartServer,
        ],
        Workflow::Backup => backup_steps(),
        Workflow::Restore => restore_copies() + seq![
            Step::PatchMotd,
            Step::MakeStartScriptExecutable,
            Step::RegenerateManifest,
        ],
        Workflow::FullPackUpdate => seq![Step::StopServer] + backup_steps() + seq![
            Step::WipeServerRoot,
            Step::ResolveLatest,
            Step::DownloadArtifact,
            Step::ExtractArtifact,
            Step::MakeStartScriptExecutable,
        ] + restore_copies() + seq![Step::CopyStagedMods, Step::StartServer, Step::AnnounceVersion],
    }
}

fn push_copies(out: &mut Vec<Step>, backup: bool)
    ensures
        final(out)@ == old(out)@ + (if backup {
            backup_copies()
        } else {
            restore_copies()
        }),
{
    let ghost start = out@;
    let ghost copies = if backup {
        backup_copies()
    } else {
        restore_copies()
    };
    let mut i: usize = 0;
    while i < BACKUP_PATH_COUNT
        invariant
            i <= BACKUP_PATH_COUNT,
            copies == (if backup {
                backup_copies()
            } else {
                restore_copies()
            }),
            out@ == start + copies.take(i as int),
        decreases BACKUP_PATH_COUNT - i,
    {
        if backup {
            out.push(Step::BackupPath(i));
        } else {
            out.push(Step::RestorePath(i));
        }
        assert(copies.take(i + 1) =~= copies.take(i as int).push(copies[i as int]));
        i = i + 1;
    }
    assert(copies.take(BACKUP_PATH_COUNT as int) =~= copies);
}

/// The steps of a workflow, in the order they are carried out.
pub fn workflow_steps(w: Workflow) -> (r: Vec<Step>)
    ensures
        r@ == steps(w),
{
    let mut out: Vec<Step> = Vec::new();
    match w {
        Workflow::ReconcileMods => {
            out.push(Step::StopServer);
            out.push(Step::ReadAllowList);
            out.push(Step::ReconcileMods);
            out.push(Step::StartServer);
        },
        Workflow::Backup => {
            out.push(Step::WipeBackupRoot);
            out.push(Step::WriteModsManifest);
            push_copies(&mut out, true);
        },
        Workflow::Restore => {
            push_copies(&mut out, false);
            out.push(Step::PatchMotd);
            out.push(Step::MakeStartScriptExecutable);
            out.push(Step::RegenerateManifest);
        },
        Workflow::FullPackUpdate => {
            out.push(Step::StopServer);
            out.push(Step::WipeBackupRoot);
            out.push(Step::WriteModsManifest);
            push_copies(&mut out, true);
            out.push(Step::WipeServerRoot);
            out.push(Step::ResolveLatest);
            out.push(Step::DownloadArtifact);
            out.push(Step::ExtractArtifact);
            out.push(Step::MakeStartScriptExecutable);
            push_copies(&mut out, false);
            out.push(Step::CopyStagedMods);
            out.push(Step::StartServer);
            out.push(Step::AnnounceVersion);
        },
    }
    assert(out@ =~= steps(w));
    out
}

/// How a step that the host carried out went.
#[derive(Clone, Copy, PartialEq, Eq, Structural)]
pub enum Outcome {
    Succeeded,
    Failed,
}

/// Where a run of a workflow stands.
#[derive(Clone, Copy, PartialEq, Eq, Structural)]
pub enum RunState {
    /// The step of this index is being carried out.
    Running(usize),
    /// Every step succeeded.
    Finished,
    /// This step failed; no later step is carried out.
    Aborted(Step),
}

/// What the host is to do next.
#[derive(Clone, Copy, PartialEq, Eq, Structural)]
pub enum Command {
    /// Carry out this step and report its outcome.
    Perform(Step),
    /// The workflow succeeded.
    Complete,
    /// The workflow failed at this step; earlier steps are not undone.
    Abort(Step),
}

/// One run of a workflow.
#[derive(Clone, Copy, PartialEq, Eq, Structural)]
pub struct Run {
    pub workflow: Workflow,
    pub state: RunState,
}

impl Run {
    /// A running run points at one of its workflow's steps.
    pub open spec fn wf(&self) -> bool {
        match self.state {
            RunState::Running(i) => i < steps(self.workflow).len(),
            _ => true,
        }
    }

    /// Whether the run has ended.
    pub open spec fn is_done(&self) -> bool {
        !(self.state is Running)
    }
}

/// A run that has just begun, and its first command.
pub open spec fn initial(w: Workflow) -> (Run, Command) {
    (Run { workflow: w, state: RunState::Running(0) }, Command::Perform(steps(w)[0]))
}

/// The next state of a run and the next command, once the step in
/// progress has the given outcome: a failure aborts the run at that step,
/// a success moves on to the next step or completes the run. An ended run
/// stays as it is and repeats its last word.
pub open spec fn next(run: Run, outcome: Outcome) -> (Run, Command) {
    match run.state {
        RunState::Running(i) => match outcome {
            Outcome::Failed => (
                Run { workflow: run.workflow, state: RunState::Aborted(steps(run.workflow)[i as int]) },
                Command::Abort(steps(run.workflow)[i as int]),
            ),
            Outcome::Succeeded => if i + 1 < steps(run.workflow).len() {
                (
                    Run { workflow: run.workflow, state: RunState::Running((i + 1) as usize) },
                    Command::Perform(steps(run.workflow)[i + 1]),
                )
            } else {
                (Run { workflow: run.workflow, state: RunState::Finished }, Command::Complete)
            },
        },
        RunState::Finished => (run, Command::Complete),
        RunState::Aborted(s) => (run, Command::Abort(s)),
    }
}

/// Begins a run of a workflow.
pub fn begin_run(w: Workflow) -> (r: (Run, Command))
    ensures
        r == initial(w),
        r.0.wf(),
{
    let all = workflow_steps(w);
    (Run { workflow: w, state: RunState::Running(0) }, Command::Perform(all[0]))
}

/// Moves a run on by the outcome of the step in progress.
pub fn advance(run: &mut Run, outcome: Outcome) -> (c: Command)
    requires
        old(run).wf(),
    ensures
        (*final(run), c) == next(*old(run), outcome),
        final(run).wf(),
{
    match run.state {
        RunState::Running(i) => {
            let all = workflow_steps(run.workflow);
            match outcome {
                Outcome::Failed => {
                    let s = all[i];
                    run.state = RunState::Aborted(s);
                    Command::Abort(s)
                },
                Outcome::Succeeded => {
                    if i + 1 < all.len() {
                        run.state = RunState::Running(i + 1);
                        Command::Perform(all[i + 1])
                    } else {
                        run.state = RunState::Finished;
                        Command::Complete
                    }
                },
            }
        },
        RunState::Finished => Command::Complete,
        RunState::Aborted(s) => Command::Abort(s),
    }
}

/// The commands a run gives for a sequence of outcomes, one per outcome.
pub open spec fn commands(run: Run, outcomes: Seq<Outcome>) -> Seq<Command>
    decreases outcomes.len(),
{
    if outcomes.len() == 0 {
        Seq::empty()
    } else {
        let (r2, c) = next(run, outcomes[0]);
        seq![c] + commands(r2, outcomes.drop_first())
    }
}

/// A run gives one command per outcome.
pub proof fn lemma_commands_len(run: Run, outcomes: Seq<Outcome>)
    ensures
        commands(run, outcomes).len() == outcomes.len(),
    decreases outcomes.len(),
{
    if outcomes.len() > 0 {
        lemma_commands_len(next(run, outcomes[0]).0, outcomes.drop_first());
    }
}

/// Once a run has been aborted, it asks for no step to be carried out.
pub proof fn lemma_aborted_stays_aborted(run: Run, s: Step, outcomes: Seq<Outcome>)
    requires
        run.state == RunState::Aborted(s),
    ensures
        commands(run, outcomes).len() == outcomes.len(),
        forall|k: int| 0 <= k < outcomes.len() ==> #[trigger] commands(run, outcomes)[k]
            == Command::Abort(s),
    decreases outcomes.len(),
{
    lemma_commands_len(run, outcomes);
    if outcomes.len() > 0 {
        lemma_aborted_stays_aborted(run, s, outcomes.drop_first());
        let rest = commands(run, outcomes.drop_first());
        let all = commands(run, outcomes);
        assert(all == seq![Command::Abort(s)] + rest);
        assert forall|k: int| 0 <= k < outcomes.len() implies #[trigger] all[k] == Command::Abort(
            s,
        ) by {
            if k > 0 {
                assert(all[k] == rest[k - 1]);
            }
        }
    }
}

/// A full pack update first stops the server; where that fails, the run
/// aborts at once and never asks for the server directory to be wiped, so
/// the server's files stay as they were.
pub proof fn lemma_update_stop_failure_keeps_server_root(outcomes: Seq<Outcome>)
    requires
        outcomes.len() > 0,
        outcomes[0] == Outcome::Failed,
    ensures
        initial(Workflow::FullPackUpdate).1 == Command::Perform(Step::StopServer),
        commands(initial(Workflow::FullPackUpdate).0, outcomes)[0] == Command::Abort(
            Step::StopServer,
        ),
        forall|k: int|
            0 <= k < outcomes.len() ==> #[trigger] commands(
                initial(Workflow::FullPackUpdate).0,
                outcomes,
            )[k] != Command::Perform(Step::WipeServerRoot),
{
    let (run0, first) = initial(Workflow::FullPackUpdate);
    assert(steps(Workflow::FullPackUpdate)[0] == Step::StopServer);
    let (run1, c0) = next(run0, outcomes[0]);
    assert(run1.state == RunState::Aborted(Step::StopServer));
    lemma_aborted_stays_aborted(run1, Step::StopServer, outcomes.drop_first());
    let all = commands(run0, outcomes);
    lemma_commands_len(run0, outcomes);
    assert(all == seq![c0] + commands(run1, outcomes.drop_first()));
    assert forall|k: int| 0 <= k < outcomes.len() implies #[trigger] all[k] == Command::Abort(
        Step::StopServer,
    ) by {
        if k > 0 {
            assert(all[k] == commands(run1, outcomes.drop_first())[k - 1]);
        }
    }
}

/// Allows one workflow at a time on the server: a run is admitted only
/// while no other is in progress, and the slot is freed when it ends.
pub struct Orchestrator {
    pub current: Option<Run>,
}

impl Orchestrator {
    /// The runs admitted are well formed and still in progress.
    pub open spec fn wf(&self) -> bool {
        match self.current {
            Some(r) => r.wf() && !r.is_done(),
            None => true,
        }
    }

    /// An orchestrator with no run in progress.
    pub fn new() -> (r: Orchestrator)
        ensures
            r.current is None,
            r.wf(),
    {
        Orchestrator { current: None }
    }

    /// Begins a workflow if none is in progress; `None` where one is.
    pub fn try_begin(&mut self, w: Workflow) -> (c: Option<Command>)
        requires
            old(self).wf(),
        ensures
            final(self).wf(),
            match old(self).current {
                Some(_) => c is None && *final(self) == *old(self),
                None => c == Some(initial(w).1) && final(self).current == Some(initial(w).0),
            },
    {
        match self.current {
            Some(_) => None,
            None => {
                let (run, c) = begin_run(w);
                self.current = Some(run);
                Some(c)
            },
        }
    }

    /// Reports the outcome of the step in progress; the slot is freed when
    /// the run ends. `None` where no run is in progress.
    pub fn report(&mut self, outcome: Outcome) -> (c: Option<Command>)
        requires
            old(self).wf(),
        ensures
            final(self).wf(),
            match old(self).current {
                Some(r) => {
                    let (r2, c2) = next(r, outcome);
                    &&& c == Some(c2)
                    &&& final(self).current == (if r2.is_done() {
                        None
                    } else {
                        Some(r2)
                    })
                },
                None => c is None && *final(self) == *old(self),
            },
    {
        match self.current {
            Some(r) => {
                let mut run = r;
                let c = advance(&mut run, outcome);
                match run.state {
                    RunState::Running(_) => {
                        self.current = Some(run);
                    },
                    _ => {
                        self.current = None;
                    },
                }
                Some(c)
            },
            None => None,
        }
    }
}

} // verus!
