//! The retry engine of file and directory deletion.
//!
//! One deletion runs attempt by attempt. Before each attempt the caller
//! clears the read-only attribute (ignoring failure) and performs the
//! removal; it then hands the outcome to [`FileAndDirectoryDeleter::decide`],
//! which says whether the run is over, or whether the caller must look up the
//! processes holding the target, sleep `retry_delay_ms`, terminate them and
//! attempt again, or (for a directory whose bulk removal failed on other
//! grounds) descend to the slow path.
//!
//! The slow path deletes each entry of the directory with a run of its own
//! (files as [`Removal::File`], subdirectories as [`Removal::Directory`]) and
//! then removes the emptied directory with a [`Removal::EmptyDirectory`] run.
//! Each of these runs has the full retry budget; a failing entry ends the
//! whole deletion with its error.
use crate::config::ForceOpsConfig;
use crate::lock_checker::ProcessInfo;
use crate::text::decimal;
use crate::text::decimal_text;
use vstd::prelude::*;

verus! {

/// What the platform reported when a removal failed.
#[derive(Debug, Clone, Copy, PartialEq, Eq, Structural)]
pub enum FailureKind {
    NotFound,
    PermissionDenied,
    WouldBlock,
    ResourceBusy,
    Other,
    Unclassified,
}

/// A failed removal: the platform's raw error code, if any, and its kind.
#[derive(Debug, Clone, Copy, PartialEq, Eq, Structural)]
pub struct IoFailure {
    pub raw_os_error: Option<i32>,
    pub kind: FailureKind,
}

/// The platform's sharing-violation code.
pub const ERROR_SHARING_VIOLATION: i32 = 32;

/// The platform's lock-violation code.
pub const ERROR_LOCK_VIOLATION: i32 = 33;

/// A sharing or lock violation, a busy resource, or the generic "other"
/// condition that the platform uses to signal contention.
pub open spec fn spec_is_io_error(e: IoFailure) -> bool {
    e.raw_os_error == Some(ERROR_SHARING_VIOLATION) || e.raw_os_error == Some(
        ERROR_LOCK_VIOLATION,
    ) || e.kind == FailureKind::ResourceBusy || e.kind == FailureKind::Other
}

/// An I/O contention failure, or a refusal of access or of blocking.
pub open spec fn spec_is_io_or_permission_error(e: IoFailure) -> bool {
    e.kind == FailureKind::PermissionDenied || e.kind == FailureKind::WouldBlock
        || spec_is_io_error(e)
}

/// A lock-class failure: the target is in use by another process. Only
/// these are retried.
pub open spec fn spec_is_lock_class(e: IoFailure) -> bool {
    spec_is_io_error(e)
}

/// Whether a failure is a sharing or lock violation, a busy resource, or the
/// generic "other" condition.
pub fn is_io_error(error: &IoFailure) -> (r: bool)
    ensures
        r == spec_is_io_error(*error),
{
    match error.raw_os_error {
        Some(code) => code == ERROR_SHARING_VIOLATION || code == ERROR_LOCK_VIOLATION
            || error.kind == FailureKind::ResourceBusy || error.kind == FailureKind::Other,
        None => error.kind == FailureKind::ResourceBusy || error.kind == FailureKind::Other,
    }
}

/// Whether a failure is an I/O contention failure or a refusal of access or
/// of blocking.
pub fn is_io_or_permission_error(error: &IoFailure) -> (r: bool)
    ensures
        r == spec_is_io_or_permission_error(*error),
{
    error.kind == FailureKind::PermissionDenied || error.kind == FailureKind::WouldBlock
        || is_io_error(error)
}

/// Whether a failure is lock-class, the only kind that is retried.
pub fn is_lock_class_failure(error: &IoFailure) -> (r: bool)
    ensures
        r == spec_is_lock_class(*error),
{
    is_io_error(error)
}

/// The removal that one attempt performs.
#[derive(Debug, Clone, Copy, PartialEq, Eq, Structural)]
pub enum Removal {
    /// Remove a single file.
    File,
    /// Remove a whole directory subtree in one bulk call (the fast path).
    Directory,
    /// Remove a single directory entry: an emptied directory, or a link to one.
    EmptyDirectory,
}

/// What one attempt observed.
#[derive(Debug, Clone, Copy, PartialEq, Eq, Structural)]
pub enum AttemptOutcome {
    Removed,
    /// The removal failed; `still_exists` is the re-check of the target.
    Failed { failure: IoFailure, still_exists: bool },
}

/// How the holders of a target are found before a retry.
#[derive(Debug, Clone, Copy, PartialEq, Eq, Structural)]
pub enum HolderQuery {
    /// Ask the file-lock session which processes use the file.
    FileSession,
    /// Scan the processes whose working directory meets the directory.
    WorkingDirectories,
}

/// What follows one attempt.
#[derive(Debug, Clone, Copy, PartialEq, Eq, Structural)]
pub enum Decision {
    /// The target is gone.
    Succeeded,
    /// A failure that is not lock-class: report it, no retry.
    Failed,
    /// Lock-class failure with the budget spent: report exhaustion.
    Exhausted,
    /// Find the holders with this query, sleep, terminate them, attempt again.
    Retry(HolderQuery),
    /// The bulk directory removal failed on other grounds: delete entry by entry.
    SlowPath,
}

/// What kind of target a path is, as classified right now.
#[derive(Debug, Clone, Copy, PartialEq, Eq, Structural)]
pub enum TargetKind {
    File,
    Directory,
    Absent,
}

/// The deletion that a target calls for.
#[derive(Debug, Clone, Copy, PartialEq, Eq, Structural)]
pub enum Dispatch {
    DeleteFile,
    DeleteDirectory,
    /// Nothing to do: the target is absent and absence is tolerated.
    Nothing,
}

/// Why a deletion failed.
#[derive(Debug, Clone)]
pub enum DeleteError {
    /// The target does not exist.
    NotFound { path: String },
    /// The platform's own message of a failure that is not retried.
    Io { message: String },
    /// Lock-class failures outlasted the retry budget.
    Exhausted { path: String, directory: bool, max_retries: u32 },
}

/// The holder lookup that suits a removal.
pub open spec fn holder_query_for(removal: Removal) -> HolderQuery {
    match removal {
        Removal::File => HolderQuery::FileSession,
        _ => HolderQuery::WorkingDirectories,
    }
}

/// The decision after attempt number `attempt` (counting from 1) of a run
/// with `max_retries` retries.
pub open spec fn decision(
    max_retries: nat,
    removal: Removal,
    attempt: nat,
    outcome: AttemptOutcome,
) -> Decision {
    match outcome {
        AttemptOutcome::Removed => Decision::Succeeded,
        AttemptOutcome::Failed { failure, still_exists } => {
            if !still_exists {
                Decision::Succeeded
            } else if spec_is_lock_class(failure) {
                if attempt > max_retries {
                    Decision::Exhausted
                } else {
                    Decision::Retry(holder_query_for(removal))
                }
            } else if removal == Removal::Directory {
                Decision::SlowPath
            } else {
                Decision::Failed
            }
        },
    }
}

/// A failed attempt whose target is still there, with a lock-class failure.
pub open spec fn lock_failing(o: AttemptOutcome) -> bool {
    match o {
        AttemptOutcome::Failed { failure, still_exists } => still_exists && spec_is_lock_class(
            failure,
        ),
        AttemptOutcome::Removed => false,
    }
}

/// The number of attempts a run makes from attempt number `attempt` on,
/// when its attempts observe `outcomes` in turn.
pub open spec fn attempts_made(
    max_retries: nat,
    removal: Removal,
    attempt: nat,
    outcomes: Seq<AttemptOutcome>,
) -> nat
    decreases outcomes.len(),
{
    if outcomes.len() == 0 {
        0
    } else if decision(max_retries, removal, attempt, outcomes[0]) is Retry {
        1 + attempts_made(max_retries, removal, attempt + 1, outcomes.drop_first())
    } else {
        1
    }
}

/// The decision that ends such a run, if the outcomes last until it ends.
pub open spec fn final_decision(
    max_retries: nat,
    removal: Removal,
    attempt: nat,
    outcomes: Seq<AttemptOutcome>,
) -> Option<Decision>
    decreases outcomes.len(),
{
    if outcomes.len() == 0 {
        None
    } else if decision(max_retries, removal, attempt, outcomes[0]) is Retry {
        final_decision(max_retries, removal, attempt + 1, outcomes.drop_first())
    } else {
        Some(decision(max_retries, removal, attempt, outcomes[0]))
    }
}

proof fn lemma_lock_failing_run_from(
    max_retries: nat,
    removal: Removal,
    attempt: nat,
    outcomes: Seq<AttemptOutcome>,
)
    requires
        1 <= attempt <= max_retries + 1,
        outcomes.len() >= max_retries + 2 - attempt,
        forall|i: int| 0 <= i < outcomes.len() ==> lock_failing(#[trigger] outcomes[i]),
    ensures
        attempts_made(max_retries, removal, attempt, outcomes) == max_retries + 2 - attempt,
        final_decision(max_retries, removal, attempt, outcomes) == Some(Decision::Exhausted),
    decreases max_retries + 1 - attempt,
{
    assert(lock_failing(outcomes[0]));
    if attempt <= max_retries {
        let rest = outcomes.drop_first();
        assert forall|i: int| 0 <= i < rest.len() implies lock_failing(#[trigger] rest[i]) by {
            assert(rest[i] == outcomes[i + 1]);
        }
        lemma_lock_failing_run_from(max_retries, removal, attempt + 1, rest);
    }
}

/// A target that stays lock-class-failing is attempted exactly
/// `max_retries + 1` times, and the run then reports exhaustion.
pub proof fn lemma_permanent_lock_exhausts_budget(
    max_retries: nat,
    removal: Removal,
    outcomes: Seq<AttemptOutcome>,
)
    requires
        outcomes.len() >= max_retries + 1,
        forall|i: int| 0 <= i < outcomes.len() ==> lock_failing(#[trigger] outcomes[i]),
    ensures
        attempts_made(max_retries, removal, 1, outcomes) == max_retries + 1,
        final_decision(max_retries, removal, 1, outcomes) == Some(Decision::Exhausted),
{
    lemma_lock_failing_run_from(max_retries, removal, 1, outcomes);
}

/// A run whose first `failures` attempts fail lock-class, with `failures`
/// within the budget, and whose next attempt removes the target, succeeds
/// after `failures + 1` attempts: the holders cleared in between leave the
/// target deleted.
pub proof fn lemma_cleared_holders_let_run_succeed(
    max_retries: nat,
    removal: Removal,
    failures: nat,
    outcomes: Seq<AttemptOutcome>,
)
    requires
        failures <= max_retries,
        outcomes.len() > failures,
        forall|i: int| 0 <= i < failures ==> lock_failing(#[trigger] outcomes[i]),
        outcomes[failures as int] == AttemptOutcome::Removed,
    ensures
        attempts_made(max_retries, removal, 1, outcomes) == failures + 1,
        final_decision(max_retries, removal, 1, outcomes) == Some(Decision::Succeeded),
{
    lemma_cleared_holders_from(max_retries, removal, 1, failures, outcomes);
}

proof fn lemma_cleared_holders_from(
    max_retries: nat,
    removal: Removal,
    attempt: nat,
    failures: nat,
    outcomes: Seq<AttemptOutcome>,
)
    requires
        1 <= attempt,
        attempt + failures <= max_retries + 1,
        outcomes.len() > failures,
        forall|i: int| 0 <= i < failures ==> lock_failing(#[trigger] outcomes[i]),
        outcomes[failures as int] == AttemptOutcome::Removed,
    ensures
        attempts_made(max_retries, removal, attempt, outcomes) == failures + 1,
        final_decision(max_retries, removal, attempt, outcomes) == Some(Decision::Succeeded),
    decreases failures,
{
    if failures > 0 {
        assert(lock_failing(outcomes[0]));
        let rest = outcomes.drop_first();
        assert forall|i: int| 0 <= i < failures - 1 implies lock_failing(#[trigger] rest[i]) by {
            assert(rest[i] == outcomes[i + 1]);
        }
        assert(rest[failures - 1] == outcomes[failures as int]);
        lemma_cleared_holders_from(max_retries, removal, attempt + 1, (failures - 1) as nat, rest);
    }
}

/// A removal that failed while its target vanished before the re-check
/// counts as success, on every attempt and for every failure.
pub proof fn lemma_vanished_target_succeeds(
    max_retries: nat,
    removal: Removal,
    attempt: nat,
    failure: IoFailure,
)
    ensures
        decision(
            max_retries,
            removal,
            attempt,
            AttemptOutcome::Failed { failure, still_exists: false },
        ) == Decision::Succeeded,
{
}

/// The deletion of a symbolic link to a directory removes the link entry
/// alone: its run never descends into entries.
pub proof fn lemma_symlink_is_never_traversed(
    max_retries: nat,
    attempt: nat,
    outcome: AttemptOutcome,
)
    ensures
        decision(max_retries, Removal::EmptyDirectory, attempt, outcome) != Decision::SlowPath,
{
}

/// One holder as logged: its id and, best effort, its executable name.
pub open spec fn holder_text(p: ProcessInfo) -> Seq<char> {
    decimal(p.process_id as nat) + " - "@ + match p.executable_name {
        Some(n) => n@,
        None => Seq::empty(),
    }
}

/// The holders as logged, separated by commas.
pub open spec fn holder_list_text(ps: Seq<ProcessInfo>) -> Seq<char>
    decreases ps.len(),
{
    if ps.len() == 0 {
        Seq::empty()
    } else if ps.len() == 1 {
        holder_text(ps[0])
    } else {
        holder_list_text(ps.drop_last()) + ", "@ + holder_text(ps.last())
    }
}

pub open spec fn elevation_text(is_elevated: bool) -> Seq<char> {
    if is_elevated {
        "ForceOps process is elevated"@
    } else {
        "ForceOps process is not elevated"@
    }
}

/// The log line of a retry: target, attempt out of the budget, delay,
/// elevation status and the holders about to be terminated.
pub open spec fn retry_text(
    directory: bool,
    path: Seq<char>,
    attempt: nat,
    max_retries: nat,
    delay_ms: nat,
    is_elevated: bool,
    holders: Seq<ProcessInfo>,
) -> Seq<char> {
    "Could not delete "@ + (if directory {
        "directory"@
    } else {
        "file"@
    }) + " \""@ + path + "\". Beginning retry "@ + decimal(attempt) + "/"@ + decimal(max_retries)
        + " in "@ + decimal(delay_ms) + "ms. "@ + elevation_text(is_elevated) + ". Found "@
        + decimal(holders.len()) + " "@ + (if holders.len() == 1 {
        "process"@
    } else {
        "processes"@
    }) + " to try to kill: ["@ + holder_list_text(holders) + "]."@
}

fn holder_entry(p: &ProcessInfo) -> (r: String)
    ensures
        r@ == holder_text(*p),
{
    let mut r = decimal_text(p.process_id as u64);
    r.append(" - ");
    match &p.executable_name {
        Some(n) => r.append(n.as_str()),
        None => {},
    }
    r
}

/// The holders as logged: each id and executable name, comma-separated.
pub fn holder_list(processes: &Vec<ProcessInfo>) -> (r: String)
    ensures
        r@ == holder_list_text(processes@),
{
    let mut r = String::new();
    let mut i: usize = 0;
    while i < processes.len()
        invariant
            i <= processes@.len(),
            r@ == holder_list_text(processes@.subrange(0, i as int)),
        decreases processes@.len() - i,
    {
        let e = holder_entry(&processes[i]);
        proof {
            let next = processes@.subrange(0, i + 1);
            assert(next.drop_last() =~= processes@.subrange(0, i as int));
        }
        if i > 0 {
            r.append(", ");
        }
        r.append(e.as_str());
        i = i + 1;
    }
    assert(processes@.subrange(0, processes@.len() as int) =~= processes@);
    r
}

pub open spec fn dispatch_of(kind: TargetKind, force: bool) -> Option<Dispatch> {
    match kind {
        TargetKind::File => Some(Dispatch::DeleteFile),
        TargetKind::Directory => Some(Dispatch::DeleteDirectory),
        TargetKind::Absent => if force {
            Some(Dispatch::Nothing)
        } else {
            None
        },
    }
}

/// A retry is decided only while the budget allows another attempt, so the
/// delay between attempts never follows the last one.
pub proof fn lemma_retry_only_within_budget(
    max_retries: nat,
    removal: Removal,
    attempt: nat,
    outcome: AttemptOutcome,
)
    ensures
        decision(max_retries, removal, attempt, outcome) is Retry ==> attempt <= max_retries,
{
}

/// Forcing changes the outcome for an absent target only, from a NotFound
/// error to nothing to do.
pub proof fn lemma_force_only_silences_absence(kind: TargetKind)
    ensures
        dispatch_of(TargetKind::Absent, false) is None,
        dispatch_of(TargetKind::Absent, true) == Some(Dispatch::Nothing),
        kind != TargetKind::Absent ==> dispatch_of(kind, false) == dispatch_of(kind, true)
            && dispatch_of(kind, true) is Some,
{
}

pub open spec fn not_found_text(path: Seq<char>) -> Seq<char> {
    "Cannot remove '"@ + path + "'. No such file or directory"@
}

pub open spec fn exhausted_text(path: Seq<char>, directory: bool, max_retries: nat) -> Seq<char> {
    (if directory {
        "Failed to delete directory '"@
    } else {
        "Failed to delete file '"@
    }) + path + "' after "@ + decimal(max_retries) + " retries"@
}

impl DeleteError {
    /// The message reported to the user.
    pub open spec fn text(&self) -> Seq<char> {
        match self {
            DeleteError::NotFound { path } => not_found_text(path@),
            DeleteError::Io { message } => message@,
            DeleteError::Exhausted { path, directory, max_retries } => exhausted_text(
                path@,
                *directory,
                *max_retries as nat,
            ),
        }
    }

    /// The message reported to the user.
    pub fn to_string(&self) -> (r: String)
        ensures
            r@ == self.text(),
    {
        match self {
            DeleteError::NotFound { path } => {
                let mut r = String::from_str("Cannot remove '");
                r.append(path.as_str());
                r.append("'. No such file or directory");
                r
            },
            DeleteError::Io { message } => message.clone(),
            DeleteError::Exhausted { path, directory, max_retries } => {
                let mut r = if *directory {
                    String::from_str("Failed to delete directory '")
                } else {
                    String::from_str("Failed to delete file '")
                };
                r.append(path.as_str());
                r.append("' after ");
                let n = decimal_text(*max_retries as u64);
                r.append(n.as_str());
                r.append(" retries");
                r
            },
        }
    }
}

/// Handles deletion of files and directories with retry logic and process killing.
pub struct FileAndDirectoryDeleter {
    config: ForceOpsConfig,
}

impl FileAndDirectoryDeleter {
    pub closed spec fn spec_config(&self) -> ForceOpsConfig {
        self.config
    }

    pub fn new(config: ForceOpsConfig) -> (r: Self)
        ensures
            r.spec_config() == config,
    {
        Self { config }
    }

    pub fn config(&self) -> (r: ForceOpsConfig)
        ensures
            r == self.spec_config(),
    {
        self.config
    }

    /// The deletion that a target of kind `kind` calls for, not following
    /// symbolic links. An absent target is an error unless `force` is set.
    pub fn delete_file_or_directory(&self, path: &str, kind: TargetKind, force: bool) -> (r:
        Result<Dispatch, DeleteError>)
        ensures
            match dispatch_of(kind, force) {
                Some(d) => r == Ok::<Dispatch, DeleteError>(d),
                None => r matches Err(DeleteError::NotFound { path: p }) && p@ == path@,
            },
            r is Err ==> r->Err_0.text() == not_found_text(path@),
    {
        match kind {
            TargetKind::File => Ok(Dispatch::DeleteFile),
            TargetKind::Directory => Ok(Dispatch::DeleteDirectory),
            TargetKind::Absent => {
                if force {
                    Ok(Dispatch::Nothing)
                } else {
                    Err(DeleteError::NotFound { path: String::from_str(path) })
                }
            },
        }
    }

    /// The removal that starts the deletion of a directory. A symbolic link
    /// is removed as the link entry itself, never traversed.
    pub fn directory_removal(is_symlink: bool) -> (r: Removal)
        ensures
            is_symlink ==> r == Removal::EmptyDirectory,
            !is_symlink ==> r == Removal::Directory,
    {
        if is_symlink {
            Removal::EmptyDirectory
        } else {
            Removal::Directory
        }
    }

    /// What follows attempt number `attempt` (counting from 1).
    pub fn decide(&self, removal: Removal, attempt: u64, outcome: AttemptOutcome) -> (r:
        Decision)
        ensures
            r == decision(self.spec_config().max_retries as nat, removal, attempt as nat, outcome),
    {
        match outcome {
            AttemptOutcome::Removed => Decision::Succeeded,
            AttemptOutcome::Failed { failure, still_exists } => {
                if !still_exists {
                    Decision::Succeeded
                } else if is_lock_class_failure(&failure) {
                    if attempt > self.config.max_retries as u64 {
                        Decision::Exhausted
                    } else {
                        match removal {
                            Removal::File => Decision::Retry(HolderQuery::FileSession),
                            _ => Decision::Retry(HolderQuery::WorkingDirectories),
                        }
                    }
                } else if removal == Removal::Directory {
                    Decision::SlowPath
                } else {
                    Decision::Failed
                }
            },
        }
    }

    /// The error that ends a run on `path` after a `Failed` or `Exhausted`
    /// decision; `message` is the platform's message of the last failure.
    pub fn failure(&self, removal: Removal, path: &str, decision: Decision, message: &str) -> (r:
        DeleteError)
        requires
            decision == Decision::Failed || decision == Decision::Exhausted,
        ensures
            decision == Decision::Failed ==> r.text() == message@,
            decision == Decision::Exhausted ==> r.text() == exhausted_text(
                path@,
                removal != Removal::File,
                self.spec_config().max_retries as nat,
            ),
    {
        if decision == Decision::Failed {
            DeleteError::Io { message: String::from_str(message) }
        } else {
            DeleteError::Exhausted {
                path: String::from_str(path),
                directory: removal != Removal::File,
                max_retries: self.config.max_retries,
            }
        }
    }
    /// The log line of the retry that follows attempt `attempt` of a run
    /// on `path`, with the holders about to be terminated.
    pub fn retry_message(
        &self,
        removal: Removal,
        path: &str,
        attempt: u64,
        is_elevated: bool,
        holders: &Vec<ProcessInfo>,
    ) -> (r: String)
        ensures
            r@ == retry_text(
                removal != Removal::File,
                path@,
                attempt as nat,
                self.spec_config().max_retries as nat,
                self.spec_config().retry_delay_ms as nat,
                is_elevated,
                holders@,
            ),
    {
        let mut r = String::from_str("Could not delete ");
        if removal != Removal::File {
            r.append("directory");
        } else {
            r.append("file");
        }
        r.append(" \"");
        r.append(path);
        r.append("\". Beginning retry ");
        r.append(decimal_text(attempt).as_str());
        r.append("/");
        r.append(decimal_text(self.config.max_retries as u64).as_str());
        r.append(" in ");
        r.append(decimal_text(self.config.retry_delay_ms).as_str());
        r.append("ms. ");
        if is_elevated {
            r.append("ForceOps process is elevated");
        } else {
            r.append("ForceOps process is not elevated");
        }
        r.append(". Found ");
        r.append(decimal_text(holders.len() as u64).as_str());
        r.append(" ");
        if holders.len() == 1 {
            r.append("process");
        } else {
            r.append("processes");
        }
        r.append(" to try to kill: [");
        r.append(holder_list(holders).as_str());
        r.append("].");
        r
    }
}

} // verus!
