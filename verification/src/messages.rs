use vstd::prelude::*;
use crate::cycle::CycleError;
use crate::cycle::LogEvent;
use crate::cycle::Stage;
use crate::numfmt::format_u32;
use crate::numfmt::spec_digits;

verus! {

/// The archiver subcommand name of a stage.
pub open spec fn spec_stage_name(s: Stage) -> Seq<char> {
    match s {
        Stage::Create => "create"@,
        Stage::Prune => "prune"@,
        Stage::Compact => "compact"@,
        Stage::Check => "check"@,
    }
}

/// The archiver subcommand name of a stage.
pub fn stage_name(s: Stage) -> (r: &'static str)
    ensures
        r@ == spec_stage_name(s),
{
    match s {
        Stage::Create => "create",
        Stage::Prune => "prune",
        Stage::Compact => "compact",
        Stage::Check => "check",
    }
}

/// An error is renderable when any exit code it carries is non-negative,
/// which holds of every error a cycle can propagate (failing codes are 2 or
/// more).
pub open spec fn spec_error_wf(e: CycleError) -> bool {
    match e {
        CycleError::StageExitError(_, code) => code >= 0,
        _ => true,
    }
}

/// The error text of a fatal cycle error, as it is logged, printed and
/// mailed. `lock_file` names the marker path for the lock-held message;
/// `detail` carries the operating system's own text for I/O and spawn
/// failures.
pub open spec fn spec_error_text(e: CycleError, lock_file: Seq<char>, detail: Seq<char>) -> Seq<
    char,
> {
    match e {
        CycleError::LockHeld => "Lock file exists at "@ + lock_file
            + ". Another backup may be running."@,
        CycleError::LockCreateFailed => "Failed to create lock file: "@ + detail,
        CycleError::LogOpenFailed => "Failed to open log file: "@ + detail,
        CycleError::SpawnError(s) => "Failed to run borg "@ + spec_stage_name(s) + ": "@ + detail,
        CycleError::StageExitError(s, code) => if s == Stage::Check {
            "Repository integrity check failed with exit code "@ + spec_digits(code as nat)
        } else {
            "borg "@ + spec_stage_name(s) + " failed with exit code "@ + spec_digits(code as nat)
        },
    }
}

/// Renders a fatal cycle error to its message text.
pub fn error_text(e: &CycleError, lock_file: &str, detail: &str) -> (r: String)
    requires
        spec_error_wf(*e),
    ensures
        r@ == spec_error_text(*e, lock_file@, detail@),
{
    match e {
        CycleError::LockHeld => {
            let mut s = String::from_str("Lock file exists at ");
            s.append(lock_file);
            s.append(". Another backup may be running.");
            proof {
                assert(s@ =~= spec_error_text(*e, lock_file@, detail@));
            }
            s
        },
        CycleError::LockCreateFailed => {
            let mut s = String::from_str("Failed to create lock file: ");
            s.append(detail);
            proof {
                assert(s@ =~= spec_error_text(*e, lock_file@, detail@));
            }
            s
        },
        CycleError::LogOpenFailed => {
            let mut s = String::from_str("Failed to open log file: ");
            s.append(detail);
            proof {
                assert(s@ =~= spec_error_text(*e, lock_file@, detail@));
            }
            s
        },
        CycleError::SpawnError(stage) => {
            let mut s = String::from_str("Failed to run borg ");
            s.append(stage_name(*stage));
            s.append(": ");
            s.append(detail);
            proof {
                assert(s@ =~= spec_error_text(*e, lock_file@, detail@));
            }
            s
        },
        CycleError::StageExitError(stage, code) => {
            if matches!(stage, Stage::Check) {
                let mut s = String::from_str("Repository integrity check failed with exit code ");
                s.append(format_u32(*code as u32).as_str());
                proof {
                    assert(s@ =~= spec_error_text(*e, lock_file@, detail@));
                }
                s
            } else {
                let mut s = String::from_str("borg ");
                s.append(stage_name(*stage));
                s.append(" failed with exit code ");
                s.append(format_u32(*code as u32).as_str());
                proof {
                    assert(s@ =~= spec_error_text(*e, lock_file@, detail@));
                }
                s
            }
        },
    }
}

/// The journal message of one log event. `archive` is the archive name the
/// starting line reports; `error` is the rendered error text for the error
/// line.
pub open spec fn spec_event_text(ev: LogEvent, archive: Seq<char>, error: Seq<char>) -> Seq<char> {
    match ev {
        LogEvent::StartingBackup => "Starting backup: "@ + archive,
        LogEvent::BackupSuccess => "Backup created successfully"@,
        LogEvent::BackupWarning => "Backup created with warnings (some files may have been skipped)"@,
        LogEvent::PruneStart => "Pruning old backups..."@,
        LogEvent::PruneDone => "Prune completed"@,
        LogEvent::CompactStart => "Compacting repository..."@,
        LogEvent::CompactDone => "Compact completed"@,
        LogEvent::CheckStart => "Running weekly integrity check..."@,
        LogEvent::CheckDone => "Integrity check passed"@,
        LogEvent::StageWarning(s) => match s {
            Stage::Create => "Backup created with warnings (some files may have been skipped)"@,
            Stage::Prune => "Prune completed with warnings"@,
            Stage::Compact => "Compact completed with warnings"@,
            Stage::Check => "Integrity check passed with warnings"@,
        },
        LogEvent::CycleComplete => "Backup cycle complete"@,
        LogEvent::ErrorLine(_) => "ERROR: "@ + error,
    }
}

/// Renders one log event to its journal message.
pub fn event_text(ev: &LogEvent, archive: &str, error: &str) -> (r: String)
    ensures
        r@ == spec_event_text(*ev, archive@, error@),
{
    match ev {
        LogEvent::StartingBackup => {
            let mut s = String::from_str("Starting backup: ");
            s.append(archive);
            proof {
                assert(s@ =~= spec_event_text(*ev, archive@, error@));
            }
            s
        },
        LogEvent::BackupSuccess => String::from_str("Backup created successfully"),
        LogEvent::BackupWarning => String::from_str(
            "Backup created with warnings (some files may have been skipped)",
        ),
        LogEvent::PruneStart => String::from_str("Pruning old backups..."),
        LogEvent::PruneDone => String::from_str("Prune completed"),
        LogEvent::CompactStart => String::from_str("Compacting repository..."),
        LogEvent::CompactDone => String::from_str("Compact completed"),
        LogEvent::CheckStart => String::from_str("Running weekly integrity check..."),
        LogEvent::CheckDone => String::from_str("Integrity check passed"),
        LogEvent::StageWarning(s) => match s {
            Stage::Create => String::from_str(
                "Backup created with warnings (some files may have been skipped)",
            ),
            Stage::Prune => String::from_str("Prune completed with warnings"),
            Stage::Compact => String::from_str("Compact completed with warnings"),
            Stage::Check => String::from_str("Integrity check passed with warnings"),
        },
        LogEvent::CycleComplete => String::from_str("Backup cycle complete"),
        LogEvent::ErrorLine(_) => {
            let mut s = String::from_str("ERROR: ");
            s.append(error);
            proof {
                assert(s@ =~= spec_event_text(*ev, archive@, error@));
            }
            s
        },
    }
}

/// The subject line of a failure notification, identifying the host.
pub open spec fn spec_notification_subject(hostname: Seq<char>) -> Seq<char> {
    "Backup Failure on "@ + hostname
}

/// Renders the failure-notification subject line.
pub fn notification_subject(hostname: &str) -> (r: String)
    ensures
        r@ == spec_notification_subject(hostname@),
{
    let mut s = String::from_str("Backup Failure on ");
    s.append(hostname);
    proof {
        assert(s@ =~= spec_notification_subject(hostname@));
    }
    s
}

/// The body of a failure notification, carrying the raw error text.
pub open spec fn spec_notification_body(error: Seq<char>) -> Seq<char> {
    "Borg backup failed: "@ + error
}

/// Renders the failure-notification body.
pub fn notification_body(error: &str) -> (r: String)
    ensures
        r@ == spec_notification_body(error@),
{
    let mut s = String::from_str("Borg backup failed: ");
    s.append(error);
    proof {
        assert(s@ =~= spec_notification_body(error@));
    }
    s
}

/// Every error a failing stage propagates is renderable: its exit code, if
/// any, is at least 2.
pub proof fn lemma_stage_error_wf(s: Stage, o: crate::outcome::RunOutcome)
    requires
        crate::cycle::spec_outcome_fails(o),
    ensures
        spec_error_wf(crate::cycle::spec_stage_error(s, o)),
{
}

} // verus!
