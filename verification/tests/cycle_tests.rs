use borg_timemachine::config::Config;
use borg_timemachine::cycle::check_scheduled;
use borg_timemachine::cycle::run_cycle;
use borg_timemachine::cycle::CycleError;
use borg_timemachine::cycle::CyclePlan;
use borg_timemachine::cycle::LogEvent;
use borg_timemachine::cycle::Stage;
use borg_timemachine::outcome::classify_exit;
use borg_timemachine::outcome::strict_ok;
use borg_timemachine::outcome::ExitClass;
use borg_timemachine::outcome::RunOutcome;

fn smooth_plan() -> CyclePlan {
    CyclePlan {
        lock_exists: false,
        lock_create_ok: true,
        log_open_ok: true,
        create: RunOutcome::Exited(0),
        prune: RunOutcome::Exited(0),
        compact: RunOutcome::Exited(0),
        check: RunOutcome::Exited(0),
        today: 7,
    }
}

#[test]
fn exit_code_thresholds() {
    assert_eq!(classify_exit(Some(0)), ExitClass::Success);
    assert_eq!(classify_exit(Some(1)), ExitClass::Warning);
    assert_eq!(classify_exit(Some(2)), ExitClass::Failure);
    assert_eq!(classify_exit(Some(77)), ExitClass::Failure);
    assert_eq!(classify_exit(None), ExitClass::Failure);
    assert!(strict_ok(Some(0)));
    assert!(!strict_ok(Some(1)));
    assert!(!strict_ok(None));
}

#[test]
fn check_day_zero_never_schedules() {
    for today in 1..=7 {
        assert!(!check_scheduled(0, today));
    }
    for day in 1..=7 {
        for today in 1..=7 {
            assert_eq!(check_scheduled(day, today), day == today);
        }
    }
}

#[test]
fn full_cycle_success_trace() {
    let c = Config::example();
    let p = smooth_plan();
    let t = run_cycle(&c, &p);
    assert_eq!(t.result, Ok(()));
    assert_eq!(
        t.stages_run,
        vec![Stage::Create, Stage::Prune, Stage::Compact, Stage::Check]
    );
    assert_eq!(
        t.log,
        vec![
            LogEvent::StartingBackup,
            LogEvent::BackupSuccess,
            LogEvent::PruneStart,
            LogEvent::PruneDone,
            LogEvent::CompactStart,
            LogEvent::CompactDone,
            LogEvent::CheckStart,
            LogEvent::CheckDone,
            LogEvent::CycleComplete,
        ]
    );
    assert!(t.lock_created && t.lock_released && t.log_opened);
    assert!(!t.notified);
}

#[test]
fn warning_exit_continues_with_warning_line() {
    let c = Config::example();
    let mut p = smooth_plan();
    p.create = RunOutcome::Exited(1);
    let t = run_cycle(&c, &p);
    assert_eq!(t.result, Ok(()));
    assert_eq!(t.log[1], LogEvent::BackupWarning);
    assert!(t.stages_run.contains(&Stage::Prune));
}

#[test]
fn warning_exit_at_each_maintenance_stage() {
    // The warning policy is uniform: exit 1 at prune, compact or check
    // writes that stage's warning line and the cycle still completes.
    let c = Config::example();
    let mut p = smooth_plan();
    p.prune = RunOutcome::Exited(1);
    let t = run_cycle(&c, &p);
    assert_eq!(t.result, Ok(()));
    assert!(t.log.contains(&LogEvent::StageWarning(Stage::Prune)));
    assert!(!t.log.contains(&LogEvent::PruneDone));
    assert!(t.stages_run.contains(&Stage::Compact));

    let mut p = smooth_plan();
    p.compact = RunOutcome::Exited(1);
    let t = run_cycle(&c, &p);
    assert_eq!(t.result, Ok(()));
    assert!(t.log.contains(&LogEvent::StageWarning(Stage::Compact)));
    assert!(!t.log.contains(&LogEvent::CompactDone));
    assert!(t.stages_run.contains(&Stage::Check));

    let mut p = smooth_plan();
    p.check = RunOutcome::Exited(1);
    let t = run_cycle(&c, &p);
    assert_eq!(t.result, Ok(()));
    assert_eq!(
        t.log,
        vec![
            LogEvent::StartingBackup,
            LogEvent::BackupSuccess,
            LogEvent::PruneStart,
            LogEvent::PruneDone,
            LogEvent::CompactStart,
            LogEvent::CompactDone,
            LogEvent::CheckStart,
            LogEvent::StageWarning(Stage::Check),
            LogEvent::CycleComplete,
        ]
    );
}

#[test]
fn lock_held_touches_nothing() {
    // Scenario: the lock marker pre-exists, so the cycle returns LockHeld
    // at once, with no journal write and no stage invocation.
    let c = Config::example();
    let mut p = smooth_plan();
    p.lock_exists = true;
    let t = run_cycle(&c, &p);
    assert_eq!(t.result, Err(CycleError::LockHeld));
    assert!(t.log.is_empty());
    assert!(t.stages_run.is_empty());
    assert!(!t.lock_created && !t.lock_released && !t.log_opened);
    assert!(!t.notified);
}

#[test]
fn create_failure_halts_cycle() {
    // Scenario: create exits 2, so prune/compact/check never run, the
    // journal holds exactly one error line, notification is attempted, and
    // the lock marker is removed afterward.
    let mut c = Config::example();
    c.notifications.enabled = true;
    let mut p = smooth_plan();
    p.create = RunOutcome::Exited(2);
    let t = run_cycle(&c, &p);
    assert_eq!(
        t.result,
        Err(CycleError::StageExitError(Stage::Create, 2))
    );
    assert_eq!(t.stages_run, vec![Stage::Create]);
    let error_lines = t
        .log
        .iter()
        .filter(|e| matches!(e, LogEvent::ErrorLine(_)))
        .count();
    assert_eq!(error_lines, 1);
    assert!(t.notified);
    assert!(t.lock_created && t.lock_released);
}

#[test]
fn notifications_disabled_still_logs_and_releases() {
    // Scenario: notifications are disabled, the cycle fails; the error is
    // still logged and the lock still released, but no mail is attempted.
    let mut c = Config::example();
    c.notifications.enabled = false;
    let mut p = smooth_plan();
    p.prune = RunOutcome::Signaled;
    let t = run_cycle(&c, &p);
    assert_eq!(
        t.result,
        Err(CycleError::StageExitError(Stage::Prune, 2))
    );
    assert!(t
        .log
        .contains(&LogEvent::ErrorLine(CycleError::StageExitError(
            Stage::Prune,
            2
        ))));
    assert!(t.lock_released);
    assert!(!t.notified);
}

#[test]
fn auto_compact_off_skips_compact() {
    let mut c = Config::example();
    c.maintenance.auto_compact = false;
    let p = smooth_plan();
    let t = run_cycle(&c, &p);
    assert_eq!(t.result, Ok(()));
    assert!(!t.stages_run.contains(&Stage::Compact));
    assert!(t.stages_run.contains(&Stage::Check));
    // Whatever compact would have returned cannot matter when skipped.
    let mut p2 = p;
    p2.compact = RunOutcome::SpawnFailure;
    let t2 = run_cycle(&c, &p2);
    assert_eq!(t2.result, Ok(()));
    assert_eq!(t2.stages_run, t.stages_run);
}

#[test]
fn check_day_gates_check_stage() {
    let mut c = Config::example();
    c.maintenance.check_day = 3;
    let mut p = smooth_plan();
    p.today = 3;
    assert!(run_cycle(&c, &p).stages_run.contains(&Stage::Check));
    p.today = 4;
    assert!(!run_cycle(&c, &p).stages_run.contains(&Stage::Check));
    c.maintenance.check_day = 0;
    for today in 1..=7 {
        p.today = today;
        assert!(!run_cycle(&c, &p).stages_run.contains(&Stage::Check));
    }
}

#[test]
fn spawn_failure_is_fatal() {
    let c = Config::example();
    let mut p = smooth_plan();
    p.create = RunOutcome::SpawnFailure;
    let t = run_cycle(&c, &p);
    assert_eq!(t.result, Err(CycleError::SpawnError(Stage::Create)));
    assert_eq!(t.stages_run, vec![Stage::Create]);
}

#[test]
fn log_open_failure_releases_lock() {
    let mut c = Config::example();
    c.notifications.enabled = true;
    let mut p = smooth_plan();
    p.log_open_ok = false;
    let t = run_cycle(&c, &p);
    assert_eq!(t.result, Err(CycleError::LogOpenFailed));
    assert!(t.lock_created && t.lock_released);
    assert!(!t.log_opened);
    assert_eq!(t.log, vec![LogEvent::ErrorLine(CycleError::LogOpenFailed)]);
    assert!(t.notified);
}

#[test]
fn lock_create_failure_is_fatal_without_cleanup() {
    let c = Config::example();
    let mut p = smooth_plan();
    p.lock_create_ok = false;
    let t = run_cycle(&c, &p);
    assert_eq!(t.result, Err(CycleError::LockCreateFailed));
    assert!(!t.lock_created && !t.lock_released);
    assert!(t.log.is_empty() && t.stages_run.is_empty());
}
