use vstd::prelude::*;
use crate::config::Config;
use crate::outcome::spec_classify;
use crate::outcome::ExitClass;
use crate::outcome::RunOutcome;

verus! {

/// The four ordered stages of a backup cycle.
#[derive(Debug, Clone, Copy, PartialEq, Eq, Structural)]
pub enum Stage {
    Create,
    Prune,
    Compact,
    Check,
}

/// Every fatal way a backup cycle can end. `LockHeld` and `LockCreateFailed`
/// occur before anything was acquired; the others occur under the lock.
#[derive(Debug, Clone, Copy, PartialEq, Eq, Structural)]
pub enum CycleError {
    LockHeld,
    LockCreateFailed,
    LogOpenFailed,
    SpawnError(Stage),
    StageExitError(Stage, i32),
}

/// One journal write, identified by which event it reports. The exit-code
/// policy is uniform: every stage that exits with code 1 writes a warning
/// line in place of its completion line — `BackupWarning` for the create
/// stage, `StageWarning` for prune, compact and check.
#[derive(Debug, Clone, Copy, PartialEq, Eq, Structural)]
pub enum LogEvent {
    StartingBackup,
    BackupSuccess,
    BackupWarning,
    PruneStart,
    PruneDone,
    CompactStart,
    CompactDone,
    CheckStart,
    CheckDone,
    StageWarning(Stage),
    CycleComplete,
    ErrorLine(CycleError),
}

/// Everything outside the orchestrator's control that decides one cycle:
/// what the filesystem and the external processes will do, and today's
/// ISO weekday.
#[derive(Debug, Clone, Copy)]
pub struct CyclePlan {
    pub lock_exists: bool,
    pub lock_create_ok: bool,
    pub log_open_ok: bool,
    pub create: RunOutcome,
    pub prune: RunOutcome,
    pub compact: RunOutcome,
    pub check: RunOutcome,
    pub today: u32,
}

/// The observable effects of one cycle: which stages were invoked, the
/// journal writes, the lock and log lifecycle, whether a notification was
/// attempted, and the overall result.
#[derive(Debug)]
pub struct CycleTrace {
    pub stages_run: Vec<Stage>,
    pub log: Vec<LogEvent>,
    pub lock_created: bool,
    pub lock_released: bool,
    pub log_opened: bool,
    pub notified: bool,
    pub result: Result<(), CycleError>,
}

/// The exit status a stage outcome reports, with signal termination mapped
/// to no code.
pub open spec fn spec_code_of(o: RunOutcome) -> Option<i32> {
    match o {
        RunOutcome::Exited(c) => Option::Some(c),
        _ => Option::None,
    }
}

/// A stage outcome is a hard failure when the process could not be spawned
/// or its exit status classifies as a failure (code 2 or more, or a signal).
pub open spec fn spec_outcome_fails(o: RunOutcome) -> bool {
    o == RunOutcome::SpawnFailure || spec_classify(spec_code_of(o)) == ExitClass::Failure
}

/// A stage outcome is a warning exactly when the process exited with code 1.
pub open spec fn spec_outcome_warns(o: RunOutcome) -> bool {
    o != RunOutcome::SpawnFailure && spec_classify(spec_code_of(o)) == ExitClass::Warning
}

/// The error a failed stage propagates: a spawn error, or the failing exit
/// code (2 for signal termination).
pub open spec fn spec_stage_error(s: Stage, o: RunOutcome) -> CycleError {
    match o {
        RunOutcome::SpawnFailure => CycleError::SpawnError(s),
        RunOutcome::Signaled => CycleError::StageExitError(s, 2),
        RunOutcome::Exited(c) => CycleError::StageExitError(s, c),
    }
}

/// The journal event a stage writes when it succeeds with exit code 0.
pub open spec fn spec_stage_done_event(s: Stage) -> LogEvent {
    match s {
        Stage::Create => LogEvent::BackupSuccess,
        Stage::Prune => LogEvent::PruneDone,
        Stage::Compact => LogEvent::CompactDone,
        Stage::Check => LogEvent::CheckDone,
    }
}

/// The journal event a stage writes when it succeeds with warnings
/// (exit code 1).
pub open spec fn spec_stage_warn_event(s: Stage) -> LogEvent {
    match s {
        Stage::Create => LogEvent::BackupWarning,
        _ => LogEvent::StageWarning(s),
    }
}

/// What one stage's outcome means under the uniform exit-code policy: the
/// journal event to write when the cycle continues (a completion line for
/// exit 0, a warning line for exit 1), or the error that aborts it.
pub open spec fn spec_settle_stage(s: Stage, o: RunOutcome) -> Result<LogEvent, CycleError> {
    if spec_outcome_fails(o) {
        Result::Err(spec_stage_error(s, o))
    } else if spec_outcome_warns(o) {
        Result::Ok(spec_stage_warn_event(s))
    } else {
        Result::Ok(spec_stage_done_event(s))
    }
}

/// The check stage is scheduled exactly when `check_day` is not 0 and equals
/// today's ISO weekday.
pub open spec fn spec_check_scheduled(check_day: u32, today: u32) -> bool {
    check_day != 0 && today == check_day
}

/// The lock marker is created exactly when it did not pre-exist and its
/// creation succeeded.
pub open spec fn spec_lock_created(p: CyclePlan) -> bool {
    !p.lock_exists && p.lock_create_ok
}

/// The journal is opened exactly when the lock was taken and opening
/// succeeded.
pub open spec fn spec_log_opened(p: CyclePlan) -> bool {
    spec_lock_created(p) && p.log_open_ok
}

/// The result of one cycle: the first fatal error in stage order, or
/// success. Skipped stages (compact when `auto_compact` is off, check when
/// not scheduled) cannot fail.
pub open spec fn spec_cycle_result(c: Config, p: CyclePlan) -> Result<(), CycleError> {
    if p.lock_exists {
        Result::Err(CycleError::LockHeld)
    } else if !p.lock_create_ok {
        Result::Err(CycleError::LockCreateFailed)
    } else if !p.log_open_ok {
        Result::Err(CycleError::LogOpenFailed)
    } else if spec_outcome_fails(p.create) {
        Result::Err(spec_stage_error(Stage::Create, p.create))
    } else if spec_outcome_fails(p.prune) {
        Result::Err(spec_stage_error(Stage::Prune, p.prune))
    } else if c.maintenance.auto_compact && spec_outcome_fails(p.compact) {
        Result::Err(spec_stage_error(Stage::Compact, p.compact))
    } else if spec_check_scheduled(c.maintenance.check_day, p.today) && spec_outcome_fails(
        p.check,
    ) {
        Result::Err(spec_stage_error(Stage::Check, p.check))
    } else {
        Result::Ok(())
    }
}

/// The stages whose external process is invoked, in invocation order.
pub open spec fn spec_stages_run(c: Config, p: CyclePlan) -> Seq<Stage> {
    if !spec_log_opened(p) {
        Seq::empty()
    } else if spec_outcome_fails(p.create) {
        seq![Stage::Create]
    } else if spec_outcome_fails(p.prune) {
        seq![Stage::Create, Stage::Prune]
    } else if c.maintenance.auto_compact {
        if spec_outcome_fails(p.compact) || !spec_check_scheduled(c.maintenance.check_day, p.today) {
            seq![Stage::Create, Stage::Prune, Stage::Compact]
        } else {
            seq![Stage::Create, Stage::Prune, Stage::Compact, Stage::Check]
        }
    } else {
        if spec_check_scheduled(c.maintenance.check_day, p.today) {
            seq![Stage::Create, Stage::Prune, Stage::Check]
        } else {
            seq![Stage::Create, Stage::Prune]
        }
    }
}

/// The journal writes from the check-day decision onward.
pub open spec fn spec_log_from_check(c: Config, p: CyclePlan) -> Seq<LogEvent> {
    if spec_check_scheduled(c.maintenance.check_day, p.today) {
        if spec_outcome_fails(p.check) {
            seq![
                LogEvent::CheckStart,
                LogEvent::ErrorLine(spec_stage_error(Stage::Check, p.check)),
            ]
        } else {
            seq![
                LogEvent::CheckStart,
                if spec_outcome_warns(p.check) {
                    spec_stage_warn_event(Stage::Check)
                } else {
                    LogEvent::CheckDone
                },
                LogEvent::CycleComplete,
            ]
        }
    } else {
        seq![LogEvent::CycleComplete]
    }
}

/// The journal writes from the compact decision onward.
pub open spec fn spec_log_from_compact(c: Config, p: CyclePlan) -> Seq<LogEvent> {
    if c.maintenance.auto_compact {
        if spec_outcome_fails(p.compact) {
            seq![
                LogEvent::CompactStart,
                LogEvent::ErrorLine(spec_stage_error(Stage::Compact, p.compact)),
            ]
        } else {
            seq![
                LogEvent::CompactStart,
                if spec_outcome_warns(p.compact) {
                    spec_stage_warn_event(Stage::Compact)
                } else {
                    LogEvent::CompactDone
                },
            ] + spec_log_from_check(c, p)
        }
    } else {
        spec_log_from_check(c, p)
    }
}

/// The journal writes of one whole cycle, in order. A cycle refused for a
/// held or uncreatable lock writes nothing at all.
pub open spec fn spec_cycle_log(c: Config, p: CyclePlan) -> Seq<LogEvent> {
    if !spec_lock_created(p) {
        Seq::empty()
    } else if !p.log_open_ok {
        seq![LogEvent::ErrorLine(CycleError::LogOpenFailed)]
    } else if spec_outcome_fails(p.create) {
        seq![
            LogEvent::StartingBackup,
            LogEvent::ErrorLine(spec_stage_error(Stage::Create, p.create)),
        ]
    } else {
        seq![
            LogEvent::StartingBackup,
            if spec_outcome_warns(p.create) {
                LogEvent::BackupWarning
            } else {
                LogEvent::BackupSuccess
            },
            LogEvent::PruneStart,
        ] + (if spec_outcome_fails(p.prune) {
            seq![LogEvent::ErrorLine(spec_stage_error(Stage::Prune, p.prune))]
        } else {
            seq![
                if spec_outcome_warns(p.prune) {
                    spec_stage_warn_event(Stage::Prune)
                } else {
                    LogEvent::PruneDone
                },
            ] + spec_log_from_compact(c, p)
        })
    }
}

/// A failure notification is attempted exactly when the cycle got as far as
/// holding the lock, then failed, and notifications are enabled.
pub open spec fn spec_notified(c: Config, p: CyclePlan) -> bool {
    c.notifications.enabled && spec_lock_created(p) && spec_cycle_result(c, p) !== Result::Ok(())
}

/// Whether a stage outcome is a hard failure under the exit-code policy.
pub fn outcome_fails(o: &RunOutcome) -> (r: bool)
    ensures
        r == spec_outcome_fails(*o),
{
    match o {
        RunOutcome::SpawnFailure => true,
        RunOutcome::Signaled => true,
        RunOutcome::Exited(code) => *code >= 2,
    }
}

/// Whether a stage outcome is a warning (exit code 1).
pub fn outcome_warns(o: &RunOutcome) -> (r: bool)
    ensures
        r == spec_outcome_warns(*o),
{
    match o {
        RunOutcome::Exited(code) => *code == 1,
        _ => false,
    }
}

/// The error a failed stage propagates.
pub fn stage_error(s: Stage, o: &RunOutcome) -> (e: CycleError)
    ensures
        e == spec_stage_error(s, *o),
{
    match o {
        RunOutcome::SpawnFailure => CycleError::SpawnError(s),
        RunOutcome::Signaled => CycleError::StageExitError(s, 2),
        RunOutcome::Exited(code) => CycleError::StageExitError(s, *code),
    }
}

/// Settles one stage's outcome under the uniform exit-code policy: the
/// journal event to write when the cycle continues, or the aborting error.
pub fn settle_stage(s: Stage, o: &RunOutcome) -> (r: Result<LogEvent, CycleError>)
    ensures
        r == spec_settle_stage(s, *o),
{
    if outcome_fails(o) {
        Result::Err(stage_error(s, o))
    } else if outcome_warns(o) {
        match s {
            Stage::Create => Result::Ok(LogEvent::BackupWarning),
            _ => Result::Ok(LogEvent::StageWarning(s)),
        }
    } else {
        match s {
            Stage::Create => Result::Ok(LogEvent::BackupSuccess),
            Stage::Prune => Result::Ok(LogEvent::PruneDone),
            Stage::Compact => Result::Ok(LogEvent::CompactDone),
            Stage::Check => Result::Ok(LogEvent::CheckDone),
        }
    }
}

/// Whether the integrity check runs today: never when `check_day` is 0,
/// otherwise exactly on the configured ISO weekday.
pub fn check_scheduled(check_day: u32, today: u32) -> (r: bool)
    ensures
        r == spec_check_scheduled(check_day, today),
{
    check_day != 0 && today == check_day
}

/// Plays one whole backup cycle against a plan of external outcomes and
/// returns its full observable trace. This is the orchestrator's decision
/// logic; performing the effects in the traced order is the caller's part.
pub fn run_cycle(c: &Config, p: &CyclePlan) -> (t: CycleTrace)
    ensures
        t.result == spec_cycle_result(*c, *p),
        t.stages_run@ == spec_stages_run(*c, *p),
        t.log@ == spec_cycle_log(*c, *p),
        t.lock_created == spec_lock_created(*p),
        t.lock_released == spec_lock_created(*p),
        t.log_opened == spec_log_opened(*p),
        t.notified == spec_notified(*c, *p),
{
    let mut stages: Vec<Stage> = Vec::new();
    let mut log: Vec<LogEvent> = Vec::new();
    if p.lock_exists {
        let t = CycleTrace {
            stages_run: stages,
            log,
            lock_created: false,
            lock_released: false,
            log_opened: false,
            notified: false,
            result: Result::Err(CycleError::LockHeld),
        };
        proof {
            assert(t.stages_run@ =~= spec_stages_run(*c, *p));
            assert(t.log@ =~= spec_cycle_log(*c, *p));
        }
        return t;
    }
    if !p.lock_create_ok {
        let t = CycleTrace {
            stages_run: stages,
            log,
            lock_created: false,
            lock_released: false,
            log_opened: false,
            notified: false,
            result: Result::Err(CycleError::LockCreateFailed),
        };
        proof {
            assert(t.stages_run@ =~= spec_stages_run(*c, *p));
            assert(t.log@ =~= spec_cycle_log(*c, *p));
        }
        return t;
    }
    let result: Result<(), CycleError> = if !p.log_open_ok {
        log.push(LogEvent::ErrorLine(CycleError::LogOpenFailed));
        Result::Err(CycleError::LogOpenFailed)
    } else {
        log.push(LogEvent::StartingBackup);
        stages.push(Stage::Create);
        match settle_stage(Stage::Create, &p.create) {
            Result::Err(e) => {
                log.push(LogEvent::ErrorLine(e));
                Result::Err(e)
            },
            Result::Ok(ev) => {
                log.push(ev);
                log.push(LogEvent::PruneStart);
                stages.push(Stage::Prune);
                match settle_stage(Stage::Prune, &p.prune) {
                    Result::Err(e) => {
                        log.push(LogEvent::ErrorLine(e));
                        Result::Err(e)
                    },
                    Result::Ok(ev) => {
                        log.push(ev);
                        let compact_result: Result<(), CycleError> = if c.maintenance.auto_compact {
                            log.push(LogEvent::CompactStart);
                            stages.push(Stage::Compact);
                            match settle_stage(Stage::Compact, &p.compact) {
                                Result::Err(e) => {
                                    log.push(LogEvent::ErrorLine(e));
                                    Result::Err(e)
                                },
                                Result::Ok(ev) => {
                                    log.push(ev);
                                    Result::Ok(())
                                },
                            }
                        } else {
                            Result::Ok(())
                        };
                        match compact_result {
                            Result::Err(e) => Result::Err(e),
                            Result::Ok(_) => {
                                if check_scheduled(c.maintenance.check_day, p.today) {
                                    log.push(LogEvent::CheckStart);
                                    stages.push(Stage::Check);
                                    match settle_stage(Stage::Check, &p.check) {
                                        Result::Err(e) => {
                                            log.push(LogEvent::ErrorLine(e));
                                            Result::Err(e)
                                        },
                                        Result::Ok(ev) => {
                                            log.push(ev);
                                            log.push(LogEvent::CycleComplete);
                                            Result::Ok(())
                                        },
                                    }
                                } else {
                                    log.push(LogEvent::CycleComplete);
                                    Result::Ok(())
                                }
                            },
                        }
                    },
                }
            },
        }
    };
    let failed = match &result {
        Result::Ok(_) => false,
        Result::Err(_) => true,
    };
    let t = CycleTrace {
        stages_run: stages,
        log,
        lock_created: true,
        lock_released: true,
        log_opened: p.log_open_ok,
        notified: failed && c.notifications.enabled,
        result,
    };
    proof {
        assert(t.stages_run@ =~= spec_stages_run(*c, *p));
        assert(t.log@ =~= spec_cycle_log(*c, *p));
    }
    t
}

/// How many error lines a journal holds.
pub open spec fn spec_error_count(log: Seq<LogEvent>) -> nat
    decreases log.len(),
{
    if log.len() == 0 {
        0
    } else {
        spec_error_count(log.drop_last()) + (if log.last() is ErrorLine {
            1nat
        } else {
            0nat
        })
    }
}

proof fn lemma_error_count_concat(a: Seq<LogEvent>, b: Seq<LogEvent>)
    ensures
        spec_error_count(a + b) == spec_error_count(a) + spec_error_count(b),
    decreases b.len(),
{
    if b.len() == 0 {
        assert(a + b =~= a);
    } else {
        lemma_error_count_concat(a, b.drop_last());
        assert((a + b).drop_last() =~= a + b.drop_last());
        assert((a + b).last() == b.last());
    }
}

/// The lock marker's discipline: a pre-existing marker refuses the cycle at
/// once and nothing is created; otherwise the marker is released exactly
/// when it was created; and no stage ever runs without the marker held.
pub proof fn lemma_lock_never_leaked(c: Config, p: CyclePlan)
    ensures
        p.lock_exists ==> !spec_lock_created(p) && spec_cycle_result(c, p) == Result::<
            (),
            CycleError,
        >::Err(CycleError::LockHeld),
        spec_stages_run(c, p).len() > 0 ==> spec_lock_created(p),
{
}

/// A cycle refused for a held lock touches nothing: no journal write, no
/// stage invocation, no notification.
pub proof fn lemma_lock_held_touches_nothing(c: Config, p: CyclePlan)
    requires
        p.lock_exists,
    ensures
        spec_cycle_result(c, p) == Result::<(), CycleError>::Err(CycleError::LockHeld),
        spec_cycle_log(c, p) == Seq::<LogEvent>::empty(),
        spec_stages_run(c, p) == Seq::<Stage>::empty(),
        !spec_log_opened(p),
        !spec_notified(c, p),
{
}

/// Exit-code thresholds at the create stage: code 0 continues with a
/// success line, code 1 continues with a warning line, and code 2 or more
/// (or a signal, or a spawn failure) halts every remaining stage.
pub proof fn lemma_exit_code_thresholds(c: Config, p: CyclePlan)
    requires
        spec_log_opened(p),
    ensures
        p.create == RunOutcome::Exited(0) ==> spec_cycle_log(c, p)[1] == LogEvent::BackupSuccess
            && spec_stages_run(c, p).contains(Stage::Prune),
        p.create == RunOutcome::Exited(1) ==> spec_cycle_log(c, p)[1] == LogEvent::BackupWarning
            && spec_stages_run(c, p).contains(Stage::Prune),
        spec_outcome_fails(p.create) ==> spec_stages_run(c, p) == seq![Stage::Create]
            && spec_cycle_result(c, p) == Result::<(), CycleError>::Err(
            spec_stage_error(Stage::Create, p.create),
        ),
        forall|code: i32|
            p.create == RunOutcome::Exited(code) ==> (spec_outcome_fails(p.create) <==> code >= 2),
{
    if !spec_outcome_fails(p.create) {
        assert(spec_stages_run(c, p)[1] == Stage::Prune);
        assert(spec_stages_run(c, p).contains(Stage::Prune));
    }
}

/// The check-day gate: a check day of 0 disables the integrity check for
/// every weekday; a check day of 1..=7 runs it exactly when today matches
/// and every earlier stage went through.
pub proof fn lemma_check_day_gate(c: Config, p: CyclePlan)
    ensures
        c.maintenance.check_day == 0 ==> !spec_stages_run(c, p).contains(Stage::Check),
        spec_stages_run(c, p).contains(Stage::Check) <==> (spec_log_opened(p)
            && !spec_outcome_fails(p.create) && !spec_outcome_fails(p.prune)
            && !(c.maintenance.auto_compact && spec_outcome_fails(p.compact))
            && spec_check_scheduled(c.maintenance.check_day, p.today)),
{
    let s = spec_stages_run(c, p);
    if spec_log_opened(p) && !spec_outcome_fails(p.create) && !spec_outcome_fails(p.prune) && !(
    c.maintenance.auto_compact && spec_outcome_fails(p.compact)) && spec_check_scheduled(
        c.maintenance.check_day,
        p.today,
    ) {
        assert(s.last() == Stage::Check);
        assert(s.contains(Stage::Check));
    } else {
        assert(forall|i: int| 0 <= i < s.len() ==> s[i] != Stage::Check);
    }
}

/// The compact gate: with `auto_compact` off, the compact stage is never
/// invoked and the cycle's result, journal and stage list do not depend on
/// the compact outcome at all — the cycle proceeds directly to the
/// check-day decision.
pub proof fn lemma_auto_compact_gate(c: Config, p: CyclePlan, other: RunOutcome)
    requires
        !c.maintenance.auto_compact,
    ensures
        !spec_stages_run(c, p).contains(Stage::Compact),
        spec_cycle_result(c, p) == spec_cycle_result(c, CyclePlan { compact: other, ..p }),
        spec_stages_run(c, p) == spec_stages_run(c, CyclePlan { compact: other, ..p }),
        spec_cycle_log(c, p) == spec_cycle_log(c, CyclePlan { compact: other, ..p }),
{
    let s = spec_stages_run(c, p);
    assert(forall|i: int| 0 <= i < s.len() ==> s[i] != Stage::Compact);
    let q = CyclePlan { compact: other, ..p };
    assert(spec_stages_run(c, p) =~= spec_stages_run(c, q));
    assert(spec_log_from_check(c, p) =~= spec_log_from_check(c, q));
    assert(spec_cycle_log(c, p) =~= spec_cycle_log(c, q));
}

/// The journal discipline for error lines: a cycle refused at the lock
/// writes nothing; a successful cycle writes no error line; a cycle that
/// failed after taking the lock writes exactly one.
#[verifier::rlimit(100)]
pub proof fn lemma_one_error_line(c: Config, p: CyclePlan)
    ensures
        !spec_lock_created(p) ==> spec_cycle_log(c, p).len() == 0,
        spec_cycle_result(c, p) == Result::<(), CycleError>::Ok(()) ==> spec_error_count(
            spec_cycle_log(c, p),
        ) == 0,
        spec_lock_created(p) && spec_cycle_result(c, p) !== Result::<(), CycleError>::Ok(())
            ==> spec_error_count(spec_cycle_log(c, p)) == 1,
{
    reveal_with_fuel(spec_error_count, 6);
    if spec_lock_created(p) && p.log_open_ok && !spec_outcome_fails(p.create) && !spec_outcome_fails(
        p.prune,
    ) {
        let head = seq![
            LogEvent::StartingBackup,
            if spec_outcome_warns(p.create) {
                LogEvent::BackupWarning
            } else {
                LogEvent::BackupSuccess
            },
            LogEvent::PruneStart,
        ];
        let prune_line = seq![
            if spec_outcome_warns(p.prune) {
                spec_stage_warn_event(Stage::Prune)
            } else {
                LogEvent::PruneDone
            },
        ];
        let tail = prune_line + spec_log_from_compact(c, p);
        lemma_error_count_concat(head, tail);
        lemma_error_count_concat(prune_line, spec_log_from_compact(c, p));
        if c.maintenance.auto_compact && !spec_outcome_fails(p.compact) {
            lemma_error_count_concat(
                seq![
                    LogEvent::CompactStart,
                    if spec_outcome_warns(p.compact) {
                        spec_stage_warn_event(Stage::Compact)
                    } else {
                        LogEvent::CompactDone
                    },
                ],
                spec_log_from_check(c, p),
            );
        }
        assert(spec_error_count(head) == 0);
    }
}

/// How many times one journal event occurs in a log.
pub open spec fn spec_event_count(log: Seq<LogEvent>, ev: LogEvent) -> nat
    decreases log.len(),
{
    if log.len() == 0 {
        0
    } else {
        spec_event_count(log.drop_last(), ev) + (if log.last() == ev {
            1nat
        } else {
            0nat
        })
    }
}

proof fn lemma_event_count_concat(a: Seq<LogEvent>, b: Seq<LogEvent>, ev: LogEvent)
    ensures
        spec_event_count(a + b, ev) == spec_event_count(a, ev) + spec_event_count(b, ev),
    decreases b.len(),
{
    if b.len() == 0 {
        assert(a + b =~= a);
    } else {
        lemma_event_count_concat(a, b.drop_last(), ev);
        assert((a + b).drop_last() =~= a + b.drop_last());
        assert((a + b).last() == b.last());
    }
}

proof fn lemma_warning_counts_from_check(c: Config, p: CyclePlan)
    ensures
        spec_event_count(spec_log_from_check(c, p), LogEvent::BackupWarning) == 0,
        spec_event_count(spec_log_from_check(c, p), LogEvent::StageWarning(Stage::Prune)) == 0,
        spec_event_count(spec_log_from_check(c, p), LogEvent::StageWarning(Stage::Compact)) == 0,
        spec_event_count(spec_log_from_check(c, p), LogEvent::StageWarning(Stage::Check)) == (
        if spec_check_scheduled(c.maintenance.check_day, p.today) && !spec_outcome_fails(p.check)
            && spec_outcome_warns(p.check) {
            1nat
        } else {
            0nat
        }),
{
    reveal_with_fuel(spec_event_count, 4);
}

proof fn lemma_warning_counts_from_compact(c: Config, p: CyclePlan)
    ensures
        spec_event_count(spec_log_from_compact(c, p), LogEvent::BackupWarning) == 0,
        spec_event_count(spec_log_from_compact(c, p), LogEvent::StageWarning(Stage::Prune)) == 0,
        spec_event_count(spec_log_from_compact(c, p), LogEvent::StageWarning(Stage::Compact)) == (
        if c.maintenance.auto_compact && !spec_outcome_fails(p.compact) && spec_outcome_warns(
            p.compact,
        ) {
            1nat
        } else {
            0nat
        }),
        spec_event_count(spec_log_from_compact(c, p), LogEvent::StageWarning(Stage::Check)) == (
        if !(c.maintenance.auto_compact && spec_outcome_fails(p.compact)) && spec_check_scheduled(
            c.maintenance.check_day,
            p.today,
        ) && !spec_outcome_fails(p.check) && spec_outcome_warns(p.check) {
            1nat
        } else {
            0nat
        }),
{
    reveal_with_fuel(spec_event_count, 3);
    lemma_warning_counts_from_check(c, p);
    if c.maintenance.auto_compact && !spec_outcome_fails(p.compact) {
        let compact_head = seq![
            LogEvent::CompactStart,
            if spec_outcome_warns(p.compact) {
                spec_stage_warn_event(Stage::Compact)
            } else {
                LogEvent::CompactDone
            },
        ];
        lemma_event_count_concat(compact_head, spec_log_from_check(c, p), LogEvent::BackupWarning);
        lemma_event_count_concat(
            compact_head,
            spec_log_from_check(c, p),
            LogEvent::StageWarning(Stage::Prune),
        );
        lemma_event_count_concat(
            compact_head,
            spec_log_from_check(c, p),
            LogEvent::StageWarning(Stage::Compact),
        );
        lemma_event_count_concat(
            compact_head,
            spec_log_from_check(c, p),
            LogEvent::StageWarning(Stage::Check),
        );
    }
}

/// The warning policy is uniform across the four stages: once the journal
/// is open, each stage that runs and exits with code 1 writes exactly one
/// warning line of its own, the cycle continues past it, and no stage that
/// exits 0, fails, or is skipped writes one.
#[verifier::rlimit(100)]
pub proof fn lemma_uniform_warning_policy(c: Config, p: CyclePlan)
    requires
        spec_log_opened(p),
    ensures
        spec_outcome_warns(p.create) ==> !spec_outcome_fails(p.create),
        spec_event_count(spec_cycle_log(c, p), LogEvent::BackupWarning) == (
        if spec_outcome_warns(p.create) {
            1nat
        } else {
            0nat
        }),
        spec_event_count(spec_cycle_log(c, p), LogEvent::StageWarning(Stage::Prune)) == (
        if !spec_outcome_fails(p.create) && spec_outcome_warns(p.prune) {
            1nat
        } else {
            0nat
        }),
        spec_event_count(spec_cycle_log(c, p), LogEvent::StageWarning(Stage::Compact)) == (
        if !spec_outcome_fails(p.create) && !spec_outcome_fails(p.prune)
            && c.maintenance.auto_compact && spec_outcome_warns(p.compact) {
            1nat
        } else {
            0nat
        }),
        spec_event_count(spec_cycle_log(c, p), LogEvent::StageWarning(Stage::Check)) == (
        if !spec_outcome_fails(p.create) && !spec_outcome_fails(p.prune) && !(
        c.maintenance.auto_compact && spec_outcome_fails(p.compact)) && spec_check_scheduled(
            c.maintenance.check_day,
            p.today,
        ) && spec_outcome_warns(p.check) {
            1nat
        } else {
            0nat
        }),
{
    reveal_with_fuel(spec_event_count, 4);
    if spec_outcome_warns(p.compact) {
        assert(!spec_outcome_fails(p.compact));
    }
    if spec_outcome_warns(p.check) {
        assert(!spec_outcome_fails(p.check));
    }
    if !spec_outcome_fails(p.create) && !spec_outcome_fails(p.prune) {
        lemma_warning_counts_from_compact(c, p);
        let head = seq![
            LogEvent::StartingBackup,
            if spec_outcome_warns(p.create) {
                LogEvent::BackupWarning
            } else {
                LogEvent::BackupSuccess
            },
            LogEvent::PruneStart,
        ];
        let prune_line = seq![
            if spec_outcome_warns(p.prune) {
                spec_stage_warn_event(Stage::Prune)
            } else {
                LogEvent::PruneDone
            },
        ];
        let tail = prune_line + spec_log_from_compact(c, p);
        lemma_event_count_concat(head, tail, LogEvent::BackupWarning);
        lemma_event_count_concat(prune_line, spec_log_from_compact(c, p), LogEvent::BackupWarning);
        lemma_event_count_concat(head, tail, LogEvent::StageWarning(Stage::Prune));
        lemma_event_count_concat(
            prune_line,
            spec_log_from_compact(c, p),
            LogEvent::StageWarning(Stage::Prune),
        );
        lemma_event_count_concat(head, tail, LogEvent::StageWarning(Stage::Compact));
        lemma_event_count_concat(
            prune_line,
            spec_log_from_compact(c, p),
            LogEvent::StageWarning(Stage::Compact),
        );
        lemma_event_count_concat(head, tail, LogEvent::StageWarning(Stage::Check));
        lemma_event_count_concat(
            prune_line,
            spec_log_from_compact(c, p),
            LogEvent::StageWarning(Stage::Check),
        );
    } else if !spec_outcome_fails(p.create) {
        let head = seq![
            LogEvent::StartingBackup,
            if spec_outcome_warns(p.create) {
                LogEvent::BackupWarning
            } else {
                LogEvent::BackupSuccess
            },
            LogEvent::PruneStart,
        ];
        let halt = seq![LogEvent::ErrorLine(spec_stage_error(Stage::Prune, p.prune))];
        lemma_event_count_concat(head, halt, LogEvent::BackupWarning);
        lemma_event_count_concat(head, halt, LogEvent::StageWarning(Stage::Prune));
        lemma_event_count_concat(head, halt, LogEvent::StageWarning(Stage::Compact));
        lemma_event_count_concat(head, halt, LogEvent::StageWarning(Stage::Check));
    }
}

/// A failing cycle with notifications disabled still logs the error and
/// still releases the lock, but attempts no outbound mail.
pub proof fn lemma_notifications_disabled(c: Config, p: CyclePlan)
    requires
        !c.notifications.enabled,
    ensures
        !spec_notified(c, p),
        spec_lock_created(p) && spec_cycle_result(c, p) !== Result::<(), CycleError>::Ok(())
            ==> spec_error_count(spec_cycle_log(c, p)) == 1,
{
    lemma_one_error_line(c, p);
}

} // verus!
