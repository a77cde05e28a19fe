use vstd::prelude::*;

verus! {

/// How one external invocation ended: the process could not be spawned at
/// all, exited with a numeric code, or was terminated by a signal.
#[derive(Debug, Clone, Copy, PartialEq, Eq, Structural)]
pub enum RunOutcome {
    SpawnFailure,
    Exited(i32),
    Signaled,
}

/// The archiver's exit-code classes for the resumable cycle stages:
/// 0 is success, 1 is success with warnings, 2 or more (or abnormal
/// termination) is a hard failure.
#[derive(Debug, Clone, Copy, PartialEq, Eq, Structural)]
pub enum ExitClass {
    Success,
    Warning,
    Failure,
}

/// The exit code used for classification: the reported code, or 2 when the
/// process was terminated by a signal.
pub open spec fn spec_effective_code(code: Option<i32>) -> int {
    match code {
        Option::Some(c) => c as int,
        Option::None => 2,
    }
}

/// Classification of an exit status for create/prune/compact/check.
pub open spec fn spec_classify(code: Option<i32>) -> ExitClass {
    if spec_effective_code(code) >= 2 {
        ExitClass::Failure
    } else if spec_effective_code(code) == 1 {
        ExitClass::Warning
    } else {
        ExitClass::Success
    }
}

/// The exit code used for classification; signal termination counts as 2.
pub fn effective_code(code: Option<i32>) -> (r: i32)
    ensures
        r as int == spec_effective_code(code),
{
    match code {
        Option::Some(c) => c,
        Option::None => 2,
    }
}

/// Classifies an exit status under the cycle-stage policy: 0 succeeds,
/// 1 succeeds with warnings, anything else (2 or more, or a signal) fails.
pub fn classify_exit(code: Option<i32>) -> (r: ExitClass)
    ensures
        r == spec_classify(code),
        r == ExitClass::Success <==> spec_effective_code(code) < 1,
        r == ExitClass::Warning <==> spec_effective_code(code) == 1,
        r == ExitClass::Failure <==> spec_effective_code(code) >= 2,
{
    let c = effective_code(code);
    if c >= 2 {
        ExitClass::Failure
    } else if c == 1 {
        ExitClass::Warning
    } else {
        ExitClass::Success
    }
}

/// The strict policy for one-shot operations (info, init, list, mount):
/// success is exactly exit code 0.
pub fn strict_ok(code: Option<i32>) -> (r: bool)
    ensures
        r <==> code == Option::<i32>::Some(0),
{
    match code {
        Option::Some(c) => c == 0,
        Option::None => false,
    }
}

} // verus!
