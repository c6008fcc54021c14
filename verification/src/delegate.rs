//! Delegation to the installed module: what a call into it can come to, and
//! which result code the host is given.

use vstd::prelude::*;

verus! {

/// The code the host is given on startup where the module's file is missing.
pub const UNAVAILABLE_CODE: i32 = 1;

/// The code the host is given on startup where the module's file is there
/// and cannot be loaded, or lacks the entry point.
pub const LOAD_ERROR_CODE: i32 = 2;

/// The code the host is given on startup where the run hands over to no
/// module and the update of the primary component failed.
pub const UPDATE_FAILED_CODE: i32 = 1;

/// The code that tells the host that all is well.
pub const SUCCESS_CODE: i32 = 0;

/// Which of the host's two hooks a run serves.
#[derive(Clone, Copy, Debug, PartialEq, Eq, Structural)]
pub enum RunMode {
    Startup,
    Shutdown,
}

/// What the host reports of an attempt to load the module and to call one
/// of its entry points.
#[derive(Clone, Copy, Debug, PartialEq, Eq, Structural)]
pub enum InvokeReply {
    /// The file could not be loaded, or has no such entry point.
    LoadFailed,
    /// The entry point was called once and returned this code.
    Returned(i32),
}

/// What a delegation came to.
#[derive(Clone, Copy, Debug, PartialEq, Eq, Structural)]
pub enum DelegationOutcome {
    /// The module's file does not exist.
    Unavailable,
    /// The file exists and could not be loaded, or lacks the entry point.
    LoadError,
    /// The entry point was called and returned this code.
    Invoked(i32),
    /// The run has no module to hand over to, and the primary component is
    /// up to date or was updated.
    NotConfigured,
    /// The run has no module to hand over to, and the update of the primary
    /// component failed.
    UpdateFailed,
}

/// The outcome of an attempt on a file that exists.
pub open spec fn outcome_of(reply: InvokeReply) -> DelegationOutcome {
    match reply {
        InvokeReply::LoadFailed => DelegationOutcome::LoadError,
        InvokeReply::Returned(code) => DelegationOutcome::Invoked(code),
    }
}

/// The code the host is given. On startup the module's own code is handed
/// on unchanged and a failed delegation is told by a code of its own; on
/// shutdown a failed delegation counts as success. A run without a module
/// to hand over to has nothing but the update to report: on startup it
/// fails where the update of the primary component failed.
pub open spec fn result_code(mode: RunMode, outcome: DelegationOutcome) -> i32 {
    match outcome {
        DelegationOutcome::Invoked(code) => code,
        DelegationOutcome::NotConfigured => SUCCESS_CODE,
        DelegationOutcome::UpdateFailed => match mode {
            RunMode::Startup => UPDATE_FAILED_CODE,
            RunMode::Shutdown => SUCCESS_CODE,
        },
        DelegationOutcome::Unavailable => match mode {
            RunMode::Startup => UNAVAILABLE_CODE,
            RunMode::Shutdown => SUCCESS_CODE,
        },
        DelegationOutcome::LoadError => match mode {
            RunMode::Startup => LOAD_ERROR_CODE,
            RunMode::Shutdown => SUCCESS_CODE,
        },
    }
}

/// Executable form of [`outcome_of`].
pub fn classify_invocation(reply: InvokeReply) -> (r: DelegationOutcome)
    ensures
        r == outcome_of(reply),
{
    match reply {
        InvokeReply::LoadFailed => DelegationOutcome::LoadError,
        InvokeReply::Returned(code) => DelegationOutcome::Invoked(code),
    }
}

/// Executable form of [`result_code`].
pub fn host_code(mode: RunMode, outcome: DelegationOutcome) -> (r: i32)
    ensures
        r == result_code(mode, outcome),
{
    match outcome {
        DelegationOutcome::Invoked(code) => code,
        DelegationOutcome::NotConfigured => SUCCESS_CODE,
        DelegationOutcome::UpdateFailed => match mode {
            RunMode::Startup => UPDATE_FAILED_CODE,
            RunMode::Shutdown => SUCCESS_CODE,
        },
        DelegationOutcome::Unavailable => match mode {
            RunMode::Startup => UNAVAILABLE_CODE,
            RunMode::Shutdown => SUCCESS_CODE,
        },
        DelegationOutcome::LoadError => match mode {
            RunMode::Startup => LOAD_ERROR_CODE,
            RunMode::Shutdown => SUCCESS_CODE,
        },
    }
}

/// A missing module is told apart from every other outcome, fails the
/// startup hook with a code of its own, and never fails the shutdown hook;
/// nor does a module that cannot be loaded.
pub proof fn lemma_missing_module_codes()
    ensures
        result_code(RunMode::Startup, DelegationOutcome::Unavailable) == UNAVAILABLE_CODE,
        UNAVAILABLE_CODE != SUCCESS_CODE,
        UNAVAILABLE_CODE != LOAD_ERROR_CODE,
        result_code(RunMode::Startup, DelegationOutcome::LoadError) != SUCCESS_CODE,
        result_code(RunMode::Shutdown, DelegationOutcome::Unavailable) == SUCCESS_CODE,
        result_code(RunMode::Shutdown, DelegationOutcome::LoadError) == SUCCESS_CODE,
        result_code(RunMode::Shutdown, DelegationOutcome::UpdateFailed) == SUCCESS_CODE,
        result_code(RunMode::Startup, DelegationOutcome::UpdateFailed) != SUCCESS_CODE,
        forall|reply: InvokeReply| outcome_of(reply) != DelegationOutcome::Unavailable,
        forall|mode: RunMode, code: i32|
            result_code(mode, DelegationOutcome::Invoked(code)) == code,
{
}

} // verus!
