//! The states a worker, an error and a system dependency can be in, and the
//! names under which they are stored.
use vstd::prelude::*;
use crate::text::str_equals;

verus! {

/// The life-cycle state of a worker.
#[derive(Debug, Clone, Copy, PartialEq, Eq, Structural)]
pub enum WorkerState {
    Active,
    Error,
    Inactive,
    Installing,
}

/// The stored name of a worker state.
pub open spec fn worker_state_name(s: WorkerState) -> Seq<char> {
    match s {
        WorkerState::Active => "active"@,
        WorkerState::Error => "error"@,
        WorkerState::Inactive => "inactive"@,
        WorkerState::Installing => "installing"@,
    }
}

impl WorkerState {
    /// The name under which the state is stored.
    pub fn as_str(&self) -> (s: &'static str)
        ensures
            s@ == worker_state_name(*self),
    {
        match self {
            WorkerState::Active => "active",
            WorkerState::Error => "error",
            WorkerState::Inactive => "inactive",
            WorkerState::Installing => "installing",
        }
    }
}

/// Distinct worker states are stored under distinct names.
pub proof fn lemma_worker_state_names_distinct(a: WorkerState, b: WorkerState)
    ensures
        worker_state_name(a) == worker_state_name(b) ==> a == b,
{
    reveal_strlit("active");
    reveal_strlit("error");
    reveal_strlit("inactive");
    reveal_strlit("installing");
    if a != b {
        assert(worker_state_name(a)[0] != worker_state_name(b)[0] || worker_state_name(a).len()
            != worker_state_name(b).len() || worker_state_name(a)[2] != worker_state_name(b)[2]);
    }
}

/// How serious a recorded worker error is.
#[derive(Debug, Clone, Copy, PartialEq, Eq, Structural)]
pub enum ErrorSeverity {
    Warning,
    Error,
    Critical,
}

/// The stored name of a severity.
pub open spec fn severity_name(s: ErrorSeverity) -> Seq<char> {
    match s {
        ErrorSeverity::Warning => "warning"@,
        ErrorSeverity::Error => "error"@,
        ErrorSeverity::Critical => "critical"@,
    }
}

impl ErrorSeverity {
    /// The name under which the severity is stored.
    pub fn as_str(&self) -> (s: &'static str)
        ensures
            s@ == severity_name(*self),
    {
        match self {
            ErrorSeverity::Warning => "warning",
            ErrorSeverity::Error => "error",
            ErrorSeverity::Critical => "critical",
        }
    }
}

/// Distinct severities are stored under distinct names.
pub proof fn lemma_severity_names_distinct(a: ErrorSeverity, b: ErrorSeverity)
    ensures
        severity_name(a) == severity_name(b) ==> a == b,
{
    reveal_strlit("warning");
    reveal_strlit("error");
    reveal_strlit("critical");
    if a != b {
        assert(severity_name(a)[0] != severity_name(b)[0]);
    }
}

/// The installation state of a system dependency.
#[derive(Debug, Clone, Copy, PartialEq, Eq, Structural)]
pub enum DependencyStatus {
    Pending,
    Installing,
    Installed,
    Error,
}

/// The stored name of a dependency status.
pub open spec fn dependency_status_name(s: DependencyStatus) -> Seq<char> {
    match s {
        DependencyStatus::Pending => "pending"@,
        DependencyStatus::Installing => "installing"@,
        DependencyStatus::Installed => "installed"@,
        DependencyStatus::Error => "error"@,
    }
}

/// The status that a stored name stands for; any name that is not one of the
/// four is read as `Pending`.
pub open spec fn dependency_status_of(s: Seq<char>) -> DependencyStatus {
    if s == "pending"@ {
        DependencyStatus::Pending
    } else if s == "installing"@ {
        DependencyStatus::Installing
    } else if s == "installed"@ {
        DependencyStatus::Installed
    } else if s == "error"@ {
        DependencyStatus::Error
    } else {
        DependencyStatus::Pending
    }
}

impl DependencyStatus {
    /// The name under which the status is stored.
    pub fn as_str(&self) -> (s: &'static str)
        ensures
            s@ == dependency_status_name(*self),
    {
        match self {
            DependencyStatus::Pending => "pending",
            DependencyStatus::Installing => "installing",
            DependencyStatus::Installed => "installed",
            DependencyStatus::Error => "error",
        }
    }

    /// Reads a stored status name back; unknown names read as `Pending`.
    pub fn from_str(s: &str) -> (r: Self)
        ensures
            r == dependency_status_of(s@),
    {
        if str_equals(s, "pending") {
            DependencyStatus::Pending
        } else if str_equals(s, "installing") {
            DependencyStatus::Installing
        } else if str_equals(s, "installed") {
            DependencyStatus::Installed
        } else if str_equals(s, "error") {
            DependencyStatus::Error
        } else {
            DependencyStatus::Pending
        }
    }
}

/// Reading back the stored name of a status gives that status.
pub proof fn lemma_dependency_status_round_trip(s: DependencyStatus)
    ensures
        dependency_status_of(dependency_status_name(s)) == s,
{
    reveal_strlit("pending");
    reveal_strlit("installing");
    reveal_strlit("installed");
    reveal_strlit("error");
    assert("pending"@.len() == 7);
    assert("installing"@.len() == 10);
    assert("installed"@.len() == 9);
    assert("error"@.len() == 5);
}

} // verus!
