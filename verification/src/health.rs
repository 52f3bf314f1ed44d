//! Health reporting: the state a check reports and the check that watches
//! minidump initialization.
use vstd::prelude::*;

verus! {

/// The state a health check reports.
#[derive(Clone, Copy, Debug, PartialEq, Eq, Structural)]
pub enum HealthState {
    /// The checked subsystem is healthy.
    Healthy,
    /// The checked subsystem is in an error state.
    Error,
}

/// What one evaluation of a health check produced.
#[derive(Clone, Copy, Debug, PartialEq, Eq, Structural)]
pub struct HealthCheckResult {
    /// The reported state.
    pub state: HealthState,
}

impl HealthCheckResult {
    /// A result reporting this state.
    pub fn new(state: HealthState) -> (r: HealthCheckResult)
        ensures
            r.state == state,
    {
        HealthCheckResult { state }
    }
}

/// A health check which reports an error state if minidump initialization
/// has not completed successfully.
pub struct MinidumpHealthCheck {
    minidump_ok: bool,
}

impl MinidumpHealthCheck {
    /// Whether minidump initialization completed successfully.
    pub closed spec fn spec_ok(&self) -> bool {
        self.minidump_ok
    }

    /// A check over the recorded initialization outcome.
    pub fn new(minidump_ok: bool) -> (r: MinidumpHealthCheck)
        ensures
            r.spec_ok() == minidump_ok,
    {
        MinidumpHealthCheck { minidump_ok }
    }

    /// The name this check reports under.
    pub fn type_(&self) -> (r: &str)
        ensures
            r@ == "MINIDUMP"@,
    {
        "MINIDUMP"
    }

    /// Healthy exactly when minidump initialization completed.
    pub fn result(&self) -> (r: HealthCheckResult)
        ensures
            r.state is Healthy <==> self.spec_ok(),
    {
        let state = if self.minidump_ok {
            HealthState::Healthy
        } else {
            HealthState::Error
        };
        HealthCheckResult::new(state)
    }
}

} // verus!
