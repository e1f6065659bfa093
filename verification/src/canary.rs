//! Canary verification policy: the status of one canary evaluation and
//! the decision step that classifies an observation against the
//! configured pass-rate threshold and timeout.

use vstd::prelude::*;
use crate::crd::CVEHandlingConfig;

verus! {

/// Tagged state of one canary evaluation. `Passed`, `Failed` and
/// `Timeout` are terminal.
#[derive(Clone, Copy, Debug, PartialEq, Eq, Structural, Hash)]
pub enum CanaryTestStatus {
    Pending,
    Running,
    Passed,
    Failed,
    Timeout,
}

impl CanaryTestStatus {
    /// The canonical name of this status.
    pub open spec fn spec_name(self) -> Seq<char> {
        match self {
            CanaryTestStatus::Pending => "Pending"@,
            CanaryTestStatus::Running => "Running"@,
            CanaryTestStatus::Passed => "Passed"@,
            CanaryTestStatus::Failed => "Failed"@,
            CanaryTestStatus::Timeout => "Timeout"@,
        }
    }

    /// Name of this status, for status records and rendering.
    pub fn as_str(&self) -> (r: &'static str)
        ensures
            r@ == self.spec_name(),
    {
        match self {
            CanaryTestStatus::Pending => "Pending",
            CanaryTestStatus::Running => "Running",
            CanaryTestStatus::Passed => "Passed",
            CanaryTestStatus::Failed => "Failed",
            CanaryTestStatus::Timeout => "Timeout",
        }
    }

    /// Whether this status ends the evaluation.
    pub open spec fn spec_is_terminal(self) -> bool {
        match self {
            CanaryTestStatus::Passed => true,
            CanaryTestStatus::Failed => true,
            CanaryTestStatus::Timeout => true,
            CanaryTestStatus::Pending => false,
            CanaryTestStatus::Running => false,
        }
    }

    /// Terminal states: `Passed`, `Failed`, `Timeout`.
    pub fn is_terminal(&self) -> (r: bool)
        ensures
            r == self.spec_is_terminal(),
    {
        match self {
            CanaryTestStatus::Passed => true,
            CanaryTestStatus::Failed => true,
            CanaryTestStatus::Timeout => true,
            CanaryTestStatus::Pending => false,
            CanaryTestStatus::Running => false,
        }
    }
}

/// Outcome of one completed run of the external test collaborator
/// against the canary replica.
#[derive(Clone, Copy, Debug, PartialEq, Eq, Structural)]
pub struct CanaryTestReport {
    /// Test cases that succeeded.
    pub passed: u32,
    /// Test cases that ran.
    pub total: u32,
}

/// The observed pass rate reaches the threshold: `passed` out of
/// `total` cases is at least `threshold_pct` percent, with an inclusive
/// boundary. An empty test run never meets the threshold (fail closed).
pub open spec fn pass_rate_meets(passed: int, total: int, threshold_pct: int) -> bool {
    total > 0 && passed * 100 >= threshold_pct * total
}

/// A pass rate exactly equal to the threshold meets it: the boundary is
/// inclusive.
pub proof fn lemma_pass_rate_boundary_inclusive(passed: int, total: int, threshold_pct: int)
    requires
        total > 0,
        passed * 100 == threshold_pct * total,
    ensures
        pass_rate_meets(passed, total, threshold_pct),
{
}

/// One decision step of the canary runner, from what the control loop
/// observed: whether the canary replica is serving, the test report if
/// the external collaborator completed one, and the wall-clock seconds
/// since the evaluation entered `Running`.
///
/// Before the replica serves, the evaluation stays `Pending` (the
/// timeout counts from entry into `Running`, not from scheduling). A
/// completed report decides `Passed` against an inclusive threshold,
/// else `Failed`. With no report, the evaluation times out once the
/// configured window has elapsed, and keeps `Running` before that.
pub fn evaluate_canary(
    replica_serving: bool,
    report: Option<CanaryTestReport>,
    running_elapsed_secs: u64,
    config: &CVEHandlingConfig,
) -> (r: CanaryTestStatus)
    ensures
        !replica_serving ==> r == CanaryTestStatus::Pending,
        replica_serving ==> r == (match report {
            Option::Some(t) => if pass_rate_meets(
                t.passed as int,
                t.total as int,
                config.canary_pass_rate_threshold as int,
            ) {
                CanaryTestStatus::Passed
            } else {
                CanaryTestStatus::Failed
            },
            Option::None => if running_elapsed_secs >= config.canary_test_timeout_secs {
                CanaryTestStatus::Timeout
            } else {
                CanaryTestStatus::Running
            },
        }),
{
    if !replica_serving {
        return CanaryTestStatus::Pending;
    }
    match report {
        Some(t) => {
            proof {
                assert((config.canary_pass_rate_threshold as int) * (t.total as int) <= (u32::MAX
                    as int) * (u32::MAX as int)) by (nonlinear_arith)
                    requires
                        config.canary_pass_rate_threshold <= u32::MAX,
                        t.total <= u32::MAX,
                ;
            }
            if t.total > 0 && (t.passed as u64) * 100 >= (config.canary_pass_rate_threshold
                as u64) * (t.total as u64) {
                CanaryTestStatus::Passed
            } else {
                CanaryTestStatus::Failed
            }
        },
        None => {
            if running_elapsed_secs >= config.canary_test_timeout_secs {
                CanaryTestStatus::Timeout
            } else {
                CanaryTestStatus::Running
            }
        },
    }
}

} // verus!
