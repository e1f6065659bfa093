//! Per-node rollout state machine: detect, canary, gate, widen, and the
//! rollback and failure paths, as one explicit function from state and
//! event to next state and requested action.

use vstd::prelude::*;
use crate::canary::CanaryTestStatus;
use crate::crd::CVEHandlingConfig;
use crate::cve::CVEDetectionResult;

verus! {

/// Tagged state of one node's remediation lifecycle. `Complete` is the
/// terminal success; `RolledBack` and `Failed` are terminal failures.
#[derive(Clone, Copy, Debug, PartialEq, Eq, Structural, Hash)]
pub enum CVERolloutStatus {
    Idle,
    CanaryTesting,
    Rolling,
    Complete,
    RollingBack,
    RolledBack,
    Failed,
}

impl CVERolloutStatus {
    /// The canonical name of this status.
    pub open spec fn spec_name(self) -> Seq<char> {
        match self {
            CVERolloutStatus::Idle => "Idle"@,
            CVERolloutStatus::CanaryTesting => "CanaryTesting"@,
            CVERolloutStatus::Rolling => "Rolling"@,
            CVERolloutStatus::Complete => "Complete"@,
            CVERolloutStatus::RollingBack => "RollingBack"@,
            CVERolloutStatus::RolledBack => "RolledBack"@,
            CVERolloutStatus::Failed => "Failed"@,
        }
    }

    /// Name of this status, for status records and rendering.
    pub fn as_str(&self) -> (r: &'static str)
        ensures
            r@ == self.spec_name(),
    {
        match self {
            CVERolloutStatus::Idle => "Idle",
            CVERolloutStatus::CanaryTesting => "CanaryTesting",
            CVERolloutStatus::Rolling => "Rolling",
            CVERolloutStatus::Complete => "Complete",
            CVERolloutStatus::RollingBack => "RollingBack",
            CVERolloutStatus::RolledBack => "RolledBack",
            CVERolloutStatus::Failed => "Failed",
        }
    }

    /// A rollout step is in flight: a new detection must not start a
    /// concurrent cycle.
    pub open spec fn spec_is_active(self) -> bool {
        match self {
            CVERolloutStatus::CanaryTesting => true,
            CVERolloutStatus::Rolling => true,
            CVERolloutStatus::RollingBack => true,
            _ => false,
        }
    }

    /// The lifecycle has ended, in success or failure.
    pub open spec fn spec_is_terminal(self) -> bool {
        match self {
            CVERolloutStatus::Complete => true,
            CVERolloutStatus::RolledBack => true,
            CVERolloutStatus::Failed => true,
            _ => false,
        }
    }

    /// Terminal states: `Complete`, `RolledBack`, `Failed`.
    pub fn is_terminal(&self) -> (r: bool)
        ensures
            r == self.spec_is_terminal(),
    {
        match self {
            CVERolloutStatus::Complete => true,
            CVERolloutStatus::RolledBack => true,
            CVERolloutStatus::Failed => true,
            _ => false,
        }
    }

    /// A scan result is acted on only here: when idle, or when the
    /// previous cycle has reached a terminal state (re-entrant).
    pub open spec fn spec_accepts_scan(self) -> bool {
        self == CVERolloutStatus::Idle || self.spec_is_terminal()
    }
}

/// Which verification failed, recorded on every transition into
/// `RollingBack` or `Failed` for audit.
#[derive(Clone, Copy, Debug, PartialEq, Eq, Structural)]
pub enum FailureCause {
    /// The canary tests completed below the pass-rate threshold.
    CanaryFailed,
    /// The canary window elapsed without a test result.
    CanaryTimedOut,
    /// The consensus health check said no-go before widening.
    ConsensusGateFailed,
    /// Cluster health regressed below the threshold during the widen.
    HealthRegressed,
    /// The rollback itself could not restore health; the node needs
    /// manual intervention.
    RollbackUnsuccessful,
}

/// What the control loop observed since the last step, per node. A
/// failed scan or probe produces no event at all: transient
/// infrastructure errors leave the record untouched and the cycle is
/// retried on the next trigger.
pub enum RolloutEvent {
    /// A scan finished and produced a fresh detection snapshot.
    ScanCompleted(CVEDetectionResult),
    /// The canary evaluation reached `status` (fed back once terminal),
    /// and the consensus health gate was consulted before widening.
    CanaryEvaluated { status: CanaryTestStatus, gate_passed: bool },
    /// One widen step finished: whether every replica now runs the
    /// patched image, and the post-step consensus health signal.
    WidenStepObserved { all_replicas_updated: bool, gate_passed: bool },
    /// The rollback executor finished its single bounded attempt, and
    /// the health gate confirmed recovery or not.
    RollbackCompleted { health_restored: bool },
}

/// What the state machine asks the control loop to do next.
#[derive(Clone, Copy, Debug, PartialEq, Eq, Structural)]
pub enum RolloutAction {
    /// Nothing to do this step.
    NoAction,
    /// Stage the patched image on a single canary replica.
    StartCanary,
    /// Widen the patched image past the canary.
    StartRollout,
    /// Revert the advanced replicas to the last known-good image.
    StartRollback(FailureCause),
    /// Record a terminal failure without rolling back (automatic
    /// rollback disabled, or the rollback itself failed).
    RecordFailure(FailureCause),
    /// Standing alert: critical exposure with no available patch. No
    /// action is possible; the state stays put.
    AlertCriticalWithoutPatch,
}

/// A detection starts a remediation cycle: handling is enabled, a
/// patched image exists, and either a Critical finding is present or
/// any finding at all when `critical_only` is off.
pub open spec fn spec_qualifies(d: CVEDetectionResult, c: CVEHandlingConfig) -> bool {
    &&& c.enabled
    &&& d.patched_version is Some
    &&& d.has_critical || (!c.critical_only && d.cve_count.spec_total() > 0)
}

/// Critical exposure with no fix available yet: surfaced as an alert,
/// never silently dropped.
pub open spec fn spec_unpatchable_critical(d: CVEDetectionResult) -> bool {
    d.has_critical && d.patched_version is None
}

/// Where a failed verification leads: `RollingBack` when automatic
/// rollback is enabled, else straight to `Failed`.
pub open spec fn spec_failure_status(c: CVEHandlingConfig) -> CVERolloutStatus {
    if c.enable_auto_rollback {
        CVERolloutStatus::RollingBack
    } else {
        CVERolloutStatus::Failed
    }
}

/// The action paired with a failed verification.
pub open spec fn spec_failure_action(c: CVEHandlingConfig, cause: FailureCause) -> RolloutAction {
    if c.enable_auto_rollback {
        RolloutAction::StartRollback(cause)
    } else {
        RolloutAction::RecordFailure(cause)
    }
}

/// The transition table: the state after `e` arrives in state `s` under
/// policy `c`. Events that are not expected in the current state leave
/// it unchanged.
pub open spec fn spec_next_status(
    s: CVERolloutStatus,
    e: RolloutEvent,
    c: CVEHandlingConfig,
) -> CVERolloutStatus {
    match e {
        RolloutEvent::ScanCompleted(d) => if s.spec_accepts_scan() {
            if spec_qualifies(d, c) {
                CVERolloutStatus::CanaryTesting
            } else {
                CVERolloutStatus::Idle
            }
        } else {
            s
        },
        RolloutEvent::CanaryEvaluated { status, gate_passed } => if s
            == CVERolloutStatus::CanaryTesting && status.spec_is_terminal() {
            if status == CanaryTestStatus::Passed && gate_passed {
                CVERolloutStatus::Rolling
            } else {
                spec_failure_status(c)
            }
        } else {
            s
        },
        RolloutEvent::WidenStepObserved { all_replicas_updated, gate_passed } => if s
            == CVERolloutStatus::Rolling {
            if !gate_passed {
                spec_failure_status(c)
            } else if all_replicas_updated {
                CVERolloutStatus::Complete
            } else {
                CVERolloutStatus::Rolling
            }
        } else {
            s
        },
        RolloutEvent::RollbackCompleted { health_restored } => if s
            == CVERolloutStatus::RollingBack {
            if health_restored {
                CVERolloutStatus::RolledBack
            } else {
                CVERolloutStatus::Failed
            }
        } else {
            s
        },
    }
}

/// The action requested alongside `spec_next_status`.
pub open spec fn spec_step_action(
    s: CVERolloutStatus,
    e: RolloutEvent,
    c: CVEHandlingConfig,
) -> RolloutAction {
    match e {
        RolloutEvent::ScanCompleted(d) => if s.spec_accepts_scan() {
            if spec_qualifies(d, c) {
                RolloutAction::StartCanary
            } else if spec_unpatchable_critical(d) {
                RolloutAction::AlertCriticalWithoutPatch
            } else {
                RolloutAction::NoAction
            }
        } else {
            RolloutAction::NoAction
        },
        RolloutEvent::CanaryEvaluated { status, gate_passed } => if s
            == CVERolloutStatus::CanaryTesting && status.spec_is_terminal() {
            if status == CanaryTestStatus::Passed {
                if gate_passed {
                    RolloutAction::StartRollout
                } else {
                    spec_failure_action(c, FailureCause::ConsensusGateFailed)
                }
            } else if status == CanaryTestStatus::Failed {
                spec_failure_action(c, FailureCause::CanaryFailed)
            } else {
                spec_failure_action(c, FailureCause::CanaryTimedOut)
            }
        } else {
            RolloutAction::NoAction
        },
        RolloutEvent::WidenStepObserved { all_replicas_updated, gate_passed } => if s
            == CVERolloutStatus::Rolling {
            if !gate_passed {
                spec_failure_action(c, FailureCause::HealthRegressed)
            } else {
                RolloutAction::NoAction
            }
        } else {
            RolloutAction::NoAction
        },
        RolloutEvent::RollbackCompleted { health_restored } => if s
            == CVERolloutStatus::RollingBack {
            if health_restored {
                RolloutAction::NoAction
            } else {
                RolloutAction::RecordFailure(FailureCause::RollbackUnsuccessful)
            }
        } else {
            RolloutAction::NoAction
        },
    }
}

/// A detection with a Critical finding and a populated patched image
/// moves an idle node into `CanaryTesting` on the next cycle, when
/// handling is enabled.
pub proof fn lemma_critical_with_patch_starts_canary(d: CVEDetectionResult, c: CVEHandlingConfig)
    requires
        c.enabled,
        d.has_critical,
        d.patched_version is Some,
    ensures
        spec_next_status(CVERolloutStatus::Idle, RolloutEvent::ScanCompleted(d), c)
            == CVERolloutStatus::CanaryTesting,
        spec_step_action(CVERolloutStatus::Idle, RolloutEvent::ScanCompleted(d), c)
            == RolloutAction::StartCanary,
{
}

/// A detection with a Critical finding but no patched image leaves the
/// node `Idle` and raises the standing alert, whatever the rest of the
/// policy says: critical exposure without a fix is surfaced, never
/// silently dropped.
pub proof fn lemma_critical_without_patch_alerts(d: CVEDetectionResult, c: CVEHandlingConfig)
    requires
        d.has_critical,
        d.patched_version is None,
    ensures
        spec_next_status(CVERolloutStatus::Idle, RolloutEvent::ScanCompleted(d), c)
            == CVERolloutStatus::Idle,
        spec_step_action(CVERolloutStatus::Idle, RolloutEvent::ScanCompleted(d), c)
            == RolloutAction::AlertCriticalWithoutPatch,
{
}

/// A canary timeout drives the rollback branch: with automatic rollback
/// the node rolls back and, once the rollback restores health, reaches
/// `RolledBack`; without it the node goes straight to `Failed`.
pub proof fn lemma_canary_timeout_rollback_paths(c: CVEHandlingConfig, gate_passed: bool)
    ensures
        c.enable_auto_rollback ==> spec_next_status(
            CVERolloutStatus::CanaryTesting,
            RolloutEvent::CanaryEvaluated { status: CanaryTestStatus::Timeout, gate_passed },
            c,
        ) == CVERolloutStatus::RollingBack,
        c.enable_auto_rollback ==> spec_next_status(
            CVERolloutStatus::RollingBack,
            RolloutEvent::RollbackCompleted { health_restored: true },
            c,
        ) == CVERolloutStatus::RolledBack,
        !c.enable_auto_rollback ==> spec_next_status(
            CVERolloutStatus::CanaryTesting,
            RolloutEvent::CanaryEvaluated { status: CanaryTestStatus::Timeout, gate_passed },
            c,
        ) == CVERolloutStatus::Failed,
{
}

/// While a rollout is in flight, a new detection neither changes the
/// state nor requests an action: at most one active cycle exists per
/// node, and fresh findings wait for a terminal or idle state.
pub proof fn lemma_active_rollout_defers_detection(
    s: CVERolloutStatus,
    d: CVEDetectionResult,
    c: CVEHandlingConfig,
)
    requires
        s.spec_is_active(),
    ensures
        spec_next_status(s, RolloutEvent::ScanCompleted(d), c) == s,
        spec_step_action(s, RolloutEvent::ScanCompleted(d), c) == RolloutAction::NoAction,
{
}

/// A disabled policy starts no new remediation cycle: no scan result
/// can move the node into `CanaryTesting` or request a canary. Events
/// of a cycle already in flight are unaffected, so disabling the
/// policy mid-rollout lets the current cycle complete.
pub proof fn lemma_disabled_policy_starts_no_cycle(
    s: CVERolloutStatus,
    d: CVEDetectionResult,
    c: CVEHandlingConfig,
)
    requires
        !c.enabled,
    ensures
        spec_next_status(s, RolloutEvent::ScanCompleted(d), c) != CVERolloutStatus::CanaryTesting
            || s == CVERolloutStatus::CanaryTesting,
        spec_step_action(s, RolloutEvent::ScanCompleted(d), c) != RolloutAction::StartCanary,
{
}

/// Terminal states are re-entrant: the next scan cycle treats them
/// exactly as `Idle`.
pub proof fn lemma_terminal_state_reenters(
    s: CVERolloutStatus,
    d: CVEDetectionResult,
    c: CVEHandlingConfig,
)
    requires
        s.spec_is_terminal(),
    ensures
        spec_next_status(s, RolloutEvent::ScanCompleted(d), c) == spec_next_status(
            CVERolloutStatus::Idle,
            RolloutEvent::ScanCompleted(d),
            c,
        ),
        spec_step_action(s, RolloutEvent::ScanCompleted(d), c) == spec_step_action(
            CVERolloutStatus::Idle,
            RolloutEvent::ScanCompleted(d),
            c,
        ),
{
}

/// The per-node rollout record: the single source of truth for what
/// step is in flight, owned exclusively by that node's control loop.
#[derive(Clone, Debug)]
pub struct RolloutRecord {
    /// Current lifecycle state.
    pub status: CVERolloutStatus,
    /// The detection snapshot of the most recent accepted scan.
    pub detection: Option<CVEDetectionResult>,
    /// State of the current (or last) canary evaluation.
    pub canary_status: CanaryTestStatus,
    /// Image to revert to if the rollout endangers the cluster.
    pub last_known_good_image: String,
    /// Seconds since the epoch at which `status` was entered, used to
    /// detect the canary timeout.
    pub state_entered_at_secs: u64,
}

impl RolloutRecord {
    /// Fresh idle record for a node currently running `image`.
    pub fn new(image: String, now_secs: u64) -> (r: RolloutRecord)
        ensures
            r.status == CVERolloutStatus::Idle,
            r.detection is None,
            r.canary_status == CanaryTestStatus::Pending,
            r.last_known_good_image == image,
            r.state_entered_at_secs == now_secs,
    {
        RolloutRecord {
            status: CVERolloutStatus::Idle,
            detection: None,
            canary_status: CanaryTestStatus::Pending,
            last_known_good_image: image,
            state_entered_at_secs: now_secs,
        }
    }

    /// Wall-clock seconds spent in the current state, saturating at
    /// zero if the clock reads earlier than the state entry.
    pub fn seconds_in_state(&self, now_secs: u64) -> (r: u64)
        ensures
            r == if now_secs >= self.state_entered_at_secs {
                now_secs - self.state_entered_at_secs
            } else {
                0
            },
    {
        if now_secs >= self.state_entered_at_secs {
            now_secs - self.state_entered_at_secs
        } else {
            0
        }
    }

    /// Move to `next`, stamping the entry time only when the state
    /// actually changes.
    fn enter_status(&mut self, next: CVERolloutStatus, now_secs: u64)
        ensures
            final(self).status == next,
            final(self).detection == old(self).detection,
            final(self).canary_status == old(self).canary_status,
            final(self).last_known_good_image == old(self).last_known_good_image,
            next == old(self).status ==> final(self).state_entered_at_secs == old(
                self,
            ).state_entered_at_secs,
            next != old(self).status ==> final(self).state_entered_at_secs == now_secs,
    {
        if !(self.status == next) {
            self.state_entered_at_secs = now_secs;
        }
        self.status = next;
    }

    /// Apply one observed event to this record: the state moves along
    /// the transition table, the entry timestamp is stamped on a state
    /// change, an accepted scan replaces the recorded detection and the
    /// known-good image, and an accepted terminal canary status is
    /// recorded. The returned action is what the control loop must
    /// perform next.
    pub fn handle_event(
        &mut self,
        event: RolloutEvent,
        config: &CVEHandlingConfig,
        now_secs: u64,
    ) -> (action: RolloutAction)
        ensures
            final(self).status == spec_next_status(old(self).status, event, *config),
            action == spec_step_action(old(self).status, event, *config),
            final(self).status == old(self).status ==> final(self).state_entered_at_secs == old(
                self,
            ).state_entered_at_secs,
            final(self).status != old(self).status ==> final(self).state_entered_at_secs
                == now_secs,
            (match event {
                RolloutEvent::ScanCompleted(d) => if old(self).status.spec_accepts_scan() {
                    &&& final(self).detection == Some(d)
                    &&& final(self).last_known_good_image == d.current_image
                    &&& spec_qualifies(d, *config) ==> final(self).canary_status
                        == CanaryTestStatus::Pending
                    &&& !spec_qualifies(d, *config) ==> final(self).canary_status == old(
                        self,
                    ).canary_status
                } else {
                    &&& final(self).detection == old(self).detection
                    &&& final(self).last_known_good_image == old(self).last_known_good_image
                    &&& final(self).canary_status == old(self).canary_status
                },
                RolloutEvent::CanaryEvaluated { status, gate_passed } => {
                    &&& final(self).detection == old(self).detection
                    &&& final(self).last_known_good_image == old(self).last_known_good_image
                    &&& (if old(self).status == CVERolloutStatus::CanaryTesting
                        && status.spec_is_terminal() {
                        final(self).canary_status == status
                    } else {
                        final(self).canary_status == old(self).canary_status
                    })
                },
                _ => {
                    &&& final(self).detection == old(self).detection
                    &&& final(self).last_known_good_image == old(self).last_known_good_image
                    &&& final(self).canary_status == old(self).canary_status
                },
            }),
    {
        match event {
            RolloutEvent::ScanCompleted(d) => {
                let accepts = self.status == CVERolloutStatus::Idle || self.status.is_terminal();
                if accepts {
                    let qualifies = config.enabled && d.patched_version.is_some() && (
                    d.has_critical || (!config.critical_only && d.cve_count.total() > 0));
                    let unpatchable = d.has_critical && d.patched_version.is_none();
                    let action: RolloutAction;
                    if qualifies {
                        self.enter_status(CVERolloutStatus::CanaryTesting, now_secs);
                        self.canary_status = CanaryTestStatus::Pending;
                        action = RolloutAction::StartCanary;
                    } else {
                        self.enter_status(CVERolloutStatus::Idle, now_secs);
                        if unpatchable {
                            action = RolloutAction::AlertCriticalWithoutPatch;
                        } else {
                            action = RolloutAction::NoAction;
                        }
                    }
                    self.last_known_good_image = d.current_image.clone();
                    self.detection = Some(d);
                    action
                } else {
                    RolloutAction::NoAction
                }
            },
            RolloutEvent::CanaryEvaluated { status, gate_passed } => {
                if self.status == CVERolloutStatus::CanaryTesting && status.is_terminal() {
                    self.canary_status = status;
                    if status == CanaryTestStatus::Passed && gate_passed {
                        self.enter_status(CVERolloutStatus::Rolling, now_secs);
                        RolloutAction::StartRollout
                    } else {
                        let cause = if status == CanaryTestStatus::Passed {
                            FailureCause::ConsensusGateFailed
                        } else if status == CanaryTestStatus::Failed {
                            FailureCause::CanaryFailed
                        } else {
                            FailureCause::CanaryTimedOut
                        };
                        self.fail_verification(cause, config, now_secs)
                    }
                } else {
                    RolloutAction::NoAction
                }
            },
            RolloutEvent::WidenStepObserved { all_replicas_updated, gate_passed } => {
                if self.status == CVERolloutStatus::Rolling {
                    if !gate_passed {
                        self.fail_verification(FailureCause::HealthRegressed, config, now_secs)
                    } else if all_replicas_updated {
                        self.enter_status(CVERolloutStatus::Complete, now_secs);
                        RolloutAction::NoAction
                    } else {
                        self.enter_status(CVERolloutStatus::Rolling, now_secs);
                        RolloutAction::NoAction
                    }
                } else {
                    RolloutAction::NoAction
                }
            },
            RolloutEvent::RollbackCompleted { health_restored } => {
                if self.status == CVERolloutStatus::RollingBack {
                    if health_restored {
                        self.enter_status(CVERolloutStatus::RolledBack, now_secs);
                        RolloutAction::NoAction
                    } else {
                        self.enter_status(CVERolloutStatus::Failed, now_secs);
                        RolloutAction::RecordFailure(FailureCause::RollbackUnsuccessful)
                    }
                } else {
                    RolloutAction::NoAction
                }
            },
        }
    }

    /// Take the rollback branch selected by `enable_auto_rollback`,
    /// recording the cause of the failed verification.
    fn fail_verification(
        &mut self,
        cause: FailureCause,
        config: &CVEHandlingConfig,
        now_secs: u64,
    ) -> (action: RolloutAction)
        ensures
            final(self).status == spec_failure_status(*config),
            action == spec_failure_action(*config, cause),
            final(self).detection == old(self).detection,
            final(self).canary_status == old(self).canary_status,
            final(self).last_known_good_image == old(self).last_known_good_image,
            final(self).status == old(self).status ==> final(self).state_entered_at_secs == old(
                self,
            ).state_entered_at_secs,
            final(self).status != old(self).status ==> final(self).state_entered_at_secs
                == now_secs,
    {
        if config.enable_auto_rollback {
            self.enter_status(CVERolloutStatus::RollingBack, now_secs);
            RolloutAction::StartRollback(cause)
        } else {
            self.enter_status(CVERolloutStatus::Failed, now_secs);
            RolloutAction::RecordFailure(cause)
        }
    }
}

} // verus!
