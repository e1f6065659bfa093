//! Consensus health gate: aggregates per-replica health snapshots into
//! a single go/no-go signal for widening a rollout.

use vstd::prelude::*;
use crate::crd::CVEHandlingConfig;

verus! {

/// One replica's health snapshot, as the external per-replica probe
/// reports it. A probe failure is recorded as an unhealthy snapshot, so
/// unreachable replicas stay in the denominator.
#[derive(Clone, Debug)]
pub struct HealthStatus {
    pub healthy: bool,
    pub synced: bool,
    pub ledger_sequence: Option<u64>,
    pub message: String,
}

impl HealthStatus {
    /// Snapshot recorded for a replica whose probe failed: unhealthy
    /// and unsynced, keeping the replica in the denominator.
    pub fn unreachable(message: String) -> (r: HealthStatus)
        ensures
            !r.healthy,
            !r.synced,
            r.ledger_sequence is None,
            r.message == message,
    {
        HealthStatus { healthy: false, synced: false, ledger_sequence: None, message }
    }
}

/// How many snapshots in `s` report healthy.
pub open spec fn count_healthy(s: Seq<HealthStatus>) -> int
    decreases s.len(),
{
    if s.len() == 0 {
        0
    } else {
        count_healthy(s.drop_last()) + if s.last().healthy {
            1int
        } else {
            0int
        }
    }
}

/// The go signal of the consensus health check: some replica exists
/// and the healthy ratio reaches the threshold,
/// `healthy / total >= threshold_pct / 100`, compared exactly as
/// `healthy * 100 >= threshold_pct * total`. With zero replicas the
/// signal is no-go whatever the threshold: the policy is fail-closed.
pub open spec fn gate_passes(healthy: int, total: int, threshold_pct: int) -> bool {
    total > 0 && healthy * 100 >= threshold_pct * total
}

/// A gate over zero replicas never passes, for any healthy count and
/// any threshold: no vacuous pass.
pub proof fn lemma_gate_fails_closed_without_replicas(healthy: int, threshold_pct: int)
    ensures
        !gate_passes(healthy, 0, threshold_pct),
{
}

/// The aggregated go/no-go signal of one gate evaluation.
#[derive(Clone, Copy, Debug, PartialEq, Eq, Structural)]
pub struct GateDecision {
    /// Replicas whose snapshot reported healthy.
    pub healthy_replicas: usize,
    /// All replicas belonging to the node, probe failures included.
    pub total_replicas: usize,
    /// Whether the healthy ratio reaches the configured threshold.
    pub pass: bool,
}

/// Aggregate the per-replica snapshots of one node into a gate
/// decision: count the healthy replicas over all of them and compare
/// the ratio against `consensus_health_threshold`. Probe failures are
/// passed in as unhealthy snapshots and count toward the denominator.
pub fn evaluate_gate(replicas: &Vec<HealthStatus>, config: &CVEHandlingConfig) -> (r: GateDecision)
    ensures
        r.healthy_replicas == count_healthy(replicas@),
        r.total_replicas == replicas@.len(),
        r.pass == gate_passes(
            count_healthy(replicas@),
            replicas@.len() as int,
            config.consensus_health_threshold as int,
        ),
{
    let mut healthy: usize = 0;
    let mut i: usize = 0;
    while i < replicas.len()
        invariant
            i <= replicas@.len(),
            healthy == count_healthy(replicas@.take(i as int)),
            healthy <= i,
        decreases replicas@.len() - i,
    {
        proof {
            assert(replicas@.take(i + 1).drop_last() =~= replicas@.take(i as int));
            assert(replicas@.take(i + 1).last() == replicas@[i as int]);
        }
        if replicas[i].healthy {
            healthy = healthy + 1;
        }
        i = i + 1;
    }
    proof {
        assert(replicas@.take(replicas@.len() as int) =~= replicas@);
        assert((config.consensus_health_threshold as int) * (replicas@.len() as int) <= (u32::MAX
            as int) * (usize::MAX as int)) by (nonlinear_arith)
            requires
                config.consensus_health_threshold <= u32::MAX,
                replicas@.len() <= usize::MAX,
        ;
    }
    let total = replicas.len();
    let pass = total > 0 && (healthy as u128) * 100 >= (config.consensus_health_threshold as u128)
        * (total as u128);
    GateDecision { healthy_replicas: healthy, total_replicas: total, pass }
}

} // verus!
