//! Process-wide remediation policy, sourced from the node resource's
//! declared configuration.

use vstd::prelude::*;

verus! {

/// Policy knobs for CVE handling. Percentages stand in for the ratios
/// the policy compares against: `canary_pass_rate_threshold` is the
/// minimum canary pass rate in percent (0..=100), and
/// `consensus_health_threshold` is the minimum healthy-replica ratio in
/// hundredths (95 means 95 healthy replicas out of 100).
#[derive(Clone, Copy, Debug, PartialEq, Eq, Structural)]
pub struct CVEHandlingConfig {
    /// Kill switch: when false, no new remediation cycle starts.
    pub enabled: bool,
    /// Scan cadence in seconds.
    pub scan_interval_secs: u64,
    /// When set, only Critical findings drive the patch decision.
    pub critical_only: bool,
    /// Wall-clock budget for one canary evaluation, in seconds.
    pub canary_test_timeout_secs: u64,
    /// Minimum canary pass rate, in percent (0..=100); the boundary is
    /// inclusive.
    pub canary_pass_rate_threshold: u32,
    /// Whether a failed verification triggers an automatic rollback.
    pub enable_auto_rollback: bool,
    /// Minimum healthy-replica ratio, in hundredths (0..=100).
    pub consensus_health_threshold: u32,
}

impl CVEHandlingConfig {
    /// Both thresholds are percentages.
    pub open spec fn wf(self) -> bool {
        self.canary_pass_rate_threshold <= 100 && self.consensus_health_threshold <= 100
    }

    /// The periodic trigger: a new scan is due once the configured
    /// interval has elapsed since the previous one, and only while
    /// handling is enabled (the kill switch suppresses the next cycle,
    /// never one already in flight).
    pub fn scan_due(&self, last_scan_secs: u64, now_secs: u64) -> (r: bool)
        ensures
            r == (self.enabled && now_secs >= last_scan_secs
                && now_secs - last_scan_secs >= self.scan_interval_secs),
    {
        self.enabled && now_secs >= last_scan_secs && now_secs - last_scan_secs
            >= self.scan_interval_secs
    }
}

impl Default for CVEHandlingConfig {
    /// Enabled, hourly scans of every severity, a five-minute canary
    /// window that must pass completely, automatic rollback, and a 95%
    /// consensus health floor.
    fn default() -> (r: Self)
        ensures
            r == (CVEHandlingConfig {
                enabled: true,
                scan_interval_secs: 3600,
                critical_only: false,
                canary_test_timeout_secs: 300,
                canary_pass_rate_threshold: 100,
                enable_auto_rollback: true,
                consensus_health_threshold: 95,
            }),
            r.wf(),
    {
        CVEHandlingConfig {
            enabled: true,
            scan_interval_secs: 3600,
            critical_only: false,
            canary_test_timeout_secs: 300,
            canary_pass_rate_threshold: 100,
            enable_auto_rollback: true,
            consensus_health_threshold: 95,
        }
    }
}

} // verus!
