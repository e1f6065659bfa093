//! Scenario tests for the scanner mapping, canary policy, consensus
//! health gate, and the rollout state machine.

use stellar_k8s::canary::{evaluate_canary, CanaryTestReport, CanaryTestStatus};
use stellar_k8s::crd::CVEHandlingConfig;
use stellar_k8s::cve::{CVECount, CVEDetectionResult, Vulnerability, VulnerabilitySeverity};
use stellar_k8s::health::{evaluate_gate, HealthStatus};
use stellar_k8s::rollout::{
    CVERolloutStatus, FailureCause, RolloutAction, RolloutEvent, RolloutRecord,
};

fn finding(severity: VulnerabilitySeverity, fixed_version: Option<&str>) -> Vulnerability {
    Vulnerability {
        cve_id: "CVE-2024-0001".to_string(),
        severity,
        package: "openssl".to_string(),
        installed_version: "1.0.0".to_string(),
        fixed_version: fixed_version.map(|v| v.to_string()),
        description: "test finding".to_string(),
    }
}

fn healthy_replica(healthy: bool) -> HealthStatus {
    HealthStatus {
        healthy,
        synced: healthy,
        ledger_sequence: if healthy { Some(100) } else { None },
        message: String::new(),
    }
}

#[test]
fn test_from_findings_tallies_severities() {
    let vulns = vec![
        finding(VulnerabilitySeverity::Critical, Some("1.0.1")),
        finding(VulnerabilitySeverity::Critical, None),
        finding(VulnerabilitySeverity::High, None),
        finding(VulnerabilitySeverity::Medium, None),
        finding(VulnerabilitySeverity::Low, None),
        finding(VulnerabilitySeverity::Unknown, None),
    ];
    let r = CVEDetectionResult::from_findings(
        "stellar/core:v21.0.0".to_string(),
        vulns,
        Some("stellar/core:v21.0.1".to_string()),
        false,
        1700000000,
    );
    assert_eq!(r.cve_count.critical, 2);
    assert_eq!(r.cve_count.high, 1);
    assert_eq!(r.cve_count.medium, 1);
    assert_eq!(r.cve_count.low, 1);
    assert_eq!(r.cve_count.unknown, 1);
    assert_eq!(r.cve_count.total(), 6);
    assert!(r.has_critical);
    assert_eq!(r.patched_version, Some("stellar/core:v21.0.1".to_string()));
}

#[test]
fn test_from_findings_without_fix_leaves_no_patch() {
    let vulns = vec![finding(VulnerabilitySeverity::Critical, None)];
    let r = CVEDetectionResult::from_findings(
        "stellar/core:v21.0.0".to_string(),
        vulns,
        Some("stellar/core:v21.0.1".to_string()),
        false,
        1700000000,
    );
    assert!(r.has_critical);
    assert_eq!(r.patched_version, None);
    assert!(r.requires_urgent_patch());
    assert!(!r.can_patch());
}

#[test]
fn test_from_findings_critical_only_ignores_lesser_fixes() {
    // Only a High finding carries a fix: under critical_only the patch
    // decision disregards it.
    let vulns = vec![
        finding(VulnerabilitySeverity::Critical, None),
        finding(VulnerabilitySeverity::High, Some("1.0.2")),
    ];
    let r = CVEDetectionResult::from_findings(
        "stellar/core:v21.0.0".to_string(),
        vulns.clone(),
        Some("stellar/core:v21.0.1".to_string()),
        true,
        1700000000,
    );
    assert_eq!(r.patched_version, None);

    let r2 = CVEDetectionResult::from_findings(
        "stellar/core:v21.0.0".to_string(),
        vulns,
        Some("stellar/core:v21.0.1".to_string()),
        false,
        1700000000,
    );
    assert_eq!(r2.patched_version, Some("stellar/core:v21.0.1".to_string()));
}

#[test]
fn test_sort_vulnerabilities_by_severity() {
    let mut vulns = vec![
        finding(VulnerabilitySeverity::Low, None),
        finding(VulnerabilitySeverity::Critical, None),
        finding(VulnerabilitySeverity::Unknown, None),
        finding(VulnerabilitySeverity::High, None),
        finding(VulnerabilitySeverity::Medium, None),
        finding(VulnerabilitySeverity::High, None),
    ];
    stellar_k8s::cve::sort_vulnerabilities_by_severity(&mut vulns);
    let order: Vec<VulnerabilitySeverity> = vulns.iter().map(|v| v.severity).collect();
    assert_eq!(
        order,
        vec![
            VulnerabilitySeverity::Critical,
            VulnerabilitySeverity::High,
            VulnerabilitySeverity::High,
            VulnerabilitySeverity::Medium,
            VulnerabilitySeverity::Low,
            VulnerabilitySeverity::Unknown,
        ]
    );
}

#[test]
fn test_cve_count_total_all_zero() {
    let count = CVECount::default();
    assert_eq!(count.total(), 0);
}

#[test]
fn test_severity_rank_extremes() {
    assert!(VulnerabilitySeverity::Critical > VulnerabilitySeverity::Unknown);
    assert!(VulnerabilitySeverity::Unknown < VulnerabilitySeverity::Critical);
    assert!(!(VulnerabilitySeverity::High > VulnerabilitySeverity::High));
    assert_eq!(VulnerabilitySeverity::Critical.rank(), 4);
    assert_eq!(VulnerabilitySeverity::Unknown.rank(), 0);
}

#[test]
fn test_canary_pass_rate_boundary_is_inclusive() {
    let config = CVEHandlingConfig::default();
    // 10/10 is exactly the 100-percent threshold: Passed, not Failed.
    let report = CanaryTestReport { passed: 10, total: 10 };
    assert_eq!(
        evaluate_canary(true, Some(report), 0, &config),
        CanaryTestStatus::Passed
    );
    let below = CanaryTestReport { passed: 9, total: 10 };
    assert_eq!(
        evaluate_canary(true, Some(below), 0, &config),
        CanaryTestStatus::Failed
    );
    // 19/20 is exactly a 95-percent threshold.
    let config95 = CVEHandlingConfig {
        canary_pass_rate_threshold: 95,
        ..CVEHandlingConfig::default()
    };
    let rate95 = CanaryTestReport { passed: 19, total: 20 };
    assert_eq!(
        evaluate_canary(true, Some(rate95), 0, &config95),
        CanaryTestStatus::Passed
    );
}

#[test]
fn test_canary_empty_report_fails_closed() {
    let config = CVEHandlingConfig::default();
    let report = CanaryTestReport { passed: 0, total: 0 };
    assert_eq!(
        evaluate_canary(true, Some(report), 0, &config),
        CanaryTestStatus::Failed
    );
}

#[test]
fn test_canary_timeout_and_phases() {
    let config = CVEHandlingConfig::default();
    assert_eq!(
        evaluate_canary(false, None, 0, &config),
        CanaryTestStatus::Pending
    );
    assert_eq!(
        evaluate_canary(true, None, 299, &config),
        CanaryTestStatus::Running
    );
    assert_eq!(
        evaluate_canary(true, None, 300, &config),
        CanaryTestStatus::Timeout
    );
    assert_eq!(
        evaluate_canary(true, None, 301, &config),
        CanaryTestStatus::Timeout
    );
}

#[test]
fn test_gate_nineteen_of_twenty() {
    let mut snaps: Vec<HealthStatus> = Vec::new();
    for i in 0..20 {
        snaps.push(healthy_replica(i != 0));
    }
    let config95 = CVEHandlingConfig::default();
    let d = evaluate_gate(&snaps, &config95);
    assert_eq!(d.healthy_replicas, 19);
    assert_eq!(d.total_replicas, 20);
    assert!(d.pass);

    let config96 = CVEHandlingConfig {
        consensus_health_threshold: 96,
        ..CVEHandlingConfig::default()
    };
    let d96 = evaluate_gate(&snaps, &config96);
    assert!(!d96.pass);
}

#[test]
fn test_gate_fails_closed_without_replicas() {
    let snaps: Vec<HealthStatus> = Vec::new();
    let zero_threshold = CVEHandlingConfig {
        consensus_health_threshold: 0,
        ..CVEHandlingConfig::default()
    };
    let d = evaluate_gate(&snaps, &zero_threshold);
    assert_eq!(d.total_replicas, 0);
    assert!(!d.pass);
}

#[test]
fn test_gate_counts_unreachable_replicas_as_unhealthy() {
    let snaps = vec![
        healthy_replica(true),
        HealthStatus::unreachable("probe timed out".to_string()),
    ];
    let config = CVEHandlingConfig::default();
    let d = evaluate_gate(&snaps, &config);
    assert_eq!(d.healthy_replicas, 1);
    assert_eq!(d.total_replicas, 2);
    assert!(!d.pass);
}

fn critical_detection(patched: Option<&str>) -> CVEDetectionResult {
    CVEDetectionResult {
        current_image: "stellar/core:v21.0.0".to_string(),
        vulnerabilities: vec![finding(
            VulnerabilitySeverity::Critical,
            patched.map(|_| "1.0.1"),
        )],
        patched_version: patched.map(|p| p.to_string()),
        scan_timestamp: 1700000000,
        cve_count: CVECount {
            critical: 1,
            ..Default::default()
        },
        has_critical: true,
    }
}

#[test]
fn test_idle_to_canary_on_critical_with_patch() {
    let config = CVEHandlingConfig::default();
    let mut rec = RolloutRecord::new("stellar/core:v21.0.0".to_string(), 10);
    let action = rec.handle_event(
        RolloutEvent::ScanCompleted(critical_detection(Some("stellar/core:v21.0.1"))),
        &config,
        20,
    );
    assert_eq!(action, RolloutAction::StartCanary);
    assert_eq!(rec.status, CVERolloutStatus::CanaryTesting);
    assert_eq!(rec.canary_status, CanaryTestStatus::Pending);
    assert_eq!(rec.last_known_good_image, "stellar/core:v21.0.0");
    assert_eq!(rec.state_entered_at_secs, 20);
}

#[test]
fn test_idle_stays_and_alerts_on_critical_without_patch() {
    let config = CVEHandlingConfig::default();
    let mut rec = RolloutRecord::new("stellar/core:v21.0.0".to_string(), 10);
    let action = rec.handle_event(
        RolloutEvent::ScanCompleted(critical_detection(None)),
        &config,
        20,
    );
    assert_eq!(action, RolloutAction::AlertCriticalWithoutPatch);
    assert_eq!(rec.status, CVERolloutStatus::Idle);
}

#[test]
fn test_kill_switch_suppresses_new_cycle() {
    let config = CVEHandlingConfig {
        enabled: false,
        ..CVEHandlingConfig::default()
    };
    let mut rec = RolloutRecord::new("stellar/core:v21.0.0".to_string(), 10);
    let action = rec.handle_event(
        RolloutEvent::ScanCompleted(critical_detection(Some("stellar/core:v21.0.1"))),
        &config,
        20,
    );
    assert_eq!(action, RolloutAction::NoAction);
    assert_eq!(rec.status, CVERolloutStatus::Idle);
}

#[test]
fn test_critical_only_skips_non_critical_findings() {
    let config = CVEHandlingConfig {
        critical_only: true,
        ..CVEHandlingConfig::default()
    };
    let detection = CVEDetectionResult {
        current_image: "stellar/core:v21.0.0".to_string(),
        vulnerabilities: vec![finding(VulnerabilitySeverity::High, Some("1.0.2"))],
        patched_version: Some("stellar/core:v21.0.1".to_string()),
        scan_timestamp: 1700000000,
        cve_count: CVECount {
            high: 1,
            ..Default::default()
        },
        has_critical: false,
    };
    let mut rec = RolloutRecord::new("stellar/core:v21.0.0".to_string(), 10);
    let action = rec.handle_event(RolloutEvent::ScanCompleted(detection.clone()), &config, 20);
    assert_eq!(action, RolloutAction::NoAction);
    assert_eq!(rec.status, CVERolloutStatus::Idle);

    // The same finding is actionable once critical_only is off.
    let permissive = CVEHandlingConfig::default();
    let action2 = rec.handle_event(RolloutEvent::ScanCompleted(detection), &permissive, 30);
    assert_eq!(action2, RolloutAction::StartCanary);
    assert_eq!(rec.status, CVERolloutStatus::CanaryTesting);
}

#[test]
fn test_canary_timeout_with_auto_rollback_reaches_rolled_back() {
    let config = CVEHandlingConfig::default();
    let mut rec = RolloutRecord::new("stellar/core:v21.0.0".to_string(), 0);
    rec.handle_event(
        RolloutEvent::ScanCompleted(critical_detection(Some("stellar/core:v21.0.1"))),
        &config,
        0,
    );

    // The canary window elapses with no result.
    let status = evaluate_canary(true, None, rec.seconds_in_state(301), &config);
    assert_eq!(status, CanaryTestStatus::Timeout);

    let action = rec.handle_event(
        RolloutEvent::CanaryEvaluated {
            status,
            gate_passed: false,
        },
        &config,
        301,
    );
    assert_eq!(
        action,
        RolloutAction::StartRollback(FailureCause::CanaryTimedOut)
    );
    assert_eq!(rec.status, CVERolloutStatus::RollingBack);

    let done = rec.handle_event(
        RolloutEvent::RollbackCompleted {
            health_restored: true,
        },
        &config,
        320,
    );
    assert_eq!(done, RolloutAction::NoAction);
    assert_eq!(rec.status, CVERolloutStatus::RolledBack);
}

#[test]
fn test_canary_timeout_without_auto_rollback_fails() {
    let config = CVEHandlingConfig {
        enable_auto_rollback: false,
        ..CVEHandlingConfig::default()
    };
    let mut rec = RolloutRecord::new("stellar/core:v21.0.0".to_string(), 0);
    rec.handle_event(
        RolloutEvent::ScanCompleted(critical_detection(Some("stellar/core:v21.0.1"))),
        &config,
        0,
    );
    let action = rec.handle_event(
        RolloutEvent::CanaryEvaluated {
            status: CanaryTestStatus::Timeout,
            gate_passed: false,
        },
        &config,
        301,
    );
    assert_eq!(
        action,
        RolloutAction::RecordFailure(FailureCause::CanaryTimedOut)
    );
    assert_eq!(rec.status, CVERolloutStatus::Failed);
}

#[test]
fn test_full_rollout_reaches_complete() {
    let config = CVEHandlingConfig::default();
    let mut rec = RolloutRecord::new("stellar/core:v21.0.0".to_string(), 0);
    rec.handle_event(
        RolloutEvent::ScanCompleted(critical_detection(Some("stellar/core:v21.0.1"))),
        &config,
        0,
    );
    let action = rec.handle_event(
        RolloutEvent::CanaryEvaluated {
            status: CanaryTestStatus::Passed,
            gate_passed: true,
        },
        &config,
        60,
    );
    assert_eq!(action, RolloutAction::StartRollout);
    assert_eq!(rec.status, CVERolloutStatus::Rolling);
    assert_eq!(rec.canary_status, CanaryTestStatus::Passed);

    // First widen step: not every replica updated yet, health holds.
    let step = rec.handle_event(
        RolloutEvent::WidenStepObserved {
            all_replicas_updated: false,
            gate_passed: true,
        },
        &config,
        90,
    );
    assert_eq!(step, RolloutAction::NoAction);
    assert_eq!(rec.status, CVERolloutStatus::Rolling);

    let last = rec.handle_event(
        RolloutEvent::WidenStepObserved {
            all_replicas_updated: true,
            gate_passed: true,
        },
        &config,
        120,
    );
    assert_eq!(last, RolloutAction::NoAction);
    assert_eq!(rec.status, CVERolloutStatus::Complete);
}

#[test]
fn test_gate_failure_after_canary_pass_rolls_back() {
    let config = CVEHandlingConfig::default();
    let mut rec = RolloutRecord::new("stellar/core:v21.0.0".to_string(), 0);
    rec.handle_event(
        RolloutEvent::ScanCompleted(critical_detection(Some("stellar/core:v21.0.1"))),
        &config,
        0,
    );
    let action = rec.handle_event(
        RolloutEvent::CanaryEvaluated {
            status: CanaryTestStatus::Passed,
            gate_passed: false,
        },
        &config,
        60,
    );
    assert_eq!(
        action,
        RolloutAction::StartRollback(FailureCause::ConsensusGateFailed)
    );
    assert_eq!(rec.status, CVERolloutStatus::RollingBack);
}

#[test]
fn test_health_regression_during_widen_rolls_back() {
    let config = CVEHandlingConfig::default();
    let mut rec = RolloutRecord::new("stellar/core:v21.0.0".to_string(), 0);
    rec.handle_event(
        RolloutEvent::ScanCompleted(critical_detection(Some("stellar/core:v21.0.1"))),
        &config,
        0,
    );
    rec.handle_event(
        RolloutEvent::CanaryEvaluated {
            status: CanaryTestStatus::Passed,
            gate_passed: true,
        },
        &config,
        60,
    );
    let action = rec.handle_event(
        RolloutEvent::WidenStepObserved {
            all_replicas_updated: false,
            gate_passed: false,
        },
        &config,
        90,
    );
    assert_eq!(
        action,
        RolloutAction::StartRollback(FailureCause::HealthRegressed)
    );
    assert_eq!(rec.status, CVERolloutStatus::RollingBack);
}

#[test]
fn test_failed_rollback_is_terminal_failure() {
    let config = CVEHandlingConfig::default();
    let mut rec = RolloutRecord::new("stellar/core:v21.0.0".to_string(), 0);
    rec.handle_event(
        RolloutEvent::ScanCompleted(critical_detection(Some("stellar/core:v21.0.1"))),
        &config,
        0,
    );
    let rollback = rec.handle_event(
        RolloutEvent::CanaryEvaluated {
            status: CanaryTestStatus::Failed,
            gate_passed: false,
        },
        &config,
        60,
    );
    assert_eq!(
        rollback,
        RolloutAction::StartRollback(FailureCause::CanaryFailed)
    );
    assert_eq!(rec.status, CVERolloutStatus::RollingBack);
    let action = rec.handle_event(
        RolloutEvent::RollbackCompleted {
            health_restored: false,
        },
        &config,
        90,
    );
    assert_eq!(
        action,
        RolloutAction::RecordFailure(FailureCause::RollbackUnsuccessful)
    );
    assert_eq!(rec.status, CVERolloutStatus::Failed);
}

#[test]
fn test_active_rollout_defers_new_detection() {
    let config = CVEHandlingConfig::default();
    let mut rec = RolloutRecord::new("stellar/core:v21.0.0".to_string(), 0);
    rec.handle_event(
        RolloutEvent::ScanCompleted(critical_detection(Some("stellar/core:v21.0.1"))),
        &config,
        0,
    );
    assert_eq!(rec.status, CVERolloutStatus::CanaryTesting);

    // A second qualifying detection arrives mid-cycle: ignored.
    let action = rec.handle_event(
        RolloutEvent::ScanCompleted(critical_detection(Some("stellar/core:v21.0.2"))),
        &config,
        30,
    );
    assert_eq!(action, RolloutAction::NoAction);
    assert_eq!(rec.status, CVERolloutStatus::CanaryTesting);
    assert_eq!(rec.state_entered_at_secs, 0);
}

#[test]
fn test_terminal_state_reenters_on_next_scan() {
    let config = CVEHandlingConfig::default();
    let mut rec = RolloutRecord::new("stellar/core:v21.0.0".to_string(), 0);
    rec.handle_event(
        RolloutEvent::ScanCompleted(critical_detection(Some("stellar/core:v21.0.1"))),
        &config,
        0,
    );
    rec.handle_event(
        RolloutEvent::CanaryEvaluated {
            status: CanaryTestStatus::Passed,
            gate_passed: true,
        },
        &config,
        60,
    );
    rec.handle_event(
        RolloutEvent::WidenStepObserved {
            all_replicas_updated: true,
            gate_passed: true,
        },
        &config,
        120,
    );
    assert_eq!(rec.status, CVERolloutStatus::Complete);

    // A clean scan returns the node to Idle.
    let clean = CVEDetectionResult::from_findings(
        "stellar/core:v21.0.1".to_string(),
        Vec::new(),
        None,
        false,
        1700000500,
    );
    let action = rec.handle_event(RolloutEvent::ScanCompleted(clean), &config, 150);
    assert_eq!(action, RolloutAction::NoAction);
    assert_eq!(rec.status, CVERolloutStatus::Idle);
    assert_eq!(rec.last_known_good_image, "stellar/core:v21.0.1");

    // A new qualifying finding starts the next cycle from Idle.
    let action2 = rec.handle_event(
        RolloutEvent::ScanCompleted(critical_detection(Some("stellar/core:v21.0.2"))),
        &config,
        200,
    );
    assert_eq!(action2, RolloutAction::StartCanary);
    assert_eq!(rec.status, CVERolloutStatus::CanaryTesting);
}

#[test]
fn test_scan_due_follows_cadence_and_kill_switch() {
    let config = CVEHandlingConfig::default();
    assert!(!config.scan_due(1000, 1000 + 3599));
    assert!(config.scan_due(1000, 1000 + 3600));
    assert!(config.scan_due(1000, 1000 + 7200));
    // A clock reading earlier than the last scan never triggers.
    assert!(!config.scan_due(1000, 500));
    let disabled = CVEHandlingConfig {
        enabled: false,
        ..CVEHandlingConfig::default()
    };
    assert!(!disabled.scan_due(1000, 1000 + 7200));
}

#[test]
fn test_seconds_in_state_saturates() {
    let rec = RolloutRecord::new("stellar/core:v21.0.0".to_string(), 100);
    assert_eq!(rec.seconds_in_state(160), 60);
    assert_eq!(rec.seconds_in_state(100), 0);
    assert_eq!(rec.seconds_in_state(40), 0);
}
