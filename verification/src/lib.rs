//! Verified core of a CVE-driven remediation controller for a fleet of
//! blockchain-network node resources: the severity model, scan
//! classification, canary verification policy, consensus health gate,
//! and the per-node rollout state machine.

pub mod canary;
pub mod crd;
pub mod cve;
pub mod health;
pub mod rollout;
