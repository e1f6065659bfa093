//! Severity model and scan snapshots: ranked vulnerability severities,
//! aggregate counters, and the per-scan detection result with its two
//! policy predicates.

use vstd::prelude::*;
use vstd::std_specs::cmp::PartialOrdSpec;

verus! {

/// Ranked impact classification of one vulnerability finding.
/// `Critical` outranks `High`, which outranks `Medium`, then `Low`,
/// then `Unknown`.
#[derive(Clone, Copy, Debug, PartialEq, Eq, Structural, Hash)]
pub enum VulnerabilitySeverity {
    Unknown,
    Low,
    Medium,
    High,
    Critical,
}

impl VulnerabilitySeverity {
    /// Numeric rank of this severity; a higher rank means more severe.
    pub open spec fn spec_rank(self) -> int {
        match self {
            VulnerabilitySeverity::Unknown => 0,
            VulnerabilitySeverity::Low => 1,
            VulnerabilitySeverity::Medium => 2,
            VulnerabilitySeverity::High => 3,
            VulnerabilitySeverity::Critical => 4,
        }
    }

    /// Rank as a machine integer, for sorting and threshold comparisons.
    pub fn rank(&self) -> (r: u8)
        ensures
            r as int == self.spec_rank(),
    {
        match self {
            VulnerabilitySeverity::Unknown => 0,
            VulnerabilitySeverity::Low => 1,
            VulnerabilitySeverity::Medium => 2,
            VulnerabilitySeverity::High => 3,
            VulnerabilitySeverity::Critical => 4,
        }
    }
}

impl PartialOrd for VulnerabilitySeverity {
    fn partial_cmp(&self, other: &Self) -> (r: Option<core::cmp::Ordering>) {
        let a = self.rank();
        let b = other.rank();
        if a < b {
            Some(core::cmp::Ordering::Less)
        } else if a == b {
            Some(core::cmp::Ordering::Equal)
        } else {
            Some(core::cmp::Ordering::Greater)
        }
    }
}

impl vstd::std_specs::cmp::PartialOrdSpecImpl for VulnerabilitySeverity {
    open spec fn obeys_partial_cmp_spec() -> bool {
        true
    }

    open spec fn partial_cmp_spec(&self, other: &Self) -> Option<core::cmp::Ordering> {
        if self.spec_rank() < other.spec_rank() {
            Some(core::cmp::Ordering::Less)
        } else if self.spec_rank() == other.spec_rank() {
            Some(core::cmp::Ordering::Equal)
        } else {
            Some(core::cmp::Ordering::Greater)
        }
    }
}

/// What `a > b` means for severities in contracts: `a` outranks `b`.
pub open spec fn severity_gt(a: VulnerabilitySeverity, b: VulnerabilitySeverity) -> bool {
    a.partial_cmp_spec(&b) == Some(core::cmp::Ordering::Greater)
}

/// The severity order is a strict total order: irreflexive, asymmetric,
/// transitive, and total, with equal severities comparing equal.
pub proof fn lemma_severity_order_strict_and_transitive(
    a: VulnerabilitySeverity,
    b: VulnerabilitySeverity,
    c: VulnerabilitySeverity,
)
    ensures
        severity_gt(a, b) <==> a.spec_rank() > b.spec_rank(),
        !severity_gt(a, a),
        severity_gt(a, b) ==> !severity_gt(b, a),
        severity_gt(a, b) && severity_gt(b, c) ==> severity_gt(a, c),
        severity_gt(a, b) || severity_gt(b, a) || a == b,
        a.partial_cmp_spec(&b) == Some(core::cmp::Ordering::Equal) <==> a == b,
{
}

/// The severity ranking descends from `Critical` down to `Unknown`.
pub proof fn lemma_severity_ranking()
    ensures
        severity_gt(VulnerabilitySeverity::Critical, VulnerabilitySeverity::High),
        severity_gt(VulnerabilitySeverity::High, VulnerabilitySeverity::Medium),
        severity_gt(VulnerabilitySeverity::Medium, VulnerabilitySeverity::Low),
        severity_gt(VulnerabilitySeverity::Low, VulnerabilitySeverity::Unknown),
{
}

/// One vulnerability finding, immutable once produced by a scan.
#[derive(Clone, Debug)]
pub struct Vulnerability {
    pub cve_id: String,
    pub severity: VulnerabilitySeverity,
    pub package: String,
    pub installed_version: String,
    pub fixed_version: Option<String>,
    pub description: String,
}

/// Aggregate counters of findings per severity, derived from a
/// vulnerability list and never mutated independently of it.
#[derive(Clone, Copy, Debug, PartialEq, Eq, Structural)]
pub struct CVECount {
    pub critical: u32,
    pub high: u32,
    pub medium: u32,
    pub low: u32,
    pub unknown: u32,
}

impl Default for CVECount {
    /// All five counters start at zero.
    fn default() -> (r: Self)
        ensures
            r == (CVECount { critical: 0, high: 0, medium: 0, low: 0, unknown: 0 }),
    {
        CVECount { critical: 0, high: 0, medium: 0, low: 0, unknown: 0 }
    }
}

/// How many findings in `s` carry severity `sev`.
pub open spec fn count_severity(s: Seq<Vulnerability>, sev: VulnerabilitySeverity) -> int
    decreases s.len(),
{
    if s.len() == 0 {
        0
    } else {
        count_severity(s.drop_last(), sev) + if s.last().severity == sev {
            1int
        } else {
            0int
        }
    }
}

/// `c` tallies exactly the findings of `s`, severity by severity.
pub open spec fn counts_of(c: CVECount, s: Seq<Vulnerability>) -> bool {
    &&& c.critical == count_severity(s, VulnerabilitySeverity::Critical)
    &&& c.high == count_severity(s, VulnerabilitySeverity::High)
    &&& c.medium == count_severity(s, VulnerabilitySeverity::Medium)
    &&& c.low == count_severity(s, VulnerabilitySeverity::Low)
    &&& c.unknown == count_severity(s, VulnerabilitySeverity::Unknown)
}

impl CVECount {
    /// Sum of all five counters as a mathematical integer.
    pub open spec fn spec_total(self) -> int {
        self.critical + self.high + self.medium + self.low + self.unknown
    }

    /// Total number of findings across every severity: the sum of the
    /// five counters, for all inputs.
    pub fn total(&self) -> (r: u64)
        ensures
            r == self.spec_total(),
    {
        self.critical as u64 + self.high as u64 + self.medium as u64 + self.low as u64
            + self.unknown as u64
    }

    /// Tally the severities of a vulnerability list.
    pub fn from_vulnerabilities(vulnerabilities: &Vec<Vulnerability>) -> (r: CVECount)
        requires
            vulnerabilities@.len() <= u32::MAX,
        ensures
            counts_of(r, vulnerabilities@),
    {
        let mut c = CVECount { critical: 0, high: 0, medium: 0, low: 0, unknown: 0 };
        let mut i: usize = 0;
        while i < vulnerabilities.len()
            invariant
                i <= vulnerabilities@.len() <= u32::MAX,
                counts_of(c, vulnerabilities@.take(i as int)),
                c.critical <= i && c.high <= i && c.medium <= i && c.low <= i && c.unknown <= i,
            decreases vulnerabilities@.len() - i,
        {
            proof {
                assert(vulnerabilities@.take(i + 1).drop_last() =~= vulnerabilities@.take(
                    i as int,
                ));
                assert(vulnerabilities@.take(i + 1).last() == vulnerabilities@[i as int]);
            }
            match vulnerabilities[i].severity {
                VulnerabilitySeverity::Critical => c.critical = c.critical + 1,
                VulnerabilitySeverity::High => c.high = c.high + 1,
                VulnerabilitySeverity::Medium => c.medium = c.medium + 1,
                VulnerabilitySeverity::Low => c.low = c.low + 1,
                VulnerabilitySeverity::Unknown => c.unknown = c.unknown + 1,
            }
            i = i + 1;
        }
        proof {
            assert(vulnerabilities@.take(vulnerabilities@.len() as int) =~= vulnerabilities@);
        }
        c
    }
}

/// The findings are ordered from most to least severe.
pub open spec fn sorted_by_severity(s: Seq<Vulnerability>) -> bool {
    forall|k: int, l: int|
        0 <= k <= l < s.len() ==> s[k].severity.spec_rank() >= s[l].severity.spec_rank()
}

/// Sort the findings in place from most to least severe, keeping
/// exactly the same findings.
pub fn sort_vulnerabilities_by_severity(vulns: &mut Vec<Vulnerability>)
    ensures
        sorted_by_severity(final(vulns)@),
        final(vulns)@.to_multiset() == old(vulns)@.to_multiset(),
        final(vulns)@.len() == old(vulns)@.len(),
{
    let ghost orig = vulns@;
    let mut i: usize = 0;
    while i < vulns.len()
        invariant
            i <= vulns@.len(),
            vulns@.len() == orig.len(),
            sorted_by_severity(vulns@.take(i as int)),
            vulns@.to_multiset() == orig.to_multiset(),
        decreases vulns@.len() - i,
    {
        let ghost s0 = vulns@;
        let x = vulns.remove(i);
        let ghost s1 = vulns@;
        let mut j: usize = 0;
        while j < i && vulns[j].severity.rank() >= x.severity.rank()
            invariant
                j <= i,
                i < s0.len(),
                s1 == s0.remove(i as int),
                vulns@ == s1,
                forall|k: int|
                    0 <= k < j ==> s1[k].severity.spec_rank() >= x.severity.spec_rank(),
            decreases i - j,
        {
            j = j + 1;
        }
        vulns.insert(j, x);
        proof {
            broadcast use vstd::seq_lib::group_to_multiset_ensures;

            assert(s0[i as int] == x);
            assert(s1.take(i as int) =~= s0.take(i as int));
            assert(vulns@ == s1.insert(j as int, x));
            assert(s1.to_multiset() == s0.to_multiset().remove(x));
            assert(vulns@.to_multiset() =~= s0.to_multiset()) by {
                assert(s0.contains(x)) by {
                    assert(s0[i as int] == x);
                }
                assert(s0.to_multiset().count(x) > 0);
                assert(vulns@.to_multiset() == s0.to_multiset().remove(x).insert(x));
            }
            assert(sorted_by_severity(vulns@.take(i + 1))) by {
                let t = vulns@.take(i + 1);
                assert forall|k: int, l: int| 0 <= k <= l < t.len() implies t[k].severity.spec_rank()
                    >= t[l].severity.spec_rank() by {
                    assert(forall|m: int|
                        0 <= m < j ==> t[m] == s1[m] && t[m] == s0.take(i as int)[m]);
                    assert(t[j as int] == x);
                    assert(forall|m: int|
                        j < m <= i ==> t[m] == s1[m - 1] && t[m] == s0.take(i as int)[m - 1]);
                    if j < i {
                        assert(s1[j as int].severity.spec_rank() < x.severity.spec_rank());
                    }
                }
            }
        }
        i = i + 1;
    }
    proof {
        assert(vulns@.take(vulns@.len() as int) =~= vulns@);
    }
}

/// Whether a finding can justify populating the patched image: it must
/// carry a fixed version, and when `critical_only` is set only Critical
/// findings qualify for the patch decision.
pub open spec fn patch_relevant(v: Vulnerability, critical_only: bool) -> bool {
    &&& v.fixed_version is Some
    &&& !critical_only || v.severity == VulnerabilitySeverity::Critical
}

/// One scan snapshot of a node's current image: the findings, their
/// tally, and the patched image reference when a fix exists for at
/// least one qualifying finding. Immutable; superseded by the next scan.
#[derive(Clone, Debug)]
pub struct CVEDetectionResult {
    pub current_image: String,
    pub vulnerabilities: Vec<Vulnerability>,
    pub patched_version: Option<String>,
    /// Seconds since the epoch at which the scan ran.
    pub scan_timestamp: u64,
    pub cve_count: CVECount,
    /// Fast-path flag; consistent results keep it equal to
    /// `cve_count.critical > 0`.
    pub has_critical: bool,
}

impl CVEDetectionResult {
    /// The fast-path flag agrees with the Critical counter.
    pub open spec fn wf(self) -> bool {
        self.has_critical == (self.cve_count.critical > 0)
    }

    /// Detection signal: at least one Critical finding exists, whether
    /// or not a patch exists yet. True iff `has_critical`.
    pub fn requires_urgent_patch(&self) -> (r: bool)
        ensures
            r == self.has_critical,
    {
        self.has_critical
    }

    /// Action signal: a patched image reference is present. True iff
    /// `patched_version` is `Some`, regardless of `has_critical`.
    pub fn can_patch(&self) -> (r: bool)
        ensures
            r == (self.patched_version is Some),
    {
        self.patched_version.is_some()
    }

    /// Map the findings of one feed query into a scan snapshot: tally
    /// the severities, derive `has_critical` from the Critical counter,
    /// and populate `patched_version` with the candidate image exactly
    /// when the feed supplied a fixed version for at least one finding
    /// that qualifies under `critical_only`.
    pub fn from_findings(
        current_image: String,
        vulnerabilities: Vec<Vulnerability>,
        candidate_patched_image: Option<String>,
        critical_only: bool,
        scan_timestamp: u64,
    ) -> (r: CVEDetectionResult)
        requires
            vulnerabilities@.len() <= u32::MAX,
        ensures
            r.current_image == current_image,
            r.vulnerabilities == vulnerabilities,
            r.scan_timestamp == scan_timestamp,
            counts_of(r.cve_count, vulnerabilities@),
            r.has_critical == (count_severity(vulnerabilities@, VulnerabilitySeverity::Critical)
                > 0),
            r.patched_version == (if candidate_patched_image is Some && (exists|i: int|
                0 <= i < vulnerabilities@.len() && patch_relevant(
                    #[trigger] vulnerabilities@[i],
                    critical_only,
                )) {
                candidate_patched_image
            } else {
                Option::<String>::None
            }),
            r.wf(),
    {
        let cve_count = CVECount::from_vulnerabilities(&vulnerabilities);
        let has_critical = cve_count.critical > 0;
        let mut fix_available = false;
        let mut i: usize = 0;
        while i < vulnerabilities.len()
            invariant
                i <= vulnerabilities@.len(),
                fix_available == (exists|j: int|
                    0 <= j < i && patch_relevant(#[trigger] vulnerabilities@[j], critical_only)),
            decreases vulnerabilities@.len() - i,
        {
            let v = &vulnerabilities[i];
            if v.fixed_version.is_some() && (!critical_only || v.severity
                == VulnerabilitySeverity::Critical) {
                fix_available = true;
            }
            i = i + 1;
        }
        let patched_version = if fix_available {
            candidate_patched_image
        } else {
            None
        };
        CVEDetectionResult {
            current_image,
            vulnerabilities,
            patched_version,
            scan_timestamp,
            cve_count,
            has_critical,
        }
    }
}

} // verus!
