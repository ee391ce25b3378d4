//! Audit findings, attack probe results, and the summary score computed
//! from them.
use vstd::prelude::*;

verus! {

#[derive(Debug, Clone, Copy, PartialEq, Eq, Structural)]
pub enum AuditSeverity {
    Critical,
    High,
    Medium,
    Low,
    Info,
}

impl AuditSeverity {
    /// The lowercase name of the severity.
    pub open spec fn name(self) -> Seq<char> {
        match self {
            AuditSeverity::Critical => "critical"@,
            AuditSeverity::High => "high"@,
            AuditSeverity::Medium => "medium"@,
            AuditSeverity::Low => "low"@,
            AuditSeverity::Info => "info"@,
        }
    }

    pub fn as_str(&self) -> (r: &'static str)
        ensures
            r@ == self.name(),
    {
        match self {
            AuditSeverity::Critical => "critical",
            AuditSeverity::High => "high",
            AuditSeverity::Medium => "medium",
            AuditSeverity::Low => "low",
            AuditSeverity::Info => "info",
        }
    }
}

#[derive(Debug, Clone)]
pub struct AuditFinding {
    pub id: String,
    pub category: String,
    pub severity: AuditSeverity,
    pub title: String,
    pub description: String,
    pub file_path: Option<String>,
    pub line_number: Option<u32>,
    pub mitre_technique: Option<String>,
    pub recommendation: String,
    pub evidence: Option<String>,
}

#[derive(Debug, Clone)]
pub struct AuditSummary {
    pub total_findings: usize,
    pub critical: usize,
    pub high: usize,
    pub medium: usize,
    pub low: usize,
    pub info: usize,
    pub files_scanned: usize,
    pub attack_tests_run: usize,
    pub attack_tests_passed: usize,
    pub attack_tests_failed: usize,
    pub security_score: u8,
}

#[derive(Debug, Clone)]
pub struct AuditReport {
    pub audit_id: String,
    pub started_at: String,
    pub completed_at: String,
    pub duration_ms: u64,
    pub summary: AuditSummary,
    pub findings: Vec<AuditFinding>,
    pub attack_results: Vec<AttackTestResult>,
}

#[derive(Debug, Clone)]
pub struct AttackTestResult {
    pub test_id: String,
    pub name: String,
    pub description: String,
    pub mitre_technique: String,
    pub passed: bool,
    pub details: String,
}

/// How many findings of `s` have severity `sev`.
pub open spec fn count_severity(s: Seq<AuditFinding>, sev: AuditSeverity) -> nat
    decreases s.len(),
{
    if s.len() == 0 {
        0
    } else {
        count_severity(s.drop_last(), sev) + if s.last().severity == sev {
            1nat
        } else {
            0nat
        }
    }
}

/// How many probe results of `s` passed.
pub open spec fn count_passed(s: Seq<AttackTestResult>) -> nat
    decreases s.len(),
{
    if s.len() == 0 {
        0
    } else {
        count_passed(s.drop_last()) + if s.last().passed {
            1nat
        } else {
            0nat
        }
    }
}

/// The security score: 100, less 25 per critical, 15 per high, 8 per
/// medium and 3 per low finding and 10 per failed probe, kept within
/// 0..=100.
pub open spec fn score_of(critical: int, high: int, medium: int, low: int, failed: int) -> int {
    let s = 100 - 25 * critical - 15 * high - 8 * medium - 3 * low - 10 * failed;
    if s < 0 {
        0
    } else if s > 100 {
        100
    } else {
        s
    }
}

/// The summary that `compute_summary` gives for these findings, probe
/// results and file count.
pub open spec fn summary_of(
    summary: AuditSummary,
    findings: Seq<AuditFinding>,
    results: Seq<AttackTestResult>,
    files_scanned: usize,
) -> bool {
    &&& summary.total_findings == findings.len()
    &&& summary.critical == count_severity(findings, AuditSeverity::Critical)
    &&& summary.high == count_severity(findings, AuditSeverity::High)
    &&& summary.medium == count_severity(findings, AuditSeverity::Medium)
    &&& summary.low == count_severity(findings, AuditSeverity::Low)
    &&& summary.info == count_severity(findings, AuditSeverity::Info)
    &&& summary.files_scanned == files_scanned
    &&& summary.attack_tests_run == results.len()
    &&& summary.attack_tests_passed == count_passed(results)
    &&& summary.attack_tests_failed == results.len() - count_passed(results)
    &&& summary.security_score == score_of(
        summary.critical as int,
        summary.high as int,
        summary.medium as int,
        summary.low as int,
        summary.attack_tests_failed as int,
    )
}

/// Each severity count is at most the number of findings.
pub proof fn lemma_count_severity_bounded(s: Seq<AuditFinding>, sev: AuditSeverity)
    ensures
        count_severity(s, sev) <= s.len(),
    decreases s.len(),
{
    if s.len() > 0 {
        lemma_count_severity_bounded(s.drop_last(), sev);
    }
}

/// The passed probes are at most all probes.
pub proof fn lemma_count_passed_bounded(s: Seq<AttackTestResult>)
    ensures
        count_passed(s) <= s.len(),
    decreases s.len(),
{
    if s.len() > 0 {
        lemma_count_passed_bounded(s.drop_last());
    }
}

/// Every finding falls under exactly one severity: the five counts add up
/// to the number of findings.
pub proof fn lemma_severities_partition(s: Seq<AuditFinding>)
    ensures
        count_severity(s, AuditSeverity::Critical) + count_severity(s, AuditSeverity::High)
            + count_severity(s, AuditSeverity::Medium) + count_severity(s, AuditSeverity::Low)
            + count_severity(s, AuditSeverity::Info) == s.len(),
    decreases s.len(),
{
    if s.len() > 0 {
        lemma_severities_partition(s.drop_last());
    }
}

/// The security score always lies within 0..=100.
pub proof fn lemma_score_in_range(critical: int, high: int, medium: int, low: int, failed: int)
    ensures
        0 <= score_of(critical, high, medium, low, failed) <= 100,
{
}

/// More findings of any severity, or more failed probes, never raise the
/// score.
pub proof fn lemma_score_monotone(
    critical: int,
    high: int,
    medium: int,
    low: int,
    failed: int,
    critical2: int,
    high2: int,
    medium2: int,
    low2: int,
    failed2: int,
)
    requires
        0 <= critical <= critical2,
        0 <= high <= high2,
        0 <= medium <= medium2,
        0 <= low <= low2,
        0 <= failed <= failed2,
    ensures
        score_of(critical2, high2, medium2, low2, failed2) <= score_of(critical, high, medium, low, failed),
{
}

/// A summary holds the report's counts: its severity counts add up to the
/// number of findings, its passed and failed probes to the probes run, and
/// its score lies within 0..=100.
pub proof fn lemma_summary_consistent(
    summary: AuditSummary,
    findings: Seq<AuditFinding>,
    results: Seq<AttackTestResult>,
    files_scanned: usize,
)
    requires
        summary_of(summary, findings, results, files_scanned),
    ensures
        summary.critical + summary.high + summary.medium + summary.low + summary.info
            == summary.total_findings,
        summary.attack_tests_passed + summary.attack_tests_failed == summary.attack_tests_run,
        summary.security_score <= 100,
{
    lemma_severities_partition(findings);
    lemma_count_passed_bounded(results);
}

impl AuditReport {
    pub fn compute_summary(
        findings: &[AuditFinding],
        attack_results: &[AttackTestResult],
        files_scanned: usize,
    ) -> (r: AuditSummary)
        ensures
            summary_of(r, findings@, attack_results@, files_scanned),
    {
        let mut critical: usize = 0;
        let mut high: usize = 0;
        let mut medium: usize = 0;
        let mut low: usize = 0;
        let mut info: usize = 0;
        let mut i: usize = 0;
        while i < findings.len()
            invariant
                i <= findings@.len(),
                critical == count_severity(findings@.subrange(0, i as int), AuditSeverity::Critical),
                high == count_severity(findings@.subrange(0, i as int), AuditSeverity::High),
                medium == count_severity(findings@.subrange(0, i as int), AuditSeverity::Medium),
                low == count_severity(findings@.subrange(0, i as int), AuditSeverity::Low),
                info == count_severity(findings@.subrange(0, i as int), AuditSeverity::Info),
            decreases findings.len() - i,
        {
            let ghost pre = findings@.subrange(0, i as int);
            proof {
                lemma_count_severity_bounded(pre, AuditSeverity::Critical);
                lemma_count_severity_bounded(pre, AuditSeverity::High);
                lemma_count_severity_bounded(pre, AuditSeverity::Medium);
                lemma_count_severity_bounded(pre, AuditSeverity::Low);
                lemma_count_severity_bounded(pre, AuditSeverity::Info);
            }
            match findings[i].severity {
                AuditSeverity::Critical => critical = critical + 1,
                AuditSeverity::High => high = high + 1,
                AuditSeverity::Medium => medium = medium + 1,
                AuditSeverity::Low => low = low + 1,
                AuditSeverity::Info => info = info + 1,
            }
            assert(findings@.subrange(0, i + 1).drop_last() == pre);
            i = i + 1;
        }
        assert(findings@.subrange(0, findings@.len() as int) == findings@);
        let mut passed: usize = 0;
        let mut j: usize = 0;
        while j < attack_results.len()
            invariant
                j <= attack_results@.len(),
                passed == count_passed(attack_results@.subrange(0, j as int)),
            decreases attack_results.len() - j,
        {
            let ghost pre = attack_results@.subrange(0, j as int);
            proof {
                lemma_count_passed_bounded(pre);
            }
            if attack_results[j].passed {
                passed = passed + 1;
            }
            assert(attack_results@.subrange(0, j + 1).drop_last() == pre);
            j = j + 1;
        }
        assert(attack_results@.subrange(0, attack_results@.len() as int) == attack_results@);
        proof {
            lemma_count_passed_bounded(attack_results@);
        }
        let run = attack_results.len();
        let failed = run - passed;
        let deduction: u128 = critical as u128 * 25 + high as u128 * 15 + medium as u128 * 8
            + low as u128 * 3 + failed as u128 * 10;
        let security_score: u8 = if deduction >= 100 {
            0
        } else {
            (100 - deduction) as u8
        };
        AuditSummary {
            total_findings: findings.len(),
            critical,
            high,
            medium,
            low,
            info,
            files_scanned,
            attack_tests_run: run,
            attack_tests_passed: passed,
            attack_tests_failed: failed,
            security_score,
        }
    }
}

} // verus!
