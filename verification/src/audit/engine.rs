//! Assembling a self-audit report from the static scan and the attack
//! probes.
use vstd::prelude::*;

use crate::text::owned;

use super::attacks::{all_probe_views, probe_view, ProbeObservations, ProbeView};
use super::report::{count_severity, summary_of, AttackTestResult, AuditFinding, AuditReport, AuditSeverity, AuditSummary};
use super::scanner::{
    add_hits, builtin_rules, by_severity, env_finding_view, env_views, files_scan, finding_id_text, finding_view,
    finding_views, hits, line_hits, rule_entry, rule_finding, rule_pairs, with_severity, FindingView, ScanRuleEntry, SourceFile, RULE_COUNT,
};

verus! {

/// The finding that a failed probe raises.
pub open spec fn probe_finding_view(p: ProbeView) -> FindingView {
    (
        p.0,
        "attack_simulation"@,
        AuditSeverity::High,
        "Saldırı simülasyonu başarısız: "@ + p.1,
        p.2,
        None,
        None,
        Some(p.3),
        "Bu güvenlik açığını kapatmak için ilgili modülü güncelleyin."@,
        Some(p.5),
    )
}

/// The findings of the failed probes of `s`, in order.
pub open spec fn failed_probe_findings(s: Seq<ProbeView>) -> Seq<FindingView>
    decreases s.len(),
{
    if s.len() == 0 {
        seq![]
    } else if !s.last().4 {
        failed_probe_findings(s.drop_last()).push(probe_finding_view(s.last()))
    } else {
        failed_probe_findings(s.drop_last())
    }
}

/// The probe results as plain values.
pub open spec fn probe_views(s: Seq<AttackTestResult>) -> Seq<ProbeView> {
    s.map_values(|r: AttackTestResult| probe_view(r))
}

fn probe_finding(r: &AttackTestResult) -> (f: AuditFinding)
    ensures
        finding_view(f) == probe_finding_view(probe_view(*r)),
{
    let mut title = String::from_str("Saldırı simülasyonu başarısız: ");
    title.append(r.name.as_str());
    AuditFinding {
        id: r.test_id.clone(),
        category: String::from_str("attack_simulation"),
        severity: AuditSeverity::High,
        title,
        description: r.description.clone(),
        file_path: None,
        line_number: None,
        mitre_technique: Some(r.mitre_technique.clone()),
        recommendation: String::from_str("Bu güvenlik açığını kapatmak için ilgili modülü güncelleyin."),
        evidence: Some(r.details.clone()),
    }
}

/// Appends a finding for each failed probe, in order.
pub fn add_probe_findings(findings: &mut Vec<AuditFinding>, results: &Vec<AttackTestResult>)
    ensures
        finding_views(final(findings)@) == finding_views(old(findings)@) + failed_probe_findings(probe_views(results@)),
{
    let ghost start = finding_views(findings@);
    let ghost ps = probe_views(results@);
    let mut i: usize = 0;
    assert(start + failed_probe_findings(ps.subrange(0, 0)) == start);
    while i < results.len()
        invariant
            ps == probe_views(results@),
            ps.len() == results@.len(),
            start == finding_views(old(findings)@),
            i <= results@.len(),
            finding_views(findings@) == start + failed_probe_findings(ps.subrange(0, i as int)),
        decreases results.len() - i,
    {
        assert(ps.subrange(0, i + 1).drop_last() == ps.subrange(0, i as int));
        assert(ps.subrange(0, i + 1).last() == probe_view(results@[i as int]));
        if !results[i].passed {
            let ghost before = finding_views(findings@);
            let f = probe_finding(&results[i]);
            findings.push(f);
            assert(finding_views(findings@) == before.push(finding_view(f)));
        }
        i = i + 1;
    }
    assert(ps.subrange(0, ps.len() as int) == ps);
}

/// Orchestrates a full self-audit: the static file scan and the simulated
/// attack probes.
#[derive(Debug, Clone)]
pub struct AuditEngine {
    pub base_dir: String,
    pub scenario_dir: String,
}

impl AuditEngine {
    pub fn new(base_dir: &str, scenario_dir: &str) -> (r: Self)
        ensures
            r.base_dir@ == base_dir@,
            r.scenario_dir@ == scenario_dir@,
    {
        AuditEngine { base_dir: owned(base_dir), scenario_dir: owned(scenario_dir) }
    }

    /// The report of an audit: the scan's findings followed by one finding
    /// per failed probe, the probe results, and their summary.
    pub fn build_report(
        &self,
        audit_id: String,
        started_at: String,
        completed_at: String,
        duration_ms: u64,
        scanned: Vec<AuditFinding>,
        files_scanned: usize,
        attack_results: Vec<AttackTestResult>,
    ) -> (r: AuditReport)
        ensures
            r.audit_id == audit_id,
            r.started_at == started_at,
            r.completed_at == completed_at,
            r.duration_ms == duration_ms,
            finding_views(r.findings@) == audit_findings(scanned@, attack_results@),
            r.attack_results@ == attack_results@,
            summary_of(r.summary, r.findings@, r.attack_results@, files_scanned),
    {
        let mut findings = scanned;
        add_probe_findings(&mut findings, &attack_results);
        let summary = AuditReport::compute_summary(findings.as_slice(), attack_results.as_slice(), files_scanned);
        AuditReport {
            audit_id,
            started_at,
            completed_at,
            duration_ms,
            summary,
            findings,
            attack_results,
        }
    }

    /// Quick health check: the summary alone of the audit's report.
    pub fn quick_check(&self, scanned: Vec<AuditFinding>, files_scanned: usize, attack_results: Vec<AttackTestResult>) -> (r: AuditSummary)
        ensures
            audit_summary(r, scanned@, attack_results@, files_scanned),
    {
        let mut findings = scanned;
        add_probe_findings(&mut findings, &attack_results);
        let r = AuditReport::compute_summary(findings.as_slice(), attack_results.as_slice(), files_scanned);
        assert(summary_of(r, findings@, attack_results@, files_scanned));
        assert(finding_views(findings@) == audit_findings(scanned@, attack_results@));
        r
    }
}

/// The findings of an audit, as plain values: the scan's findings followed
/// by one finding per failed probe.
pub open spec fn audit_findings(scanned: Seq<AuditFinding>, results: Seq<AttackTestResult>) -> Seq<FindingView> {
    finding_views(scanned) + failed_probe_findings(probe_views(results))
}

/// `r` is the summary of an audit of these scan findings, probe results and
/// file count.
pub open spec fn audit_summary(
    r: AuditSummary,
    scanned: Seq<AuditFinding>,
    results: Seq<AttackTestResult>,
    files_scanned: usize,
) -> bool {
    exists|all: Seq<AuditFinding>|
        finding_views(all) == audit_findings(scanned, results) && #[trigger] summary_of(r, all, results, files_scanned)
}

/// How many findings of `s` carry the identifier `id`.
pub open spec fn count_id(s: Seq<FindingView>, id: Seq<char>) -> nat
    decreases s.len(),
{
    if s.len() == 0 {
        0
    } else {
        count_id(s.drop_last(), id) + if s.last().0 == id {
            1nat
        } else {
            0nat
        }
    }
}

/// No two probes share an identifier.
pub open spec fn distinct_ids(s: Seq<ProbeView>) -> bool {
    forall|i: int, j: int| 0 <= i < j < s.len() ==> (#[trigger] s[i]).0 != (#[trigger] s[j]).0
}

proof fn lemma_count_severity_views(f1: Seq<AuditFinding>, f2: Seq<AuditFinding>, sev: AuditSeverity)
    requires
        finding_views(f1) == finding_views(f2),
    ensures
        count_severity(f1, sev) == count_severity(f2, sev),
    decreases f1.len(),
{
    assert(finding_views(f1).len() == f1.len());
    assert(finding_views(f2).len() == f2.len());
    if f1.len() > 0 {
        let n = f1.len() - 1;
        assert(finding_views(f1.drop_last()) =~= finding_views(f1).drop_last());
        assert(finding_views(f2.drop_last()) =~= finding_views(f2).drop_last());
        assert(finding_views(f1)[n] == finding_views(f2)[n]);
        assert(finding_view(f1[n]).2 == finding_view(f2[n]).2);
        lemma_count_severity_views(f1.drop_last(), f2.drop_last(), sev);
    }
}

/// A summary is fixed by the findings (as plain values), the probe results
/// and the file count: two summaries of findings that read the same are
/// equal.
pub proof fn lemma_summary_unique(
    s1: AuditSummary,
    s2: AuditSummary,
    f1: Seq<AuditFinding>,
    f2: Seq<AuditFinding>,
    results: Seq<AttackTestResult>,
    files_scanned: usize,
)
    requires
        summary_of(s1, f1, results, files_scanned),
        summary_of(s2, f2, results, files_scanned),
        finding_views(f1) == finding_views(f2),
    ensures
        s1 == s2,
{
    assert(finding_views(f1).len() == f1.len());
    assert(finding_views(f2).len() == f2.len());
    lemma_count_severity_views(f1, f2, AuditSeverity::Critical);
    lemma_count_severity_views(f1, f2, AuditSeverity::High);
    lemma_count_severity_views(f1, f2, AuditSeverity::Medium);
    lemma_count_severity_views(f1, f2, AuditSeverity::Low);
    lemma_count_severity_views(f1, f2, AuditSeverity::Info);
}

/// The quick check gives exactly the summary of the full report built
/// from the same scan findings, file count and probe results.
pub proof fn lemma_quick_check_is_report_summary(
    quick: AuditSummary,
    report: AuditReport,
    scanned: Seq<AuditFinding>,
    results: Seq<AttackTestResult>,
    files_scanned: usize,
)
    requires
        audit_summary(quick, scanned, results, files_scanned),
        finding_views(report.findings@) == audit_findings(scanned, results),
        report.attack_results@ == results,
        summary_of(report.summary, report.findings@, report.attack_results@, files_scanned),
    ensures
        quick == report.summary,
{
    let all = choose|all: Seq<AuditFinding>|
        finding_views(all) == audit_findings(scanned, results) && #[trigger] summary_of(quick, all, results, files_scanned);
    lemma_summary_unique(quick, report.summary, all, report.findings@, results, files_scanned);
}

proof fn lemma_count_id_append(a: Seq<FindingView>, b: Seq<FindingView>, id: Seq<char>)
    ensures
        count_id(a + b, id) == count_id(a, id) + count_id(b, id),
    decreases b.len(),
{
    if b.len() == 0 {
        assert(a + b =~= a);
    } else {
        assert((a + b).drop_last() =~= a + b.drop_last());
        lemma_count_id_append(a, b.drop_last(), id);
    }
}

proof fn lemma_no_finding_for(s: Seq<ProbeView>, id: Seq<char>)
    requires
        forall|i: int| 0 <= i < s.len() ==> (#[trigger] s[i]).0 != id,
    ensures
        count_id(failed_probe_findings(s), id) == 0,
    decreases s.len(),
{
    if s.len() > 0 {
        let t = s.drop_last();
        assert forall|i: int| 0 <= i < t.len() implies (#[trigger] t[i]).0 != id by {
            assert(t[i] == s[i]);
        }
        lemma_no_finding_for(t, id);
        if !s.last().4 {
            assert(failed_probe_findings(s).drop_last() =~= failed_probe_findings(t));
        }
    }
}

/// Among probes with distinct identifiers, a failed probe raises exactly
/// one finding with its identifier (the finding of that probe), and a
/// passed probe raises none.
pub proof fn lemma_one_finding_per_failed_probe(s: Seq<ProbeView>, k: int)
    requires
        distinct_ids(s),
        0 <= k < s.len(),
    ensures
        count_id(failed_probe_findings(s), s[k].0) == (if s[k].4 {
            0nat
        } else {
            1nat
        }),
        !s[k].4 ==> failed_probe_findings(s).contains(probe_finding_view(s[k])),
    decreases s.len(),
{
    let n = s.len() - 1;
    let t = s.drop_last();
    let f = failed_probe_findings(s);
    let ft = failed_probe_findings(t);
    if !s.last().4 {
        assert(f.drop_last() =~= ft);
        assert(f.last() == probe_finding_view(s.last()));
    } else {
        assert(f == ft);
    }
    if k == n {
        assert forall|i: int| 0 <= i < t.len() implies (#[trigger] t[i]).0 != s[k].0 by {
            assert(t[i] == s[i]);
            assert(s[i].0 != s[n].0);
        }
        lemma_no_finding_for(t, s[k].0);
        if !s.last().4 {
            assert(f[f.len() - 1] == probe_finding_view(s[k]));
        }
    } else {
        assert(distinct_ids(t)) by {
            assert forall|i: int, j: int| 0 <= i < j < t.len() implies (#[trigger] t[i]).0 != (#[trigger] t[j]).0 by {
                assert(t[i] == s[i] && t[j] == s[j]);
            }
        }
        assert(t[k] == s[k]);
        lemma_one_finding_per_failed_probe(t, k);
        assert(s[k].0 != s[n].0);
        if !s[k].4 {
            let w = choose|w: int| 0 <= w < ft.len() && ft[w] == probe_finding_view(s[k]);
            assert(f[w] == ft[w]);
        }
    }
}

/// In a report built from scan findings that carry no probe's identifier,
/// each failed probe has exactly one finding with its identifier, and each
/// passed probe none.
pub proof fn lemma_report_one_finding_per_failed_probe(report: AuditReport, scanned: Seq<AuditFinding>, k: int)
    requires
        finding_views(report.findings@) == audit_findings(scanned, report.attack_results@),
        distinct_ids(probe_views(report.attack_results@)),
        0 <= k < report.attack_results@.len(),
        forall|i: int| 0 <= i < scanned.len() ==> (#[trigger] scanned[i]).id@ != report.attack_results@[k].test_id@,
    ensures
        count_id(finding_views(report.findings@), report.attack_results@[k].test_id@) == (if report.attack_results@[k].passed {
            0nat
        } else {
            1nat
        }),
{
    let id = report.attack_results@[k].test_id@;
    let p = probe_views(report.attack_results@);
    assert(p[k] == probe_view(report.attack_results@[k]));
    lemma_one_finding_per_failed_probe(p, k);
    lemma_count_id_append(finding_views(scanned), failed_probe_findings(p), id);
    assert forall|i: int| 0 <= i < finding_views(scanned).len() implies (#[trigger] finding_views(scanned)[i]).0 != id by {
        assert(finding_views(scanned)[i] == finding_view(scanned[i]));
    }
    lemma_count_id_views_absent(finding_views(scanned), id);
}

proof fn lemma_count_id_views_absent(s: Seq<FindingView>, id: Seq<char>)
    requires
        forall|i: int| 0 <= i < s.len() ==> (#[trigger] s[i]).0 != id,
    ensures
        count_id(s, id) == 0,
    decreases s.len(),
{
    if s.len() > 0 {
        let t = s.drop_last();
        assert forall|i: int| 0 <= i < t.len() implies (#[trigger] t[i]).0 != id by {
            assert(t[i] == s[i]);
        }
        lemma_count_id_views_absent(t, id);
    }
}


/// The twelve probes carry twelve distinct identifiers.
pub proof fn lemma_probe_ids_distinct(o: ProbeObservations)
    ensures
        all_probe_views(o).len() == 12,
        distinct_ids(all_probe_views(o)),
        forall|k: int| 0 <= k < 12 ==> !scan_id(#[trigger] all_probe_views(o)[k].0),
{
    reveal_strlit("ATK-001");
    reveal_strlit("ATK-002");
    reveal_strlit("ATK-003");
    reveal_strlit("ATK-004");
    reveal_strlit("ATK-005");
    reveal_strlit("ATK-006");
    reveal_strlit("ATK-007");
    reveal_strlit("ATK-008");
    reveal_strlit("ATK-009");
    reveal_strlit("ATK-010");
    reveal_strlit("ATK-011");
    reveal_strlit("ATK-012");
    let s = all_probe_views(o);
    assert(s[0].0[0] == 'A' && s[0].0[5] == '0' && s[0].0[6] == '1' && s[0].0.len() == 7);
    assert(s[1].0[0] == 'A' && s[1].0[5] == '0' && s[1].0[6] == '2' && s[1].0.len() == 7);
    assert(s[2].0[0] == 'A' && s[2].0[5] == '0' && s[2].0[6] == '3' && s[2].0.len() == 7);
    assert(s[3].0[0] == 'A' && s[3].0[5] == '0' && s[3].0[6] == '4' && s[3].0.len() == 7);
    assert(s[4].0[0] == 'A' && s[4].0[5] == '0' && s[4].0[6] == '5' && s[4].0.len() == 7);
    assert(s[5].0[0] == 'A' && s[5].0[5] == '0' && s[5].0[6] == '6' && s[5].0.len() == 7);
    assert(s[6].0[0] == 'A' && s[6].0[5] == '0' && s[6].0[6] == '7' && s[6].0.len() == 7);
    assert(s[7].0[0] == 'A' && s[7].0[5] == '0' && s[7].0[6] == '8' && s[7].0.len() == 7);
    assert(s[8].0[0] == 'A' && s[8].0[5] == '0' && s[8].0[6] == '9' && s[8].0.len() == 7);
    assert(s[9].0[0] == 'A' && s[9].0[5] == '1' && s[9].0[6] == '0' && s[9].0.len() == 7);
    assert(s[10].0[0] == 'A' && s[10].0[5] == '1' && s[10].0[6] == '1' && s[10].0.len() == 7);
    assert(s[11].0[0] == 'A' && s[11].0[5] == '1' && s[11].0[6] == '2' && s[11].0.len() == 7);
    assert forall|i: int, j: int| 0 <= i < j < s.len() implies (#[trigger] s[i]).0 != (#[trigger] s[j]).0 by {
        assert(s[i].0[5] != s[j].0[5] || s[i].0[6] != s[j].0[6]);
    }
}

/// An identifier that no probe carries: it does not open with `A`, as
/// every probe identifier (`ATK-...`) does.
pub open spec fn scan_id(id: Seq<char>) -> bool {
    id.len() > 0 && id[0] != 'A'
}

/// Every finding of `s` has a scan identifier.
pub open spec fn all_scan_ids(s: Seq<FindingView>) -> bool {
    forall|k: int| 0 <= k < s.len() ==> scan_id(#[trigger] s[k].0)
}

/// Every built-in scan rule has a scan identifier (`SEC-...`).
proof fn lemma_builtin_rule_ids()
    ensures
        forall|i: int| 0 <= i < RULE_COUNT ==> scan_id(#[trigger] builtin_rules()[i].0),
{
    reveal_strlit("SEC-001");
    reveal_strlit("SEC-002");
    reveal_strlit("SEC-003");
    reveal_strlit("SEC-004");
    reveal_strlit("SEC-005");
    reveal_strlit("SEC-006");
    reveal_strlit("SEC-007");
    reveal_strlit("SEC-008");
    reveal_strlit("SEC-009");
    reveal_strlit("SEC-010");
    reveal_strlit("SEC-011");
    reveal_strlit("SEC-012");
    assert forall|i: int| 0 <= i < RULE_COUNT implies scan_id(#[trigger] builtin_rules()[i].0) by {
        assert(builtin_rules()[i] == rule_entry(i));
        assert(rule_entry(i).0[0] == 'S');
    }
}

proof fn lemma_hits_in_range(rules: Seq<ScanRuleEntry>, ext: Seq<char>, lines: Seq<Seq<char>>, j: int)
    requires
        0 <= j <= rules.len(),
    ensures
        forall|k: int| 0 <= k < hits(rules, ext, lines, j).len() ==> 0 <= (#[trigger] hits(rules, ext, lines, j)[k]).0 < j,
    decreases j,
{
    if j > 0 {
        lemma_hits_in_range(rules, ext, lines, j - 1);
        let prev = hits(rules, ext, lines, j - 1);
        let h = hits(rules, ext, lines, j);
        if h.len() != prev.len() {
            let more = rule_pairs(j - 1, line_hits(rules[j - 1].5, lines, lines.len() as int));
            assert(h == prev + more);
            assert forall|k: int| 0 <= k < h.len() implies 0 <= (#[trigger] h[k]).0 < j by {
                if k >= prev.len() {
                    assert(h[k] == more[k - prev.len()]);
                } else {
                    assert(h[k] == prev[k]);
                }
            }
        }
    }
}

proof fn lemma_add_hits_scan_ids(
    acc: Seq<FindingView>,
    rules: Seq<ScanRuleEntry>,
    path: Seq<char>,
    lines: Seq<Seq<char>>,
    cands: Seq<(int, int)>,
)
    requires
        all_scan_ids(acc),
        forall|i: int| 0 <= i < rules.len() ==> scan_id(#[trigger] rules[i].0),
        forall|k: int| 0 <= k < cands.len() ==> 0 <= (#[trigger] cands[k]).0 < rules.len(),
    ensures
        all_scan_ids(add_hits(acc, rules, path, lines, cands)),
    decreases cands.len(),
{
    if cands.len() > 0 {
        let d = cands.drop_last();
        assert forall|k: int| 0 <= k < d.len() implies 0 <= (#[trigger] d[k]).0 < rules.len() by {
            assert(d[k] == cands[k]);
        }
        lemma_add_hits_scan_ids(acc, rules, path, lines, d);
        let prev = add_hits(acc, rules, path, lines, d);
        let c = cands.last();
        assert(0 <= c.0 < rules.len());
        let f = rule_finding(rules[c.0], path, c.1, lines[c.1]);
        let r = rules[c.0].0;
        assert(scan_id(r));
        assert(f.0 == finding_id_text(r, path, c.1));
        assert(f.0[0] == r[0]);
        let res = add_hits(acc, rules, path, lines, cands);
        assert forall|k: int| 0 <= k < res.len() implies scan_id(#[trigger] res[k].0) by {
            if k < prev.len() {
                assert(res[k] == prev[k]);
            }
        }
    }
}

proof fn lemma_files_scan_ids(files: Seq<SourceFile>)
    ensures
        all_scan_ids(files_scan(seq![], builtin_rules(), files)),
    decreases files.len(),
{
    if files.len() > 0 {
        lemma_files_scan_ids(files.drop_last());
        lemma_builtin_rule_ids();
        let f = files.last();
        let lines = crate::lines::lines_of(f.content@);
        lemma_hits_in_range(builtin_rules(), f.ext@, lines, RULE_COUNT as int);
        lemma_add_hits_scan_ids(
            files_scan(seq![], builtin_rules(), files.drop_last()),
            builtin_rules(),
            f.rel_path@,
            lines,
            hits(builtin_rules(), f.ext@, lines, RULE_COUNT as int),
        );
    }
}

proof fn lemma_with_severity_scan_ids(s: Seq<FindingView>, sev: AuditSeverity)
    requires
        all_scan_ids(s),
    ensures
        all_scan_ids(with_severity(s, sev)),
    decreases s.len(),
{
    if s.len() > 0 {
        let t = s.drop_last();
        assert(all_scan_ids(t)) by {
            assert forall|k: int| 0 <= k < t.len() implies scan_id(#[trigger] t[k].0) by {
                assert(t[k] == s[k]);
            }
        }
        lemma_with_severity_scan_ids(t, sev);
        let w = with_severity(s, sev);
        let wt = with_severity(t, sev);
        assert forall|k: int| 0 <= k < w.len() implies scan_id(#[trigger] w[k].0) by {
            if k < wt.len() {
                assert(w[k] == wt[k]);
            } else {
                assert(w[k] == s[s.len() - 1]);
            }
        }
    }
}

proof fn lemma_concat_scan_ids(a: Seq<FindingView>, b: Seq<FindingView>)
    requires
        all_scan_ids(a),
        all_scan_ids(b),
    ensures
        all_scan_ids(a + b),
{
    assert forall|k: int| 0 <= k < (a + b).len() implies scan_id(#[trigger] (a + b)[k].0) by {
        if k < a.len() {
            assert((a + b)[k] == a[k]);
        } else {
            assert((a + b)[k] == b[k - a.len()]);
        }
    }
}

/// No finding of the static scan (file findings and environment-file
/// findings, in severity order) carries a probe's identifier: each opens
/// with a rule's `SEC-` or with `ENV-`.
pub proof fn lemma_scan_ids(files: Seq<SourceFile>, env_files: Seq<String>)
    ensures
        all_scan_ids(by_severity(files_scan(seq![], builtin_rules(), files) + env_views(env_files))),
{
    reveal_strlit("ENV-");
    lemma_files_scan_ids(files);
    let e = env_views(env_files);
    assert forall|k: int| 0 <= k < e.len() implies scan_id(#[trigger] e[k].0) by {
        assert(e[k] == env_finding_view(env_files[k]@));
    }
    let s = files_scan(seq![], builtin_rules(), files) + e;
    lemma_concat_scan_ids(files_scan(seq![], builtin_rules(), files), e);
    lemma_with_severity_scan_ids(s, AuditSeverity::Critical);
    lemma_with_severity_scan_ids(s, AuditSeverity::High);
    lemma_with_severity_scan_ids(s, AuditSeverity::Medium);
    lemma_with_severity_scan_ids(s, AuditSeverity::Low);
    lemma_with_severity_scan_ids(s, AuditSeverity::Info);
    lemma_concat_scan_ids(with_severity(s, AuditSeverity::Critical), with_severity(s, AuditSeverity::High));
    lemma_concat_scan_ids(
        with_severity(s, AuditSeverity::Critical) + with_severity(s, AuditSeverity::High),
        with_severity(s, AuditSeverity::Medium),
    );
    lemma_concat_scan_ids(
        with_severity(s, AuditSeverity::Critical) + with_severity(s, AuditSeverity::High) + with_severity(
            s,
            AuditSeverity::Medium,
        ),
        with_severity(s, AuditSeverity::Low),
    );
    lemma_concat_scan_ids(
        with_severity(s, AuditSeverity::Critical) + with_severity(s, AuditSeverity::High) + with_severity(
            s,
            AuditSeverity::Medium,
        ) + with_severity(s, AuditSeverity::Low),
        with_severity(s, AuditSeverity::Info),
    );
}

/// The self-audit, stated over its parts: a report built from the static
/// scan of `files` and `env_files` and from the probe results of
/// `AttackSimulator::run_all` holds the twelve probe results; each failed
/// probe has exactly one finding with its identifier, its probe finding
/// (category `attack_simulation`, severity High, its technique); a passed
/// probe has none.
pub proof fn lemma_full_audit(
    report: AuditReport,
    scanned: Seq<AuditFinding>,
    files: Seq<SourceFile>,
    env_files: Seq<String>,
    obs: ProbeObservations,
    k: int,
)
    requires
        finding_views(scanned) == by_severity(files_scan(seq![], builtin_rules(), files) + env_views(env_files)),
        probe_views(report.attack_results@) == all_probe_views(obs),
        finding_views(report.findings@) == audit_findings(scanned, report.attack_results@),
        0 <= k < 12,
    ensures
        report.attack_results@.len() == 12,
        count_id(finding_views(report.findings@), report.attack_results@[k].test_id@) == (if report.attack_results@[k].passed {
            0nat
        } else {
            1nat
        }),
        !report.attack_results@[k].passed ==> finding_views(report.findings@).contains(
            probe_finding_view(probe_view(report.attack_results@[k])),
        ),
{
    lemma_probe_ids_distinct(obs);
    lemma_scan_ids(files, env_files);
    let p = probe_views(report.attack_results@);
    assert(p.len() == report.attack_results@.len());
    assert(p[k] == probe_view(report.attack_results@[k]));
    assert(!scan_id(p[k].0));
    assert forall|i: int| 0 <= i < scanned.len() implies (#[trigger] scanned[i]).id@ != report.attack_results@[k].test_id@ by {
        assert(finding_views(scanned)[i] == finding_view(scanned[i]));
        assert(scan_id(finding_views(scanned)[i].0));
    }
    lemma_report_one_finding_per_failed_probe(report, scanned, k);
    lemma_one_finding_per_failed_probe(p, k);
    if !report.attack_results@[k].passed {
        let fp = failed_probe_findings(p);
        let w = choose|w: int| 0 <= w < fp.len() && fp[w] == probe_finding_view(p[k]);
        let all = finding_views(report.findings@);
        assert(all == finding_views(scanned) + fp);
        assert(all[finding_views(scanned).len() + w] == fp[w]);
    }
}

/// The quick check over the probe results of `AttackSimulator::run_all`
/// counts twelve probes, passed and failed adding up to twelve, and a
/// score within 0..=100.
pub proof fn lemma_quick_check_counts(
    quick: AuditSummary,
    scanned: Seq<AuditFinding>,
    results: Seq<AttackTestResult>,
    files_scanned: usize,
    obs: ProbeObservations,
)
    requires
        audit_summary(quick, scanned, results, files_scanned),
        probe_views(results) == all_probe_views(obs),
    ensures
        quick.attack_tests_run == 12,
        quick.attack_tests_passed + quick.attack_tests_failed == 12,
        quick.security_score <= 100,
{
    lemma_probe_ids_distinct(obs);
    assert(probe_views(results).len() == results.len());
    let all = choose|all: Seq<AuditFinding>|
        finding_views(all) == audit_findings(scanned, results) && #[trigger] summary_of(quick, all, results, files_scanned);
    super::report::lemma_summary_consistent(quick, all, results, files_scanned);
}

} // verus!
