use cyber_incident_simulator::audit::attacks::{
    fake_tokens, injection_payloads, invalid_session_ids, traversal_ids, xss_payloads, AttackSimulator, ProbeObservations,
};
use cyber_incident_simulator::audit::engine::add_probe_findings;
use cyber_incident_simulator::audit::scanner::{
    build_rules, env_file_names, env_finding, is_scanned_extension, is_skipped_dir, path_key_string, scan_file_content,
    scan_roots, severity_rank, sort_by_severity, truncate_evidence, FileScanner, SourceFile,
};
use cyber_incident_simulator::audit::{AttackTestResult, AuditEngine, AuditFinding, AuditReport, AuditSeverity};

fn finding(id: &str, sev: AuditSeverity) -> AuditFinding {
    AuditFinding {
        id: id.to_string(),
        category: "c".to_string(),
        severity: sev,
        title: "t".to_string(),
        description: "d".to_string(),
        file_path: None,
        line_number: None,
        mitre_technique: None,
        recommendation: "r".to_string(),
        evidence: None,
    }
}

fn result(id: &str, passed: bool) -> AttackTestResult {
    AttackTestResult {
        test_id: id.to_string(),
        name: "name".to_string(),
        description: "desc".to_string(),
        mitre_technique: "T1078".to_string(),
        passed,
        details: "details".to_string(),
    }
}

#[test]
fn severity_names() {
    assert_eq!(AuditSeverity::Critical.as_str(), "critical");
    assert_eq!(AuditSeverity::Info.as_str(), "info");
    assert_eq!(severity_rank(&AuditSeverity::Critical), 5);
    assert_eq!(severity_rank(&AuditSeverity::Low), 2);
}

#[test]
fn summary_score_deducts_by_weight() {
    let findings = vec![
        finding("a", AuditSeverity::Critical),
        finding("b", AuditSeverity::High),
        finding("c", AuditSeverity::Info),
    ];
    let results = vec![result("x", true), result("y", false)];
    let s = AuditReport::compute_summary(&findings, &results, 7);
    assert_eq!(s.total_findings, 3);
    assert_eq!(s.critical, 1);
    assert_eq!(s.high, 1);
    assert_eq!(s.info, 1);
    assert_eq!(s.files_scanned, 7);
    assert_eq!(s.attack_tests_run, 2);
    assert_eq!(s.attack_tests_passed, 1);
    assert_eq!(s.attack_tests_failed, 1);
    assert_eq!(s.security_score, 100 - 25 - 15 - 10);
}

#[test]
fn summary_score_is_clamped_at_zero() {
    let findings: Vec<AuditFinding> = (0..5).map(|i| finding(&i.to_string(), AuditSeverity::Critical)).collect();
    let s = AuditReport::compute_summary(&findings, &[], 0);
    assert_eq!(s.security_score, 0);
    let empty = AuditReport::compute_summary(&[], &[], 0);
    assert_eq!(empty.security_score, 100);
}

#[test]
fn summary_counts_partition_findings() {
    let findings = vec![
        finding("a", AuditSeverity::Medium),
        finding("b", AuditSeverity::Low),
        finding("c", AuditSeverity::Low),
        finding("d", AuditSeverity::Info),
    ];
    let s = AuditReport::compute_summary(&findings, &[], 0);
    assert_eq!(s.critical + s.high + s.medium + s.low + s.info, s.total_findings);
    assert_eq!(s.security_score, 100 - 8 - 3 - 3);
}

#[test]
fn score_never_rises_with_more_findings() {
    let mut findings = vec![finding("a", AuditSeverity::Low)];
    let before = AuditReport::compute_summary(&findings, &[], 0).security_score;
    findings.push(finding("b", AuditSeverity::Medium));
    let after = AuditReport::compute_summary(&findings, &[], 0).security_score;
    assert!(after <= before);
}

#[test]
fn twelve_builtin_rules() {
    let rules = build_rules();
    assert_eq!(rules.len(), 12);
    assert_eq!(rules[0].id, "SEC-001");
    assert_eq!(rules[2].pattern, "DefaultHasher");
    assert_eq!(rules[7].mitre, None);
    assert_eq!(rules[11].id, "SEC-012");
    assert_eq!(rules[0].extensions, vec!["rs", "js", "html", "toml", "py", "json"]);
}

#[test]
fn scanning_a_file_finds_matching_lines() {
    let rules = build_rules();
    let mut findings = Vec::new();
    let content = "fn main() {}\n    let h = DefaultHasher::new();  \r\nok\n";
    assert!(scan_file_content(&rules, "src/main.rs", "rs", content, &mut findings));
    assert_eq!(findings.len(), 1);
    let f = &findings[0];
    assert_eq!(f.id, "SEC-003-src-main.rs-2");
    assert_eq!(f.severity, AuditSeverity::High);
    assert_eq!(f.line_number, Some(2));
    assert_eq!(f.file_path.as_deref(), Some("src/main.rs"));
    assert_eq!(f.evidence.as_deref(), Some("let h = DefaultHasher::new();"));
    assert_eq!(f.mitre_technique.as_deref(), Some("T1552.001"));
}

#[test]
fn scanning_skips_rules_for_other_extensions_and_duplicates() {
    let rules = build_rules();
    let mut findings = Vec::new();
    assert!(scan_file_content(&rules, "a.md", "md", "DefaultHasher", &mut findings));
    assert!(findings.is_empty());
    assert!(scan_file_content(&rules, "x\\y.rs", "rs", "DefaultHasher", &mut findings));
    assert_eq!(findings.len(), 1);
    assert_eq!(findings[0].id, "SEC-003-x-y.rs-1");
    assert!(scan_file_content(&rules, "x\\y.rs", "rs", "DefaultHasher", &mut findings));
    assert_eq!(findings.len(), 1);
}

#[test]
fn evidence_is_cut_at_the_byte_limit() {
    let long = format!("  {}  ", "a".repeat(130));
    assert_eq!(truncate_evidence(&long, 120), format!("{}...", "a".repeat(120)));
    assert_eq!(truncate_evidence("  short  ", 120), "short");
}

#[test]
fn path_key_replaces_separators() {
    assert_eq!(path_key_string("src/api\\x.rs"), "src-api-x.rs");
}

#[test]
fn walk_decisions() {
    assert_eq!(scan_roots(), vec!["src", "fronted", "config", "scripts", "data"]);
    assert_eq!(env_file_names(), vec![".env", ".env.local", ".env.production"]);
    assert!(is_skipped_dir("node_modules"));
    assert!(!is_skipped_dir("src"));
    assert!(is_scanned_extension("yaml"));
    assert!(!is_scanned_extension("exe"));
}

#[test]
fn env_file_finding() {
    let f = env_finding(".env.local");
    assert_eq!(f.id, "ENV-envlocal");
    assert_eq!(f.severity, AuditSeverity::High);
    assert_eq!(f.title, "Ortam değişken dosyası bulundu: .env.local");
    assert_eq!(f.file_path.as_deref(), Some(".env.local"));
}

#[test]
fn sort_puts_most_severe_first_stably() {
    let v = vec![
        finding("1", AuditSeverity::Low),
        finding("2", AuditSeverity::Critical),
        finding("3", AuditSeverity::Low),
        finding("4", AuditSeverity::High),
        finding("5", AuditSeverity::Critical),
    ];
    let ids: Vec<String> = sort_by_severity(v).into_iter().map(|f| f.id).collect();
    assert_eq!(ids, vec!["2", "5", "4", "1", "3"]);
}

#[test]
fn full_scan_orders_and_counts() {
    let scanner = FileScanner::new("/base");
    let files = vec![
        SourceFile { rel_path: "a.rs".to_string(), ext: "rs".to_string(), content: "use rusqlite;".to_string() },
        SourceFile { rel_path: "b.toml".to_string(), ext: "toml".to_string(), content: "password = \"hunter22\"".to_string() },
    ];
    let (found, count) = scanner.scan(&files, &vec![".env".to_string()]).unwrap();
    assert_eq!(count, 3);
    let ids: Vec<&str> = found.iter().map(|f| f.id.as_str()).collect();
    assert_eq!(ids, vec!["SEC-001-b.toml-1", "ENV-env", "SEC-010-a.rs-1"]);
}

#[test]
fn probe_inputs() {
    assert_eq!(fake_tokens().len(), 4);
    assert_eq!(injection_payloads()[0], "' OR 1=1--");
    assert_eq!(traversal_ids()[1], "..\\..\\..\\windows\\system32\\config\\sam");
    assert_eq!(xss_payloads()[2], "javascript:alert(document.cookie)");
    let ids = invalid_session_ids();
    assert_eq!(ids[0], "");
    assert_eq!(ids[1], "a".repeat(100));
}

fn clean_observations() -> ProbeObservations {
    ProbeObservations {
        default_hash_len: 64,
        sample_hash_len: 64,
        fake_tokens_accepted: vec![false, false, false, false],
        middleware_source: Some("no key here".to_string()),
        injection_loaded: vec![false, false, false],
        traversal_loaded: vec![false, false, false],
        sanitized_payloads: vec!["&lt;script&gt;".to_string()],
        invalid_ids_accepted: vec![false, false, false],
        empty_token_accepted: false,
        scenario_ids: (0..56).map(|i| format!("mitre-{}", i)).collect(),
        mitre_dir_exists: true,
        mitre_dir_count: 14,
        rules_file: Some("x".repeat(51)),
    }
}

#[test]
fn all_probes_pass_on_a_hardened_setup() {
    let sim = AttackSimulator::new("/b", "/s");
    let results = sim.run_all(&clean_observations());
    assert_eq!(results.len(), 12);
    assert!(results.iter().all(|r| r.passed));
    assert_eq!(results[9].details, "Beklenen: 56 MITRE senaryo, Bulunan: 56 (Toplam: 56)");
    assert_eq!(results[10].details, "MITRE dizini: mevcut, Taktik klasör sayısı: 14 (beklenen: 14)");
}

#[test]
fn probes_flag_weaknesses() {
    let sim = AttackSimulator::new("/b", "/s");
    let mut o = clean_observations();
    o.default_hash_len = 16;
    o.sample_hash_len = 32;
    o.fake_tokens_accepted = vec![false, true, false, false];
    o.middleware_source = Some("x == \"SOC-SIM-SECURE-KEY-2026\"".to_string());
    o.sanitized_payloads = vec!["javascript:alert(1)".to_string()];
    o.scenario_ids = vec!["mitre-1".to_string(), "x".to_string()];
    o.mitre_dir_exists = false;
    o.rules_file = Some("short".to_string());
    let r = sim.run_all(&o);
    assert!(!r[0].passed && !r[1].passed && !r[2].passed && !r[3].passed);
    assert!(r[4].passed && r[5].passed);
    assert!(!r[6].passed);
    assert_eq!(r[9].details, "Beklenen: 56 MITRE senaryo, Bulunan: 1 (Toplam: 2)");
    assert_eq!(r[10].details, "MITRE dizini: eksik, Taktik klasör sayısı: 0 (beklenen: 14)");
    assert!(!r[11].passed);
    assert_eq!(r[2].details, "Geçersiz token ile auth bypass mümkün!");
}

#[test]
fn failed_probes_become_findings() {
    let mut findings = vec![finding("scan", AuditSeverity::Low)];
    add_probe_findings(&mut findings, &vec![result("ATK-1", true), result("ATK-2", false)]);
    assert_eq!(findings.len(), 2);
    assert_eq!(findings[1].id, "ATK-2");
    assert_eq!(findings[1].category, "attack_simulation");
    assert_eq!(findings[1].title, "Saldırı simülasyonu başarısız: name");
    assert_eq!(findings[1].evidence.as_deref(), Some("details"));
}

#[test]
fn report_and_quick_check() {
    let engine = AuditEngine::new("/b", "/s");
    let report = engine.build_report(
        "id".to_string(),
        "s".to_string(),
        "e".to_string(),
        5,
        vec![finding("scan", AuditSeverity::Medium)],
        2,
        vec![result("ATK-1", false)],
    );
    assert_eq!(report.findings.len(), 2);
    assert_eq!(report.summary.high, 1);
    assert_eq!(report.summary.security_score, 100 - 8 - 15 - 10);
    let s = engine.quick_check(vec![], 0, vec![result("ATK-1", true)]);
    assert_eq!(s.security_score, 100);
}
