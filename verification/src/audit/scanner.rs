//! Static scanning of project files for security weaknesses: the scan
//! rules and the per-file line scan.
use vstd::prelude::*;
use vstd::string::StringSliceAdditionalSpecFns;
use vstd::utf8::encode_utf8;

use crate::lines::{split_lines, trim, trimmed, lines_of, splits_within};
use crate::ordered::views;
use crate::pattern::{regex_compiles, regex_finds, regex_is_match, regex_valid};
use crate::response::containment::opt_string_view;
use crate::text::{copy_opt, byte_prefix, chars_of, decimal, decimal_string, fits_or_splits, owned, prefix_bytes, str_eq, string_from_chars};

use super::report::{AuditFinding, AuditSeverity};

verus! {

/// A scan rule as plain values: identifier, category, severity, title,
/// description, pattern, MITRE technique, recommendation and the file
/// extensions it applies to.
pub type ScanRuleEntry = (
    Seq<char>,
    Seq<char>,
    AuditSeverity,
    Seq<char>,
    Seq<char>,
    Seq<char>,
    Option<Seq<char>>,
    Seq<char>,
    Seq<Seq<char>>,
);

/// The number of built-in scan rules.
pub const RULE_COUNT: usize = 12;

/// A pattern rule applied to the lines of files with given extensions.
#[derive(Debug, Clone)]
pub struct ScanRule {
    pub id: String,
    pub category: String,
    pub severity: AuditSeverity,
    pub title: String,
    pub description: String,
    pub pattern: String,
    pub mitre: Option<String>,
    pub recommendation: String,
    pub extensions: Vec<String>,
}

impl ScanRule {
    /// The rule as plain values.
    pub open spec fn entry(self) -> ScanRuleEntry {
        (
            self.id@,
            self.category@,
            self.severity,
            self.title@,
            self.description@,
            self.pattern@,
            opt_string_view(self.mitre),
            self.recommendation@,
            views(self.extensions@),
        )
    }

    pub fn new(
        id: &str,
        category: &str,
        severity: AuditSeverity,
        title: &str,
        description: &str,
        pattern: &str,
        mitre: Option<&str>,
        recommendation: &str,
        extensions: Vec<&str>,
    ) -> (r: ScanRule)
        ensures
            r.entry() == (
                id@,
                category@,
                severity,
                title@,
                description@,
                pattern@,
                match mitre {
                    Some(m) => Some(m@),
                    None => None,
                },
                recommendation@,
                extensions@.map_values(|e: &str| e@),
            ),
    {
        let mut exts: Vec<String> = Vec::new();
        let mut i: usize = 0;
        while i < extensions.len()
            invariant
                i <= extensions@.len(),
                exts@.len() == i,
                forall|k: int| 0 <= k < i ==> (#[trigger] exts@[k])@ == extensions@[k]@,
            decreases extensions.len() - i,
        {
            exts.push(owned(extensions[i]));
            i = i + 1;
        }
        assert(views(exts@) =~= extensions@.map_values(|e: &str| e@));
        ScanRule {
            id: owned(id),
            category: owned(category),
            severity,
            title: owned(title),
            description: owned(description),
            pattern: owned(pattern),
            mitre: match mitre {
                Some(m) => Some(owned(m)),
                None => None,
            },
            recommendation: owned(recommendation),
            extensions: exts,
        }
    }
}

/// The built-in rule at position `i`, in rule order.
pub open spec fn rule_entry(i: int) -> ScanRuleEntry {
    if i == 0 {
        (
                "SEC-001"@,
                "secrets"@,
                AuditSeverity::Critical,
                "Sabit kodlanmış parola/secret tespit edildi"@,
                "Kaynak kodda açık parola veya gizli anahtar bulundu."@,
                "(?i)(password|passwd|secret|api_key|apikey|private_key)\\s*[=:]\\s*[\"'][^\"']{4,}[\"']"@,
                Some("T1552.001"@),
                "Gizli bilgileri ortam değişkenlerine veya güvenli bir secret manager'a taşıyın."@,
                seq!["rs"@, "js"@, "html"@, "toml"@, "py"@, "json"@],
            )
    } else if i == 1 {
        (
                "SEC-002"@,
                "secrets"@,
                AuditSeverity::Critical,
                "Hardcoded API anahtarı"@,
                "Sabit kodlanmış API anahtarı veya token bulundu."@,
                "(?i)(SOC-SIM-SECURE-KEY|token_secret_key|sim_secret)"@,
                Some("T1552.001"@),
                "API anahtarlarını runtime'da ortam değişkenlerinden yükleyin."@,
                seq!["rs"@, "js"@, "toml"@],
            )
    } else if i == 2 {
        (
                "SEC-003"@,
                "crypto"@,
                AuditSeverity::High,
                "Zayıf hash algoritması (DefaultHasher)"@,
                "Parola hash'leme için kriptografik olmayan DefaultHasher kullanılıyor."@,
                "DefaultHasher"@,
                Some("T1552.001"@),
                "bcrypt, argon2 veya PBKDF2 gibi güvenli hash algoritmaları kullanın."@,
                seq!["rs"@],
            )
    } else if i == 3 {
        (
                "SEC-004"@,
                "auth"@,
                AuditSeverity::High,
                "Varsayılan admin kimlik bilgileri"@,
                "Varsayılan admin/admin123 kimlik bilgileri kodda veya arayüzde bulundu."@,
                "(?i)(admin123|value=\"admin\"|Varsayılan Bilgiler)"@,
                Some("T1078.001"@),
                "Varsayılan kimlik bilgilerini kaldırın ve ilk kurulumda zorunlu parola değişikliği uygulayın."@,
                seq!["rs"@, "js"@, "html"@],
            )
    } else if i == 4 {
        (
                "SEC-005"@,
                "injection"@,
                AuditSeverity::High,
                "SQL string birleştirme"@,
                "SQL sorgularında doğrudan string birleştirme tespit edildi — SQL injection riski."@,
                "(?i)(format!\\(.*SELECT|format!\\(.*INSERT|format!\\(.*UPDATE|format!\\(.*DELETE)"@,
                Some("T1190"@),
                "Parametreli sorgular (prepared statements) kullanın."@,
                seq!["rs"@],
            )
    } else if i == 5 {
        (
                "SEC-006"@,
                "cors"@,
                AuditSeverity::Medium,
                "CORS tüm origin'lere açık"@,
                "CORS yapılandırması tüm origin'lere izin veriyor (allow_origin Any)."@,
                "allow_origin\\(Any\\)"@,
                Some("T1190"@),
                "CORS'u yalnızca güvenilen origin'lere kısıtlayın."@,
                seq!["rs"@],
            )
    } else if i == 6 {
        (
                "SEC-007"@,
                "xss"@,
                AuditSeverity::Medium,
                "CSP unsafe-inline/unsafe-eval"@,
                "Content Security Policy unsafe-inline veya unsafe-eval içeriyor."@,
                "unsafe-inline|unsafe-eval"@,
                Some("T1059.007"@),
                "CSP'den unsafe-inline ve unsafe-eval direktiflerini kaldırın."@,
                seq!["rs"@, "html"@],
            )
    } else if i == 7 {
        (
                "SEC-008"@,
                "config"@,
                AuditSeverity::Medium,
                "Debug/trace modu aktif olabilir"@,
                "Debug veya verbose logging yapılandırması tespit edildi."@,
                "(?i)(debug\\s*=\\s*true|RUST_LOG\\s*=\\s*debug|trace\\(\\))"@,
                None,
                "Production ortamında debug modunu devre dışı bırakın."@,
                seq!["rs"@, "toml"@, "yml"@],
            )
    } else if i == 8 {
        (
                "SEC-009"@,
                "path_traversal"@,
                AuditSeverity::High,
                "Path traversal riski"@,
                "Dosya yolu kullanıcı girdisinden doğrudan oluşturuluyor."@,
                "(?i)(\\.\\./|\\.\\.\\\\\\\\|PathBuf::from\\(.*req\\.|join\\(.*req\\.)"@,
                Some("T1083"@),
                "Dosya yollarını canonicalize edin ve base dizin dışına çıkışı engelleyin."@,
                seq!["rs"@],
            )
    } else if i == 9 {
        (
                "SEC-010"@,
                "encryption"@,
                AuditSeverity::Medium,
                "Şifresiz veritabanı"@,
                "SQLite veritabanı şifreleme olmadan kullanılıyor."@,
                "simulator\\.db|rusqlite"@,
                Some("T1552.001"@),
                "Hassas veriler için SQLCipher veya disk şifrelemesi kullanın."@,
                seq!["rs"@, "toml"@],
            )
    } else if i == 10 {
        (
                "SEC-011"@,
                "auth"@,
                AuditSeverity::Medium,
                "Auth bypass — statik API anahtarı"@,
                "Middleware'de sabit bir API anahtarı ile auth bypass mümkün."@,
                "token_str == \"SOC-SIM-SECURE-KEY"@,
                Some("T1078"@),
                "Statik API anahtarı bypass'ını kaldırın; tüm istekler için geçerli token zorunlu kılın."@,
                seq!["rs"@],
            )
    } else {
        (
                "SEC-012"@,
                "input_validation"@,
                AuditSeverity::Low,
                "Yetersiz input sanitization"@,
                "sanitize_input yalnızca uzunluk kısıtlaması yapıyor, HTML/script filtrelemiyor."@,
                "pub fn sanitize_input"@,
                Some("T1059.007"@),
                "HTML encoding ve whitelist tabanlı input doğrulama ekleyin."@,
                seq!["rs"@],
            )
    }
}

fn rule_at(i: usize) -> (r: ScanRule)
    requires
        i < RULE_COUNT,
    ensures
        r.entry() == rule_entry(i as int),
{
    if i == 0 {
        ScanRule::new(
                "SEC-001",
                "secrets",
                AuditSeverity::Critical,
                "Sabit kodlanmış parola/secret tespit edildi",
                "Kaynak kodda açık parola veya gizli anahtar bulundu.",
                "(?i)(password|passwd|secret|api_key|apikey|private_key)\\s*[=:]\\s*[\"'][^\"']{4,}[\"']",
                Some("T1552.001"),
                "Gizli bilgileri ortam değişkenlerine veya güvenli bir secret manager'a taşıyın.",
                vec!["rs", "js", "html", "toml", "py", "json"],
            )
    } else if i == 1 {
        ScanRule::new(
                "SEC-002",
                "secrets",
                AuditSeverity::Critical,
                "Hardcoded API anahtarı",
                "Sabit kodlanmış API anahtarı veya token bulundu.",
                "(?i)(SOC-SIM-SECURE-KEY|token_secret_key|sim_secret)",
                Some("T1552.001"),
                "API anahtarlarını runtime'da ortam değişkenlerinden yükleyin.",
                vec!["rs", "js", "toml"],
            )
    } else if i == 2 {
        ScanRule::new(
                "SEC-003",
                "crypto",
                AuditSeverity::High,
                "Zayıf hash algoritması (DefaultHasher)",
                "Parola hash'leme için kriptografik olmayan DefaultHasher kullanılıyor.",
                "DefaultHasher",
                Some("T1552.001"),
                "bcrypt, argon2 veya PBKDF2 gibi güvenli hash algoritmaları kullanın.",
                vec!["rs"],
            )
    } else if i == 3 {
        ScanRule::new(
                "SEC-004",
                "auth",
                AuditSeverity::High,
                "Varsayılan admin kimlik bilgileri",
                "Varsayılan admin/admin123 kimlik bilgileri kodda veya arayüzde bulundu.",
                "(?i)(admin123|value=\"admin\"|Varsayılan Bilgiler)",
                Some("T1078.001"),
                "Varsayılan kimlik bilgilerini kaldırın ve ilk kurulumda zorunlu parola değişikliği uygulayın.",
                vec!["rs", "js", "html"],
            )
    } else if i == 4 {
        ScanRule::new(
                "SEC-005",
                "injection",
                AuditSeverity::High,
                "SQL string birleştirme",
                "SQL sorgularında doğrudan string birleştirme tespit edildi — SQL injection riski.",
                "(?i)(format!\\(.*SELECT|format!\\(.*INSERT|format!\\(.*UPDATE|format!\\(.*DELETE)",
                Some("T1190"),
                "Parametreli sorgular (prepared statements) kullanın.",
                vec!["rs"],
            )
    } else if i == 5 {
        ScanRule::new(
                "SEC-006",
                "cors",
                AuditSeverity::Medium,
                "CORS tüm origin'lere açık",
                "CORS yapılandırması tüm origin'lere izin veriyor (allow_origin Any).",
                "allow_origin\\(Any\\)",
                Some("T1190"),
                "CORS'u yalnızca güvenilen origin'lere kısıtlayın.",
                vec!["rs"],
            )
    } else if i == 6 {
        ScanRule::new(
                "SEC-007",
                "xss",
                AuditSeverity::Medium,
                "CSP unsafe-inline/unsafe-eval",
                "Content Security Policy unsafe-inline veya unsafe-eval içeriyor.",
                "unsafe-inline|unsafe-eval",
                Some("T1059.007"),
                "CSP'den unsafe-inline ve unsafe-eval direktiflerini kaldırın.",
                vec!["rs", "html"],
            )
    } else if i == 7 {
        ScanRule::new(
                "SEC-008",
                "config",
                AuditSeverity::Medium,
                "Debug/trace modu aktif olabilir",
                "Debug veya verbose logging yapılandırması tespit edildi.",
                "(?i)(debug\\s*=\\s*true|RUST_LOG\\s*=\\s*debug|trace\\(\\))",
                None,
                "Production ortamında debug modunu devre dışı bırakın.",
                vec!["rs", "toml", "yml"],
            )
    } else if i == 8 {
        ScanRule::new(
                "SEC-009",
                "path_traversal",
                AuditSeverity::High,
                "Path traversal riski",
                "Dosya yolu kullanıcı girdisinden doğrudan oluşturuluyor.",
                "(?i)(\\.\\./|\\.\\.\\\\\\\\|PathBuf::from\\(.*req\\.|join\\(.*req\\.)",
                Some("T1083"),
                "Dosya yollarını canonicalize edin ve base dizin dışına çıkışı engelleyin.",
                vec!["rs"],
            )
    } else if i == 9 {
        ScanRule::new(
                "SEC-010",
                "encryption",
                AuditSeverity::Medium,
                "Şifresiz veritabanı",
                "SQLite veritabanı şifreleme olmadan kullanılıyor.",
                "simulator\\.db|rusqlite",
                Some("T1552.001"),
                "Hassas veriler için SQLCipher veya disk şifrelemesi kullanın.",
                vec!["rs", "toml"],
            )
    } else if i == 10 {
        ScanRule::new(
                "SEC-011",
                "auth",
                AuditSeverity::Medium,
                "Auth bypass — statik API anahtarı",
                "Middleware'de sabit bir API anahtarı ile auth bypass mümkün.",
                "token_str == \"SOC-SIM-SECURE-KEY",
                Some("T1078"),
                "Statik API anahtarı bypass'ını kaldırın; tüm istekler için geçerli token zorunlu kılın.",
                vec!["rs"],
            )
    } else {
        ScanRule::new(
                "SEC-012",
                "input_validation",
                AuditSeverity::Low,
                "Yetersiz input sanitization",
                "sanitize_input yalnızca uzunluk kısıtlaması yapıyor, HTML/script filtrelemiyor.",
                "pub fn sanitize_input",
                Some("T1059.007"),
                "HTML encoding ve whitelist tabanlı input doğrulama ekleyin.",
                vec!["rs"],
            )
    }
}

/// The built-in scan rules, in order.
pub fn build_rules() -> (r: Vec<ScanRule>)
    ensures
        r@.len() == RULE_COUNT,
        forall|i: int| 0 <= i < RULE_COUNT ==> (#[trigger] r@[i]).entry() == rule_entry(i),
{
    let mut r: Vec<ScanRule> = Vec::new();
    let mut i: usize = 0;
    while i < RULE_COUNT
        invariant
            i <= RULE_COUNT,
            r@.len() == i,
            forall|k: int| 0 <= k < i ==> (#[trigger] r@[k]).entry() == rule_entry(k),
        decreases RULE_COUNT - i,
    {
        r.push(rule_at(i));
        i = i + 1;
    }
    r
}

/// A finding as plain values: identifier, category, severity, title,
/// description, file path, line number, MITRE technique, recommendation
/// and evidence.
pub type FindingView = (
    Seq<char>,
    Seq<char>,
    AuditSeverity,
    Seq<char>,
    Seq<char>,
    Option<Seq<char>>,
    Option<u32>,
    Option<Seq<char>>,
    Seq<char>,
    Option<Seq<char>>,
);

/// The finding as plain values.
pub open spec fn finding_view(f: AuditFinding) -> FindingView {
    (
        f.id@,
        f.category@,
        f.severity,
        f.title@,
        f.description@,
        opt_string_view(f.file_path),
        f.line_number,
        opt_string_view(f.mitre_technique),
        f.recommendation@,
        opt_string_view(f.evidence),
    )
}

/// The findings as plain values.
pub open spec fn finding_views(s: Seq<AuditFinding>) -> Seq<FindingView> {
    s.map_values(|f: AuditFinding| finding_view(f))
}

/// The identifiers of findings given as plain values.
pub open spec fn finding_ids(s: Seq<FindingView>) -> Seq<Seq<char>> {
    s.map_values(|f: FindingView| f.0)
}

/// The longest evidence excerpt, in bytes.
pub const EVIDENCE_MAX: usize = 120;

/// The evidence excerpt of a line: the trimmed line when it is at most
/// `max` bytes long, else its first `max` bytes followed by `...`.
pub open spec fn evidence_text(line: Seq<char>, max: int) -> Seq<char> {
    let t = trimmed(line);
    if encode_utf8(t).len() <= max {
        t
    } else {
        byte_prefix(t, max) + "..."@
    }
}

/// A file path with `/` and `\\` each replaced by `-`.
pub open spec fn path_key(p: Seq<char>) -> Seq<char> {
    p.map_values(|c: char| if c == '/' || c == '\\' { '-' } else { c })
}

/// The identifier of the finding of rule `rule_id` on line `k` (counted
/// from 0) of the file at `path`.
pub open spec fn finding_id_text(rule_id: Seq<char>, path: Seq<char>, k: int) -> Seq<char> {
    rule_id + "-"@ + path_key(path) + "-"@ + decimal((k + 1) as nat)
}

/// The finding that rule `rule` makes on line `k` (counted from 0), which
/// reads `line`, of the file at `path`.
pub open spec fn rule_finding(rule: ScanRuleEntry, path: Seq<char>, k: int, line: Seq<char>) -> FindingView {
    (
        finding_id_text(rule.0, path, k),
        rule.1,
        rule.2,
        rule.3,
        rule.4,
        Some(path),
        Some((k + 1) as u32),
        rule.6,
        rule.7,
        Some(evidence_text(line, EVIDENCE_MAX as int)),
    )
}

/// The rule applies to files with extension `ext`.
pub open spec fn applies(rule: ScanRuleEntry, ext: Seq<char>) -> bool {
    rule.8.contains(ext)
}

/// The positions among the first `k` lines that `pattern` matches.
pub open spec fn line_hits(pattern: Seq<char>, lines: Seq<Seq<char>>, k: int) -> Seq<int>
    decreases k,
{
    if k <= 0 {
        seq![]
    } else if regex_finds(pattern, lines[k - 1]) {
        line_hits(pattern, lines, k - 1).push(k - 1)
    } else {
        line_hits(pattern, lines, k - 1)
    }
}

/// Rule position `j` paired with each line position of `ks`.
pub open spec fn rule_pairs(j: int, ks: Seq<int>) -> Seq<(int, int)> {
    ks.map_values(|k: int| (j, k))
}

/// The (rule, line) pairs that the first `j` rules find, rule by rule and
/// within a rule line by line; rules that do not apply to `ext` find
/// nothing.
pub open spec fn hits(rules: Seq<ScanRuleEntry>, ext: Seq<char>, lines: Seq<Seq<char>>, j: int) -> Seq<(int, int)>
    decreases j,
{
    if j <= 0 {
        seq![]
    } else if applies(rules[j - 1], ext) {
        hits(rules, ext, lines, j - 1) + rule_pairs(j - 1, line_hits(rules[j - 1].5, lines, lines.len() as int))
    } else {
        hits(rules, ext, lines, j - 1)
    }
}

/// The findings after the hits `cands` are added in order to `acc`, each
/// unless a finding with its identifier is already there.
pub open spec fn add_hits(
    acc: Seq<FindingView>,
    rules: Seq<ScanRuleEntry>,
    path: Seq<char>,
    lines: Seq<Seq<char>>,
    cands: Seq<(int, int)>,
) -> Seq<FindingView>
    decreases cands.len(),
{
    if cands.len() == 0 {
        acc
    } else {
        let prev = add_hits(acc, rules, path, lines, cands.drop_last());
        let c = cands.last();
        let f = rule_finding(rules[c.0], path, c.1, lines[c.1]);
        if finding_ids(prev).contains(f.0) {
            prev
        } else {
            prev.push(f)
        }
    }
}

/// Every hit of `cands` that is added cuts its evidence on a character
/// boundary (where the excerpt does not panic).
pub open spec fn hits_cut_cleanly(
    acc: Seq<FindingView>,
    rules: Seq<ScanRuleEntry>,
    path: Seq<char>,
    lines: Seq<Seq<char>>,
    cands: Seq<(int, int)>,
) -> bool
    decreases cands.len(),
{
    if cands.len() == 0 {
        true
    } else {
        let prev = add_hits(acc, rules, path, lines, cands.drop_last());
        let c = cands.last();
        &&& hits_cut_cleanly(acc, rules, path, lines, cands.drop_last())
        &&& (finding_ids(prev).contains(finding_id_text(rules[c.0].0, path, c.1))
            || fits_or_splits(trimmed(lines[c.1]), EVIDENCE_MAX as int))
    }
}

/// The rules as plain values.
pub open spec fn rule_entries(rules: Seq<ScanRule>) -> Seq<ScanRuleEntry> {
    rules.map_values(|r: ScanRule| r.entry())
}

/// Every rule's pattern compiles.
pub open spec fn patterns_compile(rules: Seq<ScanRuleEntry>) -> bool {
    forall|j: int| 0 <= j < rules.len() ==> regex_compiles(#[trigger] rules[j].5)
}

/// The findings after scanning a file's content with the rules.
pub open spec fn file_scan(
    acc: Seq<FindingView>,
    rules: Seq<ScanRuleEntry>,
    path: Seq<char>,
    ext: Seq<char>,
    content: Seq<char>,
) -> Seq<FindingView> {
    let lines = lines_of(content);
    add_hits(acc, rules, path, lines, hits(rules, ext, lines, rules.len() as int))
}

/// Scanning the file does not panic.
pub open spec fn file_scan_ok(
    acc: Seq<FindingView>,
    rules: Seq<ScanRuleEntry>,
    path: Seq<char>,
    ext: Seq<char>,
    content: Seq<char>,
) -> bool {
    let lines = lines_of(content);
    hits_cut_cleanly(acc, rules, path, lines, hits(rules, ext, lines, rules.len() as int))
}

/// The rank of a severity, from 5 (critical) down to 1 (info).
pub open spec fn rank(sev: AuditSeverity) -> int {
    match sev {
        AuditSeverity::Critical => 5,
        AuditSeverity::High => 4,
        AuditSeverity::Medium => 3,
        AuditSeverity::Low => 2,
        AuditSeverity::Info => 1,
    }
}

pub fn severity_rank(sev: &AuditSeverity) -> (r: u8)
    ensures
        r == rank(*sev),
{
    match sev {
        AuditSeverity::Critical => 5,
        AuditSeverity::High => 4,
        AuditSeverity::Medium => 3,
        AuditSeverity::Low => 2,
        AuditSeverity::Info => 1,
    }
}

/// The evidence excerpt of a line.
pub fn truncate_evidence(line: &str, max: usize) -> (r: String)
    requires
        fits_or_splits(trimmed(line@), max as int),
    ensures
        r@ == evidence_text(line@, max as int),
{
    let t = trim(line);
    let ts = t.as_str();
    assert(ts.spec_bytes() == encode_utf8(ts@));
    if ts.as_bytes().len() <= max {
        t
    } else {
        let mut r = owned(prefix_bytes(ts, max));
        r.append("...");
        r
    }
}

/// Every prefix of a hit list that scans cleanly scans cleanly too.
proof fn lemma_cut_prefix(
    acc: Seq<FindingView>,
    rules: Seq<ScanRuleEntry>,
    path: Seq<char>,
    lines: Seq<Seq<char>>,
    cands: Seq<(int, int)>,
    n: int,
)
    requires
        0 <= n <= cands.len(),
        hits_cut_cleanly(acc, rules, path, lines, cands),
    ensures
        hits_cut_cleanly(acc, rules, path, lines, cands.subrange(0, n)),
    decreases cands.len(),
{
    if n < cands.len() {
        assert(cands.drop_last() == cands.subrange(0, cands.len() - 1));
        lemma_cut_prefix(acc, rules, path, lines, cands.drop_last(), n);
        assert(cands.drop_last().subrange(0, n) == cands.subrange(0, n));
    } else {
        assert(cands.subrange(0, n) == cands);
    }
}

proof fn lemma_line_hits_prefix(pattern: Seq<char>, lines: Seq<Seq<char>>, k: int, m: int)
    requires
        0 <= k <= m,
    ensures
        line_hits(pattern, lines, k).len() <= line_hits(pattern, lines, m).len(),
        line_hits(pattern, lines, m).subrange(0, line_hits(pattern, lines, k).len() as int)
            == line_hits(pattern, lines, k),
    decreases m,
{
    if k < m {
        lemma_line_hits_prefix(pattern, lines, k, m - 1);
        let a = line_hits(pattern, lines, m - 1);
        let n = line_hits(pattern, lines, k).len() as int;
        if regex_finds(pattern, lines[m - 1]) {
            assert(a.push(m - 1).subrange(0, n) == a.subrange(0, n));
        }
    } else {
        let a = line_hits(pattern, lines, m);
        assert(a.subrange(0, a.len() as int) == a);
    }
}

proof fn lemma_hits_prefix(rules: Seq<ScanRuleEntry>, ext: Seq<char>, lines: Seq<Seq<char>>, j: int, m: int)
    requires
        0 <= j <= m,
    ensures
        hits(rules, ext, lines, j).len() <= hits(rules, ext, lines, m).len(),
        hits(rules, ext, lines, m).subrange(0, hits(rules, ext, lines, j).len() as int)
            == hits(rules, ext, lines, j),
    decreases m,
{
    if j < m {
        lemma_hits_prefix(rules, ext, lines, j, m - 1);
        let a = hits(rules, ext, lines, m - 1);
        let n = hits(rules, ext, lines, j).len() as int;
        if applies(rules[m - 1], ext) {
            let b = rule_pairs(m - 1, line_hits(rules[m - 1].5, lines, lines.len() as int));
            assert((a + b).subrange(0, n) == a.subrange(0, n));
        }
    } else {
        let a = hits(rules, ext, lines, m);
        assert(a.subrange(0, a.len() as int) == a);
    }
}

/// The `(k + 1)`-th partial hit list of rule `j` is a prefix of all the
/// hits.
proof fn lemma_partial_prefix(
    rules: Seq<ScanRuleEntry>,
    ext: Seq<char>,
    lines: Seq<Seq<char>>,
    j: int,
    k: int,
)
    requires
        0 <= j < rules.len(),
        applies(rules[j], ext),
        0 <= k <= lines.len(),
    ensures
        ({
            let part = hits(rules, ext, lines, j) + rule_pairs(j, line_hits(rules[j].5, lines, k));
            let full = hits(rules, ext, lines, rules.len() as int);
            part.len() <= full.len() && full.subrange(0, part.len() as int) == part
        }),
{
    let base = hits(rules, ext, lines, j);
    let ks = line_hits(rules[j].5, lines, k);
    let all = line_hits(rules[j].5, lines, lines.len() as int);
    lemma_line_hits_prefix(rules[j].5, lines, k, lines.len() as int);
    assert(rule_pairs(j, all).subrange(0, ks.len() as int) == rule_pairs(j, ks));
    let whole = hits(rules, ext, lines, j + 1);
    assert(whole == base + rule_pairs(j, all));
    let part = base + rule_pairs(j, ks);
    assert(whole.subrange(0, part.len() as int) == part);
    lemma_hits_prefix(rules, ext, lines, j + 1, rules.len() as int);
    let full = hits(rules, ext, lines, rules.len() as int);
    assert(full.subrange(0, part.len() as int) == full.subrange(0, whole.len() as int).subrange(0, part.len() as int));
}

/// `path` with `/` and `\\` each replaced by `-`.
pub fn path_key_string(path: &str) -> (r: String)
    ensures
        r@ == path_key(path@),
{
    let v = chars_of(path);
    let mut w: Vec<char> = Vec::new();
    let mut i: usize = 0;
    while i < v.len()
        invariant
            v@ == path@,
            i <= v@.len(),
            w@ == path_key(v@.subrange(0, i as int)),
        decreases v.len() - i,
    {
        let c = v[i];
        let d = if c == '/' || c == '\\' {
            '-'
        } else {
            c
        };
        w.push(d);
        i = i + 1;
        assert(w@ =~= path_key(v@.subrange(0, i as int)));
    }
    assert(v@.subrange(0, v@.len() as int) == v@);
    string_from_chars(&w)
}

fn finding_id(rule_id: &str, key: &str, k: usize) -> (r: String)
    requires
        k < usize::MAX,
    ensures
        r@ == rule_id@ + "-"@ + key@ + "-"@ + decimal((k + 1) as nat),
{
    let mut r = owned(rule_id);
    r.append("-");
    r.append(key);
    r.append("-");
    let n = decimal_string((k + 1) as u64);
    r.append(n.as_str());
    r
}

/// Whether a finding with identifier `id` is among `findings`.
pub fn has_finding_id(findings: &Vec<AuditFinding>, id: &str) -> (r: bool)
    ensures
        r == finding_ids(finding_views(findings@)).contains(id@),
{
    let ghost ids = finding_ids(finding_views(findings@));
    let mut i: usize = 0;
    while i < findings.len()
        invariant
            ids == finding_ids(finding_views(findings@)),
            ids.len() == findings@.len(),
            i <= findings@.len(),
            forall|k: int| 0 <= k < i ==> ids[k] != id@,
        decreases findings.len() - i,
    {
        assert(ids[i as int] == findings@[i as int].id@);
        if str_eq(findings[i].id.as_str(), id) {
            return true;
        }
        i = i + 1;
    }
    false
}

fn rule_applies(rule: &ScanRule, ext: &str) -> (r: bool)
    ensures
        r == applies(rule.entry(), ext@),
{
    let ghost exts = views(rule.extensions@);
    let mut i: usize = 0;
    while i < rule.extensions.len()
        invariant
            exts == views(rule.extensions@),
            exts.len() == rule.extensions@.len(),
            i <= rule.extensions@.len(),
            forall|k: int| 0 <= k < i ==> exts[k] != ext@,
        decreases rule.extensions.len() - i,
    {
        assert(exts[i as int] == rule.extensions@[i as int]@);
        if str_eq(rule.extensions[i].as_str(), ext) {
            return true;
        }
        i = i + 1;
    }
    false
}

fn make_finding(rule: &ScanRule, path: &str, key: &str, k: usize, line: &str) -> (r: AuditFinding)
    requires
        k < usize::MAX,
        key@ == path_key(path@),
        fits_or_splits(trimmed(line@), EVIDENCE_MAX as int),
    ensures
        finding_view(r) == rule_finding(rule.entry(), path@, k as int, line@),
{
    AuditFinding {
        id: finding_id(rule.id.as_str(), key, k),
        category: rule.category.clone(),
        severity: rule.severity,
        title: rule.title.clone(),
        description: rule.description.clone(),
        file_path: Some(owned(path)),
        line_number: Some((k + 1) as u32),
        mitre_technique: copy_opt(&rule.mitre),
        recommendation: rule.recommendation.clone(),
        evidence: Some(truncate_evidence(line, EVIDENCE_MAX)),
    }
}

/// Scans the lines of one file's content with every rule that applies to
/// its extension, adding a finding for each matching line unless one with
/// the same identifier is already there. Answers `false`, at the first
/// finding whose evidence would be cut inside a character, where the scan
/// cannot go on; the findings are then left part-way.
pub fn scan_file_content(
    rules: &Vec<ScanRule>,
    rel_path: &str,
    ext: &str,
    content: &str,
    findings: &mut Vec<AuditFinding>,
) -> (ok: bool)
    requires
        patterns_compile(rule_entries(rules@)),
    ensures
        ok == file_scan_ok(finding_views(old(findings)@), rule_entries(rules@), rel_path@, ext@, content@),
        ok ==> finding_views(final(findings)@) == file_scan(
            finding_views(old(findings)@),
            rule_entries(rules@),
            rel_path@,
            ext@,
            content@,
        ),
{
    let ghost acc0 = finding_views(findings@);
    let ghost rs = rule_entries(rules@);
    let lines = split_lines(content);
    let ghost ls = lines_of(content@);
    let key = path_key_string(rel_path);
    let mut j: usize = 0;
    while j < rules.len()
        invariant
            rs == rule_entries(rules@),
            rs.len() == rules@.len(),
            patterns_compile(rs),
            views(lines@) == ls,
            ls == lines_of(content@),
            acc0 == finding_views(old(findings)@),
            ls.len() == lines@.len(),
            key@ == path_key(rel_path@),
            j <= rules@.len(),
            finding_views(findings@) == add_hits(acc0, rs, rel_path@, ls, hits(rs, ext@, ls, j as int)),
            hits_cut_cleanly(acc0, rs, rel_path@, ls, hits(rs, ext@, ls, j as int)),
        decreases rules.len() - j,
    {
        let rule = &rules[j];
        assert(rs[j as int] == rule.entry());
        if rule_applies(rule, ext) {
            let ghost base = hits(rs, ext@, ls, j as int);
            assert(regex_compiles(rs[j as int].5));
            let mut k: usize = 0;
            assert(base + rule_pairs(j as int, line_hits(rs[j as int].5, ls, 0)) == base);
            while k < lines.len()
                invariant
                    rs == rule_entries(rules@),
                    rs.len() == rules@.len(),
                    j < rules@.len(),
                    rule == &rules@[j as int],
                    rs[j as int] == rule.entry(),
                    applies(rs[j as int], ext@),
                    regex_compiles(rule.pattern@),
                    views(lines@) == ls,
                    ls == lines_of(content@),
                    acc0 == finding_views(old(findings)@),
                    ls.len() == lines@.len(),
                    key@ == path_key(rel_path@),
                    base == hits(rs, ext@, ls, j as int),
                    k <= lines@.len(),
                    finding_views(findings@) == add_hits(
                        acc0,
                        rs,
                        rel_path@,
                        ls,
                        base + rule_pairs(j as int, line_hits(rs[j as int].5, ls, k as int)),
                    ),
                    hits_cut_cleanly(
                        acc0,
                        rs,
                        rel_path@,
                        ls,
                        base + rule_pairs(j as int, line_hits(rs[j as int].5, ls, k as int)),
                    ),
                decreases lines.len() - k,
            {
                let line = lines[k].as_str();
                assert(ls[k as int] == line@);
                let ghost before = base + rule_pairs(j as int, line_hits(rs[j as int].5, ls, k as int));
                let ghost after = base + rule_pairs(j as int, line_hits(rs[j as int].5, ls, k + 1));
                if regex_is_match(rule.pattern.as_str(), line) {
                    assert(line_hits(rs[j as int].5, ls, k + 1) == line_hits(rs[j as int].5, ls, k as int).push(k as int));
                    assert(rule_pairs(j as int, line_hits(rs[j as int].5, ls, k + 1))
                        == rule_pairs(j as int, line_hits(rs[j as int].5, ls, k as int)).push((j as int, k as int)));
                    assert(after == before.push((j as int, k as int)));
                    assert(after.drop_last() == before);
                    let id = finding_id(rule.id.as_str(), key.as_str(), k);
                    assert(id@ == finding_id_text(rs[j as int].0, rel_path@, k as int));
                    if !has_finding_id(findings, id.as_str()) {
                        if !splits_within(trim(line).as_str(), EVIDENCE_MAX) {
                            proof {
                                assert(after.last() == (j as int, k as int));
                                assert(!hits_cut_cleanly(acc0, rs, rel_path@, ls, after));
                                lemma_partial_prefix(rs, ext@, ls, j as int, k + 1);
                                let full = hits(rs, ext@, ls, rs.len() as int);
                                assert(base == hits(rs, ext@, ls, j as int));
                                assert(full.subrange(0, after.len() as int) == after);
                                if hits_cut_cleanly(acc0, rs, rel_path@, ls, full) {
                                    lemma_cut_prefix(acc0, rs, rel_path@, ls, full, after.len() as int);
                                    assert(false);
                                }
                            }
                            return false;
                        }
                        let f = make_finding(rule, rel_path, key.as_str(), k, line);
                        let ghost fv = finding_views(findings@);
                        findings.push(f);
                        assert(finding_views(findings@) == fv.push(finding_view(f)));
                    }
                } else {
                    assert(line_hits(rs[j as int].5, ls, k + 1) == line_hits(rs[j as int].5, ls, k as int));
                    assert(after == before);
                }
                k = k + 1;
            }
            assert(hits(rs, ext@, ls, j + 1) == base + rule_pairs(j as int, line_hits(rs[j as int].5, ls, ls.len() as int)));
        }
        j = j + 1;
    }
    true
}

/// The directories under the base directory that the scan walks, in
/// order.
pub open spec fn scan_roots_spec() -> Seq<Seq<char>> {
    seq!["src"@, "fronted"@, "config"@, "scripts"@, "data"@]
}

/// The environment files looked for at the base directory, in order.
pub open spec fn env_names_spec() -> Seq<Seq<char>> {
    seq![".env"@, ".env.local"@, ".env.production"@]
}

/// Directory names that the walk does not enter.
pub open spec fn skipped_dir(name: Seq<char>) -> bool {
    seq!["target"@, "node_modules"@, ".git"@, "logs"@].contains(name)
}

/// File extensions whose files the walk scans.
pub open spec fn scanned_extension(ext: Seq<char>) -> bool {
    seq!["rs"@, "js"@, "html"@, "toml"@, "json"@, "py"@, "ps1"@, "md"@, "yml"@, "yaml"@, "css"@].contains(ext)
}

fn in_list(list: &Vec<&str>, x: &str) -> (r: bool)
    ensures
        r == list@.map_values(|e: &str| e@).contains(x@),
{
    let ghost vs = list@.map_values(|e: &str| e@);
    let mut i: usize = 0;
    while i < list.len()
        invariant
            vs == list@.map_values(|e: &str| e@),
            i <= list@.len(),
            forall|k: int| 0 <= k < i ==> vs[k] != x@,
        decreases list.len() - i,
    {
        if str_eq(list[i], x) {
            assert(vs[i as int] == x@);
            return true;
        }
        i = i + 1;
    }
    false
}

/// The directories under the base directory that the scan walks.
pub fn scan_roots() -> (r: Vec<&'static str>)
    ensures
        r@.map_values(|e: &str| e@) == scan_roots_spec(),
{
    let r: Vec<&'static str> = vec!["src", "fronted", "config", "scripts", "data"];
    assert(r@.map_values(|e: &str| e@) =~= scan_roots_spec());
    r
}

/// The environment files looked for at the base directory.
pub fn env_file_names() -> (r: Vec<&'static str>)
    ensures
        r@.map_values(|e: &str| e@) == env_names_spec(),
{
    let r: Vec<&'static str> = vec![".env", ".env.local", ".env.production"];
    assert(r@.map_values(|e: &str| e@) =~= env_names_spec());
    r
}

/// Whether the walk skips a directory of this name.
pub fn is_skipped_dir(name: &str) -> (r: bool)
    ensures
        r == skipped_dir(name@),
{
    let list: Vec<&str> = vec!["target", "node_modules", ".git", "logs"];
    assert(list@.map_values(|e: &str| e@) =~= seq!["target"@, "node_modules"@, ".git"@, "logs"@]);
    in_list(&list, name)
}

/// Whether the walk scans files with this extension.
pub fn is_scanned_extension(ext: &str) -> (r: bool)
    ensures
        r == scanned_extension(ext@),
{
    let list: Vec<&str> = vec!["rs", "js", "html", "toml", "json", "py", "ps1", "md", "yml", "yaml", "css"];
    assert(list@.map_values(|e: &str| e@) =~= seq![
        "rs"@, "js"@, "html"@, "toml"@, "json"@, "py"@, "ps1"@, "md"@, "yml"@, "yaml"@, "css"@
    ]);
    in_list(&list, ext)
}

/// The text without its `.` characters.
pub open spec fn without_dots(s: Seq<char>) -> Seq<char>
    decreases s.len(),
{
    if s.len() == 0 {
        seq![]
    } else if s.last() == '.' {
        without_dots(s.drop_last())
    } else {
        without_dots(s.drop_last()).push(s.last())
    }
}

/// The finding that an environment file at the base directory raises.
pub open spec fn env_finding_view(name: Seq<char>) -> FindingView {
    (
        "ENV-"@ + without_dots(name),
        "secrets"@,
        AuditSeverity::High,
        "Ortam değişken dosyası bulundu: "@ + name,
        ".env dosyaları hassas bilgi içerebilir ve versiyon kontrolüne eklenmemelidir."@,
        Some(name),
        None,
        Some("T1552.001"@),
        ".env dosyasını .gitignore'a ekleyin ve gizli bilgileri güvenli bir vault'ta saklayın."@,
        None,
    )
}

fn strip_dots(s: &str) -> (r: String)
    ensures
        r@ == without_dots(s@),
{
    let v = chars_of(s);
    let mut w: Vec<char> = Vec::new();
    let mut i: usize = 0;
    while i < v.len()
        invariant
            v@ == s@,
            i <= v@.len(),
            w@ == without_dots(v@.subrange(0, i as int)),
        decreases v.len() - i,
    {
        assert(v@.subrange(0, i + 1).drop_last() == v@.subrange(0, i as int));
        if v[i] != '.' {
            w.push(v[i]);
        }
        i = i + 1;
    }
    assert(v@.subrange(0, v@.len() as int) == v@);
    string_from_chars(&w)
}

/// The finding for an environment file found at the base directory.
pub fn env_finding(env_name: &str) -> (r: AuditFinding)
    ensures
        finding_view(r) == env_finding_view(env_name@),
{
    let mut id = String::from_str("ENV-");
    let bare = strip_dots(env_name);
    id.append(bare.as_str());
    let mut title = String::from_str("Ortam değişken dosyası bulundu: ");
    title.append(env_name);
    AuditFinding {
        id,
        category: String::from_str("secrets"),
        severity: AuditSeverity::High,
        title,
        description: String::from_str(
            ".env dosyaları hassas bilgi içerebilir ve versiyon kontrolüne eklenmemelidir.",
        ),
        file_path: Some(owned(env_name)),
        line_number: None,
        mitre_technique: Some(String::from_str("T1552.001")),
        recommendation: String::from_str(
            ".env dosyasını .gitignore'a ekleyin ve gizli bilgileri güvenli bir vault'ta saklayın.",
        ),
        evidence: None,
    }
}

/// The findings of `s` with severity `sev`, in their order.
pub open spec fn with_severity(s: Seq<FindingView>, sev: AuditSeverity) -> Seq<FindingView>
    decreases s.len(),
{
    if s.len() == 0 {
        seq![]
    } else if s.last().2 == sev {
        with_severity(s.drop_last(), sev).push(s.last())
    } else {
        with_severity(s.drop_last(), sev)
    }
}

/// The findings ordered most severe first, in their order within a
/// severity: what a stable sort by descending rank gives.
pub open spec fn by_severity(s: Seq<FindingView>) -> Seq<FindingView> {
    with_severity(s, AuditSeverity::Critical) + with_severity(s, AuditSeverity::High) + with_severity(
        s,
        AuditSeverity::Medium,
    ) + with_severity(s, AuditSeverity::Low) + with_severity(s, AuditSeverity::Info)
}

/// Every finding picked for a severity has that severity.
pub proof fn lemma_with_severity_only(s: Seq<FindingView>, sev: AuditSeverity)
    ensures
        forall|k: int| 0 <= k < with_severity(s, sev).len() ==> (#[trigger] with_severity(s, sev)[k]).2 == sev,
        with_severity(s, sev).len() <= s.len(),
    decreases s.len(),
{
    if s.len() > 0 {
        lemma_with_severity_only(s.drop_last(), sev);
    }
}

/// Ordering by severity puts more severe findings first: along the result
/// the rank never rises.
pub proof fn lemma_by_severity_ordered(s: Seq<FindingView>)
    ensures
        forall|i: int, j: int|
            0 <= i < j < by_severity(s).len() ==> rank((#[trigger] by_severity(s)[i]).2) >= rank(
                (#[trigger] by_severity(s)[j]).2,
            ),
{
    let a = with_severity(s, AuditSeverity::Critical);
    let b = with_severity(s, AuditSeverity::High);
    let c = with_severity(s, AuditSeverity::Medium);
    let d = with_severity(s, AuditSeverity::Low);
    let e = with_severity(s, AuditSeverity::Info);
    lemma_with_severity_only(s, AuditSeverity::Critical);
    lemma_with_severity_only(s, AuditSeverity::High);
    lemma_with_severity_only(s, AuditSeverity::Medium);
    lemma_with_severity_only(s, AuditSeverity::Low);
    lemma_with_severity_only(s, AuditSeverity::Info);
    let all = by_severity(s);
    assert forall|k: int| 0 <= k < all.len() implies rank((#[trigger] all[k]).2) == if k < a.len() {
        5int
    } else if k < a.len() + b.len() {
        4
    } else if k < a.len() + b.len() + c.len() {
        3
    } else if k < a.len() + b.len() + c.len() + d.len() {
        2
    } else {
        1
    } by {
        if k < a.len() {
            assert(all[k] == a[k]);
        } else if k < a.len() + b.len() {
            assert(all[k] == b[k - a.len()]);
        } else if k < a.len() + b.len() + c.len() {
            assert(all[k] == c[k - a.len() - b.len()]);
        } else if k < a.len() + b.len() + c.len() + d.len() {
            assert(all[k] == d[k - a.len() - b.len() - c.len()]);
        } else {
            assert(all[k] == e[k - a.len() - b.len() - c.len() - d.len()]);
        }
    }
}

/// Ordering by severity keeps every finding, each as often as before.
pub proof fn lemma_by_severity_keeps_all(s: Seq<FindingView>)
    ensures
        by_severity(s).len() == s.len(),
    decreases s.len(),
{
    if s.len() > 0 {
        lemma_by_severity_keeps_all(s.drop_last());
    }
}

/// Orders findings most severe first, keeping their order within a
/// severity.
pub fn sort_by_severity(v: Vec<AuditFinding>) -> (r: Vec<AuditFinding>)
    ensures
        finding_views(r@) == by_severity(finding_views(v@)),
{
    let ghost all = finding_views(v@);
    let mut c: Vec<AuditFinding> = Vec::new();
    let mut h: Vec<AuditFinding> = Vec::new();
    let mut m: Vec<AuditFinding> = Vec::new();
    let mut l: Vec<AuditFinding> = Vec::new();
    let mut n: Vec<AuditFinding> = Vec::new();
    for x in it: v
        invariant
            it.seq() == v@,
            all == finding_views(v@),
            finding_views(c@) == with_severity(all.take(it.index() as int), AuditSeverity::Critical),
            finding_views(h@) == with_severity(all.take(it.index() as int), AuditSeverity::High),
            finding_views(m@) == with_severity(all.take(it.index() as int), AuditSeverity::Medium),
            finding_views(l@) == with_severity(all.take(it.index() as int), AuditSeverity::Low),
            finding_views(n@) == with_severity(all.take(it.index() as int), AuditSeverity::Info),
    {
        let ghost k = it.index() as int;
        assert(all.take(k + 1).drop_last() == all.take(k));
        assert(all.take(k + 1).last() == finding_view(x));
        let ghost (fc, fh, fm, fl, fn_) = (finding_views(c@), finding_views(h@), finding_views(m@), finding_views(l@), finding_views(n@));
        match x.severity {
            AuditSeverity::Critical => {
                c.push(x);
                assert(finding_views(c@) == fc.push(finding_view(x)));
            },
            AuditSeverity::High => {
                h.push(x);
                assert(finding_views(h@) == fh.push(finding_view(x)));
            },
            AuditSeverity::Medium => {
                m.push(x);
                assert(finding_views(m@) == fm.push(finding_view(x)));
            },
            AuditSeverity::Low => {
                l.push(x);
                assert(finding_views(l@) == fl.push(finding_view(x)));
            },
            AuditSeverity::Info => {
                n.push(x);
                assert(finding_views(n@) == fn_.push(finding_view(x)));
            },
        }
    }
    assert(all.take(all.len() as int) == all);
    let ghost (fc, fh, fm, fl, fn_) = (finding_views(c@), finding_views(h@), finding_views(m@), finding_views(l@), finding_views(n@));
    c.append(&mut h);
    c.append(&mut m);
    c.append(&mut l);
    c.append(&mut n);
    assert(finding_views(c@) =~= fc + fh + fm + fl + fn_);
    c
}

/// A file read by the walk: its path relative to the base directory, its
/// extension and its content.
#[derive(Debug, Clone)]
pub struct SourceFile {
    pub rel_path: String,
    pub ext: String,
    pub content: String,
}

/// The findings after scanning each file in turn.
pub open spec fn files_scan(acc: Seq<FindingView>, rules: Seq<ScanRuleEntry>, files: Seq<SourceFile>) -> Seq<FindingView>
    decreases files.len(),
{
    if files.len() == 0 {
        acc
    } else {
        let f = files.last();
        file_scan(files_scan(acc, rules, files.drop_last()), rules, f.rel_path@, f.ext@, f.content@)
    }
}

/// Scanning each file in turn does not panic.
pub open spec fn files_scan_ok(acc: Seq<FindingView>, rules: Seq<ScanRuleEntry>, files: Seq<SourceFile>) -> bool
    decreases files.len(),
{
    if files.len() == 0 {
        true
    } else {
        let f = files.last();
        &&& files_scan_ok(acc, rules, files.drop_last())
        &&& file_scan_ok(files_scan(acc, rules, files.drop_last()), rules, f.rel_path@, f.ext@, f.content@)
    }
}

/// The built-in rules as plain values.
pub open spec fn builtin_rules() -> Seq<ScanRuleEntry> {
    Seq::new(RULE_COUNT as nat, |i: int| rule_entry(i))
}

/// The findings of the environment files named.
pub open spec fn env_views(names: Seq<String>) -> Seq<FindingView> {
    names.map_values(|n: String| env_finding_view(n@))
}

/// Static code and configuration scanner for security weaknesses in the
/// project's files.
#[derive(Debug, Clone)]
pub struct FileScanner {
    pub base_dir: String,
}

impl FileScanner {
    pub fn new(base_dir: &str) -> (r: Self)
        ensures
            r.base_dir@ == base_dir@,
    {
        FileScanner { base_dir: owned(base_dir) }
    }

    /// Scans the files read by the walk, in their order, then adds a
    /// finding for each environment file found, and orders all findings
    /// most severe first; also answers the number of files looked at.
    /// Answers `None` where a built-in pattern does not compile or an
    /// evidence excerpt would be cut inside a character.
    pub fn scan(&self, files: &Vec<SourceFile>, env_files: &Vec<String>) -> (r: Option<(Vec<AuditFinding>, usize)>)
        requires
            files@.len() + env_files@.len() <= usize::MAX,
        ensures
            match r {
                Some((found, count)) => {
                    &&& patterns_compile(builtin_rules())
                    &&& files_scan_ok(seq![], builtin_rules(), files@)
                    &&& finding_views(found@) == by_severity(
                        files_scan(seq![], builtin_rules(), files@) + env_views(env_files@),
                    )
                    &&& count == files@.len() + env_files@.len()
                },
                None => !(patterns_compile(builtin_rules()) && files_scan_ok(seq![], builtin_rules(), files@)),
            },
    {
        let rules = build_rules();
        assert(rule_entries(rules@) =~= builtin_rules());
        let mut j: usize = 0;
        while j < rules.len()
            invariant
                rules@.len() == RULE_COUNT,
                rule_entries(rules@) == builtin_rules(),
                j <= rules@.len(),
                forall|q: int| 0 <= q < j ==> regex_compiles(#[trigger] builtin_rules()[q].5),
            decreases rules.len() - j,
        {
            assert(builtin_rules()[j as int] == rules@[j as int].entry());
            if !regex_valid(rules[j].pattern.as_str()) {
                assert(!regex_compiles(builtin_rules()[j as int].5));
                return None;
            }
            j = j + 1;
        }
        let mut findings: Vec<AuditFinding> = Vec::new();
        let mut i: usize = 0;
        assert(finding_views(findings@) =~= Seq::<FindingView>::empty());
        while i < files.len()
            invariant
                rule_entries(rules@) == builtin_rules(),
                patterns_compile(builtin_rules()),
                i <= files@.len(),
                files_scan_ok(seq![], builtin_rules(), files@.subrange(0, i as int)),
                finding_views(findings@) == files_scan(seq![], builtin_rules(), files@.subrange(0, i as int)),
            decreases files.len() - i,
        {
            let f = &files[i];
            assert(files@.subrange(0, i + 1).drop_last() == files@.subrange(0, i as int));
            if !scan_file_content(&rules, f.rel_path.as_str(), f.ext.as_str(), f.content.as_str(), &mut findings) {
                proof {
                    assert(files@.subrange(0, i + 1).last() == *f);
                    assert(!files_scan_ok(seq![], builtin_rules(), files@.subrange(0, i + 1)));
                    if files_scan_ok(seq![], builtin_rules(), files@) {
                        lemma_files_ok_prefix(seq![], builtin_rules(), files@, i + 1);
                    }
                }
                return None;
            }
            i = i + 1;
        }
        assert(files@.subrange(0, files@.len() as int) == files@);
        let ghost scanned = finding_views(findings@);
        let mut e: usize = 0;
        while e < env_files.len()
            invariant
                e <= env_files@.len(),
                finding_views(findings@) == scanned + env_views(env_files@.subrange(0, e as int)),
            decreases env_files.len() - e,
        {
            let ghost before = finding_views(findings@);
            findings.push(env_finding(env_files[e].as_str()));
            assert(finding_views(findings@) == before.push(env_finding_view(env_files@[e as int]@)));
            assert(env_views(env_files@.subrange(0, e + 1)) == env_views(env_files@.subrange(0, e as int)).push(
                env_finding_view(env_files@[e as int]@),
            ));
            e = e + 1;
        }
        assert(env_files@.subrange(0, env_files@.len() as int) == env_files@);
        let count = files.len() + env_files.len();
        Some((sort_by_severity(findings), count))
    }
}

/// A prefix of a file list that scans without panic scans without panic
/// on every shorter prefix.
proof fn lemma_files_ok_prefix(acc: Seq<FindingView>, rules: Seq<ScanRuleEntry>, files: Seq<SourceFile>, n: int)
    requires
        0 <= n <= files.len(),
        files_scan_ok(acc, rules, files),
    ensures
        files_scan_ok(acc, rules, files.subrange(0, n)),
    decreases files.len(),
{
    if n < files.len() {
        assert(files.drop_last() == files.subrange(0, files.len() - 1));
        lemma_files_ok_prefix(acc, rules, files.drop_last(), n);
        assert(files.drop_last().subrange(0, n) == files.subrange(0, n));
    } else {
        assert(files.subrange(0, n) == files);
    }
}

} // verus!
