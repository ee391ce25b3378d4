//! Simulated attack probes against the application's own security
//! controls: the probe inputs, and the verdict of each probe from what was
//! observed when the inputs were tried.
use vstd::prelude::*;
use vstd::string::StringSliceAdditionalSpecFns;
use vstd::utf8::encode_utf8;

use crate::text::{decimal, decimal_string, has_sub, owned, starts, str_contains, str_starts_with};

use super::report::AttackTestResult;

verus! {

/// A probe result as plain values: identifier, name, description, MITRE
/// technique, whether it passed, details.
pub type ProbeView = (Seq<char>, Seq<char>, Seq<char>, Seq<char>, bool, Seq<char>);

/// The probe result as plain values.
pub open spec fn probe_view(r: AttackTestResult) -> ProbeView {
    (r.test_id@, r.name@, r.description@, r.mitre_technique@, r.passed, r.details@)
}

fn probe(id: &str, name: &str, description: &str, mitre: &str, passed: bool, details: &str) -> (r: AttackTestResult)
    ensures
        probe_view(r) == (id@, name@, description@, mitre@, passed, details@),
{
    AttackTestResult {
        test_id: owned(id),
        name: owned(name),
        description: owned(description),
        mitre_technique: owned(mitre),
        passed,
        details: owned(details),
    }
}

/// Some entry of the list is set.
pub open spec fn any_set(v: Seq<bool>) -> bool {
    exists|i: int| 0 <= i < v.len() && v[i]
}

fn any_true(v: &Vec<bool>) -> (r: bool)
    ensures
        r == any_set(v@),
{
    let mut i: usize = 0;
    while i < v.len()
        invariant
            i <= v@.len(),
            forall|k: int| 0 <= k < i ==> !v@[k],
        decreases v.len() - i,
    {
        if v[i] {
            return true;
        }
        i = i + 1;
    }
    false
}

/// How many texts of `s` start with `p`.
pub open spec fn count_prefixed(s: Seq<Seq<char>>, p: Seq<char>) -> nat
    decreases s.len(),
{
    if s.len() == 0 {
        0
    } else {
        count_prefixed(s.drop_last(), p) + if starts(s.last(), p) {
            1nat
        } else {
            0nat
        }
    }
}

proof fn lemma_count_prefixed_bounded(s: Seq<Seq<char>>, p: Seq<char>)
    ensures
        count_prefixed(s, p) <= s.len(),
    decreases s.len(),
{
    if s.len() > 0 {
        lemma_count_prefixed_bounded(s.drop_last(), p);
    }
}

/// The texts held by a list of strings.
pub open spec fn texts(v: Seq<String>) -> Seq<Seq<char>> {
    v.map_values(|s: String| s@)
}

/// A sanitized text still carries markup or a script URL.
pub open spec fn unfiltered(s: Seq<char>) -> bool {
    has_sub(s, "<"@) || has_sub(s, "javascript:"@)
}

/// The scenarios expected under the MITRE catalogue.
pub const EXPECTED_MITRE_SCENARIOS: usize = 56;

/// The tactic directories expected under the MITRE catalogue.
pub const EXPECTED_TACTIC_DIRS: usize = 14;

/// What the probes observed when their inputs were tried against the
/// application: each list holds one entry per probe input, in the order
/// the input lists give them.
#[derive(Debug, Clone)]
pub struct ProbeObservations {
    /// Length of the stored hash of the default password.
    pub default_hash_len: usize,
    /// Length of the stored hash of a sample password.
    pub sample_hash_len: usize,
    /// For each fake token, whether the token parser accepted it.
    pub fake_tokens_accepted: Vec<bool>,
    /// The middleware source, where it could be read.
    pub middleware_source: Option<String>,
    /// For each SQL injection payload, whether a scenario loaded by it.
    pub injection_loaded: Vec<bool>,
    /// For each path traversal identifier, whether a scenario loaded by it.
    pub traversal_loaded: Vec<bool>,
    /// Each XSS payload after input sanitization.
    pub sanitized_payloads: Vec<String>,
    /// For each invalid session identifier, whether validation accepted it.
    pub invalid_ids_accepted: Vec<bool>,
    /// Whether the token parser accepted an empty token.
    pub empty_token_accepted: bool,
    /// The identifiers of all scenarios that loaded.
    pub scenario_ids: Vec<String>,
    /// Whether the MITRE scenario directory exists.
    pub mitre_dir_exists: bool,
    /// How many directories it holds.
    pub mitre_dir_count: usize,
    /// The detection rules file, where it exists and could be read.
    pub rules_file: Option<String>,
}

pub open spec fn default_credentials_view(flagged: bool) -> ProbeView {
    ("ATK-001"@, "Varsayılan Kimlik Bilgileri Saldırısı"@, "admin/admin123 varsayılan kimlik bilgileri ile giriş denemesi simülasyonu"@, "T1078.001"@, !flagged, if flagged { "Zayıf hash algoritması ve bilinen varsayılan parola (admin123) tespit edildi."@ } else { "Varsayılan kimlik bilgileri güvenli hash ile korunuyor."@ })
}

pub open spec fn weak_password_hash_view(flagged: bool) -> ProbeView {
    ("ATK-002"@, "Zayıf Parola Hash Saldırısı"@, "Rainbow table / brute force saldırısına karşı hash gücü testi"@, "T1110.002"@, !flagged, if flagged { "DefaultHasher kullanılıyor — kriptografik olmayan, hızlı hash. Brute force'a açık."@ } else { "Güçlü hash algoritması kullanılıyor."@ })
}

pub open spec fn token_bypass_view(flagged: bool) -> ProbeView {
    ("ATK-003"@, "Token Bypass Saldırısı"@, "Geçersiz/boş token ile auth bypass denemesi"@, "T1078"@, !flagged, if flagged { "Geçersiz token ile auth bypass mümkün!"@ } else { "Geçersiz token'lar reddediliyor."@ })
}

pub open spec fn static_api_key_view(flagged: bool) -> ProbeView {
    ("ATK-004"@, "Statik API Anahtarı Saldırısı"@, "Hardcoded API anahtarı ile yetkisiz erişim denemesi"@, "T1552.001"@, !flagged, if flagged { "SOC-SIM-SECURE-KEY-2026 statik anahtarı middleware'de bulundu — auth bypass riski!"@ } else { "Statik API anahtarı tespit edilmedi."@ })
}

pub open spec fn sql_injection_scenario_id_view(flagged: bool) -> ProbeView {
    ("ATK-005"@, "SQL Injection — Senaryo ID"@, "Senaryo ID parametresine SQL injection payload enjeksiyonu"@, "T1190"@, !flagged, if flagged { "SQL injection payload'ı ile senaryo yüklenebildi!"@ } else { "SQL injection payload'ları senaryo yükleyicide etkisiz."@ })
}

pub open spec fn path_traversal_scenario_view(flagged: bool) -> ProbeView {
    ("ATK-006"@, "Path Traversal — Dosya Erişimi"@, "Path traversal ile sistem dosyalarına erişim denemesi"@, "T1083"@, !flagged, if flagged { "Path traversal ile yetkisiz dosya erişimi mümkün!"@ } else { "Path traversal saldırıları engellenmiş."@ })
}

pub open spec fn xss_analyst_name_view(flagged: bool) -> ProbeView {
    ("ATK-007"@, "XSS — Analist Adı Enjeksiyonu"@, "Analist adı alanına XSS payload enjeksiyonu"@, "T1059.007"@, !flagged, if flagged { "XSS payload'ları sanitize edilmeden geçiyor!"@ } else { "XSS payload'ları ya filtreleniyor ya da uzunluk kısıtlaması ile sınırlandırılıyor (HTML encoding önerilir)."@ })
}

pub open spec fn session_id_validation_view(flagged: bool) -> ProbeView {
    ("ATK-008"@, "Oturum ID Doğrulama"@, "Geçersiz oturum ID'leri ile erişim denemesi"@, "T1078"@, !flagged, if flagged { "Geçersiz oturum ID'leri kabul ediliyor!"@ } else { "Oturum ID doğrulaması çalışıyor."@ })
}

pub open spec fn empty_auth_token_view(flagged: bool) -> ProbeView {
    ("ATK-009"@, "Boş Auth Token"@, "Boş authorization token ile erişim denemesi"@, "T1078"@, !flagged, if flagged { "Boş token kabul ediliyor!"@ } else { "Boş token reddediliyor."@ })
}

pub open spec fn mitre_scenario_integrity_view(mitre_count: nat, total: nat) -> ProbeView {
    (
        "ATK-010"@,
        "MITRE Senaryo Bütünlüğü"@,
        "56 MITRE ATT&CK senaryosunun varlık ve yüklenebilirlik kontrolü"@,
        "TA0001"@,
        mitre_count >= EXPECTED_MITRE_SCENARIOS,
        "Beklenen: 56 MITRE senaryo, Bulunan: "@ + decimal(mitre_count) + " (Toplam: "@ + decimal(total) + ")"@,
    )
}

/// `count` is the number of directories found, which counts only where the
/// directory exists.
pub open spec fn scenario_file_permissions_view(exists: bool, count: nat) -> ProbeView {
    (
        "ATK-011"@,
        "Senaryo Dosya Yapısı"@,
        "MITRE senaryo dizin yapısı ve erişilebilirlik kontrolü"@,
        "T1083"@,
        exists && count >= EXPECTED_TACTIC_DIRS,
        "MITRE dizini: "@ + (if exists { "mevcut"@ } else { "eksik"@ }) + ", Taktik klasör sayısı: "@ + decimal(
            if exists {
                count
            } else {
                0
            },
        )
            + " (beklenen: 14)"@,
    )
}

pub open spec fn detection_rules_exist_view(has_content: bool) -> ProbeView {
    ("ATK-012"@, "Tespit Kuralları Varlığı"@, "Detection rules yapılandırmasının varlık kontrolü"@, "T1562.001"@, has_content, if has_content { "Detection rules yapılandırması mevcut ve dolu."@ } else { "Detection rules eksik veya boş — saldırılar tespit edilemeyebilir!"@ })
}

/// The verdicts of all probes, in order, from the observations.
pub open spec fn all_probe_views(o: ProbeObservations) -> Seq<ProbeView> {
    seq![
        default_credentials_view(o.default_hash_len < 64),
        weak_password_hash_view(o.sample_hash_len == 32),
        token_bypass_view(any_set(o.fake_tokens_accepted@)),
        static_api_key_view(
            match o.middleware_source {
                Some(c) => has_sub(c@, "SOC-SIM-SECURE-KEY"@),
                None => false,
            },
        ),
        sql_injection_scenario_id_view(any_set(o.injection_loaded@)),
        path_traversal_scenario_view(any_set(o.traversal_loaded@)),
        xss_analyst_name_view(exists|i: int| 0 <= i < o.sanitized_payloads@.len() && unfiltered(#[trigger] o.sanitized_payloads@[i]@)),
        session_id_validation_view(any_set(o.invalid_ids_accepted@)),
        empty_auth_token_view(o.empty_token_accepted),
        mitre_scenario_integrity_view(count_prefixed(texts(o.scenario_ids@), "mitre-"@), o.scenario_ids@.len()),
        scenario_file_permissions_view(o.mitre_dir_exists, o.mitre_dir_count as nat),
        detection_rules_exist_view(
            match o.rules_file {
                Some(c) => encode_utf8(c@).len() > 50,
                None => false,
            },
        ),
    ]
}

/// Tokens that must not pass the token parser.
pub fn fake_tokens() -> (r: Vec<&'static str>)
    ensures
        r@.map_values(|t: &str| t@) == seq![""@, "invalid"@, "admin:admin:9999999999:deadbeef"@, "Bearer null"@],
{
    let r: Vec<&'static str> = vec!["", "invalid", "admin:admin:9999999999:deadbeef", "Bearer null"];
    assert(r@.map_values(|t: &str| t@) =~= seq![""@, "invalid"@, "admin:admin:9999999999:deadbeef"@, "Bearer null"@]);
    r
}

/// SQL injection payloads tried as scenario identifiers.
pub fn injection_payloads() -> (r: Vec<&'static str>)
    ensures
        r@.map_values(|t: &str| t@) == seq!["' OR 1=1--"@, "1; DROP TABLE sessions;--"@, "admin' UNION SELECT * FROM users--"@],
{
    let r: Vec<&'static str> = vec!["' OR 1=1--", "1; DROP TABLE sessions;--", "admin' UNION SELECT * FROM users--"];
    assert(r@.map_values(|t: &str| t@) =~= seq!["' OR 1=1--"@, "1; DROP TABLE sessions;--"@, "admin' UNION SELECT * FROM users--"@]);
    r
}

/// Path traversal identifiers tried as scenario identifiers.
pub fn traversal_ids() -> (r: Vec<&'static str>)
    ensures
        r@.map_values(|t: &str| t@) == seq![
            "../../../etc/passwd"@,
            "..\\..\\..\\windows\\system32\\config\\sam"@,
            "mitre/../../config/simulator.toml"@,
        ],
{
    let r: Vec<&'static str> = vec![
        "../../../etc/passwd",
        "..\\..\\..\\windows\\system32\\config\\sam",
        "mitre/../../config/simulator.toml",
    ];
    assert(r@.map_values(|t: &str| t@) =~= seq![
        "../../../etc/passwd"@,
        "..\\..\\..\\windows\\system32\\config\\sam"@,
        "mitre/../../config/simulator.toml"@,
    ]);
    r
}

/// XSS payloads given to input sanitization.
pub fn xss_payloads() -> (r: Vec<&'static str>)
    ensures
        r@.map_values(|t: &str| t@) == seq![
            "<script>alert('xss')</script>"@,
            "<img src=x onerror=alert(1)>"@,
            "javascript:alert(document.cookie)"@,
        ],
{
    let r: Vec<&'static str> = vec![
        "<script>alert('xss')</script>",
        "<img src=x onerror=alert(1)>",
        "javascript:alert(document.cookie)",
    ];
    assert(r@.map_values(|t: &str| t@) =~= seq![
        "<script>alert('xss')</script>"@,
        "<img src=x onerror=alert(1)>"@,
        "javascript:alert(document.cookie)"@,
    ]);
    r
}

/// Session identifiers that validation must refuse: the empty one, one
/// hundred `a`s, and a traversal path.
pub fn invalid_session_ids() -> (r: Vec<String>)
    ensures
        texts(r@) == seq![""@, Seq::new(100, |i: int| 'a'), "../../../etc/passwd"@],
{
    let mut long: Vec<char> = Vec::new();
    let mut i: usize = 0;
    while i < 100
        invariant
            i <= 100,
            long@ == Seq::new(i as nat, |k: int| 'a'),
        decreases 100 - i,
    {
        long.push('a');
        i = i + 1;
        assert(long@ =~= Seq::new(i as nat, |k: int| 'a'));
    }
    let r: Vec<String> = vec![String::from_str(""), crate::text::string_from_chars(&long), String::from_str("../../../etc/passwd")];
    assert(texts(r@) =~= seq![""@, Seq::new(100, |i: int| 'a'), "../../../etc/passwd"@]);
    r
}

/// Simulated attack probes against the application's own security
/// controls.
#[derive(Debug, Clone)]
pub struct AttackSimulator {
    pub base_dir: String,
    pub scenario_dir: String,
}

impl AttackSimulator {
    pub fn new(base_dir: &str, scenario_dir: &str) -> (r: Self)
        ensures
            r.base_dir@ == base_dir@,
            r.scenario_dir@ == scenario_dir@,
    {
        AttackSimulator { base_dir: owned(base_dir), scenario_dir: owned(scenario_dir) }
    }

    pub fn test_default_credentials(&self, hash_len: usize) -> (r: AttackTestResult)
        ensures
            probe_view(r) == default_credentials_view(hash_len < 64),
    {
        let weak = hash_len < 64;
        let details = if weak {
            "Zayıf hash algoritması ve bilinen varsayılan parola (admin123) tespit edildi."
        } else {
            "Varsayılan kimlik bilgileri güvenli hash ile korunuyor."
        };
        probe("ATK-001", "Varsayılan Kimlik Bilgileri Saldırısı", "admin/admin123 varsayılan kimlik bilgileri ile giriş denemesi simülasyonu", "T1078.001", !weak, details)
    }

    pub fn test_weak_password_hash(&self, hash_len: usize) -> (r: AttackTestResult)
        ensures
            probe_view(r) == weak_password_hash_view(hash_len == 32),
    {
        let weak = hash_len == 32;
        let details = if weak {
            "DefaultHasher kullanılıyor — kriptografik olmayan, hızlı hash. Brute force'a açık."
        } else {
            "Güçlü hash algoritması kullanılıyor."
        };
        probe("ATK-002", "Zayıf Parola Hash Saldırısı", "Rainbow table / brute force saldırısına karşı hash gücü testi", "T1110.002", !weak, details)
    }

    pub fn test_token_bypass(&self, accepted: &Vec<bool>) -> (r: AttackTestResult)
        ensures
            probe_view(r) == token_bypass_view(any_set(accepted@)),
    {
        let bypass = any_true(accepted);
        let details = if bypass {
            "Geçersiz token ile auth bypass mümkün!"
        } else {
            "Geçersiz token'lar reddediliyor."
        };
        probe("ATK-003", "Token Bypass Saldırısı", "Geçersiz/boş token ile auth bypass denemesi", "T1078", !bypass, details)
    }

    pub fn test_static_api_key(&self, source: &Option<String>) -> (r: AttackTestResult)
        ensures
            probe_view(r) == static_api_key_view(match source {
                Some(c) => has_sub(c@, "SOC-SIM-SECURE-KEY"@),
                None => false,
            }),
    {
        let found = match source {
            Some(c) => str_contains(c.as_str(), "SOC-SIM-SECURE-KEY"),
            None => false,
        };
        let details = if found {
            "SOC-SIM-SECURE-KEY-2026 statik anahtarı middleware'de bulundu — auth bypass riski!"
        } else {
            "Statik API anahtarı tespit edilmedi."
        };
        probe("ATK-004", "Statik API Anahtarı Saldırısı", "Hardcoded API anahtarı ile yetkisiz erişim denemesi", "T1552.001", !found, details)
    }

    pub fn test_sql_injection_scenario_id(&self, loaded: &Vec<bool>) -> (r: AttackTestResult)
        ensures
            probe_view(r) == sql_injection_scenario_id_view(any_set(loaded@)),
    {
        let possible = any_true(loaded);
        let details = if possible {
            "SQL injection payload'ı ile senaryo yüklenebildi!"
        } else {
            "SQL injection payload'ları senaryo yükleyicide etkisiz."
        };
        probe("ATK-005", "SQL Injection — Senaryo ID", "Senaryo ID parametresine SQL injection payload enjeksiyonu", "T1190", !possible, details)
    }

    pub fn test_path_traversal_scenario(&self, loaded: &Vec<bool>) -> (r: AttackTestResult)
        ensures
            probe_view(r) == path_traversal_scenario_view(any_set(loaded@)),
    {
        let possible = any_true(loaded);
        let details = if possible {
            "Path traversal ile yetkisiz dosya erişimi mümkün!"
        } else {
            "Path traversal saldırıları engellenmiş."
        };
        probe("ATK-006", "Path Traversal — Dosya Erişimi", "Path traversal ile sistem dosyalarına erişim denemesi", "T1083", !possible, details)
    }

    pub fn test_xss_analyst_name(&self, sanitized: &Vec<String>) -> (r: AttackTestResult)
        ensures
            probe_view(r) == xss_analyst_name_view(exists|i: int| 0 <= i < sanitized@.len() && unfiltered(#[trigger] sanitized@[i]@)),
    {
        let mut found = false;
        let mut i: usize = 0;
        while i < sanitized.len()
            invariant
                i <= sanitized@.len(),
                found == exists|k: int| 0 <= k < i && unfiltered(#[trigger] sanitized@[k]@),
            decreases sanitized.len() - i,
        {
            let t = sanitized[i].as_str();
            if str_contains(t, "<") || str_contains(t, "javascript:") {
                found = true;
            }
            i = i + 1;
        }
        let details = if found {
            "XSS payload'ları sanitize edilmeden geçiyor!"
        } else {
            "XSS payload'ları ya filtreleniyor ya da uzunluk kısıtlaması ile sınırlandırılıyor (HTML encoding önerilir)."
        };
        probe("ATK-007", "XSS — Analist Adı Enjeksiyonu", "Analist adı alanına XSS payload enjeksiyonu", "T1059.007", !found, details)
    }

    pub fn test_session_id_validation(&self, accepted: &Vec<bool>) -> (r: AttackTestResult)
        ensures
            probe_view(r) == session_id_validation_view(any_set(accepted@)),
    {
        let accepted_any = any_true(accepted);
        let details = if accepted_any {
            "Geçersiz oturum ID'leri kabul ediliyor!"
        } else {
            "Oturum ID doğrulaması çalışıyor."
        };
        probe("ATK-008", "Oturum ID Doğrulama", "Geçersiz oturum ID'leri ile erişim denemesi", "T1078", !accepted_any, details)
    }

    pub fn test_empty_auth_token(&self, accepted: bool) -> (r: AttackTestResult)
        ensures
            probe_view(r) == empty_auth_token_view(accepted),
    {
        let details = if accepted {
            "Boş token kabul ediliyor!"
        } else {
            "Boş token reddediliyor."
        };
        probe("ATK-009", "Boş Auth Token", "Boş authorization token ile erişim denemesi", "T1078", !accepted, details)
    }

    pub fn test_mitre_scenario_integrity(&self, scenario_ids: &Vec<String>) -> (r: AttackTestResult)
        ensures
            probe_view(r) == mitre_scenario_integrity_view(count_prefixed(texts(scenario_ids@), "mitre-"@), scenario_ids@.len()),
    {
        let ghost ts = texts(scenario_ids@);
        let mut count: usize = 0;
        let mut i: usize = 0;
        while i < scenario_ids.len()
            invariant
                ts == texts(scenario_ids@),
                i <= scenario_ids@.len(),
                count == count_prefixed(ts.subrange(0, i as int), "mitre-"@),
            decreases scenario_ids.len() - i,
        {
            proof {
                lemma_count_prefixed_bounded(ts.subrange(0, i as int), "mitre-"@);
            }
            assert(ts.subrange(0, i + 1).drop_last() == ts.subrange(0, i as int));
            assert(ts.subrange(0, i + 1).last() == scenario_ids@[i as int]@);
            if str_starts_with(scenario_ids[i].as_str(), "mitre-") {
                count = count + 1;
            }
            i = i + 1;
        }
        assert(ts.subrange(0, scenario_ids@.len() as int) == ts);
        let mut details = String::from_str("Beklenen: 56 MITRE senaryo, Bulunan: ");
        details.append(decimal_string(count as u64).as_str());
        details.append(" (Toplam: ");
        details.append(decimal_string(scenario_ids.len() as u64).as_str());
        details.append(")");
        probe("ATK-010", "MITRE Senaryo Bütünlüğü", "56 MITRE ATT&CK senaryosunun varlık ve yüklenebilirlik kontrolü", "TA0001", count >= EXPECTED_MITRE_SCENARIOS, details.as_str())
    }

    pub fn test_scenario_file_permissions(&self, exists: bool, dir_count: usize) -> (r: AttackTestResult)
        ensures
            probe_view(r) == scenario_file_permissions_view(exists, dir_count as nat),
    {
        let count: usize = if exists {
            dir_count
        } else {
            0
        };
        let mut details = String::from_str("MITRE dizini: ");
        details.append(if exists {
            "mevcut"
        } else {
            "eksik"
        });
        details.append(", Taktik klasör sayısı: ");
        details.append(decimal_string(count as u64).as_str());
        details.append(" (beklenen: 14)");
        probe("ATK-011", "Senaryo Dosya Yapısı", "MITRE senaryo dizin yapısı ve erişilebilirlik kontrolü", "T1083", exists && count >= EXPECTED_TACTIC_DIRS, details.as_str())
    }

    pub fn test_detection_rules_exist(&self, rules_file: &Option<String>) -> (r: AttackTestResult)
        ensures
            probe_view(r) == detection_rules_exist_view(match rules_file {
                Some(c) => encode_utf8(c@).len() > 50,
                None => false,
            }),
    {
        let has_content = match rules_file {
            Some(c) => {
                let cs = c.as_str();
                assert(cs.spec_bytes() == encode_utf8(cs@));
                cs.as_bytes().len() > 50
            },
            None => false,
        };
        let details = if has_content {
            "Detection rules yapılandırması mevcut ve dolu."
        } else {
            "Detection rules eksik veya boş — saldırılar tespit edilemeyebilir!"
        };
        probe("ATK-012", "Tespit Kuralları Varlığı", "Detection rules yapılandırmasının varlık kontrolü", "T1562.001", has_content, details)
    }

    /// The verdict of every probe, in order, from what the probes observed.
    pub fn run_all(&self, obs: &ProbeObservations) -> (r: Vec<AttackTestResult>)
        ensures
            r@.map_values(|x: AttackTestResult| probe_view(x)) == all_probe_views(*obs),
    {
        let r: Vec<AttackTestResult> = vec![
            self.test_default_credentials(obs.default_hash_len),
            self.test_weak_password_hash(obs.sample_hash_len),
            self.test_token_bypass(&obs.fake_tokens_accepted),
            self.test_static_api_key(&obs.middleware_source),
            self.test_sql_injection_scenario_id(&obs.injection_loaded),
            self.test_path_traversal_scenario(&obs.traversal_loaded),
            self.test_xss_analyst_name(&obs.sanitized_payloads),
            self.test_session_id_validation(&obs.invalid_ids_accepted),
            self.test_empty_auth_token(obs.empty_token_accepted),
            self.test_mitre_scenario_integrity(&obs.scenario_ids),
            self.test_scenario_file_permissions(obs.mitre_dir_exists, obs.mitre_dir_count),
            self.test_detection_rules_exist(&obs.rules_file),
        ];
        assert(r@.map_values(|x: AttackTestResult| probe_view(x)) =~= all_probe_views(*obs));
        r
    }
}

} // verus!
