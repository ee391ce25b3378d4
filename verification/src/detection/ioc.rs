//! Known indicators of compromise, used to enrich detections.
use vstd::prelude::*;

use crate::text::{all_ascii, ascii_lower, has_sub, lower, occurs_at, owned, str_contains, str_eq, str_lower};

verus! {

/// The texts held by a list of strings.
pub open spec fn texts(v: Seq<String>) -> Seq<Seq<char>> {
    v.map_values(|s: String| s@)
}

/// Some entry of `list` occurs in `text`.
pub open spec fn any_in(list: Seq<String>, text: Seq<char>) -> bool {
    exists|i: int| 0 <= i < list.len() && has_sub(text, #[trigger] list[i]@)
}

/// Some entry of `list` equals `text`.
pub open spec fn listed(list: Seq<String>, text: Seq<char>) -> bool {
    exists|i: int| 0 <= i < list.len() && #[trigger] list[i]@ == text
}

/// Whether some entry of `list` occurs in `text`.
pub fn any_occurs(list: &Vec<String>, text: &str) -> (r: bool)
    ensures
        r == any_in(list@, text@),
{
    let mut i: usize = 0;
    while i < list.len()
        invariant
            i <= list@.len(),
            forall|j: int| 0 <= j < i ==> !has_sub(text@, #[trigger] list@[j]@),
        decreases list.len() - i,
    {
        if str_contains(text, list[i].as_str()) {
            return true;
        }
        i = i + 1;
    }
    false
}

/// Whether some entry of `list` equals `text`.
pub fn is_listed(list: &Vec<String>, text: &str) -> (r: bool)
    ensures
        r == listed(list@, text@),
{
    let mut i: usize = 0;
    while i < list.len()
        invariant
            i <= list@.len(),
            forall|j: int| 0 <= j < i ==> #[trigger] list@[j]@ != text@,
        decreases list.len() - i,
    {
        if str_eq(list[i].as_str(), text) {
            return true;
        }
        i = i + 1;
    }
    false
}

/// A set of known Indicators of Compromise (IOCs) used for enrichment.
#[derive(Debug, Clone, Default)]
pub struct IocList {
    pub malicious_ips: Vec<String>,
    pub malicious_domains: Vec<String>,
    pub malicious_hashes: Vec<String>,
    pub malicious_filenames: Vec<String>,
}

/// The known-bad addresses of the simulator's scenarios.
pub open spec fn default_ips() -> Seq<Seq<char>> {
    seq![
        "185.234.218.42"@,
        "45.142.212.100"@,
        "198.51.100.22"@,
        "203.0.113.50"@,
        "45.33.32.156"@,
        "192.168.50.100"@,
        "198.51.100.77"@,
        "203.0.113.88"@,
        "45.142.212.200"@,
        "203.0.113.100"@,
        "104.18.22.200"@,
    ]
}

/// The known-bad domains.
pub open spec fn default_domains() -> Seq<Seq<char>> {
    seq![
        "exfil.attacker-c2.com"@,
        "evil.com"@,
        "attacker-c2.com"@,
        "company-update.net"@,
        "company-corp.net"@,
        "malware-host.ru"@,
    ]
}

/// The known-bad file hashes (MD5).
pub open spec fn default_hashes() -> Seq<Seq<char>> {
    seq![
        "4d41f4f4f3f3a1b2c3d4e5f6a7b8c9d0"@,
        "aabbccddeeff00112233445566778899"@,
        "deadbeefcafebabedeadbeefcafebabe"@,
    ]
}

/// The known-bad file names.
pub open spec fn default_filenames() -> Seq<Seq<char>> {
    seq![
        "mimikatz.exe"@,
        "encrypt.exe"@,
        "svchost32.exe"@,
        "image_2024.php"@,
        "upd_helper.exe"@,
        "psexec.exe"@,
    ]
}

/// No indicator of `default_ips` is listed twice.
proof fn lemma_default_ips_distinct()
    ensures
        default_ips().no_duplicates(),
{
    reveal_strlit("185.234.218.42");
    reveal_strlit("45.142.212.100");
    reveal_strlit("198.51.100.22");
    reveal_strlit("203.0.113.50");
    reveal_strlit("45.33.32.156");
    reveal_strlit("192.168.50.100");
    reveal_strlit("198.51.100.77");
    reveal_strlit("203.0.113.88");
    reveal_strlit("45.142.212.200");
    reveal_strlit("203.0.113.100");
    reveal_strlit("104.18.22.200");
    let d = default_ips();
    assert forall|i: int, j: int| 0 <= i < j < 11 implies d[i] != d[j] by {
        if i == 0 && j == 1 {
            assert(d[0][0] != d[1][0]);
        } else if i == 0 && j == 2 {
            assert(d[0].len() != d[2].len());
        } else if i == 0 && j == 3 {
            assert(d[0].len() != d[3].len());
        } else if i == 0 && j == 4 {
            assert(d[0].len() != d[4].len());
        } else if i == 0 && j == 5 {
            assert(d[0][1] != d[5][1]);
        } else if i == 0 && j == 6 {
            assert(d[0].len() != d[6].len());
        } else if i == 0 && j == 7 {
            assert(d[0].len() != d[7].len());
        } else if i == 0 && j == 8 {
            assert(d[0][0] != d[8][0]);
        } else if i == 0 && j == 9 {
            assert(d[0].len() != d[9].len());
        } else if i == 0 && j == 10 {
            assert(d[0].len() != d[10].len());
        } else if i == 1 && j == 2 {
            assert(d[1].len() != d[2].len());
        } else if i == 1 && j == 3 {
            assert(d[1].len() != d[3].len());
        } else if i == 1 && j == 4 {
            assert(d[1].len() != d[4].len());
        } else if i == 1 && j == 5 {
            assert(d[1][0] != d[5][0]);
        } else if i == 1 && j == 6 {
            assert(d[1].len() != d[6].len());
        } else if i == 1 && j == 7 {
            assert(d[1].len() != d[7].len());
        } else if i == 1 && j == 8 {
            assert(d[1][11] != d[8][11]);
        } else if i == 1 && j == 9 {
            assert(d[1].len() != d[9].len());
        } else if i == 1 && j == 10 {
            assert(d[1].len() != d[10].len());
        } else if i == 2 && j == 3 {
            assert(d[2].len() != d[3].len());
        } else if i == 2 && j == 4 {
            assert(d[2].len() != d[4].len());
        } else if i == 2 && j == 5 {
            assert(d[2].len() != d[5].len());
        } else if i == 2 && j == 6 {
            assert(d[2][11] != d[6][11]);
        } else if i == 2 && j == 7 {
            assert(d[2].len() != d[7].len());
        } else if i == 2 && j == 8 {
            assert(d[2].len() != d[8].len());
        } else if i == 2 && j == 9 {
            assert(d[2][0] != d[9][0]);
        } else if i == 2 && j == 10 {
            assert(d[2][1] != d[10][1]);
        } else if i == 3 && j == 4 {
            assert(d[3][0] != d[4][0]);
        } else if i == 3 && j == 5 {
            assert(d[3].len() != d[5].len());
        } else if i == 3 && j == 6 {
            assert(d[3].len() != d[6].len());
        } else if i == 3 && j == 7 {
            assert(d[3][10] != d[7][10]);
        } else if i == 3 && j == 8 {
            assert(d[3].len() != d[8].len());
        } else if i == 3 && j == 9 {
            assert(d[3].len() != d[9].len());
        } else if i == 3 && j == 10 {
            assert(d[3].len() != d[10].len());
        } else if i == 4 && j == 5 {
            assert(d[4].len() != d[5].len());
        } else if i == 4 && j == 6 {
            assert(d[4].len() != d[6].len());
        } else if i == 4 && j == 7 {
            assert(d[4][0] != d[7][0]);
        } else if i == 4 && j == 8 {
            assert(d[4].len() != d[8].len());
        } else if i == 4 && j == 9 {
            assert(d[4].len() != d[9].len());
        } else if i == 4 && j == 10 {
            assert(d[4].len() != d[10].len());
        } else if i == 5 && j == 6 {
            assert(d[5].len() != d[6].len());
        } else if i == 5 && j == 7 {
            assert(d[5].len() != d[7].len());
        } else if i == 5 && j == 8 {
            assert(d[5][0] != d[8][0]);
        } else if i == 5 && j == 9 {
            assert(d[5].len() != d[9].len());
        } else if i == 5 && j == 10 {
            assert(d[5].len() != d[10].len());
        } else if i == 6 && j == 7 {
            assert(d[6].len() != d[7].len());
        } else if i == 6 && j == 8 {
            assert(d[6].len() != d[8].len());
        } else if i == 6 && j == 9 {
            assert(d[6][0] != d[9][0]);
        } else if i == 6 && j == 10 {
            assert(d[6][1] != d[10][1]);
        } else if i == 7 && j == 8 {
            assert(d[7].len() != d[8].len());
        } else if i == 7 && j == 9 {
            assert(d[7].len() != d[9].len());
        } else if i == 7 && j == 10 {
            assert(d[7].len() != d[10].len());
        } else if i == 8 && j == 9 {
            assert(d[8].len() != d[9].len());
        } else if i == 8 && j == 10 {
            assert(d[8].len() != d[10].len());
        } else if i == 9 && j == 10 {
            assert(d[9][0] != d[10][0]);
        }
    }
    assert(default_ips().no_duplicates());
}

/// No indicator of `default_domains` is listed twice.
proof fn lemma_default_domains_distinct()
    ensures
        default_domains().no_duplicates(),
{
    reveal_strlit("exfil.attacker-c2.com");
    reveal_strlit("evil.com");
    reveal_strlit("attacker-c2.com");
    reveal_strlit("company-update.net");
    reveal_strlit("company-corp.net");
    reveal_strlit("malware-host.ru");
    let d1 = default_domains();
    assert forall|i: int, j: int| 0 <= i < j < 6 implies d1[i] != d1[j] by {
        if i == 0 && j == 1 {
            assert(d1[0].len() != d1[1].len());
        } else if i == 0 && j == 2 {
            assert(d1[0].len() != d1[2].len());
        } else if i == 0 && j == 3 {
            assert(d1[0].len() != d1[3].len());
        } else if i == 0 && j == 4 {
            assert(d1[0].len() != d1[4].len());
        } else if i == 0 && j == 5 {
            assert(d1[0].len() != d1[5].len());
        } else if i == 1 && j == 2 {
            assert(d1[1].len() != d1[2].len());
        } else if i == 1 && j == 3 {
            assert(d1[1].len() != d1[3].len());
        } else if i == 1 && j == 4 {
            assert(d1[1].len() != d1[4].len());
        } else if i == 1 && j == 5 {
            assert(d1[1].len() != d1[5].len());
        } else if i == 2 && j == 3 {
            assert(d1[2].len() != d1[3].len());
        } else if i == 2 && j == 4 {
            assert(d1[2].len() != d1[4].len());
        } else if i == 2 && j == 5 {
            assert(d1[2][0] != d1[5][0]);
        } else if i == 3 && j == 4 {
            assert(d1[3].len() != d1[4].len());
        } else if i == 3 && j == 5 {
            assert(d1[3].len() != d1[5].len());
        } else if i == 4 && j == 5 {
            assert(d1[4].len() != d1[5].len());
        }
    }
    assert(default_domains().no_duplicates());
}

/// No indicator of `default_hashes` is listed twice.
proof fn lemma_default_hashes_distinct()
    ensures
        default_hashes().no_duplicates(),
{
    reveal_strlit("4d41f4f4f3f3a1b2c3d4e5f6a7b8c9d0");
    reveal_strlit("aabbccddeeff00112233445566778899");
    reveal_strlit("deadbeefcafebabedeadbeefcafebabe");
    let d2 = default_hashes();
    assert forall|i: int, j: int| 0 <= i < j < 3 implies d2[i] != d2[j] by {
        if i == 0 && j == 1 {
            assert(d2[0][0] != d2[1][0]);
        } else if i == 0 && j == 2 {
            assert(d2[0][0] != d2[2][0]);
        } else if i == 1 && j == 2 {
            assert(d2[1][0] != d2[2][0]);
        }
    }
    assert(default_hashes().no_duplicates());
}

/// No indicator of `default_filenames` is listed twice.
proof fn lemma_default_filenames_distinct()
    ensures
        default_filenames().no_duplicates(),
{
    reveal_strlit("mimikatz.exe");
    reveal_strlit("encrypt.exe");
    reveal_strlit("svchost32.exe");
    reveal_strlit("image_2024.php");
    reveal_strlit("upd_helper.exe");
    reveal_strlit("psexec.exe");
    let d3 = default_filenames();
    assert forall|i: int, j: int| 0 <= i < j < 6 implies d3[i] != d3[j] by {
        if i == 0 && j == 1 {
            assert(d3[0].len() != d3[1].len());
        } else if i == 0 && j == 2 {
            assert(d3[0].len() != d3[2].len());
        } else if i == 0 && j == 3 {
            assert(d3[0].len() != d3[3].len());
        } else if i == 0 && j == 4 {
            assert(d3[0].len() != d3[4].len());
        } else if i == 0 && j == 5 {
            assert(d3[0].len() != d3[5].len());
        } else if i == 1 && j == 2 {
            assert(d3[1].len() != d3[2].len());
        } else if i == 1 && j == 3 {
            assert(d3[1].len() != d3[3].len());
        } else if i == 1 && j == 4 {
            assert(d3[1].len() != d3[4].len());
        } else if i == 1 && j == 5 {
            assert(d3[1].len() != d3[5].len());
        } else if i == 2 && j == 3 {
            assert(d3[2].len() != d3[3].len());
        } else if i == 2 && j == 4 {
            assert(d3[2].len() != d3[4].len());
        } else if i == 2 && j == 5 {
            assert(d3[2].len() != d3[5].len());
        } else if i == 3 && j == 4 {
            assert(d3[3][0] != d3[4][0]);
        } else if i == 3 && j == 5 {
            assert(d3[3].len() != d3[5].len());
        } else if i == 4 && j == 5 {
            assert(d3[4].len() != d3[5].len());
        }
    }
    assert(default_filenames().no_duplicates());
}

/// A text of digits and dots is ASCII text that lowercasing keeps.
proof fn lemma_address_text(s: Seq<char>)
    requires
        forall|k: int| 0 <= k < s.len() ==> ('0' <= #[trigger] s[k] && s[k] <= '9') || s[k] == '.',
    ensures
        all_ascii(s),
        ascii_lower(s) == s,
{
    assert forall|k: int| 0 <= k < s.len() implies (#[trigger] s[k] as u32) < 128 by {
        assert(('0' <= s[k] && s[k] <= '9') || s[k] == '.');
    }
    assert(ascii_lower(s) =~= s);
}

/// The shipped addresses are lowercase ASCII text.
proof fn lemma_default_ips_lowercase()
    ensures
        forall|i: int| 0 <= i < default_ips().len() ==> all_ascii(#[trigger] default_ips()[i]) && ascii_lower(default_ips()[i]) == default_ips()[i],
{
    reveal_strlit("185.234.218.42");
    lemma_address_text("185.234.218.42"@);
    reveal_strlit("45.142.212.100");
    lemma_address_text("45.142.212.100"@);
    reveal_strlit("198.51.100.22");
    lemma_address_text("198.51.100.22"@);
    reveal_strlit("203.0.113.50");
    lemma_address_text("203.0.113.50"@);
    reveal_strlit("45.33.32.156");
    lemma_address_text("45.33.32.156"@);
    reveal_strlit("192.168.50.100");
    lemma_address_text("192.168.50.100"@);
    reveal_strlit("198.51.100.77");
    lemma_address_text("198.51.100.77"@);
    reveal_strlit("203.0.113.88");
    lemma_address_text("203.0.113.88"@);
    reveal_strlit("45.142.212.200");
    lemma_address_text("45.142.212.200"@);
    reveal_strlit("203.0.113.100");
    lemma_address_text("203.0.113.100"@);
    reveal_strlit("104.18.22.200");
    lemma_address_text("104.18.22.200"@);
}

/// No default indicator is listed twice.
proof fn lemma_defaults_distinct()
    ensures
        default_ips().no_duplicates(),
        default_domains().no_duplicates(),
        default_hashes().no_duplicates(),
        default_filenames().no_duplicates(),
{
    lemma_default_ips_distinct();
    lemma_default_domains_distinct();
    lemma_default_hashes_distinct();
    lemma_default_filenames_distinct();
}

/// Appends owned copies of `items` to `v`.
fn push_all(v: &mut Vec<String>, items: &[&str])
    ensures
        texts(final(v)@) == texts(old(v)@) + items@.map_values(|s: &str| s@),
{
    let ghost start = texts(v@);
    let mut i: usize = 0;
    while i < items.len()
        invariant
            i <= items@.len(),
            texts(v@) == start + items@.take(i as int).map_values(|s: &str| s@),
        decreases items.len() - i,
    {
        let ghost before = v@;
        let item = owned(items[i]);
        v.push(item);
        assert(texts(v@) =~= texts(before).push(items@[i as int]@));
        assert(items@.take(i + 1).map_values(|s: &str| s@) =~= items@.take(i as int).map_values(
            |s: &str| s@,
        ).push(items@[i as int]@));
        i = i + 1;
    }
    assert(items@.take(items@.len() as int) =~= items@);
}

impl IocList {
    /// Each list holds each indicator at most once, as a set does.
    pub open spec fn wf(self) -> bool {
        &&& texts(self.malicious_ips@).no_duplicates()
        &&& texts(self.malicious_domains@).no_duplicates()
        &&& texts(self.malicious_hashes@).no_duplicates()
        &&& texts(self.malicious_filenames@).no_duplicates()
    }

    /// The indicator list the simulator ships with.
    pub fn new() -> (r: IocList)
        ensures
            r.wf(),
            r.lowercase_ips(),
            texts(r.malicious_ips@) == default_ips(),
            texts(r.malicious_domains@) == default_domains(),
            texts(r.malicious_hashes@) == default_hashes(),
            texts(r.malicious_filenames@) == default_filenames(),
    {
        let mut list = IocList {
            malicious_ips: Vec::new(),
            malicious_domains: Vec::new(),
            malicious_hashes: Vec::new(),
            malicious_filenames: Vec::new(),
        };
        push_all(
            &mut list.malicious_ips,
            &[
                "185.234.218.42",
                "45.142.212.100",
                "198.51.100.22",
                "203.0.113.50",
                "45.33.32.156",
                "192.168.50.100",
                "198.51.100.77",
                "203.0.113.88",
                "45.142.212.200",
                "203.0.113.100",
                "104.18.22.200",
            ],
        );
        push_all(
            &mut list.malicious_domains,
            &[
                "exfil.attacker-c2.com",
                "evil.com",
                "attacker-c2.com",
                "company-update.net",
                "company-corp.net",
                "malware-host.ru",
            ],
        );
        push_all(
            &mut list.malicious_hashes,
            &[
                "4d41f4f4f3f3a1b2c3d4e5f6a7b8c9d0",
                "aabbccddeeff00112233445566778899",
                "deadbeefcafebabedeadbeefcafebabe",
            ],
        );
        push_all(
            &mut list.malicious_filenames,
            &[
                "mimikatz.exe",
                "encrypt.exe",
                "svchost32.exe",
                "image_2024.php",
                "upd_helper.exe",
                "psexec.exe",
            ],
        );
        assert(texts(list.malicious_ips@) =~= default_ips());
        assert(texts(list.malicious_domains@) =~= default_domains());
        assert(texts(list.malicious_hashes@) =~= default_hashes());
        assert(texts(list.malicious_filenames@) =~= default_filenames());
        proof {
            lemma_defaults_distinct();
            lemma_default_ips_lowercase();
            assert forall|i: int| 0 <= i < list.malicious_ips@.len() implies all_ascii(#[trigger] list.malicious_ips@[i]@) && ascii_lower(list.malicious_ips@[i]@) == list.malicious_ips@[i]@ by {
                assert(texts(list.malicious_ips@)[i] == list.malicious_ips@[i]@);
            }
        }
        list
    }

    /// Whether a (lowercased) text holds any known indicator.
    pub open spec fn flags_in(self, l: Seq<char>) -> bool {
        any_in(self.malicious_ips@, l) || any_in(self.malicious_domains@, l) || any_in(
            self.malicious_hashes@,
            l,
        ) || any_in(self.malicious_filenames@, l)
    }

    /// Whether the message, lowercased, holds any known indicator.
    pub open spec fn flags(self, message: Seq<char>) -> bool {
        self.flags_in(str_lower(message))
    }

    /// Every listed address is ASCII text that lowercasing leaves as it is.
    pub open spec fn lowercase_ips(self) -> bool {
        forall|i: int|
            0 <= i < self.malicious_ips@.len() ==> all_ascii(#[trigger] self.malicious_ips@[i]@) && ascii_lower(
                self.malicious_ips@[i]@,
            ) == self.malicious_ips@[i]@
    }

    /// The address is a known-bad address (exactly).
    pub fn is_malicious_ip(&self, ip: &str) -> (r: bool)
        ensures
            r == listed(self.malicious_ips@, ip@),
    {
        is_listed(&self.malicious_ips, ip)
    }

    /// The lowercased domain holds a known-bad domain.
    pub fn is_malicious_domain(&self, domain: &str) -> (r: bool)
        ensures
            r == any_in(self.malicious_domains@, str_lower(domain@)),
            all_ascii(domain@) ==> r == any_in(self.malicious_domains@, ascii_lower(domain@)),
    {
        let l = lower(domain);
        any_occurs(&self.malicious_domains, l.as_str())
    }

    /// The lowercased hash is a known-bad hash.
    pub fn is_malicious_hash(&self, hash: &str) -> (r: bool)
        ensures
            r == listed(self.malicious_hashes@, str_lower(hash@)),
            all_ascii(hash@) ==> r == listed(self.malicious_hashes@, ascii_lower(hash@)),
    {
        let l = lower(hash);
        is_listed(&self.malicious_hashes, l.as_str())
    }

    /// The lowercased file name holds a known-bad file name.
    pub fn is_malicious_filename(&self, filename: &str) -> (r: bool)
        ensures
            r == any_in(self.malicious_filenames@, str_lower(filename@)),
            all_ascii(filename@) ==> r == any_in(self.malicious_filenames@, ascii_lower(filename@)),
    {
        let l = lower(filename);
        any_occurs(&self.malicious_filenames, l.as_str())
    }

    /// Check the raw message for any known indicator.
    pub fn check_message(&self, message: &str) -> (r: bool)
        ensures
            r == self.flags(message@),
            all_ascii(message@) ==> r == self.flags_in(ascii_lower(message@)),
    {
        let l = lower(message);
        any_occurs(&self.malicious_ips, l.as_str()) || any_occurs(
            &self.malicious_domains,
            l.as_str(),
        ) || any_occurs(&self.malicious_hashes, l.as_str()) || any_occurs(
            &self.malicious_filenames,
            l.as_str(),
        )
    }
}

proof fn lemma_sub_of_self(s: Seq<char>)
    ensures
        has_sub(s, s),
{
    assert(s.subrange(0, s.len() as int) =~= s);
    assert(occurs_at(s, s, 0));
}

/// On ASCII text, an indicator that one of the single checks finds is also
/// found by the message check (`check_message` gives `flags_in` of the
/// lowercased text there), where the listed addresses are lowercase text as
/// in the shipped list.
pub proof fn lemma_single_checks_flag_message(l: IocList, x: Seq<char>)
    requires
        l.lowercase_ips(),
    ensures
        (listed(l.malicious_ips@, x) || any_in(l.malicious_domains@, ascii_lower(x)) || listed(
            l.malicious_hashes@,
            ascii_lower(x),
        ) || any_in(l.malicious_filenames@, ascii_lower(x))) ==> l.flags_in(ascii_lower(x)),
{
    lemma_sub_of_self(x);
    lemma_sub_of_self(ascii_lower(x));
    if listed(l.malicious_ips@, x) {
        let i = choose|i: int| 0 <= i < l.malicious_ips@.len() && #[trigger] l.malicious_ips@[i]@ == x;
        assert(ascii_lower(x) == x);
        assert(has_sub(ascii_lower(x), l.malicious_ips@[i]@));
    }
    if listed(l.malicious_hashes@, ascii_lower(x)) {
        let i = choose|i: int| 0 <= i < l.malicious_hashes@.len() && #[trigger] l.malicious_hashes@[i]@ == ascii_lower(x);
        assert(has_sub(ascii_lower(x), l.malicious_hashes@[i]@));
    }
}

proof fn lemma_sub_grows(h: Seq<char>, n: Seq<char>, a: Seq<char>, b: Seq<char>)
    requires
        has_sub(h, n),
    ensures
        has_sub(a + h + b, n),
{
    let i = choose|i: int| occurs_at(h, n, i);
    let g = a + h + b;
    assert(g.subrange(a.len() + i, a.len() + i + n.len()) =~= h.subrange(i, i + n.len()));
    assert(occurs_at(g, n, a.len() + i));
}

proof fn lemma_any_in_grows(list: Seq<String>, h: Seq<char>, a: Seq<char>, b: Seq<char>)
    requires
        any_in(list, h),
    ensures
        any_in(list, a + h + b),
{
    let i = choose|i: int| 0 <= i < list.len() && has_sub(h, #[trigger] list[i]@);
    lemma_sub_grows(h, list[i]@, a, b);
}

/// Text added before or after a message never removes a hit: whatever the
/// lowercased message holds, the lowercased longer text holds too (on
/// ASCII text, where `check_message` gives `flags_in` of the lowercased
/// text).
pub proof fn lemma_flags_grow(l: IocList, p: Seq<char>, m: Seq<char>, s: Seq<char>)
    ensures
        l.flags_in(ascii_lower(m)) ==> l.flags_in(ascii_lower(p + m + s)),
{
    assert(ascii_lower(p + m + s) =~= ascii_lower(p) + ascii_lower(m) + ascii_lower(s));
    let (a, h, b) = (ascii_lower(p), ascii_lower(m), ascii_lower(s));
    if any_in(l.malicious_ips@, h) {
        lemma_any_in_grows(l.malicious_ips@, h, a, b);
    }
    if any_in(l.malicious_domains@, h) {
        lemma_any_in_grows(l.malicious_domains@, h, a, b);
    }
    if any_in(l.malicious_hashes@, h) {
        lemma_any_in_grows(l.malicious_hashes@, h, a, b);
    }
    if any_in(l.malicious_filenames@, h) {
        lemma_any_in_grows(l.malicious_filenames@, h, a, b);
    }
}

} // verus!
