//! Correlation across events: per-address and per-host event counts and
//! per-address authentication failures, from which brute-force and
//! scanning patterns are reported.
use vstd::prelude::*;

use crate::models::SecurityEvent;
use crate::text::{decimal, has_sub, owned, str_contains, str_eq, decimal_string};

use super::severity::Severity;

verus! {

/// A counter table as plain values: keys with their counts, in the order
/// the keys were first seen.
pub open spec fn table_view(v: Seq<(String, u32)>) -> Seq<(Seq<char>, u32)> {
    v.map_values(|p: (String, u32)| (p.0@, p.1))
}

/// Position of the first entry for `k`, or -1.
pub open spec fn key_pos(s: Seq<(Seq<char>, u32)>, k: Seq<char>) -> int
    decreases s.len(),
{
    if s.len() == 0 {
        -1
    } else if key_pos(s.drop_last(), k) >= 0 {
        key_pos(s.drop_last(), k)
    } else if s.last().0 == k {
        s.len() - 1
    } else {
        -1
    }
}

/// The count a table holds for `k` (0 when `k` was never seen).
pub open spec fn count_of(s: Seq<(Seq<char>, u32)>, k: Seq<char>) -> nat {
    if key_pos(s, k) >= 0 {
        s[key_pos(s, k)].1 as nat
    } else {
        0
    }
}

/// One more, stopping at `u32::MAX`.
pub open spec fn inc(c: u32) -> u32 {
    if c < u32::MAX {
        (c + 1) as u32
    } else {
        c
    }
}

/// The table after counting one more occurrence of `k`.
pub open spec fn bump(s: Seq<(Seq<char>, u32)>, k: Seq<char>) -> Seq<(Seq<char>, u32)> {
    let p = key_pos(s, k);
    if p >= 0 {
        s.update(p, (k, inc(s[p].1)))
    } else {
        s.push((k, 1u32))
    }
}

/// No key appears twice in a table.
pub open spec fn unique_keys(s: Seq<(Seq<char>, u32)>) -> bool {
    forall|i: int, j: int| 0 <= i < j < s.len() ==> s[i].0 != s[j].0
}

/// The entries of a table with a count of at least `min`, in order.
pub open spec fn at_least(s: Seq<(Seq<char>, u32)>, min: u32) -> Seq<(Seq<char>, u32)>
    decreases s.len(),
{
    if s.len() == 0 {
        Seq::empty()
    } else if s.last().1 >= min {
        at_least(s.drop_last(), min).push(s.last())
    } else {
        at_least(s.drop_last(), min)
    }
}

/// A correlation-level finding.
#[derive(Debug, Clone)]
pub struct CorrelationResult {
    pub rule_id: String,
    pub description: String,
    pub severity: Severity,
    pub related_ips: Vec<String>,
    pub related_hosts: Vec<String>,
}

/// `r` reports a brute-force pattern of `e.1` failures from address `e.0`.
pub open spec fn is_brute_force_finding(r: CorrelationResult, e: (Seq<char>, u32)) -> bool {
    &&& r.rule_id@ == "CORR-BF-01"@
    &&& r.description@ == "Brute force pattern: "@ + decimal(e.1 as nat)
        + " failed auth attempts from "@ + e.0
    &&& r.severity == (if e.1 >= 20 {
        Severity::Critical
    } else {
        Severity::High
    })
    &&& r.related_ips@.len() == 1 && r.related_ips@[0]@ == e.0
    &&& r.related_hosts@.len() == 0
}

/// `r` reports high-volume activity of `e.1` events from address `e.0`.
pub open spec fn is_scan_finding(r: CorrelationResult, e: (Seq<char>, u32)) -> bool {
    &&& r.rule_id@ == "CORR-SCAN-01"@
    &&& r.description@ == "High-volume activity: "@ + decimal(e.1 as nat) + " events from IP "@
        + e.0
    &&& r.severity == Severity::Medium
    &&& r.related_ips@.len() == 1 && r.related_ips@[0]@ == e.0
    &&& r.related_hosts@.len() == 0
}

/// The event counts as an authentication failure.
pub open spec fn is_failure(event_type: Seq<char>) -> bool {
    has_sub(event_type, "failure"@) || has_sub(event_type, "failed"@)
}

/// The table that counting `keys` in turn builds from an empty table.
pub open spec fn counted(keys: Seq<Seq<char>>) -> Seq<(Seq<char>, u32)>
    decreases keys.len(),
{
    if keys.len() == 0 {
        Seq::empty()
    } else {
        bump(counted(keys.drop_last()), keys.last())
    }
}

/// How many times `k` occurs in `keys`.
pub open spec fn occurrences(keys: Seq<Seq<char>>, k: Seq<char>) -> nat
    decreases keys.len(),
{
    if keys.len() == 0 {
        0
    } else {
        occurrences(keys.drop_last(), k) + if keys.last() == k {
            1nat
        } else {
            0nat
        }
    }
}

/// The source addresses of a run of events, in order (events without one
/// left out).
pub open spec fn ip_keys(evs: Seq<SecurityEvent>) -> Seq<Seq<char>>
    decreases evs.len(),
{
    if evs.len() == 0 {
        Seq::empty()
    } else {
        match evs.last().source_ip {
            Some(ip) => ip_keys(evs.drop_last()).push(ip@),
            None => ip_keys(evs.drop_last()),
        }
    }
}

/// The source addresses of the authentication failures of a run of events,
/// in order.
pub open spec fn failure_keys(evs: Seq<SecurityEvent>) -> Seq<Seq<char>>
    decreases evs.len(),
{
    if evs.len() == 0 {
        Seq::empty()
    } else {
        match evs.last().source_ip {
            Some(ip) => if is_failure(evs.last().event_type@) {
                failure_keys(evs.drop_last()).push(ip@)
            } else {
                failure_keys(evs.drop_last())
            },
            None => failure_keys(evs.drop_last()),
        }
    }
}

/// The hosts of a run of events, in order.
pub open spec fn host_keys(evs: Seq<SecurityEvent>) -> Seq<Seq<char>>
    decreases evs.len(),
{
    if evs.len() == 0 {
        Seq::empty()
    } else {
        host_keys(evs.drop_last()).push(evs.last().host@)
    }
}

/// Correlation engine: tracks event patterns across time to detect
/// multi-event threats.
#[derive(Debug, Default)]
pub struct CorrelationEngine {
    /// Count of events per source IP
    ip_event_counts: Vec<(String, u32)>,
    /// Count of events per host
    host_event_counts: Vec<(String, u32)>,
    /// Count of failed auth events per source IP
    auth_failure_counts: Vec<(String, u32)>,
}

/// Counts one more occurrence of `key` in a table.
fn bump_table(t: &mut Vec<(String, u32)>, key: &str)
    ensures
        table_view(final(t)@) == bump(table_view(old(t)@), key@),
{
    let ghost s = table_view(t@);
    let mut i: usize = 0;
    while i < t.len()
        invariant
            s == table_view(t@),
            s == table_view(old(t)@),
            i <= t@.len(),
            forall|j: int| 0 <= j < i ==> #[trigger] s[j].0 != key@,
        decreases t.len() - i,
    {
        if str_eq(t[i].0.as_str(), key) {
            proof {
                lemma_key_pos_first(s, key@, i as int);
            }
            let c = t[i].1;
            let n: u32 = if c < u32::MAX {
                c + 1
            } else {
                c
            };
            let k = t[i].0.clone();
            assert(s[i as int].1 == c);
            assert(s[i as int].0 == key@);
            assert(n == inc(c));
            t.set(i, (k, n));
            assert(table_view(t@) =~= s.update(i as int, (key@, inc(c))));
            assert(bump(s, key@) == s.update(i as int, (key@, inc(c))));
            return ;
        }
        i = i + 1;
    }
    proof {
        lemma_key_pos_absent(s, key@);
    }
    t.push((owned(key), 1));
    assert(table_view(t@) =~= s.push((key@, 1u32)));
}

/// `key_pos` finds the first entry for a key.
pub proof fn lemma_key_pos_first(s: Seq<(Seq<char>, u32)>, k: Seq<char>, i: int)
    requires
        0 <= i < s.len(),
        s[i].0 == k,
        forall|j: int| 0 <= j < i ==> #[trigger] s[j].0 != k,
    ensures
        key_pos(s, k) == i,
    decreases s.len(),
{
    if i < s.len() - 1 {
        lemma_key_pos_first(s.drop_last(), k, i);
    } else {
        lemma_key_pos_absent(s.drop_last(), k);
    }
}

/// A key with no entry has position -1.
pub proof fn lemma_key_pos_absent(s: Seq<(Seq<char>, u32)>, k: Seq<char>)
    requires
        forall|j: int| 0 <= j < s.len() ==> #[trigger] s[j].0 != k,
    ensures
        key_pos(s, k) == -1,
    decreases s.len(),
{
    if s.len() > 0 {
        lemma_key_pos_absent(s.drop_last(), k);
    }
}

/// `key_pos` is -1 or the position of the first entry for the key.
pub proof fn lemma_key_pos_spec(s: Seq<(Seq<char>, u32)>, k: Seq<char>)
    ensures
        -1 <= key_pos(s, k) < s.len(),
        key_pos(s, k) >= 0 ==> s[key_pos(s, k)].0 == k,
        key_pos(s, k) >= 0 ==> forall|j: int| 0 <= j < key_pos(s, k) ==> #[trigger] s[j].0 != k,
        key_pos(s, k) == -1 ==> forall|j: int| 0 <= j < s.len() ==> #[trigger] s[j].0 != k,
    decreases s.len(),
{
    if s.len() > 0 {
        let t = s.drop_last();
        lemma_key_pos_spec(t, k);
        assert forall|j: int| 0 <= j < t.len() implies t[j] == s[j] by {}
    }
}

/// Counting a key adds one to its count (up to `u32::MAX`) and leaves
/// every other key's count as it was.
pub proof fn lemma_bump_counts(s: Seq<(Seq<char>, u32)>, k: Seq<char>, other: Seq<char>)
    ensures
        count_of(bump(s, k), k) == inc(count_of(s, k) as u32) || (count_of(s, k) == 0
            && count_of(bump(s, k), k) == 1),
        other != k ==> count_of(bump(s, k), other) == count_of(s, other),
{
    lemma_key_pos_spec(s, k);
    lemma_key_pos_spec(s, other);
    let b = bump(s, k);
    let p = key_pos(s, k);
    if p >= 0 {
        lemma_key_pos_first(b, k, p);
        if other != k {
            let q = key_pos(s, other);
            if q >= 0 {
                lemma_key_pos_first(b, other, q);
            } else {
                lemma_key_pos_absent(b, other);
            }
        }
    } else {
        assert forall|j: int| 0 <= j < s.len() implies #[trigger] b[j].0 != k by {
            assert(b[j] == s[j]);
        }
        lemma_key_pos_first(b, k, s.len() as int);
        if other != k {
            let q = key_pos(s, other);
            if q >= 0 {
                assert forall|j: int| 0 <= j < q implies #[trigger] b[j].0 != other by {
                    assert(b[j] == s[j]);
                }
                lemma_key_pos_first(b, other, q);
            } else {
                assert forall|j: int| 0 <= j < b.len() implies #[trigger] b[j].0 != other by {
                    if j < s.len() {
                        assert(b[j] == s[j]);
                    }
                }
                lemma_key_pos_absent(b, other);
            }
        }
    }
}

/// Counting keeps every key at most once in a table.
pub proof fn lemma_bump_unique(s: Seq<(Seq<char>, u32)>, k: Seq<char>)
    requires
        unique_keys(s),
    ensures
        unique_keys(bump(s, k)),
{
    lemma_key_pos_spec(s, k);
}

/// In a table without repeated keys, the entries of at least `min` are
/// exactly the keys whose count reaches `min`.
pub proof fn lemma_at_least_exact(s: Seq<(Seq<char>, u32)>, min: u32, k: Seq<char>)
    requires
        unique_keys(s),
        min > 0,
    ensures
        (exists|i: int| 0 <= i < at_least(s, min).len() && (#[trigger] at_least(s, min)[i]).0 == k)
            <==> count_of(s, k) >= min,
    decreases s.len(),
{
    lemma_key_pos_spec(s, k);
    if s.len() > 0 {
        let t = s.drop_last();
        assert(unique_keys(t));
        lemma_at_least_exact(t, min, k);
        lemma_key_pos_spec(t, k);
        let a = at_least(s, min);
        let at = at_least(t, min);
        if s.last().0 == k {
            assert(key_pos(t, k) == -1) by {
                assert forall|j: int| 0 <= j < t.len() implies #[trigger] t[j].0 != k by {
                    assert(s[j].0 != s[s.len() - 1].0);
                }
                lemma_key_pos_absent(t, k);
            }
            if s.last().1 >= min {
                assert(a[a.len() - 1].0 == k);
            } else {
                assert forall|i: int| 0 <= i < a.len() implies (#[trigger] a[i]).0 != k by {
                    assert(a[i] == at[i]);
                }
            }
        } else {
            if key_pos(t, k) >= 0 {
                assert(key_pos(s, k) == key_pos(t, k));
            }
            if s.last().1 >= min {
                if exists|i: int| 0 <= i < a.len() && (#[trigger] a[i]).0 == k {
                    let i = choose|i: int| 0 <= i < a.len() && (#[trigger] a[i]).0 == k;
                    assert(i < at.len());
                    assert(at[i] == a[i]);
                }
                if exists|i: int| 0 <= i < at.len() && (#[trigger] at[i]).0 == k {
                    let i = choose|i: int| 0 <= i < at.len() && (#[trigger] at[i]).0 == k;
                    assert(a[i] == at[i]);
                }
            }
        }
    }
}

impl CorrelationEngine {
    /// Events per source address, in first-seen order.
    pub closed spec fn ip_table(&self) -> Seq<(Seq<char>, u32)> {
        table_view(self.ip_event_counts@)
    }

    /// Events per host, in first-seen order.
    pub closed spec fn host_table(&self) -> Seq<(Seq<char>, u32)> {
        table_view(self.host_event_counts@)
    }

    /// Authentication failures per source address, in first-seen order.
    pub closed spec fn auth_table(&self) -> Seq<(Seq<char>, u32)> {
        table_view(self.auth_failure_counts@)
    }

    /// No table holds a key twice.
    pub open spec fn wf(&self) -> bool {
        &&& unique_keys(self.ip_table())
        &&& unique_keys(self.host_table())
        &&& unique_keys(self.auth_table())
    }

    /// The engine holds exactly the counts of the run of events `evs`,
    /// ingested in order.
    pub open spec fn has_seen(&self, evs: Seq<SecurityEvent>) -> bool {
        &&& self.ip_table() == counted(ip_keys(evs))
        &&& self.host_table() == counted(host_keys(evs))
        &&& self.auth_table() == counted(failure_keys(evs))
    }

    /// An engine that has seen nothing.
    pub fn new() -> (r: CorrelationEngine)
        ensures
            r.wf(),
            r.ip_table().len() == 0,
            r.host_table().len() == 0,
            r.auth_table().len() == 0,
            r.has_seen(Seq::empty()),
    {
        let r = CorrelationEngine {
            ip_event_counts: Vec::new(),
            host_event_counts: Vec::new(),
            auth_failure_counts: Vec::new(),
        };
        assert(table_view(r.ip_event_counts@) =~= Seq::empty());
        assert(table_view(r.host_event_counts@) =~= Seq::empty());
        assert(table_view(r.auth_failure_counts@) =~= Seq::empty());
        r
    }

    /// Ingest a new event and update internal counters: the event's host
    /// always counts; an event with a source address counts for that
    /// address, and also as an authentication failure when its type
    /// mentions `failure` or `failed`.
    pub fn ingest(&mut self, event: &SecurityEvent)
        ensures
            final(self).host_table() == bump(old(self).host_table(), event.host@),
            final(self).ip_table() == (match event.source_ip {
                Some(ip) => bump(old(self).ip_table(), ip@),
                None => old(self).ip_table(),
            }),
            final(self).auth_table() == (match event.source_ip {
                Some(ip) => if is_failure(event.event_type@) {
                    bump(old(self).auth_table(), ip@)
                } else {
                    old(self).auth_table()
                },
                None => old(self).auth_table(),
            }),
            old(self).wf() ==> final(self).wf(),
            forall|evs: Seq<SecurityEvent>| #[trigger] old(self).has_seen(evs) ==> final(self).has_seen(evs.push(*event)),
    {
        proof {
            if self.wf() {
                lemma_bump_unique(self.host_table(), event.host@);
                if let Some(ip) = &event.source_ip {
                    lemma_bump_unique(self.ip_table(), ip@);
                    lemma_bump_unique(self.auth_table(), ip@);
                }
            }
        }
        if let Some(ip) = &event.source_ip {
            bump_table(&mut self.ip_event_counts, ip.as_str());
            if str_contains(event.event_type.as_str(), "failure") || str_contains(
                event.event_type.as_str(),
                "failed",
            ) {
                bump_table(&mut self.auth_failure_counts, ip.as_str());
            }
        }
        bump_table(&mut self.host_event_counts, event.host.as_str());
        proof {
            assert forall|evs: Seq<SecurityEvent>| #[trigger] old(self).has_seen(evs) implies self.has_seen(
                evs.push(*event),
            ) by {
                let p = evs.push(*event);
                assert(p.drop_last() =~= evs);
                let hk = host_keys(evs);
                assert(host_keys(p) == hk.push(event.host@));
                assert(hk.push(event.host@).drop_last() =~= hk);
                match event.source_ip {
                    Some(ip) => {
                        let ik = ip_keys(evs);
                        assert(ip_keys(p) == ik.push(ip@));
                        assert(ik.push(ip@).drop_last() =~= ik);
                        let fk = failure_keys(evs);
                        if is_failure(event.event_type@) {
                            assert(failure_keys(p) == fk.push(ip@));
                            assert(fk.push(ip@).drop_last() =~= fk);
                        } else {
                            assert(failure_keys(p) == fk);
                        }
                    },
                    None => {
                        assert(ip_keys(p) == ip_keys(evs));
                        assert(failure_keys(p) == failure_keys(evs));
                    },
                }
            }
        }
    }

    /// Check for correlation-level findings: a brute-force finding for each
    /// address with at least 5 authentication failures (critical from 20),
    /// then a scanning finding for each address with at least 30 events.
    pub fn check_correlations(&self) -> (r: Vec<CorrelationResult>)
        ensures
            r@.len() == at_least(self.auth_table(), 5).len() + at_least(self.ip_table(), 30).len(),
            forall|i: int|
                0 <= i < at_least(self.auth_table(), 5).len() ==> is_brute_force_finding(
                    #[trigger] r@[i],
                    at_least(self.auth_table(), 5)[i],
                ),
            forall|i: int|
                0 <= i < at_least(self.ip_table(), 30).len() ==> is_scan_finding(
                    #[trigger] r@[at_least(self.auth_table(), 5).len() + i],
                    at_least(self.ip_table(), 30)[i],
                ),
    {
        let mut results: Vec<CorrelationResult> = Vec::new();
        let ghost auth = self.auth_table();
        let ghost ips = self.ip_table();
        let mut i: usize = 0;
        while i < self.auth_failure_counts.len()
            invariant
                auth == table_view(self.auth_failure_counts@),
                i <= self.auth_failure_counts@.len(),
                results@.len() == at_least(auth.take(i as int), 5).len(),
                forall|j: int|
                    0 <= j < results@.len() ==> is_brute_force_finding(
                        #[trigger] results@[j],
                        at_least(auth.take(i as int), 5)[j],
                    ),
            decreases self.auth_failure_counts.len() - i,
        {
            let ghost prev = auth.take(i as int);
            assert(auth.take(i + 1).drop_last() =~= prev);
            let ip = &self.auth_failure_counts[i].0;
            let count = self.auth_failure_counts[i].1;
            if count >= 5 {
                let mut d = String::from_str("Brute force pattern: ");
                let cs = decimal_string(count as u64);
                d.append(cs.as_str());
                d.append(" failed auth attempts from ");
                d.append(ip.as_str());
                let mut related: Vec<String> = Vec::new();
                related.push(ip.clone());
                let f = CorrelationResult {
                    rule_id: String::from_str("CORR-BF-01"),
                    description: d,
                    severity: if count >= 20 {
                        Severity::Critical
                    } else {
                        Severity::High
                    },
                    related_ips: related,
                    related_hosts: Vec::new(),
                };
                results.push(f);
            }
            i = i + 1;
        }
        assert(auth.take(auth.len() as int) =~= auth);
        let ghost nb = results@.len();
        let mut k: usize = 0;
        while k < self.ip_event_counts.len()
            invariant
                auth == table_view(self.auth_failure_counts@),
                ips == table_view(self.ip_event_counts@),
                k <= self.ip_event_counts@.len(),
                nb == at_least(auth, 5).len(),
                results@.len() == nb + at_least(ips.take(k as int), 30).len(),
                forall|j: int|
                    0 <= j < nb ==> is_brute_force_finding(
                        #[trigger] results@[j],
                        at_least(auth, 5)[j],
                    ),
                forall|j: int|
                    0 <= j < at_least(ips.take(k as int), 30).len() ==> is_scan_finding(
                        #[trigger] results@[nb + j],
                        at_least(ips.take(k as int), 30)[j],
                    ),
            decreases self.ip_event_counts.len() - k,
        {
            let ghost prev = ips.take(k as int);
            assert(ips.take(k + 1).drop_last() =~= prev);
            let ip = &self.ip_event_counts[k].0;
            let count = self.ip_event_counts[k].1;
            if count >= 30 {
                let mut d = String::from_str("High-volume activity: ");
                let cs = decimal_string(count as u64);
                d.append(cs.as_str());
                d.append(" events from IP ");
                d.append(ip.as_str());
                let mut related: Vec<String> = Vec::new();
                related.push(ip.clone());
                let f = CorrelationResult {
                    rule_id: String::from_str("CORR-SCAN-01"),
                    description: d,
                    severity: Severity::Medium,
                    related_ips: related,
                    related_hosts: Vec::new(),
                };
                results.push(f);
            }
            k = k + 1;
        }
        assert(ips.take(ips.len() as int) =~= ips);
        results
    }

    /// Forgets everything seen so far.
    pub fn reset(&mut self)
        ensures
            final(self).wf(),
            final(self).ip_table().len() == 0,
            final(self).host_table().len() == 0,
            final(self).auth_table().len() == 0,
            final(self).has_seen(Seq::empty()),
    {
        self.ip_event_counts.clear();
        self.host_event_counts.clear();
        self.auth_failure_counts.clear();
        assert(table_view(self.ip_event_counts@) =~= Seq::empty());
        assert(table_view(self.host_event_counts@) =~= Seq::empty());
        assert(table_view(self.auth_failure_counts@) =~= Seq::empty());
    }
}

/// An engine that has seen nothing, or has just been reset, reports
/// nothing.
pub proof fn lemma_empty_reports_nothing(e: CorrelationEngine)
    requires
        e.ip_table().len() == 0,
        e.auth_table().len() == 0,
    ensures
        at_least(e.auth_table(), 5).len() == 0,
        at_least(e.ip_table(), 30).len() == 0,
{
}

/// A brute-force finding names an address exactly when that address has
/// failed authentication at least 5 times; a scanning finding names an
/// address exactly when it was the source of at least 30 events.
pub proof fn lemma_findings_match_counts(e: CorrelationEngine, ip: Seq<char>)
    requires
        e.wf(),
    ensures
        (exists|i: int|
            0 <= i < at_least(e.auth_table(), 5).len() && (#[trigger] at_least(
                e.auth_table(),
                5,
            )[i]).0 == ip) <==> count_of(e.auth_table(), ip) >= 5,
        (exists|i: int|
            0 <= i < at_least(e.ip_table(), 30).len() && (#[trigger] at_least(
                e.ip_table(),
                30,
            )[i]).0 == ip) <==> count_of(e.ip_table(), ip) >= 30,
{
    lemma_at_least_exact(e.auth_table(), 5, ip);
    lemma_at_least_exact(e.ip_table(), 30, ip);
}

/// Counting a run of keys from an empty table leaves each key once, with
/// its number of occurrences (held at `u32::MAX` beyond that).
pub proof fn lemma_counted(keys: Seq<Seq<char>>, k: Seq<char>)
    ensures
        unique_keys(counted(keys)),
        count_of(counted(keys), k) == (if occurrences(keys, k) < u32::MAX {
            occurrences(keys, k)
        } else {
            u32::MAX as nat
        }),
    decreases keys.len(),
{
    if keys.len() > 0 {
        let t = keys.drop_last();
        lemma_counted(t, k);
        lemma_bump_unique(counted(t), keys.last());
        lemma_bump_counts(counted(t), keys.last(), k);
    }
}

/// Every entry that `at_least` keeps is an entry of the table, and a table
/// without repeated keys gives a selection without repeated keys.
pub proof fn lemma_at_least_sub(s: Seq<(Seq<char>, u32)>, min: u32)
    ensures
        forall|i: int| 0 <= i < at_least(s, min).len() ==> exists|j: int| 0 <= j < s.len() && s[j] == #[trigger] at_least(s, min)[i],
        unique_keys(s) ==> unique_keys(at_least(s, min)),
    decreases s.len(),
{
    if s.len() > 0 {
        let t = s.drop_last();
        lemma_at_least_sub(t, min);
        let a = at_least(s, min);
        let at = at_least(t, min);
        assert forall|i: int| 0 <= i < a.len() implies exists|j: int| 0 <= j < s.len() && s[j] == #[trigger] a[i] by {
            if i < at.len() {
                assert(a[i] == at[i]);
                let j = choose|j: int| 0 <= j < t.len() && t[j] == #[trigger] at[i];
                assert(s[j] == t[j]);
            } else {
                assert(a[i] == s[s.len() - 1]);
            }
        }
        if unique_keys(s) {
            assert(unique_keys(t));
            if s.last().1 >= min {
                assert forall|i: int, j: int| 0 <= i < j < a.len() implies a[i].0 != a[j].0 by {
                    if j == a.len() - 1 {
                        assert(a[i] == at[i]);
                        let m = choose|m: int| 0 <= m < t.len() && t[m] == #[trigger] at[i];
                        assert(s[m] == t[m]);
                    } else {
                        assert(a[i] == at[i] && a[j] == at[j]);
                    }
                }
            }
        }
    }
}

/// After a run of events ingested in order: a scanning finding names an
/// address exactly when at least 30 of the run's events came from it, a
/// brute-force finding names an address exactly when at least 5 of them
/// were authentication failures from it, and neither rule names an
/// address twice.
pub proof fn lemma_run_findings(e: CorrelationEngine, evs: Seq<SecurityEvent>, ip: Seq<char>)
    requires
        e.has_seen(evs),
    ensures
        (exists|i: int|
            0 <= i < at_least(e.ip_table(), 30).len() && (#[trigger] at_least(e.ip_table(), 30)[i]).0 == ip)
            <==> occurrences(ip_keys(evs), ip) >= 30,
        (exists|i: int|
            0 <= i < at_least(e.auth_table(), 5).len() && (#[trigger] at_least(e.auth_table(), 5)[i]).0 == ip)
            <==> occurrences(failure_keys(evs), ip) >= 5,
        unique_keys(at_least(e.ip_table(), 30)),
        unique_keys(at_least(e.auth_table(), 5)),
{
    lemma_counted(ip_keys(evs), ip);
    lemma_counted(failure_keys(evs), ip);
    lemma_counted(host_keys(evs), ip);
    lemma_findings_match_counts(e, ip);
    lemma_at_least_sub(e.ip_table(), 30);
    lemma_at_least_sub(e.auth_table(), 5);
}

/// The counts depend on the run of events alone: an engine that was reset
/// (or is new) and then fed a run holds the same tables as any other engine
/// fed that run from the start, so `check_correlations` reports the same
/// findings for both.
pub proof fn lemma_same_run_same_counts(a: CorrelationEngine, b: CorrelationEngine, evs: Seq<SecurityEvent>)
    requires
        a.has_seen(evs),
        b.has_seen(evs),
    ensures
        a.ip_table() == b.ip_table(),
        a.host_table() == b.host_table(),
        a.auth_table() == b.auth_table(),
        at_least(a.auth_table(), 5) == at_least(b.auth_table(), 5),
        at_least(a.ip_table(), 30) == at_least(b.ip_table(), 30),
{
}

} // verus!
