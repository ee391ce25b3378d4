//! Query helpers for investigation: find related events.
use vstd::prelude::*;

use crate::models::SecurityEvent;
use crate::ordered::{insert_sorted, strictly_sorted, views};
use crate::text::{starts, str_eq, str_starts_with};

verus! {

/// The events of `s` that satisfy `p`, in order.
pub open spec fn keep(s: Seq<SecurityEvent>, p: spec_fn(SecurityEvent) -> bool) -> Seq<SecurityEvent>
    decreases s.len(),
{
    if s.len() == 0 {
        Seq::empty()
    } else if p(s.last()) {
        keep(s.drop_last(), p).push(s.last())
    } else {
        keep(s.drop_last(), p)
    }
}

/// The events behind a list of references.
pub open spec fn derefs(r: Seq<&SecurityEvent>) -> Seq<SecurityEvent> {
    r.map_values(|e: &SecurityEvent| *e)
}

pub open spec fn from_ip(ip: Seq<char>) -> spec_fn(SecurityEvent) -> bool {
    |e: SecurityEvent| e.source_ip matches Some(s) && s@ == ip
}

pub open spec fn on_host(host: Seq<char>) -> spec_fn(SecurityEvent) -> bool {
    |e: SecurityEvent| e.host@ == host
}

pub open spec fn by_account(user: Seq<char>) -> spec_fn(SecurityEvent) -> bool {
    |e: SecurityEvent| e.user matches Some(u) && u@ == user
}

pub open spec fn of_technique(technique: Seq<char>) -> spec_fn(SecurityEvent) -> bool {
    |e: SecurityEvent| e.mitre_technique matches Some(t) && starts(t@, technique)
}

pub open spec fn malicious() -> spec_fn(SecurityEvent) -> bool {
    |e: SecurityEvent| e.is_malicious
}

/// Hosts of the malicious events of `s`.
pub open spec fn malicious_hosts(s: Seq<SecurityEvent>) -> Set<Seq<char>> {
    Set::new(|h: Seq<char>| exists|i: int| 0 <= i < s.len() && s[i].is_malicious && (#[trigger] s[i]).host@ == h)
}

/// The event came from source address `a`.
pub open spec fn sent_by(e: SecurityEvent, a: Seq<char>) -> bool {
    e.source_ip matches Some(ip) && ip@ == a
}

/// Source addresses of the malicious events of `s`.
pub open spec fn malicious_sources(s: Seq<SecurityEvent>) -> Set<Seq<char>> {
    Set::new(
        |a: Seq<char>| exists|i: int| 0 <= i < s.len() && s[i].is_malicious && sent_by(#[trigger] s[i], a),
    )
}

/// Query helpers for investigation.
pub struct InvestigationQuery;

impl InvestigationQuery {
    /// All events from a source address.
    pub fn by_source_ip<'a>(events: &'a [SecurityEvent], ip: &str) -> (r: Vec<&'a SecurityEvent>)
        ensures
            derefs(r@) == keep(events@, from_ip(ip@)),
    {
        let mut r: Vec<&SecurityEvent> = Vec::new();
        let mut i: usize = 0;
        while i < events.len()
            invariant
                i <= events@.len(),
                derefs(r@) == keep(events@.take(i as int), from_ip(ip@)),
            decreases events.len() - i,
        {
            assert(events@.take(i + 1).drop_last() =~= events@.take(i as int));
            let e = &events[i];
            let hit = match &e.source_ip {
                Some(s) => str_eq(s.as_str(), ip),
                None => false,
            };
            if hit {
                r.push(e);
            }
            assert(derefs(r@) =~= keep(events@.take(i + 1), from_ip(ip@)));
            i = i + 1;
        }
        assert(events@.take(events@.len() as int) =~= events@);
        r
    }

    /// All events on a host.
    pub fn by_host<'a>(events: &'a [SecurityEvent], host: &str) -> (r: Vec<&'a SecurityEvent>)
        ensures
            derefs(r@) == keep(events@, on_host(host@)),
    {
        let mut r: Vec<&SecurityEvent> = Vec::new();
        let mut i: usize = 0;
        while i < events.len()
            invariant
                i <= events@.len(),
                derefs(r@) == keep(events@.take(i as int), on_host(host@)),
            decreases events.len() - i,
        {
            assert(events@.take(i + 1).drop_last() =~= events@.take(i as int));
            let e = &events[i];
            if str_eq(e.host.as_str(), host) {
                r.push(e);
            }
            assert(derefs(r@) =~= keep(events@.take(i + 1), on_host(host@)));
            i = i + 1;
        }
        assert(events@.take(events@.len() as int) =~= events@);
        r
    }

    /// All events of a user account.
    pub fn by_user<'a>(events: &'a [SecurityEvent], user: &str) -> (r: Vec<&'a SecurityEvent>)
        ensures
            derefs(r@) == keep(events@, by_account(user@)),
    {
        let mut r: Vec<&SecurityEvent> = Vec::new();
        let mut i: usize = 0;
        while i < events.len()
            invariant
                i <= events@.len(),
                derefs(r@) == keep(events@.take(i as int), by_account(user@)),
            decreases events.len() - i,
        {
            assert(events@.take(i + 1).drop_last() =~= events@.take(i as int));
            let e = &events[i];
            let hit = match &e.user {
                Some(u) => str_eq(u.as_str(), user),
                None => false,
            };
            if hit {
                r.push(e);
            }
            assert(derefs(r@) =~= keep(events@.take(i + 1), by_account(user@)));
            i = i + 1;
        }
        assert(events@.take(events@.len() as int) =~= events@);
        r
    }

    /// All events whose MITRE technique starts with the given id (so a
    /// technique also finds its sub-techniques).
    pub fn by_technique<'a>(events: &'a [SecurityEvent], technique: &str) -> (r: Vec<
        &'a SecurityEvent,
    >)
        ensures
            derefs(r@) == keep(events@, of_technique(technique@)),
    {
        let mut r: Vec<&SecurityEvent> = Vec::new();
        let mut i: usize = 0;
        while i < events.len()
            invariant
                i <= events@.len(),
                derefs(r@) == keep(events@.take(i as int), of_technique(technique@)),
            decreases events.len() - i,
        {
            assert(events@.take(i + 1).drop_last() =~= events@.take(i as int));
            let e = &events[i];
            let hit = match &e.mitre_technique {
                Some(t) => str_starts_with(t.as_str(), technique),
                None => false,
            };
            if hit {
                r.push(e);
            }
            assert(derefs(r@) =~= keep(events@.take(i + 1), of_technique(technique@)));
            i = i + 1;
        }
        assert(events@.take(events@.len() as int) =~= events@);
        r
    }

    /// All malicious events.
    pub fn malicious_only(events: &[SecurityEvent]) -> (r: Vec<&SecurityEvent>)
        ensures
            derefs(r@) == keep(events@, malicious()),
    {
        let mut r: Vec<&SecurityEvent> = Vec::new();
        let mut i: usize = 0;
        while i < events.len()
            invariant
                i <= events@.len(),
                derefs(r@) == keep(events@.take(i as int), malicious()),
            decreases events.len() - i,
        {
            assert(events@.take(i + 1).drop_last() =~= events@.take(i as int));
            let e = &events[i];
            if e.is_malicious {
                r.push(e);
            }
            assert(derefs(r@) =~= keep(events@.take(i + 1), malicious()));
            i = i + 1;
        }
        assert(events@.take(events@.len() as int) =~= events@);
        r
    }

    /// The hosts involved in malicious activity, sorted, each once.
    pub fn compromised_hosts(events: &[SecurityEvent]) -> (r: Vec<String>)
        ensures
            strictly_sorted(views(r@)),
            views(r@).to_set() == malicious_hosts(events@),
    {
        let mut r: Vec<String> = Vec::new();
        let mut i: usize = 0;
        assert(views(r@).to_set() =~= malicious_hosts(events@.take(0)));
        while i < events.len()
            invariant
                i <= events@.len(),
                strictly_sorted(views(r@)),
                views(r@).to_set() == malicious_hosts(events@.take(i as int)),
            decreases events.len() - i,
        {
            let ghost pre = events@.take(i as int);
            let ghost post = events@.take(i + 1);
            let e = &events[i];
            if e.is_malicious {
                insert_sorted(&mut r, e.host.clone());
                assert(malicious_hosts(post) =~= malicious_hosts(pre).insert(e.host@)) by {
                    assert(post[i as int] == *e);
                    assert forall|h: Seq<char>| malicious_hosts(post).contains(h) implies malicious_hosts(pre).insert(e.host@).contains(h) by {
                        let k = choose|k: int| 0 <= k < post.len() && post[k].is_malicious && (#[trigger] post[k]).host@ == h;
                        if k < i {
                            assert(pre[k] == post[k]);
                        }
                    }
                    assert forall|h: Seq<char>| malicious_hosts(pre).insert(e.host@).contains(h) implies malicious_hosts(post).contains(h) by {
                        if h != e.host@ {
                            let k = choose|k: int| 0 <= k < pre.len() && pre[k].is_malicious && (#[trigger] pre[k]).host@ == h;
                            assert(post[k] == pre[k]);
                        }
                    }
                }
            } else {
                assert(malicious_hosts(post) =~= malicious_hosts(pre)) by {
                    assert forall|h: Seq<char>| malicious_hosts(post).contains(h) implies malicious_hosts(pre).contains(h) by {
                        let k = choose|k: int| 0 <= k < post.len() && post[k].is_malicious && (#[trigger] post[k]).host@ == h;
                        assert(pre[k] == post[k]);
                    }
                    assert forall|h: Seq<char>| malicious_hosts(pre).contains(h) implies malicious_hosts(post).contains(h) by {
                        let k = choose|k: int| 0 <= k < pre.len() && pre[k].is_malicious && (#[trigger] pre[k]).host@ == h;
                        assert(post[k] == pre[k]);
                    }
                }
            }
            i = i + 1;
        }
        assert(events@.take(events@.len() as int) =~= events@);
        r
    }

    /// The source addresses of malicious events, sorted, each once.
    pub fn attacker_ips(events: &[SecurityEvent]) -> (r: Vec<String>)
        ensures
            strictly_sorted(views(r@)),
            views(r@).to_set() == malicious_sources(events@),
    {
        let mut r: Vec<String> = Vec::new();
        let mut i: usize = 0;
        assert(views(r@).to_set() =~= malicious_sources(events@.take(0)));
        while i < events.len()
            invariant
                i <= events@.len(),
                strictly_sorted(views(r@)),
                views(r@).to_set() == malicious_sources(events@.take(i as int)),
            decreases events.len() - i,
        {
            let ghost pre = events@.take(i as int);
            let ghost post = events@.take(i + 1);
            let e = &events[i];
            assert(post[i as int] == *e);
            if e.is_malicious && e.source_ip.is_some() {
                let ip = match &e.source_ip {
                    Some(s) => s.clone(),
                    None => String::new(),
                };
                insert_sorted(&mut r, ip);
                assert(malicious_sources(post) =~= malicious_sources(pre).insert(ip@)) by {
                    assert forall|a: Seq<char>| malicious_sources(post).contains(a) implies malicious_sources(pre).insert(ip@).contains(a) by {
                        let k = choose|k: int| 0 <= k < post.len() && post[k].is_malicious && sent_by(#[trigger] post[k], a);
                        if k < i {
                            assert(pre[k] == post[k]);
                        }
                    }
                    assert forall|a: Seq<char>| malicious_sources(pre).insert(ip@).contains(a) implies malicious_sources(post).contains(a) by {
                        if a != ip@ {
                            let k = choose|k: int| 0 <= k < pre.len() && pre[k].is_malicious && sent_by(#[trigger] pre[k], a);
                            assert(post[k] == pre[k]);
                        }
                    }
                }
            } else {
                assert(malicious_sources(post) =~= malicious_sources(pre)) by {
                    assert forall|a: Seq<char>| malicious_sources(post).contains(a) implies malicious_sources(pre).contains(a) by {
                        let k = choose|k: int| 0 <= k < post.len() && post[k].is_malicious && sent_by(#[trigger] post[k], a);
                        assert(pre[k] == post[k]);
                    }
                    assert forall|a: Seq<char>| malicious_sources(pre).contains(a) implies malicious_sources(post).contains(a) by {
                        let k = choose|k: int| 0 <= k < pre.len() && pre[k].is_malicious && sent_by(#[trigger] pre[k], a);
                        assert(post[k] == pre[k]);
                    }
                }
            }
            i = i + 1;
        }
        assert(events@.take(events@.len() as int) =~= events@);
        r
    }
}

} // verus!
