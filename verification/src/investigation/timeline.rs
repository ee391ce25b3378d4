//! The investigation timeline: events as entries in chronological order.
use vstd::prelude::*;

use crate::models::SecurityEvent;
use crate::text::{copy_opt, starts, str_eq, str_starts_with};

verus! {

/// A single entry in the investigation timeline. `timestamp` is in
/// microseconds since the Unix epoch (UTC).
#[derive(Debug, Clone)]
pub struct TimelineEntry {
    pub timestamp: i64,
    pub event_id: String,
    pub host: String,
    pub source: String,
    pub event_type: String,
    pub description: String,
    pub is_malicious: bool,
    pub mitre_technique: Option<String>,
}

/// Ordered timeline of events for an investigation.
#[derive(Debug, Clone, Default)]
pub struct Timeline {
    pub entries: Vec<TimelineEntry>,
}

/// `t` is the timeline entry of event `e`.
pub open spec fn entry_of(t: TimelineEntry, e: SecurityEvent) -> bool {
    &&& t.timestamp == e.timestamp
    &&& t.event_id == e.id
    &&& t.host == e.host
    &&& t.source@ == e.source.name()
    &&& t.event_type == e.event_type
    &&& t.description == e.message
    &&& t.is_malicious == e.is_malicious
    &&& t.mitre_technique == e.mitre_technique
}

/// `m` holds the entries of `events`, position by position.
pub open spec fn entries_of(events: Seq<SecurityEvent>, m: Seq<TimelineEntry>) -> bool {
    m.len() == events.len() && forall|i: int| 0 <= i < m.len() ==> entry_of(#[trigger] m[i], events[i])
}

/// Entries in chronological order (ties in any order).
pub open spec fn chronological(s: Seq<TimelineEntry>) -> bool {
    forall|i: int, j: int| 0 <= i < j < s.len() ==> s[i].timestamp <= s[j].timestamp
}

/// The entries of `s` that satisfy `p`, in order.
pub open spec fn keep_entries(s: Seq<TimelineEntry>, p: spec_fn(TimelineEntry) -> bool) -> Seq<TimelineEntry>
    decreases s.len(),
{
    if s.len() == 0 {
        Seq::empty()
    } else if p(s.last()) {
        keep_entries(s.drop_last(), p).push(s.last())
    } else {
        keep_entries(s.drop_last(), p)
    }
}

/// The entries behind a list of references.
pub open spec fn entry_derefs(r: Seq<&TimelineEntry>) -> Seq<TimelineEntry> {
    r.map_values(|e: &TimelineEntry| *e)
}

/// The timeline entry of an event.
pub fn entry_for(e: &SecurityEvent) -> (t: TimelineEntry)
    ensures
        entry_of(t, *e),
{
    TimelineEntry {
        timestamp: e.timestamp,
        event_id: e.id.clone(),
        host: e.host.clone(),
        source: String::from_str(e.source.as_str()),
        event_type: e.event_type.clone(),
        description: e.message.clone(),
        is_malicious: e.is_malicious,
        mitre_technique: copy_opt(&e.mitre_technique),
    }
}

/// The entries of `s` stamped at time `t`, in order.
pub open spec fn at_time(s: Seq<TimelineEntry>, t: i64) -> Seq<TimelineEntry> {
    keep_entries(s, |e: TimelineEntry| e.timestamp == t)
}

/// Keeping entries commutes with concatenation.
pub proof fn lemma_keep_add(a: Seq<TimelineEntry>, b: Seq<TimelineEntry>, p: spec_fn(TimelineEntry) -> bool)
    ensures
        keep_entries(a + b, p) == keep_entries(a, p) + keep_entries(b, p),
    decreases b.len(),
{
    if b.len() == 0 {
        assert(a + b =~= a);
        assert(keep_entries(a, p) + keep_entries(b, p) =~= keep_entries(a, p));
    } else {
        assert((a + b).drop_last() =~= a + b.drop_last());
        assert((a + b).last() == b.last());
        lemma_keep_add(a, b.drop_last(), p);
        if p(b.last()) {
            assert(keep_entries(a, p) + keep_entries(b.drop_last(), p).push(b.last()) =~= (keep_entries(a, p)
                + keep_entries(b.drop_last(), p)).push(b.last()));
        }
    }
}

/// Nothing is kept of entries that all fail the test.
pub proof fn lemma_keep_none(s: Seq<TimelineEntry>, p: spec_fn(TimelineEntry) -> bool)
    requires
        forall|i: int| 0 <= i < s.len() ==> !p(#[trigger] s[i]),
    ensures
        keep_entries(s, p) == Seq::<TimelineEntry>::empty(),
    decreases s.len(),
{
    if s.len() > 0 {
        assert(forall|i: int| 0 <= i < s.drop_last().len() ==> s.drop_last()[i] == s[i]);
        lemma_keep_none(s.drop_last(), p);
    }
}

/// Sorts entries chronologically; entries with equal times keep their
/// order (a stable insertion sort, as `sort_by_key` is stable).
pub fn sort_chronologically(v: Vec<TimelineEntry>) -> (r: Vec<TimelineEntry>)
    ensures
        chronological(r@),
        r@.to_multiset() == v@.to_multiset(),
        forall|t: i64| #[trigger] at_time(r@, t) == at_time(v@, t),
{
    broadcast use vstd::seq_lib::group_to_multiset_ensures;

    let ghost all = v@;
    let mut r: Vec<TimelineEntry> = Vec::new();
    for x in it: v
        invariant
            it.seq() == all,
            chronological(r@),
            r@.to_multiset() == all.take(it.index() as int).to_multiset(),
            forall|t: i64| #[trigger] at_time(r@, t) == at_time(all.take(it.index() as int), t),
    {
        let ghost k = it.index() as int;
        assert(all.take(k + 1) =~= all.take(k).push(x));
        let mut p: usize = 0;
        while p < r.len() && r[p].timestamp <= x.timestamp
            invariant
                p <= r@.len(),
                forall|j: int| 0 <= j < p ==> r@[j].timestamp <= x.timestamp,
            decreases r.len() - p,
        {
            p = p + 1;
        }
        let ghost before = r@;
        r.insert(p, x);
        proof {
            vstd::seq_lib::to_multiset_insert(before, p as int, x);
            vstd::seq_lib::to_multiset_build(all.take(k), x);
            assert forall|i: int, j: int| 0 <= i < j < r@.len() implies r@[i].timestamp <= r@[j].timestamp by {
                if j < p {
                    assert(r@[i] == before[i] && r@[j] == before[j]);
                } else if j == p {
                } else if i < p {
                    assert(r@[i] == before[i] && r@[j] == before[j - 1]);
                } else if i == p {
                    assert(r@[j] == before[j - 1]);
                    assert(before[p as int].timestamp > x.timestamp);
                } else {
                    assert(r@[i] == before[i - 1] && r@[j] == before[j - 1]);
                }
            }
            let b0 = before.subrange(0, p as int);
            let b1 = before.subrange(p as int, before.len() as int);
            assert(before =~= b0 + b1);
            assert(r@ =~= b0 + seq![x] + b1);
            assert forall|t: i64| #[trigger] at_time(r@, t) == at_time(all.take(k + 1), t) by {
                let q = |e: TimelineEntry| e.timestamp == t;
                lemma_keep_add(b0 + seq![x], b1, q);
                lemma_keep_add(b0, seq![x], q);
                lemma_keep_add(b0, b1, q);
                assert(seq![x].drop_last() =~= Seq::<TimelineEntry>::empty());
                assert(keep_entries(Seq::<TimelineEntry>::empty(), q) == Seq::<TimelineEntry>::empty());
                assert(keep_entries(seq![x], q) == if q(x) {
                    seq![x]
                } else {
                    Seq::<TimelineEntry>::empty()
                });
                assert(at_time(r@, t) == keep_entries(r@, q));
                assert(at_time(before, t) == keep_entries(before, q));
                assert(at_time(all.take(k + 1), t) == keep_entries(all.take(k + 1), q));
                assert(at_time(all.take(k), t) == keep_entries(all.take(k), q));
                assert(all.take(k + 1).drop_last() =~= all.take(k));
                assert(all.take(k + 1).last() == x);
                if x.timestamp == t {
                    assert forall|i: int| 0 <= i < b1.len() implies !q(#[trigger] b1[i]) by {
                        assert(b1[i] == before[p + i]);
                        if i > 0 {
                            assert(before[p as int].timestamp <= before[p + i].timestamp);
                        }
                    }
                    lemma_keep_none(b1, q);
                    assert(keep_entries(b0, q) + keep_entries(seq![x], q) + keep_entries(b1, q) =~= keep_entries(
                        b0,
                        q,
                    ).push(x));
                    assert(keep_entries(b0, q) + keep_entries(b1, q) =~= keep_entries(b0, q));
                } else {
                    assert(keep_entries(b0, q) + keep_entries(seq![x], q) =~= keep_entries(b0, q));
                }
            }
        }
    }
    assert(all.take(all.len() as int) =~= all);
    r
}

impl Timeline {
    /// An empty timeline.
    pub fn new() -> (r: Timeline)
        ensures
            r.entries@.len() == 0,
    {
        Timeline { entries: Vec::new() }
    }

    /// The timeline of a list of events: one entry per event, in
    /// chronological order, events with equal times in their given order.
    pub fn from_events(events: &[SecurityEvent]) -> (r: Timeline)
        ensures
            chronological(r.entries@),
            exists|m: Seq<TimelineEntry>|
                entries_of(events@, m) && r.entries@.to_multiset() == m.to_multiset() && forall|t: i64|
                    #[trigger] at_time(r.entries@, t) == at_time(m, t),
    {
        let mut m: Vec<TimelineEntry> = Vec::new();
        let mut i: usize = 0;
        while i < events.len()
            invariant
                i <= events@.len(),
                m@.len() == i,
                forall|j: int| 0 <= j < i ==> entry_of(#[trigger] m@[j], events@[j]),
            decreases events.len() - i,
        {
            m.push(entry_for(&events[i]));
            i = i + 1;
        }
        let ghost mv = m@;
        assert(entries_of(events@, mv));
        let entries = sort_chronologically(m);
        Timeline { entries }
    }

    /// Adds a single event to the timeline, then orders the whole timeline
    /// chronologically again.
    pub fn add_event(&mut self, event: &SecurityEvent)
        ensures
            chronological(final(self).entries@),
            exists|t: TimelineEntry|
                entry_of(t, *event) && final(self).entries@.to_multiset() == old(self).entries@.push(t).to_multiset()
                    && forall|u: i64| #[trigger] at_time(final(self).entries@, u) == at_time(old(self).entries@.push(t), u),
    {
        let t = entry_for(event);
        let ghost tv = t;
        let mut entries = Vec::new();
        std::mem::swap(&mut entries, &mut self.entries);
        entries.push(t);
        let ghost pushed = entries@;
        assert(pushed == old(self).entries@.push(tv));
        self.entries = sort_chronologically(entries);
    }

    /// The malicious entries, in timeline order.
    pub fn malicious_only(&self) -> (r: Vec<&TimelineEntry>)
        ensures
            entry_derefs(r@) == keep_entries(self.entries@, |t: TimelineEntry| t.is_malicious),
    {
        let ghost p = |t: TimelineEntry| t.is_malicious;
        let mut r: Vec<&TimelineEntry> = Vec::new();
        let mut i: usize = 0;
        while i < self.entries.len()
            invariant
                i <= self.entries@.len(),
                p == (|t: TimelineEntry| t.is_malicious),
                entry_derefs(r@) == keep_entries(self.entries@.take(i as int), p),
            decreases self.entries.len() - i,
        {
            assert(self.entries@.take(i + 1).drop_last() =~= self.entries@.take(i as int));
            let e = &self.entries[i];
            if e.is_malicious {
                r.push(e);
            }
            assert(entry_derefs(r@) =~= keep_entries(self.entries@.take(i + 1), p));
            i = i + 1;
        }
        assert(self.entries@.take(self.entries@.len() as int) =~= self.entries@);
        r
    }

    /// The entries of a host, in timeline order.
    pub fn for_host<'a>(&'a self, host: &str) -> (r: Vec<&'a TimelineEntry>)
        ensures
            entry_derefs(r@) == keep_entries(self.entries@, |t: TimelineEntry| t.host@ == host@),
    {
        let ghost p = |t: TimelineEntry| t.host@ == host@;
        let mut r: Vec<&TimelineEntry> = Vec::new();
        let mut i: usize = 0;
        while i < self.entries.len()
            invariant
                i <= self.entries@.len(),
                p == (|t: TimelineEntry| t.host@ == host@),
                entry_derefs(r@) == keep_entries(self.entries@.take(i as int), p),
            decreases self.entries.len() - i,
        {
            assert(self.entries@.take(i + 1).drop_last() =~= self.entries@.take(i as int));
            let e = &self.entries[i];
            if str_eq(e.host.as_str(), host) {
                r.push(e);
            }
            assert(entry_derefs(r@) =~= keep_entries(self.entries@.take(i + 1), p));
            i = i + 1;
        }
        assert(self.entries@.take(self.entries@.len() as int) =~= self.entries@);
        r
    }

    /// The entries whose MITRE technique starts with the given id, in
    /// timeline order.
    pub fn for_technique<'a>(&'a self, technique: &str) -> (r: Vec<&'a TimelineEntry>)
        ensures
            entry_derefs(r@) == keep_entries(
                self.entries@,
                |t: TimelineEntry| t.mitre_technique matches Some(m) && starts(m@, technique@),
            ),
    {
        let ghost p = |t: TimelineEntry| t.mitre_technique matches Some(m) && starts(m@, technique@);
        let mut r: Vec<&TimelineEntry> = Vec::new();
        let mut i: usize = 0;
        while i < self.entries.len()
            invariant
                i <= self.entries@.len(),
                p == (|t: TimelineEntry| t.mitre_technique matches Some(m) && starts(m@, technique@)),
                entry_derefs(r@) == keep_entries(self.entries@.take(i as int), p),
            decreases self.entries.len() - i,
        {
            assert(self.entries@.take(i + 1).drop_last() =~= self.entries@.take(i as int));
            let e = &self.entries[i];
            let hit = match &e.mitre_technique {
                Some(m) => str_starts_with(m.as_str(), technique),
                None => false,
            };
            if hit {
                r.push(e);
            }
            assert(entry_derefs(r@) =~= keep_entries(self.entries@.take(i + 1), p));
            i = i + 1;
        }
        assert(self.entries@.take(self.entries@.len() as int) =~= self.entries@);
        r
    }
}

} // verus!
