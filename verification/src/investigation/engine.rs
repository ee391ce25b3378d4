//! Investigation findings of a session.
use vstd::prelude::*;

use crate::models::{Evidence, SecurityEvent};
use crate::ordered::{strictly_sorted, views};

use super::queries::{keep, malicious, malicious_hosts, malicious_sources, InvestigationQuery};

verus! {

/// A summary of investigation findings for a session.
#[derive(Debug)]
pub struct InvestigationSummary {
    pub total_events: usize,
    pub malicious_events: usize,
    pub compromised_hosts: Vec<String>,
    pub attacker_ips: Vec<String>,
    pub evidence_count: usize,
    pub ioc_matches: usize,
}

/// How many evidence items match a known indicator.
pub open spec fn ioc_count(s: Seq<Evidence>) -> nat
    decreases s.len(),
{
    if s.len() == 0 {
        0
    } else {
        ioc_count(s.drop_last()) + if s.last().ioc_match {
            1nat
        } else {
            0nat
        }
    }
}

impl InvestigationSummary {
    /// Summarizes a session's events and collected evidence.
    pub fn from_records(events: &[SecurityEvent], evidence: &[Evidence]) -> (r: InvestigationSummary)
        ensures
            r.total_events == events@.len(),
            r.malicious_events == keep(events@, malicious()).len(),
            strictly_sorted(views(r.compromised_hosts@)),
            views(r.compromised_hosts@).to_set() == malicious_hosts(events@),
            strictly_sorted(views(r.attacker_ips@)),
            views(r.attacker_ips@).to_set() == malicious_sources(events@),
            r.evidence_count == evidence@.len(),
            r.ioc_matches == ioc_count(evidence@),
    {
        let malicious_events = InvestigationQuery::malicious_only(events).len();
        let mut ioc: usize = 0;
        let mut i: usize = 0;
        while i < evidence.len()
            invariant
                i <= evidence@.len(),
                ioc == ioc_count(evidence@.take(i as int)),
                ioc <= i,
            decreases evidence.len() - i,
        {
            assert(evidence@.take(i + 1).drop_last() =~= evidence@.take(i as int));
            if evidence[i].ioc_match {
                ioc = ioc + 1;
            }
            i = i + 1;
        }
        assert(evidence@.take(evidence@.len() as int) =~= evidence@);
        InvestigationSummary {
            total_events: events.len(),
            malicious_events,
            compromised_hosts: InvestigationQuery::compromised_hosts(events),
            attacker_ips: InvestigationQuery::attacker_ips(events),
            evidence_count: evidence.len(),
            ioc_matches: ioc,
        }
    }
}

} // verus!
