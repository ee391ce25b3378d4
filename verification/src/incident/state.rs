//! Counts of a session's incidents by phase and open severity.
use vstd::prelude::*;

use crate::models::{Incident, IncidentSeverity, IncidentStatus};

verus! {

/// Snapshot of the current simulation's incident state.
#[derive(Debug, Clone, Default)]
pub struct IncidentState {
    pub total_incidents: usize,
    pub by_status: StatusCounts,
    pub critical_open: usize,
    pub high_open: usize,
}

/// Incidents per lifecycle phase.
#[derive(Debug, Clone, Default)]
pub struct StatusCounts {
    pub new: usize,
    pub investigating: usize,
    pub contained: usize,
    pub eradicated: usize,
    pub recovered: usize,
    pub closed: usize,
}

/// How many incidents of `s` are in phase `st`.
pub open spec fn count_status(s: Seq<Incident>, st: IncidentStatus) -> nat
    decreases s.len(),
{
    if s.len() == 0 {
        0
    } else {
        count_status(s.drop_last(), st) + if s.last().status == st {
            1nat
        } else {
            0nat
        }
    }
}

/// How many incidents of `s` are still open with severity `sev`.
pub open spec fn count_open(s: Seq<Incident>, sev: IncidentSeverity) -> nat
    decreases s.len(),
{
    if s.len() == 0 {
        0
    } else {
        count_open(s.drop_last(), sev) + if s.last().status != IncidentStatus::Closed
            && s.last().severity == sev {
            1nat
        } else {
            0nat
        }
    }
}

impl StatusCounts {
    /// The sum of all six phase counts.
    pub open spec fn sum(self) -> int {
        self.new + self.investigating + self.contained + self.eradicated + self.recovered
            + self.closed
    }
}

impl IncidentState {
    /// The state that `from_incidents` computes for `s`.
    pub open spec fn describes(self, s: Seq<Incident>) -> bool {
        &&& self.total_incidents == s.len()
        &&& self.by_status.new == count_status(s, IncidentStatus::New)
        &&& self.by_status.investigating == count_status(s, IncidentStatus::Investigating)
        &&& self.by_status.contained == count_status(s, IncidentStatus::Contained)
        &&& self.by_status.eradicated == count_status(s, IncidentStatus::Eradicated)
        &&& self.by_status.recovered == count_status(s, IncidentStatus::Recovered)
        &&& self.by_status.closed == count_status(s, IncidentStatus::Closed)
        &&& self.critical_open == count_open(s, IncidentSeverity::Critical)
        &&& self.high_open == count_open(s, IncidentSeverity::High)
    }

    /// Counts the incidents by phase, and the open critical and high ones.
    pub fn from_incidents(incidents: &[Incident]) -> (r: IncidentState)
        ensures
            r.describes(incidents@),
    {
        let mut st = IncidentState {
            total_incidents: incidents.len(),
            by_status: StatusCounts {
                new: 0,
                investigating: 0,
                contained: 0,
                eradicated: 0,
                recovered: 0,
                closed: 0,
            },
            critical_open: 0,
            high_open: 0,
        };
        let mut i: usize = 0;
        while i < incidents.len()
            invariant
                i <= incidents@.len(),
                st.total_incidents == incidents@.len(),
                st.describes_prefix(incidents@.take(i as int)),
            decreases incidents.len() - i,
        {
            let ghost pre = incidents@.take(i as int);
            proof {
                lemma_counts_bounded(pre);
            }
            let inc = &incidents[i];
            match inc.status {
                IncidentStatus::New => st.by_status.new = st.by_status.new + 1,
                IncidentStatus::Investigating => st.by_status.investigating =
                st.by_status.investigating + 1,
                IncidentStatus::Contained => st.by_status.contained = st.by_status.contained + 1,
                IncidentStatus::Eradicated => st.by_status.eradicated = st.by_status.eradicated
                    + 1,
                IncidentStatus::Recovered => st.by_status.recovered = st.by_status.recovered + 1,
                IncidentStatus::Closed => st.by_status.closed = st.by_status.closed + 1,
            }
            if inc.status != IncidentStatus::Closed {
                match inc.severity {
                    IncidentSeverity::Critical => st.critical_open = st.critical_open + 1,
                    IncidentSeverity::High => st.high_open = st.high_open + 1,
                    _ => {},
                }
            }
            i = i + 1;
            assert(incidents@.take(i as int).drop_last() =~= pre);
        }
        assert(incidents@.take(incidents@.len() as int) =~= incidents@);
        st
    }

    /// The counts of `from_incidents`, without the total.
    pub open spec fn describes_prefix(self, s: Seq<Incident>) -> bool {
        &&& self.by_status.new == count_status(s, IncidentStatus::New)
        &&& self.by_status.investigating == count_status(s, IncidentStatus::Investigating)
        &&& self.by_status.contained == count_status(s, IncidentStatus::Contained)
        &&& self.by_status.eradicated == count_status(s, IncidentStatus::Eradicated)
        &&& self.by_status.recovered == count_status(s, IncidentStatus::Recovered)
        &&& self.by_status.closed == count_status(s, IncidentStatus::Closed)
        &&& self.critical_open == count_open(s, IncidentSeverity::Critical)
        &&& self.high_open == count_open(s, IncidentSeverity::High)
    }
}

/// Every count is at most the number of incidents counted.
pub proof fn lemma_counts_bounded(s: Seq<Incident>)
    ensures
        forall|st: IncidentStatus| #[trigger] count_status(s, st) <= s.len(),
        forall|sev: IncidentSeverity| #[trigger] count_open(s, sev) <= s.len(),
    decreases s.len(),
{
    if s.len() > 0 {
        lemma_counts_bounded(s.drop_last());
        assert forall|st: IncidentStatus| #[trigger] count_status(s, st) <= s.len() by {
            assert(count_status(s.drop_last(), st) <= s.drop_last().len());
        }
        assert forall|sev: IncidentSeverity| #[trigger] count_open(s, sev) <= s.len() by {
            assert(count_open(s.drop_last(), sev) <= s.drop_last().len());
        }
    }
}

/// Every incident is in exactly one phase, so the phase counts add up to
/// the total; and the open critical and high incidents, together with the
/// closed ones, are at most the total.
pub proof fn lemma_state_partitions(state: IncidentState, s: Seq<Incident>)
    requires
        state.describes(s),
    ensures
        state.by_status.sum() == state.total_incidents,
        state.critical_open + state.high_open + state.by_status.closed <= state.total_incidents,
{
    lemma_partition(s);
}

proof fn lemma_partition(s: Seq<Incident>)
    ensures
        count_status(s, IncidentStatus::New) + count_status(s, IncidentStatus::Investigating)
            + count_status(s, IncidentStatus::Contained) + count_status(
            s,
            IncidentStatus::Eradicated,
        ) + count_status(s, IncidentStatus::Recovered) + count_status(s, IncidentStatus::Closed)
            == s.len(),
        count_open(s, IncidentSeverity::Critical) + count_open(s, IncidentSeverity::High)
            + count_status(s, IncidentStatus::Closed) <= s.len(),
    decreases s.len(),
{
    if s.len() > 0 {
        lemma_partition(s.drop_last());
    }
}

/// The open counts count exactly the incidents that are not closed: of the
/// incidents with severity `sev`, those not closed are the open count, and
/// with the closed ones they make up all of them.
pub proof fn lemma_open_counts(s: Seq<Incident>, sev: IncidentSeverity)
    ensures
        count_open(s, sev) == s.filter(|i: Incident| i.status != IncidentStatus::Closed && i.severity == sev).len(),
        count_open(s, sev) + s.filter(|i: Incident| i.status == IncidentStatus::Closed && i.severity == sev).len()
            == s.filter(|i: Incident| i.severity == sev).len(),
    decreases s.len(),
{
    reveal(Seq::filter);
    if s.len() > 0 {
        lemma_open_counts(s.drop_last(), sev);
    }
}

/// Each phase count counts exactly the incidents in that phase.
pub proof fn lemma_status_counts(s: Seq<Incident>, st: IncidentStatus)
    ensures
        count_status(s, st) == s.filter(|i: Incident| i.status == st).len(),
    decreases s.len(),
{
    reveal(Seq::filter);
    if s.len() > 0 {
        lemma_status_counts(s.drop_last(), st);
    }
}

} // verus!
