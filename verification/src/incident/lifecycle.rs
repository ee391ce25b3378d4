//! The incident response lifecycle: New → Investigating → Contained →
//! Eradicated → Recovered → Closed, where every open phase may also close
//! at once.
use vstd::prelude::*;

use crate::clock::now_micros;
use crate::models::{Incident, IncidentStatus};

verus! {

/// Position of a phase along the lifecycle.
pub open spec fn rank(s: IncidentStatus) -> int {
    match s {
        IncidentStatus::New => 0,
        IncidentStatus::Investigating => 1,
        IncidentStatus::Contained => 2,
        IncidentStatus::Eradicated => 3,
        IncidentStatus::Recovered => 4,
        IncidentStatus::Closed => 5,
    }
}

/// The transitions the lifecycle permits.
pub open spec fn allowed(from: IncidentStatus, to: IncidentStatus) -> bool {
    match from {
        IncidentStatus::New => to == IncidentStatus::Investigating || to == IncidentStatus::Closed,
        IncidentStatus::Investigating => to == IncidentStatus::Contained || to
            == IncidentStatus::Closed,
        IncidentStatus::Contained => to == IncidentStatus::Eradicated || to
            == IncidentStatus::Closed,
        IncidentStatus::Eradicated => to == IncidentStatus::Recovered || to
            == IncidentStatus::Closed,
        IncidentStatus::Recovered => to == IncidentStatus::Closed,
        IncidentStatus::Closed => false,
    }
}

/// The name `{:?}` prints for a phase.
pub open spec fn debug_name(s: IncidentStatus) -> Seq<char> {
    match s {
        IncidentStatus::New => "New"@,
        IncidentStatus::Investigating => "Investigating"@,
        IncidentStatus::Contained => "Contained"@,
        IncidentStatus::Eradicated => "Eradicated"@,
        IncidentStatus::Recovered => "Recovered"@,
        IncidentStatus::Closed => "Closed"@,
    }
}

/// The message with which a refused transition is reported.
pub open spec fn refusal_message(from: IncidentStatus, to: IncidentStatus) -> Seq<char> {
    "Invalid transition from "@ + debug_name(from) + " to "@ + debug_name(to)
}

pub fn debug_str(s: IncidentStatus) -> (r: &'static str)
    ensures
        r@ == debug_name(s),
{
    match s {
        IncidentStatus::New => "New",
        IncidentStatus::Investigating => "Investigating",
        IncidentStatus::Contained => "Contained",
        IncidentStatus::Eradicated => "Eradicated",
        IncidentStatus::Recovered => "Recovered",
        IncidentStatus::Closed => "Closed",
    }
}

/// Whether the lifecycle permits a transition.
pub fn is_allowed(from: IncidentStatus, to: IncidentStatus) -> (r: bool)
    ensures
        r == allowed(from, to),
{
    match from {
        IncidentStatus::New => to == IncidentStatus::Investigating || to == IncidentStatus::Closed,
        IncidentStatus::Investigating => to == IncidentStatus::Contained || to
            == IncidentStatus::Closed,
        IncidentStatus::Contained => to == IncidentStatus::Eradicated || to
            == IncidentStatus::Closed,
        IncidentStatus::Eradicated => to == IncidentStatus::Recovered || to
            == IncidentStatus::Closed,
        IncidentStatus::Recovered => to == IncidentStatus::Closed,
        IncidentStatus::Closed => false,
    }
}

/// The incident `i` moved to `target` at the instant `now`: the new status,
/// `updated_at` stamped with `now`, `closed_at` stamped with `now` when
/// closing, every other field as it was.
pub open spec fn moved(i: Incident, target: IncidentStatus, now: i64) -> Incident {
    Incident {
        status: target,
        updated_at: now,
        closed_at: if target == IncidentStatus::Closed {
            Some(now)
        } else {
            i.closed_at
        },
        ..i
    }
}

/// Incident lifecycle management.
pub struct IncidentLifecycle;

impl IncidentLifecycle {
    /// Moves an incident to `target` at the instant `now` where the
    /// lifecycle permits it: the status becomes `target`, `updated_at`
    /// becomes `now` and, on closing, `closed_at` becomes `now`; every other
    /// field stays. Otherwise the incident is left untouched and the refused
    /// transition is reported.
    pub fn transition_at(incident: &mut Incident, target: IncidentStatus, now: i64) -> (r: Result<(), String>)
        ensures
            r is Ok <==> allowed(old(incident).status, target),
            r is Ok ==> *final(incident) == moved(*old(incident), target, now),
            r matches Err(msg) ==> *final(incident) == *old(incident) && msg@ == refusal_message(
                old(incident).status,
                target,
            ),
    {
        if !is_allowed(incident.status, target) {
            let mut msg = String::from_str("Invalid transition from ");
            msg.append(debug_str(incident.status));
            msg.append(" to ");
            msg.append(debug_str(target));
            return Err(msg);
        }
        incident.status = target;
        incident.updated_at = now;
        if target == IncidentStatus::Closed {
            incident.closed_at = Some(now);
        }
        Ok(())
    }

    /// Moves an incident to `target` where the lifecycle permits it,
    /// stamping `updated_at` (and, on closing, `closed_at`) with the current
    /// time; otherwise leaves it untouched and reports the refused
    /// transition. The clock's reading is the one thing the contract leaves
    /// open: the stamp is `updated_at` itself.
    pub fn transition(incident: &mut Incident, target: IncidentStatus) -> (r: Result<(), String>)
        ensures
            r is Ok <==> allowed(old(incident).status, target),
            r is Ok ==> *final(incident) == moved(*old(incident), target, final(incident).updated_at),
            r matches Err(msg) ==> *final(incident) == *old(incident) && msg@ == refusal_message(
                old(incident).status,
                target,
            ),
    {
        let now = now_micros();
        Self::transition_at(incident, target, now)
    }
}

/// A closed incident can never move again.
pub proof fn lemma_closed_is_final(to: IncidentStatus)
    ensures
        !allowed(IncidentStatus::Closed, to),
{
}

/// Every permitted transition moves strictly forward along the lifecycle:
/// no phase is revisited and nothing moves backwards.
pub proof fn lemma_transitions_advance(from: IncidentStatus, to: IncidentStatus)
    requires
        allowed(from, to),
    ensures
        rank(from) < rank(to),
{
}

/// Every phase but `Closed` may close directly.
pub proof fn lemma_open_phases_may_close(from: IncidentStatus)
    requires
        from != IncidentStatus::Closed,
    ensures
        allowed(from, IncidentStatus::Closed),
{
}

/// A run of permitted transitions visits at most the six phases, each at
/// most once, in lifecycle order.
pub proof fn lemma_runs_are_short(run: Seq<IncidentStatus>)
    requires
        forall|i: int| 0 <= i < run.len() - 1 ==> allowed(#[trigger] run[i], run[i + 1]),
    ensures
        run.len() <= 6,
        forall|i: int, j: int| 0 <= i < j < run.len() ==> rank(run[i]) < rank(run[j]),
{
    assert forall|j: int| 0 <= j < run.len() implies rank(run[0]) + j <= rank(#[trigger] run[j]) by {
        lemma_rank_grows(run, j);
    }
    assert forall|i: int, j: int| 0 <= i < j < run.len() implies rank(run[i]) < rank(run[j]) by {
        lemma_rank_gap(run, i, j);
    }
    if run.len() > 6 {
        assert(rank(run[0]) + 6 <= rank(run[6]));
    }
}

proof fn lemma_rank_grows(run: Seq<IncidentStatus>, j: int)
    requires
        forall|i: int| 0 <= i < run.len() - 1 ==> allowed(#[trigger] run[i], run[i + 1]),
        0 <= j < run.len(),
    ensures
        rank(run[0]) + j <= rank(run[j]),
    decreases j,
{
    if j > 0 {
        lemma_rank_grows(run, j - 1);
        assert(allowed(run[j - 1], run[j]));
    }
}

proof fn lemma_rank_gap(run: Seq<IncidentStatus>, i: int, j: int)
    requires
        forall|k: int| 0 <= k < run.len() - 1 ==> allowed(#[trigger] run[k], run[k + 1]),
        0 <= i < j < run.len(),
    ensures
        rank(run[i]) + (j - i) <= rank(run[j]),
    decreases j - i,
{
    if j > i + 1 {
        lemma_rank_gap(run, i, j - 1);
    }
    assert(allowed(run[j - 1], run[j]));
}

/// The full response path New → Investigating → Contained → Eradicated →
/// Recovered → Closed is permitted step by step.
pub proof fn lemma_full_path_permitted()
    ensures
        allowed(IncidentStatus::New, IncidentStatus::Investigating),
        allowed(IncidentStatus::Investigating, IncidentStatus::Contained),
        allowed(IncidentStatus::Contained, IncidentStatus::Eradicated),
        allowed(IncidentStatus::Eradicated, IncidentStatus::Recovered),
        allowed(IncidentStatus::Recovered, IncidentStatus::Closed),
{
}

/// The lifecycle exactly: a transition is permitted when it moves to the
/// very next phase, or when it closes an incident that is not yet closed;
/// no permitted transition skips a phase other than by closing.
pub proof fn lemma_allowed_exactly(from: IncidentStatus, to: IncidentStatus)
    ensures
        allowed(from, to) <==> (rank(to) == rank(from) + 1 || (to == IncidentStatus::Closed && from
            != IncidentStatus::Closed)),
{
}

} // verus!
