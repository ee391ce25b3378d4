//! The decisions behind incident management, apart from storage: building
//! incidents, finding one by id, advancing it, attaching alerts and
//! selecting the open ones.
use vstd::prelude::*;

use crate::clock::{now_micros, uuid_text};
use crate::models::{Alert, Incident, IncidentSeverity, IncidentStatus};
use crate::text::{owned, str_eq};

use super::lifecycle::{allowed, refusal_message, IncidentLifecycle};

verus! {

/// The title of an incident opened from an alert.
pub open spec fn alert_incident_title(alert_title: Seq<char>) -> Seq<char> {
    "Incident: "@ + alert_title
}

/// The description of an incident opened from an alert.
pub open spec fn alert_incident_description(alert_title: Seq<char>, source: Seq<char>) -> Seq<
    char,
> {
    "Incident created from alert '"@ + alert_title + "'. Source: "@ + source + "."@
}

/// A new incident opened from an alert: it takes the alert's severity,
/// names the alert in its title and description, and lists the alert.
pub fn incident_from_alert(alert: &Alert, session_id: &str, scenario_id: &str) -> (r: Incident)
    ensures
        uuid_text(r.id@),
        r.session_id@ == session_id@,
        r.scenario_id@ == scenario_id@,
        r.title@ == alert_incident_title(alert.title@),
        r.description@ == alert_incident_description(alert.title@, alert.source@),
        r.status == IncidentStatus::New,
        r.severity == alert.severity,
        r.assigned_to is None,
        r.alert_ids@ == seq![alert.id],
        r.closed_at is None,
{
    let mut title = String::from_str("Incident: ");
    title.append(alert.title.as_str());
    let mut incident = Incident::new(session_id, scenario_id, title.as_str(), alert.severity);
    let mut d = String::from_str("Incident created from alert '");
    d.append(alert.title.as_str());
    d.append("'. Source: ");
    d.append(alert.source.as_str());
    d.append(".");
    incident.description = d;
    incident.alert_ids.push(alert.id.clone());
    assert(incident.alert_ids@ =~= seq![alert.id]);
    incident
}

/// A new incident created directly, with the given description.
pub fn incident_with_description(
    session_id: &str,
    scenario_id: &str,
    title: &str,
    severity: IncidentSeverity,
    description: &str,
) -> (r: Incident)
    ensures
        uuid_text(r.id@),
        r.session_id@ == session_id@,
        r.scenario_id@ == scenario_id@,
        r.title@ == title@,
        r.description@ == description@,
        r.status == IncidentStatus::New,
        r.severity == severity,
        r.assigned_to is None,
        r.alert_ids@.len() == 0,
        r.closed_at is None,
{
    let mut incident = Incident::new(session_id, scenario_id, title, severity);
    incident.description = owned(description);
    incident
}

/// The position of the first incident with the given id.
pub fn find_incident(incidents: &Vec<Incident>, incident_id: &str) -> (r: Option<usize>)
    ensures
        r matches Some(i) ==> i < incidents@.len() && incidents@[i as int].id@ == incident_id@
            && forall|j: int| 0 <= j < i ==> incidents@[j].id@ != incident_id@,
        r is None ==> forall|j: int|
            0 <= j < incidents@.len() ==> incidents@[j].id@ != incident_id@,
{
    let mut i: usize = 0;
    while i < incidents.len()
        invariant
            i <= incidents@.len(),
            forall|j: int| 0 <= j < i ==> incidents@[j].id@ != incident_id@,
        decreases incidents.len() - i,
    {
        if str_eq(incidents[i].id.as_str(), incident_id) {
            return Some(i);
        }
        i = i + 1;
    }
    None
}

/// Why an incident could not be advanced.
pub open spec fn not_found_message(incident_id: Seq<char>) -> Seq<char> {
    "Incident not found: "@ + incident_id
}

/// Finds the incident with the given id among a session's incidents and
/// moves it to `target`. Fails when no incident has that id, or when the
/// lifecycle refuses the transition.
pub fn advance_incident(incidents: Vec<Incident>, incident_id: &str, target: IncidentStatus) -> (r:
    Result<Incident, String>)
    ensures
        (forall|j: int| 0 <= j < incidents@.len() ==> incidents@[j].id@ != incident_id@) ==> (r
            matches Err(m) && m@ == not_found_message(incident_id@)),
        forall|i: int|
            0 <= i < incidents@.len() && incidents@[i].id@ == incident_id@ && (forall|j: int|
                0 <= j < i ==> incidents@[j].id@ != incident_id@) ==> {
                let inc = #[trigger] incidents@[i];
                &&& (allowed(inc.status, target) ==> (r matches Ok(out) && out.status == target
                    && out.id == inc.id && out.session_id == inc.session_id && out.alert_ids
                    == inc.alert_ids && out.severity == inc.severity))
                &&& (!allowed(inc.status, target) ==> (r matches Err(m) && m@ == refusal_message(
                    inc.status,
                    target,
                )))
            },
{
    let mut incidents = incidents;
    match find_incident(&incidents, incident_id) {
        None => {
            let mut m = String::from_str("Incident not found: ");
            m.append(incident_id);
            Err(m)
        },
        Some(i) => {
            let mut inc = incidents.remove(i);
            match IncidentLifecycle::transition(&mut inc, target) {
                Ok(()) => Ok(inc),
                Err(m) => Err(m),
            }
        },
    }
}

/// Lists an alert on an incident unless it is already listed, stamping
/// `updated_at` when it adds it. Returns whether the incident changed.
pub fn attach_alert_id(incident: &mut Incident, alert_id: &str) -> (changed: bool)
    ensures
        changed <==> !old(incident).alert_ids@.map_values(|a: String| a@).contains(alert_id@),
        changed ==> final(incident).alert_ids@.len() == old(incident).alert_ids@.len() + 1,
        changed ==> final(incident).alert_ids@.drop_last() == old(incident).alert_ids@,
        changed ==> final(incident).alert_ids@.last()@ == alert_id@,
        !changed ==> *final(incident) == *old(incident),
        final(incident).alert_ids@.map_values(|a: String| a@).contains(alert_id@),
        final(incident).id == old(incident).id,
        final(incident).status == old(incident).status,
        final(incident).severity == old(incident).severity,
        final(incident).session_id == old(incident).session_id,
{
    let mut i: usize = 0;
    let ghost ids = incident.alert_ids@.map_values(|a: String| a@);
    while i < incident.alert_ids.len()
        invariant
            i <= incident.alert_ids@.len(),
            ids == incident.alert_ids@.map_values(|a: String| a@),
            forall|j: int| 0 <= j < i ==> ids[j] != alert_id@,
        decreases incident.alert_ids.len() - i,
    {
        if str_eq(incident.alert_ids[i].as_str(), alert_id) {
            assert(ids[i as int] == alert_id@);
            return false;
        }
        i = i + 1;
    }
    assert(!ids.contains(alert_id@));
    incident.alert_ids.push(owned(alert_id));
    incident.updated_at = now_micros();
    let ghost ids2 = incident.alert_ids@.map_values(|a: String| a@);
    assert(ids2[ids2.len() - 1] == alert_id@);
    assert(incident.alert_ids@.drop_last() =~= old(incident).alert_ids@);
    true
}

/// The incidents of `s` that are not closed, in order.
pub open spec fn keep_open(s: Seq<Incident>) -> Seq<Incident>
    decreases s.len(),
{
    if s.len() == 0 {
        Seq::empty()
    } else if s.last().status != IncidentStatus::Closed {
        keep_open(s.drop_last()).push(s.last())
    } else {
        keep_open(s.drop_last())
    }
}

/// The incidents that are not closed, in their order.
pub fn open_only(incidents: Vec<Incident>) -> (r: Vec<Incident>)
    ensures
        r@ == keep_open(incidents@),
{
    let ghost all = incidents@;
    let mut r: Vec<Incident> = Vec::new();
    for inc in it: incidents
        invariant
            it.seq() == all,
            r@ == keep_open(all.take(it.index() as int)),
    {
        let ghost k = it.index() as int;
        assert(all.take(k + 1).drop_last() =~= all.take(k));
        if inc.status != IncidentStatus::Closed {
            r.push(inc);
        }
    }
    assert(all.take(all.len() as int) =~= all);
    r
}

/// No incident selected by `open_only` is closed, and every open incident
/// is selected.
pub proof fn lemma_open_only_exact(s: Seq<Incident>)
    ensures
        forall|i: int|
            0 <= i < keep_open(s).len() ==> (#[trigger] keep_open(s)[i]).status
                != IncidentStatus::Closed,
        forall|i: int|
            0 <= i < s.len() && (#[trigger] s[i]).status != IncidentStatus::Closed
                ==> keep_open(s).contains(s[i]),
    decreases s.len(),
{
    if s.len() > 0 {
        lemma_open_only_exact(s.drop_last());
        assert forall|i: int|
            0 <= i < s.len() && (#[trigger] s[i]).status != IncidentStatus::Closed implies keep_open(
            s,
        ).contains(s[i]) by {
            if i < s.len() - 1 {
                assert(s.drop_last()[i] == s[i]);
                let k = choose|k: int|
                    0 <= k < keep_open(s.drop_last()).len() && keep_open(s.drop_last())[k] == s[i];
                assert(keep_open(s)[k] == s[i]);
            } else {
                assert(keep_open(s).last() == s[i]);
            }
        }
    }
}

} // verus!
