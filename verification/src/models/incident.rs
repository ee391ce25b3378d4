use vstd::prelude::*;

use crate::clock::{new_uuid, now_micros, uuid_text};
use crate::text::{all_ascii, ascii_lower, lemma_lower_word_fixed, lower, lower_word, owned, str_eq, str_lower};

verus! {

/// The phase of an incident's response lifecycle.
#[derive(Debug, Clone, Copy, PartialEq, Eq, Structural)]
pub enum IncidentStatus {
    New,
    Investigating,
    Contained,
    Eradicated,
    Recovered,
    Closed,
}

/// How serious an incident or alert is.
#[derive(Debug, Clone, Copy, PartialEq, Eq, Structural)]
pub enum IncidentSeverity {
    Low,
    Medium,
    High,
    Critical,
}

impl IncidentSeverity {
    pub open spec fn name(self) -> Seq<char> {
        match self {
            IncidentSeverity::Low => "low"@,
            IncidentSeverity::Medium => "medium"@,
            IncidentSeverity::High => "high"@,
            IncidentSeverity::Critical => "critical"@,
        }
    }

    /// The severity named by a lowercased text; anything unknown is
    /// `Medium`.
    pub open spec fn from_lower_spec(l: Seq<char>) -> IncidentSeverity {
        if l == "low"@ {
            IncidentSeverity::Low
        } else if l == "medium"@ {
            IncidentSeverity::Medium
        } else if l == "high"@ {
            IncidentSeverity::High
        } else if l == "critical"@ {
            IncidentSeverity::Critical
        } else {
            IncidentSeverity::Medium
        }
    }

    pub fn as_str(&self) -> (r: &'static str)
        ensures
            r@ == self.name(),
    {
        match self {
            IncidentSeverity::Low => "low",
            IncidentSeverity::Medium => "medium",
            IncidentSeverity::High => "high",
            IncidentSeverity::Critical => "critical",
        }
    }

    /// The severity named by a text that is already lowercase.
    pub fn from_lower(l: &str) -> (r: IncidentSeverity)
        ensures
            r == Self::from_lower_spec(l@),
    {
        if str_eq(l, "low") {
            IncidentSeverity::Low
        } else if str_eq(l, "medium") {
            IncidentSeverity::Medium
        } else if str_eq(l, "high") {
            IncidentSeverity::High
        } else if str_eq(l, "critical") {
            IncidentSeverity::Critical
        } else {
            IncidentSeverity::Medium
        }
    }

    /// The severity named by a text, compared case-insensitively.
    pub fn from_str(s: &str) -> (r: IncidentSeverity)
        ensures
            r == Self::from_lower_spec(str_lower(s@)),
            all_ascii(s@) ==> r == Self::from_lower_spec(ascii_lower(s@)),
    {
        let l = lower(s);
        Self::from_lower(l.as_str())
    }

    /// A severity's name reads back as the same severity.
    pub proof fn lemma_name_round_trip(self)
        ensures
            all_ascii(self.name()),
            Self::from_lower_spec(ascii_lower(self.name())) == self,
    {
        reveal_strlit("low");
        reveal_strlit("medium");
        reveal_strlit("high");
        reveal_strlit("critical");
        assert(lower_word(self.name()));
        lemma_lower_word_fixed(self.name());
    }
}

/// A security incident worked through its lifecycle. Times are in
/// microseconds since the Unix epoch (UTC).
#[derive(Debug, Clone)]
pub struct Incident {
    pub id: String,
    pub session_id: String,
    pub title: String,
    pub description: String,
    pub status: IncidentStatus,
    pub severity: IncidentSeverity,
    pub scenario_id: String,
    pub assigned_to: Option<String>,
    pub alert_ids: Vec<String>,
    pub created_at: i64,
    pub updated_at: i64,
    pub closed_at: Option<i64>,
}

impl Incident {
    /// A new, unassigned incident opened now with a fresh identifier.
    pub fn new(session_id: &str, scenario_id: &str, title: &str, severity: IncidentSeverity) -> (r: Incident)
        ensures
            uuid_text(r.id@),
            r.session_id@ == session_id@,
            r.title@ == title@,
            r.description@ == Seq::<char>::empty(),
            r.status == IncidentStatus::New,
            r.severity == severity,
            r.scenario_id@ == scenario_id@,
            r.assigned_to is None,
            r.alert_ids@.len() == 0,
            r.updated_at == r.created_at,
            r.closed_at is None,
    {
        let now = now_micros();
        Incident {
            id: new_uuid(),
            session_id: owned(session_id),
            title: owned(title),
            description: String::new(),
            status: IncidentStatus::New,
            severity,
            scenario_id: owned(scenario_id),
            assigned_to: None,
            alert_ids: Vec::new(),
            created_at: now,
            updated_at: now,
            closed_at: None,
        }
    }
}

} // verus!
