use vstd::prelude::*;

use crate::models::IncidentSeverity;
use crate::text::{all_ascii, ascii_lower, lemma_lower_word_fixed, lower, lower_word, str_eq, str_lower};

verus! {

/// Unified severity level used across detection, alerts, and incidents.
#[derive(Debug, Clone, Copy, PartialEq, Eq, PartialOrd, Ord, Structural)]
pub enum Severity {
    Low,
    Medium,
    High,
    Critical,
}

impl Severity {
    pub open spec fn name(self) -> Seq<char> {
        match self {
            Severity::Low => "low"@,
            Severity::Medium => "medium"@,
            Severity::High => "high"@,
            Severity::Critical => "critical"@,
        }
    }

    /// The name in capitals, as alert titles show it.
    pub open spec fn upper_name(self) -> Seq<char> {
        match self {
            Severity::Low => "LOW"@,
            Severity::Medium => "MEDIUM"@,
            Severity::High => "HIGH"@,
            Severity::Critical => "CRITICAL"@,
        }
    }

    /// The numeric score, from 1 (low) to 4 (critical).
    pub open spec fn level(self) -> u8 {
        match self {
            Severity::Low => 1,
            Severity::Medium => 2,
            Severity::High => 3,
            Severity::Critical => 4,
        }
    }

    /// The severity named by a lowercased text; anything unknown is
    /// `Medium`.
    pub open spec fn from_lower_spec(l: Seq<char>) -> Severity {
        if l == "low"@ {
            Severity::Low
        } else if l == "medium"@ {
            Severity::Medium
        } else if l == "high"@ {
            Severity::High
        } else if l == "critical"@ {
            Severity::Critical
        } else {
            Severity::Medium
        }
    }

    pub open spec fn incident_severity(self) -> IncidentSeverity {
        match self {
            Severity::Low => IncidentSeverity::Low,
            Severity::Medium => IncidentSeverity::Medium,
            Severity::High => IncidentSeverity::High,
            Severity::Critical => IncidentSeverity::Critical,
        }
    }

    pub fn as_str(&self) -> (r: &'static str)
        ensures
            r@ == self.name(),
    {
        match self {
            Severity::Low => "low",
            Severity::Medium => "medium",
            Severity::High => "high",
            Severity::Critical => "critical",
        }
    }

    /// `as_str().to_uppercase()`: the name in capitals.
    pub fn upper_str(&self) -> (r: &'static str)
        ensures
            r@ == self.upper_name(),
    {
        match self {
            Severity::Low => "LOW",
            Severity::Medium => "MEDIUM",
            Severity::High => "HIGH",
            Severity::Critical => "CRITICAL",
        }
    }

    /// The severity named by a text that is already lowercase.
    pub fn from_lower(l: &str) -> (r: Severity)
        ensures
            r == Self::from_lower_spec(l@),
    {
        if str_eq(l, "low") {
            Severity::Low
        } else if str_eq(l, "medium") {
            Severity::Medium
        } else if str_eq(l, "high") {
            Severity::High
        } else if str_eq(l, "critical") {
            Severity::Critical
        } else {
            Severity::Medium
        }
    }

    /// The severity named by a text, compared case-insensitively.
    pub fn from_str(s: &str) -> (r: Severity)
        ensures
            r == Self::from_lower_spec(str_lower(s@)),
            all_ascii(s@) ==> r == Self::from_lower_spec(ascii_lower(s@)),
    {
        let l = lower(s);
        Self::from_lower(l.as_str())
    }

    /// Numeric score used for sorting and display.
    pub fn score(&self) -> (r: u8)
        ensures
            r == self.level(),
    {
        match self {
            Severity::Low => 1,
            Severity::Medium => 2,
            Severity::High => 3,
            Severity::Critical => 4,
        }
    }

    pub fn to_incident_severity(&self) -> (r: IncidentSeverity)
        ensures
            r == self.incident_severity(),
    {
        match self {
            Severity::Low => IncidentSeverity::Low,
            Severity::Medium => IncidentSeverity::Medium,
            Severity::High => IncidentSeverity::High,
            Severity::Critical => IncidentSeverity::Critical,
        }
    }

    /// Color class for UI rendering.
    pub fn color_class(&self) -> (r: &'static str)
        ensures
            r@ == "severity-"@ + self.name(),
    {
        proof {
            reveal_strlit("severity-low");
            reveal_strlit("severity-medium");
            reveal_strlit("severity-high");
            reveal_strlit("severity-critical");
            reveal_strlit("severity-");
            reveal_strlit("low");
            reveal_strlit("medium");
            reveal_strlit("high");
            reveal_strlit("critical");
        }
        let r = match self {
            Severity::Low => "severity-low",
            Severity::Medium => "severity-medium",
            Severity::High => "severity-high",
            Severity::Critical => "severity-critical",
        };
        assert(r@ =~= "severity-"@ + self.name());
        r
    }

    /// A severity's name reads back as the same severity.
    pub proof fn lemma_name_round_trip(self)
        ensures
            all_ascii(self.name()),
            Self::from_lower_spec(ascii_lower(self.name())) == self,
    {
        reveal_strlit("low");
        reveal_strlit("medium");
        reveal_strlit("high");
        reveal_strlit("critical");
        assert(lower_word(self.name()));
        lemma_lower_word_fixed(self.name());
    }

    /// Scores order the severities: a distinct severity has a distinct
    /// score, and the score maps onto incident severities one to one.
    pub proof fn lemma_scores_distinct(self, other: Severity)
        ensures
            (self.level() == other.level()) == (self == other),
            (self.incident_severity() == other.incident_severity()) == (self == other),
            1 <= self.level() <= 4,
    {
    }
}

} // verus!
