//! Detection rules: a regular expression (or, when it does not compile, a
//! case-insensitive substring) tested against an event's message.
use vstd::prelude::*;

use crate::config::DetectionRuleEntry;
use crate::pattern::{regex_compiles, regex_finds, regex_is_match, regex_valid};
use crate::text::{has_sub, lower, owned, str_contains, str_eq, str_lower};

use super::severity::Severity;

verus! {

/// A rule's pattern in compiled form: a pattern that the `regex` crate
/// accepts.
#[derive(Debug, Clone)]
pub struct CompiledRule {
    pub pattern: String,
}

/// A detection rule that matches events by regex pattern.
#[derive(Debug, Clone)]
pub struct DetectionRule {
    pub id: String,
    pub name: String,
    pub description: String,
    pub severity: Severity,
    pub pattern: String,
    pub source: String,
    pub enabled: bool,
    pub compiled: Option<CompiledRule>,
}

impl DetectionRule {
    /// A compiled pattern is one that the regex engine accepts.
    pub open spec fn wf(&self) -> bool {
        self.compiled matches Some(c) ==> regex_compiles(c.pattern@)
    }

    /// What `matches` answers for a message from a source.
    pub open spec fn fires(&self, message: Seq<char>, source: Seq<char>) -> bool {
        &&& self.enabled
        &&& (self.source@ == "any"@ || self.source@ == source)
        &&& match self.compiled {
            Some(c) => regex_finds(c.pattern@, message),
            None => has_sub(str_lower(message), str_lower(self.pattern@)),
        }
    }

    /// An enabled rule, compiled when the regex engine accepts its pattern.
    pub fn new(
        id: &str,
        name: &str,
        description: &str,
        severity: Severity,
        pattern: &str,
        source: &str,
    ) -> (r: DetectionRule)
        ensures
            r.wf(),
            r.id@ == id@,
            r.name@ == name@,
            r.description@ == description@,
            r.severity == severity,
            r.pattern@ == pattern@,
            r.source@ == source@,
            r.enabled,
            regex_compiles(pattern@) ==> (r.compiled matches Some(c) && c.pattern@ == pattern@),
            !regex_compiles(pattern@) ==> r.compiled is None,
    {
        let compiled = if regex_valid(pattern) {
            Some(CompiledRule { pattern: owned(pattern) })
        } else {
            None
        };
        DetectionRule {
            id: owned(id),
            name: owned(name),
            description: owned(description),
            severity,
            pattern: owned(pattern),
            source: owned(source),
            enabled: true,
            compiled,
        }
    }

    /// Compiles the pattern if it is not compiled yet and the regex engine
    /// accepts it.
    pub fn compile(&mut self)
        requires
            old(self).wf(),
        ensures
            final(self).wf(),
            old(self).compiled is None && regex_compiles(old(self).pattern@) ==> (final(self).compiled matches Some(c) && c.pattern@ == old(self).pattern@),
            !(old(self).compiled is None && regex_compiles(old(self).pattern@)) ==> *final(self)
                == *old(self),
            final(self).id == old(self).id,
            final(self).name == old(self).name,
            final(self).pattern == old(self).pattern,
            final(self).source == old(self).source,
            final(self).severity == old(self).severity,
            final(self).enabled == old(self).enabled,
    {
        if self.compiled.is_none() {
            if regex_valid(self.pattern.as_str()) {
                self.compiled = Some(CompiledRule { pattern: self.pattern.clone() });
            }
        }
    }

    /// Whether this rule fires on a message from a source: the rule must be
    /// enabled and its source `any` or equal to the event's; then the
    /// compiled pattern must match, or, without one, the lowercased
    /// message must hold the lowercased pattern.
    pub fn matches(&self, message: &str, source: &str) -> (r: bool)
        requires
            self.wf(),
        ensures
            r == self.fires(message@, source@),
    {
        if !self.enabled {
            return false;
        }
        if !str_eq(self.source.as_str(), "any") && !str_eq(self.source.as_str(), source) {
            return false;
        }
        match &self.compiled {
            Some(c) => regex_is_match(c.pattern.as_str(), message),
            None => {
                let m = lower(message);
                let p = lower(self.pattern.as_str());
                str_contains(m.as_str(), p.as_str())
            },
        }
    }
}

/// Every rule of a list is well formed.
pub open spec fn all_wf(rules: Seq<DetectionRule>) -> bool {
    forall|i: int| 0 <= i < rules.len() ==> (#[trigger] rules[i]).wf()
}

/// Build detection rules from config entries. Every rule starts enabled,
/// whatever the entry's `enabled` says.
pub fn rules_from_config(entries: &[DetectionRuleEntry]) -> (r: Vec<DetectionRule>)
    ensures
        r@.len() == entries@.len(),
        all_wf(r@),
        forall|i: int|
            0 <= i < entries@.len() ==> {
                let e = entries@[i];
                let rule = #[trigger] r@[i];
                &&& rule.id@ == e.id@
                &&& rule.name@ == e.name@
                &&& rule.description@ == e.description@
                &&& rule.severity == Severity::from_lower_spec(str_lower(e.severity@))
                &&& rule.pattern@ == e.pattern@
                &&& rule.source@ == e.source@
                &&& rule.enabled
                &&& (regex_compiles(e.pattern@) ==> (rule.compiled matches Some(c) && c.pattern@
                    == e.pattern@))
                &&& (!regex_compiles(e.pattern@) ==> rule.compiled is None)
            },
{
    let mut r: Vec<DetectionRule> = Vec::new();
    let mut i: usize = 0;
    while i < entries.len()
        invariant
            i <= entries@.len(),
            r@.len() == i,
            all_wf(r@),
            forall|k: int|
                0 <= k < i ==> {
                    let e = entries@[k];
                    let rule = #[trigger] r@[k];
                    &&& rule.id@ == e.id@
                    &&& rule.name@ == e.name@
                    &&& rule.description@ == e.description@
                    &&& rule.severity == Severity::from_lower_spec(str_lower(e.severity@))
                    &&& rule.pattern@ == e.pattern@
                    &&& rule.source@ == e.source@
                    &&& rule.enabled
                    &&& (regex_compiles(e.pattern@) ==> (rule.compiled matches Some(c)
                        && c.pattern@ == e.pattern@))
                    &&& (!regex_compiles(e.pattern@) ==> rule.compiled is None)
                },
        decreases entries.len() - i,
    {
        let e = &entries[i];
        let rule = DetectionRule::new(
            e.id.as_str(),
            e.name.as_str(),
            e.description.as_str(),
            Severity::from_str(e.severity.as_str()),
            e.pattern.as_str(),
            e.source.as_str(),
        );
        r.push(rule);
        i = i + 1;
    }
    r
}

} // verus!
