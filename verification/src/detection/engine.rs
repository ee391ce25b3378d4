//! The detection engine: rules and indicator checks applied to each event,
//! and the alerts raised from what they find.
use vstd::prelude::*;

use crate::clock::uuid_text;
use crate::models::{Alert, AlertStatus, IncidentSeverity, SecurityEvent};
use crate::text::{byte_prefix, fits_or_splits, prefix_bytes};

use super::correlation::{bump, is_failure, CorrelationEngine};
use super::ioc::{default_domains, default_filenames, default_hashes, default_ips, texts, IocList};
use super::rule::{all_wf, DetectionRule};
use super::severity::Severity;

verus! {

/// The main detection engine: applies rules and IOC checks to incoming
/// events.
pub struct DetectionEngine {
    pub rules: Vec<DetectionRule>,
    pub ioc_list: IocList,
    pub correlation: CorrelationEngine,
}

/// Result of running the detection engine on an event.
pub struct DetectionMatch {
    pub rule_id: String,
    pub rule_name: String,
    pub severity: Severity,
    pub ioc_hit: bool,
}

/// The rules of `rules` that fire on a message from a source, in order.
pub open spec fn fired(rules: Seq<DetectionRule>, message: Seq<char>, source: Seq<char>) -> Seq<
    DetectionRule,
>
    decreases rules.len(),
{
    if rules.len() == 0 {
        Seq::empty()
    } else if rules.last().fires(message, source) {
        fired(rules.drop_last(), message, source).push(rules.last())
    } else {
        fired(rules.drop_last(), message, source)
    }
}

/// `m` reports that `rule` fired, with the given indicator verdict.
pub open spec fn reports(m: DetectionMatch, rule: DetectionRule, ioc_hit: bool) -> bool {
    &&& m.rule_id@ == rule.id@
    &&& m.rule_name@ == rule.name@
    &&& m.severity == rule.severity
    &&& m.ioc_hit == ioc_hit
}

/// `m` is the indicator-only match.
pub open spec fn is_ioc_only(m: DetectionMatch) -> bool {
    &&& m.rule_id@ == "IOC-MATCH"@
    &&& m.rule_name@ == "IOC Match"@
    &&& m.severity == Severity::High
    &&& m.ioc_hit
}

/// The matches `analyze` returns for an event: one per fired rule, each
/// carrying the indicator verdict on the message; or, when no rule fires
/// but the message holds an indicator, the single indicator-only match;
/// or nothing.
pub open spec fn analysis(
    rules: Seq<DetectionRule>,
    iocs: IocList,
    event: SecurityEvent,
    r: Seq<DetectionMatch>,
) -> bool {
    let f = fired(rules, event.message@, event.source.name());
    let hit = iocs.flags(event.message@);
    if f.len() > 0 {
        &&& r.len() == f.len()
        &&& forall|i: int| 0 <= i < f.len() ==> reports(#[trigger] r[i], f[i], hit)
    } else if hit {
        r.len() == 1 && is_ioc_only(r[0])
    } else {
        r.len() == 0
    }
}

/// `after` is `before` having ingested `event`.
pub open spec fn ingested(before: CorrelationEngine, after: CorrelationEngine, event: SecurityEvent) -> bool {
    &&& after.host_table() == bump(before.host_table(), event.host@)
    &&& after.ip_table() == (match event.source_ip {
        Some(ip) => bump(before.ip_table(), ip@),
        None => before.ip_table(),
    })
    &&& after.auth_table() == (match event.source_ip {
        Some(ip) => if is_failure(event.event_type@) {
            bump(before.auth_table(), ip@)
        } else {
            before.auth_table()
        },
        None => before.auth_table(),
    })
    &&& (before.wf() ==> after.wf())
}

/// The title of an alert raised by a match.
pub open spec fn alert_title(severity: Severity, rule_name: Seq<char>) -> Seq<char> {
    "["@ + severity.upper_name() + "] "@ + rule_name
}

/// The description of an alert raised by a match on an event.
pub open spec fn alert_description(rule_name: Seq<char>, host: Seq<char>, message: Seq<char>, ioc_hit: bool) -> Seq<char> {
    "Rule '"@ + rule_name + "' triggered on host '"@ + host + "': "@ + byte_prefix(message, 200)
        + if ioc_hit {
        " [IOC MATCH]"@
    } else {
        Seq::<char>::empty()
    }
}

impl DetectionEngine {
    /// An engine with the given rules, the default indicator list and
    /// nothing correlated yet.
    pub fn new(rules: Vec<DetectionRule>) -> (r: DetectionEngine)
        ensures
            r.rules@ == rules@,
            texts(r.ioc_list.malicious_ips@) == default_ips(),
            texts(r.ioc_list.malicious_domains@) == default_domains(),
            texts(r.ioc_list.malicious_hashes@) == default_hashes(),
            texts(r.ioc_list.malicious_filenames@) == default_filenames(),
            r.correlation.wf(),
            r.correlation.ip_table().len() == 0,
            r.correlation.host_table().len() == 0,
            r.correlation.auth_table().len() == 0,
    {
        DetectionEngine { rules, ioc_list: IocList::new(), correlation: CorrelationEngine::new() }
    }

    /// Analyze a single security event and return any matches; the event
    /// also feeds the correlation engine.
    pub fn analyze(&mut self, event: &SecurityEvent) -> (r: Vec<DetectionMatch>)
        requires
            all_wf(old(self).rules@),
        ensures
            analysis(old(self).rules@, old(self).ioc_list, *event, r@),
            ingested(old(self).correlation, final(self).correlation, *event),
            final(self).rules@ == old(self).rules@,
            final(self).ioc_list == old(self).ioc_list,
    {
        self.correlation.ingest(event);
        let mut matches: Vec<DetectionMatch> = Vec::new();
        let source_str = event.source.as_str();
        let message = event.message.as_str();
        let hit = self.ioc_list.check_message(message);
        let ghost rules = self.rules@;
        let mut i: usize = 0;
        while i < self.rules.len()
            invariant
                rules == self.rules@,
                all_wf(rules),
                i <= rules.len(),
                hit == self.ioc_list.flags(event.message@),
                source_str@ == event.source.name(),
                message@ == event.message@,
                matches@.len() == fired(rules.take(i as int), event.message@, event.source.name()).len(),
                forall|j: int|
                    0 <= j < matches@.len() ==> reports(
                        #[trigger] matches@[j],
                        fired(rules.take(i as int), event.message@, event.source.name())[j],
                        hit,
                    ),
            decreases self.rules.len() - i,
        {
            assert(rules.take(i + 1).drop_last() =~= rules.take(i as int));
            let rule = &self.rules[i];
            if rule.matches(message, source_str) {
                matches.push(
                    DetectionMatch {
                        rule_id: rule.id.clone(),
                        rule_name: rule.name.clone(),
                        severity: rule.severity,
                        ioc_hit: hit,
                    },
                );
            }
            i = i + 1;
        }
        assert(rules.take(rules.len() as int) =~= rules);
        if matches.len() == 0 && hit {
            matches.push(
                DetectionMatch {
                    rule_id: String::from_str("IOC-MATCH"),
                    rule_name: String::from_str("IOC Match"),
                    severity: Severity::High,
                    ioc_hit: true,
                },
            );
        }
        matches
    }

    /// Generate an alert from a detection match on an event: the alert
    /// takes the match's severity, names the rule and host, quotes the
    /// message (cut to its first 200 bytes), flags an indicator hit and
    /// lists the event.
    pub fn create_alert(session_id: &str, event: &SecurityEvent, detection: &DetectionMatch) -> (r:
        Alert)
        requires
            fits_or_splits(event.message@, 200),
        ensures
            uuid_text(r.id@),
            r.session_id@ == session_id@,
            r.rule_id@ == detection.rule_id@,
            r.title@ == alert_title(detection.severity, detection.rule_name@),
            r.description@ == alert_description(
                detection.rule_name@,
                event.host@,
                event.message@,
                detection.ioc_hit,
            ),
            r.severity == detection.severity.incident_severity(),
            r.status == AlertStatus::New,
            r.event_ids@.len() == 1 && r.event_ids@[0] == event.id,
            r.source@ == event.source.name(),
            r.created_at >= 0,
            r.acknowledged_at is None,
            r.resolved_at is None,
    {
        let severity = detection.severity.to_incident_severity();
        let mut title = String::from_str("[");
        title.append(detection.severity.upper_str());
        title.append("] ");
        title.append(detection.rule_name.as_str());
        let mut alert = Alert::new(
            session_id,
            detection.rule_id.as_str(),
            title.as_str(),
            severity,
            event.source.as_str(),
        );
        let mut d = String::from_str("Rule '");
        d.append(detection.rule_name.as_str());
        d.append("' triggered on host '");
        d.append(event.host.as_str());
        d.append("': ");
        d.append(prefix_bytes(event.message.as_str(), 200));
        alert.event_ids.push(event.id.clone());
        if detection.ioc_hit {
            d.append(" [IOC MATCH]");
        } else {
            assert(d@ =~= d@ + Seq::<char>::empty());
        }
        alert.description = d;
        alert
    }
}

} // verus!
