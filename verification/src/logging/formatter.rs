//! Log lines in the syslog, CEF, JSON and Windows event styles.
use vstd::prelude::*;

use crate::clock::{iso_seconds, iso_seconds_text, rfc3339, rfc3339_text, syslog_time, syslog_time_text};
use crate::text::{chars_of, decimal, decimal_string, string_from_chars};

verus! {

/// A CEF extension `key=value`.
pub open spec fn cef_pair(p: (&str, &str)) -> Seq<char> {
    p.0@ + "="@ + p.1@
}

/// The CEF extensions, each `key=value`, joined by single spaces.
pub open spec fn cef_extensions(s: Seq<(&str, &str)>) -> Seq<char>
    decreases s.len(),
{
    if s.len() == 0 {
        seq![]
    } else if s.len() == 1 {
        cef_pair(s[0])
    } else {
        cef_extensions(s.drop_last()) + " "@ + cef_pair(s.last())
    }
}

/// The message with each `"` preceded by a backslash.
pub open spec fn escape_quotes(s: Seq<char>) -> Seq<char>
    decreases s.len(),
{
    if s.len() == 0 {
        seq![]
    } else if s.last() == '"' {
        escape_quotes(s.drop_last()) + "\\\""@
    } else {
        escape_quotes(s.drop_last()).push(s.last())
    }
}

fn escaped(s: &str) -> (r: String)
    ensures
        r@ == escape_quotes(s@),
{
    let v = chars_of(s);
    let mut w: Vec<char> = Vec::new();
    let mut i: usize = 0;
    while i < v.len()
        invariant
            v@ == s@,
            i <= v@.len(),
            w@ == escape_quotes(v@.subrange(0, i as int)),
        decreases v.len() - i,
    {
        assert(v@.subrange(0, i + 1).drop_last() == v@.subrange(0, i as int));
        if v[i] == '"' {
            w.push('\\');
            w.push('"');
            proof {
                reveal_strlit("\\\"");
            }
            assert(w@ =~= escape_quotes(v@.subrange(0, i + 1)));
        } else {
            w.push(v[i]);
        }
        i = i + 1;
    }
    assert(v@.subrange(0, v@.len() as int) == v@);
    string_from_chars(&w)
}

/// Formats log lines in different styles. Timestamps are microseconds
/// since the Unix epoch, UTC.
pub struct LogFormatter;

impl LogFormatter {
    /// Syslog RFC 3164 style: `<time> <host> <program>[<pid>]: <message>`.
    pub fn syslog(timestamp: i64, host: &str, program: &str, pid: u32, message: &str) -> (r: String)
        ensures
            r@ == syslog_time_text(timestamp) + " "@ + host@ + " "@ + program@ + "["@ + decimal(pid as nat) + "]: "@
                + message@,
    {
        let mut r = syslog_time(timestamp);
        r.append(" ");
        r.append(host);
        r.append(" ");
        r.append(program);
        r.append("[");
        r.append(decimal_string(pid as u64).as_str());
        r.append("]: ");
        r.append(message);
        r
    }

    /// CEF (Common Event Format) for SIEM ingestion.
    pub fn cef(
        vendor: &str,
        product: &str,
        version: &str,
        event_class: &str,
        name: &str,
        severity: u8,
        extensions: &[(&str, &str)],
    ) -> (r: String)
        ensures
            r@ == "CEF:0|"@ + vendor@ + "|"@ + product@ + "|"@ + version@ + "|"@ + event_class@ + "|"@ + name@ + "|"@
                + decimal(severity as nat) + "|"@ + cef_extensions(extensions@),
    {
        let mut ext = String::new();
        let mut i: usize = 0;
        assert(extensions@.subrange(0, 0) == Seq::<(&str, &str)>::empty());
        while i < extensions.len()
            invariant
                i <= extensions@.len(),
                ext@ == cef_extensions(extensions@.subrange(0, i as int)),
            decreases extensions.len() - i,
        {
            let ghost before = ext@;
            let (k, v) = extensions[i];
            let ghost pre = extensions@.subrange(0, i as int);
            assert(extensions@.subrange(0, i + 1).drop_last() == pre);
            assert(extensions@.subrange(0, i + 1).last() == (k, v));
            if i > 0 {
                ext.append(" ");
            }
            ext.append(k);
            ext.append("=");
            ext.append(v);
            if i == 0 {
                assert(extensions@.subrange(0, 1)[0] == (k, v));
                assert(ext@ == cef_pair((k, v)));
            }
            i = i + 1;
        }
        assert(extensions@.subrange(0, extensions@.len() as int) == extensions@);
        let mut r = String::from_str("CEF:0|");
        r.append(vendor);
        r.append("|");
        r.append(product);
        r.append("|");
        r.append(version);
        r.append("|");
        r.append(event_class);
        r.append("|");
        r.append(name);
        r.append("|");
        r.append(decimal_string(severity as u64).as_str());
        r.append("|");
        r.append(ext.as_str());
        r
    }

    /// A JSON log line; quotes in the message are escaped with a
    /// backslash.
    pub fn json(timestamp: i64, level: &str, host: &str, message: &str) -> (r: String)
        ensures
            r@ == "{\"timestamp\":\""@ + rfc3339_text(timestamp) + "\",\"level\":\""@ + level@ + "\",\"host\":\""@ + host@
                + "\",\"message\":\""@ + escape_quotes(message@) + "\"}"@,
    {
        let mut r = String::from_str("{\"timestamp\":\"");
        r.append(rfc3339(timestamp).as_str());
        r.append("\",\"level\":\"");
        r.append(level);
        r.append("\",\"host\":\"");
        r.append(host);
        r.append("\",\"message\":\"");
        r.append(escaped(message).as_str());
        r.append("\"}");
        r
    }

    /// Windows Event Log style.
    pub fn windows_event(timestamp: i64, event_id: u32, source: &str, message: &str) -> (r: String)
        ensures
            r@ == "EventID="@ + decimal(event_id as nat) + " Source="@ + source@ + " Time="@ + iso_seconds_text(timestamp)
                + " Message="@ + message@,
    {
        let mut r = String::from_str("EventID=");
        r.append(decimal_string(event_id as u64).as_str());
        r.append(" Source=");
        r.append(source);
        r.append(" Time=");
        r.append(iso_seconds(timestamp).as_str());
        r.append(" Message=");
        r.append(message);
        r
    }
}

} // verus!
