//! Raw syslog packets (RFC 3164 / RFC 5424 style) and the events made of
//! them.
use vstd::prelude::*;

use crate::clock::{new_uuid, now_micros, uuid_text};
use crate::lines::{trim, trimmed};
use crate::models::{EventSource, SecurityEvent};
use crate::text::{chars_of, decimal, decimal_string, has_sub, lower, owned, slice_string, str_contains, str_lower};

use super::parser::{parse_u32_text, u32_value};

verus! {

/// `i` is the first position at or after `from` where `c` stands.
pub open spec fn first_from(s: Seq<char>, c: char, from: int, i: int) -> bool {
    &&& 0 <= from <= i < s.len()
    &&& s[i] == c
    &&& forall|j: int| from <= j < i ==> s[j] != c
}

/// The first position at or after `from` where `c` stands.
pub open spec fn index_from(s: Seq<char>, c: char, from: int) -> Option<int> {
    if exists|i: int| first_from(s, c, from, i) {
        Some(choose|i: int| first_from(s, c, from, i))
    } else {
        None
    }
}

fn find_char_from(v: &Vec<char>, c: char, from: usize) -> (r: Option<usize>)
    ensures
        match r {
            Some(i) => index_from(v@, c, from as int) == Some(i as int),
            None => index_from(v@, c, from as int) is None,
        },
{
    let mut i: usize = from;
    while i < v.len()
        invariant
            from <= i,
            forall|j: int| from <= j < i && j < v@.len() ==> v@[j] != c,
        decreases v.len() - i,
    {
        if v[i] == c {
            assert(first_from(v@, c, from as int, i as int));
            assert(index_from(v@, c, from as int) == Some(i as int)) by {
                let k = choose|k: int| first_from(v@, c, from as int, k);
                assert(first_from(v@, c, from as int, k));
                if k < i {
                    assert(v@[k] != c);
                } else if k > i {
                    assert(v@[i as int] != c);
                }
            }
            return Some(i);
        }
        i = i + 1;
    }
    assert forall|k: int| !first_from(v@, c, from as int, k) by {
        if first_from(v@, c, from as int, k) {
            assert(v@[k] != c);
        }
    }
    None
}

/// The priority of a packet and what follows it: `<n>` in front of the
/// trimmed packet gives priority `n` and the rest after `>`, trimmed;
/// without it (or where `n` is no `u32`) the priority is 13 (user.notice)
/// and the rest is the whole trimmed packet.
pub open spec fn priority_and_rest(raw: Seq<char>) -> (u32, Seq<char>) {
    let t = trimmed(raw);
    if t.len() > 0 && t[0] == '<' {
        match index_from(t, '>', 0) {
            Some(e) => match u32_value(t.subrange(1, e)) {
                Some(v) => (v, trimmed(t.subrange(e + 1, t.len() as int))),
                None => (13, t),
            },
            None => (13, t),
        }
    } else {
        (13, t)
    }
}

/// A decimal digit.
pub open spec fn is_digit(c: char) -> bool {
    '0' <= c && c <= '9'
}

/// The three letters of an English month abbreviation, as RFC 3164 writes
/// them (`Jan` .. `Dec`).
pub open spec fn month_abbr(a: char, b: char, c: char) -> bool {
    ||| (a == 'J' && b == 'a' && c == 'n')
    ||| (a == 'F' && b == 'e' && c == 'b')
    ||| (a == 'M' && b == 'a' && c == 'r')
    ||| (a == 'A' && b == 'p' && c == 'r')
    ||| (a == 'M' && b == 'a' && c == 'y')
    ||| (a == 'J' && b == 'u' && c == 'n')
    ||| (a == 'J' && b == 'u' && c == 'l')
    ||| (a == 'A' && b == 'u' && c == 'g')
    ||| (a == 'S' && b == 'e' && c == 'p')
    ||| (a == 'O' && b == 'c' && c == 't')
    ||| (a == 'N' && b == 'o' && c == 'v')
    ||| (a == 'D' && b == 'e' && c == 'c')
}

/// `s` opens with an RFC 3164 timestamp and the space after it:
/// `Mmm dd hh:mm:ss ` (the day padded with a space below 10).
pub open spec fn bsd_timestamp(s: Seq<char>) -> bool {
    &&& s.len() >= 16
    &&& month_abbr(s[0], s[1], s[2])
    &&& s[3] == ' '
    &&& (s[4] == ' ' || is_digit(s[4]))
    &&& is_digit(s[5])
    &&& s[6] == ' '
    &&& is_digit(s[7]) && is_digit(s[8]) && s[9] == ':'
    &&& is_digit(s[10]) && is_digit(s[11]) && s[12] == ':'
    &&& is_digit(s[13]) && is_digit(s[14])
    &&& s[15] == ' '
}

/// `s` opens with an RFC 5424 version field of `i` characters: one to
/// three digits, the first not zero, followed by a space at `i`.
pub open spec fn version_field(s: Seq<char>, i: int) -> bool {
    &&& 1 <= i <= 3
    &&& index_from(s, ' ', 0) == Some(i)
    &&& is_digit(s[0]) && s[0] != '0'
    &&& (i >= 2 ==> is_digit(s[1]))
    &&& (i >= 3 ==> is_digit(s[2]))
}

/// The host and message of what follows the priority.
///
/// - RFC 3164: after the timestamp `Mmm dd hh:mm:ss ` comes the HOSTNAME up
///   to the next space, then the MSG (tag and content).
/// - RFC 5424: after VERSION and TIMESTAMP comes the HOSTNAME up to the
///   next space, then the rest (app name, process id, message id,
///   structured data and message); a nil hostname `-` stands for the
///   sender's address.
/// - Anything else carries no header: the sender's address is the host
///   and the whole text is the message.
pub open spec fn header_parts(rest: Seq<char>, default_ip: Seq<char>) -> (Seq<char>, Seq<char>) {
    if bsd_timestamp(rest) {
        let after = rest.subrange(16, rest.len() as int);
        match index_from(after, ' ', 0) {
            Some(k) => if k > 0 {
                (after.subrange(0, k), after.subrange(k + 1, after.len() as int))
            } else {
                (default_ip, rest)
            },
            None => (default_ip, rest),
        }
    } else {
        match index_from(rest, ' ', 0) {
            Some(i) => if version_field(rest, i) {
                match index_from(rest, ' ', i + 1) {
                    Some(j) => if j > i + 1 {
                        match index_from(rest, ' ', j + 1) {
                            Some(k) => if k > j + 1 {
                                let host = rest.subrange(j + 1, k);
                                (
                                    if host == seq!['-'] { default_ip } else { host },
                                    rest.subrange(k + 1, rest.len() as int),
                                )
                            } else {
                                (default_ip, rest)
                            },
                            None => (default_ip, rest),
                        }
                    } else {
                        (default_ip, rest)
                    },
                    None => (default_ip, rest),
                }
            } else {
                (default_ip, rest)
            },
            None => (default_ip, rest),
        }
    }
}

/// The priority, host and message of a packet (RFC 3164 or RFC 5424).
pub open spec fn packet_parts(raw: Seq<char>, default_ip: Seq<char>) -> (u32, Seq<char>, Seq<char>) {
    let (pri, rest) = priority_and_rest(raw);
    let (host, message) = header_parts(rest, default_ip);
    (pri, host, message)
}

fn digit_at(v: &Vec<char>, i: usize) -> (r: bool)
    requires
        i < v@.len(),
    ensures
        r == is_digit(v@[i as int]),
{
    '0' <= v[i] && v[i] <= '9'
}

fn has_bsd_timestamp(s: &Vec<char>) -> (r: bool)
    ensures
        r == bsd_timestamp(s@),
{
    if s.len() < 16 {
        return false;
    }
    let (a, b, c) = (s[0], s[1], s[2]);
    let month = (a == 'J' && b == 'a' && c == 'n') || (a == 'F' && b == 'e' && c == 'b') || (a == 'M'
        && b == 'a' && c == 'r') || (a == 'A' && b == 'p' && c == 'r') || (a == 'M' && b == 'a' && c
        == 'y') || (a == 'J' && b == 'u' && c == 'n') || (a == 'J' && b == 'u' && c == 'l') || (a
        == 'A' && b == 'u' && c == 'g') || (a == 'S' && b == 'e' && c == 'p') || (a == 'O' && b
        == 'c' && c == 't') || (a == 'N' && b == 'o' && c == 'v') || (a == 'D' && b == 'e' && c
        == 'c');
    month && s[3] == ' ' && (s[4] == ' ' || digit_at(s, 4)) && digit_at(s, 5) && s[6] == ' '
        && digit_at(s, 7) && digit_at(s, 8) && s[9] == ':' && digit_at(s, 10) && digit_at(s, 11)
        && s[12] == ':' && digit_at(s, 13) && digit_at(s, 14) && s[15] == ' '
}

/// Splits what follows the priority into host and message.
fn split_header(rest: &Vec<char>, default_ip: &str) -> (r: (String, String))
    ensures
        (r.0@, r.1@) == header_parts(rest@, default_ip@),
{
    let whole = slice_string(rest, 0, rest.len());
    assert(rest@.subrange(0, rest@.len() as int) == rest@);
    if has_bsd_timestamp(rest) {
        let after = chars_of(slice_string(rest, 16, rest.len()).as_str());
        match find_char_from(&after, ' ', 0) {
            Some(k) => {
                assert(first_from(after@, ' ', 0, k as int));
                if k > 0 {
                    return (slice_string(&after, 0, k), slice_string(&after, k + 1, after.len()));
                }
            },
            None => {},
        }
        return (owned(default_ip), whole);
    }
    match find_char_from(rest, ' ', 0) {
        Some(i) => {
            assert(first_from(rest@, ' ', 0, i as int));
            let version = 1 <= i && i <= 3 && digit_at(rest, 0) && rest[0] != '0' && (i < 2
                || digit_at(rest, 1)) && (i < 3 || digit_at(rest, 2));
            if version {
                match find_char_from(rest, ' ', i + 1) {
                    Some(j) => {
                        assert(first_from(rest@, ' ', i + 1, j as int));
                        if j > i + 1 {
                            match find_char_from(rest, ' ', j + 1) {
                                Some(k) => {
                                    assert(first_from(rest@, ' ', j + 1, k as int));
                                    if k > j + 1 {
                                        let message = slice_string(rest, k + 1, rest.len());
                                        if k == j + 2 && rest[j + 1] == '-' {
                                            assert(rest@.subrange(j + 1, k as int) =~= seq!['-']);
                                            return (owned(default_ip), message);
                                        }
                                        let host = slice_string(rest, j + 1, k);
                                        assert(host@ != seq!['-']) by {
                                            if host@ == seq!['-'] {
                                                assert(host@.len() == 1);
                                                assert(host@[0] == rest@[j + 1]);
                                            }
                                        }
                                        return (host, message);
                                    }
                                },
                                None => {},
                            }
                        }
                    },
                    None => {},
                }
            }
        },
        None => {},
    }
    (owned(default_ip), whole)
}

/// Parses a raw syslog packet (RFC 3164 or RFC 5424) into its priority,
/// host and message.
pub fn parse_syslog_packet(raw: &str, default_ip: &str) -> (r: (u32, String, String))
    ensures
        (r.0, r.1@, r.2@) == packet_parts(raw@, default_ip@),
{
    let t = trim(raw);
    let tv = chars_of(t.as_str());
    let mut pri: u32 = 13;
    let mut rest: Vec<char> = tv.clone();
    assert(rest@ == tv@);
    if tv.len() > 0 && tv[0] == '<' {
        if let Some(e) = find_char_from(&tv, '>', 0) {
            assert(first_from(tv@, '>', 0, e as int));
            let inner = slice_string(&tv, 1, e);
            let inner_chars = chars_of(inner.as_str());
            if let Some(v) = parse_u32_text(&inner_chars) {
                pri = v;
                let after = slice_string(&tv, e + 1, tv.len());
                let trimmed_after = trim(after.as_str());
                rest = chars_of(trimmed_after.as_str());
            }
        }
    }
    assert((pri, rest@) == priority_and_rest(raw@));
    let (host, message) = split_header(&rest, default_ip);
    (pri, host, message)
}

/// A packet reads as hostile: its lowercased text mentions an attack,
/// malware, unauthorized access or a failure.
pub open spec fn hostile(l: Seq<char>) -> bool {
    has_sub(l, "attack"@) || has_sub(l, "malware"@) || has_sub(l, "unauthorized"@) || has_sub(l, "failed"@)
}

/// The session that live syslog traffic is recorded under.
pub open spec fn live_session() -> Seq<char> {
    "live_system_session"@
}

/// The event recorded for a syslog packet received from `src_ip`.
pub fn syslog_event(raw: &str, src_ip: &str) -> (r: SecurityEvent)
    ensures
        ({
            let (pri, host, message) = packet_parts(raw@, src_ip@);
            let bad = hostile(str_lower(raw@));
            &&& uuid_text(r.id@)
            &&& r.session_id@ == live_session()
            &&& r.source == EventSource::Syslog
            &&& r.event_type@ == "syslog_pri_"@ + decimal(pri as nat)
            &&& r.message@ == message
            &&& r.host@ == host
            &&& r.source_ip matches Some(s) && s@ == src_ip@
            &&& r.destination_ip matches Some(d) && d@ == "127.0.0.1"@
            &&& r.user is None
            &&& r.raw_log@ == raw@
            &&& (if bad {
                r.mitre_technique matches Some(m) && m@ == "T1071"@
            } else {
                r.mitre_technique is None
            })
            &&& r.is_malicious == bad
        }),
{
    let (pri, host, message) = parse_syslog_packet(raw, src_ip);
    let l = lower(raw);
    let ls = l.as_str();
    let is_malicious = str_contains(ls, "attack") || str_contains(ls, "malware") || str_contains(ls, "unauthorized")
        || str_contains(ls, "failed");
    let mut event_type = String::from_str("syslog_pri_");
    event_type.append(decimal_string(pri as u64).as_str());
    SecurityEvent {
        id: new_uuid(),
        session_id: String::from_str("live_system_session"),
        timestamp: now_micros(),
        source: EventSource::Syslog,
        event_type,
        message,
        host,
        source_ip: Some(owned(src_ip)),
        destination_ip: Some(String::from_str("127.0.0.1")),
        user: None,
        raw_log: owned(raw),
        mitre_technique: if is_malicious {
            Some(String::from_str("T1071"))
        } else {
            None
        },
        is_malicious,
    }
}

} // verus!
