//! Parsing raw log lines into security events.
use vstd::prelude::*;
use vstd::string::StringSliceAdditionalSpecFns;
use vstd::utf8::{decode_utf8, encode_utf8, encode_utf8_decode_utf8, is_char_boundary};

use crate::clock::{new_uuid, now_micros, parse_rfc3339, rfc3339_micros, uuid_text};
use crate::lines::{split_words, trim, trimmed, words_of};
use crate::models::{EventSource, SecurityEvent};
use crate::ordered::views;
use crate::response::containment::opt_string_view;
use crate::text::{alnum_char, blank, char_is_alphanumeric, chars_of, find_char, has_sub, is_blank, lower, owned, slice_string, str_contains, str_lower, string_from_chars};

verus! {

/// The kind of event that a lowercased message reads as.
pub open spec fn event_kind(l: Seq<char>) -> Seq<char> {
    if has_sub(l, "failed"@) || has_sub(l, "failure"@) {
        "login_failure"@
    } else if has_sub(l, "accepted"@) || has_sub(l, "success"@) {
        "login_success"@
    } else if has_sub(l, "process"@) || has_sub(l, "exec"@) {
        "process_execution"@
    } else if has_sub(l, "connect"@) {
        "connection"@
    } else if has_sub(l, "dns"@) {
        "dns_query"@
    } else {
        "generic"@
    }
}

/// Infers the event type from the content of a message.
pub fn infer_event_type(message: &str) -> (r: String)
    ensures
        r@ == event_kind(str_lower(message@)),
{
    let l = lower(message);
    let ls = l.as_str();
    if str_contains(ls, "failed") || str_contains(ls, "failure") {
        String::from_str("login_failure")
    } else if str_contains(ls, "accepted") || str_contains(ls, "success") {
        String::from_str("login_success")
    } else if str_contains(ls, "process") || str_contains(ls, "exec") {
        String::from_str("process_execution")
    } else if str_contains(ls, "connect") {
        String::from_str("connection")
    } else if str_contains(ls, "dns") {
        String::from_str("dns_query")
    } else {
        String::from_str("generic")
    }
}

/// A character kept when a word is cleaned down to an address.
pub open spec fn ip_char(c: char) -> bool {
    alnum_char(c) || c == '.' || c == ':'
}

pub open spec fn strip_front(s: Seq<char>) -> Seq<char>
    decreases s.len(),
{
    if s.len() > 0 && !ip_char(s[0]) {
        strip_front(s.drop_first())
    } else {
        s
    }
}

pub open spec fn strip_back(s: Seq<char>) -> Seq<char>
    decreases s.len(),
{
    if s.len() > 0 && !ip_char(s.last()) {
        strip_back(s.drop_last())
    } else {
        s
    }
}

/// The word without the characters around it that are not alphanumeric,
/// `.` or `:` (what `trim_matches` with that test removes).
pub open spec fn ip_clean(s: Seq<char>) -> Seq<char> {
    strip_back(strip_front(s))
}

/// The pieces of `s` between dots when the current piece so far is `cur`.
pub open spec fn pieces_from(s: Seq<char>, cur: Seq<char>) -> Seq<Seq<char>>
    decreases s.len(),
{
    if s.len() == 0 {
        seq![cur]
    } else if s[0] == '.' {
        seq![cur] + pieces_from(s.drop_first(), seq![])
    } else {
        pieces_from(s.drop_first(), cur.push(s[0]))
    }
}

/// `str::split('.')`: the pieces between dots, empty ones included.
pub open spec fn dot_pieces(s: Seq<char>) -> Seq<Seq<char>> {
    pieces_from(s, seq![])
}

pub open spec fn all_digits(d: Seq<char>) -> bool {
    forall|i: int| 0 <= i < d.len() ==> '0' <= #[trigger] d[i] && d[i] <= '9'
}

/// The value of a numeral of decimal digits.
pub open spec fn digits_value(d: Seq<char>) -> nat
    decreases d.len(),
{
    if d.len() == 0 {
        0
    } else {
        digits_value(d.drop_last()) * 10 + ((d.last() as nat) - 48) as nat
    }
}

/// What `str::parse::<u8>` accepts: an optional `+`, then at least one
/// decimal digit, of value at most 255.
pub open spec fn parses_as_u8(p: Seq<char>) -> bool {
    let d = if p.len() > 0 && p[0] == '+' {
        p.drop_first()
    } else {
        p
    };
    d.len() > 0 && all_digits(d) && digits_value(d) <= 255
}

/// Four dot-separated pieces, each a `u8`.
pub open spec fn ip_like(s: Seq<char>) -> bool {
    let ps = dot_pieces(s);
    ps.len() == 4 && forall|i: int| 0 <= i < 4 ==> parses_as_u8(#[trigger] ps[i])
}

/// The cleaned form of the first word whose cleaned form is address-like.
pub open spec fn first_ip(ws: Seq<Seq<char>>) -> Option<Seq<char>>
    decreases ws.len(),
{
    if ws.len() == 0 {
        None
    } else if ip_like(ip_clean(ws[0])) {
        Some(ip_clean(ws[0]))
    } else {
        first_ip(ws.drop_first())
    }
}

fn is_ip_char(c: char) -> (r: bool)
    ensures
        r == ip_char(c),
{
    char_is_alphanumeric(c) || c == '.' || c == ':'
}

fn clean_word(w: &str) -> (r: String)
    ensures
        r@ == ip_clean(w@),
{
    let v = chars_of(w);
    let n = v.len();
    let mut i: usize = 0;
    assert(v@.subrange(0, n as int) == v@);
    while i < n && !is_ip_char(v[i])
        invariant
            v@ == w@,
            n == v@.len(),
            i <= n,
            strip_front(w@) == strip_front(v@.subrange(i as int, n as int)),
        decreases n - i,
    {
        assert(v@.subrange(i as int, n as int).drop_first() == v@.subrange(i + 1, n as int));
        i = i + 1;
    }
    assert(strip_front(v@.subrange(i as int, n as int)) == v@.subrange(i as int, n as int));
    let mut j: usize = n;
    while j > i && !is_ip_char(v[j - 1])
        invariant
            v@ == w@,
            n == v@.len(),
            i <= j <= n,
            ip_clean(w@) == strip_back(v@.subrange(i as int, j as int)),
        decreases j,
    {
        assert(v@.subrange(i as int, j as int).drop_last() == v@.subrange(i as int, j - 1));
        j = j - 1;
    }
    assert(strip_back(v@.subrange(i as int, j as int)) == v@.subrange(i as int, j as int));
    slice_string(&v, i, j)
}

proof fn lemma_digits_value_grows(d: Seq<char>, k: int)
    requires
        0 <= k <= d.len(),
    ensures
        digits_value(d.subrange(0, k)) <= digits_value(d),
    decreases d.len(),
{
    if k < d.len() {
        assert(d.drop_last() == d.subrange(0, d.len() - 1));
        lemma_digits_value_grows(d.drop_last(), k);
        assert(d.drop_last().subrange(0, k) == d.subrange(0, k));
    } else {
        assert(d.subrange(0, k) == d);
    }
}

fn is_u8_text(p: &Vec<char>) -> (r: bool)
    ensures
        r == parses_as_u8(p@),
{
    let start: usize = if p.len() > 0 && p[0] == '+' {
        1
    } else {
        0
    };
    let ghost d = if p@.len() > 0 && p@[0] == '+' {
        p@.drop_first()
    } else {
        p@
    };
    assert(d == p@.subrange(start as int, p@.len() as int));
    if start >= p.len() {
        return false;
    }
    let mut value: u32 = 0;
    let mut i: usize = start;
    while i < p.len()
        invariant
            d == p@.subrange(start as int, p@.len() as int),
            d == (if p@.len() > 0 && p@[0] == '+' {
                p@.drop_first()
            } else {
                p@
            }),
            start <= i <= p@.len(),
            all_digits(d.subrange(0, i - start)),
            value == digits_value(d.subrange(0, i - start)),
            value <= 255,
        decreases p.len() - i,
    {
        let c = p[i];
        assert(d.subrange(0, i + 1 - start).drop_last() == d.subrange(0, i - start));
        assert(d.subrange(0, i + 1 - start).last() == c);
        if c < '0' || c > '9' {
            assert(d[i - start] == c);
            assert(!all_digits(d));
            return false;
        }
        let digit: u32 = (c as u32) - 48;
        value = value * 10 + digit;
        assert(value == digits_value(d.subrange(0, i + 1 - start)));
        if value > 255 {
            proof {
                lemma_digits_value_grows(d, i + 1 - start);
            }
            return false;
        }
        i = i + 1;
    }
    assert(d.subrange(0, i - start) == d);
    true
}

fn dot_split(s: &str) -> (r: Vec<Vec<char>>)
    ensures
        r@.map_values(|x: Vec<char>| x@) == dot_pieces(s@),
{
    let v = chars_of(s);
    let n = v.len();
    let mut out: Vec<Vec<char>> = Vec::new();
    let mut cur: Vec<char> = Vec::new();
    let mut i: usize = 0;
    assert(v@.subrange(0, n as int) == v@);
    assert(out@.map_values(|x: Vec<char>| x@) + pieces_from(v@, cur@) == pieces_from(v@, seq![]));
    while i < n
        invariant
            v@ == s@,
            n == v@.len(),
            i <= n,
            dot_pieces(s@) == out@.map_values(|x: Vec<char>| x@) + pieces_from(v@.subrange(i as int, n as int), cur@),
        decreases n - i,
    {
        let ghost rest = v@.subrange(i as int, n as int);
        assert(rest.drop_first() == v@.subrange(i + 1, n as int));
        assert(rest[0] == v@[i as int]);
        if v[i] == '.' {
            let ghost before = out@.map_values(|x: Vec<char>| x@);
            let ghost cv = cur@;
            out.push(cur);
            assert(out@.map_values(|x: Vec<char>| x@) == before.push(cv));
            assert(before + (seq![cv] + pieces_from(v@.subrange(i + 1, n as int), seq![]))
                == out@.map_values(|x: Vec<char>| x@) + pieces_from(v@.subrange(i + 1, n as int), seq![]));
            cur = Vec::new();
        } else {
            cur.push(v[i]);
        }
        i = i + 1;
    }
    assert(v@.subrange(n as int, n as int) == Seq::<char>::empty());
    let ghost before = out@.map_values(|x: Vec<char>| x@);
    let ghost cv = cur@;
    out.push(cur);
    assert(out@.map_values(|x: Vec<char>| x@) == before.push(cv));
    assert(before + seq![cv] == out@.map_values(|x: Vec<char>| x@));
    out
}

/// Whether a text reads as four dot-separated `u8` values.
pub fn is_ip_like(s: &str) -> (r: bool)
    ensures
        r == ip_like(s@),
{
    let parts = dot_split(s);
    let ghost ps = dot_pieces(s@);
    if parts.len() != 4 {
        assert(ps.len() == parts@.len());
        return false;
    }
    let mut i: usize = 0;
    while i < 4
        invariant
            parts@.len() == 4,
            ps == dot_pieces(s@),
            ps == parts@.map_values(|x: Vec<char>| x@),
            i <= 4,
            forall|k: int| 0 <= k < i ==> parses_as_u8(#[trigger] ps[k]),
        decreases 4 - i,
    {
        assert(ps[i as int] == parts@[i as int]@);
        if !is_u8_text(&parts[i]) {
            return false;
        }
        i = i + 1;
    }
    true
}

/// The first address-like word of a message, cleaned of surrounding
/// punctuation.
pub fn extract_ip(message: &str) -> (r: Option<String>)
    ensures
        opt_string_view(r) == first_ip(words_of(message@)),
{
    let words = split_words(message);
    let ghost ws = words_of(message@);
    let mut i: usize = 0;
    assert(ws.subrange(0, ws.len() as int) == ws);
    while i < words.len()
        invariant
            views(words@) == ws,
            ws.len() == words@.len(),
            i <= words@.len(),
            first_ip(words_of(message@)) == first_ip(ws.subrange(i as int, ws.len() as int)),
        decreases words.len() - i,
    {
        let ghost rest = ws.subrange(i as int, ws.len() as int);
        assert(rest[0] == words@[i as int]@);
        assert(rest.drop_first() == ws.subrange(i + 1, ws.len() as int));
        let clean = clean_word(words[i].as_str());
        if is_ip_like(clean.as_str()) {
            return Some(clean);
        }
        i = i + 1;
    }
    None
}

/// `n` occurs in the bytes `h` at position `i`.
pub open spec fn bytes_at(h: Seq<u8>, n: Seq<u8>, i: int) -> bool {
    0 <= i && i + n.len() <= h.len() && h.subrange(i, i + n.len()) == n
}

/// The first position at or after `i` where `n` occurs in `h`.
pub open spec fn first_bytes_from(h: Seq<u8>, n: Seq<u8>, i: int) -> Option<int>
    decreases h.len() + 1 - i,
{
    if i < 0 || i + n.len() > h.len() {
        None
    } else if bytes_at(h, n, i) {
        Some(i)
    } else {
        first_bytes_from(h, n, i + 1)
    }
}

/// The UTF-8 bytes of `for `.
pub open spec fn for_bytes() -> Seq<u8> {
    seq![102u8, 111u8, 114u8, 32u8]
}

/// The byte position just after the first `for ` of the lowercased
/// message, counted in the bytes of the lowercased message (the position
/// at which the message itself is cut).
pub open spec fn user_cut(m: Seq<char>) -> Option<int> {
    match first_bytes_from(encode_utf8(str_lower(m)), for_bytes(), 0) {
        Some(p) => Some(p + 4),
        None => None,
    }
}

/// The cut falls on a character boundary of the message (where
/// `&message[cut..]` does not panic).
pub open spec fn user_cut_ok(m: Seq<char>) -> bool {
    match user_cut(m) {
        Some(q) => is_char_boundary(encode_utf8(m), q),
        None => true,
    }
}

/// The first word after the cut, when it is shorter than 32 bytes.
pub open spec fn user_of(m: Seq<char>) -> Option<Seq<char>> {
    match user_cut(m) {
        None => None,
        Some(q) => {
            let rest = decode_utf8(encode_utf8(m).subrange(q, encode_utf8(m).len() as int));
            let ws = words_of(rest);
            if ws.len() > 0 && ws[0].len() > 0 && encode_utf8(ws[0]).len() < 32 {
                Some(ws[0])
            } else {
                None
            }
        },
    }
}

proof fn lemma_first_bytes_at(h: Seq<u8>, n: Seq<u8>, i: int)
    requires
        first_bytes_from(h, n, i) is Some,
    ensures
        bytes_at(h, n, first_bytes_from(h, n, i)->0),
    decreases h.len() + 1 - i,
{
    if i >= 0 && i + n.len() <= h.len() && !bytes_at(h, n, i) {
        lemma_first_bytes_at(h, n, i + 1);
    }
}

fn find_bytes(h: &[u8], n: &Vec<u8>) -> (r: Option<usize>)
    ensures
        match r {
            Some(i) => first_bytes_from(h@, n@, 0) == Some(i as int),
            None => first_bytes_from(h@, n@, 0) is None,
        },
{
    let mut i: usize = 0;
    while i <= h.len()
        invariant
            i <= h@.len() + 1,
            h@.len() == h.len(),
            first_bytes_from(h@, n@, 0) == first_bytes_from(h@, n@, i as int),
        decreases h.len() + 1 - i,
    {
        if n.len() > h.len() - i {
            return None;
        }
        let mut k: usize = 0;
        let mut same = true;
        while k < n.len()
            invariant
                i + n@.len() <= h@.len(),
                h@.len() == h.len(),
                k <= n@.len(),
                same == (forall|j: int| 0 <= j < k ==> h@[i + j] == n@[j]),
            decreases n.len() - k,
        {
            if h[i + k] != n[k] {
                same = false;
            }
            k = k + 1;
        }
        if same {
            assert(h@.subrange(i as int, i + n@.len()) =~= n@);
            return Some(i);
        } else {
            assert(!bytes_at(h@, n@, i as int)) by {
                if bytes_at(h@, n@, i as int) {
                    assert forall|j: int| 0 <= j < n@.len() implies h@[i + j] == n@[j] by {
                        assert(h@.subrange(i as int, i + n@.len())[j] == h@[i + j]);
                    }
                }
            }
        }
        i = i + 1;
    }
    None
}

/// The user named after `for ` in a message: the first word after the
/// first `for ` (found case-insensitively), when shorter than 32 bytes.
pub fn extract_user(message: &str) -> (r: Option<String>)
    requires
        user_cut_ok(message@),
    ensures
        opt_string_view(r) == user_of(message@),
{
    let l = lower(message);
    let ls = l.as_str();
    let lb = ls.as_bytes();
    assert(ls.spec_bytes() == encode_utf8(str_lower(message@)));
    let pat: Vec<u8> = vec![102u8, 111u8, 114u8, 32u8];
    assert(pat@ == for_bytes());
    match find_bytes(lb, &pat) {
        None => None,
        Some(p) => {
            proof {
                lemma_first_bytes_at(lb@, pat@, 0);
            }
            assert(p + 4 <= lb@.len());
            let lbn = lb.len();
            assert(lbn == lb@.len());
            assert(message.spec_bytes() == encode_utf8(message@));
            let (_, rest) = message.split_at(p + 4);
            proof {
                assert(rest.spec_bytes() == encode_utf8(rest@));
                encode_utf8_decode_utf8(rest@);
            }
            let words = split_words(rest);
            if words.len() == 0 {
                return None;
            }
            let u = words[0].as_str();
            assert(u@ == words_of(rest@)[0]);
            assert(u.spec_bytes() == encode_utf8(u@));
            if !u.is_empty() && u.as_bytes().len() < 32 {
                Some(owned(u))
            } else {
                None
            }
        },
    }
}

/// Whether `user_cut_ok` holds: computes the cut and tests the boundary.
pub fn user_cut_is_ok(message: &str) -> (r: bool)
    ensures
        r == user_cut_ok(message@),
{
    let l = lower(message);
    let ls = l.as_str();
    let lb = ls.as_bytes();
    assert(ls.spec_bytes() == encode_utf8(str_lower(message@)));
    let pat: Vec<u8> = vec![102u8, 111u8, 114u8, 32u8];
    assert(pat@ == for_bytes());
    match find_bytes(lb, &pat) {
        None => true,
        Some(p) => {
            proof {
                lemma_first_bytes_at(lb@, pat@, 0);
            }
            assert(p + 4 <= lb@.len());
            let lbn = lb.len();
            assert(lbn == lb@.len());
            assert(message.spec_bytes() == encode_utf8(message@));
            message.is_char_boundary(p + 4)
        },
    }
}

/// The line opens with `[`.
pub open spec fn opens(line: Seq<char>) -> bool {
    line.len() > 0 && line[0] == '['
}

/// The line holds a `]`.
pub open spec fn has_close(line: Seq<char>) -> bool {
    exists|i: int| 0 <= i < line.len() && line[i] == ']'
}

/// `i` is the position of the first `]` of the line.
pub open spec fn first_close(line: Seq<char>, i: int) -> bool {
    &&& 0 <= i < line.len()
    &&& line[i] == ']'
    &&& forall|j: int| 0 <= j < i ==> line[j] != ']'
}

/// The position of the first `]` of the line.
pub open spec fn close_pos(line: Seq<char>) -> int {
    choose|i: int| first_close(line, i)
}

/// The bracketed timestamp text of a line that opens with `[`.
pub open spec fn stamp_of(line: Seq<char>) -> Option<Seq<char>> {
    if opens(line) {
        Some(line.subrange(1, close_pos(line)))
    } else {
        None
    }
}

/// The message of a line: what follows the bracketed timestamp, trimmed,
/// or the whole line when it has no timestamp.
pub open spec fn message_of(line: Seq<char>) -> Seq<char> {
    if opens(line) {
        trimmed(line.subrange(close_pos(line) + 1, line.len() as int))
    } else {
        line
    }
}

/// Parsing the line does not panic.
pub open spec fn parse_ok(line: Seq<char>) -> bool {
    ||| blank(line)
    ||| ((opens(line) ==> has_close(line)) && user_cut_ok(message_of(line)))
}

/// `e` is the event parsed from a non-blank line.
pub open spec fn parsed_event(e: SecurityEvent, session_id: Seq<char>, line: Seq<char>, host: Seq<char>, source: EventSource) -> bool {
    let m = message_of(line);
    &&& uuid_text(e.id@)
    &&& e.session_id@ == session_id
    &&& match stamp_of(line) {
        Some(t) => match rfc3339_micros(t) {
            Some(ts) => e.timestamp == ts,
            None => true,
        },
        None => true,
    }
    &&& e.source == source
    &&& e.event_type@ == event_kind(str_lower(m))
    &&& e.message@ == m
    &&& e.host@ == host
    &&& opt_string_view(e.source_ip) == first_ip(words_of(m))
    &&& e.destination_ip is None
    &&& opt_string_view(e.user) == user_of(m)
    &&& e.raw_log@ == line
    &&& e.mitre_technique is None
    &&& !e.is_malicious
}

/// Splits a line into its bracketed timestamp text, if it opens with `[`,
/// and its message.
fn split_stamp(line: &str) -> (r: (Option<String>, String))
    requires
        opens(line@) ==> has_close(line@),
    ensures
        opt_string_view(r.0) == stamp_of(line@),
        r.1@ == message_of(line@),
{
    let v = chars_of(line);
    if v.len() > 0 && v[0] == '[' {
        match find_char(&v, ']') {
            Some(end) => {
                assert(first_close(line@, end as int));
                assert(close_pos(line@) == end) by {
                    let c = close_pos(line@);
                    assert(first_close(line@, c));
                    if c < end {
                        assert(line@[c] != ']');
                    } else if c > end {
                        assert(line@[end as int] != ']');
                    }
                }
                let stamp = slice_string(&v, 1, end);
                let rest = slice_string(&v, end + 1, v.len());
                (Some(stamp), trim(rest.as_str()))
            },
            None => {
                assert(false);
                (None, owned(line))
            },
        }
    } else {
        (None, owned(line))
    }
}

/// Parses raw log lines into security events.
pub struct LogParser;

impl LogParser {
    /// Parses a syslog-style line into an event: `None` for a blank line.
    /// A line that opens with `[` carries an RFC 3339 timestamp up to the
    /// first `]`, used when it parses (the current time otherwise, as for a
    /// line without one); the rest of the line, trimmed, is the message,
    /// from which the event type, the source address and the user are
    /// read.
    pub fn parse_line(session_id: &str, line: &str, host: &str, source: EventSource) -> (r: Option<SecurityEvent>)
        requires
            parse_ok(line@),
        ensures
            match r {
                None => blank(line@),
                Some(e) => !blank(line@) && parsed_event(e, session_id@, line@, host@, source),
            },
    {
        if is_blank(line) {
            return None;
        }
        let (stamp, message) = split_stamp(line);
        let ghost stamp_text = opt_string_view(stamp);
        let timestamp: i64 = match stamp {
            Some(t) => {
                let parsed = parse_rfc3339(t.as_str());
                assert(parsed == rfc3339_micros(t@));
                match parsed {
                    Some(ts) => ts,
                    None => now_micros(),
                }
            },
            None => now_micros(),
        };
        assert(stamp_text == stamp_of(line@));
        let event_type = infer_event_type(message.as_str());
        let source_ip = extract_ip(message.as_str());
        let user = extract_user(message.as_str());
        let e = SecurityEvent {
                id: new_uuid(),
                session_id: owned(session_id),
                timestamp,
                source,
                event_type,
                message,
                host: owned(host),
                source_ip,
                destination_ip: None,
                user,
                raw_log: owned(line),
                mitre_technique: None,
                is_malicious: false,
            };
        assert(e.event_type@ == event_kind(str_lower(message_of(line@))));
        assert(opt_string_view(e.source_ip) == first_ip(words_of(message_of(line@))));
        assert(opt_string_view(e.user) == user_of(message_of(line@)));
        assert(parsed_event(e, session_id@, line@, host@, source));
        Some(e)
    }

    /// `parse_line` where it does not panic: `None` where the line opens
    /// with `[` and holds no `]`, or where the user would be cut out of its
    /// message inside a character; `Some` of `parse_line`'s answer
    /// otherwise.
    pub fn try_parse_line(session_id: &str, line: &str, host: &str, source: EventSource) -> (r: Option<Option<SecurityEvent>>)
        ensures
            match r {
                None => !parse_ok(line@),
                Some(None) => parse_ok(line@) && blank(line@),
                Some(Some(e)) => parse_ok(line@) && !blank(line@) && parsed_event(e, session_id@, line@, host@, source),
            },
    {
        if is_blank(line) {
            return Some(None);
        }
        let v = chars_of(line);
        if v.len() > 0 && v[0] == '[' {
            if find_char(&v, ']').is_none() {
                return None;
            }
        }
        let (_, message) = split_stamp(line);
        if !user_cut_is_ok(message.as_str()) {
            return None;
        }
        Some(Self::parse_line(session_id, line, host, source))
    }
}

/// The digits of a numeral after an optional leading `+`.
pub open spec fn unsigned_digits(p: Seq<char>) -> Seq<char> {
    if p.len() > 0 && p[0] == '+' {
        p.drop_first()
    } else {
        p
    }
}

/// What `str::parse::<u32>` gives: the value of an optional `+` followed
/// by at least one decimal digit, when it fits in a `u32`.
pub open spec fn u32_value(p: Seq<char>) -> Option<u32> {
    let d = unsigned_digits(p);
    if d.len() > 0 && all_digits(d) && digits_value(d) <= u32::MAX {
        Some(digits_value(d) as u32)
    } else {
        None
    }
}

/// `str::parse::<u32>` on a character sequence.
pub fn parse_u32_text(p: &Vec<char>) -> (r: Option<u32>)
    ensures
        r == u32_value(p@),
{
    let start: usize = if p.len() > 0 && p[0] == '+' {
        1
    } else {
        0
    };
    let ghost d = unsigned_digits(p@);
    assert(d == p@.subrange(start as int, p@.len() as int));
    if start >= p.len() {
        return None;
    }
    let mut value: u64 = 0;
    let mut i: usize = start;
    while i < p.len()
        invariant
            d == p@.subrange(start as int, p@.len() as int),
            d == unsigned_digits(p@),
            start <= i <= p@.len(),
            all_digits(d.subrange(0, i - start)),
            value == digits_value(d.subrange(0, i - start)),
            value <= u32::MAX,
        decreases p.len() - i,
    {
        let c = p[i];
        assert(d.subrange(0, i + 1 - start).drop_last() == d.subrange(0, i - start));
        assert(d.subrange(0, i + 1 - start).last() == c);
        if c < '0' || c > '9' {
            assert(d[i - start] == c);
            assert(!all_digits(d));
            return None;
        }
        let digit: u64 = (c as u64) - 48;
        value = value * 10 + digit;
        assert(value == digits_value(d.subrange(0, i + 1 - start)));
        if value > 0xffff_ffff {
            proof {
                lemma_digits_value_grows(d, i + 1 - start);
            }
            return None;
        }
        i = i + 1;
    }
    assert(d.subrange(0, i - start) == d);
    Some(value as u32)
}

/// How a message is classified, by the words its lowercased text holds,
/// earlier words taking precedence: a failure word (`failed`, `failure`)
/// makes a login failure; else a success word (`accepted`, `success`) a
/// login success; else `process` or `exec` a process execution; else
/// `connect` a connection; else `dns` a DNS query; a message with none of
/// these words is generic.
pub proof fn lemma_event_kind_words(l: Seq<char>)
    ensures
        has_sub(l, "failed"@) || has_sub(l, "failure"@) ==> event_kind(l) == "login_failure"@,
        !has_sub(l, "failed"@) && !has_sub(l, "failure"@) && (has_sub(l, "accepted"@) || has_sub(l, "success"@))
            ==> event_kind(l) == "login_success"@,
        !has_sub(l, "failed"@) && !has_sub(l, "failure"@) && !has_sub(l, "accepted"@) && !has_sub(l, "success"@)
            && (has_sub(l, "process"@) || has_sub(l, "exec"@)) ==> event_kind(l) == "process_execution"@,
        !has_sub(l, "failed"@) && !has_sub(l, "failure"@) && !has_sub(l, "accepted"@) && !has_sub(l, "success"@)
            && !has_sub(l, "process"@) && !has_sub(l, "exec"@) && has_sub(l, "connect"@) ==> event_kind(l)
            == "connection"@,
        !has_sub(l, "failed"@) && !has_sub(l, "failure"@) && !has_sub(l, "accepted"@) && !has_sub(l, "success"@)
            && !has_sub(l, "process"@) && !has_sub(l, "exec"@) && !has_sub(l, "connect"@) && has_sub(l, "dns"@)
            ==> event_kind(l) == "dns_query"@,
        !has_sub(l, "failed"@) && !has_sub(l, "failure"@) && !has_sub(l, "accepted"@) && !has_sub(l, "success"@)
            && !has_sub(l, "process"@) && !has_sub(l, "exec"@) && !has_sub(l, "connect"@) && !has_sub(l, "dns"@)
            ==> event_kind(l) == "generic"@,
{
}

} // verus!
