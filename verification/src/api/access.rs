//! Who may reach the API: public paths, the client's address, the bearer
//! token, the per-address rate limit, and the login decision.
use vstd::prelude::*;

use crate::lines::{trim, trimmed};
use crate::models::UserDbRecord;
use crate::text::{chars_of, find_char, lower, owned, slice_string, starts, str_eq, str_lower, str_starts_with};

use super::errors::ApiError;

verus! {

/// Paths that need no token: a few API endpoints and everything outside
/// `/api/`.
pub open spec fn public_path(path: Seq<char>) -> bool {
    ||| path == "/api/health"@
    ||| path == "/api/auth/login"@
    ||| path == "/api/auth/register"@
    ||| path == "/api/ws"@
    ||| path == "/api/events/sse"@
    ||| !starts(path, "/api/"@)
}

pub fn is_public_path(path: &str) -> (r: bool)
    ensures
        r == public_path(path@),
{
    str_eq(path, "/api/health") || str_eq(path, "/api/auth/login") || str_eq(path, "/api/auth/register")
        || str_eq(path, "/api/ws") || str_eq(path, "/api/events/sse") || !str_starts_with(path, "/api/")
}

/// The text up to its first `,` (all of it when it has none).
pub open spec fn first_hop(h: Seq<char>) -> Seq<char> {
    if exists|i: int| 0 <= i < h.len() && h[i] == ',' {
        h.subrange(0, choose|i: int| 0 <= i < h.len() && h[i] == ',' && forall|j: int| 0 <= j < i ==> h[j] != ',')
    } else {
        h
    }
}

/// The client's address: the first hop of `X-Forwarded-For`, trimmed, or
/// `127.0.0.1` without that header.
pub fn client_ip_from(forwarded: Option<&str>) -> (r: String)
    ensures
        r@ == match forwarded {
            Some(h) => trimmed(first_hop(h@)),
            None => "127.0.0.1"@,
        },
{
    match forwarded {
        None => String::from_str("127.0.0.1"),
        Some(h) => {
            let v = chars_of(h);
            let first = match find_char(&v, ',') {
                Some(i) => {
                    assert(first_hop(h@) == v@.subrange(0, i as int)) by {
                        let k = choose|k: int| 0 <= k < h@.len() && h@[k] == ',' && forall|j: int| 0 <= j < k ==> h@[j] != ',';
                        assert(0 <= k < h@.len() && h@[k] == ',' && forall|j: int| 0 <= j < k ==> h@[j] != ',');
                        if k < i {
                            assert(v@[k] != ',');
                        } else if k > i {
                            assert(h@[i as int] != ',');
                        }
                    }
                    slice_string(&v, 0, i)
                },
                None => {
                    assert(v@.subrange(0, v@.len() as int) == v@);
                    slice_string(&v, 0, v.len())
                },
            };
            trim(first.as_str())
        },
    }
}

/// The token of a request: the `Authorization` header after `Bearer `,
/// else the `x-api-key` header; an empty token counts as none.
pub open spec fn token_of(authorization: Option<Seq<char>>, api_key: Option<Seq<char>>) -> Option<Seq<char>> {
    let t = match authorization {
        Some(a) => if starts(a, "Bearer "@) {
            Some(a.subrange(7, a.len() as int))
        } else {
            api_key
        },
        None => api_key,
    };
    match t {
        Some(x) => if x.len() > 0 {
            Some(x)
        } else {
            None
        },
        None => None,
    }
}

/// The optional text as characters.
pub open spec fn str_opt(o: Option<&str>) -> Option<Seq<char>> {
    match o {
        Some(s) => Some(s@),
        None => None,
    }
}

/// The token of a request, from its `Authorization` and `x-api-key`
/// headers.
pub fn bearer_token(authorization: Option<&str>, api_key: Option<&str>) -> (r: Option<String>)
    ensures
        match r {
            Some(t) => token_of(str_opt(authorization), str_opt(api_key)) == Some(t@),
            None => token_of(str_opt(authorization), str_opt(api_key)) is None,
        },
{
    let chosen: Option<String> = match authorization {
        Some(a) => {
            if str_starts_with(a, "Bearer ") {
                let v = chars_of(a);
                proof {
                    reveal_strlit("Bearer ");
                }
                Some(slice_string(&v, 7, v.len()))
            } else {
                match api_key {
                    Some(k) => Some(owned(k)),
                    None => None,
                }
            }
        },
        None => match api_key {
            Some(k) => Some(owned(k)),
            None => None,
        },
    };
    match chosen {
        Some(t) => {
            if t.as_str().is_empty() {
                None
            } else {
                Some(t)
            }
        },
        None => None,
    }
}

/// Why a request is turned away before it reaches a handler.
#[derive(Debug, Clone, Copy, PartialEq, Eq, Structural)]
pub enum AccessRefusal {
    Banned,
    RateLimited,
    MissingToken,
    InvalidToken,
}

/// The status code and error message of a refusal.
pub open spec fn refusal_of(r: AccessRefusal) -> (u16, Seq<char>) {
    match r {
        AccessRefusal::Banned => (403, "Forbidden: Your IP has been locked down due to security violations."@),
        AccessRefusal::RateLimited => (429, "Too Many Requests: per-IP minute limit exceeded."@),
        AccessRefusal::MissingToken => (401, "Unauthorized: Access token or API key required."@),
        AccessRefusal::InvalidToken => (401, "Unauthorized: Invalid or expired security token."@),
    }
}

impl AccessRefusal {
    pub fn response_parts(&self) -> (r: (u16, &'static str))
        ensures
            (r.0, r.1@) == refusal_of(*self),
    {
        match self {
            AccessRefusal::Banned => (403, "Forbidden: Your IP has been locked down due to security violations."),
            AccessRefusal::RateLimited => (429, "Too Many Requests: per-IP minute limit exceeded."),
            AccessRefusal::MissingToken => (401, "Unauthorized: Access token or API key required."),
            AccessRefusal::InvalidToken => (401, "Unauthorized: Invalid or expired security token."),
        }
    }
}

/// The headers added to every response, name and value.
pub open spec fn security_headers_spec() -> Seq<(Seq<char>, Seq<char>)> {
    seq![
        ("x-content-type-options"@, "nosniff"@),
        ("x-frame-options"@, "DENY"@),
        ("x-xss-protection"@, "1; mode=block"@),
        ("referrer-policy"@, "strict-origin-when-cross-origin"@),
        (
            "content-security-policy"@,
            "default-src 'self'; script-src 'self'; style-src 'self'; img-src 'self' data:; object-src 'none'; base-uri 'self';"@,
        ),
    ]
}

/// The headers added to every response, name and value.
pub fn security_headers() -> (r: Vec<(&'static str, &'static str)>)
    ensures
        r@.map_values(|p: (&str, &str)| (p.0@, p.1@)) == security_headers_spec(),
{
    let r: Vec<(&'static str, &'static str)> = vec![
        ("x-content-type-options", "nosniff"),
        ("x-frame-options", "DENY"),
        ("x-xss-protection", "1; mode=block"),
        ("referrer-policy", "strict-origin-when-cross-origin"),
        (
            "content-security-policy",
            "default-src 'self'; script-src 'self'; style-src 'self'; img-src 'self' data:; object-src 'none'; base-uri 'self';",
        ),
    ];
    assert(r@.map_values(|p: (&str, &str)| (p.0@, p.1@)) =~= security_headers_spec());
    r
}

/// The longest time, in microseconds, that a request counts against its
/// address: one minute.
pub const RATE_WINDOW_MICROS: u64 = 60_000_000;

/// The most requests an address may make within the window.
pub const RATE_LIMIT: usize = 60;

/// `a - b`, or 0 when `b` is later.
pub open spec fn elapsed(a: u64, b: u64) -> int {
    if a >= b {
        a - b
    } else {
        0
    }
}

/// The window without its requests older than the window at time `now`,
/// dropped from the front while they are.
pub open spec fn drop_stale(w: Seq<u64>, now: u64) -> Seq<u64>
    decreases w.len(),
{
    if w.len() > 0 && elapsed(now, w[0]) > RATE_WINDOW_MICROS {
        drop_stale(w.drop_first(), now)
    } else {
        w
    }
}

/// The window of `ip` after a run of calls `(address, time)`, each counted
/// as `RateLimiter::check` counts it.
pub open spec fn window_after(h: Seq<(Seq<char>, u64)>, ip: Seq<char>) -> Seq<u64>
    decreases h.len(),
{
    if h.len() == 0 {
        Seq::empty()
    } else {
        let w = window_after(h.drop_last(), ip);
        if h.last().0 == ip {
            let d = drop_stale(w, h.last().1);
            if d.len() < RATE_LIMIT {
                d.push(h.last().1)
            } else {
                d
            }
        } else {
            w
        }
    }
}

/// The times of the calls from `ip` in a run that were allowed, in order.
pub open spec fn allowed_times(h: Seq<(Seq<char>, u64)>, ip: Seq<char>) -> Seq<u64>
    decreases h.len(),
{
    if h.len() == 0 {
        Seq::empty()
    } else {
        let a = allowed_times(h.drop_last(), ip);
        if h.last().0 == ip && drop_stale(window_after(h.drop_last(), ip), h.last().1).len() < RATE_LIMIT {
            a.push(h.last().1)
        } else {
            a
        }
    }
}

/// The calls of a run come at non-decreasing times, none later than `now`.
pub open spec fn ordered_until(h: Seq<(Seq<char>, u64)>, now: u64) -> bool {
    &&& forall|i: int, j: int| 0 <= i < j < h.len() ==> (#[trigger] h[i]).1 <= (#[trigger] h[j]).1
    &&& forall|i: int| 0 <= i < h.len() ==> (#[trigger] h[i]).1 <= now
}

/// How many of the times `ts` lie within the window at `now`.
pub open spec fn count_within(ts: Seq<u64>, now: u64) -> nat
    decreases ts.len(),
{
    if ts.len() == 0 {
        0
    } else {
        count_within(ts.drop_first(), now) + if elapsed(now, ts[0]) <= RATE_WINDOW_MICROS {
            1nat
        } else {
            0nat
        }
    }
}

/// The request at `t` is older than the window at `now`.
fn is_stale(t: u64, now: u64) -> (r: bool)
    ensures
        r == (elapsed(now, t) > RATE_WINDOW_MICROS),
{
    let d: u64 = if now >= t {
        now - t
    } else {
        0
    };
    d > RATE_WINDOW_MICROS
}

/// The position of the bucket of `ip`, where there is one.
pub open spec fn bucket_pos(b: Seq<(String, Vec<u64>)>, ip: Seq<char>) -> Option<int> {
    if exists|i: int| 0 <= i < b.len() && b[i].0@ == ip {
        Some(choose|i: int| 0 <= i < b.len() && b[i].0@ == ip)
    } else {
        None
    }
}

/// The window of `ip` among the buckets.
pub open spec fn window_in(b: Seq<(String, Vec<u64>)>, ip: Seq<char>) -> Seq<u64> {
    match bucket_pos(b, ip) {
        Some(i) => b[i].1@,
        None => seq![],
    }
}

/// Per-address sliding windows of request times (microseconds on a
/// monotonic clock), oldest first.
pub struct RateLimiter {
    buckets: Vec<(String, Vec<u64>)>,
}

impl RateLimiter {
    /// Each address has at most one bucket, and no window holds more than
    /// the limit.
    pub closed spec fn wf(&self) -> bool {
        &&& forall|i: int, j: int|
            0 <= i < j < self.buckets@.len() ==> (#[trigger] self.buckets@[i]).0@ != (#[trigger] self.buckets@[j]).0@
        &&& forall|i: int| 0 <= i < self.buckets@.len() ==> (#[trigger] self.buckets@[i]).1@.len() <= RATE_LIMIT
    }

    /// The request times counted against an address.
    pub closed spec fn window(&self, ip: Seq<char>) -> Seq<u64> {
        window_in(self.buckets@, ip)
    }

    /// The limiter holds exactly the windows that the run of calls `h`
    /// leaves.
    pub open spec fn has_history(&self, h: Seq<(Seq<char>, u64)>) -> bool {
        forall|ip: Seq<char>| #[trigger] self.window(ip) == window_after(h, ip)
    }

    pub fn new() -> (r: Self)
        ensures
            r.wf(),
            forall|ip: Seq<char>| #[trigger] r.window(ip) == Seq::<u64>::empty(),
            r.has_history(Seq::empty()),
    {
        RateLimiter { buckets: Vec::new() }
    }

    fn find(&self, ip: &str) -> (r: Option<usize>)
        requires
            self.wf(),
        ensures
            match r {
                Some(i) => bucket_pos(self.buckets@, ip@) == Some(i as int),
                None => bucket_pos(self.buckets@, ip@) is None,
            },
    {
        let mut i: usize = 0;
        while i < self.buckets.len()
            invariant
                self.wf(),
                i <= self.buckets@.len(),
                forall|k: int| 0 <= k < i ==> self.buckets@[k].0@ != ip@,
            decreases self.buckets.len() - i,
        {
            if str_eq(self.buckets[i].0.as_str(), ip) {
                assert(bucket_pos(self.buckets@, ip@) == Some(i as int)) by {
                    let k = choose|k: int| 0 <= k < self.buckets@.len() && self.buckets@[k].0@ == ip@;
                    if k != i {
                        if k < i {
                        } else {
                            assert(self.buckets@[i as int].0@ != self.buckets@[k].0@);
                        }
                    }
                }
                return Some(i);
            }
            i = i + 1;
        }
        None
    }

    /// Counts a request from `ip` at time `now` against its window: the
    /// requests older than a minute leave the window first; the request is
    /// refused (and not counted) when the window already holds the limit.
    pub fn check(&mut self, ip: &str, now: u64) -> (allowed: bool)
        requires
            old(self).wf(),
        ensures
            final(self).wf(),
            allowed == (drop_stale(old(self).window(ip@), now).len() < RATE_LIMIT),
            final(self).window(ip@) == if allowed {
                drop_stale(old(self).window(ip@), now).push(now)
            } else {
                drop_stale(old(self).window(ip@), now)
            },
            forall|other: Seq<char>| other != ip@ ==> #[trigger] final(self).window(other) == old(self).window(other),
            forall|h: Seq<(Seq<char>, u64)>| #[trigger] old(self).has_history(h) ==> final(self).has_history(
                h.push((ip@, now)),
            ),
    {
        let allowed = self.count_request(ip, now);
        proof {
            assert forall|h: Seq<(Seq<char>, u64)>| #[trigger] old(self).has_history(h) implies self.has_history(
                h.push((ip@, now)),
            ) by {
                let p = h.push((ip@, now));
                assert(p.drop_last() =~= h);
                assert forall|x: Seq<char>| #[trigger] self.window(x) == window_after(p, x) by {
                    assert(old(self).window(x) == window_after(h, x));
                }
            }
        }
        allowed
    }

    fn count_request(&mut self, ip: &str, now: u64) -> (allowed: bool)
        requires
            old(self).wf(),
        ensures
            final(self).wf(),
            allowed == (drop_stale(old(self).window(ip@), now).len() < RATE_LIMIT),
            final(self).window(ip@) == if allowed {
                drop_stale(old(self).window(ip@), now).push(now)
            } else {
                drop_stale(old(self).window(ip@), now)
            },
            forall|other: Seq<char>| other != ip@ ==> #[trigger] final(self).window(other) == old(self).window(other),
    {
        let pos = match self.find(ip) {
            Some(i) => i,
            None => {
                let ghost before = self.buckets@;
                let n = self.buckets.len();
                self.buckets.push((owned(ip), Vec::new()));
                proof {
                    assert(self.buckets@.len() == before.len() + 1);
                    assert(self.buckets@[before.len() as int].0@ == ip@);
                    assert(forall|i: int| 0 <= i < before.len() ==> #[trigger] self.buckets@[i] == before[i]);
                    assert(bucket_pos(self.buckets@, ip@) == Some(before.len() as int)) by {
                        assert(0 <= before.len() < self.buckets@.len() && self.buckets@[before.len() as int].0@ == ip@);
                        let k = choose|k: int| 0 <= k < self.buckets@.len() && self.buckets@[k].0@ == ip@;
                        if k < before.len() {
                            assert(self.buckets@[k] == before[k]);
                            assert(before[k].0@ == ip@);
                            assert(false);
                        }
                    }
                    assert forall|other: Seq<char>| other != ip@ implies #[trigger] self.window(other) == old(self).window(other) by {
                        if exists|i: int| 0 <= i < before.len() && before[i].0@ == other {
                            let k = choose|k: int| 0 <= k < before.len() && before[k].0@ == other;
                            assert(self.buckets@[k] == before[k]);
                            let k2 = choose|k2: int| 0 <= k2 < self.buckets@.len() && self.buckets@[k2].0@ == other;
                            if k2 != k {
                                assert(k2 < before.len());
                            }
                        } else {
                            assert(!exists|i: int| 0 <= i < self.buckets@.len() && self.buckets@[i].0@ == other) by {
                                if exists|i: int| 0 <= i < self.buckets@.len() && self.buckets@[i].0@ == other {
                                    let k = choose|k: int| 0 <= k < self.buckets@.len() && self.buckets@[k].0@ == other;
                                    assert(k < before.len());
                                }
                            }
                        }
                    }
                }
                n
            },
        };
        assert(self.window(ip@) == old(self).window(ip@));
        assert(self.wf());
        let ghost mid = self.buckets@;
        assert forall|other: Seq<char>| other != ip@ implies #[trigger] window_in(mid, other) == old(self).window(other) by {
            assert(self.window(other) == window_in(mid, other));
        }
        assert(mid[pos as int].0@ == ip@);
        let key = self.buckets[pos].0.clone();
        let mut w: Vec<u64> = Vec::new();
        let old_w = &self.buckets[pos].1;
        let mut start: usize = 0;
        assert(old_w@.subrange(0, old_w@.len() as int) == old_w@);
        while start < old_w.len() && is_stale(old_w[start], now)
            invariant
                start <= old_w@.len(),
                drop_stale(old_w@, now) == drop_stale(old_w@.subrange(start as int, old_w@.len() as int), now),
            decreases old_w.len() - start,
        {
            assert(old_w@.subrange(start as int, old_w@.len() as int).drop_first() == old_w@.subrange(
                start + 1,
                old_w@.len() as int,
            ));
            start = start + 1;
        }
        assert(drop_stale(old_w@.subrange(start as int, old_w@.len() as int), now) == old_w@.subrange(
            start as int,
            old_w@.len() as int,
        ));
        let mut k: usize = start;
        while k < old_w.len()
            invariant
                start <= k <= old_w@.len(),
                w@ == old_w@.subrange(start as int, k as int),
            decreases old_w.len() - k,
        {
            w.push(old_w[k]);
            k = k + 1;
            assert(w@ =~= old_w@.subrange(start as int, k as int));
        }
        let allowed = w.len() < RATE_LIMIT;
        if allowed {
            w.push(now);
        }
        let ghost neww = w@;
        self.buckets.set(pos, (key, w));
        proof {
            assert(self.buckets@ == mid.update(pos as int, (key, w)));
            assert(self.buckets@[pos as int].0@ == ip@);
            assert(bucket_pos(self.buckets@, ip@) == Some(pos as int)) by {
                assert(0 <= pos < self.buckets@.len() && self.buckets@[pos as int].0@ == ip@);
                let k2 = choose|k2: int| 0 <= k2 < self.buckets@.len() && self.buckets@[k2].0@ == ip@;
                if k2 != pos {
                    assert(self.buckets@[k2] == mid[k2]);
                    assert(mid[k2].0@ == mid[pos as int].0@);
                }
            }
            assert forall|other: Seq<char>| other != ip@ implies #[trigger] self.window(other) == old(self).window(other) by {
                assert(window_in(mid, other) == old(self).window(other));
                if exists|i: int| 0 <= i < mid.len() && mid[i].0@ == other {
                    let k3 = choose|k3: int| 0 <= k3 < mid.len() && mid[k3].0@ == other;
                    assert(0 <= k3 < mid.len() && mid[k3].0@ == other);
                    assert(k3 != pos);
                    assert(self.buckets@[k3] == mid[k3]);
                    assert(0 <= k3 < self.buckets@.len() && self.buckets@[k3].0@ == other);
                    let k4 = choose|k4: int| 0 <= k4 < self.buckets@.len() && self.buckets@[k4].0@ == other;
                    assert(0 <= k4 < self.buckets@.len() && self.buckets@[k4].0@ == other);
                    assert(k4 != pos);
                    assert(self.buckets@[k4] == mid[k4]);
                    if k4 != k3 {
                        assert(mid[k4].0@ == mid[k3].0@);
                    }
                } else {
                    assert(!exists|i: int| 0 <= i < self.buckets@.len() && self.buckets@[i].0@ == other) by {
                        if exists|i: int| 0 <= i < self.buckets@.len() && self.buckets@[i].0@ == other {
                            let k5 = choose|k5: int| 0 <= k5 < self.buckets@.len() && self.buckets@[k5].0@ == other;
                            assert(0 <= k5 < self.buckets@.len() && self.buckets@[k5].0@ == other);
                            assert(k5 != pos);
                            assert(self.buckets@[k5] == mid[k5]);
                            assert(mid[k5].0@ == other);
                        }
                    }
                }
            }
        }
        allowed
    }
}

/// The access check of a request to `path` from `ip` at time `now`. A
/// public path passes without counting against the limit. Any other request
/// counts against its address's window and is refused when the window is
/// full; an allowed request must then carry a token (a bearer token, else
/// an API key), which is handed back for validation.
pub fn decide_access(
    limiter: &mut RateLimiter,
    path: &str,
    ip: &str,
    now: u64,
    authorization: Option<&str>,
    api_key: Option<&str>,
) -> (r: Result<Option<String>, AccessRefusal>)
    requires
        old(limiter).wf(),
    ensures
        final(limiter).wf(),
        public_path(path@) ==> r == Ok::<Option<String>, AccessRefusal>(None) && *final(limiter) == *old(limiter),
        !public_path(path@) ==> {
            let kept = drop_stale(old(limiter).window(ip@), now);
            let allowed = kept.len() < RATE_LIMIT;
            &&& final(limiter).window(ip@) == (if allowed {
                kept.push(now)
            } else {
                kept
            })
            &&& forall|other: Seq<char>| other != ip@ ==> #[trigger] final(limiter).window(other) == old(limiter).window(other)
            &&& forall|h: Seq<(Seq<char>, u64)>| #[trigger] old(limiter).has_history(h) ==> final(limiter).has_history(
                h.push((ip@, now)),
            )
            &&& !allowed ==> r == Err::<Option<String>, AccessRefusal>(AccessRefusal::RateLimited)
            &&& allowed ==> match token_of(str_opt(authorization), str_opt(api_key)) {
                Some(tok) => r matches Ok(Some(s)) && s@ == tok,
                None => r == Err::<Option<String>, AccessRefusal>(AccessRefusal::MissingToken),
            }
        },
{
    if is_public_path(path) {
        return Ok(None);
    }
    if !limiter.check(ip, now) {
        return Err(AccessRefusal::RateLimited);
    }
    match bearer_token(authorization, api_key) {
        Some(t) => Ok(Some(t)),
        None => Err(AccessRefusal::MissingToken),
    }
}

/// A request is counted only while the window is below the limit, so a
/// window never holds more than the limit.
pub proof fn lemma_window_bounded(l: RateLimiter, ip: Seq<char>)
    requires
        l.wf(),
    ensures
        l.window(ip).len() <= RATE_LIMIT,
{
    if let Some(i) = bucket_pos(l.buckets@, ip) {
        assert(0 <= i < l.buckets@.len());
    }
}

proof fn lemma_drop_stale_twice(s: Seq<u64>, t: u64, now: u64)
    requires
        t <= now,
    ensures
        drop_stale(drop_stale(s, t), now) == drop_stale(s, now),
    decreases s.len(),
{
    if s.len() > 0 && elapsed(t, s[0]) > RATE_WINDOW_MICROS {
        lemma_drop_stale_twice(s.drop_first(), t, now);
    } else if s.len() > 0 && elapsed(now, s[0]) > RATE_WINDOW_MICROS {
        lemma_drop_stale_front(s, now);
    }
}

proof fn lemma_drop_stale_front(s: Seq<u64>, now: u64)
    ensures
        drop_stale(drop_stale(s, now), now) == drop_stale(s, now),
    decreases s.len(),
{
    if s.len() > 0 && elapsed(now, s[0]) > RATE_WINDOW_MICROS {
        lemma_drop_stale_front(s.drop_first(), now);
    }
}

proof fn lemma_drop_stale_push(s: Seq<u64>, x: u64, now: u64)
    ensures
        drop_stale(s, now).len() > 0 ==> drop_stale(s.push(x), now) == drop_stale(s, now).push(x),
        drop_stale(s, now).len() == 0 ==> drop_stale(s.push(x), now) == drop_stale(seq![x], now),
    decreases s.len(),
{
    if s.len() == 0 {
        assert(s.push(x) =~= seq![x]);
    } else {
        assert(s.push(x).drop_first() =~= s.drop_first().push(x));
        assert(s.push(x)[0] == s[0]);
        if elapsed(now, s[0]) > RATE_WINDOW_MICROS {
            lemma_drop_stale_push(s.drop_first(), x, now);
        }
    }
}

/// Over a run of calls at non-decreasing times, the window of an address at
/// any later instant holds exactly its allowed calls, less those older than
/// the window.
pub proof fn lemma_window_is_recent_allowed(h: Seq<(Seq<char>, u64)>, ip: Seq<char>, now: u64)
    requires
        ordered_until(h, now),
    ensures
        drop_stale(window_after(h, ip), now) == drop_stale(allowed_times(h, ip), now),
    decreases h.len(),
{
    if h.len() > 0 {
        let g = h.drop_last();
        let t = h.last().1;
        assert(ordered_until(g, now)) by {
            assert forall|i: int, j: int| 0 <= i < j < g.len() implies (#[trigger] g[i]).1 <= (#[trigger] g[j]).1 by {
                assert(g[i] == h[i] && g[j] == h[j]);
            }
            assert forall|i: int| 0 <= i < g.len() implies (#[trigger] g[i]).1 <= now by {
                assert(g[i] == h[i]);
            }
        }
        assert(ordered_until(g, t)) by {
            assert forall|i: int| 0 <= i < g.len() implies (#[trigger] g[i]).1 <= t by {
                assert(g[i] == h[i]);
                assert(h[i].1 <= h[h.len() - 1].1);
            }
        }
        assert(t <= now) by {
            assert(h[h.len() - 1].1 <= now);
        }
        lemma_window_is_recent_allowed(g, ip, now);
        let w = window_after(g, ip);
        let a = allowed_times(g, ip);
        if h.last().0 == ip {
            lemma_window_is_recent_allowed(g, ip, t);
            let d = drop_stale(w, t);
            lemma_drop_stale_twice(w, t, now);
            if d.len() < RATE_LIMIT {
                lemma_drop_stale_push(d, t, now);
                lemma_drop_stale_push(a, t, now);
            }
        }
    }
}

proof fn lemma_count_within_all(ts: Seq<u64>, now: u64)
    requires
        forall|i: int| 0 <= i < ts.len() ==> elapsed(now, #[trigger] ts[i]) <= RATE_WINDOW_MICROS,
    ensures
        count_within(ts, now) == ts.len(),
    decreases ts.len(),
{
    if ts.len() > 0 {
        let r = ts.drop_first();
        assert forall|i: int| 0 <= i < r.len() implies elapsed(now, #[trigger] r[i]) <= RATE_WINDOW_MICROS by {
            assert(r[i] == ts[i + 1]);
        }
        lemma_count_within_all(r, now);
    }
}

proof fn lemma_drop_stale_counts(ts: Seq<u64>, now: u64)
    requires
        forall|i: int, j: int| 0 <= i < j < ts.len() ==> (#[trigger] ts[i]) <= (#[trigger] ts[j]),
        forall|i: int| 0 <= i < ts.len() ==> #[trigger] ts[i] <= now,
    ensures
        drop_stale(ts, now).len() == count_within(ts, now),
    decreases ts.len(),
{
    if ts.len() > 0 {
        let r = ts.drop_first();
        if elapsed(now, ts[0]) > RATE_WINDOW_MICROS {
            assert forall|i: int, j: int| 0 <= i < j < r.len() implies (#[trigger] r[i]) <= (#[trigger] r[j]) by {
                assert(r[i] == ts[i + 1] && r[j] == ts[j + 1]);
            }
            assert forall|i: int| 0 <= i < r.len() implies #[trigger] r[i] <= now by {
                assert(r[i] == ts[i + 1]);
            }
            lemma_drop_stale_counts(r, now);
        } else {
            assert forall|i: int| 0 <= i < ts.len() implies elapsed(now, #[trigger] ts[i]) <= RATE_WINDOW_MICROS by {
                if i > 0 {
                    assert(ts[0] <= ts[i]);
                }
            }
            lemma_count_within_all(ts, now);
        }
    }
}

proof fn lemma_allowed_times_ordered(h: Seq<(Seq<char>, u64)>, ip: Seq<char>, now: u64)
    requires
        ordered_until(h, now),
    ensures
        forall|i: int, j: int|
            0 <= i < j < allowed_times(h, ip).len() ==> (#[trigger] allowed_times(h, ip)[i]) <= (#[trigger] allowed_times(h, ip)[j]),
        forall|i: int| 0 <= i < allowed_times(h, ip).len() ==> #[trigger] allowed_times(h, ip)[i] <= now,
        h.len() > 0 ==> forall|i: int| 0 <= i < allowed_times(h, ip).len() ==> #[trigger] allowed_times(h, ip)[i] <= h.last().1,
    decreases h.len(),
{
    if h.len() > 0 {
        let g = h.drop_last();
        let t = h.last().1;
        assert(ordered_until(g, t)) by {
            assert forall|i: int, j: int| 0 <= i < j < g.len() implies (#[trigger] g[i]).1 <= (#[trigger] g[j]).1 by {
                assert(g[i] == h[i] && g[j] == h[j]);
            }
            assert forall|i: int| 0 <= i < g.len() implies (#[trigger] g[i]).1 <= t by {
                assert(g[i] == h[i]);
                assert(h[i].1 <= h[h.len() - 1].1);
            }
        }
        assert(t <= now) by {
            assert(h[h.len() - 1].1 <= now);
        }
        lemma_allowed_times_ordered(g, ip, t);
        let a = allowed_times(g, ip);
        let b = allowed_times(h, ip);
        if b.len() > a.len() {
            assert(b == a.push(t));
            assert forall|i: int, j: int| 0 <= i < j < b.len() implies (#[trigger] b[i]) <= (#[trigger] b[j]) by {
                assert(b[i] == a[i]);
                if j < a.len() {
                    assert(b[j] == a[j]);
                }
            }
            assert forall|i: int| 0 <= i < b.len() implies #[trigger] b[i] <= now by {
                if i < a.len() {
                    assert(b[i] == a[i]);
                }
            }
            assert forall|i: int| 0 <= i < b.len() implies #[trigger] b[i] <= h.last().1 by {
                if i < a.len() {
                    assert(b[i] == a[i]);
                }
            }
        } else {
            assert(b == a);
        }
    }
}

/// Over a run of calls from a fresh limiter at non-decreasing times: a call
/// from `ip` at `now` is allowed exactly when fewer than the limit of the
/// earlier allowed calls from `ip` lie within the window at `now`; and, at
/// any instant, at most the limit of the allowed calls from one address
/// lie within the window. Calls from other addresses play no part.
pub proof fn lemma_rate_limit_run(h: Seq<(Seq<char>, u64)>, ip: Seq<char>, now: u64)
    requires
        ordered_until(h, now),
    ensures
        (drop_stale(window_after(h, ip), now).len() < RATE_LIMIT) == (count_within(allowed_times(h, ip), now) < RATE_LIMIT),
        count_within(allowed_times(h, ip), now) <= RATE_LIMIT,
{
    lemma_window_is_recent_allowed(h, ip, now);
    lemma_allowed_times_ordered(h, ip, now);
    lemma_drop_stale_counts(allowed_times(h, ip), now);
    lemma_window_after_bounded(h, ip);
    lemma_drop_stale_shorter(window_after(h, ip), now);
}

proof fn lemma_drop_stale_shorter(s: Seq<u64>, now: u64)
    ensures
        drop_stale(s, now).len() <= s.len(),
    decreases s.len(),
{
    if s.len() > 0 && elapsed(now, s[0]) > RATE_WINDOW_MICROS {
        lemma_drop_stale_shorter(s.drop_first(), now);
    }
}

proof fn lemma_window_after_bounded(h: Seq<(Seq<char>, u64)>, ip: Seq<char>)
    ensures
        window_after(h, ip).len() <= RATE_LIMIT,
    decreases h.len(),
{
    if h.len() > 0 {
        lemma_window_after_bounded(h.drop_last(), ip);
        lemma_drop_stale_shorter(window_after(h.drop_last(), ip), h.last().1);
    }
}

/// What a login attempt comes to.
#[derive(Debug, Clone, Copy, PartialEq, Eq, Structural)]
pub enum LoginOutcome {
    /// The account has two-factor login on and the code given is wrong.
    TwoFactorRequired,
    /// The administrator's credentials from the environment.
    Admin,
    /// A stored account whose password checks out.
    Account,
    /// Wrong user name or password.
    Refused,
}

/// The decision on a login: an account with two-factor login on (and a
/// secret) needs a valid code first; then the administrator's credentials
/// (user name compared trimmed and lowercased) are accepted; then a stored
/// account with the right password.
pub open spec fn login_outcome(
    username: Seq<char>,
    password: Seq<char>,
    user: Option<UserDbRecord>,
    totp_ok: bool,
    admin_username: Seq<char>,
    admin_password: Seq<char>,
    password_ok: bool,
) -> LoginOutcome {
    if user matches Some(u) && u.totp_enabled && u.totp_secret is Some && !totp_ok {
        LoginOutcome::TwoFactorRequired
    } else if str_lower(trimmed(username)) == str_lower(admin_username) && password == admin_password {
        LoginOutcome::Admin
    } else if user is None {
        LoginOutcome::Refused
    } else if !password_ok {
        LoginOutcome::Refused
    } else {
        LoginOutcome::Account
    }
}

/// Decides a login, given the stored account of that name (if any),
/// whether the two-factor code given is valid for it, the administrator's
/// credentials, and whether the password matches the stored account's.
pub fn decide_login(
    username: &str,
    password: &str,
    user: &Option<UserDbRecord>,
    totp_ok: bool,
    admin_username: &str,
    admin_password: &str,
    password_ok: bool,
) -> (r: LoginOutcome)
    ensures
        r == login_outcome(username@, password@, *user, totp_ok, admin_username@, admin_password@, password_ok),
{
    if let Some(u) = user {
        if u.totp_enabled && u.totp_secret.is_some() && !totp_ok {
            return LoginOutcome::TwoFactorRequired;
        }
    }
    let name = trim(username);
    let a = lower(name.as_str());
    let b = lower(admin_username);
    if str_eq(a.as_str(), b.as_str()) && str_eq(password, admin_password) {
        return LoginOutcome::Admin;
    }
    match user {
        None => LoginOutcome::Refused,
        Some(_) => if !password_ok {
            LoginOutcome::Refused
        } else {
            LoginOutcome::Account
        },
    }
}

/// The administrator's user name for logins: the environment's value, or
/// `admin` when it is not set.
pub fn login_admin_username(env_value: Option<String>) -> (r: String)
    ensures
        r@ == match env_value {
            Some(v) => v@,
            None => "admin"@,
        },
{
    match env_value {
        Some(v) => v,
        None => String::from_str("admin"),
    }
}

/// The administrator's password for logins: the environment's value, or a
/// placeholder that asks for it to be changed when it is not set.
pub fn login_admin_password(env_value: Option<String>) -> (r: String)
    ensures
        r@ == match env_value {
            Some(v) => v@,
            None => "change_admin_password_immediately"@,
        },
{
    match env_value {
        Some(v) => v,
        None => String::from_str("change_admin_password_immediately"),
    }
}

/// The answer to a wrong user name or password.
pub fn login_refusal() -> (r: ApiError)
    ensures
        r matches ApiError::Unauthorized(m) && m@ == "Gözden geçirin: Kullanıcı adı veya şifre hatalı."@,
{
    ApiError::Unauthorized(String::from_str("Gözden geçirin: Kullanıcı adı veya şifre hatalı."))
}

/// The message asking for the two-factor code.
pub fn two_factor_prompt() -> (r: &'static str)
    ensures
        r@ == "Lütfen 6 haneli 2FA kodunuzu giriniz."@,
{
    "Lütfen 6 haneli 2FA kodunuzu giriniz."
}

/// The TOTP secret to check a code against when two-factor login is
/// being enabled: the account must exist and have been set up.
pub fn enrollment_secret(user: &Option<UserDbRecord>) -> (r: Result<String, ApiError>)
    ensures
        match *user {
            None => r matches Err(ApiError::NotFound(m)) && m@ == "Kullanıcı bulunamadı."@,
            Some(u) => match u.totp_secret {
                None => r matches Err(ApiError::BadRequest(m)) && m@ == "Önce 2FA kurulumu yapılmalıdır."@,
                Some(s) => r matches Ok(x) && x == s,
            },
        },
{
    match user {
        None => Err(ApiError::NotFound(String::from_str("Kullanıcı bulunamadı."))),
        Some(u) => match &u.totp_secret {
            None => Err(ApiError::BadRequest(String::from_str("Önce 2FA kurulumu yapılmalıdır."))),
            Some(s) => Ok(s.clone()),
        },
    }
}

/// The answer to a wrong two-factor code while enabling it.
pub fn invalid_two_factor_code() -> (r: ApiError)
    ensures
        r matches ApiError::Unauthorized(m) && m@ == "Geçersiz 2FA doğrulama kodu."@,
{
    ApiError::Unauthorized(String::from_str("Geçersiz 2FA doğrulama kodu."))
}

/// The origin that cross-origin requests are allowed from: the value of
/// `ALLOWED_ORIGIN`, else of `CORS_ORIGIN`, else the local dashboard,
/// trimmed.
pub fn allowed_origin(allowed: Option<String>, cors: Option<String>) -> (r: String)
    ensures
        r@ == trimmed(
            match allowed {
                Some(a) => a@,
                None => match cors {
                    Some(c) => c@,
                    None => "http://127.0.0.1:8080"@,
                },
            },
        ),
{
    let chosen = match allowed {
        Some(a) => a,
        None => match cors {
            Some(c) => c,
            None => String::from_str("http://127.0.0.1:8080"),
        },
    };
    trim(chosen.as_str())
}

/// The endpoints that need no token: the health check, login, registration,
/// the WebSocket and the event stream, and every path outside `/api/`.
pub proof fn lemma_public_paths(path: Seq<char>)
    ensures
        public_path("/api/health"@),
        public_path("/api/auth/login"@),
        public_path("/api/auth/register"@),
        public_path("/api/ws"@),
        public_path("/api/events/sse"@),
        !starts(path, "/api/"@) ==> public_path(path),
{
}

} // verus!
