//! Trimming, line splitting and byte-length tests on texts, stated over
//! their character sequences.
use vstd::prelude::*;
use vstd::string::StringSliceAdditionalSpecFns;
use vstd::utf8::encode_utf8;

use crate::ordered::views;
use crate::text::{char_is_ws, chars_of, fits_or_splits, is_ws, slice_string, string_from_chars};

verus! {

/// The text without its leading whitespace.
pub open spec fn trim_start(s: Seq<char>) -> Seq<char>
    decreases s.len(),
{
    if s.len() > 0 && is_ws(s[0]) {
        trim_start(s.drop_first())
    } else {
        s
    }
}

/// The text without its trailing whitespace.
pub open spec fn trim_end(s: Seq<char>) -> Seq<char>
    decreases s.len(),
{
    if s.len() > 0 && is_ws(s.last()) {
        trim_end(s.drop_last())
    } else {
        s
    }
}

/// `str::trim`: the text without leading and trailing whitespace.
pub open spec fn trimmed(s: Seq<char>) -> Seq<char> {
    trim_end(trim_start(s))
}

/// A line without the carriage return that preceded its newline.
pub open spec fn strip_cr(l: Seq<char>) -> Seq<char> {
    if l.len() > 0 && l.last() == '\r' {
        l.drop_last()
    } else {
        l
    }
}

/// The lines of `s` when the current line so far is `cur`: a newline ends
/// a line (and a carriage return just before it); a last line without a
/// newline counts when it is not empty.
pub open spec fn lines_from(s: Seq<char>, cur: Seq<char>) -> Seq<Seq<char>>
    decreases s.len(),
{
    if s.len() == 0 {
        if cur.len() == 0 {
            seq![]
        } else {
            seq![cur]
        }
    } else if s[0] == '\n' {
        seq![strip_cr(cur)] + lines_from(s.drop_first(), seq![])
    } else {
        lines_from(s.drop_first(), cur.push(s[0]))
    }
}

/// `str::lines`: the lines of a text, without their line endings.
pub open spec fn lines_of(s: Seq<char>) -> Seq<Seq<char>> {
    lines_from(s, seq![])
}

proof fn lemma_trim_start_step(v: Seq<char>, i: int)
    requires
        0 <= i < v.len(),
        is_ws(v[i]),
    ensures
        trim_start(v.subrange(i, v.len() as int)) == trim_start(v.subrange(i + 1, v.len() as int)),
{
    assert(v.subrange(i, v.len() as int).drop_first() == v.subrange(i + 1, v.len() as int));
}

proof fn lemma_trim_end_step(v: Seq<char>, i: int, j: int)
    requires
        0 <= i < j <= v.len(),
        is_ws(v[j - 1]),
    ensures
        trim_end(v.subrange(i, j)) == trim_end(v.subrange(i, j - 1)),
{
    assert(v.subrange(i, j).drop_last() == v.subrange(i, j - 1));
}

/// `str::trim`, as an owned string.
pub fn trim(s: &str) -> (r: String)
    ensures
        r@ == trimmed(s@),
{
    let v = chars_of(s);
    let n = v.len();
    let mut i: usize = 0;
    assert(v@.subrange(0, n as int) == v@);
    while i < n && char_is_ws(v[i])
        invariant
            v@ == s@,
            n == v@.len(),
            i <= n,
            trim_start(s@) == trim_start(v@.subrange(i as int, n as int)),
        decreases n - i,
    {
        proof {
            lemma_trim_start_step(v@, i as int);
        }
        i = i + 1;
    }
    assert(trim_start(v@.subrange(i as int, n as int)) == v@.subrange(i as int, n as int));
    let mut j: usize = n;
    while j > i && char_is_ws(v[j - 1])
        invariant
            v@ == s@,
            n == v@.len(),
            i <= j <= n,
            trimmed(s@) == trim_end(v@.subrange(i as int, j as int)),
        decreases j,
    {
        proof {
            lemma_trim_end_step(v@, i as int, j as int);
        }
        j = j - 1;
    }
    assert(trim_end(v@.subrange(i as int, j as int)) == v@.subrange(i as int, j as int));
    slice_string(&v, i, j)
}

/// `s.len() <= max || s.is_char_boundary(max)`: where `&s[..max]` does not
/// panic.
pub fn splits_within(s: &str, max: usize) -> (r: bool)
    ensures
        r == fits_or_splits(s@, max as int),
{
    assert(s.spec_bytes() == encode_utf8(s@));
    s.as_bytes().len() <= max || s.is_char_boundary(max)
}

fn strip_cr_chars(cur: &Vec<char>) -> (r: String)
    ensures
        r@ == strip_cr(cur@),
{
    let n = cur.len();
    if n > 0 && cur[n - 1] == '\r' {
        slice_string(cur, 0, n - 1)
    } else {
        string_from_chars(cur)
    }
}

/// `str::lines`, as owned strings.
pub fn split_lines(s: &str) -> (r: Vec<String>)
    ensures
        views(r@) == lines_of(s@),
{
    let v = chars_of(s);
    let n = v.len();
    let mut out: Vec<String> = Vec::new();
    let mut cur: Vec<char> = Vec::new();
    let mut i: usize = 0;
    assert(v@.subrange(0, n as int) == v@);
    assert(views(out@) + lines_from(v@, cur@) == lines_from(v@, seq![]));
    while i < n
        invariant
            v@ == s@,
            n == v@.len(),
            i <= n,
            lines_of(s@) == views(out@) + lines_from(v@.subrange(i as int, n as int), cur@),
        decreases n - i,
    {
        let ghost rest = v@.subrange(i as int, n as int);
        assert(rest.drop_first() == v@.subrange(i + 1, n as int));
        assert(rest[0] == v@[i as int]);
        if v[i] == '\n' {
            let line = strip_cr_chars(&cur);
            let ghost before = views(out@);
            out.push(line);
            assert(views(out@) == before.push(strip_cr(cur@)));
            assert(before + (seq![strip_cr(cur@)] + lines_from(v@.subrange(i + 1, n as int), seq![]))
                == views(out@) + lines_from(v@.subrange(i + 1, n as int), seq![]));
            cur = Vec::new();
        } else {
            cur.push(v[i]);
        }
        i = i + 1;
    }
    assert(v@.subrange(n as int, n as int) == Seq::<char>::empty());
    if cur.len() > 0 {
        let ghost before = views(out@);
        out.push(string_from_chars(&cur));
        assert(views(out@) == before.push(cur@));
        assert(before + seq![cur@] == views(out@));
    } else {
        assert(views(out@) + Seq::<Seq<char>>::empty() == views(out@));
    }
    out
}

/// The whitespace-separated words of `s` when the current word so far is
/// `cur`.
pub open spec fn words_from(s: Seq<char>, cur: Seq<char>) -> Seq<Seq<char>>
    decreases s.len(),
{
    if s.len() == 0 {
        if cur.len() == 0 {
            seq![]
        } else {
            seq![cur]
        }
    } else if is_ws(s[0]) {
        (if cur.len() == 0 {
            seq![]
        } else {
            seq![cur]
        }) + words_from(s.drop_first(), seq![])
    } else {
        words_from(s.drop_first(), cur.push(s[0]))
    }
}

/// `str::split_whitespace`: the non-empty runs of non-whitespace
/// characters, in order.
pub open spec fn words_of(s: Seq<char>) -> Seq<Seq<char>> {
    words_from(s, seq![])
}

/// `str::split_whitespace`, as owned strings.
pub fn split_words(s: &str) -> (r: Vec<String>)
    ensures
        views(r@) == words_of(s@),
{
    let v = chars_of(s);
    let n = v.len();
    let mut out: Vec<String> = Vec::new();
    let mut cur: Vec<char> = Vec::new();
    let mut i: usize = 0;
    assert(v@.subrange(0, n as int) == v@);
    assert(views(out@) + words_from(v@, cur@) == words_from(v@, seq![]));
    while i < n
        invariant
            v@ == s@,
            n == v@.len(),
            i <= n,
            words_of(s@) == views(out@) + words_from(v@.subrange(i as int, n as int), cur@),
        decreases n - i,
    {
        let ghost rest = v@.subrange(i as int, n as int);
        assert(rest.drop_first() == v@.subrange(i + 1, n as int));
        assert(rest[0] == v@[i as int]);
        if char_is_ws(v[i]) {
            if cur.len() > 0 {
                let ghost before = views(out@);
                out.push(string_from_chars(&cur));
                assert(views(out@) == before.push(cur@));
                assert(before + (seq![cur@] + words_from(v@.subrange(i + 1, n as int), seq![]))
                    == views(out@) + words_from(v@.subrange(i + 1, n as int), seq![]));
            } else {
                assert(Seq::<Seq<char>>::empty() + words_from(v@.subrange(i + 1, n as int), seq![])
                    == words_from(v@.subrange(i + 1, n as int), seq![]));
            }
            cur = Vec::new();
        } else {
            cur.push(v[i]);
        }
        i = i + 1;
    }
    assert(v@.subrange(n as int, n as int) == Seq::<char>::empty());
    if cur.len() > 0 {
        let ghost before = views(out@);
        out.push(string_from_chars(&cur));
        assert(views(out@) == before.push(cur@));
        assert(before + seq![cur@] == views(out@));
    } else {
        assert(views(out@) + Seq::<Seq<char>>::empty() == views(out@));
    }
    out
}

} // verus!
