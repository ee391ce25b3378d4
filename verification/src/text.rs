//! Character-level text helpers shared by the detection, parsing and
//! formatting code, each stated over the character sequence of its input.
use vstd::prelude::*;
use vstd::string::StringSliceAdditionalSpecFns;
use vstd::utf8::{decode_utf8, encode_utf8, encode_utf8_decode_utf8, is_char_boundary};

verus! {

/// Characters with the Unicode `White_Space` property, the set that
/// `char::is_whitespace` and `str::trim` use.
pub open spec fn is_ws(c: char) -> bool {
    ||| ('\u{9}' <= c && c <= '\u{d}')
    ||| c == ' '
    ||| c == '\u{85}'
    ||| c == '\u{a0}'
    ||| c == '\u{1680}'
    ||| ('\u{2000}' <= c && c <= '\u{200a}')
    ||| c == '\u{2028}'
    ||| c == '\u{2029}'
    ||| c == '\u{202f}'
    ||| c == '\u{205f}'
    ||| c == '\u{3000}'
}

/// A text made only of whitespace (the empty text included): what
/// `s.trim().is_empty()` tests.
pub open spec fn blank(s: Seq<char>) -> bool {
    forall|i: int| 0 <= i < s.len() ==> is_ws(#[trigger] s[i])
}

/// `n` occurs in `h` starting at position `i`.
pub open spec fn occurs_at(h: Seq<char>, n: Seq<char>, i: int) -> bool {
    0 <= i && i + n.len() <= h.len() && h.subrange(i, i + n.len()) == n
}

/// `n` occurs somewhere in `h`: what `str::contains` tests.
pub open spec fn has_sub(h: Seq<char>, n: Seq<char>) -> bool {
    exists|i: int| occurs_at(h, n, i)
}

/// `n` is a prefix of `h`: what `str::starts_with` tests.
pub open spec fn starts(h: Seq<char>, n: Seq<char>) -> bool {
    occurs_at(h, n, 0)
}

/// ASCII letters `A`..`Z` map to `a`..`z`; every other character stays.
pub open spec fn ascii_lower_char(c: char) -> char {
    if 'A' <= c && c <= 'Z' {
        ((c as u32) + 32) as char
    } else {
        c
    }
}

pub open spec fn ascii_lower(s: Seq<char>) -> Seq<char> {
    s.map_values(|c: char| ascii_lower_char(c))
}

/// Every character is in the ASCII range.
pub open spec fn all_ascii(s: Seq<char>) -> bool {
    forall|i: int| 0 <= i < s.len() ==> (#[trigger] s[i] as u32) < 128
}

/// A text of lowercase ASCII letters, digits, underscores and spaces.
pub open spec fn lower_word(s: Seq<char>) -> bool {
    forall|i: int|
        0 <= i < s.len() ==> {
            let c = #[trigger] s[i];
            ('a' <= c && c <= 'z') || ('0' <= c && c <= '9') || c == '_' || c == ' '
        }
}

/// Lowercasing leaves such a text unchanged.
pub proof fn lemma_lower_word_fixed(s: Seq<char>)
    requires
        lower_word(s),
    ensures
        all_ascii(s),
        ascii_lower(s) == s,
{
    assert forall|i: int| 0 <= i < s.len() implies (#[trigger] s[i] as u32) < 128 by {
        let c = s[i];
        assert(('a' <= c && c <= 'z') || ('0' <= c && c <= '9') || c == '_' || c == ' ');
    }
    assert(ascii_lower(s) =~= s);
}

/// What `str::to_lowercase` returns for a text, by the Unicode lowercase
/// mapping.
pub uninterp spec fn str_lower(s: Seq<char>) -> Seq<char>;

/// Calls `str::to_lowercase`. The contract names the result `str_lower`
/// and claims one short fact of std's lowercase mapping: on ASCII text it
/// lowercases `A`..`Z` and keeps every other character, as
/// `to_ascii_lowercase` does. Nothing is claimed of non-ASCII input beyond
/// the name.
#[verifier::external_body]
pub(crate) fn lower(s: &str) -> (r: String)
    ensures
        r@ == str_lower(s@),
        all_ascii(s@) ==> r@ == ascii_lower(s@),
{
    s.to_lowercase()
}

/// ASCII letters `a`..`z` map to `A`..`Z`; every other character stays.
pub open spec fn ascii_upper_char(c: char) -> char {
    if 'a' <= c && c <= 'z' {
        ((c as u32) - 32) as char
    } else {
        c
    }
}

pub open spec fn ascii_upper(s: Seq<char>) -> Seq<char> {
    s.map_values(|c: char| ascii_upper_char(c))
}

/// What `str::to_uppercase` returns for a text, by the Unicode uppercase
/// mapping.
pub uninterp spec fn str_upper(s: Seq<char>) -> Seq<char>;

/// Calls `str::to_uppercase`. The contract names the result `str_upper`
/// and claims one short fact of std's uppercase mapping: on ASCII text it
/// uppercases `a`..`z` and keeps every other character, as
/// `to_ascii_uppercase` does. Nothing is claimed of non-ASCII input beyond
/// the name.
#[verifier::external_body]
pub(crate) fn upper(s: &str) -> (r: String)
    ensures
        r@ == str_upper(s@),
        all_ascii(s@) ==> r@ == ascii_upper(s@),
{
    s.to_uppercase()
}

/// Whether a character is alphabetic or numeric by the Unicode tables,
/// as `char::is_alphanumeric` answers.
pub uninterp spec fn alnum_char(c: char) -> bool;

/// Calls `char::is_alphanumeric`. The contract names the answer
/// `alnum_char` and claims the short fact that std documents for ASCII: an
/// ASCII character is alphanumeric exactly when it is a letter or a digit.
#[verifier::external_body]
pub(crate) fn char_is_alphanumeric(c: char) -> (r: bool)
    ensures
        r == alnum_char(c),
        (c as u32) < 128 ==> (r <==> (('a' <= c && c <= 'z') || ('A' <= c && c <= 'Z') || ('0' <= c && c <= '9'))),
{
    c.is_alphanumeric()
}

/// Builds a `String` from its characters with `Iterator::collect`; the
/// contract claims that the string holds exactly those characters in order.
#[verifier::external_body]
pub(crate) fn string_from_chars(v: &Vec<char>) -> (r: String)
    ensures
        r@ == v@,
{
    v.iter().collect()
}

/// The characters of a string slice, in order.
pub fn chars_of(s: &str) -> (v: Vec<char>)
    ensures
        v@ == s@,
{
    let mut v: Vec<char> = Vec::new();
    for c in it: s.chars()
        invariant
            v@ == it.seq().take(it.index() as int),
            it.seq() == s@,
    {
        v.push(c);
    }
    v
}

/// An owned copy of a string slice.
pub fn owned(s: &str) -> (r: String)
    ensures
        r@ == s@,
{
    String::from_str(s)
}

/// A copy of a list of strings.
pub fn copy_strings(v: &Vec<String>) -> (r: Vec<String>)
    ensures
        r@ == v@,
{
    let mut r: Vec<String> = Vec::new();
    let mut i: usize = 0;
    while i < v.len()
        invariant
            i <= v.len(),
            r@ == v@.take(i as int),
        decreases v.len() - i,
    {
        r.push(v[i].clone());
        i = i + 1;
        assert(r@ =~= v@.take(i as int));
    }
    assert(v@.take(v@.len() as int) =~= v@);
    r
}

/// A copy of an optional string.
pub fn copy_opt(o: &Option<String>) -> (r: Option<String>)
    ensures
        r == *o,
{
    match o {
        Some(s) => Some(s.clone()),
        None => None,
    }
}

/// A text whose UTF-8 encoding is at most `max` bytes long, or splits on a
/// character boundary at byte `max`: where `&s[..max]` does not panic.
pub open spec fn fits_or_splits(s: Seq<char>, max: int) -> bool {
    encode_utf8(s).len() <= max || is_char_boundary(encode_utf8(s), max)
}

/// The text itself when its encoding is at most `max` bytes long, else the
/// characters of its first `max` bytes.
pub open spec fn byte_prefix(s: Seq<char>, max: int) -> Seq<char> {
    if encode_utf8(s).len() <= max {
        s
    } else {
        decode_utf8(encode_utf8(s).subrange(0, max))
    }
}

/// `s` when it is at most `max` bytes long, else `&s[..max]`.
pub fn prefix_bytes<'a>(s: &'a str, max: usize) -> (r: &'a str)
    requires
        fits_or_splits(s@, max as int),
    ensures
        r@ == byte_prefix(s@, max as int),
{
    assert(s.spec_bytes() == encode_utf8(s@));
    let n = s.as_bytes().len();
    if n <= max {
        assert(encode_utf8(s@).len() <= max);
        s
    } else {
        assert(encode_utf8(s@).len() > max);
        let (a, _) = s.split_at(max);
        proof {
            assert(a.spec_bytes() == encode_utf8(a@));
            encode_utf8_decode_utf8(a@);
            assert(a@ == decode_utf8(encode_utf8(s@).subrange(0, max as int)));
        }
        a
    }
}

/// `char::is_whitespace`.
pub fn char_is_ws(c: char) -> (r: bool)
    ensures
        r == is_ws(c),
{
    ('\u{9}' <= c && c <= '\u{d}') || c == ' ' || c == '\u{85}' || c == '\u{a0}' || c
        == '\u{1680}' || ('\u{2000}' <= c && c <= '\u{200a}') || c == '\u{2028}' || c
        == '\u{2029}' || c == '\u{202f}' || c == '\u{205f}' || c == '\u{3000}'
}

/// `s.trim().is_empty()`: the text holds nothing but whitespace.
pub fn is_blank(s: &str) -> (r: bool)
    ensures
        r == blank(s@),
{
    let v = chars_of(s);
    let mut i: usize = 0;
    while i < v.len()
        invariant
            v@ == s@,
            i <= v.len(),
            forall|j: int| 0 <= j < i ==> is_ws(#[trigger] v@[j]),
        decreases v.len() - i,
    {
        if !char_is_ws(v[i]) {
            return false;
        }
        i = i + 1;
    }
    true
}

/// Whether `n` occurs in `h` at position `i`.
pub fn occurs_at_chars(h: &Vec<char>, n: &Vec<char>, i: usize) -> (r: bool)
    ensures
        r == occurs_at(h@, n@, i as int),
{
    if i > h.len() || n.len() > h.len() - i {
        return false;
    }
    let mut k: usize = 0;
    while k < n.len()
        invariant
            i + n.len() <= h.len(),
            k <= n.len(),
            forall|j: int| 0 <= j < k ==> h@[i + j] == n@[j],
        decreases n.len() - k,
    {
        if h[i + k] != n[k] {
            assert(h@.subrange(i as int, i + n.len())[k as int] != n@[k as int]);
            return false;
        }
        k = k + 1;
    }
    assert(h@.subrange(i as int, i + n.len()) =~= n@);
    true
}

/// The first position at which `n` occurs in `h`.
pub fn find_chars(h: &Vec<char>, n: &Vec<char>) -> (r: Option<usize>)
    ensures
        r matches Some(i) ==> occurs_at(h@, n@, i as int) && forall|j: int|
            0 <= j < i ==> !occurs_at(h@, n@, j),
        r is None ==> !has_sub(h@, n@),
{
    if n.len() > h.len() {
        return None;
    }
    let last = h.len() - n.len();
    let mut i: usize = 0;
    loop
        invariant
            last == h.len() - n.len(),
            n.len() <= h.len(),
            i <= last,
            forall|j: int| 0 <= j < i ==> !occurs_at(h@, n@, j),
        ensures
            forall|j: int| 0 <= j <= last ==> !occurs_at(h@, n@, j),
        decreases last - i,
    {
        if occurs_at_chars(h, n, i) {
            return Some(i);
        }
        if i == last {
            break;
        }
        i = i + 1;
    }
    assert forall|j: int| !occurs_at(h@, n@, j) by {
        if 0 <= j <= last {
        }
    }
    None
}

/// `str::contains` for a string pattern.
pub fn str_contains(h: &str, n: &str) -> (r: bool)
    ensures
        r == has_sub(h@, n@),
{
    let hv = chars_of(h);
    let nv = chars_of(n);
    match find_chars(&hv, &nv) {
        Some(_) => true,
        None => false,
    }
}

/// `str::starts_with` for a string pattern.
pub fn str_starts_with(h: &str, n: &str) -> (r: bool)
    ensures
        r == starts(h@, n@),
{
    let hv = chars_of(h);
    let nv = chars_of(n);
    occurs_at_chars(&hv, &nv, 0)
}

/// Equality of two string slices.
pub fn str_eq(a: &str, b: &str) -> (r: bool)
    ensures
        r == (a@ == b@),
{
    let x = owned(a);
    let y = owned(b);
    x == y
}

/// The first position of a character in a character sequence.
pub fn find_char(v: &Vec<char>, c: char) -> (r: Option<usize>)
    ensures
        r matches Some(i) ==> i < v@.len() && v@[i as int] == c && forall|j: int|
            0 <= j < i ==> v@[j] != c,
        r is None ==> forall|j: int| 0 <= j < v@.len() ==> v@[j] != c,
{
    let mut i: usize = 0;
    while i < v.len()
        invariant
            i <= v.len(),
            forall|j: int| 0 <= j < i ==> v@[j] != c,
        decreases v.len() - i,
    {
        if v[i] == c {
            return Some(i);
        }
        i = i + 1;
    }
    None
}

/// The characters `v[from..to]` as a `String`.
pub fn slice_string(v: &Vec<char>, from: usize, to: usize) -> (r: String)
    requires
        from <= to <= v@.len(),
    ensures
        r@ == v@.subrange(from as int, to as int),
{
    let mut w: Vec<char> = Vec::new();
    let mut i = from;
    while i < to
        invariant
            from <= i <= to <= v@.len(),
            w@ == v@.subrange(from as int, i as int),
        decreases to - i,
    {
        w.push(v[i]);
        i = i + 1;
        assert(w@ =~= v@.subrange(from as int, i as int));
    }
    string_from_chars(&w)
}

/// The decimal digit character for `d`.
pub open spec fn digit_char(d: nat) -> char {
    ((d + 48) as u32) as char
}

/// The decimal numeral of `n`, without sign or leading zeros.
pub open spec fn decimal(n: nat) -> Seq<char>
    decreases n,
{
    if n < 10 {
        seq![digit_char(n)]
    } else {
        decimal(n / 10).push(digit_char(n % 10))
    }
}

/// The decimal numeral of a number, as `to_string` and `{}` write it.
pub fn decimal_string(n: u64) -> (r: String)
    ensures
        r@ == decimal(n as nat),
{
    let mut digits: Vec<char> = Vec::new();
    let mut m = n;
    let ghost mut rest: Seq<char> = Seq::empty();
    // digits holds the numeral of n % 10^k reversed; decimal(m) + rev(digits) == decimal(n)
    loop
        invariant_except_break
            decimal(n as nat) == decimal(m as nat) + rest,
            rest == digits@.reverse(),
        ensures
            decimal(n as nat) == rest,
            rest == digits@.reverse(),
        decreases m,
    {
        let d = m % 10;
        let c: char = if d == 0 {
            '0'
        } else if d == 1 {
            '1'
        } else if d == 2 {
            '2'
        } else if d == 3 {
            '3'
        } else if d == 4 {
            '4'
        } else if d == 5 {
            '5'
        } else if d == 6 {
            '6'
        } else if d == 7 {
            '7'
        } else if d == 8 {
            '8'
        } else {
            '9'
        };
        assert(c == digit_char(d as nat));
        if m < 10 {
            digits.push(c);
            proof {
                assert(decimal(m as nat) == seq![c]);
                assert(digits@.reverse() =~= seq![c] + rest);
                rest = digits@.reverse();
            }
            break;
        }
        proof {
            assert(decimal(m as nat) == decimal((m / 10) as nat).push(c));
        }
        digits.push(c);
        proof {
            assert(digits@.reverse() =~= seq![c] + rest);
            assert(decimal((m / 10) as nat).push(c) + rest =~= decimal((m / 10) as nat) + (seq![c]
                + rest));
            rest = digits@.reverse();
        }
        m = m / 10;
    }
    let mut out: Vec<char> = Vec::new();
    let mut i = digits.len();
    while i > 0
        invariant
            i <= digits.len(),
            out@ == digits@.subrange(i as int, digits@.len() as int).reverse(),
        decreases i,
    {
        i = i - 1;
        out.push(digits[i]);
        assert(out@ =~= digits@.subrange(i as int, digits@.len() as int).reverse());
    }
    assert(digits@.subrange(0, digits@.len() as int) =~= digits@);
    string_from_chars(&out)
}

} // verus!
