//! Secret comparison.
use vstd::prelude::*;
use vstd::string::StringSliceAdditionalSpecFns;
use vstd::utf8::{encode_utf8, encode_utf8_decode_utf8};

use crate::text::{blank, is_blank};

verus! {

/// Constant-time string comparison for secrets: the strings are equal
/// exactly when their bytes are, and every byte pair is inspected once the
/// lengths agree.
pub fn constant_time_eq(a: &str, b: &str) -> (r: bool)
    ensures
        r == (a@ == b@),
{
    let x = a.as_bytes();
    let y = b.as_bytes();
    proof {
        encode_utf8_decode_utf8(a@);
        encode_utf8_decode_utf8(b@);
    }
    if x.len() != y.len() {
        assert(a.spec_bytes() != b.spec_bytes());
        return false;
    }
    let mut acc: u8 = 0;
    let mut i: usize = 0;
    while i < x.len()
        invariant
            x@ == a.spec_bytes(),
            y@ == b.spec_bytes(),
            x@.len() == y@.len(),
            i <= x@.len(),
            (acc == 0) == (forall|j: int| 0 <= j < i ==> x@[j] == y@[j]),
        decreases x.len() - i,
    {
        let xi: u8 = x[i];
        let yi: u8 = y[i];
        let d: u8 = xi ^ yi;
        assert((d == 0) == (xi == yi)) by (bit_vector)
            requires
                d == xi ^ yi,
        ;
        let old_acc = acc;
        acc = acc | d;
        assert((acc == 0) == (old_acc == 0 && d == 0)) by (bit_vector)
            requires
                acc == old_acc | d,
        ;
        i = i + 1;
    }
    let r = acc == 0;
    assert(r == (a.spec_bytes() =~= b.spec_bytes()));
    assert(a.spec_bytes() == encode_utf8(a@));
    assert(b.spec_bytes() == encode_utf8(b@));
    r
}

/// An environment value that counts: one that is set and not blank.
pub open spec fn set_value(raw: Option<String>) -> Option<Seq<char>> {
    match raw {
        Some(v) => if blank(v@) {
            None
        } else {
            Some(v@)
        },
        None => None,
    }
}

/// An environment variable's value as read, kept when it is not blank.
pub fn env_var(raw: Option<String>) -> (r: Option<String>)
    ensures
        match r {
            Some(v) => set_value(raw) == Some(v@),
            None => set_value(raw) is None,
        },
{
    match raw {
        Some(v) => if is_blank(v.as_str()) {
            None
        } else {
            Some(v)
        },
        None => None,
    }
}

/// The administrator's user name from the value of `ADMIN_USERNAME`, or
/// `admin` when it is unset or blank.
pub fn admin_username(raw: Option<String>) -> (r: String)
    ensures
        r@ == match set_value(raw) {
            Some(v) => v,
            None => "admin"@,
        },
{
    match env_var(raw) {
        Some(v) => v,
        None => String::from_str("admin"),
    }
}

/// The administrator's password from the value of `ADMIN_PASSWORD`, which
/// must be set.
pub fn admin_password(raw: Option<String>) -> (r: String)
    requires
        set_value(raw) is Some,
    ensures
        set_value(raw) == Some(r@),
{
    match env_var(raw) {
        Some(v) => v,
        None => String::new(),
    }
}

/// The API key from the value of `API_KEY`, which must be set.
pub fn api_key(raw: Option<String>) -> (r: String)
    requires
        set_value(raw) is Some,
    ensures
        set_value(raw) == Some(r@),
{
    match env_var(raw) {
        Some(v) => v,
        None => String::new(),
    }
}

/// The token signing secret from the value of `TOKEN_SECRET`, which must
/// be set.
pub fn token_secret(raw: Option<String>) -> (r: String)
    requires
        set_value(raw) is Some,
    ensures
        set_value(raw) == Some(r@),
{
    match env_var(raw) {
        Some(v) => v,
        None => String::new(),
    }
}

} // verus!
