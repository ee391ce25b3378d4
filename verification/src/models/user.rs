use vstd::prelude::*;

use crate::text::{all_ascii, ascii_lower, lemma_lower_word_fixed, lower, lower_word, str_eq, str_lower};

verus! {

/// The role of an account.
#[derive(Debug, Clone, Copy, PartialEq, Eq, Structural)]
pub enum UserRole {
    Admin,
    Analyst,
    Observer,
}

impl UserRole {
    pub open spec fn name(self) -> Seq<char> {
        match self {
            UserRole::Admin => "admin"@,
            UserRole::Analyst => "analyst"@,
            UserRole::Observer => "observer"@,
        }
    }

    /// The role named by a lowercased text; anything but `admin` and
    /// `observer` is an analyst.
    pub open spec fn from_lower_spec(l: Seq<char>) -> UserRole {
        if l == "admin"@ {
            UserRole::Admin
        } else if l == "observer"@ {
            UserRole::Observer
        } else {
            UserRole::Analyst
        }
    }

    pub fn as_str(&self) -> (r: &'static str)
        ensures
            r@ == self.name(),
    {
        match self {
            UserRole::Admin => "admin",
            UserRole::Analyst => "analyst",
            UserRole::Observer => "observer",
        }
    }

    /// The role named by a text that is already lowercase.
    pub fn from_lower(l: &str) -> (r: UserRole)
        ensures
            r == Self::from_lower_spec(l@),
    {
        if str_eq(l, "admin") {
            UserRole::Admin
        } else if str_eq(l, "observer") {
            UserRole::Observer
        } else {
            UserRole::Analyst
        }
    }

    /// The role named by a text, compared case-insensitively.
    pub fn from_str(s: &str) -> (r: UserRole)
        ensures
            r == Self::from_lower_spec(str_lower(s@)),
            all_ascii(s@) ==> r == Self::from_lower_spec(ascii_lower(s@)),
    {
        let l = lower(s);
        Self::from_lower(l.as_str())
    }

    /// A role's name reads back as the same role.
    pub proof fn lemma_name_round_trip(self)
        ensures
            all_ascii(self.name()),
            Self::from_lower_spec(ascii_lower(self.name())) == self,
    {
        reveal_strlit("admin");
        reveal_strlit("analyst");
        reveal_strlit("observer");
        assert(lower_word(self.name()));
        lemma_lower_word_fixed(self.name());
    }
}

/// An account as the API shows it.
#[derive(Debug, Clone)]
pub struct User {
    pub id: String,
    pub username: String,
    pub role: String,
    pub created_at: String,
}

/// An account as it is stored.
#[derive(Debug, Clone)]
pub struct UserDbRecord {
    pub id: String,
    pub username: String,
    pub password_hash: String,
    pub salt: String,
    pub role: String,
    pub totp_secret: Option<String>,
    pub totp_enabled: bool,
    pub created_at: String,
}

/// An analyst taking part in a session.
#[derive(Debug, Clone)]
pub struct Analyst {
    pub id: String,
    pub name: String,
    pub role: String,
}

} // verus!
