use vstd::prelude::*;

use crate::text::{all_ascii, ascii_lower, lemma_lower_word_fixed, lower, lower_word, str_eq, str_lower};

verus! {

/// Difficulty levels matching the scenario directory structure.
#[derive(Debug, Clone, Copy, PartialEq, Eq, Structural)]
pub enum Difficulty {
    Beginner,
    Intermediate,
    Advanced,
    Expert,
}

impl Difficulty {
    pub open spec fn name(self) -> Seq<char> {
        match self {
            Difficulty::Beginner => "beginner"@,
            Difficulty::Intermediate => "intermediate"@,
            Difficulty::Advanced => "advanced"@,
            Difficulty::Expert => "expert"@,
        }
    }

    /// The level named by a lowercased text; anything unknown is
    /// `Beginner`.
    pub open spec fn from_lower_spec(l: Seq<char>) -> Difficulty {
        if l == "beginner"@ {
            Difficulty::Beginner
        } else if l == "intermediate"@ {
            Difficulty::Intermediate
        } else if l == "advanced"@ {
            Difficulty::Advanced
        } else if l == "expert"@ {
            Difficulty::Expert
        } else {
            Difficulty::Beginner
        }
    }

    /// Time limit in seconds.
    pub open spec fn limit(self) -> u64 {
        match self {
            Difficulty::Beginner => 1800,
            Difficulty::Intermediate => 2700,
            Difficulty::Advanced => 3600,
            Difficulty::Expert => 7200,
        }
    }

    /// The level named by a text that is already lowercase.
    pub fn from_lower(l: &str) -> (r: Difficulty)
        ensures
            r == Self::from_lower_spec(l@),
    {
        if str_eq(l, "beginner") {
            Difficulty::Beginner
        } else if str_eq(l, "intermediate") {
            Difficulty::Intermediate
        } else if str_eq(l, "advanced") {
            Difficulty::Advanced
        } else if str_eq(l, "expert") {
            Difficulty::Expert
        } else {
            Difficulty::Beginner
        }
    }

    /// The level named by a text, compared case-insensitively.
    pub fn from_str(s: &str) -> (r: Difficulty)
        ensures
            r == Self::from_lower_spec(str_lower(s@)),
            all_ascii(s@) ==> r == Self::from_lower_spec(ascii_lower(s@)),
    {
        let l = lower(s);
        Self::from_lower(l.as_str())
    }

    pub fn as_str(&self) -> (r: &'static str)
        ensures
            r@ == self.name(),
    {
        match self {
            Difficulty::Beginner => "beginner",
            Difficulty::Intermediate => "intermediate",
            Difficulty::Advanced => "advanced",
            Difficulty::Expert => "expert",
        }
    }

    /// Time limit in seconds for this difficulty.
    pub fn default_time_limit(&self) -> (r: u64)
        ensures
            r == self.limit(),
    {
        match self {
            Difficulty::Beginner => 1800,
            Difficulty::Intermediate => 2700,
            Difficulty::Advanced => 3600,
            Difficulty::Expert => 7200,
        }
    }

    /// A level's name reads back as the same level.
    pub proof fn lemma_name_round_trip(self)
        ensures
            all_ascii(self.name()),
            Self::from_lower_spec(ascii_lower(self.name())) == self,
    {
        reveal_strlit("beginner");
        reveal_strlit("intermediate");
        reveal_strlit("advanced");
        reveal_strlit("expert");
        assert(lower_word(self.name()));
        lemma_lower_word_fixed(self.name());
        let n = self.name();
        match self {
            Difficulty::Beginner => {},
            Difficulty::Intermediate => { assert(n.len() != "beginner"@.len()); },
            Difficulty::Advanced => {
                assert(n[0] != "beginner"@[0]);
                assert(n.len() != "intermediate"@.len());
            },
            Difficulty::Expert => {
                assert(n.len() != "beginner"@.len());
                assert(n.len() != "intermediate"@.len());
                assert(n.len() != "advanced"@.len());
            },
        }
    }

    /// Harder levels allow more time.
    pub proof fn lemma_limits_grow()
        ensures
            Difficulty::Beginner.limit() < Difficulty::Intermediate.limit(),
            Difficulty::Intermediate.limit() < Difficulty::Advanced.limit(),
            Difficulty::Advanced.limit() < Difficulty::Expert.limit(),
    {
    }
}

} // verus!
