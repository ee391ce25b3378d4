//! Where scenario definitions are found, and the choices made over what
//! was found.
use vstd::prelude::*;

use crate::ordered::{lemma_lex_total, lemma_lex_trans, lex_less, lex_lt};
use crate::text::{chars_of, owned, str_eq};

verus! {

/// Loads scenario definitions from the filesystem under a base
/// directory.
#[derive(Debug, Clone)]
pub struct ScenarioLoader {
    pub base_dir: String,
}

/// The directories of the difficulty tiers, in the order they are read.
pub open spec fn difficulty_dirs_spec() -> Seq<Seq<char>> {
    seq!["beginner"@, "intermediate"@, "advanced"@, "expert"@]
}

/// A MITRE category and the number of scenario files it holds.
pub open spec fn name_le(a: (String, usize), b: (String, usize)) -> bool {
    !lex_lt(b.0@, a.0@)
}

/// Categories ordered by name.
pub open spec fn by_name(s: Seq<(String, usize)>) -> bool {
    forall|i: int, j: int| 0 <= i < j < s.len() ==> name_le(#[trigger] s[i], #[trigger] s[j])
}

/// The categories of `s` named `n`, in order.
pub open spec fn named(s: Seq<(String, usize)>, n: Seq<char>) -> Seq<(String, usize)>
    decreases s.len(),
{
    if s.len() == 0 {
        Seq::empty()
    } else if s.last().0@ == n {
        named(s.drop_last(), n).push(s.last())
    } else {
        named(s.drop_last(), n)
    }
}

proof fn lemma_named_add(a: Seq<(String, usize)>, b: Seq<(String, usize)>, n: Seq<char>)
    ensures
        named(a + b, n) == named(a, n) + named(b, n),
    decreases b.len(),
{
    if b.len() == 0 {
        assert(a + b =~= a);
        assert(named(a, n) + named(b, n) =~= named(a, n));
    } else {
        assert((a + b).drop_last() =~= a + b.drop_last());
        assert((a + b).last() == b.last());
        lemma_named_add(a, b.drop_last(), n);
        if b.last().0@ == n {
            assert(named(a, n) + named(b.drop_last(), n).push(b.last()) =~= (named(a, n) + named(b.drop_last(), n)).push(
                b.last(),
            ));
        }
    }
}

proof fn lemma_named_none(s: Seq<(String, usize)>, n: Seq<char>)
    requires
        forall|i: int| 0 <= i < s.len() ==> (#[trigger] s[i]).0@ != n,
    ensures
        named(s, n) == Seq::<(String, usize)>::empty(),
    decreases s.len(),
{
    if s.len() > 0 {
        assert(forall|i: int| 0 <= i < s.drop_last().len() ==> s.drop_last()[i] == s[i]);
        lemma_named_none(s.drop_last(), n);
    }
}

impl ScenarioLoader {
    pub fn new(base_dir: &str) -> (r: Self)
        ensures
            r.base_dir@ == base_dir@,
    {
        ScenarioLoader { base_dir: owned(base_dir) }
    }

    /// The difficulty tier directories, in the order they are read.
    pub fn difficulty_dirs() -> (r: Vec<&'static str>)
        ensures
            r@.map_values(|d: &str| d@) == difficulty_dirs_spec(),
    {
        let r: Vec<&'static str> = vec!["beginner", "intermediate", "advanced", "expert"];
        assert(r@.map_values(|d: &str| d@) =~= difficulty_dirs_spec());
        r
    }

    /// Whether a file with this extension holds a scenario definition.
    pub fn is_scenario_file(ext: Option<&str>) -> (r: bool)
        ensures
            r == (ext matches Some(e) && e@ == "json"@),
    {
        match ext {
            Some(e) => str_eq(e, "json"),
            None => false,
        }
    }

    /// The position of the first scenario with this identifier among those
    /// loaded, or the error naming it.
    pub fn pick_by_id(ids: &Vec<String>, scenario_id: &str) -> (r: Result<usize, String>)
        ensures
            match r {
                Ok(i) => i < ids@.len() && ids@[i as int]@ == scenario_id@ && forall|j: int|
                    0 <= j < i ==> ids@[j]@ != scenario_id@,
                Err(m) => m@ == "Scenario not found: "@ + scenario_id@ && forall|j: int|
                    0 <= j < ids@.len() ==> ids@[j]@ != scenario_id@,
            },
    {
        let mut i: usize = 0;
        while i < ids.len()
            invariant
                i <= ids@.len(),
                forall|j: int| 0 <= j < i ==> ids@[j]@ != scenario_id@,
            decreases ids.len() - i,
        {
            if str_eq(ids[i].as_str(), scenario_id) {
                return Ok(i);
            }
            i = i + 1;
        }
        let mut m = String::from_str("Scenario not found: ");
        m.append(scenario_id);
        Err(m)
    }

    /// The categories ordered by name, keeping the order of equal names
    /// (a stable sort by name).
    pub fn sort_categories(v: Vec<(String, usize)>) -> (r: Vec<(String, usize)>)
        ensures
            by_name(r@),
            r@.to_multiset() == v@.to_multiset(),
            forall|n: Seq<char>| #[trigger] named(r@, n) == named(v@, n),
    {
        broadcast use vstd::seq_lib::group_to_multiset_ensures;

        let ghost all = v@;
        let mut r: Vec<(String, usize)> = Vec::new();
        for x in it: v
            invariant
                it.seq() == all,
                by_name(r@),
                r@.to_multiset() == all.take(it.index() as int).to_multiset(),
                forall|n: Seq<char>| #[trigger] named(r@, n) == named(all.take(it.index() as int), n),
        {
            let ghost k = it.index() as int;
            assert(all.take(k + 1) =~= all.take(k).push(x));
            let xv = chars_of(x.0.as_str());
            let mut p: usize = 0;
            while p < r.len() && !lex_less(&xv, &chars_of(r[p].0.as_str()))
                invariant
                    p <= r@.len(),
                    xv@ == x.0@,
                    forall|j: int| 0 <= j < p ==> name_le(#[trigger] r@[j], x),
                decreases r.len() - p,
            {
                p = p + 1;
            }
            let ghost before = r@;
            r.insert(p, x);
            proof {
                vstd::seq_lib::to_multiset_insert(before, p as int, x);
                vstd::seq_lib::to_multiset_build(all.take(k), x);
                assert forall|i: int, j: int| 0 <= i < j < r@.len() implies name_le(#[trigger] r@[i], #[trigger] r@[j]) by {
                    if j < p {
                        assert(r@[i] == before[i] && r@[j] == before[j]);
                    } else if j == p {
                        assert(r@[i] == before[i]);
                    } else if i < p {
                        assert(r@[i] == before[i] && r@[j] == before[j - 1]);
                        assert(name_le(before[i], x));
                        assert(lex_lt(x.0@, before[p as int].0@));
                        lemma_lex_total(before[i].0@, x.0@);
                        lemma_lex_total(before[j - 1].0@, before[p as int].0@);
                        if lex_lt(before[j - 1].0@, before[i].0@) {
                            if before[i].0@ == x.0@ {
                                if p < j - 1 {
                                    assert(name_le(before[p as int], before[j - 1]));
                                    if lex_lt(before[j - 1].0@, before[p as int].0@) {
                                    } else {
                                        lemma_lex_total(before[j - 1].0@, before[p as int].0@);
                                        if before[j - 1].0@ != before[p as int].0@ {
                                            lemma_lex_trans(before[j - 1].0@, x.0@, before[p as int].0@);
                                        }
                                    }
                                }
                                lemma_lex_trans(before[j - 1].0@, x.0@, before[p as int].0@);
                            } else {
                                lemma_lex_trans(before[j - 1].0@, before[i].0@, x.0@);
                                if p < j - 1 {
                                    assert(name_le(before[p as int], before[j - 1]));
                                }
                                lemma_lex_trans(before[j - 1].0@, x.0@, before[p as int].0@);
                            }
                        }
                    } else if i == p {
                        assert(r@[j] == before[j - 1]);
                        assert(lex_lt(x.0@, before[p as int].0@));
                        if p < j - 1 {
                            assert(name_le(before[p as int], before[j - 1]));
                            lemma_lex_total(before[j - 1].0@, before[p as int].0@);
                            if lex_lt(before[j - 1].0@, x.0@) {
                                lemma_lex_trans(before[j - 1].0@, x.0@, before[p as int].0@);
                            }
                        } else {
                            lemma_lex_total(before[j - 1].0@, x.0@);
                        }
                    } else {
                        assert(r@[i] == before[i - 1] && r@[j] == before[j - 1]);
                    }
                }
                let b0 = before.subrange(0, p as int);
                let b1 = before.subrange(p as int, before.len() as int);
                assert(before =~= b0 + b1);
                assert(r@ =~= b0 + seq![x] + b1);
                assert forall|n: Seq<char>| #[trigger] named(r@, n) == named(all.take(k + 1), n) by {
                    lemma_named_add(b0 + seq![x], b1, n);
                    lemma_named_add(b0, seq![x], n);
                    lemma_named_add(b0, b1, n);
                    assert(seq![x].drop_last() =~= Seq::<(String, usize)>::empty());
                    assert(named(Seq::<(String, usize)>::empty(), n) == Seq::<(String, usize)>::empty());
                    assert(named(seq![x], n) == if x.0@ == n {
                        seq![x]
                    } else {
                        Seq::<(String, usize)>::empty()
                    });
                    assert(all.take(k + 1).drop_last() =~= all.take(k));
                    assert(all.take(k + 1).last() == x);
                    if x.0@ == n {
                        assert forall|q: int| 0 <= q < b1.len() implies (#[trigger] b1[q]).0@ != n by {
                            assert(b1[q] == before[p + q]);
                            lemma_lex_total(x.0@, x.0@);
                            if q > 0 {
                                assert(name_le(before[p as int], before[p + q]));
                                if before[p + q].0@ == x.0@ {
                                    lemma_lex_total(before[p as int].0@, x.0@);
                                }
                            }
                        }
                        lemma_named_none(b1, n);
                        assert(named(b0, n) + named(seq![x], n) + named(b1, n) =~= named(b0, n).push(x));
                        assert(named(b0, n) + named(b1, n) =~= named(b0, n));
                    } else {
                        assert(named(b0, n) + named(seq![x], n) =~= named(b0, n));
                    }
                }
            }
        }
        assert(all.take(all.len() as int) =~= all);
        r
    }
}

} // verus!
