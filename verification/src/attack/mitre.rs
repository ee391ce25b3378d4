//! Lookups between technique identifiers, techniques and tactics.
use vstd::prelude::*;

use crate::text::owned;

use super::tactics::Tactic;
use super::techniques::{find_technique, first_with_id, lemma_first_with_id_registered, registry_entry, Technique, REGISTRY_LEN};

verus! {

/// The display text of a technique identifier: `"<id> - <name>"` for a
/// registered technique, the identifier itself otherwise.
pub open spec fn display_text(id: Seq<char>) -> Seq<char> {
    match first_with_id(id, 0) {
        Some(i) => registry_entry(i).0 + " - "@ + registry_entry(i).1,
        None => id,
    }
}

/// The tactic of a technique identifier: the tactic the registry lists for
/// a registered technique; for any other identifier, the tactic its prefix
/// names, if any.
pub open spec fn tactic_of_id(id: Seq<char>) -> Option<Tactic> {
    match first_with_id(id, 0) {
        Some(i) => Some(registry_entry(i).3),
        None => Tactic::of_technique(id),
    }
}

/// MITRE ATT&CK mapping helper.
pub struct MitreMapper;

impl MitreMapper {
    /// Resolve a technique identifier to its registry entry.
    pub fn resolve(technique_id: &str) -> (r: Option<Technique>)
        ensures
            match first_with_id(technique_id@, 0) {
                Some(i) => r matches Some(t) && t.entry() == registry_entry(i),
                None => r is None,
            },
    {
        find_technique(technique_id)
    }

    /// The tactic of a technique identifier: looked up in the registry
    /// first, then by the identifier's prefix.
    pub fn tactic_for(technique_id: &str) -> (r: Option<Tactic>)
        ensures
            r == tactic_of_id(technique_id@),
    {
        match find_technique(technique_id) {
            Some(t) => Some(t.tactic),
            None => Tactic::from_technique_id(technique_id),
        }
    }

    /// Technique identifier and name for display.
    pub fn display_name(technique_id: &str) -> (r: String)
        ensures
            r@ == display_text(technique_id@),
    {
        match find_technique(technique_id) {
            Some(t) => {
                let mut s = t.id;
                s.append(" - ");
                s.append(t.name.as_str());
                s
            },
            None => owned(technique_id),
        }
    }

    /// Whether a technique identifier belongs to the given tactic.
    pub fn is_in_tactic(technique_id: &str, tactic: &Tactic) -> (r: bool)
        ensures
            r == (tactic_of_id(technique_id@) == Some(*tactic)),
    {
        match Self::tactic_for(technique_id) {
            Some(t) => t == *tactic,
            None => false,
        }
    }
}

/// Every registered technique gets the tactic the registry lists for it.
pub proof fn lemma_registered_tactic(i: int)
    requires
        0 <= i < REGISTRY_LEN,
    ensures
        tactic_of_id(registry_entry(i).0) == Some(registry_entry(i).3),
{
    lemma_first_with_id_registered(i);
}

} // verus!
