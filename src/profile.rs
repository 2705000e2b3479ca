//! Choosing the active profile when the profile list arrives.
use vstd::prelude::*;
use crate::catalog::Profile;
use crate::text::opt_text;

verus! {

/// `i` is the first position in `profiles` whose id is `id`.
pub open spec fn first_with_id(profiles: Seq<Profile>, id: Seq<char>, i: int) -> bool {
    &&& 0 <= i < profiles.len()
    &&& profiles[i].id@ == id
    &&& forall|j: int| 0 <= j < i ==> (#[trigger] profiles[j]).id@ != id
}

/// Some profile in `profiles` has id `id`.
pub open spec fn has_id(profiles: Seq<Profile>, id: Seq<char>) -> bool {
    exists|i: int| 0 <= i < profiles.len() && (#[trigger] profiles[i]).id@ == id
}

/// The outcome of choosing a profile from a fresh profile list.
#[derive(Clone, Copy, Debug, PartialEq, Eq)]
pub enum Resolution {
    /// The remembered profile is in the list, at this position.
    Remembered(usize),
    /// The remembered profile is absent (or none was remembered); the first one is taken.
    FirstAvailable,
    /// The list is empty and no remembered profile applies.
    NoProfile,
}

/// `r` is the choice for `profiles` given the remembered id `last`: the first profile
/// with that id, else the first profile, else none.
pub open spec fn resolves_to(profiles: Seq<Profile>, last: Option<Seq<char>>, r: Resolution) -> bool {
    let found = last is Some && has_id(profiles, last->0);
    match r {
        Resolution::Remembered(i) => last is Some && first_with_id(profiles, last->0, i as int),
        Resolution::FirstAvailable => !found && profiles.len() > 0,
        Resolution::NoProfile => !found && profiles.len() == 0,
    }
}

/// Chooses the active profile from `profiles`, given the id remembered from an earlier visit.
pub fn resolve_profile(profiles: &Vec<Profile>, last_id: &Option<String>) -> (r: Resolution)
    ensures
        resolves_to(profiles@, opt_text(*last_id), r),
{
    if let Some(id) = last_id {
        let mut i: usize = 0;
        while i < profiles.len()
            invariant
                i <= profiles@.len(),
                opt_text(*last_id) == Some(id@),
                forall|j: int| 0 <= j < i ==> (#[trigger] profiles@[j]).id@ != id@,
            decreases profiles@.len() - i,
        {
            if profiles[i].id == *id {
                assert(first_with_id(profiles@, id@, i as int));
                return Resolution::Remembered(i);
            }
            i += 1;
        }
        assert(!has_id(profiles@, id@));
    }
    if profiles.len() > 0 {
        Resolution::FirstAvailable
    } else {
        Resolution::NoProfile
    }
}

} // verus!

verus! {

/// The choice for `profiles` given the remembered id `last`, as a value.
pub open spec fn resolution_of(profiles: Seq<Profile>, last: Option<Seq<char>>) -> Resolution {
    if last is Some && has_id(profiles, last->0) {
        Resolution::Remembered((choose|i: int| first_with_id(profiles, last->0, i)) as usize)
    } else if profiles.len() > 0 {
        Resolution::FirstAvailable
    } else {
        Resolution::NoProfile
    }
}

/// Exactly one choice fits a profile list and a remembered id.
pub proof fn lemma_resolution_unique(profiles: Seq<Profile>, last: Option<Seq<char>>, r: Resolution)
    requires
        resolves_to(profiles, last, r),
    ensures
        r == resolution_of(profiles, last),
{
    if let Resolution::Remembered(i) = r {
        let id = last->0;
        assert(has_id(profiles, id)) by {
            assert(profiles[i as int].id@ == id);
        }
        let j = choose|j: int| first_with_id(profiles, id, j);
        if j < i as int {
            assert(profiles[j].id@ != id);
        }
        if (i as int) < j {
            assert(profiles[i as int].id@ != id);
        }
    }
}

} // verus!
