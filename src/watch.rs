//! Watch state: which media a viewer has watched, and how it is persisted.
use vstd::prelude::*;
use crate::text::{join, opt_text};
use crate::textset::{views, TextSet};

verus! {

/// The set of watched media paths of the active viewer.
pub type WatchSet = TextSet;

/// Storage key that remembers the last active profile id.
pub const ACTIVE_PROFILE_KEY: &'static str = "current_profile_id";

/// Storage key of the watch set in the shared (not per-profile) layout.
pub const SHARED_WATCH_KEY: &'static str = "watched_videos";

/// Prefix of the per-profile storage key of a watch set; the profile id follows it.
pub const PROFILE_WATCH_KEY_PREFIX: &'static str = "watched_videos_";

/// How the storage key of a watch set is derived.
#[derive(Clone, Copy, Debug, PartialEq, Eq)]
pub enum KeyPolicy {
    /// One watch set per profile, under the prefix followed by the profile id.
    PerProfile,
    /// One watch set for everyone, under a single fixed key.
    Shared,
}

/// The storage key of the watch set for the given active profile id, if there is one.
pub open spec fn watch_key(policy: KeyPolicy, profile: Option<Seq<char>>) -> Option<Seq<char>> {
    match policy {
        KeyPolicy::PerProfile => match profile {
            Some(id) => Some(PROFILE_WATCH_KEY_PREFIX@ + id),
            None => None,
        },
        KeyPolicy::Shared => Some(SHARED_WATCH_KEY@),
    }
}

/// Derives the storage key of the watch set for the active profile id `profile`.
pub fn watch_key_for(policy: KeyPolicy, profile: Option<&String>) -> (r: Option<String>)
    ensures
        opt_text(r) == watch_key(
            policy,
            match profile {
                Some(p) => Some(p@),
                None => None,
            },
        ),
{
    match policy {
        KeyPolicy::PerProfile => match profile {
            Some(id) => Some(join(PROFILE_WATCH_KEY_PREFIX, id.as_str())),
            None => None,
        },
        KeyPolicy::Shared => Some(String::from_str(SHARED_WATCH_KEY)),
    }
}

/// The watch set read back from storage: what was stored, or the empty set when
/// nothing usable was stored.
pub open spec fn loaded_watch_set(stored: Option<Set<Seq<char>>>) -> Set<Seq<char>> {
    match stored {
        Some(paths) => paths,
        None => Set::empty(),
    }
}

/// The set of paths of an optional stored list.
pub open spec fn stored_set(stored: Option<Vec<String>>) -> Option<Set<Seq<char>>> {
    match stored {
        Some(v) => Some(views(v@).to_set()),
        None => None,
    }
}

/// Builds the watch set from what storage held under its key (`None`: absent or unreadable).
pub fn load_watch_set(stored: Option<Vec<String>>) -> (r: WatchSet)
    ensures
        r.wf(),
        r@ == loaded_watch_set(stored_set(stored)),
{
    match stored {
        Some(v) => TextSet::from_list(v),
        None => TextSet::new(),
    }
}

/// A key-value store of watch sets, read at one key.
pub open spec fn read_key(store: Map<Seq<char>, Set<Seq<char>>>, key: Seq<char>) -> Option<
    Set<Seq<char>>,
> {
    if store.contains_key(key) {
        Some(store[key])
    } else {
        None
    }
}

/// Listing a watch set for storage and building a watch set from that list gives
/// the same set back, whatever order the list has.
pub proof fn law_list_then_load(s: TextSet, saved: Vec<String>)
    requires
        s.wf(),
        views(saved@).to_set() == s@,
    ensures
        loaded_watch_set(stored_set(Some(saved))) == s@,
{
}

} // verus!
