//! The catalog snapshot: series, seasons, episodes, movies and viewer profiles.
use vstd::prelude::*;

verus! {

/// One playable file. `path` identifies it for watch state and playback.
#[derive(Clone, Debug, PartialEq, Eq)]
pub struct Video {
    pub path: String,
    pub filename: String,
    pub episode: Option<u32>,
}

/// A numbered season of a series, with its episodes in order.
#[derive(Clone, Debug, PartialEq, Eq)]
pub struct Season {
    pub number: u32,
    pub episodes: Vec<Video>,
}

/// A series: `name` is its stable key, `display_name` the label shown and searched.
#[derive(Clone, Debug, PartialEq, Eq)]
pub struct Series {
    pub name: String,
    pub display_name: String,
    pub seasons: Vec<Season>,
}

/// A standalone movie, identified by `path`.
#[derive(Clone, Debug, PartialEq, Eq)]
pub struct Movie {
    pub name: String,
    pub path: String,
}

/// The whole catalog as one immutable snapshot.
#[derive(Clone, Debug, PartialEq, Eq)]
pub struct Library {
    pub series: Vec<Series>,
    pub movies: Vec<Movie>,
}

/// A named viewer identity that scopes the watch state.
#[derive(Clone, Debug, PartialEq, Eq)]
pub struct Profile {
    pub id: String,
    pub name: String,
    pub icon: String,
}

impl Profile {
    /// An identical copy of this profile.
    pub fn duplicate(&self) -> (r: Profile)
        ensures
            r == *self,
    {
        Profile { id: self.id.clone(), name: self.name.clone(), icon: self.icon.clone() }
    }
}

} // verus!
