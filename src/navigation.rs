//! Transient navigation state: which series and seasons are expanded, and the search text.
use vstd::prelude::*;
use crate::text::{lower_of, to_lower};
use crate::textset::{toggled, TextSet};

verus! {

/// Names one season of one series: the series' stable name and the season number.
#[derive(Clone, Debug, PartialEq, Eq)]
pub struct SeasonKey {
    pub series: String,
    pub number: u32,
}

/// The mathematical value of a season key.
pub open spec fn key_view(k: SeasonKey) -> (Seq<char>, u32) {
    (k.series@, k.number)
}

/// The values of a list of season keys.
pub open spec fn key_views(v: Seq<SeasonKey>) -> Seq<(Seq<char>, u32)> {
    v.map_values(|k: SeasonKey| key_view(k))
}

proof fn lemma_keys_push(v: Seq<SeasonKey>, x: SeasonKey)
    requires
        key_views(v).no_duplicates(),
        !key_views(v).to_set().contains(key_view(x)),
    ensures
        key_views(v.push(x)).to_set() == key_views(v).to_set().insert(key_view(x)),
        key_views(v.push(x)).no_duplicates(),
{
    assert(key_views(v.push(x)) =~= key_views(v).push(key_view(x)));
    key_views(v).lemma_push_to_set_commute(key_view(x));
    assert forall|i: int| 0 <= i < key_views(v).len() implies key_views(v)[i] != key_view(x) by {
        assert(key_views(v).to_set().contains(key_views(v)[i]));
    }
}

proof fn lemma_keys_remove(v: Seq<SeasonKey>, i: int)
    requires
        0 <= i < v.len(),
        key_views(v).no_duplicates(),
    ensures
        key_views(v.remove(i)).to_set() == key_views(v).to_set().remove(key_view(v[i])),
        key_views(v.remove(i)).no_duplicates(),
{
    let w = key_views(v);
    let r = key_views(v.remove(i));
    assert(r =~= w.remove(i));
    assert forall|y: (Seq<char>, u32)|
        r.to_set().contains(y) <==> w.to_set().remove(key_view(v[i])).contains(y) by {
        assert(w[i] == key_view(v[i]));
        if r.to_set().contains(y) {
            let k = choose|k: int| 0 <= k < r.len() && r[k] == y;
            if k < i {
                assert(w[k] == y);
                assert(w.contains(y));
            } else {
                assert(w[k + 1] == y);
                assert(w.contains(y));
            }
        }
        if w.to_set().remove(key_view(v[i])).contains(y) {
            let k = choose|k: int| 0 <= k < w.len() && w[k] == y;
            assert(k != i);
            if k < i {
                assert(r[k] == y);
            } else {
                assert(r[k - 1] == y);
            }
        }
    }
    assert(r.to_set() =~= w.to_set().remove(key_view(v[i])));
}

/// What the navigation state means: the two expansion sets and the normalized query.
pub struct NavigationView {
    pub expanded_series: Set<Seq<char>>,
    pub expanded_seasons: Set<(Seq<char>, u32)>,
    pub query: Seq<char>,
}

/// Expansion sets and search text. Keys naming series or seasons that are not in
/// the current catalog are allowed and simply match nothing.
pub struct NavigationState {
    expanded_series: TextSet,
    expanded_seasons: Vec<SeasonKey>,
    query: String,
}

impl View for NavigationState {
    type V = NavigationView;

    closed spec fn view(&self) -> NavigationView {
        NavigationView {
            expanded_series: self.expanded_series@,
            expanded_seasons: key_views(self.expanded_seasons@).to_set(),
            query: self.query@,
        }
    }
}

impl NavigationState {
    pub closed spec fn wf(&self) -> bool {
        self.expanded_series.wf() && key_views(self.expanded_seasons@).no_duplicates()
    }

    /// Nothing expanded, empty query.
    pub fn new() -> (r: NavigationState)
        ensures
            r.wf(),
            r@.expanded_series == Set::<Seq<char>>::empty(),
            r@.expanded_seasons == Set::<(Seq<char>, u32)>::empty(),
            r@.query == Seq::<char>::empty(),
    {
        let r = NavigationState {
            expanded_series: TextSet::new(),
            expanded_seasons: Vec::new(),
            query: String::new(),
        };
        assert(key_views(r.expanded_seasons@).to_set() =~= Set::<(Seq<char>, u32)>::empty());
        r
    }

    /// The normalized (lowercase) search text.
    pub fn query(&self) -> (r: &String)
        ensures
            r@ == self@.query,
    {
        &self.query
    }

    /// Stores the lowercase form of `q` as the search text.
    pub fn set_query(&mut self, q: &str)
        requires
            old(self).wf(),
        ensures
            final(self).wf(),
            final(self)@ == (NavigationView { query: lower_of(q@), ..old(self)@ }),
            q@.len() == 0 ==> final(self)@.query.len() == 0,
    {
        self.query = to_lower(q);
    }

    /// Whether the series with stable name `name` is expanded.
    pub fn is_series_expanded(&self, name: &String) -> (r: bool)
        requires
            self.wf(),
        ensures
            r == self@.expanded_series.contains(name@),
    {
        self.expanded_series.contains(name)
    }

    /// Flips whether the series with stable name `name` is expanded.
    pub fn toggle_series(&mut self, name: String)
        requires
            old(self).wf(),
        ensures
            final(self).wf(),
            final(self)@ == (NavigationView {
                expanded_series: toggled(old(self)@.expanded_series, name@),
                ..old(self)@
            }),
    {
        self.expanded_series.toggle(name);
    }

    fn season_position(&self, series: &String, number: u32) -> (r: Option<usize>)
        requires
            self.wf(),
        ensures
            r is None ==> !self@.expanded_seasons.contains((series@, number)),
            r matches Some(i) ==> i < self.expanded_seasons@.len() && key_view(
                self.expanded_seasons@[i as int],
            ) == (series@, number),
    {
        let mut i: usize = 0;
        while i < self.expanded_seasons.len()
            invariant
                i <= self.expanded_seasons@.len(),
                forall|k: int|
                    0 <= k < i ==> key_view(#[trigger] self.expanded_seasons@[k]) != (
                        series@,
                        number,
                    ),
            decreases self.expanded_seasons@.len() - i,
        {
            let k = &self.expanded_seasons[i];
            if k.number == number && k.series == *series {
                return Some(i);
            }
            i += 1;
        }
        assert(!key_views(self.expanded_seasons@).contains((series@, number)));
        None
    }

    /// Whether season `number` of the series named `series` is expanded.
    pub fn is_season_expanded(&self, series: &String, number: u32) -> (r: bool)
        requires
            self.wf(),
        ensures
            r == self@.expanded_seasons.contains((series@, number)),
    {
        match self.season_position(series, number) {
            Some(i) => {
                assert(key_views(self.expanded_seasons@)[i as int] == (series@, number));
                true
            },
            None => false,
        }
    }

    /// Flips whether season `number` of the series named `series` is expanded.
    pub fn toggle_season(&mut self, series: String, number: u32)
        requires
            old(self).wf(),
        ensures
            final(self).wf(),
            final(self)@ == (NavigationView {
                expanded_seasons: toggled(old(self)@.expanded_seasons, (series@, number)),
                ..old(self)@
            }),
    {
        match self.season_position(&series, number) {
            Some(i) => {
                proof {
                    lemma_keys_remove(self.expanded_seasons@, i as int);
                }
                assert(key_views(self.expanded_seasons@)[i as int] == (series@, number));
                self.expanded_seasons.remove(i);
            },
            None => {
                let key = SeasonKey { series, number };
                proof {
                    lemma_keys_push(self.expanded_seasons@, key);
                }
                self.expanded_seasons.push(key);
            },
        }
    }
}

} // verus!
