//! Case-insensitive text search over the catalog.
use vstd::prelude::*;
use crate::catalog::{Library, Movie, Series};
use crate::text::{contains_text, lower_of, occurs_in, to_lower};

verus! {

/// A series matches a normalized query when its display name or its stable name,
/// in lowercase, holds the query.
pub open spec fn series_matches(s: Series, q: Seq<char>) -> bool {
    occurs_in(q, lower_of(s.display_name@)) || occurs_in(q, lower_of(s.name@))
}

/// A movie matches a normalized query when its name, in lowercase, holds the query.
pub open spec fn movie_matches(m: Movie, q: Seq<char>) -> bool {
    occurs_in(q, lower_of(m.name@))
}

/// For each series, whether the search keeps it: all are kept for the empty query.
pub open spec fn series_flags(series: Seq<Series>, q: Seq<char>) -> Seq<bool> {
    series.map_values(|s: Series| q.len() == 0 || series_matches(s, q))
}

/// For each movie, whether the search keeps it: all are kept for the empty query.
pub open spec fn movie_flags(movies: Seq<Movie>, q: Seq<char>) -> Seq<bool> {
    movies.map_values(|m: Movie| q.len() == 0 || movie_matches(m, q))
}

/// The positions whose flag is set, in increasing order.
pub open spec fn selected(flags: Seq<bool>) -> Seq<usize>
    decreases flags.len(),
{
    if flags.len() == 0 {
        Seq::empty()
    } else {
        let rest = selected(flags.drop_last());
        if flags.last() {
            rest.push((flags.len() - 1) as usize)
        } else {
            rest
        }
    }
}

/// The positions `0, 1, ..., n - 1`.
pub open spec fn all_positions(n: nat) -> Seq<usize> {
    Seq::new(n, |i: int| i as usize)
}

/// What `selected` holds: exactly the flagged positions, each once, in increasing order;
/// when every flag is set, every position.
pub proof fn lemma_selected(flags: Seq<bool>)
    requires
        flags.len() <= usize::MAX + 1,
    ensures
        forall|k: int|
            0 <= k < selected(flags).len() ==> (#[trigger] selected(flags)[k] as int) < flags.len()
                && flags[selected(flags)[k] as int],
        forall|k: int, l: int|
            0 <= k < l < selected(flags).len() ==> selected(flags)[k] < selected(flags)[l],
        forall|i: int| 0 <= i < flags.len() && #[trigger] flags[i] ==> selected(flags).contains(i as usize),
        (forall|i: int| 0 <= i < flags.len() ==> #[trigger] flags[i]) ==> selected(flags) == all_positions(flags.len()),
    decreases flags.len(),
{
    if flags.len() > 0 {
        let init = flags.drop_last();
        lemma_selected(init);
        let s = selected(flags);
        let r = selected(init);
        assert forall|i: int| 0 <= i < flags.len() && #[trigger] flags[i] implies s.contains(i as usize) by {
            if i < flags.len() - 1 {
                assert(init[i]);
                let k = choose|k: int| 0 <= k < r.len() && r[k] == i as usize;
                assert(s[k] == i as usize);
            } else {
                assert(s[s.len() - 1] == i as usize);
            }
        }
        if forall|i: int| 0 <= i < flags.len() ==> #[trigger] flags[i] {
            assert(forall|i: int| 0 <= i < init.len() ==> #[trigger] init[i] == flags[i]);
            assert(flags[flags.len() - 1]);
            assert(s =~= all_positions(flags.len()));
        }
    }
}

/// Search over a series list with an already normalized query.
pub fn filter_series(series: &Vec<Series>, query: &String) -> (r: Vec<usize>)
    ensures
        r@ == selected(series_flags(series@, query@)),
{
    let empty = query.unicode_len() == 0;
    let mut r: Vec<usize> = Vec::new();
    let mut i: usize = 0;
    while i < series.len()
        invariant
            i <= series@.len(),
            empty == (query@.len() == 0),
            r@ == selected(series_flags(series@.subrange(0, i as int), query@)),
        decreases series@.len() - i,
    {
        let s = &series[i];
        let keep = empty || contains_text(to_lower(s.display_name.as_str()).as_str(), query.as_str())
            || contains_text(to_lower(s.name.as_str()).as_str(), query.as_str());
        proof {
            let next = series_flags(series@.subrange(0, i + 1), query@);
            assert(next.drop_last() =~= series_flags(series@.subrange(0, i as int), query@));
            assert(next.last() == keep);
        }
        if keep {
            r.push(i);
        }
        i += 1;
    }
    assert(series@.subrange(0, series@.len() as int) =~= series@);
    r
}

/// Search over a movie list with an already normalized query.
pub fn filter_movies(movies: &Vec<Movie>, query: &String) -> (r: Vec<usize>)
    ensures
        r@ == selected(movie_flags(movies@, query@)),
{
    let empty = query.unicode_len() == 0;
    let mut r: Vec<usize> = Vec::new();
    let mut i: usize = 0;
    while i < movies.len()
        invariant
            i <= movies@.len(),
            empty == (query@.len() == 0),
            r@ == selected(movie_flags(movies@.subrange(0, i as int), query@)),
        decreases movies@.len() - i,
    {
        let m = &movies[i];
        let keep = empty || contains_text(to_lower(m.name.as_str()).as_str(), query.as_str());
        proof {
            let next = movie_flags(movies@.subrange(0, i + 1), query@);
            assert(next.drop_last() =~= movie_flags(movies@.subrange(0, i as int), query@));
            assert(next.last() == keep);
        }
        if keep {
            r.push(i);
        }
        i += 1;
    }
    assert(movies@.subrange(0, movies@.len() as int) =~= movies@);
    r
}

/// The part of a catalog that a search keeps, as positions into its series and
/// movie lists. A kept series keeps all of its seasons and episodes.
#[derive(Clone, Debug, PartialEq, Eq)]
pub struct FilteredLibrary {
    pub series: Vec<usize>,
    pub movies: Vec<usize>,
}

/// Searches `library` for `query`, compared in lowercase.
pub fn filter_library(library: &Library, query: &str) -> (r: FilteredLibrary)
    ensures
        r.series@ == selected(series_flags(library.series@, lower_of(query@))),
        r.movies@ == selected(movie_flags(library.movies@, lower_of(query@))),
        query@.len() == 0 ==> r.series@ == all_positions(library.series@.len()),
        query@.len() == 0 ==> r.movies@ == all_positions(library.movies@.len()),
{
    let q = to_lower(query);
    // The lengths bound the positions that the search can return.
    let _series_len = library.series.len();
    let _movies_len = library.movies.len();
    let r = FilteredLibrary {
        series: filter_series(&library.series, &q),
        movies: filter_movies(&library.movies, &q),
    };
    proof {
        lemma_selected(series_flags(library.series@, q@));
        lemma_selected(movie_flags(library.movies@, q@));
    }
    r
}

/// Search keeps, for a non-empty normalized query, only the series and movies whose
/// lowercase name fields hold the query, and every one of those; for the empty query
/// it keeps every series and movie, in catalog order.
pub proof fn law_filter_selects_matches(library: Library, q: Seq<char>)
    requires
        library.series@.len() <= usize::MAX,
        library.movies@.len() <= usize::MAX,
    ensures
        ({
            let s = selected(series_flags(library.series@, q));
            let m = selected(movie_flags(library.movies@, q));
            &&& forall|k: int|
                0 <= k < s.len() ==> (#[trigger] s[k] as int) < library.series@.len() && (q.len()
                    > 0 ==> series_matches(library.series@[s[k] as int], q))
            &&& forall|i: int|
                0 <= i < library.series@.len() && series_matches(#[trigger] library.series@[i], q)
                    ==> s.contains(i as usize)
            &&& forall|k: int|
                0 <= k < m.len() ==> (#[trigger] m[k] as int) < library.movies@.len() && (q.len()
                    > 0 ==> movie_matches(library.movies@[m[k] as int], q))
            &&& forall|i: int|
                0 <= i < library.movies@.len() && movie_matches(#[trigger] library.movies@[i], q)
                    ==> m.contains(i as usize)
            &&& q.len() == 0 ==> s == all_positions(library.series@.len()) && m == all_positions(
                library.movies@.len(),
            )
        }),
{
    let sf = series_flags(library.series@, q);
    let mf = movie_flags(library.movies@, q);
    lemma_selected(sf);
    lemma_selected(mf);
    assert forall|i: int|
        0 <= i < library.series@.len() && series_matches(#[trigger] library.series@[i], q) implies selected(
        sf,
    ).contains(i as usize) by {
        assert(sf[i]);
    }
    assert forall|i: int|
        0 <= i < library.movies@.len() && movie_matches(#[trigger] library.movies@[i], q) implies selected(
        mf,
    ).contains(i as usize) by {
        assert(mf[i]);
    }
    if q.len() == 0 {
        assert(forall|i: int| 0 <= i < sf.len() ==> #[trigger] sf[i]);
        assert(forall|i: int| 0 <= i < mf.len() ==> #[trigger] mf[i]);
    }
}

} // verus!
