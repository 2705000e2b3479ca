//! What the screen shows, as a pure function of the client state: which screen,
//! which catalog rows in which order with their marks, and what the player loads.
use vstd::prelude::*;
use crate::catalog::Library;
use crate::client::{marked_copied, Client, ClientView};
use crate::playback::{playback_url_of, resolve_playback_url};
use crate::search::{filter_movies, filter_series, lemma_selected, movie_flags, selected, series_flags};

verus! {

/// One line of the catalog listing. Positions refer into the catalog's lists.
#[derive(Clone, Copy, Debug, PartialEq, Eq, Structural)]
pub enum Row {
    /// A series line; its seasons follow when it is expanded.
    SeriesHeader { series: usize, expanded: bool },
    /// A season line; its episodes follow when it is expanded.
    SeasonHeader { series: usize, season: usize, expanded: bool },
    /// An episode line with its watched and copied marks.
    Episode { series: usize, season: usize, episode: usize, watched: bool, copied: bool },
    /// A movie line with its watched and copied marks.
    MovieEntry { movie: usize, watched: bool, copied: bool },
}

/// The row of episode `k` of season `j` of series `i`.
pub open spec fn episode_row(s: ClientView, lib: Library, i: int, j: int, k: int) -> Row {
    let path = lib.series@[i].seasons@[j].episodes@[k].path@;
    Row::Episode {
        series: i as usize,
        season: j as usize,
        episode: k as usize,
        watched: s.watched.contains(path),
        copied: marked_copied(s, path),
    }
}

/// Season `j` of series `i`: its line, then its episodes if it is expanded.
pub open spec fn season_block(s: ClientView, lib: Library, i: int, j: int) -> Seq<Row> {
    let season = lib.series@[i].seasons@[j];
    let open = s.nav.expanded_seasons.contains((lib.series@[i].name@, season.number));
    seq![Row::SeasonHeader { series: i as usize, season: j as usize, expanded: open }] + if open {
        Seq::new(season.episodes@.len(), |k: int| episode_row(s, lib, i, j, k))
    } else {
        Seq::empty()
    }
}

/// The blocks of the first `n` seasons of series `i`.
pub open spec fn seasons_upto(s: ClientView, lib: Library, i: int, n: int) -> Seq<Row>
    decreases n,
{
    if n <= 0 {
        Seq::empty()
    } else {
        seasons_upto(s, lib, i, n - 1) + season_block(s, lib, i, n - 1)
    }
}

/// Series `i`: its line, then its seasons if it is expanded.
pub open spec fn series_block(s: ClientView, lib: Library, i: int) -> Seq<Row> {
    let open = s.nav.expanded_series.contains(lib.series@[i].name@);
    seq![Row::SeriesHeader { series: i as usize, expanded: open }] + if open {
        seasons_upto(s, lib, i, lib.series@[i].seasons@.len() as int)
    } else {
        Seq::empty()
    }
}

/// The blocks of the series at positions `idx`, in that order.
pub open spec fn series_rows(s: ClientView, lib: Library, idx: Seq<usize>) -> Seq<Row>
    decreases idx.len(),
{
    if idx.len() == 0 {
        Seq::empty()
    } else {
        series_rows(s, lib, idx.drop_last()) + series_block(s, lib, idx.last() as int)
    }
}

/// The lines of the movies at positions `idx`, in that order.
pub open spec fn movie_rows(s: ClientView, lib: Library, idx: Seq<usize>) -> Seq<Row> {
    Seq::new(
        idx.len(),
        |k: int|
            {
                let path = lib.movies@[idx[k] as int].path@;
                Row::MovieEntry {
                    movie: idx[k],
                    watched: s.watched.contains(path),
                    copied: marked_copied(s, path),
                }
            },
    )
}

/// The whole listing: the series that the search keeps, then the movies it keeps.
pub open spec fn listing(s: ClientView) -> Seq<Row> {
    match s.library {
        Some(lib) => series_rows(s, lib, selected(series_flags(lib.series@, s.nav.query)))
            + movie_rows(s, lib, selected(movie_flags(lib.movies@, s.nav.query))),
        None => Seq::empty(),
    }
}

/// What the main area shows.
#[derive(Clone, Copy, Debug, PartialEq, Eq, Structural)]
pub enum ContentScreen {
    /// The catalog request is pending.
    Loading,
    /// A request failed; the message is shown.
    Failed,
    /// No catalog is available.
    Missing,
    /// The search keeps nothing.
    NoResults,
    /// The listing is shown.
    Listing,
}

/// The main-area screen for state `s`.
pub open spec fn content_screen_of(s: ClientView) -> ContentScreen {
    if s.loading_library {
        ContentScreen::Loading
    } else if s.error is Some {
        ContentScreen::Failed
    } else {
        match s.library {
            None => ContentScreen::Missing,
            Some(lib) => if selected(series_flags(lib.series@, s.nav.query)).len() == 0 && selected(
                movie_flags(lib.movies@, s.nav.query),
            ).len() == 0 {
                ContentScreen::NoResults
            } else {
                ContentScreen::Listing
            },
        }
    }
}

/// What the profile picker shows.
#[derive(Clone, Copy, Debug, PartialEq, Eq, Structural)]
pub enum PickerScreen {
    /// The profile request is pending.
    Loading,
    /// No profiles are configured.
    Empty,
    /// The profiles to choose from.
    Choose,
}

/// The picker screen for state `s`.
pub open spec fn picker_screen_of(s: ClientView) -> PickerScreen {
    if s.loading_profiles {
        PickerScreen::Loading
    } else if s.profiles.len() == 0 {
        PickerScreen::Empty
    } else {
        PickerScreen::Choose
    }
}

/// The player overlay: the title shown and the URL loaded.
#[derive(Clone, Debug, PartialEq, Eq)]
pub struct PlayerView {
    pub title: String,
    pub url: String,
}

impl Client {
    /// The main-area screen.
    pub fn content_screen(&self) -> (r: ContentScreen)
        requires
            self.wf(),
        ensures
            r == content_screen_of(self@),
    {
        if self.loading_library() {
            return ContentScreen::Loading;
        }
        if self.error().is_some() {
            return ContentScreen::Failed;
        }
        match self.library() {
            None => ContentScreen::Missing,
            Some(lib) => {
                let q = self.nav().query();
                if filter_series(&lib.series, q).len() == 0 && filter_movies(&lib.movies, q).len()
                    == 0 {
                    ContentScreen::NoResults
                } else {
                    ContentScreen::Listing
                }
            },
        }
    }

    /// The picker screen.
    pub fn picker_screen(&self) -> (r: PickerScreen)
        ensures
            r == picker_screen_of(self@),
    {
        if self.loading_profiles() {
            PickerScreen::Loading
        } else if self.profiles().len() == 0 {
            PickerScreen::Empty
        } else {
            PickerScreen::Choose
        }
    }

    /// The player overlay, while a video is playing.
    pub fn player(&self) -> (r: Option<PlayerView>)
        ensures
            match self@.playing {
                Some(p) => r matches Some(v) && v.title@ == p.1 && v.url@ == playback_url_of(
                    p.0,
                    self@.delivery,
                ),
                None => r is None,
            },
    {
        match self.playing() {
            Some(p) => Some(
                PlayerView {
                    title: p.title.clone(),
                    url: resolve_playback_url(p.path.as_str(), self.delivery()),
                },
            ),
            None => None,
        }
    }

    fn push_season_block(&self, lib: &Library, i: usize, j: usize, r: &mut Vec<Row>)
        requires
            self.wf(),
            i < lib.series@.len(),
            j < lib.series@[i as int].seasons@.len(),
        ensures
            final(r)@ == old(r)@ + season_block(self@, *lib, i as int, j as int),
    {
        let series = &lib.series[i];
        let season = &series.seasons[j];
        let open = self.nav().is_season_expanded(&series.name, season.number);
        let ghost start = r@;
        r.push(Row::SeasonHeader { series: i, season: j, expanded: open });
        if open {
            let mut k: usize = 0;
            while k < season.episodes.len()
                invariant
                    self.wf(),
                    i < lib.series@.len(),
                    j < lib.series@[i as int].seasons@.len(),
                    *season == lib.series@[i as int].seasons@[j as int],
                    k <= season.episodes@.len(),
                    r@ == start + seq![
                        Row::SeasonHeader { series: i, season: j, expanded: true },
                    ] + Seq::new(k as nat, |m: int| episode_row(self@, *lib, i as int, j as int, m)),
                decreases season.episodes@.len() - k,
            {
                let path = &season.episodes[k].path;
                let row = Row::Episode {
                    series: i,
                    season: j,
                    episode: k,
                    watched: self.watched().contains(path),
                    copied: self.is_copied(path),
                };
                r.push(row);
                assert(Seq::new((k + 1) as nat, |m: int| episode_row(self@, *lib, i as int, j as int, m))
                    =~= Seq::new(k as nat, |m: int| episode_row(self@, *lib, i as int, j as int, m)).push(row));
                assert(r@ =~= start + seq![
                        Row::SeasonHeader { series: i, season: j, expanded: true },
                    ] + Seq::new((k + 1) as nat, |m: int| episode_row(self@, *lib, i as int, j as int, m)));
                k += 1;
            }
            assert(r@ =~= start + season_block(self@, *lib, i as int, j as int));
        } else {
            assert(r@ =~= start + season_block(self@, *lib, i as int, j as int));
        }
    }

    fn push_series_block(&self, lib: &Library, i: usize, r: &mut Vec<Row>)
        requires
            self.wf(),
            i < lib.series@.len(),
        ensures
            final(r)@ == old(r)@ + series_block(self@, *lib, i as int),
    {
        let series = &lib.series[i];
        let open = self.nav().is_series_expanded(&series.name);
        let ghost start = r@;
        r.push(Row::SeriesHeader { series: i, expanded: open });
        if open {
            let mut j: usize = 0;
            while j < series.seasons.len()
                invariant
                    self.wf(),
                    i < lib.series@.len(),
                    *series == lib.series@[i as int],
                    j <= series.seasons@.len(),
                    r@ == start + seq![Row::SeriesHeader { series: i, expanded: true }]
                        + seasons_upto(self@, *lib, i as int, j as int),
                decreases series.seasons@.len() - j,
            {
                self.push_season_block(lib, i, j, r);
                assert(r@ =~= start + seq![Row::SeriesHeader { series: i, expanded: true }]
                        + seasons_upto(self@, *lib, i as int, j + 1));
                j += 1;
            }
        }
        assert(r@ =~= start + series_block(self@, *lib, i as int));
    }

    /// The catalog listing in display order: each series the search keeps, followed,
    /// when expanded, by its seasons (each followed, when expanded, by its episodes);
    /// then each movie the search keeps. Empty until the catalog has arrived.
    pub fn visible_rows(&self) -> (r: Vec<Row>)
        requires
            self.wf(),
        ensures
            r@ == listing(self@),
    {
        let mut r: Vec<Row> = Vec::new();
        match self.library() {
            None => r,
            Some(lib) => {
                let q = self.nav().query();
                // The lengths bound the positions that the search can return.
                let _series_len = lib.series.len();
                let _movies_len = lib.movies.len();
                let fs = filter_series(&lib.series, q);
                let fm = filter_movies(&lib.movies, q);
                proof {
                    lemma_selected(series_flags(lib.series@, q@));
                    lemma_selected(movie_flags(lib.movies@, q@));
                }
                let mut k: usize = 0;
                while k < fs.len()
                    invariant
                        self.wf(),
                        k <= fs@.len(),
                        forall|m: int| 0 <= m < fs@.len() ==> (#[trigger] fs@[m] as int) < lib.series@.len(),
                        r@ == series_rows(self@, *lib, fs@.subrange(0, k as int)),
                    decreases fs@.len() - k,
                {
                    self.push_series_block(lib, fs[k], &mut r);
                    assert(fs@.subrange(0, k + 1).drop_last() =~= fs@.subrange(0, k as int));
                    k += 1;
                }
                assert(fs@.subrange(0, fs@.len() as int) =~= fs@);
                let ghost series_part = r@;
                let mut k: usize = 0;
                while k < fm.len()
                    invariant
                        self.wf(),
                        k <= fm@.len(),
                        forall|m: int| 0 <= m < fm@.len() ==> (#[trigger] fm@[m] as int) < lib.movies@.len(),
                        r@ == series_part + movie_rows(self@, *lib, fm@.subrange(0, k as int)),
                    decreases fm@.len() - k,
                {
                    let path = &lib.movies[fm[k]].path;
                    let row = Row::MovieEntry {
                        movie: fm[k],
                        watched: self.watched().contains(path),
                        copied: self.is_copied(path),
                    };
                    r.push(row);
                    assert(movie_rows(self@, *lib, fm@.subrange(0, k + 1)) =~= movie_rows(
                        self@,
                        *lib,
                        fm@.subrange(0, k as int),
                    ).push(row));
                    k += 1;
                }
                assert(fm@.subrange(0, fm@.len() as int) =~= fm@);
                r
            },
        }
    }
}

} // verus!
