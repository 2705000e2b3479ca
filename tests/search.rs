use media_frontend::catalog::{Library, Movie, Season, Series, Video};
use media_frontend::search::{filter_library, filter_movies, filter_series};
use media_frontend::text::contains_text;

fn show_library() -> Library {
    Library {
        series: vec![Series {
            name: "show".to_string(),
            display_name: "The Show".to_string(),
            seasons: vec![Season {
                number: 1,
                episodes: vec![Video {
                    path: "show/s1e1".to_string(),
                    filename: "Ep1".to_string(),
                    episode: Some(1),
                }],
            }],
        }],
        movies: vec![Movie { name: "Film".to_string(), path: "film".to_string() }],
    }
}

fn wide_library() -> Library {
    Library {
        series: vec![
            Series { name: "alpha".to_string(), display_name: "Alpha Team".to_string(), seasons: vec![] },
            Series { name: "beta_x".to_string(), display_name: "Beta".to_string(), seasons: vec![] },
            Series { name: "gamma".to_string(), display_name: "Gamma Ray".to_string(), seasons: vec![] },
        ],
        movies: vec![
            Movie { name: "Ray of Light".to_string(), path: "m/ray".to_string() },
            Movie { name: "Dark".to_string(), path: "m/dark".to_string() },
        ],
    }
}

#[test]
fn query_matches_display_name_not_movie() {
    let lib = show_library();
    let f = filter_library(&lib, "the");
    assert_eq!(f.series, vec![0]);
    assert!(f.movies.is_empty());
}

#[test]
fn empty_query_keeps_everything() {
    let lib = show_library();
    let f = filter_library(&lib, "");
    assert_eq!(f.series, vec![0]);
    assert_eq!(f.movies, vec![0]);
    let w = wide_library();
    let f = filter_library(&w, "");
    assert_eq!(f.series, vec![0, 1, 2]);
    assert_eq!(f.movies, vec![0, 1]);
}

#[test]
fn query_is_compared_in_lowercase() {
    let lib = show_library();
    let f = filter_library(&lib, "THE SH");
    assert_eq!(f.series, vec![0]);
    let f = filter_library(&lib, "FiLm");
    assert!(f.series.is_empty());
    assert_eq!(f.movies, vec![0]);
}

#[test]
fn stable_name_also_matches() {
    let w = wide_library();
    let f = filter_library(&w, "_x");
    assert_eq!(f.series, vec![1]);
    assert!(f.movies.is_empty());
}

#[test]
fn every_match_kept_in_catalog_order() {
    let w = wide_library();
    let f = filter_library(&w, "ray");
    assert_eq!(f.series, vec![2]);
    assert_eq!(f.movies, vec![0]);
    let f = filter_library(&w, "a");
    assert_eq!(f.series, vec![0, 1, 2]);
    assert_eq!(f.movies, vec![0, 1]);
}

#[test]
fn no_match_keeps_nothing() {
    let w = wide_library();
    let f = filter_library(&w, "zzz");
    assert!(f.series.is_empty());
    assert!(f.movies.is_empty());
}

#[test]
fn normalized_filters_do_not_fold_the_query() {
    let w = wide_library();
    assert_eq!(filter_series(&w.series, &"Beta".to_string()), Vec::<usize>::new());
    assert_eq!(filter_series(&w.series, &"beta".to_string()), vec![1]);
    assert_eq!(filter_movies(&w.movies, &"dark".to_string()), vec![1]);
    assert_eq!(filter_movies(&w.movies, &String::new()), vec![0, 1]);
}

#[test]
fn substring_search() {
    assert!(contains_text("the show", "show"));
    assert!(contains_text("the show", ""));
    assert!(contains_text("", ""));
    assert!(!contains_text("", "a"));
    assert!(!contains_text("sho", "show"));
    assert!(contains_text("show", "show"));
    assert!(!contains_text("Show", "show"));
    assert!(contains_text("café au lait", "é a"));
}
