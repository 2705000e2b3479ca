use media_frontend::navigation::NavigationState;
use media_frontend::textset::TextSet;
use media_frontend::watch::{load_watch_set, watch_key_for, KeyPolicy, ACTIVE_PROFILE_KEY};

fn sorted(mut v: Vec<String>) -> Vec<String> {
    v.sort();
    v
}

#[test]
fn toggle_twice_restores_set() {
    let mut s = TextSet::new();
    s.insert("a".to_string());
    s.toggle("b".to_string());
    assert!(s.contains(&"b".to_string()));
    s.toggle("b".to_string());
    assert!(!s.contains(&"b".to_string()));
    assert_eq!(sorted(s.to_list()), vec!["a".to_string()]);
    s.toggle("a".to_string());
    assert!(s.to_list().is_empty());
    s.toggle("a".to_string());
    assert_eq!(s.to_list(), vec!["a".to_string()]);
}

#[test]
fn insert_and_remove_keep_one_copy() {
    let mut s = TextSet::new();
    s.insert("x".to_string());
    s.insert("x".to_string());
    assert_eq!(s.to_list().len(), 1);
    s.remove(&"y".to_string());
    assert_eq!(s.to_list().len(), 1);
    s.remove(&"x".to_string());
    assert!(s.to_list().is_empty());
}

#[test]
fn from_list_drops_repeats() {
    let s = TextSet::from_list(vec!["p".to_string(), "q".to_string(), "p".to_string()]);
    assert_eq!(sorted(s.to_list()), vec!["p".to_string(), "q".to_string()]);
}

#[test]
fn stored_list_round_trip() {
    let mut s = TextSet::new();
    for p in ["show/s1e1", "film", "show/s1e2"] {
        s.insert(p.to_string());
    }
    let loaded = load_watch_set(Some(s.to_list()));
    assert_eq!(sorted(loaded.to_list()), sorted(s.to_list()));
    assert!(load_watch_set(None).to_list().is_empty());
    assert!(load_watch_set(Some(vec![])).to_list().is_empty());
}

#[test]
fn storage_keys() {
    let id = "kid".to_string();
    assert_eq!(watch_key_for(KeyPolicy::PerProfile, Some(&id)), Some("watched_videos_kid".to_string()));
    assert_eq!(watch_key_for(KeyPolicy::PerProfile, None), None);
    assert_eq!(watch_key_for(KeyPolicy::Shared, Some(&id)), Some("watched_videos".to_string()));
    assert_eq!(watch_key_for(KeyPolicy::Shared, None), Some("watched_videos".to_string()));
    assert_eq!(ACTIVE_PROFILE_KEY, "current_profile_id");
}

#[test]
fn navigation_toggles() {
    let mut n = NavigationState::new();
    let show = "show".to_string();
    assert!(!n.is_series_expanded(&show));
    n.toggle_series(show.clone());
    assert!(n.is_series_expanded(&show));
    n.toggle_series(show.clone());
    assert!(!n.is_series_expanded(&show));
    n.toggle_season(show.clone(), 1);
    assert!(n.is_season_expanded(&show, 1));
    assert!(!n.is_season_expanded(&show, 2));
    assert!(!n.is_season_expanded(&"show_1".to_string(), 1));
    n.toggle_season(show.clone(), 1);
    assert!(!n.is_season_expanded(&show, 1));
}

#[test]
fn season_keys_do_not_collide() {
    let mut n = NavigationState::new();
    n.toggle_season("a_1".to_string(), 2);
    assert!(n.is_season_expanded(&"a_1".to_string(), 2));
    assert!(!n.is_season_expanded(&"a".to_string(), 12));
    assert!(!n.is_season_expanded(&"a_12".to_string(), 2));
}

#[test]
fn query_is_stored_lowercase() {
    let mut n = NavigationState::new();
    n.set_query("The SHOW");
    assert_eq!(n.query(), "the show");
    n.set_query("");
    assert_eq!(n.query(), "");
}
