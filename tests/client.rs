use std::collections::HashMap;

use media_frontend::catalog::{Library, Movie, Profile, Season, Series, Video};
use media_frontend::client::{Capabilities, Client, Effect, Event, COPY_MARKER_MS};
use media_frontend::playback::{direct_url, resolve_playback_url, DeliveryMode};
use media_frontend::profile::{resolve_profile, Resolution};
use media_frontend::render::{ContentScreen, PickerScreen, Row};
use media_frontend::watch::KeyPolicy;

fn profile(id: &str) -> Profile {
    Profile { id: id.to_string(), name: format!("name {}", id), icon: "*".to_string() }
}

fn show_library() -> Library {
    Library {
        series: vec![Series {
            name: "show".to_string(),
            display_name: "The Show".to_string(),
            seasons: vec![Season {
                number: 1,
                episodes: vec![Video {
                    path: "show/s1e1".to_string(),
                    filename: "Ep1".to_string(),
                    episode: Some(1),
                }],
            }],
        }],
        movies: vec![Movie { name: "Film".to_string(), path: "film".to_string() }],
    }
}

fn caps(clipboard: bool, share: bool) -> Capabilities {
    Capabilities { clipboard, share, origin: "http://host".to_string() }
}

/// Runs a client against an in-memory store, answering storage reads at once.
struct Harness {
    client: Client,
    store: HashMap<String, Vec<String>>,
    last_profile: Option<String>,
    log: Vec<Effect>,
}

impl Harness {
    fn new(policy: KeyPolicy) -> Harness {
        Harness {
            client: Client::new(caps(true, true), policy, DeliveryMode::Adaptive),
            store: HashMap::new(),
            last_profile: None,
            log: Vec::new(),
        }
    }

    fn send(&mut self, event: Event) {
        let effects = self.client.update(event);
        for e in effects {
            self.log.push(e.clone());
            match e {
                Effect::SaveWatched { key, paths } => {
                    self.store.insert(key, paths);
                }
                Effect::SaveActiveProfile { id } => self.last_profile = Some(id),
                Effect::LoadWatched { key } => {
                    let stored = self.store.get(&key).cloned();
                    self.send(Event::WatchSetLoaded(key, stored));
                }
                _ => {}
            }
        }
    }

    fn profiles_arrive(&mut self, ids: &[&str]) {
        let list = ids.iter().map(|i| profile(i)).collect();
        let last = self.last_profile.clone();
        self.send(Event::ProfilesLoaded(list, last));
    }

    fn watched(&self) -> Vec<String> {
        let mut v = self.client.watched().to_list();
        v.sort();
        v
    }
}

#[test]
fn first_profile_taken_when_none_remembered() {
    let mut h = Harness::new(KeyPolicy::PerProfile);
    h.profiles_arrive(&["a", "b"]);
    assert_eq!(h.client.active_profile().map(|p| p.id.clone()), Some("a".to_string()));
    assert_eq!(h.last_profile, Some("a".to_string()));
    assert!(h.log.contains(&Effect::SaveActiveProfile { id: "a".to_string() }));
    assert!(h.log.contains(&Effect::LoadWatched { key: "watched_videos_a".to_string() }));
    assert!(h.client.picker_visible());
}

#[test]
fn remembered_profile_restored() {
    let mut h = Harness::new(KeyPolicy::PerProfile);
    h.last_profile = Some("b".to_string());
    h.store.insert("watched_videos_b".to_string(), vec!["film".to_string()]);
    h.profiles_arrive(&["a", "b"]);
    assert_eq!(h.client.active_profile().map(|p| p.id.clone()), Some("b".to_string()));
    assert!(!h.client.picker_visible());
    assert_eq!(h.watched(), vec!["film".to_string()]);
    assert!(!h.log.iter().any(|e| matches!(e, Effect::SaveActiveProfile { .. })));
}

#[test]
fn remembered_profile_missing_falls_back() {
    let mut h = Harness::new(KeyPolicy::PerProfile);
    h.last_profile = Some("gone".to_string());
    h.profiles_arrive(&["a", "b"]);
    assert_eq!(h.client.active_profile().map(|p| p.id.clone()), Some("a".to_string()));
    assert_eq!(h.last_profile, Some("a".to_string()));
}

#[test]
fn no_profiles_no_active() {
    let mut h = Harness::new(KeyPolicy::PerProfile);
    h.profiles_arrive(&[]);
    assert!(h.client.active_profile().is_none());
    assert!(h.client.picker_visible());
    assert_eq!(h.client.picker_screen(), PickerScreen::Empty);
    assert!(h.log.is_empty());
}

#[test]
fn resolution_cases() {
    let list = vec![profile("a"), profile("b"), profile("b")];
    assert_eq!(resolve_profile(&list, &Some("b".to_string())), Resolution::Remembered(1));
    assert_eq!(resolve_profile(&list, &Some("z".to_string())), Resolution::FirstAvailable);
    assert_eq!(resolve_profile(&list, &None), Resolution::FirstAvailable);
    assert_eq!(resolve_profile(&vec![], &Some("a".to_string())), Resolution::NoProfile);
}

#[test]
fn play_marks_watched_and_saves() {
    let mut h = Harness::new(KeyPolicy::PerProfile);
    h.profiles_arrive(&["a"]);
    h.send(Event::Play("film".to_string(), "Film".to_string()));
    assert_eq!(h.watched(), vec!["film".to_string()]);
    assert_eq!(h.store.get("watched_videos_a"), Some(&vec!["film".to_string()]));
    let player = h.client.player().unwrap();
    assert_eq!(player.title, "Film");
    assert_eq!(player.url, "/hls/film/playlist.m3u8");
    h.send(Event::Close);
    assert!(h.client.player().is_none());
    h.send(Event::Play("film".to_string(), "Film".to_string()));
    assert_eq!(h.watched(), vec!["film".to_string()]);
}

#[test]
fn play_without_profile_keeps_state_unsaved() {
    let mut c = Client::new(caps(false, false), KeyPolicy::PerProfile, DeliveryMode::Direct);
    let effects = c.update(Event::Play("x".to_string(), "X".to_string()));
    assert!(effects.is_empty());
    assert!(c.watched().contains(&"x".to_string()));
    assert_eq!(c.player().unwrap().url, "/video/x");
}

#[test]
fn toggle_watched_flips_and_saves() {
    let mut h = Harness::new(KeyPolicy::PerProfile);
    h.profiles_arrive(&["a"]);
    h.send(Event::ToggleWatched("film".to_string()));
    assert_eq!(h.watched(), vec!["film".to_string()]);
    assert_eq!(h.store.get("watched_videos_a"), Some(&vec!["film".to_string()]));
    h.send(Event::ToggleWatched("film".to_string()));
    assert!(h.watched().is_empty());
    assert_eq!(h.store.get("watched_videos_a"), Some(&vec![]));
}

#[test]
fn switching_away_and_back_restores_watch_set() {
    let mut h = Harness::new(KeyPolicy::PerProfile);
    h.profiles_arrive(&["a", "b"]);
    h.send(Event::ToggleWatched("show/s1e1".to_string()));
    h.send(Event::Play("film".to_string(), "Film".to_string()));
    let before = h.watched();
    h.send(Event::SelectProfile(profile("b")));
    assert!(h.watched().is_empty());
    assert_eq!(h.last_profile, Some("b".to_string()));
    h.send(Event::ToggleWatched("other".to_string()));
    h.send(Event::SelectProfile(profile("a")));
    assert_eq!(h.watched(), before);
    assert_eq!(h.last_profile, Some("a".to_string()));
    h.send(Event::SelectProfile(profile("b")));
    assert_eq!(h.watched(), vec!["other".to_string()]);
}

#[test]
fn select_flushes_before_loading() {
    let mut c = Client::new(caps(false, false), KeyPolicy::PerProfile, DeliveryMode::Direct);
    c.update(Event::SelectProfile(profile("a")));
    c.update(Event::WatchSetLoaded("watched_videos_a".to_string(), None));
    c.update(Event::ToggleWatched("p".to_string()));
    let effects = c.update(Event::SelectProfile(profile("b")));
    assert_eq!(
        effects,
        vec![
            Effect::SaveWatched { key: "watched_videos_a".to_string(), paths: vec!["p".to_string()] },
            Effect::SaveActiveProfile { id: "b".to_string() },
            Effect::LoadWatched { key: "watched_videos_b".to_string() },
        ]
    );
    assert!(!c.picker_visible());
}

#[test]
fn stale_storage_answer_ignored() {
    let mut c = Client::new(caps(false, false), KeyPolicy::PerProfile, DeliveryMode::Direct);
    c.update(Event::SelectProfile(profile("a")));
    c.update(Event::WatchSetLoaded("watched_videos_b".to_string(), Some(vec!["q".to_string()])));
    assert!(!c.watched().contains(&"q".to_string()));
    c.update(Event::WatchSetLoaded("watched_videos_a".to_string(), Some(vec!["q".to_string()])));
    assert!(c.watched().contains(&"q".to_string()));
}

#[test]
fn shared_key_policy_uses_one_key() {
    let mut h = Harness::new(KeyPolicy::Shared);
    h.profiles_arrive(&[]);
    h.send(Event::ToggleWatched("film".to_string()));
    assert_eq!(h.store.get("watched_videos"), Some(&vec!["film".to_string()]));
    h.send(Event::SelectProfile(profile("a")));
    assert_eq!(h.watched(), vec!["film".to_string()]);
}

#[test]
fn save_then_load_round_trip() {
    let mut h = Harness::new(KeyPolicy::PerProfile);
    h.profiles_arrive(&["a"]);
    for p in ["x", "y", "z"] {
        h.send(Event::ToggleWatched(p.to_string()));
    }
    let before = h.watched();
    let stored = h.store.get("watched_videos_a").cloned();
    h.send(Event::WatchSetLoaded("watched_videos_a".to_string(), stored));
    assert_eq!(h.watched(), before);
}

#[test]
fn unreadable_storage_gives_empty_set() {
    let mut c = Client::new(caps(false, false), KeyPolicy::PerProfile, DeliveryMode::Direct);
    c.update(Event::SelectProfile(profile("a")));
    c.update(Event::ToggleWatched("p".to_string()));
    c.update(Event::WatchSetLoaded("watched_videos_a".to_string(), None));
    assert!(!c.watched().contains(&"p".to_string()));
}

#[test]
fn listing_reveals_on_expansion() {
    let mut c = Client::new(caps(false, false), KeyPolicy::PerProfile, DeliveryMode::Direct);
    c.update(Event::LibraryLoaded(show_library()));
    assert_eq!(c.content_screen(), ContentScreen::Listing);
    assert_eq!(
        c.visible_rows(),
        vec![
            Row::SeriesHeader { series: 0, expanded: false },
            Row::MovieEntry { movie: 0, watched: false, copied: false },
        ]
    );
    c.update(Event::ToggleSeries("show".to_string()));
    assert_eq!(
        c.visible_rows(),
        vec![
            Row::SeriesHeader { series: 0, expanded: true },
            Row::SeasonHeader { series: 0, season: 0, expanded: false },
            Row::MovieEntry { movie: 0, watched: false, copied: false },
        ]
    );
    c.update(Event::ToggleSeason("show".to_string(), 1));
    c.update(Event::Play("show/s1e1".to_string(), "Ep1".to_string()));
    assert_eq!(
        c.visible_rows(),
        vec![
            Row::SeriesHeader { series: 0, expanded: true },
            Row::SeasonHeader { series: 0, season: 0, expanded: true },
            Row::Episode { series: 0, season: 0, episode: 0, watched: true, copied: false },
            Row::MovieEntry { movie: 0, watched: false, copied: false },
        ]
    );
}

#[test]
fn listing_follows_search() {
    let mut c = Client::new(caps(false, false), KeyPolicy::PerProfile, DeliveryMode::Direct);
    c.update(Event::LibraryLoaded(show_library()));
    c.update(Event::UpdateSearch("THE".to_string()));
    assert_eq!(c.visible_rows(), vec![Row::SeriesHeader { series: 0, expanded: false }]);
    c.update(Event::UpdateSearch("".to_string()));
    assert_eq!(c.visible_rows().len(), 2);
    c.update(Event::UpdateSearch("nothing".to_string()));
    assert!(c.visible_rows().is_empty());
    assert_eq!(c.content_screen(), ContentScreen::NoResults);
}

#[test]
fn toggle_series_twice_is_identity() {
    let mut c = Client::new(caps(false, false), KeyPolicy::PerProfile, DeliveryMode::Direct);
    c.update(Event::LibraryLoaded(show_library()));
    let before = c.visible_rows();
    c.update(Event::ToggleSeries("show".to_string()));
    assert_ne!(c.visible_rows(), before);
    c.update(Event::ToggleSeries("show".to_string()));
    assert_eq!(c.visible_rows(), before);
}

#[test]
fn stale_expansion_keys_are_inert() {
    let mut c = Client::new(caps(false, false), KeyPolicy::PerProfile, DeliveryMode::Direct);
    c.update(Event::ToggleSeries("gone".to_string()));
    c.update(Event::ToggleSeason("gone".to_string(), 3));
    c.update(Event::LibraryLoaded(show_library()));
    assert_eq!(
        c.visible_rows(),
        vec![
            Row::SeriesHeader { series: 0, expanded: false },
            Row::MovieEntry { movie: 0, watched: false, copied: false },
        ]
    );
}

#[test]
fn copy_marker_lifecycle() {
    let mut c = Client::new(caps(true, false), KeyPolicy::PerProfile, DeliveryMode::Direct);
    c.update(Event::LibraryLoaded(show_library()));
    let first = c.update(Event::CopyLink("film".to_string()));
    assert_eq!(
        first,
        vec![
            Effect::WriteClipboard { text: "http://host/video/film".to_string() },
            Effect::ScheduleClear { token: 0, delay_ms: COPY_MARKER_MS },
        ]
    );
    assert!(c.is_copied(&"film".to_string()));
    assert_eq!(c.visible_rows()[1], Row::MovieEntry { movie: 0, watched: false, copied: true });
    c.update(Event::ClearCopied(0));
    assert!(!c.is_copied(&"film".to_string()));
}

#[test]
fn second_copy_supersedes_first_timer() {
    let mut c = Client::new(caps(true, false), KeyPolicy::PerProfile, DeliveryMode::Direct);
    c.update(Event::CopyLink("film".to_string()));
    let second = c.update(Event::CopyLink("show/s1e1".to_string()));
    assert_eq!(
        second,
        vec![
            Effect::CancelClear { token: 0 },
            Effect::WriteClipboard { text: "http://host/video/show/s1e1".to_string() },
            Effect::ScheduleClear { token: 1, delay_ms: 2000 },
        ]
    );
    assert!(!c.is_copied(&"film".to_string()));
    assert!(c.is_copied(&"show/s1e1".to_string()));
    c.update(Event::ClearCopied(0));
    assert!(c.is_copied(&"show/s1e1".to_string()));
    c.update(Event::ClearCopied(1));
    assert!(!c.is_copied(&"show/s1e1".to_string()));
}

#[test]
fn copy_without_clipboard_does_nothing() {
    let mut c = Client::new(caps(false, true), KeyPolicy::PerProfile, DeliveryMode::Direct);
    assert!(c.update(Event::CopyLink("film".to_string())).is_empty());
    assert!(!c.is_copied(&"film".to_string()));
}

#[test]
fn share_needs_capability() {
    let mut c = Client::new(caps(false, true), KeyPolicy::PerProfile, DeliveryMode::Direct);
    assert_eq!(
        c.update(Event::ShareLink("film".to_string(), "Film".to_string())),
        vec![Effect::Share { title: "Film".to_string(), url: "http://host/video/film".to_string() }]
    );
    let mut d = Client::new(caps(true, false), KeyPolicy::PerProfile, DeliveryMode::Direct);
    assert!(d.update(Event::ShareLink("film".to_string(), "Film".to_string())).is_empty());
}

#[test]
fn screens_follow_loading_and_errors() {
    let mut c = Client::new(caps(false, false), KeyPolicy::PerProfile, DeliveryMode::Direct);
    assert_eq!(c.content_screen(), ContentScreen::Loading);
    assert_eq!(c.picker_screen(), PickerScreen::Loading);
    c.update(Event::LoadFailed("boom".to_string()));
    assert_eq!(c.content_screen(), ContentScreen::Failed);
    assert_eq!(c.error(), Some(&"boom".to_string()));
    assert_eq!(c.picker_screen(), PickerScreen::Empty);
    let mut d = Client::new(caps(false, false), KeyPolicy::PerProfile, DeliveryMode::Direct);
    d.update(Event::ProfilesLoaded(vec![profile("a")], None));
    assert_eq!(d.picker_screen(), PickerScreen::Choose);
    assert_eq!(d.content_screen(), ContentScreen::Loading);
    d.update(Event::ShowProfilePicker);
    assert!(d.picker_visible());
    d.update(Event::SelectProfile(profile("a")));
    assert!(!d.picker_visible());
}

#[test]
fn playback_urls() {
    assert_eq!(direct_url("show/s1e1"), "/video/show/s1e1");
    assert_eq!(resolve_playback_url("film", DeliveryMode::Direct), "/video/film");
    assert_eq!(resolve_playback_url("film", DeliveryMode::Adaptive), "/hls/film/playlist.m3u8");
    assert_eq!(resolve_playback_url("", DeliveryMode::Adaptive), "/hls//playlist.m3u8");
}
