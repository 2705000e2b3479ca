//! The client state container: every user action, network completion, storage
//! answer and timer expiry is an event; handling one yields the next state and the
//! side effects the host must carry out, in order.
use vstd::prelude::*;
use crate::catalog::{Library, Profile};
use crate::navigation::{NavigationState, NavigationView};
use crate::playback::{direct_url, direct_url_of, DeliveryMode, PlaybackSession};
use crate::profile::{resolution_of, resolve_profile, lemma_resolution_unique, Resolution};
use crate::text::{join, lower_of, opt_text};
use crate::textset::{toggled, views, TextSet};
use crate::watch::{
    load_watch_set, loaded_watch_set, read_key, stored_set, watch_key, watch_key_for, KeyPolicy,
    WatchSet,
};

verus! {

/// How long the "link copied" marker stays, in milliseconds.
pub const COPY_MARKER_MS: u32 = 2000;

/// What the host environment offers, found out once at startup.
#[derive(Clone, Debug, PartialEq, Eq)]
pub struct Capabilities {
    /// Text can be written to the clipboard.
    pub clipboard: bool,
    /// A native share dialog exists.
    pub share: bool,
    /// The origin of the page, prepended to relative media URLs.
    pub origin: String,
}

/// The path whose link was just copied, and the token of the timer that will clear it.
#[derive(Clone, Debug, PartialEq, Eq)]
pub struct CopyMarker {
    pub path: String,
    pub token: u64,
}

/// Something the host must do on the client's behalf.
#[derive(Clone, Debug, PartialEq, Eq)]
pub enum Effect {
    /// Write the watch set `paths` under storage key `key`. Failures are ignored.
    SaveWatched { key: String, paths: Vec<String> },
    /// Remember `id` as the last active profile.
    SaveActiveProfile { id: String },
    /// Read the watch set under `key` and hand it back as `Event::WatchSetLoaded`.
    LoadWatched { key: String },
    /// Put `text` on the clipboard.
    WriteClipboard { text: String },
    /// After `delay_ms`, hand back `Event::ClearCopied(token)`.
    ScheduleClear { token: u64, delay_ms: u32 },
    /// Drop the pending timer with this token, if it has not fired.
    CancelClear { token: u64 },
    /// Open the native share dialog for `url` under `title`.
    Share { title: String, url: String },
}

/// The meaning of an effect; a saved watch set is given as a set.
pub enum EffectView {
    SaveWatched { key: Seq<char>, paths: Set<Seq<char>> },
    SaveActiveProfile { id: Seq<char> },
    LoadWatched { key: Seq<char> },
    WriteClipboard { text: Seq<char> },
    ScheduleClear { token: u64, delay_ms: u32 },
    CancelClear { token: u64 },
    Share { title: Seq<char>, url: Seq<char> },
}

impl View for Effect {
    type V = EffectView;

    open spec fn view(&self) -> EffectView {
        match self {
            Effect::SaveWatched { key, paths } => EffectView::SaveWatched {
                key: key@,
                paths: views(paths@).to_set(),
            },
            Effect::SaveActiveProfile { id } => EffectView::SaveActiveProfile { id: id@ },
            Effect::LoadWatched { key } => EffectView::LoadWatched { key: key@ },
            Effect::WriteClipboard { text } => EffectView::WriteClipboard { text: text@ },
            Effect::ScheduleClear { token, delay_ms } => EffectView::ScheduleClear {
                token: *token,
                delay_ms: *delay_ms,
            },
            Effect::CancelClear { token } => EffectView::CancelClear { token: *token },
            Effect::Share { title, url } => EffectView::Share { title: title@, url: url@ },
        }
    }
}

/// The meanings of a list of effects.
pub open spec fn effect_views(v: Seq<Effect>) -> Seq<EffectView> {
    v.map_values(|e: Effect| e@)
}

/// Everything that can happen to the client.
#[derive(Clone, Debug, PartialEq, Eq)]
pub enum Event {
    /// The catalog arrived.
    LibraryLoaded(Library),
    /// The profile list arrived, with the remembered last profile id if storage held one.
    ProfilesLoaded(Vec<Profile>, Option<String>),
    /// Storage answered a `LoadWatched` for this key (`None`: absent or unreadable).
    WatchSetLoaded(String, Option<Vec<String>>),
    /// A catalog or profile request failed, with a message.
    LoadFailed(String),
    /// The search text changed.
    UpdateSearch(String),
    /// Expand or collapse the series with this stable name.
    ToggleSeries(String),
    /// Expand or collapse this season of the named series.
    ToggleSeason(String, u32),
    /// Play the video at a path, under a title.
    Play(String, String),
    /// Close the player.
    Close,
    /// Copy the link of the video at a path.
    CopyLink(String),
    /// Share the video at a path, under a title.
    ShareLink(String, String),
    /// Flip the watched mark of a path.
    ToggleWatched(String),
    /// Switch to this profile.
    SelectProfile(Profile),
    /// Show the profile picker.
    ShowProfilePicker,
    /// The copy-marker timer with this token fired.
    ClearCopied(u64),
}

/// The meaning of an event.
pub enum EventView {
    LibraryLoaded(Library),
    ProfilesLoaded(Seq<Profile>, Option<Seq<char>>),
    WatchSetLoaded(Seq<char>, Option<Set<Seq<char>>>),
    LoadFailed(Seq<char>),
    UpdateSearch(Seq<char>),
    ToggleSeries(Seq<char>),
    ToggleSeason(Seq<char>, u32),
    Play(Seq<char>, Seq<char>),
    Close,
    CopyLink(Seq<char>),
    ShareLink(Seq<char>, Seq<char>),
    ToggleWatched(Seq<char>),
    SelectProfile(Profile),
    ShowProfilePicker,
    ClearCopied(u64),
}

impl View for Event {
    type V = EventView;

    open spec fn view(&self) -> EventView {
        match self {
            Event::LibraryLoaded(l) => EventView::LibraryLoaded(*l),
            Event::ProfilesLoaded(p, last) => EventView::ProfilesLoaded(p@, opt_text(*last)),
            Event::WatchSetLoaded(k, stored) => EventView::WatchSetLoaded(k@, stored_set(*stored)),
            Event::LoadFailed(m) => EventView::LoadFailed(m@),
            Event::UpdateSearch(q) => EventView::UpdateSearch(q@),
            Event::ToggleSeries(n) => EventView::ToggleSeries(n@),
            Event::ToggleSeason(n, k) => EventView::ToggleSeason(n@, *k),
            Event::Play(p, t) => EventView::Play(p@, t@),
            Event::Close => EventView::Close,
            Event::CopyLink(p) => EventView::CopyLink(p@),
            Event::ShareLink(p, t) => EventView::ShareLink(p@, t@),
            Event::ToggleWatched(p) => EventView::ToggleWatched(p@),
            Event::SelectProfile(p) => EventView::SelectProfile(*p),
            Event::ShowProfilePicker => EventView::ShowProfilePicker,
            Event::ClearCopied(t) => EventView::ClearCopied(*t),
        }
    }
}

/// The meaning of the client state.
pub struct ClientView {
    pub library: Option<Library>,
    pub loading_library: bool,
    pub profiles: Seq<Profile>,
    pub loading_profiles: bool,
    pub error: Option<Seq<char>>,
    pub active: Option<Profile>,
    pub picker_visible: bool,
    pub nav: NavigationView,
    pub watched: Set<Seq<char>>,
    pub copied: Option<(Seq<char>, u64)>,
    pub next_token: u64,
    pub playing: Option<(Seq<char>, Seq<char>)>,
    pub clipboard: bool,
    pub share: bool,
    pub origin: Seq<char>,
    pub policy: KeyPolicy,
    pub delivery: DeliveryMode,
}

/// The id of the active profile.
pub open spec fn active_id(s: ClientView) -> Option<Seq<char>> {
    match s.active {
        Some(p) => Some(p.id@),
        None => None,
    }
}

/// The storage key of the active watch set.
pub open spec fn current_key(s: ClientView) -> Option<Seq<char>> {
    watch_key(s.policy, active_id(s))
}

/// The effect that writes the active watch set back, if it has a key.
pub open spec fn save_effects(s: ClientView) -> Seq<EffectView> {
    match current_key(s) {
        Some(k) => seq![EffectView::SaveWatched { key: k, paths: s.watched }],
        None => Seq::empty(),
    }
}

/// The effect that asks for the active watch set, if it has a key.
pub open spec fn load_effects(s: ClientView) -> Seq<EffectView> {
    match current_key(s) {
        Some(k) => seq![EffectView::LoadWatched { key: k }],
        None => Seq::empty(),
    }
}

/// The copy marker is on `path`.
pub open spec fn marked_copied(s: ClientView, path: Seq<char>) -> bool {
    match s.copied {
        Some(m) => m.0 == path,
        None => false,
    }
}

/// The token after `t`, wrapping to zero.
pub open spec fn next_token_after(t: u64) -> u64 {
    if t == u64::MAX {
        0
    } else {
        (t + 1) as u64
    }
}

/// The catalog replaces whatever was there; expansion keys stay as they are.
pub open spec fn on_library_loaded(s: ClientView, lib: Library) -> (ClientView, Seq<EffectView>) {
    (ClientView { library: Some(lib), loading_library: false, ..s }, Seq::empty())
}

/// Profile resolution: the remembered profile if listed (picker hidden), else the
/// first one, remembered from now on (picker shown), else none (picker shown). The
/// watch set of the resolved profile is then requested.
pub open spec fn on_profiles_loaded(s: ClientView, profiles: Seq<Profile>, last: Option<Seq<char>>) -> (
    ClientView,
    Seq<EffectView>,
) {
    let res = resolution_of(profiles, last);
    let active = match res {
        Resolution::Remembered(i) => Some(profiles[i as int]),
        Resolution::FirstAvailable => Some(profiles[0]),
        Resolution::NoProfile => None,
    };
    let t = ClientView {
        profiles: profiles,
        loading_profiles: false,
        active: active,
        picker_visible: !(res is Remembered),
        watched: Set::empty(),
        ..s
    };
    let remember = match res {
        Resolution::FirstAvailable => seq![EffectView::SaveActiveProfile { id: profiles[0].id@ }],
        _ => Seq::empty(),
    };
    (t, remember + load_effects(t))
}

/// A storage answer is taken only when it is for the key of the active watch set.
pub open spec fn on_watch_set_loaded(s: ClientView, key: Seq<char>, stored: Option<Set<Seq<char>>>) -> (
    ClientView,
    Seq<EffectView>,
) {
    if current_key(s) == Some(key) {
        (ClientView { watched: loaded_watch_set(stored), ..s }, Seq::empty())
    } else {
        (s, Seq::empty())
    }
}

/// A failed request stops both loading states and shows its message.
pub open spec fn on_load_failed(s: ClientView, msg: Seq<char>) -> (ClientView, Seq<EffectView>) {
    (
        ClientView { error: Some(msg), loading_library: false, loading_profiles: false, ..s },
        Seq::empty(),
    )
}

/// The search text is stored in lowercase.
pub open spec fn on_update_search(s: ClientView, q: Seq<char>) -> (ClientView, Seq<EffectView>) {
    (ClientView { nav: NavigationView { query: lower_of(q), ..s.nav }, ..s }, Seq::empty())
}

/// Flips whether a series is expanded.
pub open spec fn on_toggle_series(s: ClientView, name: Seq<char>) -> (ClientView, Seq<EffectView>) {
    (
        ClientView {
            nav: NavigationView {
                expanded_series: toggled(s.nav.expanded_series, name),
                ..s.nav
            },
            ..s
        },
        Seq::empty(),
    )
}

/// Flips whether a season is expanded.
pub open spec fn on_toggle_season(s: ClientView, name: Seq<char>, number: u32) -> (
    ClientView,
    Seq<EffectView>,
) {
    (
        ClientView {
            nav: NavigationView {
                expanded_seasons: toggled(s.nav.expanded_seasons, (name, number)),
                ..s.nav
            },
            ..s
        },
        Seq::empty(),
    )
}

/// Playing marks the path watched, saves, and opens the player on it.
pub open spec fn on_play(s: ClientView, path: Seq<char>, title: Seq<char>) -> (
    ClientView,
    Seq<EffectView>,
) {
    let t = ClientView { watched: s.watched.insert(path), playing: Some((path, title)), ..s };
    (t, save_effects(t))
}

/// Closing ends the playback session.
pub open spec fn on_close(s: ClientView) -> (ClientView, Seq<EffectView>) {
    (ClientView { playing: None, ..s }, Seq::empty())
}

/// With a clipboard: cancel the pending clear, copy the absolute direct URL, mark the
/// path and schedule the clear under a fresh token. Without one: nothing.
pub open spec fn on_copy_link(s: ClientView, path: Seq<char>) -> (ClientView, Seq<EffectView>) {
    if s.clipboard {
        let cancel = match s.copied {
            Some(m) => seq![EffectView::CancelClear { token: m.1 }],
            None => Seq::empty(),
        };
        (
            ClientView {
                copied: Some((path, s.next_token)),
                next_token: next_token_after(s.next_token),
                ..s
            },
            cancel + seq![
                EffectView::WriteClipboard { text: s.origin + direct_url_of(path) },
                EffectView::ScheduleClear { token: s.next_token, delay_ms: COPY_MARKER_MS },
            ],
        )
    } else {
        (s, Seq::empty())
    }
}

/// With a share dialog: share the absolute direct URL under the title. Without one: nothing.
pub open spec fn on_share_link(s: ClientView, path: Seq<char>, title: Seq<char>) -> (
    ClientView,
    Seq<EffectView>,
) {
    if s.share {
        (s, seq![EffectView::Share { title: title, url: s.origin + direct_url_of(path) }])
    } else {
        (s, Seq::empty())
    }
}

/// Flips the watched mark of a path and saves.
pub open spec fn on_toggle_watched(s: ClientView, path: Seq<char>) -> (ClientView, Seq<EffectView>) {
    let t = ClientView { watched: toggled(s.watched, path), ..s };
    (t, save_effects(t))
}

/// Switching profiles flushes the outgoing watch set, remembers the new profile,
/// hides the picker and requests the incoming watch set.
pub open spec fn on_select_profile(s: ClientView, p: Profile) -> (ClientView, Seq<EffectView>) {
    let t = ClientView { active: Some(p), picker_visible: false, watched: Set::empty(), ..s };
    (t, save_effects(s) + seq![EffectView::SaveActiveProfile { id: p.id@ }] + load_effects(t))
}

/// Shows the picker; the active profile is kept.
pub open spec fn on_show_profile_picker(s: ClientView) -> (ClientView, Seq<EffectView>) {
    (ClientView { picker_visible: true, ..s }, Seq::empty())
}

/// A timer clears the marker only if the marker is still the one it was set for.
pub open spec fn on_clear_copied(s: ClientView, token: u64) -> (ClientView, Seq<EffectView>) {
    match s.copied {
        Some(m) if m.1 == token => (ClientView { copied: None, ..s }, Seq::empty()),
        _ => (s, Seq::empty()),
    }
}

/// The next state and the effects of handling `e` in state `s`.
pub open spec fn step(s: ClientView, e: EventView) -> (ClientView, Seq<EffectView>) {
    match e {
        EventView::LibraryLoaded(l) => on_library_loaded(s, l),
        EventView::ProfilesLoaded(p, last) => on_profiles_loaded(s, p, last),
        EventView::WatchSetLoaded(k, stored) => on_watch_set_loaded(s, k, stored),
        EventView::LoadFailed(m) => on_load_failed(s, m),
        EventView::UpdateSearch(q) => on_update_search(s, q),
        EventView::ToggleSeries(n) => on_toggle_series(s, n),
        EventView::ToggleSeason(n, k) => on_toggle_season(s, n, k),
        EventView::Play(p, t) => on_play(s, p, t),
        EventView::Close => on_close(s),
        EventView::CopyLink(p) => on_copy_link(s, p),
        EventView::ShareLink(p, t) => on_share_link(s, p, t),
        EventView::ToggleWatched(p) => on_toggle_watched(s, p),
        EventView::SelectProfile(p) => on_select_profile(s, p),
        EventView::ShowProfilePicker => on_show_profile_picker(s),
        EventView::ClearCopied(t) => on_clear_copied(s, t),
    }
}

} // verus!

verus! {

/// The whole client state.
pub struct Client {
    library: Option<Library>,
    loading_library: bool,
    profiles: Vec<Profile>,
    loading_profiles: bool,
    error: Option<String>,
    active: Option<Profile>,
    picker_visible: bool,
    nav: NavigationState,
    watched: WatchSet,
    copied: Option<CopyMarker>,
    next_token: u64,
    playing: Option<PlaybackSession>,
    caps: Capabilities,
    policy: KeyPolicy,
    delivery: DeliveryMode,
}

impl View for Client {
    type V = ClientView;

    closed spec fn view(&self) -> ClientView {
        ClientView {
            library: self.library,
            loading_library: self.loading_library,
            profiles: self.profiles@,
            loading_profiles: self.loading_profiles,
            error: opt_text(self.error),
            active: self.active,
            picker_visible: self.picker_visible,
            nav: self.nav@,
            watched: self.watched@,
            copied: match self.copied {
                Some(m) => Some((m.path@, m.token)),
                None => None,
            },
            next_token: self.next_token,
            playing: match self.playing {
                Some(p) => Some((p.path@, p.title@)),
                None => None,
            },
            clipboard: self.caps.clipboard,
            share: self.caps.share,
            origin: self.caps.origin@,
            policy: self.policy,
            delivery: self.delivery,
        }
    }
}

impl Client {
    pub closed spec fn wf(&self) -> bool {
        self.nav.wf() && self.watched.wf()
    }

    /// A client that waits for the catalog and the profile list, with nothing
    /// expanded, nothing watched, nothing playing and the picker shown.
    pub fn new(caps: Capabilities, policy: KeyPolicy, delivery: DeliveryMode) -> (r: Client)
        ensures
            r.wf(),
            r@ == (ClientView {
                library: None,
                loading_library: true,
                profiles: Seq::empty(),
                loading_profiles: true,
                error: None,
                active: None,
                picker_visible: true,
                nav: r@.nav,
                watched: Set::empty(),
                copied: None,
                next_token: 0,
                playing: None,
                clipboard: caps.clipboard,
                share: caps.share,
                origin: caps.origin@,
                policy: policy,
                delivery: delivery,
            }),
            r@.nav.expanded_series == Set::<Seq<char>>::empty(),
            r@.nav.expanded_seasons == Set::<(Seq<char>, u32)>::empty(),
            r@.nav.query == Seq::<char>::empty(),
    {
        Client {
            library: None,
            loading_library: true,
            profiles: Vec::new(),
            loading_profiles: true,
            error: None,
            active: None,
            picker_visible: true,
            nav: NavigationState::new(),
            watched: TextSet::new(),
            copied: None,
            next_token: 0,
            playing: None,
            caps,
            policy,
            delivery,
        }
    }

    /// Appends the effect that writes the active watch set back, if it has a key.
    fn push_save(&self, effects: &mut Vec<Effect>)
        requires
            self.wf(),
        ensures
            effect_views(final(effects)@) == effect_views(old(effects)@) + save_effects(self@),
    {
        let key = watch_key_for(
            self.policy,
            match &self.active {
                Some(p) => Some(&p.id),
                None => None,
            },
        );
        match key {
            Some(k) => {
                let paths = self.watched.to_list();
                let ghost before = effects@;
                effects.push(Effect::SaveWatched { key: k, paths });
                assert(effect_views(effects@) =~= effect_views(before) + save_effects(self@));
            },
            None => {
                assert(effect_views(effects@) =~= effect_views(effects@) + save_effects(self@));
            },
        }
    }

    /// Appends the effect that asks for the active watch set, if it has a key.
    fn push_load(&self, effects: &mut Vec<Effect>)
        ensures
            effect_views(final(effects)@) == effect_views(old(effects)@) + load_effects(self@),
    {
        let key = watch_key_for(
            self.policy,
            match &self.active {
                Some(p) => Some(&p.id),
                None => None,
            },
        );
        match key {
            Some(k) => {
                let ghost before = effects@;
                effects.push(Effect::LoadWatched { key: k });
                assert(effect_views(effects@) =~= effect_views(before) + load_effects(self@));
            },
            None => {
                assert(effect_views(effects@) =~= effect_views(effects@) + load_effects(self@));
            },
        }
    }

    /// Installs the catalog.
    pub fn library_loaded(&mut self, library: Library) -> (r: Vec<Effect>)
        requires
            old(self).wf(),
        ensures
            final(self).wf(),
            (final(self)@, effect_views(r@)) == on_library_loaded(old(self)@, library),
    {
        self.library = Some(library);
        self.loading_library = false;
        let r: Vec<Effect> = Vec::new();
        assert(effect_views(r@) =~= Seq::<EffectView>::empty());
        r
    }

    /// Installs the profile list and resolves the active profile.
    pub fn profiles_loaded(&mut self, profiles: Vec<Profile>, last_id: Option<String>) -> (r: Vec<
        Effect,
    >)
        requires
            old(self).wf(),
        ensures
            final(self).wf(),
            (final(self)@, effect_views(r@)) == on_profiles_loaded(
                old(self)@,
                profiles@,
                opt_text(last_id),
            ),
    {
        let res = resolve_profile(&profiles, &last_id);
        proof {
            lemma_resolution_unique(profiles@, opt_text(last_id), res);
        }
        let mut r: Vec<Effect> = Vec::new();
        match res {
            Resolution::Remembered(i) => {
                self.active = Some(profiles[i].duplicate());
                self.picker_visible = false;
            },
            Resolution::FirstAvailable => {
                self.active = Some(profiles[0].duplicate());
                self.picker_visible = true;
                r.push(Effect::SaveActiveProfile { id: profiles[0].id.clone() });
            },
            Resolution::NoProfile => {
                self.active = None;
                self.picker_visible = true;
            },
        }
        self.profiles = profiles;
        self.loading_profiles = false;
        self.watched = TextSet::new();
        let ghost mid = r@;
        self.push_load(&mut r);
        proof {
            let res_v = resolution_of(self.profiles@, opt_text(last_id));
            let remember = match res_v {
                Resolution::FirstAvailable => seq![
                    EffectView::SaveActiveProfile { id: self.profiles@[0].id@ },
                ],
                _ => Seq::<EffectView>::empty(),
            };
            assert(effect_views(mid) =~= remember);
        }
        r
    }

    /// Takes a storage answer for the active watch set; answers for other keys are dropped.
    pub fn watch_set_loaded(&mut self, key: String, stored: Option<Vec<String>>) -> (r: Vec<Effect>)
        requires
            old(self).wf(),
        ensures
            final(self).wf(),
            (final(self)@, effect_views(r@)) == on_watch_set_loaded(
                old(self)@,
                key@,
                stored_set(stored),
            ),
    {
        let current = watch_key_for(
            self.policy,
            match &self.active {
                Some(p) => Some(&p.id),
                None => None,
            },
        );
        let take = match &current {
            Some(k) => *k == key,
            None => false,
        };
        if take {
            self.watched = load_watch_set(stored);
        }
        let r: Vec<Effect> = Vec::new();
        assert(effect_views(r@) =~= Seq::<EffectView>::empty());
        r
    }

    /// Records a failed request; the error view replaces the content.
    pub fn load_failed(&mut self, message: String) -> (r: Vec<Effect>)
        requires
            old(self).wf(),
        ensures
            final(self).wf(),
            (final(self)@, effect_views(r@)) == on_load_failed(old(self)@, message@),
    {
        self.error = Some(message);
        self.loading_library = false;
        self.loading_profiles = false;
        let r: Vec<Effect> = Vec::new();
        assert(effect_views(r@) =~= Seq::<EffectView>::empty());
        r
    }

    /// Stores the lowercase form of the search text.
    pub fn update_search(&mut self, query: String) -> (r: Vec<Effect>)
        requires
            old(self).wf(),
        ensures
            final(self).wf(),
            (final(self)@, effect_views(r@)) == on_update_search(old(self)@, query@),
    {
        self.nav.set_query(query.as_str());
        let r: Vec<Effect> = Vec::new();
        assert(effect_views(r@) =~= Seq::<EffectView>::empty());
        r
    }

    /// Expands or collapses a series.
    pub fn toggle_series(&mut self, name: String) -> (r: Vec<Effect>)
        requires
            old(self).wf(),
        ensures
            final(self).wf(),
            (final(self)@, effect_views(r@)) == on_toggle_series(old(self)@, name@),
    {
        self.nav.toggle_series(name);
        let r: Vec<Effect> = Vec::new();
        assert(effect_views(r@) =~= Seq::<EffectView>::empty());
        r
    }

    /// Expands or collapses a season.
    pub fn toggle_season(&mut self, name: String, number: u32) -> (r: Vec<Effect>)
        requires
            old(self).wf(),
        ensures
            final(self).wf(),
            (final(self)@, effect_views(r@)) == on_toggle_season(old(self)@, name@, number),
    {
        self.nav.toggle_season(name, number);
        let r: Vec<Effect> = Vec::new();
        assert(effect_views(r@) =~= Seq::<EffectView>::empty());
        r
    }

    /// Marks `path` watched, saves, and opens the player on it.
    pub fn play(&mut self, path: String, title: String) -> (r: Vec<Effect>)
        requires
            old(self).wf(),
        ensures
            final(self).wf(),
            (final(self)@, effect_views(r@)) == on_play(old(self)@, path@, title@),
    {
        self.watched.insert(path.clone());
        self.playing = Some(PlaybackSession { path, title });
        let mut r: Vec<Effect> = Vec::new();
        self.push_save(&mut r);
        r
    }

    /// Closes the player.
    pub fn close(&mut self) -> (r: Vec<Effect>)
        requires
            old(self).wf(),
        ensures
            final(self).wf(),
            (final(self)@, effect_views(r@)) == on_close(old(self)@),
    {
        self.playing = None;
        let r: Vec<Effect> = Vec::new();
        assert(effect_views(r@) =~= Seq::<EffectView>::empty());
        r
    }

    /// Copies the absolute link of `path` and marks it for a while.
    pub fn copy_link(&mut self, path: String) -> (r: Vec<Effect>)
        requires
            old(self).wf(),
        ensures
            final(self).wf(),
            (final(self)@, effect_views(r@)) == on_copy_link(old(self)@, path@),
    {
        let mut r: Vec<Effect> = Vec::new();
        if !self.caps.clipboard {
            assert(effect_views(r@) =~= Seq::<EffectView>::empty());
            return r;
        }
        if let Some(m) = &self.copied {
            r.push(Effect::CancelClear { token: m.token });
        }
        let url = direct_url(path.as_str());
        let text = join(self.caps.origin.as_str(), url.as_str());
        r.push(Effect::WriteClipboard { text });
        let token = self.next_token;
        r.push(Effect::ScheduleClear { token, delay_ms: COPY_MARKER_MS });
        self.copied = Some(CopyMarker { path, token });
        self.next_token = if token == u64::MAX {
            0
        } else {
            token + 1
        };
        proof {
            let s = old(self)@;
            let cancel = match s.copied {
                Some(m) => seq![EffectView::CancelClear { token: m.1 }],
                None => Seq::<EffectView>::empty(),
            };
            assert(effect_views(r@) =~= cancel + seq![
                EffectView::WriteClipboard { text: s.origin + direct_url_of(path@) },
                EffectView::ScheduleClear { token: s.next_token, delay_ms: COPY_MARKER_MS },
            ]);
        }
        r
    }

    /// Opens the native share dialog for `path`, if there is one.
    pub fn share_link(&mut self, path: String, title: String) -> (r: Vec<Effect>)
        requires
            old(self).wf(),
        ensures
            final(self).wf(),
            (final(self)@, effect_views(r@)) == on_share_link(old(self)@, path@, title@),
    {
        let mut r: Vec<Effect> = Vec::new();
        if self.caps.share {
            let url = direct_url(path.as_str());
            let full = join(self.caps.origin.as_str(), url.as_str());
            r.push(Effect::Share { title, url: full });
            assert(effect_views(r@) =~= on_share_link(old(self)@, path@, title@).1);
        } else {
            assert(effect_views(r@) =~= Seq::<EffectView>::empty());
        }
        r
    }

    /// Flips the watched mark of `path` and saves.
    pub fn toggle_watched(&mut self, path: String) -> (r: Vec<Effect>)
        requires
            old(self).wf(),
        ensures
            final(self).wf(),
            (final(self)@, effect_views(r@)) == on_toggle_watched(old(self)@, path@),
    {
        self.watched.toggle(path);
        let mut r: Vec<Effect> = Vec::new();
        self.push_save(&mut r);
        r
    }

    /// Flushes the outgoing watch set, switches to `profile` and requests its watch set.
    pub fn select_profile(&mut self, profile: Profile) -> (r: Vec<Effect>)
        requires
            old(self).wf(),
        ensures
            final(self).wf(),
            (final(self)@, effect_views(r@)) == on_select_profile(old(self)@, profile),
    {
        let mut r: Vec<Effect> = Vec::new();
        self.push_save(&mut r);
        let ghost flushed = r@;
        r.push(Effect::SaveActiveProfile { id: profile.id.clone() });
        let ghost remembered = r@;
        assert(effect_views(remembered) =~= effect_views(flushed) + seq![
            EffectView::SaveActiveProfile { id: profile.id@ },
        ]);
        self.active = Some(profile);
        self.picker_visible = false;
        self.watched = TextSet::new();
        self.push_load(&mut r);
        r
    }

    /// Shows the profile picker.
    pub fn show_profile_picker(&mut self) -> (r: Vec<Effect>)
        requires
            old(self).wf(),
        ensures
            final(self).wf(),
            (final(self)@, effect_views(r@)) == on_show_profile_picker(old(self)@),
    {
        self.picker_visible = true;
        let r: Vec<Effect> = Vec::new();
        assert(effect_views(r@) =~= Seq::<EffectView>::empty());
        r
    }

    /// Clears the copy marker if `token` is the token it was set with.
    pub fn clear_copied(&mut self, token: u64) -> (r: Vec<Effect>)
        requires
            old(self).wf(),
        ensures
            final(self).wf(),
            (final(self)@, effect_views(r@)) == on_clear_copied(old(self)@, token),
    {
        let current = match &self.copied {
            Some(m) => m.token == token,
            None => false,
        };
        if current {
            self.copied = None;
        }
        let r: Vec<Effect> = Vec::new();
        assert(effect_views(r@) =~= Seq::<EffectView>::empty());
        r
    }

    /// The catalog, once it has arrived.
    pub fn library(&self) -> (r: Option<&Library>)
        ensures
            match r {
                Some(l) => self@.library == Some(*l),
                None => self@.library is None,
            },
    {
        self.library.as_ref()
    }

    /// The profile list, once it has arrived.
    pub fn profiles(&self) -> (r: &Vec<Profile>)
        ensures
            r@ == self@.profiles,
    {
        &self.profiles
    }

    /// The active profile, if any.
    pub fn active_profile(&self) -> (r: Option<&Profile>)
        ensures
            match r {
                Some(p) => self@.active == Some(*p),
                None => self@.active is None,
            },
    {
        self.active.as_ref()
    }

    /// The message of the failed request, if one failed.
    pub fn error(&self) -> (r: Option<&String>)
        ensures
            match r {
                Some(m) => self@.error == Some(m@),
                None => self@.error is None,
            },
    {
        self.error.as_ref()
    }

    /// Whether the profile picker is shown instead of the catalog.
    pub fn picker_visible(&self) -> (r: bool)
        ensures
            r == self@.picker_visible,
    {
        self.picker_visible
    }

    /// Whether the catalog request is still pending.
    pub fn loading_library(&self) -> (r: bool)
        ensures
            r == self@.loading_library,
    {
        self.loading_library
    }

    /// Whether the profile request is still pending.
    pub fn loading_profiles(&self) -> (r: bool)
        ensures
            r == self@.loading_profiles,
    {
        self.loading_profiles
    }

    /// The navigation state.
    pub fn nav(&self) -> (r: &NavigationState)
        requires
            self.wf(),
        ensures
            r.wf(),
            r@ == self@.nav,
    {
        &self.nav
    }

    /// The active watch set.
    pub fn watched(&self) -> (r: &WatchSet)
        requires
            self.wf(),
        ensures
            r.wf(),
            r@ == self@.watched,
    {
        &self.watched
    }

    /// Whether the link of `path` carries the "copied" marker.
    pub fn is_copied(&self, path: &String) -> (r: bool)
        ensures
            r == marked_copied(self@, path@),
    {
        match &self.copied {
            Some(m) => m.path == *path,
            None => false,
        }
    }

    /// The video being played, if any.
    pub fn playing(&self) -> (r: Option<&PlaybackSession>)
        ensures
            match r {
                Some(p) => self@.playing == Some((p.path@, p.title@)),
                None => self@.playing is None,
            },
    {
        self.playing.as_ref()
    }

    /// How media is delivered.
    pub fn delivery(&self) -> (r: DeliveryMode)
        ensures
            r == self@.delivery,
    {
        self.delivery
    }

    /// Handles one event: the state moves on and the effects to carry out, in order,
    /// are returned.
    pub fn update(&mut self, event: Event) -> (r: Vec<Effect>)
        requires
            old(self).wf(),
        ensures
            final(self).wf(),
            (final(self)@, effect_views(r@)) == step(old(self)@, event@),
    {
        match event {
            Event::LibraryLoaded(l) => self.library_loaded(l),
            Event::ProfilesLoaded(p, last) => self.profiles_loaded(p, last),
            Event::WatchSetLoaded(k, stored) => self.watch_set_loaded(k, stored),
            Event::LoadFailed(m) => self.load_failed(m),
            Event::UpdateSearch(q) => self.update_search(q),
            Event::ToggleSeries(n) => self.toggle_series(n),
            Event::ToggleSeason(n, k) => self.toggle_season(n, k),
            Event::Play(p, t) => self.play(p, t),
            Event::Close => self.close(),
            Event::CopyLink(p) => self.copy_link(p),
            Event::ShareLink(p, t) => self.share_link(p, t),
            Event::ToggleWatched(p) => self.toggle_watched(p),
            Event::SelectProfile(p) => self.select_profile(p),
            Event::ShowProfilePicker => self.show_profile_picker(),
            Event::ClearCopied(t) => self.clear_copied(t),
        }
    }
}

} // verus!

verus! {

/// A key-value store after the watch-set writes among `effects`, in order.
pub open spec fn apply_saves(store: Map<Seq<char>, Set<Seq<char>>>, effects: Seq<EffectView>) -> Map<
    Seq<char>,
    Set<Seq<char>>,
>
    decreases effects.len(),
{
    if effects.len() == 0 {
        store
    } else {
        let before = apply_saves(store, effects.drop_last());
        match effects.last() {
            EffectView::SaveWatched { key, paths } => before.insert(key, paths),
            _ => before,
        }
    }
}

proof fn lemma_apply_concat(
    store: Map<Seq<char>, Set<Seq<char>>>,
    a: Seq<EffectView>,
    b: Seq<EffectView>,
)
    ensures
        apply_saves(store, a + b) == apply_saves(apply_saves(store, a), b),
    decreases b.len(),
{
    if b.len() == 0 {
        assert(a + b =~= a);
    } else {
        assert((a + b).drop_last() =~= a + b.drop_last());
        lemma_apply_concat(store, a, b.drop_last());
    }
}

proof fn lemma_apply_one(store: Map<Seq<char>, Set<Seq<char>>>, e: EffectView)
    ensures
        apply_saves(store, seq![e]) == match e {
            EffectView::SaveWatched { key, paths } => store.insert(key, paths),
            _ => store,
        },
{
    assert(seq![e].drop_last() =~= Seq::<EffectView>::empty());
    assert(seq![e].last() == e);
    assert(apply_saves(store, seq![e].drop_last()) == store);
}

proof fn lemma_apply_none(store: Map<Seq<char>, Set<Seq<char>>>)
    ensures
        apply_saves(store, Seq::<EffectView>::empty()) == store,
{
}

/// Writing back the active watch set and then loading its key restores it exactly.
pub proof fn law_save_then_load(s: ClientView, store: Map<Seq<char>, Set<Seq<char>>>)
    requires
        current_key(s) is Some,
    ensures
        ({
            let key = current_key(s)->0;
            let after = apply_saves(store, save_effects(s));
            &&& loaded_watch_set(read_key(after, key)) == s.watched
            &&& step(s, EventView::WatchSetLoaded(key, read_key(after, key))).0 == s
        }),
{
    let key = current_key(s)->0;
    lemma_apply_one(store, EffectView::SaveWatched { key: key, paths: s.watched });
    assert(ClientView { watched: s.watched, ..s } == s);
}

/// Playing a path always leaves it in the active watch set and opens the player on it.
pub proof fn law_play_marks_watched(s: ClientView, path: Seq<char>, title: Seq<char>)
    ensures
        step(s, EventView::Play(path, title)).0.watched.contains(path),
        step(s, EventView::Play(path, title)).0.playing == Some((path, title)),
{
}

/// Expanding and collapsing the same series (in either order) leaves the state as it was.
pub proof fn law_toggle_series_twice(s: ClientView, name: Seq<char>)
    ensures
        step(step(s, EventView::ToggleSeries(name)).0, EventView::ToggleSeries(name)).0 == s,
{
    crate::textset::law_toggle_twice(s.nav.expanded_series, name);
}

/// Switching from profile A to profile B and back to A, with every storage request
/// answered from one store, restores A's watch set exactly as it was.
pub proof fn law_switch_away_and_back(
    s: ClientView,
    b: Profile,
    store: Map<Seq<char>, Set<Seq<char>>>,
)
    requires
        s.active is Some,
    ensures
        ({
            let a = s.active->0;
            let (s1, e1) = step(s, EventView::SelectProfile(b));
            let st1 = apply_saves(store, e1);
            let kb = current_key(s1)->0;
            let (s2, e2) = step(s1, EventView::WatchSetLoaded(kb, read_key(st1, kb)));
            let st2 = apply_saves(st1, e2);
            let (s3, e3) = step(s2, EventView::SelectProfile(a));
            let st3 = apply_saves(st2, e3);
            let ka = current_key(s3)->0;
            let (s4, e4) = step(s3, EventView::WatchSetLoaded(ka, read_key(st3, ka)));
            &&& s4.active == s.active
            &&& s4.watched == s.watched
        }),
{
    let a = s.active->0;
    let ka = current_key(s)->0;
    let (s1, e1) = step(s, EventView::SelectProfile(b));
    let kb = current_key(s1)->0;
    let save_a = EffectView::SaveWatched { key: ka, paths: s.watched };
    let remember_b = EffectView::SaveActiveProfile { id: b.id@ };
    let load_b = EffectView::LoadWatched { key: kb };
    assert(e1 == seq![save_a] + seq![remember_b] + seq![load_b]);
    lemma_apply_concat(store, seq![save_a] + seq![remember_b], seq![load_b]);
    lemma_apply_concat(store, seq![save_a], seq![remember_b]);
    lemma_apply_one(store, save_a);
    lemma_apply_one(store.insert(ka, s.watched), remember_b);
    lemma_apply_one(store.insert(ka, s.watched), load_b);
    let st1 = apply_saves(store, e1);
    assert(st1 == store.insert(ka, s.watched));
    let (s2, e2) = step(s1, EventView::WatchSetLoaded(kb, read_key(st1, kb)));
    lemma_apply_none(st1);
    let wb = loaded_watch_set(read_key(st1, kb));
    assert(s2.watched == wb);
    let (s3, e3) = step(s2, EventView::SelectProfile(a));
    assert(current_key(s3) == Some(ka));
    let save_b = EffectView::SaveWatched { key: kb, paths: wb };
    let remember_a = EffectView::SaveActiveProfile { id: a.id@ };
    let load_a = EffectView::LoadWatched { key: ka };
    assert(e3 == seq![save_b] + seq![remember_a] + seq![load_a]);
    lemma_apply_concat(st1, seq![save_b] + seq![remember_a], seq![load_a]);
    lemma_apply_concat(st1, seq![save_b], seq![remember_a]);
    lemma_apply_one(st1, save_b);
    lemma_apply_one(st1.insert(kb, wb), remember_a);
    lemma_apply_one(st1.insert(kb, wb), load_a);
    let st3 = apply_saves(st1, e3);
    assert(st3 == st1.insert(kb, wb));
    assert(loaded_watch_set(read_key(st3, ka)) == s.watched);
}

/// The copy marker: a copy marks its path until the timer it scheduled fires; a second
/// copy before that cancels the first timer, marks the new path under a new token,
/// and the first timer, should it still fire, leaves the new marker alone.
pub proof fn law_copy_marker_supersedes(s: ClientView, p1: Seq<char>, p2: Seq<char>)
    requires
        s.clipboard,
    ensures
        ({
            let (s1, e1) = step(s, EventView::CopyLink(p1));
            let t1 = s.next_token;
            let (s2, e2) = step(s1, EventView::CopyLink(p2));
            let t2 = s1.next_token;
            &&& s1.copied == Some((p1, t1))
            &&& e1.last() == (EffectView::ScheduleClear { token: t1, delay_ms: COPY_MARKER_MS })
            &&& step(s1, EventView::ClearCopied(t1)).0.copied is None
            &&& s2.copied == Some((p2, t2))
            &&& t2 != t1
            &&& e2[0] == (EffectView::CancelClear { token: t1 })
            &&& e2.last() == (EffectView::ScheduleClear { token: t2, delay_ms: COPY_MARKER_MS })
            &&& step(s2, EventView::ClearCopied(t1)).0.copied == Some((p2, t2))
            &&& step(s2, EventView::ClearCopied(t2)).0.copied is None
        }),
{
}

} // verus!
