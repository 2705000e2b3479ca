//! Client-side state model of a media catalog browser: the catalog snapshot,
//! text search over it, expand/collapse navigation, per-profile watch state,
//! profile resolution, playback URLs, the transient "link copied" marker, and
//! a reducer that ties them together as `(state, event) -> (state, effects)`.
pub mod catalog;
pub mod client;
pub mod navigation;
pub mod playback;
pub mod profile;
pub mod render;
pub mod search;
pub mod text;
pub mod textset;
pub mod watch;
