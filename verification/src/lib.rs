//! Backend-independent event normalization.
//!
//! The library converts raw window/input events, as a native windowing
//! backend reports them, into one stable canonical event vocabulary, so that
//! application logic never depends on the backend's own event types.
//!
//! - [`events`] holds the canonical model: key identities, key/mouse/window
//!   events, the modifier-state value, and the [`events::NazarustEvents`]
//!   union that dispatch consumes.
//! - [`raw`] holds the library's view of one raw backend event, reduced to
//!   the plain values that normalization reads.
//! - [`keymap`] is the closed table from backend key codes to canonical key
//!   identities.
//! - [`normalize`] projects modifier snapshots and maps each raw event to
//!   exactly one canonical event, totally and deterministically.

pub mod events;
pub mod keymap;
pub mod normalize;
pub mod raw;
