//! Bridging core of a media-player overlay shown on a compositor surface:
//! double-buffered render targets, translation of overlay input events into
//! UI events, player-list and metadata caching, media controls and the
//! per-frame decisions of the main loop.
pub mod controls;
pub mod frame;
pub mod input;
pub mod players;
pub mod render;
