//! Moderation core for level thumbnails: a role-gated submission gate, a
//! pending queue, a moderation decision engine and the active-thumbnail
//! resolver, over an in-memory record store and artifact store.
pub mod artifacts;
pub mod database;
pub mod imaging;
pub mod laws;
pub mod model;
pub mod service;
