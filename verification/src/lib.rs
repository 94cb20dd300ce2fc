//! A presence canary: a fixed-capacity, most-recent-first history of
//! liveness pings, an authenticated ingestion decision, and the rendering
//! of a human-readable status page.

pub mod auth;
pub mod clock;
pub mod digits;
pub mod render;
pub mod store;
