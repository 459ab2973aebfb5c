//! The use-case layer: one struct per operation, each owning the store and
//! event-stream state it drives.

pub mod auth;
pub mod posts;
pub mod reactions;
