//! A stale-while-revalidate cache coordinator for short-lived launcher
//! processes, with the query descriptions and result items of a GitHub
//! repository launcher built on top of it.
//!
//! The library decides; its caller performs. Every operation that touches the
//! file system, the clock, the network or another process is described by an
//! action value, carried out by the embedding program, and answered with an
//! event value.

pub mod cache;
pub mod entry;
pub mod fingerprint;
pub mod github;
pub mod listing;
pub mod logger;
pub mod race;
pub mod refresh;
pub mod repository;
pub mod store;
pub mod time;
