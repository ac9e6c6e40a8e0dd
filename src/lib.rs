//! Relays CI workflow-run events into a chat channel: webhook authentication,
//! run correlation, commit caching and message composition.

pub mod text;
pub mod duration;
pub mod error;
pub mod signature;
pub mod ttl_map;
pub mod cache;
pub mod config;
pub mod summary;
pub mod compose;
pub mod event;
pub mod dispatch;
pub mod notification;
