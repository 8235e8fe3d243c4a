//! Verified core of a small music-listening backend: the data shaping,
//! caching and ordering rules that sit between an upstream music-provider
//! API and three read-only HTTP endpoints.

pub mod cache;
pub mod config;
pub mod error;
pub mod model;
pub mod playing;
pub mod recent;
pub mod router;
pub mod shape;
