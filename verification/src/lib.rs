//! A verified core for a playlist-import tool.
//!
//! The library models the interactive pipeline that lets a user pick one of
//! their streaming playlists and re-create its track list elsewhere: either
//! as entries of a record-marketplace collection folder, or as audio files
//! extracted from a video platform.
//!
//! All network traffic, terminal prompting and process launching live outside
//! this crate; the crate holds the decisions. Each menu level and each
//! importer is a state machine: the caller performs the single outside call
//! the machine asks for and reports the outcome back, and the machine's
//! contracts pin down every transition — in particular that a hard stop ends
//! a run before any per-track call, that a per-track failure never blocks the
//! following tracks, and that cancelling a menu ends the session silently.

pub mod discogs;
pub mod model;
pub mod navigator;
pub mod youtube;
