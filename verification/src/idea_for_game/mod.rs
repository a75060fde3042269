//! A data driven design for fighting game characters: their stats, their states and
//! frame data, and the per-frame bookkeeping of a character in a match.

pub mod character_stats;
pub mod game;
