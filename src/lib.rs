//! Observes a media player and keeps a snapshot of what it is playing.
//!
//! The library holds the decisions: how tags read from a media file become a
//! flat map of text, and how one poll of the player updates the track state.
//! Talking to the player, reading files and printing are left to the caller.
pub mod metadata;
pub mod tags;
pub mod track;
