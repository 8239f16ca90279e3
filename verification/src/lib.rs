//! The playback state of an audio player that several front ends share: the
//! queue of tracks, the backend's status, the notifications that keep the
//! front ends in step, and the single writer that owns them all.
pub mod catalog;
pub mod credentials;
pub mod models;
pub mod notification;
pub mod player;
pub mod state;
pub mod text;
pub mod tracklist;
pub mod walk;
pub mod web;
