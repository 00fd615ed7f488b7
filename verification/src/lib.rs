//! Core of a terminal karaoke player: time-synchronized lyric lookup,
//! a FIFO song queue, a tick-driven playback orchestrator, and a focus
//! router for keyboard input, all over one shared application state.
//!
//! Network fetches, audio playback and terminal rendering live outside
//! this crate; the library works on plain values handed in from there.

pub mod action;
pub mod app;
pub mod cli;
pub mod components;
pub mod events;
pub mod lyrics;
pub mod parse;
pub mod providers;
pub mod search;
pub mod song;
pub mod state;
