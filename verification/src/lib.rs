//! Playback logic for a command-line FLAC player.
//!
//! The crate decides; it never touches a sound device. A caller owns the
//! device, performs each [`session::Action`] that a [`player::Player`] hands
//! out and reports back what happened as a [`session::Event`].

pub mod block;
pub mod cli;
pub mod decoder;
pub mod device;
pub mod error;
pub mod format;
pub mod playback;
pub mod player;
pub mod session;
