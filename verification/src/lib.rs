//! Core logic of the Doppler terminal music player: the song and playlist
//! catalogue, the play queue, synced lyrics, and the text shown in the UI.
pub mod cli;
pub mod dlib;
pub mod error;
pub mod text;
pub mod tui;
pub mod util;
