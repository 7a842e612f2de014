//! A metronome beat player.
//!
//! A beat pattern is written down with a character per beat. The player turns it into a bar
//! of samples in which every beat takes up the same time, and has an audio stream loop over
//! that bar. While the stream runs, the position in the bar says which beat is sounding.

pub mod bar;
pub mod double;
pub mod laws;
pub mod laws_of_bars;
pub mod laws_of_playing;
pub mod laws_of_settings;
pub mod laws_of_text;
pub mod pattern;
pub mod player;
pub mod signal;
pub mod stream;
pub mod text;
pub mod tracker;
