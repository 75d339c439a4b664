//! Playback session logic of a terminal music player.
//!
//! The crate holds the decisions of the player: which files of a directory
//! are tracks, which track is current, how play time is accounted while the
//! session is paused and resumed, how far the current track has progressed,
//! and which key triggers which command.  Reading directories, decoding
//! audio and drawing the terminal are left to the program around it.

pub mod catalog;
pub mod file_name;
pub mod song;
pub mod shuffle;
pub mod sink;
pub mod progress;
pub mod volume;
pub mod player;
pub mod interaction;
pub mod laws;

pub use catalog::{get_song_selection, is_audio_file, FoundFile};
pub use interaction::{App, Command, Key, KeyPress};
pub use player::{Player, PlayerError, PlayerState};
pub use progress::Progress;
pub use sink::SinkCommand;
pub use song::Song;
