//! A track of the catalog.

use vstd::prelude::*;
use crate::file_name::{display_name, display_name_of};

verus! {

/// A playable track.  It does not change once it is made.
#[derive(Debug, PartialEq, Eq)]
pub struct Song {
    /// Length of the audio, in milliseconds.
    pub duration: u64,
    /// Name under which the track is shown.
    pub name: String,
    /// Path of the audio file.
    pub path: String,
}

/// What a [`Song`] holds, as plain values.
pub struct SongView {
    pub duration: nat,
    pub name: Seq<char>,
    pub path: Seq<char>,
}

impl View for Song {
    type V = SongView;

    open spec fn view(&self) -> SongView {
        SongView { duration: self.duration as nat, name: self.name@, path: self.path@ }
    }
}

/// The track that stands for the audio file at `path`, `duration`
/// milliseconds long.
pub open spec fn song_of(path: Seq<char>, duration: nat) -> SongView {
    SongView { duration, name: display_name_of(path), path }
}

/// The views of `songs`, in order.
pub open spec fn song_views(songs: Seq<Song>) -> Seq<SongView> {
    songs.map_values(|s: Song| s@)
}

impl Song {
    /// The track for the audio file at `path`, whose metadata gave a
    /// length of `duration` milliseconds.  The name shown is taken from the
    /// file name.
    pub fn from_path(path: String, duration: u64) -> (song: Song)
        ensures
            song@ == song_of(path@, duration as nat),
    {
        let name = display_name(path.as_str());
        Song { duration, name, path }
    }
}

impl Clone for Song {
    fn clone(&self) -> (copy: Song)
        ensures
            copy == *self,
    {
        Song { duration: self.duration, name: self.name.clone(), path: self.path.clone() }
    }
}

} // verus!
