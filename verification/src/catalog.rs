//! The catalog: which entries of a directory are tracks.

use vstd::prelude::*;
use vstd::string::StringExecFns;
use crate::file_name::{extension_of, file_name_of, has_extension, SEPARATOR};
use crate::song::{song_of, song_views, Song, SongView};

verus! {

/// The extension of the audio files that the player takes.  It is compared
/// as it is written: `MP3` is another extension.
pub const AUDIO_EXTENSION: &'static str = "mp3";

/// An entry of the scanned directory.
#[derive(Debug, PartialEq, Eq)]
pub struct FoundFile {
    /// File name of the entry, without the directory.
    pub file_name: String,
    /// Length of its audio in milliseconds, or `None` where its metadata
    /// was not read or could not be read.
    pub duration: Option<u64>,
}

/// The path of the entry `file_name` of the directory `dir`.
pub open spec fn entry_path(dir: Seq<char>, file_name: Seq<char>) -> Seq<char> {
    dir.push(SEPARATOR) + file_name
}

/// Whether an entry called `file_name` is a candidate track: its extension
/// is the audio extension, letter for letter.
pub open spec fn is_candidate(file_name: Seq<char>) -> bool {
    extension_of(file_name_of(file_name)) == Some(AUDIO_EXTENSION@)
}

/// The track that `entry` of the directory `dir` gives, if it gives one: it
/// must be a candidate whose metadata was read.
pub open spec fn track_of(dir: Seq<char>, entry: FoundFile) -> Option<SongView> {
    if is_candidate(entry.file_name@) && entry.duration is Some {
        Some(song_of(entry_path(dir, entry.file_name@), entry.duration->0 as nat))
    } else {
        None
    }
}

/// The tracks that `entries` of the directory `dir` give, in the order of
/// the entries.
pub open spec fn selection_of(dir: Seq<char>, entries: Seq<FoundFile>) -> Seq<SongView>
    decreases entries.len(),
{
    if entries.len() == 0 {
        Seq::empty()
    } else {
        let before = selection_of(dir, entries.drop_last());
        match track_of(dir, entries.last()) {
            Some(song) => before.push(song),
            None => before,
        }
    }
}

/// Whether a directory entry called `file_name` is a candidate track.  The
/// caller reads the metadata of candidates only.
pub fn is_audio_file(file_name: &str) -> (b: bool)
    ensures
        b == is_candidate(file_name@),
{
    has_extension(file_name, AUDIO_EXTENSION)
}

/// The path of the entry `file_name` of the directory `dir_path`.
pub fn join_path(dir_path: &str, file_name: &str) -> (path: String)
    ensures
        path@ == entry_path(dir_path@, file_name@),
{
    let mut path = String::from_str(dir_path);
    path.push(SEPARATOR);
    path.append(file_name);
    path
}

/// The catalog of the directory `dir_path`, whose entries are `entries` in
/// the order in which the file system listed them.  An entry becomes a
/// track if it is a candidate and its metadata was read; every other entry
/// is passed over.
pub fn get_song_selection(dir_path: &str, entries: &Vec<FoundFile>) -> (songs: Vec<Song>)
    ensures
        song_views(songs@) == selection_of(dir_path@, entries@),
{
    let mut songs: Vec<Song> = Vec::new();
    let mut i: usize = 0;
    assert(entries@.take(0) == Seq::<FoundFile>::empty());
    while i < entries.len()
        invariant
            i <= entries.len(),
            song_views(songs@) == selection_of(dir_path@, entries@.take(i as int)),
        decreases entries.len() - i,
    {
        let entry = &entries[i];
        let ghost before = songs@;
        assert(entries@.take(i + 1).drop_last() == entries@.take(i as int));
        assert(entries@.take(i + 1).last() == *entry);
        if is_audio_file(entry.file_name.as_str()) {
            if let Some(duration) = entry.duration {
                let path = join_path(dir_path, entry.file_name.as_str());
                let song = Song::from_path(path, duration);
                songs.push(song);
                assert(song_views(songs@) == song_views(before).push(song@));
            }
        }
        i = i + 1;
    }
    assert(entries@.take(entries.len() as int) == entries@);
    songs
}

} // verus!
