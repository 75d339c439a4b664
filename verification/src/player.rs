//! The playback session: which track is current, whether it is paused, and
//! how long it has been playing.
//!
//! Time comes in from the caller, in milliseconds of a clock that does not
//! run backwards.  The session reads no clock of its own.

use vstd::prelude::*;
use vstd::seq_lib::to_multiset_len;
use crate::progress::Progress;
use crate::shuffle::shuffle;
use crate::sink::SinkCommand;
use crate::song::Song;
use crate::volume::{lower, lowered, raise, raised, step, step_of, FULL_VOLUME};

verus! {

/// The longest play time that is counted, in milliseconds.  Counting stops
/// there.
pub const LONGEST_PLAY_TIME: u64 = u64::MAX;

/// What the session shows of itself.
#[derive(Debug, PartialEq, Eq)]
pub struct PlayerState {
    /// The current track, a copy of the catalog's entry.
    pub song: Song,
    /// Play time of the current track that was counted up to the last
    /// pause, in milliseconds.
    pub play_time: u64,
    /// Place of the current track in the catalog.
    pub index: usize,
    /// Whether playback is held.
    pub paused: bool,
}

/// Why a session could not be made.
#[derive(Clone, Copy, Debug, PartialEq, Eq)]
pub enum PlayerError {
    /// The catalog holds no track.
    EmptyCatalog,
}

/// The session as a mathematical value.
pub struct PlayerModel {
    /// The tracks, in the order in which they are played.
    pub catalog: Seq<Song>,
    /// The session's copy of the current track.
    pub current: Song,
    /// Place of the current track in the catalog.
    pub index: nat,
    /// Whether playback is held.
    pub paused: bool,
    /// Play time counted up to the last pause.
    pub play_time: nat,
    /// When the run in progress started; read only while playing.
    pub run_start: nat,
    /// The volume, in hundredths of full volume.
    pub volume: nat,
}

/// `time`, held at the longest play time that is counted.
pub open spec fn counted(time: nat) -> nat {
    if time >= LONGEST_PLAY_TIME {
        LONGEST_PLAY_TIME as nat
    } else {
        time
    }
}

/// The place after `index` in a catalog of `len` tracks: the next one, or
/// the first after the last.
pub open spec fn next_index(index: nat, len: nat) -> nat {
    if index + 1 == len {
        0
    } else {
        index + 1
    }
}

impl PlayerModel {
    /// The invariant of a session: the current place lies in the catalog,
    /// the current track is the catalog's track at that place, the play
    /// time is one that is counted, and the volume is not above full
    /// volume.
    pub open spec fn valid(self) -> bool {
        &&& self.index < self.catalog.len()
        &&& self.current == self.catalog[self.index as int]
        &&& self.play_time <= LONGEST_PLAY_TIME
        &&& self.volume <= FULL_VOLUME
    }

    /// How long the run in progress has lasted at `now`.  A `now` before
    /// the start of the run counts as the start.
    pub open spec fn run_time(self, now: nat) -> nat {
        if now >= self.run_start {
            (now - self.run_start) as nat
        } else {
            0
        }
    }

    /// Play time of the current track at `now`: what was counted up to the
    /// last pause and, while playing, the run in progress.
    pub open spec fn elapsed(self, now: nat) -> nat {
        if self.paused {
            self.play_time
        } else {
            counted(self.play_time + self.run_time(now))
        }
    }

    /// The session after pause was toggled at `now`.  Pausing adds the run
    /// in progress to the play time; resuming starts a run at `now`.
    pub open spec fn toggled(self, now: nat) -> PlayerModel {
        if self.paused {
            PlayerModel { paused: false, run_start: now, ..self }
        } else {
            PlayerModel {
                paused: true,
                play_time: counted(self.play_time + self.run_time(now)),
                ..self
            }
        }
    }

    /// Whether the step from the last track to the first is due: the
    /// current track is the last of the catalog.
    pub open spec fn at_last_track(self) -> bool {
        self.index + 1 == self.catalog.len()
    }

    /// Whether `next` is the session after an advance at `now`.  The place
    /// moves on by one track.  From the last track it moves to the first
    /// and the catalog is shuffled: it then holds the same tracks in some
    /// order.  Otherwise the catalog is as it was.  The new track starts
    /// with no play time and a run that starts at `now`.
    pub open spec fn advanced(self, next: PlayerModel, now: nat) -> bool {
        &&& next.index == next_index(self.index, self.catalog.len())
        &&& next.catalog.len() == self.catalog.len()
        &&& if self.at_last_track() {
            next.catalog.to_multiset() == self.catalog.to_multiset()
        } else {
            next.catalog == self.catalog
        }
        &&& next.current == next.catalog[next.index as int]
        &&& next.play_time == 0
        &&& next.run_start == now
        &&& next.paused == self.paused
        &&& next.volume == self.volume
    }

    /// Whether `next` is the session after a skip at `now`: an advance
    /// that leaves the session playing.
    pub open spec fn skipped(self, next: PlayerModel, now: nat) -> bool {
        &&& self.advanced(PlayerModel { paused: self.paused, ..next }, now)
        &&& !next.paused
    }

    /// The session with the volume raised by one step.
    pub open spec fn louder(self, big_step: bool) -> PlayerModel {
        PlayerModel { volume: raised(self.volume, step_of(big_step)), ..self }
    }

    /// The session with the volume lowered by one step.
    pub open spec fn quieter(self, big_step: bool) -> PlayerModel {
        PlayerModel { volume: lowered(self.volume, step_of(big_step)), ..self }
    }
}

impl PlayerError {
    /// The error in words.
    pub fn message(&self) -> (text: &'static str)
        ensures
            text@ == "no playable tracks found"@,
    {
        match self {
            PlayerError::EmptyCatalog => "no playable tracks found",
        }
    }
}

/// A playback session over a catalog of tracks.
pub struct Player {
    state: PlayerState,
    song_selection: Vec<Song>,
    volume: u8,
    rng: rand::rngs::StdRng,
    start_instant: u64,
}

impl View for Player {
    type V = PlayerModel;

    closed spec fn view(&self) -> PlayerModel {
        PlayerModel {
            catalog: self.song_selection@,
            current: self.state.song,
            index: self.state.index as nat,
            paused: self.state.paused,
            play_time: self.state.play_time as nat,
            run_start: self.start_instant as nat,
            volume: self.volume as nat,
        }
    }
}

impl Player {
    /// Whether the session is well formed: its model is valid.
    pub open spec fn wf(&self) -> bool {
        self@.valid()
    }

    /// A session over `songs`, made at `now`, with `rng` to shuffle by.
    ///
    /// The catalog is shuffled and its first track becomes the current
    /// one.  The session starts paused, with no play time and at full
    /// volume.  The commands hold the sink and queue the first track.  A
    /// catalog without tracks gives no session.
    pub fn new(songs: Vec<Song>, rng: rand::rngs::StdRng, now: u64) -> (made: Result<
        (Player, Vec<SinkCommand>),
        PlayerError,
    >)
        ensures
            made is Err <==> songs@.len() == 0,
            made matches Err(e) ==> e == PlayerError::EmptyCatalog,
            made matches Ok((player, commands)) ==> {
                &&& player.wf()
                &&& player@.catalog.to_multiset() == songs@.to_multiset()
                &&& player@.catalog.len() == songs@.len()
                &&& player@.index == 0
                &&& player@.paused
                &&& player@.play_time == 0
                &&& player@.run_start == now
                &&& player@.volume == FULL_VOLUME
                &&& commands@ == seq![SinkCommand::Pause, SinkCommand::Append(player@.current.path)]
            },
    {
        if songs.len() == 0 {
            return Err(PlayerError::EmptyCatalog);
        }
        let mut songs = songs;
        let mut rng = rng;
        let ghost given = songs@;
        shuffle(&mut songs, &mut rng);
        proof {
            to_multiset_len(given);
            to_multiset_len(songs@);
        }
        let first = songs[0].clone();
        let state = PlayerState { song: first, play_time: 0, index: 0, paused: false };
        let mut player = Player {
            state,
            song_selection: songs,
            volume: FULL_VOLUME,
            rng,
            start_instant: now,
        };
        let mut commands = player.pause(now);
        let queue = player.add_to_queue(player.state.song.clone());
        commands.push(queue);
        Ok((player, commands))
    }

    /// What the session shows of itself.
    pub fn state(&self) -> (state: &PlayerState)
        ensures
            state.song == self@.current,
            state.play_time == self@.play_time,
            state.index == self@.index,
            state.paused == self@.paused,
    {
        &self.state
    }

    /// The catalog, in the order in which it is played.
    pub fn song_selection(&self) -> (songs: &Vec<Song>)
        ensures
            songs@ == self@.catalog,
    {
        &self.song_selection
    }

    /// The volume, in hundredths of full volume.
    pub fn volume(&self) -> (volume: u8)
        ensures
            volume == self@.volume,
    {
        self.volume
    }

    /// The command that queues `song` on the sink.
    pub fn add_to_queue(&self, song: Song) -> (command: SinkCommand)
        ensures
            command == SinkCommand::Append(song.path),
    {
        SinkCommand::Append(song.path)
    }

    /// Advances to the next track at `now` and hands back the command that
    /// queues it.  After the last track the catalog is shuffled and the
    /// first track follows.
    pub fn next_song(&mut self, now: u64) -> (command: SinkCommand)
        requires
            old(self).wf(),
        ensures
            final(self).wf(),
            old(self)@.advanced(final(self)@, now as nat),
            command == SinkCommand::Append(final(self)@.current.path),
    {
        let ghost before = self.song_selection@;
        let len = self.song_selection.len();
        let mut index = self.state.index + 1;
        if index == len {
            index = 0;
            shuffle(&mut self.song_selection, &mut self.rng);
            proof {
                to_multiset_len(before);
                to_multiset_len(self.song_selection@);
            }
        }
        let next = self.song_selection[index].clone();
        let command = self.add_to_queue(next.clone());
        self.state.index = index;
        self.state.play_time = 0;
        self.start_instant = now;
        self.state.song = next;
        command
    }

    /// Skips to the next track at `now`.  The commands drop what is queued,
    /// queue the next track and play: a skip ends a pause.
    pub fn skip_song(&mut self, now: u64) -> (commands: Vec<SinkCommand>)
        requires
            old(self).wf(),
        ensures
            final(self).wf(),
            old(self)@.skipped(final(self)@, now as nat),
            final(self)@.elapsed(now as nat) == 0,
            commands@ == seq![
                SinkCommand::Clear,
                SinkCommand::Append(final(self)@.current.path),
                SinkCommand::Play,
            ],
    {
        let mut commands: Vec<SinkCommand> = Vec::new();
        commands.push(SinkCommand::Clear);
        let queue = self.next_song(now);
        commands.push(queue);
        commands.push(SinkCommand::Play);
        self.state.paused = false;
        commands
    }

    /// Toggles pause at `now`.  Pausing adds the run in progress to the
    /// play time and holds the sink; resuming starts a run at `now` and
    /// lets the sink play.
    pub fn pause(&mut self, now: u64) -> (commands: Vec<SinkCommand>)
        requires
            old(self).wf(),
        ensures
            final(self).wf(),
            final(self)@ == old(self)@.toggled(now as nat),
            commands@ == seq![
                if old(self)@.paused {
                    SinkCommand::Play
                } else {
                    SinkCommand::Pause
                },
            ],
    {
        let mut commands: Vec<SinkCommand> = Vec::new();
        self.state.paused = !self.state.paused;
        if self.state.paused {
            commands.push(SinkCommand::Pause);
            let run = now.saturating_sub(self.start_instant);
            self.state.play_time = self.state.play_time.saturating_add(run);
        } else {
            commands.push(SinkCommand::Play);
            self.start_instant = now;
        }
        commands
    }

    /// The periodic check at `now`, with the number of sources that the
    /// sink still holds.  An empty sink means that the current track has
    /// ended, whatever the reason: the session advances.  Otherwise nothing
    /// changes and nothing is to be done.
    pub fn update(&mut self, queue_len: usize, now: u64) -> (commands: Vec<SinkCommand>)
        requires
            old(self).wf(),
        ensures
            final(self).wf(),
            queue_len == 0 ==> old(self)@.advanced(final(self)@, now as nat) && commands@
                == seq![SinkCommand::Append(final(self)@.current.path)],
            queue_len != 0 ==> final(self)@ == old(self)@ && commands@ == Seq::<
                SinkCommand,
            >::empty(),
    {
        let mut commands: Vec<SinkCommand> = Vec::new();
        if queue_len == 0 {
            let queue = self.next_song(now);
            commands.push(queue);
        }
        commands
    }

    /// Play time of the current track at `now`, beside its length.
    pub fn get_song_progress(&self, now: u64) -> (progress: Progress)
        ensures
            progress.elapsed == self@.elapsed(now as nat),
            progress.duration == self@.current.duration,
    {
        let elapsed = if !self.state.paused {
            let run = now.saturating_sub(self.start_instant);
            self.state.play_time.saturating_add(run)
        } else {
            self.state.play_time
        };
        Progress { elapsed, duration: self.state.song.duration }
    }

    /// Raises the volume by one step, a big one if asked, and hands back
    /// the command that sets it on the sink.
    pub fn volume_up(&mut self, big_step: bool) -> (commands: Vec<SinkCommand>)
        requires
            old(self).wf(),
        ensures
            final(self).wf(),
            final(self)@ == old(self)@.louder(big_step),
            commands@ == seq![SinkCommand::SetVolume(final(self)@.volume as u8)],
    {
        self.volume = raise(self.volume, step(big_step));
        let mut commands: Vec<SinkCommand> = Vec::new();
        commands.push(SinkCommand::SetVolume(self.volume));
        commands
    }

    /// Lowers the volume by one step, a big one if asked, and hands back
    /// the command that sets it on the sink.
    pub fn volume_down(&mut self, big_step: bool) -> (commands: Vec<SinkCommand>)
        requires
            old(self).wf(),
        ensures
            final(self).wf(),
            final(self)@ == old(self)@.quieter(big_step),
            commands@ == seq![SinkCommand::SetVolume(final(self)@.volume as u8)],
    {
        self.volume = lower(self.volume, step(big_step));
        let mut commands: Vec<SinkCommand> = Vec::new();
        commands.push(SinkCommand::SetVolume(self.volume));
        commands
    }
}

} // verus!
