//! The interaction loop: which key gives which command, when a key is
//! accepted, and when the periodic check is due.
//!
//! A key is passed over while the last accepted key lies less than
//! [`DEBOUNCE`] back.  The first key is accepted whenever it comes.
//!
//! The loop itself runs outside this crate.  It draws, waits for a key for
//! as long as [`App::poll_timeout`] says, hands an arriving key to
//! [`App::on_key`], calls [`App::on_tick`], carries out the commands that
//! come back, and ends when [`App::should_quit`] says so.

use vstd::prelude::*;
use crate::player::{Player, PlayerModel};
use crate::sink::SinkCommand;

verus! {

/// How long after an accepted key further keys are passed over, in
/// milliseconds.
pub const DEBOUNCE: u64 = 250;

/// A key, as far as the player tells keys apart.
#[derive(Clone, Copy, Debug, PartialEq, Eq)]
pub enum Key {
    /// A key that gives a character.
    Char(char),
    /// The right arrow.
    Right,
    /// The up arrow.
    Up,
    /// The down arrow.
    Down,
    /// Any other key.
    Other,
}

/// A key that was pressed.
#[derive(Clone, Copy, Debug, PartialEq, Eq)]
pub struct KeyPress {
    /// The key.
    pub key: Key,
    /// Whether shift, and nothing but shift, was held with it.
    pub shift: bool,
}

/// What a key asks of the player.
#[derive(Clone, Copy, Debug, PartialEq, Eq)]
pub enum Command {
    /// Pause, or resume.
    TogglePause,
    /// Leave the player.
    Quit,
    /// Go to the next track.
    Skip,
    /// Raise the volume.
    VolumeUp { big_step: bool },
    /// Lower the volume.
    VolumeDown { big_step: bool },
}

/// The command bound to a key: space toggles pause, `q` quits, `d` and the
/// right arrow skip, `w` and the up arrow raise the volume, `s` and the
/// down arrow lower it.  With shift held the volume moves by a big step.
/// Other keys are bound to nothing.
pub open spec fn command_of(press: KeyPress) -> Option<Command> {
    match press.key {
        Key::Char(c) => if c == ' ' {
            Some(Command::TogglePause)
        } else if c == 'q' {
            Some(Command::Quit)
        } else if c == 'd' {
            Some(Command::Skip)
        } else if c == 'w' {
            Some(Command::VolumeUp { big_step: press.shift })
        } else if c == 's' {
            Some(Command::VolumeDown { big_step: press.shift })
        } else {
            None
        },
        Key::Right => Some(Command::Skip),
        Key::Up => Some(Command::VolumeUp { big_step: press.shift }),
        Key::Down => Some(Command::VolumeDown { big_step: press.shift }),
        Key::Other => None,
    }
}

/// The command bound to a key.
pub fn command_for(press: KeyPress) -> (command: Option<Command>)
    ensures
        command == command_of(press),
{
    match press.key {
        Key::Char(c) => if c == ' ' {
            Some(Command::TogglePause)
        } else if c == 'q' {
            Some(Command::Quit)
        } else if c == 'd' {
            Some(Command::Skip)
        } else if c == 'w' {
            Some(Command::VolumeUp { big_step: press.shift })
        } else if c == 's' {
            Some(Command::VolumeDown { big_step: press.shift })
        } else {
            None
        },
        Key::Right => Some(Command::Skip),
        Key::Up => Some(Command::VolumeUp { big_step: press.shift }),
        Key::Down => Some(Command::VolumeDown { big_step: press.shift }),
        Key::Other => None,
    }
}

/// The time from `then` to `now`; none where `now` is the earlier.
pub open spec fn since(then: nat, now: nat) -> nat {
    if now >= then {
        (now - then) as nat
    } else {
        0
    }
}

/// Whether `after` is the session that `command` at `now` makes of
/// `before`.
pub open spec fn commanded(
    before: PlayerModel,
    after: PlayerModel,
    command: Command,
    now: nat,
) -> bool {
    match command {
        Command::TogglePause => after == before.toggled(now),
        Command::Quit => after == before,
        Command::Skip => before.skipped(after, now),
        Command::VolumeUp { big_step } => after == before.louder(big_step),
        Command::VolumeDown { big_step } => after == before.quieter(big_step),
    }
}

/// What the sink is to do for `command`, which made `after` of `before`.
pub open spec fn sink_commands(before: PlayerModel, after: PlayerModel, command: Command) -> Seq<
    SinkCommand,
> {
    match command {
        Command::TogglePause => seq![
            if before.paused {
                SinkCommand::Play
            } else {
                SinkCommand::Pause
            },
        ],
        Command::Quit => Seq::empty(),
        Command::Skip => seq![
            SinkCommand::Clear,
            SinkCommand::Append(after.current.path),
            SinkCommand::Play,
        ],
        Command::VolumeUp { big_step } => seq![SinkCommand::SetVolume(after.volume as u8)],
        Command::VolumeDown { big_step } => seq![SinkCommand::SetVolume(after.volume as u8)],
    }
}

/// The loop's state as a mathematical value.
pub struct AppModel {
    /// The session.
    pub player: PlayerModel,
    /// Time between two periodic checks.
    pub tick_rate: nat,
    /// When the last periodic check was made.
    pub last_tick: nat,
    /// When the last key was accepted; `None` until one was.
    pub last_key: Option<nat>,
    /// Whether quit was asked for.
    pub should_quit: bool,
}

impl AppModel {
    /// Whether a key that arrives at `now` is accepted: no key was
    /// accepted yet, or the last accepted key lies far enough back.
    pub open spec fn accepts_key(self, now: nat) -> bool {
        match self.last_key {
            Some(last) => since(last, now) >= DEBOUNCE,
            None => true,
        }
    }

    /// Whether the periodic check is due at `now`.
    pub open spec fn tick_due(self, now: nat) -> bool {
        since(self.last_tick, now) >= self.tick_rate
    }

    /// How long the loop may wait for a key at `now`: until the periodic
    /// check is due.
    pub open spec fn timeout(self, now: nat) -> nat {
        if self.tick_due(now) {
            0
        } else {
            (self.tick_rate - since(self.last_tick, now)) as nat
        }
    }

    /// Whether `next` is the state after `press` arrived at `now`.  A key
    /// that is not accepted changes nothing.  An accepted key is noted,
    /// and its command, if it has one, is carried out.
    pub open spec fn after_key(self, next: AppModel, press: KeyPress, now: nat) -> bool {
        if !self.accepts_key(now) {
            next == self
        } else {
            &&& next.tick_rate == self.tick_rate
            &&& next.last_tick == self.last_tick
            &&& next.last_key == Some(now)
            &&& match command_of(press) {
                Some(command) => {
                    &&& commanded(self.player, next.player, command, now)
                    &&& next.should_quit == (self.should_quit || command == Command::Quit)
                },
                None => next.player == self.player && next.should_quit == self.should_quit,
            }
        }
    }

    /// What the sink is to do after `press` arrived at `now` and made
    /// `next` of this state.
    pub open spec fn key_commands(self, next: AppModel, press: KeyPress, now: nat) -> Seq<
        SinkCommand,
    > {
        if !self.accepts_key(now) {
            Seq::empty()
        } else {
            match command_of(press) {
                Some(command) => sink_commands(self.player, next.player, command),
                None => Seq::empty(),
            }
        }
    }

    /// Whether `next` is the state after the loop looked at the clock at
    /// `now`, the sink holding `queue_len` sources.  Where the periodic
    /// check is due it is made, an empty sink advancing the session, and
    /// noted; otherwise nothing changes.
    pub open spec fn after_tick(self, next: AppModel, queue_len: nat, now: nat) -> bool {
        if !self.tick_due(now) {
            next == self
        } else {
            &&& next.tick_rate == self.tick_rate
            &&& next.last_tick == now
            &&& next.last_key == self.last_key
            &&& next.should_quit == self.should_quit
            &&& if queue_len == 0 {
                self.player.advanced(next.player, now)
            } else {
                next.player == self.player
            }
        }
    }

    /// What the sink is to do after a look at the clock at `now` that made
    /// `next` of this state.
    pub open spec fn tick_commands(self, next: AppModel, queue_len: nat, now: nat) -> Seq<
        SinkCommand,
    > {
        if self.tick_due(now) && queue_len == 0 {
            seq![SinkCommand::Append(next.player.current.path)]
        } else {
            Seq::empty()
        }
    }
}

/// The player with the state of its interaction loop.
pub struct App {
    player: Player,
    tick_rate: u64,
    last_tick: u64,
    last_down: Option<u64>,
    should_quit: bool,
}

impl View for App {
    type V = AppModel;

    closed spec fn view(&self) -> AppModel {
        AppModel {
            player: self.player@,
            tick_rate: self.tick_rate as nat,
            last_tick: self.last_tick as nat,
            last_key: match self.last_down {
                Some(last) => Some(last as nat),
                None => None,
            },
            should_quit: self.should_quit,
        }
    }
}

impl App {
    /// Whether the state is well formed: its session is.
    pub open spec fn wf(&self) -> bool {
        self@.player.valid()
    }

    /// The loop's state at its start at `now`, with a periodic check every
    /// `tick_rate` milliseconds.  The start counts as a check.  No key
    /// has been accepted yet, so the first key will be, whenever it comes.
    pub fn new(player: Player, tick_rate: u64, now: u64) -> (app: App)
        requires
            player.wf(),
        ensures
            app.wf(),
            app@ == (AppModel {
                player: player@,
                tick_rate: tick_rate as nat,
                last_tick: now as nat,
                last_key: None,
                should_quit: false,
            }),
    {
        App { player, tick_rate, last_tick: now, last_down: None, should_quit: false }
    }

    /// The session.
    pub fn player(&self) -> (player: &Player)
        ensures
            player@ == self@.player,
    {
        &self.player
    }

    /// Whether quit was asked for.
    pub fn should_quit(&self) -> (quit: bool)
        ensures
            quit == self@.should_quit,
    {
        self.should_quit
    }

    /// How long the loop may wait for a key at `now`, in milliseconds.
    pub fn poll_timeout(&self, now: u64) -> (timeout: u64)
        ensures
            timeout == self@.timeout(now as nat),
    {
        self.tick_rate.saturating_sub(now.saturating_sub(self.last_tick))
    }

    /// Takes the key that arrived at `now` and hands back what the sink is
    /// to do.
    pub fn on_key(&mut self, press: KeyPress, now: u64) -> (commands: Vec<SinkCommand>)
        requires
            old(self).wf(),
        ensures
            final(self).wf(),
            old(self)@.after_key(final(self)@, press, now as nat),
            commands@ == old(self)@.key_commands(final(self)@, press, now as nat),
    {
        if let Some(last) = self.last_down {
            if now.saturating_sub(last) < DEBOUNCE {
                return Vec::new();
            }
        }
        self.last_down = Some(now);
        match command_for(press) {
            Some(Command::TogglePause) => self.player.pause(now),
            Some(Command::Quit) => {
                self.should_quit = true;
                Vec::new()
            },
            Some(Command::Skip) => self.player.skip_song(now),
            Some(Command::VolumeUp { big_step }) => self.player.volume_up(big_step),
            Some(Command::VolumeDown { big_step }) => self.player.volume_down(big_step),
            None => Vec::new(),
        }
    }

    /// Looks at the clock at `now`, the sink holding `queue_len` sources,
    /// and hands back what the sink is to do.
    pub fn on_tick(&mut self, queue_len: usize, now: u64) -> (commands: Vec<SinkCommand>)
        requires
            old(self).wf(),
        ensures
            final(self).wf(),
            old(self)@.after_tick(final(self)@, queue_len as nat, now as nat),
            commands@ == old(self)@.tick_commands(final(self)@, queue_len as nat, now as nat),
    {
        if now.saturating_sub(self.last_tick) < self.tick_rate {
            return Vec::new();
        }
        let commands = self.tick(queue_len, now);
        self.last_tick = now;
        commands
    }

    /// The periodic check: the session's own.
    fn tick(&mut self, queue_len: usize, now: u64) -> (commands: Vec<SinkCommand>)
        requires
            old(self).wf(),
        ensures
            final(self).wf(),
            final(self)@.tick_rate == old(self)@.tick_rate,
            final(self)@.last_tick == old(self)@.last_tick,
            final(self)@.last_key == old(self)@.last_key,
            final(self)@.should_quit == old(self)@.should_quit,
            queue_len == 0 ==> old(self)@.player.advanced(final(self)@.player, now as nat)
                && commands@ == seq![SinkCommand::Append(final(self)@.player.current.path)],
            queue_len != 0 ==> final(self)@.player == old(self)@.player && commands@ == Seq::<
                SinkCommand,
            >::empty(),
    {
        self.player.update(queue_len, now)
    }
}

} // verus!
