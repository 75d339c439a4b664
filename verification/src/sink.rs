//! Commands for the audio sink.
//!
//! The sink is the device that plays queued audio.  The session does not
//! hold it: each operation hands back the commands that its caller is to
//! carry out on the sink, in order.

use vstd::prelude::*;

verus! {

/// One command for the audio sink.
#[derive(Debug, PartialEq, Eq)]
pub enum SinkCommand {
    /// Queue the audio file at this path behind what is queued.
    Append(String),
    /// Drop everything that is queued.
    Clear,
    /// Play, or go on playing, what is queued.
    Play,
    /// Hold playback where it is.
    Pause,
    /// Set the volume to this many hundredths of full volume.
    SetVolume(u8),
}

impl Clone for SinkCommand {
    fn clone(&self) -> (copy: SinkCommand)
        ensures
            copy == *self,
    {
        match self {
            SinkCommand::Append(path) => SinkCommand::Append(path.clone()),
            SinkCommand::Clear => SinkCommand::Clear,
            SinkCommand::Play => SinkCommand::Play,
            SinkCommand::Pause => SinkCommand::Pause,
            SinkCommand::SetVolume(volume) => SinkCommand::SetVolume(*volume),
        }
    }
}

} // verus!
