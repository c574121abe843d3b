//! When the player of an alarm's sound is started and stopped.
//!
//! Starting and stopping the player is the caller's part. This module says
//! when, and with what command line.

use vstd::prelude::*;
use std::path::PathBuf;
use crate::event_loop::AppEvent;

verus! {

/// The command line of the player for a sound file.
#[derive(Debug)]
pub struct AudioCommand {
    /// The program to run.
    pub program: &'static str,
    /// The options in front of the sound file.
    pub options: Vec<&'static str>,
    /// The sound file, the last argument.
    pub soundfile: PathBuf,
}

/// What to do with the player.
#[derive(Debug)]
pub enum AudioAction {
    /// Start the player with this sound file.
    Start(PathBuf),
    /// Stop the player and wait for its end.
    Stop,
    /// Leave the player as it is.
    Nothing,
}

/// What an event asks of the player. `playing` says whether the player
/// runs. A ring with a sound file starts the player unless it runs: a
/// second alarm does not play over the first. An acknowledgement stops the
/// player if it runs. Nothing else touches it.
pub open spec fn audio_action(playing: bool, event: AppEvent) -> AudioAction {
    match event {
        AppEvent::Ring(alarm) => match alarm.soundfile {
            Some(soundfile) => if playing {
                AudioAction::Nothing
            } else {
                AudioAction::Start(soundfile)
            },
            None => AudioAction::Nothing,
        },
        AppEvent::Ack => if playing {
            AudioAction::Stop
        } else {
            AudioAction::Nothing
        },
        _ => AudioAction::Nothing,
    }
}

/// The command line of the player for `soundfile`: `mpv` without a
/// terminal and without video.
pub fn make_audio_command(soundfile: PathBuf) -> (command: AudioCommand)
    ensures
        command.program@ == "/usr/bin/mpv"@,
        command.options@.len() == 2,
        command.options@[0]@ == "--no-terminal"@,
        command.options@[1]@ == "--no-video"@,
        command.soundfile == soundfile,
{
    let mut options: Vec<&'static str> = Vec::new();
    options.push("--no-terminal");
    options.push("--no-video");
    AudioCommand { program: "/usr/bin/mpv", options, soundfile }
}

/// What an event asks of the player.
pub fn audio_step(playing: bool, event: &AppEvent) -> (action: AudioAction)
    ensures
        action == audio_action(playing, *event),
{
    match event {
        AppEvent::Ring(alarm) => match &alarm.soundfile {
            Some(soundfile) => if playing {
                AudioAction::Nothing
            } else {
                AudioAction::Start(soundfile.clone())
            },
            None => AudioAction::Nothing,
        },
        AppEvent::Ack => if playing {
            AudioAction::Stop
        } else {
            AudioAction::Nothing
        },
        _ => AudioAction::Nothing,
    }
}

} // verus!
