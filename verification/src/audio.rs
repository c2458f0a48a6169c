use vstd::prelude::*;
use crate::actions::Actions;

verus! {

/// Which of the two looped audio channels should be playing this tick; the
/// mixer that acts on it is an outside collaborator.
#[derive(Clone, Copy, Debug, PartialEq, Eq)]
pub struct AudioCue {
    pub shooting_playing: bool,
    pub walking_playing: bool,
}

/// Decide the audio channels from the intent: the shooting loop plays
/// exactly while fire is held, the walking loop exactly while a movement
/// intent is present.
pub fn control_shooting_sound(actions: &Actions) -> (cue: AudioCue)
    ensures
        cue.shooting_playing == actions.trigger_pressed,
        cue.walking_playing == (actions.player_movement is Some),
{
    AudioCue {
        shooting_playing: actions.trigger_pressed,
        walking_playing: actions.player_movement.is_some(),
    }
}

} // verus!
