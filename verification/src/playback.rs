//! The playback control decisions: pure functions from the sink's state to
//! the action to perform on it, kept apart from the device that performs it.

use vstd::prelude::*;

verus! {

/// What to do to the audio sink.
#[derive(Debug, Clone, Copy, PartialEq, Eq, Structural)]
pub enum PlaybackAction {
    Pause,
    Resume,
}

/// What one press of the pause control does: a playing sink pauses, a
/// paused one resumes. The boolean handed back to the interface says
/// whether the sink is paused after the action.
pub fn pause_toggle(is_paused: bool) -> (r: (PlaybackAction, bool))
    ensures
        is_paused ==> r.0 is Resume && r.1 == false,
        !is_paused ==> r.0 is Pause && r.1 == true,
{
    if is_paused {
        (PlaybackAction::Resume, false)
    } else {
        (PlaybackAction::Pause, true)
    }
}

} // verus!
