//! Sound-event intents emitted by the physics system.
//!
//! The simulation only names the event; the audio collaborator outside this
//! crate owns synthesis and playback, and a lost event never affects
//! gameplay.

use vstd::prelude::*;

verus! {

/// One discrete collision sound: `Beep` for paddle 1, `Boop` for paddle 2.
#[derive(Clone, Copy, Debug, PartialEq, Eq, Structural)]
pub enum SoundEvent {
    Beep,
    Boop,
}

} // verus!
