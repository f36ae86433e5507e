// A soundboard controller: independent playback channels, each toggled
// between idle and playing, with a generation counter that fences out the
// end-of-playback watchers of superseded sessions.
//
// channel:  the generic toggle state machine, its abstract model and laws
// playback: channels over rodio sessions on a shared output mixer
// board:    the set of channels, addressed by identifier
// paths:    clip locators inside the sound directory

pub mod board;
pub mod channel;
pub mod paths;
pub mod playback;
