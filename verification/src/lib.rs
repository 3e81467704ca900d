//! Decision logic of a directional-audio radar: the channel and direction
//! vocabulary, audio source state reporting, PCM buffer framing, source
//! routing and the overlay window modes.

pub mod text;
pub mod types;
pub mod runtime;
pub mod source;
pub mod capture;
pub mod window_modes;
pub mod platform;
