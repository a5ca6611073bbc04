//! A safe, verified access layer for the audio-voice mixer and the
//! multi-controller input poller of a game-console style embedded platform.
//!
//! The library models the configuration, lifecycle and marshalling decisions
//! of both services as plain data with contracts; the raw hardware calls
//! themselves live outside the library, behind the narrow call surface that
//! these types encode.

pub mod asnd;
pub mod pad;
