//! The decisions of a Qobuz music player.
//!
//! * [`lastfm`], with [`requests`], [`signature`] and [`params`]: which
//!   requests go to Last.fm, and what the answers mean.
//! * [`scrobble`]: when a track is announced and when it is scrobbled.
//! * [`cli`]: what the command line asks for. The commands themselves are
//!   [`open`], [`config`] and [`devices`].
//! * [`sleep`]: when the computer is kept awake.

use vstd::prelude::*;

pub mod cli;
pub mod config;
pub mod devices;
pub mod error;
pub mod lastfm;
pub mod open;
pub mod params;
pub mod requests;
pub mod scrobble;
pub mod signature;
pub mod sleep;
pub mod text;

verus! {

/// The result of an operation of the player.
pub type AppResult<T, E = error::Error> = Result<T, E>;

/// What the player is doing.
#[derive(Debug, Clone, Copy, PartialEq, Eq, Structural)]
pub enum Status {
    Playing,
    Buffering,
    Paused,
}

impl Default for Status {
    fn default() -> (status: Status)
        ensures
            status == Status::Paused,
    {
        Status::Paused
    }
}

/// Something that the user is told.
#[derive(Debug, Clone, PartialEq)]
pub enum Notification {
    Error(String),
    Warning(String),
    Success(String),
    Info(String),
}

} // verus!
