//! The error taxonomy of the watcher session.
//!
//! `Configuration` is fatal before any watch is created; `PathUnavailable` and
//! `WatchCreation` are per-path, reported and skipped; `Enumeration` and
//! `ChannelRead` abort the whole run.

use vstd::prelude::*;

verus! {

#[derive(Debug)]
pub enum WatchError {
    /// An event-filter token is not in the recognized set.
    Configuration { token: String },
    /// A root path could not be queried for metadata.
    PathUnavailable { path: String },
    /// The notification facility refused to create a watch for one path.
    WatchCreation { path: String },
    /// A directory's contents could not be listed during recursion.
    Enumeration { path: String },
    /// The blocking read against the notification channel failed.
    ChannelRead,
}

/// The human-readable message for each error, as the watcher prints it.
pub open spec fn message_spec(e: WatchError) -> Seq<char> {
    match e {
        WatchError::Configuration { token } => "unknown event type: "@ + token@,
        WatchError::PathUnavailable { path } => "error when getting metadata of "@ + path@,
        WatchError::WatchCreation { path } => "failed to add inotify watch for "@ + path@,
        WatchError::Enumeration { path } => "error when reading directory "@ + path@,
        WatchError::ChannelRead => "failed to read inotify event"@,
    }
}

/// True exactly for the errors that end the run.
pub open spec fn is_fatal_spec(e: WatchError) -> bool {
    match e {
        WatchError::Configuration { .. } => true,
        WatchError::PathUnavailable { .. } => false,
        WatchError::WatchCreation { .. } => false,
        WatchError::Enumeration { .. } => true,
        WatchError::ChannelRead => true,
    }
}

impl WatchError {
    pub fn message(&self) -> (r: String)
        ensures
            r@ == message_spec(*self),
    {
        match self {
            WatchError::Configuration { token } => {
                let mut m = String::from_str("unknown event type: ");
                m.append(token.as_str());
                m
            },
            WatchError::PathUnavailable { path } => {
                let mut m = String::from_str("error when getting metadata of ");
                m.append(path.as_str());
                m
            },
            WatchError::WatchCreation { path } => {
                let mut m = String::from_str("failed to add inotify watch for ");
                m.append(path.as_str());
                m
            },
            WatchError::Enumeration { path } => {
                let mut m = String::from_str("error when reading directory ");
                m.append(path.as_str());
                m
            },
            WatchError::ChannelRead => String::from_str("failed to read inotify event"),
        }
    }

    pub fn is_fatal(&self) -> (r: bool)
        ensures
            r == is_fatal_spec(*self),
    {
        match self {
            WatchError::Configuration { .. } => true,
            WatchError::PathUnavailable { .. } => false,
            WatchError::WatchCreation { .. } => false,
            WatchError::Enumeration { .. } => true,
            WatchError::ChannelRead => true,
        }
    }
}

} // verus!
