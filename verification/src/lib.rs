//! Verified core of a small set of command-line utilities: a filesystem-change
//! watcher (event-mask translation, watch registry, recursive enumeration
//! planning, and the read/decode/print loop policy), together with the pure
//! text-processing logic of a file concatenator, a line echoer with escape
//! interpretation, and an identity formatter.
//!
//! All operating-system interaction (stat, directory listing, the
//! change-notification channel, identity lookups) happens outside this
//! library; the functions here take those results as plain values and are
//! verified for every value the system could hand back.

pub mod cat;
pub mod echo;
pub mod enumerate;
pub mod errors;
pub mod event_loop;
pub mod id;
pub mod mask;
pub mod numfmt;
pub mod registry;
pub mod session;
