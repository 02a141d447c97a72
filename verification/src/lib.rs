//! Rich-presence core for a Jellyfin media server.
//!
//! The crate selects the session to display, evaluates the blacklist,
//! renders the activity text from user templates, manages the image-URL
//! cache, and drives the connection state machine.  All I/O (HTTP, IPC,
//! files, clocks) is performed by the caller, which hands plain values to
//! the verified functions in this crate.

pub mod jellyfin;
pub mod text;
pub mod sanitize;
pub mod sanitize_laws;
pub mod cache;
pub mod error;
pub mod client;
pub mod config;
pub mod content;
pub mod presence;

pub use jellyfin::{Button, MediaType, PlayTime, PlayState, RawSession, Session, VirtualFolder};
pub use client::{Activity, ActivityKind, Client, ClientBuilder, DisplayFormat, EpisodeDisplayOptions};
pub use error::JfError;
