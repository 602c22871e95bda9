//! Persistence core of a note-taking workspace.
//!
//! A workspace is a directory that holds note files under `notes/`, an asset
//! folder and a JSON index of the note tree. This crate decides what is to be
//! read, renamed and written, and under which names; it touches no file
//! itself. A driver performs each request and reports what happened.

pub mod text;
pub mod names;
pub mod slug;
pub mod rename;
pub mod error;
pub mod location;
pub mod save;
pub mod content;
pub mod platform;
pub mod plan;
pub mod setup;
pub mod state;
pub mod sequence;

pub use content::{Config, ContentItem, WorkspaceContent};
pub use error::StateError;
pub use location::Location;
pub use save::{SaveFile, SaveReply, SaveRequest};
pub use state::State;
