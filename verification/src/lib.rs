//! Row-level change tracking for SQLite: the boundary between an application
//! and the engine's session extension.
//!
//! A [`Session`] records the changes made to the tables attached to it and
//! exports them as a changeset or a patchset; [`apply_changeset`] and
//! [`apply_patchset`] replay such a diff on another connection and ask a
//! conflict handler what to do where the two disagree. The engine itself is
//! reached through closures that the caller hands in, one for each entry
//! point.

pub mod apply;
pub mod codes;
pub mod errors;
pub mod session;
pub mod text;

pub use apply::{apply_changeset, apply_patchset, conflict_callback, ConflictContext};
pub use errors::{ApplyError, ConflictAction, ConflictType, SessionError, SqliteErrorCode};
pub use session::{DiffForm, RawExport, Session};
