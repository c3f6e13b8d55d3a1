//! Window geometry and background event coordinator for a small
//! always-on-top desktop widget.
//!
//! The library holds the logic that has real invariants: the aspect-locked
//! resize state machine with its re-entrancy guard, corner-anchored window
//! positioning, prefix-based tray-menu routing, the persisted flag store,
//! the update-download session, and the supervised key-hook retry loop.
//! The host window, tray and updater are external collaborators; callers
//! feed their observations in as plain values and carry the returned
//! directives back out.

pub mod events;
pub mod geometry;
pub mod router;
pub mod settings;
pub mod strutil;
pub mod update;
pub mod watcher;
