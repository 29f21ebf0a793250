//! Input-handling core of a terminal media browser.
//!
//! Raw keyboard events become transitions of a single shared UI state
//! record; every transition reports whether observers must be woken and
//! which collaborator action (playback, shutdown) it requests.
pub mod handlers;
pub mod navigation;
pub mod rotation;
pub mod query;
pub mod state;
