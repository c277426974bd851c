//! Supervision of a local backend service that a desktop shell starts as a
//! child process: configuration of the child, a single-slot registry for its
//! process handle, a readiness prober driven by clock and connection events,
//! the shutdown rule for the window-close event, and the bridge that hands the
//! service URL to the user interface.
//!
//! The library decides; it performs no I/O. Each component is a function from
//! state and event to next state and action, and the host carries the actions
//! out (spawning, connecting, sleeping, terminating, navigating).

pub mod bridge;
pub mod config;
pub mod error;
pub mod launcher;
pub mod lifecycle;
pub mod prober;
pub mod registry;
pub mod save;
pub mod shutdown;
pub mod text;
pub mod timeline;
