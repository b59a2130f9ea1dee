//! Core logic for an electronic-paper display's rendering configuration.
//!
//! A flat set of user-facing toggles is decoded into a hierarchy of
//! mutually-exclusive hardware modes, and a reconciliation pass computes the
//! hardware property writes and UI-visibility updates needed to reach the
//! desired state while leaving unrelated hardware fields untouched.
//!
//! The library is pure: it consumes snapshots (the flat UI state, the
//! hardware's cached render hint) and produces a plan of writes. Transport of
//! those reads and writes (process invocation, sockets) lives outside.

pub mod codec;
pub mod config;
pub mod mappers;
pub mod mode;
pub mod reconcile;
pub mod requests;
pub mod windows;
