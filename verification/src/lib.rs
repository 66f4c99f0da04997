//! Multi-surface layout compositor for a three-surface desktop shell window.
//!
//! The window hosts three web-rendering surfaces — a custom title bar, the
//! primary content surface, and an auxiliary "ask" input strip.  This crate
//! holds the verified core: the pure geometry engine that places the three
//! surfaces, the registry of last-applied geometry, the download-redirect
//! slot, and the window-lifecycle state machine.  The host toolkit (window
//! and webview creation, event delivery, filesystem queries) sits outside
//! and drives these components with plain values.

pub mod coordinator;
pub mod download;
pub mod geometry;
pub mod registry;
