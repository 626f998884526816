//! Core of a status-bar program for an X11 desktop: thin dock panels pinned
//! to the edges of one or more monitors.
//!
//! The library holds the parts with real invariants, all of them verified:
//! the geometry resolver that turns a monitor, an edge and a thickness into
//! the window rectangle; the per-bar lifecycle state machine (suspended or
//! active, with its live OS window and render surface); the window router
//! that maps OS window identifiers to bar identifiers; and the decision
//! logic of the event loop. Talking to the display server, the GPU and the
//! configuration file is left to the surrounding program, which feeds this
//! library plain values and carries out the actions it decides on.

pub mod backend;
pub mod bar;
pub mod config;
pub mod error;
pub mod geometry;
pub mod manager;
