//! Core of a minimal reparenting window manager.
//!
//! The library holds the verified state of the manager: the table of managed
//! windows (child window to decorating frame), the interactive drag state
//! machine, the fault policy with its single-owner handshake, and the
//! geometry arithmetic behind interactive move and resize.  Everything that
//! talks to the display server lives outside the library and feeds plain
//! values in; every decision the manager makes is taken here, under contract.

pub mod clients;
pub mod config;
pub mod drag;
pub mod errors;
pub mod faults;
pub mod geom;
pub mod startup;
pub mod strings;
pub mod wm;
