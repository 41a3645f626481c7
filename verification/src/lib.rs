//! Attachment and rendering engine for a terminal session manager.
//!
//! The crate holds the verified core: the cell-grid model of a terminal
//! screen, the differential renderer that turns two grids into a minimal
//! byte stream, the key encoder, the scrollback unifier, pane layout
//! arithmetic, and the attach/detach state machine.  The surrounding
//! process (PTY ownership, terminal I/O, event polling) lives outside the
//! library and exchanges plain values with it.

pub mod archive;
pub mod config;
pub mod dispatch;
pub mod encode;
pub mod fuzzy;
pub mod grid;
pub mod layout;
pub mod render;
pub mod schedule;
pub mod scrollback;
pub mod selection;
pub mod session;
pub mod sessions;
pub mod shellinit;
pub mod strutil;
pub mod text;
pub mod timefmt;
pub mod tree;
