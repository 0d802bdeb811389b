//! Verified core of a desktop shell's "player view" command.
//!
//! The shell owns a set of open windows, each known by a unique label. One
//! command asks for a second window, the player view, and does nothing when
//! that window is already open. This crate holds the command's decisions and
//! a model of the window set against which its behaviour is proved; the
//! windowing runtime itself is driven by the application around it.

pub mod bootstrap;
pub mod command;
pub mod laws;
pub mod registry;
pub mod window;
