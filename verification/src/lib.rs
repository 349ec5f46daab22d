//! Session controller for a UCI chess engine front end.
//!
//! The crate holds the decisions of the controller: how a command line is
//! split and classified, how the position follows a move list, how much of
//! the remaining clock one search may spend, and how the session keeps track
//! of the search that is under way. Reading lines, running the search and
//! printing its answer are left to the program around it.

pub mod command;
pub mod placement;
pub mod position;
pub mod session;
pub mod text;
pub mod timecontrol;
