//! Operating-system identification for Windows hosts: the distributor, the
//! product description, the release and the codename, rendered as text in
//! one of a few fixed formats chosen by a command-line flag.
//!
//! The library does no input or output of its own. Its caller fetches the
//! four registry values named in [`retrieve`], hands them over together
//! with the command line, and writes what [`program::run`] returns: the text
//! for each of the two streams and the exit status.

pub mod identity;
pub mod mode;
pub mod program;
pub mod render;
pub mod retrieve;
