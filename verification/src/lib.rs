//! Verified core of a small file browser that rips the audio track out of
//! video files.
//!
//! The crate holds no I/O. A host program reads directories, runs the
//! converter and draws the window; everything that is decided (which entries
//! of a directory are shown and in what order, what a message does to the
//! state, which command converts a file, what the window shows) is computed
//! here, with contracts that Verus proves.

pub mod controller;
pub mod converter;
pub mod paths;
pub mod scanner;
pub mod screen;
