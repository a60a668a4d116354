//! Layered program configuration: built-in defaults, overridden by optional
//! `.myprog.json` files found in a fixed list of directories, overridden in
//! turn by command-line flags.
//!
//! The library decides; the program around it reads files and arguments.
pub mod configuration;
pub mod global;
pub mod lemmas;
