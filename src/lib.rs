//! Command-line path arguments where a lone hyphen (`-`) stands for a
//! standard stream.
//!
//! An argument is kept as the raw bytes of its platform text, so that
//! tokens that are not valid UTF-8 are classified and handed back
//! unchanged. [`InputArg`] names a source to read from and [`OutputArg`] a
//! destination to write to.

pub mod input;
pub mod model;
pub mod output;
pub mod platform;

pub use input::InputArg;
pub use output::OutputArg;
