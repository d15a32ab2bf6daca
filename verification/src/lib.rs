//! Helpers for a cargo build step.
//!
//! A [`Build`] session resolves the build's output directory once, at
//! construction, from the value the build orchestrator supplies; it can then
//! place generated files under that directory and register filesystem paths
//! as rebuild triggers.  A trigger registration is one line of the form
//! `cargo:rerun-if-changed=<path>` on the build step's standard output, and
//! cargo requires the path in it to be valid UTF-8 text, so paths cross this
//! library as raw bytes and are checked before anything is emitted.
//!
//! Every failure is an explicit [`BuildError`] value; reading the
//! environment and writing files are left to the thin unverified shell
//! around the library.

pub mod builder;
pub mod encoding;
pub mod errors;

pub use builder::Build;
pub use builder::rerun_directive;
pub use encoding::is_valid_utf8;
pub use encoding::utf8_cargo_path;
pub use errors::BuildError;
