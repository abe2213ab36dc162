//! Decision logic of a small Windows installer for the `sugar` command-line tool.
//!
//! The library decides where the executable goes, whether the user's persisted
//! `PATH` value needs the installation directory appended, and in which order
//! the outside work (environment lookup, directory checks, download, file
//! write, registry update, broadcast) happens. The outside work itself is done
//! by the caller, which feeds each result back as an [`installer::Event`].
pub mod paths;
pub mod registration;
pub mod installer;
pub mod runs;
