//! A small library behind a symlink-installing command-line tool.
//!
//! The executable shell around it resolves paths, creates links and talks to
//! the terminal; everything that decides something — how an alias is
//! reconciled with the source's extension, which link name is used, whether
//! an occupied destination may be overwritten, which outcome and exit code an
//! invocation ends with — lives here and is verified.

pub mod error;
pub mod install;
pub mod names;
pub mod platform;
