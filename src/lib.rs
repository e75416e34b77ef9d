//! Embeds a manifest that sets the active code page of a Windows executable
//! to UTF-8.
//!
//! The library holds everything that is decided rather than done: the
//! manifest document and its serialization, the checks each subcommand makes
//! before it touches a file, and the command lines handed to the manifest
//! tool. Running the tool and touching the file system is left to the caller.

pub mod checks;
pub mod manifest;
pub mod tool;
pub mod xml;
