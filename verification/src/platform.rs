//! The platform capability interface: everything in which the supported
//! platforms differ, selected once at process start and passed in explicitly.

use vstd::prelude::*;

verus! {

/// A target platform, as far as this tool's behaviour depends on it.
#[derive(Debug, Clone, Copy, PartialEq, Eq, Structural)]
pub enum Platform {
    /// Executables are recognised by their filename suffix; paths use a
    /// backslash; the file manager is Explorer.
    Windows,
    /// The file manager is Finder.
    MacOs,
    /// No file-manager command is configured.
    Linux,
}

impl Platform {
    /// Whether this platform identifies executables by a filename suffix,
    /// so that an aliased link must keep the source's extension.
    pub fn has_extension_semantics(&self) -> (b: bool)
        ensures
            b == (*self == Platform::Windows),
    {
        match self {
            Platform::Windows => true,
            _ => false,
        }
    }

    /// The byte separating path components on this platform.
    pub fn separator(&self) -> (b: u8)
        ensures
            *self == Platform::Windows ==> b == 92,
            *self != Platform::Windows ==> b == 47,
    {
        match self {
            Platform::Windows => 92,
            _ => 47,
        }
    }

    /// The command that opens a directory in this platform's file manager,
    /// when one is configured.
    pub fn file_manager_command(&self) -> (r: Option<&'static str>)
        ensures
            match *self {
                Platform::Windows => r matches Some(c) && c@ == "explorer"@,
                Platform::MacOs => r matches Some(c) && c@ == "open"@,
                Platform::Linux => r is None,
            },
    {
        match self {
            Platform::Windows => Some("explorer"),
            Platform::MacOs => Some("open"),
            Platform::Linux => None,
        }
    }
}

/// The help line describing the subcommand that opens the host directory in
/// the platform's file manager.
pub fn about_msg(p: &Platform) -> (r: &'static str)
    ensures
        match *p {
            Platform::Windows => r@ == "Opens the host directory in Explorer"@,
            Platform::MacOs => r@ == "Opens the host directory in Finder"@,
            Platform::Linux => r@ == "Not implemented for your system"@,
        },
{
    match p {
        Platform::Windows => "Opens the host directory in Explorer",
        Platform::MacOs => "Opens the host directory in Finder",
        Platform::Linux => "Not implemented for your system",
    }
}

} // verus!
