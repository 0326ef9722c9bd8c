use vstd::prelude::*;

verus! {

/// Why loading the configuration failed.
#[derive(PartialEq, Eq, Structural, Clone, Copy, Debug)]
pub enum ConfigError {
    /// The host has no per-user configuration directory.
    DirectoryUnresolvable,
    /// The configuration file exists but could not be read.
    Unreadable,
    /// The configuration file could not be parsed.
    Malformed,
    /// The default configuration file could not be created.
    WriteFailed,
}

impl ConfigError {
    /// A short description of the failure, for diagnostics.
    pub fn message(&self) -> (r: &'static str)
        ensures
            r@ == match self {
                ConfigError::DirectoryUnresolvable => "failed to resolve configuration directory"@,
                ConfigError::Unreadable => "failed to load configuration file"@,
                ConfigError::Malformed => "failed to parse configuration file"@,
                ConfigError::WriteFailed => "failed to write default configuration file"@,
            },
    {
        match self {
            ConfigError::DirectoryUnresolvable => "failed to resolve configuration directory",
            ConfigError::Unreadable => "failed to load configuration file",
            ConfigError::Malformed => "failed to parse configuration file",
            ConfigError::WriteFailed => "failed to write default configuration file",
        }
    }
}

} // verus!
