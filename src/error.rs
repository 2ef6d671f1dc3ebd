//! The ways in which loading and storing settings can fail.

use vstd::prelude::*;

verus! {

/// Why an operation on the settings failed.
#[derive(Debug, Clone, PartialEq, Eq)]
pub enum SettingsError {
    /// A settings file could not be read or written; the text says why.
    Io(String),
    /// A settings file does not hold the expected JSON document; the text says why.
    Parse(String),
    /// The file naming convention, in lowercase, is neither `md5` nor `id`.
    InvalidNamingConvention(String),
    /// A slot of the process state was set a second time; the text names it.
    AlreadyInitialized(String),
}

} // verus!
