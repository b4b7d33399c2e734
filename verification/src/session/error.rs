use vstd::prelude::*;

verus! {

/// Why an identity could not be loaded or stored.
#[derive(Debug, Clone, Copy, PartialEq, Eq, Structural)]
pub enum SessionError {
    /// The record could not be read or written.
    Io,
    /// The record is no JSON object of the expected shape.
    Json,
    /// The home directory, under which the records live, is unknown.
    NoHomeDir,
}

impl SessionError {
    /// The message that describes this error.
    pub fn message(&self) -> (text: &'static str)
        ensures
            text@ == match *self {
                SessionError::Io => "io error"@,
                SessionError::Json => "json error"@,
                SessionError::NoHomeDir => "home directory not available"@,
            },
    {
        match self {
            SessionError::Io => "io error",
            SessionError::Json => "json error",
            SessionError::NoHomeDir => "home directory not available",
        }
    }
}

} // verus!
