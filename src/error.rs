use vstd::prelude::*;

verus! {

/// The one way decoding the activation environment can fail.
#[non_exhaustive]
#[derive(Debug, Clone, Copy, PartialEq, Eq, Structural)]
pub enum Error {
    /// The environment contained non-empty, malformed socket activation variables
    /// (`LISTEN_PID` and/or `LISTEN_FDS`).
    MalformedEnv,
}

impl Error {
    /// A human-readable description of the error.
    pub fn message(&self) -> (r: &'static str)
        ensures
            r@ == "malformed socket activation environment"@,
    {
        match self {
            Error::MalformedEnv => "malformed socket activation environment",
        }
    }
}

} // verus!
