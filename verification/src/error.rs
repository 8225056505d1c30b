//! What can go wrong in the client.

use vstd::prelude::*;
use vstd::string::*;

verus! {

/// An error of the client.
#[derive(Debug)]
pub enum Error {
    NotInitialized,
    TracerUnavailable,
    Init(String),
    Config(String),
}

impl Error {
    /// The message of the error.
    pub open spec fn message(self) -> Seq<char> {
        match self {
            Error::NotInitialized => "client not initialized"@,
            Error::TracerUnavailable => "tracer not available"@,
            Error::Init(reason) => "initialization failed: "@ + reason@,
            Error::Config(reason) => reason@,
        }
    }

    /// The message of the error.
    pub fn to_string(&self) -> (message: String)
        ensures
            message@ == self.message(),
    {
        match self {
            Error::NotInitialized => "client not initialized".to_string(),
            Error::TracerUnavailable => "tracer not available".to_string(),
            Error::Init(reason) => "initialization failed: ".to_string().concat(reason.as_str()),
            Error::Config(reason) => reason.clone(),
        }
    }
}

} // verus!
