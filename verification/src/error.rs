//! The errors that the client reports.
use vstd::prelude::*;

verus! {

/// Why an operation of the client did not succeed.
///
/// Every failure is reported as exactly one of these kinds; none carries
/// further data, and none is retried or swallowed by the client.
#[derive(Debug, Clone, Copy, PartialEq, Eq, Structural)]
pub enum KlientError {
    /// The local transport could not be constructed.
    Client,
    /// The request did not reach the server, or no response was obtained.
    APIConnection,
    /// The server rejected the request as malformed.
    InvalidInput,
    /// Any other outcome that is not the success of the operation.
    InternalServerError,
}

impl KlientError {
    /// The text by which this error is shown to a reader.
    pub open spec fn spec_message(self) -> Seq<char> {
        match self {
            KlientError::Client => "client error"@,
            KlientError::APIConnection => "API connection Error"@,
            KlientError::InvalidInput => "Invalid user input"@,
            KlientError::InternalServerError => "Server side internal error"@,
        }
    }

    /// Returns the text by which this error is shown to a reader.
    pub fn message(&self) -> (text: String)
        ensures
            text@ == self.spec_message(),
    {
        match self {
            KlientError::Client => "client error".to_owned(),
            KlientError::APIConnection => "API connection Error".to_owned(),
            KlientError::InvalidInput => "Invalid user input".to_owned(),
            KlientError::InternalServerError => "Server side internal error".to_owned(),
        }
    }
}

} // verus!
