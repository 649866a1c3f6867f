//! From what the transport reports to what the caller is told.
use reqwest::blocking::Response;
use vstd::prelude::*;
use crate::error::KlientError;
use crate::operation::{Operation, BAD_REQUEST};
use crate::transport::{spec_status, spec_status_code};

verus! {

/// What the transport reports of one request that was handed to it.
#[derive(Debug, Clone, Copy, PartialEq, Eq, Structural)]
pub enum Outcome {
    /// No response was obtained: the name did not resolve, the connection was
    /// refused or broke, or the time ran out.
    NoResponse,
    /// The server answered, with this status code.
    Status(u16),
}

impl Outcome {
    /// What the transport returned for a request, as an outcome: no response
    /// where it failed, whatever the failure, and else the number of the
    /// response's status.
    pub open spec fn spec_of(sent: Result<Response, reqwest::Error>) -> Outcome {
        match sent {
            Ok(response) => Outcome::Status(spec_status_code(spec_status(response))),
            Err(_) => Outcome::NoResponse,
        }
    }

    /// Reads off what the transport returned for a request: no response
    /// where it failed, whatever the failure, and else the number of the
    /// response's own status, which lies between 100 and 999.
    pub fn of(sent: Result<Response, reqwest::Error>) -> (outcome: Outcome)
        ensures
            outcome == Outcome::spec_of(sent),
            sent is Err <==> outcome is NoResponse,
            sent matches Ok(response) ==> outcome == Outcome::Status(
                spec_status_code(spec_status(response)),
            ),
            outcome matches Outcome::Status(status) ==> 100 <= status <= 999,
    {
        match sent {
            Ok(response) => Outcome::Status(response.status().as_u16()),
            Err(_) => Outcome::NoResponse,
        }
    }
}

/// The result of a request whose success is `success_code`, given what the
/// transport reported.
///
/// No response is a connection error. A response is a success where its
/// status is `success_code`; of the others, `BAD_REQUEST` is an invalid input
/// and every other status an internal server error.
pub open spec fn spec_classify(success_code: u16, outcome: Outcome) -> Result<(), KlientError> {
    match outcome {
        Outcome::NoResponse => Err(KlientError::APIConnection),
        Outcome::Status(status) => if status == success_code {
            Ok(())
        } else if status == BAD_REQUEST {
            Err(KlientError::InvalidInput)
        } else {
            Err(KlientError::InternalServerError)
        },
    }
}

/// Turns what the transport reported into the result of a request whose
/// success is `success_code`.
///
/// This is the one classifier that every operation goes through.
pub fn classify(success_code: u16, outcome: Outcome) -> (result: Result<(), KlientError>)
    ensures
        result == spec_classify(success_code, outcome),
{
    match outcome {
        Outcome::NoResponse => Err(KlientError::APIConnection),
        Outcome::Status(status) => {
            if status == success_code {
                Ok(())
            } else if status == BAD_REQUEST {
                Err(KlientError::InvalidInput)
            } else {
                Err(KlientError::InternalServerError)
            }
        },
    }
}

impl Operation {
    /// The result of this operation, given what the transport reported.
    pub open spec fn spec_conclude(self, outcome: Outcome) -> Result<(), KlientError> {
        spec_classify(self.spec_success_code(), outcome)
    }

    /// Turns what the transport reported into the result of this operation.
    pub fn conclude(self, outcome: Outcome) -> (result: Result<(), KlientError>)
        ensures
            result == self.spec_conclude(outcome),
    {
        classify(self.success_code(), outcome)
    }

    /// Turns what the transport returned for the request of this operation
    /// into the result of the operation.
    ///
    /// A failure of the transport is a connection error, whatever the
    /// failure. A response is concluded from by its own status, as `conclude`
    /// does: it is a success where that status is the success code of the
    /// operation, an invalid input where it is `BAD_REQUEST`, and an
    /// internal server error on every other status.
    pub fn finish(self, sent: Result<Response, reqwest::Error>) -> (result: Result<
        (),
        KlientError,
    >)
        ensures
            result == self.spec_conclude(Outcome::spec_of(sent)),
            sent is Err ==> result == Err::<(), KlientError>(KlientError::APIConnection),
            sent matches Ok(response) ==> result == self.spec_conclude(
                Outcome::Status(spec_status_code(spec_status(response))),
            ),
    {
        self.conclude(Outcome::of(sent))
    }
}

} // verus!
