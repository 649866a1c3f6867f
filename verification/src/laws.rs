//! What holds of every operation, whatever it is asked with.
use vstd::prelude::*;
use crate::error::KlientError;
use crate::operation::{Operation, BAD_REQUEST};
use crate::outcome::{spec_classify, Outcome};
use crate::transport::{spec_status, spec_status_code};

verus! {

/// The success code of an operation is never the code by which the server
/// rejects a malformed request: for every operation, success, bad request
/// and everything else are kept apart.
pub proof fn lemma_success_code_is_not_bad_request(operation: Operation)
    ensures
        operation.spec_success_code() != BAD_REQUEST,
{
}

/// Where the transport obtains no response, every operation fails with
/// `KlientError::APIConnection`. The payload has no part in it.
pub proof fn lemma_no_response_is_a_connection_error(operation: Operation)
    ensures
        operation.spec_conclude(Outcome::NoResponse) == Err::<(), KlientError>(
            KlientError::APIConnection,
        ),
{
}

/// An operation succeeds on a response with its success code, and on nothing
/// else.
pub proof fn lemma_success_exactly_on_the_success_code(operation: Operation, outcome: Outcome)
    ensures
        operation.spec_conclude(outcome) is Ok <==> outcome == Outcome::Status(
            operation.spec_success_code(),
        ),
{
}

/// A response with the bad-request code makes every operation fail with
/// `KlientError::InvalidInput`.
pub proof fn lemma_bad_request_is_an_invalid_input(operation: Operation)
    ensures
        operation.spec_conclude(Outcome::Status(BAD_REQUEST)) == Err::<(), KlientError>(
            KlientError::InvalidInput,
        ),
{
}

/// A response whose status is neither the operation's success code nor the
/// bad-request code makes the operation fail with
/// `KlientError::InternalServerError`.
pub proof fn lemma_any_other_status_is_a_server_error(operation: Operation, status: u16)
    requires
        status != operation.spec_success_code(),
        status != BAD_REQUEST,
    ensures
        operation.spec_conclude(Outcome::Status(status)) == Err::<(), KlientError>(
            KlientError::InternalServerError,
        ),
{
}

/// Each error has one cause: a connection error comes of no response and of
/// nothing else, an invalid input of the bad-request code, an internal server
/// error of a status that is neither that nor the success code. No outcome of
/// the transport is ever reported as `KlientError::Client`.
pub proof fn lemma_each_error_has_one_cause(operation: Operation, outcome: Outcome)
    ensures
        operation.spec_conclude(outcome) == Err::<(), KlientError>(KlientError::APIConnection)
            <==> outcome is NoResponse,
        operation.spec_conclude(outcome) == Err::<(), KlientError>(KlientError::InvalidInput)
            <==> outcome == Outcome::Status(BAD_REQUEST),
        operation.spec_conclude(outcome) == Err::<(), KlientError>(
            KlientError::InternalServerError,
        ) <==> (outcome matches Outcome::Status(status) && status
            != operation.spec_success_code() && status != BAD_REQUEST),
        operation.spec_conclude(outcome) != Err::<(), KlientError>(KlientError::Client),
{
}

/// Where the transport fails, whatever the failure, what it returned makes
/// every operation fail with `KlientError::APIConnection`.
pub proof fn lemma_transport_failure_is_a_connection_error(
    operation: Operation,
    failure: reqwest::Error,
)
    ensures
        operation.spec_conclude(
            Outcome::spec_of(Err::<reqwest::blocking::Response, reqwest::Error>(failure)),
        ) == Err::<(), KlientError>(KlientError::APIConnection),
{
}

/// A response is concluded from by its own status and by nothing else in it:
/// the operation succeeds exactly where that status is its success code,
/// fails with `KlientError::InvalidInput` exactly where it is the
/// bad-request code, and fails with `KlientError::InternalServerError` on
/// every other status. No response is a connection error.
pub proof fn lemma_response_is_concluded_by_its_status(
    operation: Operation,
    response: reqwest::blocking::Response,
)
    ensures
        ({
            let status = spec_status_code(spec_status(response));
            let result = operation.spec_conclude(
                Outcome::spec_of(Ok::<reqwest::blocking::Response, reqwest::Error>(response)),
            );
            &&& result == operation.spec_conclude(Outcome::Status(status))
            &&& result is Ok <==> status == operation.spec_success_code()
            &&& result == Err::<(), KlientError>(KlientError::InvalidInput) <==> status
                == BAD_REQUEST
            &&& result == Err::<(), KlientError>(KlientError::InternalServerError) <==> (status
                != operation.spec_success_code() && status != BAD_REQUEST)
            &&& result != Err::<(), KlientError>(KlientError::APIConnection)
            &&& result != Err::<(), KlientError>(KlientError::Client)
        }),
{
}

/// The classifier is the same for every success code: what it says of a
/// response depends on the status and on the success code alone, and a
/// response with the success code is a success even where that code is the
/// bad-request code.
pub proof fn lemma_classifier_puts_success_first(success_code: u16, status: u16)
    ensures
        spec_classify(success_code, Outcome::Status(status)) is Ok <==> status == success_code,
        spec_classify(success_code, Outcome::Status(status)) == Err::<(), KlientError>(
            KlientError::InvalidInput,
        ) <==> (status == BAD_REQUEST && success_code != BAD_REQUEST),
{
}

} // verus!
