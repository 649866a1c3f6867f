//! The transport that a handle holds: the blocking client of `reqwest`.
//!
//! Nothing here is proved. The types are opaque to Verus. What the
//! functions here return depends on what they are given and on nothing else,
//! so each result that a contract speaks of has a name: whether the options
//! of a transport ask for a cookie store, the status of a response, and the
//! number of a status. The transport is built from its options, and requests
//! are sent, outside this library: both depend on the machine.
use vstd::prelude::*;

verus! {

/// `reqwest::blocking::Client`, the transport itself: carried by a handle and
/// never looked into.
#[verifier::external_type_specification]
#[verifier::external_body]
pub struct ExClient(reqwest::blocking::Client);

/// `reqwest::blocking::ClientBuilder`, the options of a transport that is
/// yet to be built: made here, and handed to the caller, who builds.
#[verifier::external_type_specification]
#[verifier::external_body]
pub struct ExClientBuilder(reqwest::blocking::ClientBuilder);

/// `reqwest::Error`, the reason why a transport was not built or a request
/// got no response. The reason is never looked into.
#[verifier::external_type_specification]
#[verifier::external_body]
pub struct ExError(reqwest::Error);

/// `reqwest::blocking::multipart::Form`, the named text fields and files of a
/// multi-part body: carried by a request and never looked into.
#[verifier::external_type_specification]
#[verifier::external_body]
pub struct ExForm(reqwest::blocking::multipart::Form);

/// `reqwest::blocking::Response`, what the server answered: only its status
/// is read.
#[verifier::external_type_specification]
#[verifier::external_body]
pub struct ExResponse(reqwest::blocking::Response);

/// `reqwest::StatusCode`, the status of a response, which `reqwest` has from
/// the `http` crate: only its number is read.
#[verifier::external_type_specification]
#[verifier::external_body]
pub struct ExStatusCode(reqwest::StatusCode);

/// Whether the options `builder` ask for a cookie store: whether a transport
/// built from them keeps the cookies that it receives and sends them with
/// later requests. It is what `reqwest::blocking::Client::builder` and
/// `reqwest::blocking::ClientBuilder::cookie_store` have set.
pub uninterp spec fn spec_cookie_store(builder: reqwest::blocking::ClientBuilder) -> bool;

/// `reqwest::blocking::Client::builder` starts the options of a transport.
/// They ask for no cookie store; nothing else is claimed of them.
pub assume_specification[ reqwest::blocking::Client::builder ]() -> (builder:
    reqwest::blocking::ClientBuilder)
    ensures
        !spec_cookie_store(builder),
;

/// `reqwest::blocking::ClientBuilder::cookie_store` sets whether the transport
/// keeps the cookies that it receives and sends them with later requests:
/// the options that it returns ask for a cookie store exactly where `enable`
/// says so, whatever they asked for before. Nothing else is claimed of them.
pub assume_specification[ reqwest::blocking::ClientBuilder::cookie_store ](
    builder: reqwest::blocking::ClientBuilder,
    enable: bool,
) -> (configured: reqwest::blocking::ClientBuilder)
    ensures
        spec_cookie_store(configured) == enable,
;

/// The status that `reqwest::blocking::Response::status` hands out for
/// `response`: the one that the server answered with.
pub uninterp spec fn spec_status(response: reqwest::blocking::Response) -> reqwest::StatusCode;

/// The number that `reqwest::StatusCode::as_u16` gives for `status`.
pub uninterp spec fn spec_status_code(status: reqwest::StatusCode) -> u16;

/// `reqwest::blocking::Response::status` hands out the status of a response.
/// The status is a part of the response and of nothing else: the same
/// response has the same status, which is all that is claimed.
pub assume_specification[ reqwest::blocking::Response::status ](
    response: &reqwest::blocking::Response,
) -> (status: reqwest::StatusCode)
    ensures
        status == spec_status(*response),
;

/// `reqwest::StatusCode::as_u16` gives the number of a status code. The
/// number is a part of the status and of nothing else, and the type holds the
/// numbers from 100 to 999 and no others; which of them it is, is not
/// claimed.
pub assume_specification[ reqwest::StatusCode::as_u16 ](status: &reqwest::StatusCode) -> (code:
    u16)
    ensures
        code == spec_status_code(*status),
        100 <= code <= 999,
;

} // verus!
