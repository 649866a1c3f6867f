//! What the client hands to the transport.
use vstd::prelude::*;
use crate::operation::{Encoding, Method, Operation};

verus! {

/// One request, ready to be encoded and submitted.
///
/// The client decides everything in it but the payload, which it carries
/// through unread.
#[derive(Debug, PartialEq, Eq)]
pub struct Request<P> {
    /// The operation that this request belongs to.
    pub operation: Operation,
    /// The method to submit it with.
    pub method: Method,
    /// The address to submit it to.
    pub url: String,
    /// How the payload becomes the body.
    pub encoding: Encoding,
    /// The data to encode into the body.
    pub payload: P,
}

} // verus!
